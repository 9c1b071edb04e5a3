//! Brevity names: what an aircraft type is called on the radio.

use crate::text::same_text;
use vstd::prelude::*;

verus! {

/// The brevity name of a type designator, for the designators that have one.
pub open spec fn brevity_name(d: Seq<char>) -> Option<Seq<char>> {
    if d == "Tornado GR4"@ || d == "Tornado IDS"@ {
        Some("tornado"@)
    } else if d == "F/A-18A"@ || d == "F/A-18C"@ || d == "FA-18C_hornet"@ {
        Some("hornet"@)
    } else if d == "F-14A"@ || d == "F-14B"@ || d == "F-14A-135-GR"@ {
        Some("tomcat"@)
    } else if d == "Tu-22M3"@ {
        Some("backfire"@)
    } else if d == "F-4E"@ {
        Some("phantom"@)
    } else if d == "B-52H"@ {
        Some("stratofortress"@)
    } else if d == "MiG-23MLD"@ || d == "MiG-27K"@ {
        Some("flogger"@)
    } else if d == "Su-27"@ || d == "Su-30"@ || d == "Su-33"@ || d == "J-11A"@ {
        Some("flanker"@)
    } else if d == "Su-25"@ || d == "Su-25TM"@ || d == "Su-25T"@ {
        Some("frogfoot"@)
    } else if d == "MiG-25PD"@ || d == "MiG-25RBT"@ {
        Some("foxbat"@)
    } else if d == "Su-17M4"@ {
        Some("fitter"@)
    } else if d == "MiG-31"@ {
        Some("foxhound"@)
    } else if d == "Tu-95MS"@ || d == "Tu-142"@ {
        Some("bear"@)
    } else if d == "Su-24M"@ || d == "Su-24MR"@ {
        Some("fencer"@)
    } else if d == "Tu-160"@ {
        Some("blackjack"@)
    } else if d == "F-117A"@ {
        Some("nighthawk"@)
    } else if d == "B-1B"@ {
        Some("lancer"@)
    } else if d == "S-3B"@ || d == "S-3B Tanker"@ {
        Some("viking"@)
    } else if d == "M-2000C"@ || d == "Mirage 2000-5"@ {
        Some("mirage"@)
    } else if d == "F-15C"@ || d == "F-15E"@ || d == "F-15ESE"@ {
        Some("eagle"@)
    } else if d == "MiG-29A"@ || d == "MiG-29G"@ || d == "MiG-29S"@ {
        Some("fulcrum"@)
    } else if d == "C-130"@ {
        Some("hercules"@)
    } else if d == "An-26B"@ {
        Some("curl"@)
    } else if d == "An-30M"@ {
        Some("clank"@)
    } else if d == "C-17A"@ {
        Some("globemaster"@)
    } else if d == "A-50"@ {
        Some("mainstay"@)
    } else if d == "E-3A"@ {
        Some("sentry"@)
    } else if d == "IL-78M"@ {
        Some("midas"@)
    } else if d == "E-2C"@ {
        Some("hawkeye"@)
    } else if d == "IL-76MD"@ {
        Some("candid"@)
    } else if d == "F-16A"@ || d == "F-16A MLU"@ || d == "F-16C_50"@ || d == "F-16C bl.50"@ || d == "F-16C bl.52d"@ {
        Some("viper"@)
    } else if d == "RQ-1A Predator"@ {
        Some("predator"@)
    } else if d == "Yak-40"@ {
        Some("codling"@)
    } else if d == "KC-130"@ {
        Some("hercules tanker"@)
    } else if d == "KC-135"@ || d == "KC135MPRS"@ {
        Some("stratotanker"@)
    } else if d == "A-20G"@ {
        Some("havok"@)
    } else if d == "A-10A"@ || d == "A-10C"@ || d == "A-10C_2"@ {
        Some("warthog"@)
    } else if d == "AJS37"@ {
        Some("viggen"@)
    } else if d == "AV8BNA"@ {
        Some("harrier"@)
    } else if d == "C-101EB"@ || d == "C-101CC"@ {
        Some("aviojet"@)
    } else if d == "JF-17"@ {
        Some("thunder"@)
    } else if d == "KJ-2000"@ {
        Some("mainring"@)
    } else if d == "WingLoong-I"@ {
        Some("wing loong"@)
    } else if d == "F-5E"@ || d == "F-5E-3"@ {
        Some("tiger"@)
    } else if d == "F-86F Sabre"@ {
        Some("saber"@)
    } else if d == "Hawk"@ {
        Some("hawk"@)
    } else if d == "L-39C"@ || d == "L-39ZA"@ {
        Some("albatros"@)
    } else if d == "MQ-9 Reaper"@ {
        Some("reaper"@)
    } else if d == "MiG-15bis"@ {
        Some("fagot"@)
    } else if d == "MiG-19P"@ {
        Some("farmer"@)
    } else if d == "MiG-21Bis"@ {
        Some("fishbed"@)
    } else if d == "Su-34"@ {
        Some("fullback"@)
    } else if d == "Ka-50"@ || d == "Ka-50_3"@ {
        Some("black shark"@)
    } else if d == "Mi-24V"@ || d == "Mi-24P"@ {
        Some("hind"@)
    } else if d == "Mi-8MT"@ {
        Some("hip"@)
    } else if d == "Mi-26"@ {
        Some("halo"@)
    } else if d == "Ka-27"@ {
        Some("helix"@)
    } else if d == "UH-60A"@ {
        Some("black hawk"@)
    } else if d == "CH-53E"@ {
        Some("super stallion"@)
    } else if d == "CH-47D"@ {
        Some("chinook"@)
    } else if d == "SH-3W"@ {
        Some("sea king"@)
    } else if d == "AH-64A"@ || d == "AH-64D"@ || d == "AH-64D_BLK_II"@ {
        Some("apache"@)
    } else if d == "AH-1W"@ {
        Some("cobra"@)
    } else if d == "SH-60B"@ {
        Some("seahawk"@)
    } else if d == "UH-1H"@ {
        Some("huey"@)
    } else if d == "Mi-28N"@ {
        Some("havoc"@)
    } else if d == "OH-58D"@ {
        Some("kiowa"@)
    } else if d == "SA342M"@ || d == "SA342L"@ || d == "SA342Mistral"@ || d == "SA342Minigun"@ {
        Some("gazelle"@)
    } else {
        None
    }
}

/// What a contact's type is called on the radio: the brevity name of its
/// designator; the designator itself where it has no brevity name; and
/// "unknown" where the contact has no designator.
pub open spec fn aircraft_type(name: Option<Seq<char>>) -> Seq<char> {
    match name {
        Some(d) => match brevity_name(d) {
            Some(brevity) => brevity,
            None => d,
        },
        None => "unknown"@,
    }
}

/// Looks a type designator up among those that have a brevity name.
pub fn lookup_brevity_name(d: &str) -> (r: Option<&'static str>)
    ensures
        match r {
            Some(brevity) => brevity_name(d@) == Some(brevity@),
            None => brevity_name(d@) is None,
        },
{
    if same_text(d, "Tornado GR4") || same_text(d, "Tornado IDS") {
        Some("tornado")
    } else if same_text(d, "F/A-18A") || same_text(d, "F/A-18C") || same_text(d, "FA-18C_hornet") {
        Some("hornet")
    } else if same_text(d, "F-14A") || same_text(d, "F-14B") || same_text(d, "F-14A-135-GR") {
        Some("tomcat")
    } else if same_text(d, "Tu-22M3") {
        Some("backfire")
    } else if same_text(d, "F-4E") {
        Some("phantom")
    } else if same_text(d, "B-52H") {
        Some("stratofortress")
    } else if same_text(d, "MiG-23MLD") || same_text(d, "MiG-27K") {
        Some("flogger")
    } else if same_text(d, "Su-27") || same_text(d, "Su-30") || same_text(d, "Su-33") || same_text(d, "J-11A") {
        Some("flanker")
    } else if same_text(d, "Su-25") || same_text(d, "Su-25TM") || same_text(d, "Su-25T") {
        Some("frogfoot")
    } else if same_text(d, "MiG-25PD") || same_text(d, "MiG-25RBT") {
        Some("foxbat")
    } else if same_text(d, "Su-17M4") {
        Some("fitter")
    } else if same_text(d, "MiG-31") {
        Some("foxhound")
    } else if same_text(d, "Tu-95MS") || same_text(d, "Tu-142") {
        Some("bear")
    } else if same_text(d, "Su-24M") || same_text(d, "Su-24MR") {
        Some("fencer")
    } else if same_text(d, "Tu-160") {
        Some("blackjack")
    } else if same_text(d, "F-117A") {
        Some("nighthawk")
    } else if same_text(d, "B-1B") {
        Some("lancer")
    } else if same_text(d, "S-3B") || same_text(d, "S-3B Tanker") {
        Some("viking")
    } else if same_text(d, "M-2000C") || same_text(d, "Mirage 2000-5") {
        Some("mirage")
    } else if same_text(d, "F-15C") || same_text(d, "F-15E") || same_text(d, "F-15ESE") {
        Some("eagle")
    } else if same_text(d, "MiG-29A") || same_text(d, "MiG-29G") || same_text(d, "MiG-29S") {
        Some("fulcrum")
    } else if same_text(d, "C-130") {
        Some("hercules")
    } else if same_text(d, "An-26B") {
        Some("curl")
    } else if same_text(d, "An-30M") {
        Some("clank")
    } else if same_text(d, "C-17A") {
        Some("globemaster")
    } else if same_text(d, "A-50") {
        Some("mainstay")
    } else if same_text(d, "E-3A") {
        Some("sentry")
    } else if same_text(d, "IL-78M") {
        Some("midas")
    } else if same_text(d, "E-2C") {
        Some("hawkeye")
    } else if same_text(d, "IL-76MD") {
        Some("candid")
    } else if same_text(d, "F-16A") || same_text(d, "F-16A MLU") || same_text(d, "F-16C_50") || same_text(d, "F-16C bl.50") || same_text(d, "F-16C bl.52d") {
        Some("viper")
    } else if same_text(d, "RQ-1A Predator") {
        Some("predator")
    } else if same_text(d, "Yak-40") {
        Some("codling")
    } else if same_text(d, "KC-130") {
        Some("hercules tanker")
    } else if same_text(d, "KC-135") || same_text(d, "KC135MPRS") {
        Some("stratotanker")
    } else if same_text(d, "A-20G") {
        Some("havok")
    } else if same_text(d, "A-10A") || same_text(d, "A-10C") || same_text(d, "A-10C_2") {
        Some("warthog")
    } else if same_text(d, "AJS37") {
        Some("viggen")
    } else if same_text(d, "AV8BNA") {
        Some("harrier")
    } else if same_text(d, "C-101EB") || same_text(d, "C-101CC") {
        Some("aviojet")
    } else if same_text(d, "JF-17") {
        Some("thunder")
    } else if same_text(d, "KJ-2000") {
        Some("mainring")
    } else if same_text(d, "WingLoong-I") {
        Some("wing loong")
    } else if same_text(d, "F-5E") || same_text(d, "F-5E-3") {
        Some("tiger")
    } else if same_text(d, "F-86F Sabre") {
        Some("saber")
    } else if same_text(d, "Hawk") {
        Some("hawk")
    } else if same_text(d, "L-39C") || same_text(d, "L-39ZA") {
        Some("albatros")
    } else if same_text(d, "MQ-9 Reaper") {
        Some("reaper")
    } else if same_text(d, "MiG-15bis") {
        Some("fagot")
    } else if same_text(d, "MiG-19P") {
        Some("farmer")
    } else if same_text(d, "MiG-21Bis") {
        Some("fishbed")
    } else if same_text(d, "Su-34") {
        Some("fullback")
    } else if same_text(d, "Ka-50") || same_text(d, "Ka-50_3") {
        Some("black shark")
    } else if same_text(d, "Mi-24V") || same_text(d, "Mi-24P") {
        Some("hind")
    } else if same_text(d, "Mi-8MT") {
        Some("hip")
    } else if same_text(d, "Mi-26") {
        Some("halo")
    } else if same_text(d, "Ka-27") {
        Some("helix")
    } else if same_text(d, "UH-60A") {
        Some("black hawk")
    } else if same_text(d, "CH-53E") {
        Some("super stallion")
    } else if same_text(d, "CH-47D") {
        Some("chinook")
    } else if same_text(d, "SH-3W") {
        Some("sea king")
    } else if same_text(d, "AH-64A") || same_text(d, "AH-64D") || same_text(d, "AH-64D_BLK_II") {
        Some("apache")
    } else if same_text(d, "AH-1W") {
        Some("cobra")
    } else if same_text(d, "SH-60B") {
        Some("seahawk")
    } else if same_text(d, "UH-1H") {
        Some("huey")
    } else if same_text(d, "Mi-28N") {
        Some("havoc")
    } else if same_text(d, "OH-58D") {
        Some("kiowa")
    } else if same_text(d, "SA342M") || same_text(d, "SA342L") || same_text(d, "SA342Mistral") || same_text(d, "SA342Minigun") {
        Some("gazelle")
    } else {
        None
    }
}

/// What a contact's type is called on the radio.
pub fn get_aircraft_ty<'a>(name: Option<&'a str>) -> (r: &'a str)
    ensures
        r@ == aircraft_type(
            match name {
                Some(d) => Some(d@),
                None => None,
            },
        ),
{
    match name {
        Some(d) => match lookup_brevity_name(d) {
            Some(brevity) => brevity,
            None => d,
        },
        None => "unknown",
    }
}

} // verus!
