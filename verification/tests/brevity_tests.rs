use awacs::brevity::{get_aircraft_ty, lookup_brevity_name};
use awacs::config::{Coalition, SrsConfigCoalition};

#[test]
fn known_designators_get_their_brevity_name() {
    assert_eq!(get_aircraft_ty(Some("Tornado GR4")), "tornado");
    assert_eq!(get_aircraft_ty(Some("FA-18C_hornet")), "hornet");
    assert_eq!(get_aircraft_ty(Some("F-14A-135-GR")), "tomcat");
    assert_eq!(get_aircraft_ty(Some("Su-27")), "flanker");
    assert_eq!(get_aircraft_ty(Some("J-11A")), "flanker");
    assert_eq!(get_aircraft_ty(Some("F-16C_50")), "viper");
    assert_eq!(get_aircraft_ty(Some("KC135MPRS")), "stratotanker");
    assert_eq!(get_aircraft_ty(Some("A-20G")), "havok");
    assert_eq!(get_aircraft_ty(Some("Mi-28N")), "havoc");
    assert_eq!(get_aircraft_ty(Some("SA342Minigun")), "gazelle");
    assert_eq!(get_aircraft_ty(Some("WingLoong-I")), "wing loong");
}

#[test]
fn unknown_designators_pass_through() {
    assert_eq!(get_aircraft_ty(Some("X-Wing")), "X-Wing");
    assert_eq!(get_aircraft_ty(Some("su-27")), "su-27");
    assert_eq!(get_aircraft_ty(Some("")), "");
}

#[test]
fn a_missing_designator_is_unknown() {
    assert_eq!(get_aircraft_ty(None), "unknown");
}

#[test]
fn lookup_tells_known_from_unknown() {
    assert_eq!(lookup_brevity_name("MiG-29S"), Some("fulcrum"));
    assert_eq!(lookup_brevity_name("MiG-29"), None);
}

#[test]
fn coalition_flips_and_has_its_telemetry_label() {
    assert_eq!(Coalition::Blue.flip(), Coalition::Red);
    assert_eq!(Coalition::Red.flip(), Coalition::Blue);
    assert_eq!(Coalition::Blue.flip().flip(), Coalition::Blue);
    assert_eq!(Coalition::Blue.as_tacview_coalition(), "Enemies");
    assert_eq!(Coalition::Red.as_tacview_coalition(), "Allies");
    assert_ne!(SrsConfigCoalition::Spectator, SrsConfigCoalition::Blue);
}
