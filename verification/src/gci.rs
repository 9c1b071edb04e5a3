//! The tactical engine: what the controller answers to a radio call.
//!
//! Ranges and bearings are measured outside this module, on the positions it
//! hands out; it decides who is asked about, which contact is reported, and
//! how the report is worded.

use crate::brevity::{aircraft_type, get_aircraft_ty};
use crate::config::{CommonConfig, CommonView};
use crate::numerals::{
    decimal, decimal_string, speak_digits, spoken_digits, wrap_degrees, wrapped_degrees,
};
use crate::recognition::{IncomingTransmission, IncomingView, Intent};
use crate::state::{
    text_of, views, ObjectView, Scalar, StateView, TacviewObject, TacviewState,
};
use crate::text::{lowercase, same_chars, to_lowercase};
use crate::transmission::{OutgoingTransmission, OutgoingView};
use vstd::prelude::*;
use vstd::string::*;

verus! {

// ---------------------------------------------------------------------------
// Wording
// ---------------------------------------------------------------------------

/// The compass point of a heading in whole degrees: eight sectors of 45
/// degrees, north centred on 0.
pub open spec fn cardinal_point(heading: int) -> Seq<char> {
    let h = wrap_degrees(heading);
    if 0 <= h <= 22 || 338 <= h <= 360 {
        "north"@
    } else if 23 <= h <= 67 {
        "north east"@
    } else if 68 <= h <= 112 {
        "east"@
    } else if 113 <= h <= 157 {
        "south east"@
    } else if 158 <= h <= 202 {
        "south"@
    } else if 203 <= h <= 247 {
        "south west"@
    } else if 248 <= h <= 292 {
        "west"@
    } else {
        "north west"@
    }
}

/// Names the compass point of a heading in whole degrees.
pub fn get_cardinal_point(heading: i64) -> (r: &'static str)
    ensures
        r@ == cardinal_point(heading as int),
{
    let h = wrapped_degrees(heading);
    if (0 <= h && h <= 22) || (338 <= h && h <= 360) {
        "north"
    } else if 23 <= h && h <= 67 {
        "north east"
    } else if 68 <= h && h <= 112 {
        "east"
    } else if 113 <= h && h <= 157 {
        "south east"
    } else if 158 <= h && h <= 202 {
        "south"
    } else if 203 <= h && h <= 247 {
        "south west"
    } else if 248 <= h && h <= 292 {
        "west"
    } else {
        "north west"
    }
}

/// How a contact flies relative to the line from the requester to it.
/// `offset` is the bearing to the contact less the contact's heading, in
/// whole degrees; `heading` is the contact's heading.
pub open spec fn aspect_phrase(offset: int, heading: int) -> Seq<char> {
    let a = wrap_degrees(offset);
    if 0 <= a <= 65 || 295 <= a <= 360 {
        "dragging "@ + cardinal_point(heading)
    } else if 66 <= a <= 115 || 245 <= a <= 294 {
        "beaming "@ + cardinal_point(heading)
    } else if 116 <= a <= 155 || 205 <= a <= 244 {
        "flanking "@ + cardinal_point(heading)
    } else {
        "hot"@
    }
}

/// Words a contact's aspect.
pub fn describe_aspect(offset: i64, heading: i64) -> (r: String)
    ensures
        r@ == aspect_phrase(offset as int, heading as int),
{
    let a = wrapped_degrees(offset);
    if (0 <= a && a <= 65) || (295 <= a && a <= 360) {
        let mut s = String::from_str("dragging ");
        s.append(get_cardinal_point(heading));
        s
    } else if (66 <= a && a <= 115) || (245 <= a && a <= 294) {
        let mut s = String::from_str("beaming ");
        s.append(get_cardinal_point(heading));
        s
    } else if (116 <= a && a <= 155) || (205 <= a && a <= 244) {
        let mut s = String::from_str("flanking ");
        s.append(get_cardinal_point(heading));
        s
    } else {
        String::from_str("hot")
    }
}

/// An altitude in whole thousands of feet, as it is said.
pub open spec fn altitude_phrase(thousands: nat) -> Seq<char> {
    if thousands == 0 {
        "on the deck"@
    } else if thousands == 1 {
        "one thousand"@
    } else {
        decimal(thousands) + " thousands"@
    }
}

/// Words an altitude given in whole thousands of feet.
pub fn describe_altitude(thousands: u64) -> (r: String)
    ensures
        r@ == altitude_phrase(thousands as nat),
{
    if thousands == 0 {
        String::from_str("on the deck")
    } else if thousands == 1 {
        String::from_str("one thousand")
    } else {
        let mut s = decimal_string(thousands);
        s.append(" thousands");
        s
    }
}

// ---------------------------------------------------------------------------
// Contacts
// ---------------------------------------------------------------------------

/// What was measured of one contact, seen from the requester.
#[derive(Clone, Copy, Debug)]
pub struct Braa {
    /// The bearing from the requester to the contact, cut to whole degrees.
    pub bearing: i64,
    /// A number that orders the contacts by range: a closer contact has a
    /// smaller one.
    pub range_order: u64,
    /// The range in whole nautical miles.
    pub range_miles: u64,
    /// The altitude in whole thousands of feet.
    pub altitude_thousands: u64,
    /// The bearing less the contact's heading, cut to whole degrees.
    pub aspect_offset: i64,
    /// The contact's heading, to the nearest whole degree.
    pub heading: i64,
}

/// A contact that can be reported.
#[derive(Debug)]
pub struct Contact {
    /// The type designator.
    pub name: Option<String>,
    pub braa: Braa,
}

/// The mathematical content of a [`Contact`].
pub struct ContactView {
    pub name: Option<Seq<char>>,
    pub braa: Braa,
}

impl View for Contact {
    type V = ContactView;

    open spec fn view(&self) -> ContactView {
        ContactView { name: text_of(self.name), braa: self.braa }
    }
}

/// The contents of a list of contacts.
pub open spec fn contact_views(contacts: Seq<Contact>) -> Seq<ContactView> {
    contacts.map_values(|c: Contact| c@)
}

/// The contact at `i` is the closest one, and the first of those that are as
/// close.
pub open spec fn is_closest(contacts: Seq<ContactView>, i: int) -> bool {
    &&& 0 <= i < contacts.len()
    &&& forall|j: int|
        0 <= j < i ==> (#[trigger] contacts[j]).braa.range_order > contacts[i].braa.range_order
    &&& forall|j: int|
        i <= j < contacts.len() ==> (#[trigger] contacts[j]).braa.range_order
            >= contacts[i].braa.range_order
}

/// The position of the closest contact.
pub open spec fn closest(contacts: Seq<ContactView>) -> int {
    choose|i: int| is_closest(contacts, i)
}

/// Only one position is that of the closest contact.
pub proof fn lemma_closest_unique(contacts: Seq<ContactView>, i: int, j: int)
    requires
        is_closest(contacts, i),
        is_closest(contacts, j),
    ensures
        i == j,
{
    if i < j {
        assert(contacts[i].braa.range_order > contacts[j].braa.range_order);
        assert(contacts[j].braa.range_order >= contacts[i].braa.range_order);
    } else if j < i {
        assert(contacts[j].braa.range_order > contacts[i].braa.range_order);
        assert(contacts[i].braa.range_order >= contacts[j].braa.range_order);
    }
}

/// Finds the closest contact: the first of them, if several are as close.
pub fn closest_contact(contacts: &Vec<Contact>) -> (r: Option<usize>)
    ensures
        match r {
            Some(i) => is_closest(contact_views(contacts@), i as int) && i == closest(
                contact_views(contacts@),
            ),
            None => contacts.len() == 0,
        },
{
    if contacts.len() == 0 {
        return None;
    }
    let ghost all = contact_views(contacts@);
    let mut best: usize = 0;
    let mut i: usize = 1;
    while i < contacts.len()
        invariant
            1 <= i <= contacts.len(),
            all == contact_views(contacts@),
            is_closest(all.take(i as int), best as int),
        decreases contacts.len() - i,
    {
        let ghost seen = all.take(i as int);
        let ghost next = all.take(i + 1);
        proof {
            assert(next[i as int] == contacts@[i as int]@);
            assert(seen[best as int] == contacts@[best as int]@);
            assert forall|j: int| 0 <= j < i implies next[j] == seen[j] by {}
        }
        if contacts[i].braa.range_order < contacts[best].braa.range_order {
            proof {
                assert forall|j: int| 0 <= j < i implies (#[trigger] next[j]).braa.range_order
                    > next[i as int].braa.range_order by {
                    assert(next[j] == seen[j]);
                    if j < best {
                        assert(seen[j].braa.range_order > seen[best as int].braa.range_order);
                    } else {
                        assert(seen[j].braa.range_order >= seen[best as int].braa.range_order);
                    }
                }
            }
            best = i;
        } else {
            proof {
                assert forall|j: int| 0 <= j < best implies (#[trigger] next[j]).braa.range_order
                    > next[best as int].braa.range_order by {
                    assert(next[j] == seen[j]);
                }
                assert forall|j: int| best <= j < i + 1 implies (#[trigger] next[j]).braa.range_order
                    >= next[best as int].braa.range_order by {
                    if j < i {
                        assert(next[j] == seen[j]);
                    }
                }
            }
        }
        i += 1;
    }
    proof {
        assert(all.take(contacts.len() as int) =~= all);
        lemma_closest_unique(all, best as int, closest(all));
    }
    Some(best)
}

/// The report of one contact: bearing, range, altitude, aspect and type.
pub open spec fn braa_message(braa: Braa, name: Option<Seq<char>>) -> Seq<char> {
    "bandit braa "@ + spoken_digits(wrap_degrees(braa.bearing as int)) + ", for "@ + decimal(
        braa.range_miles as nat,
    ) + " miles, "@ + altitude_phrase(braa.altitude_thousands as nat) + ", "@ + aspect_phrase(
        braa.aspect_offset as int,
        braa.heading as int,
    ) + ", type "@ + aircraft_type(name)
}

/// Words the report of one contact.
pub fn describe_contact(contact: &Contact) -> (r: String)
    ensures
        r@ == braa_message(contact@.braa, contact@.name),
{
    let braa = contact.braa;
    let bearing = speak_digits(wrapped_degrees(braa.bearing));
    let range = decimal_string(braa.range_miles);
    let altitude = describe_altitude(braa.altitude_thousands);
    let aspect = describe_aspect(braa.aspect_offset, braa.heading);
    let ty = match &contact.name {
        Some(designator) => get_aircraft_ty(Some(designator.as_str())),
        None => get_aircraft_ty(None),
    };
    let mut s = String::from_str("bandit braa ");
    s.append(bearing.as_str());
    s.append(", for ");
    s.append(range.as_str());
    s.append(" miles, ");
    s.append(altitude.as_str());
    s.append(", ");
    s.append(aspect.as_str());
    s.append(", type ");
    s.append(ty);
    s
}

/// What is said of the measured contacts: the report of the closest one, or
/// that there is none.
pub open spec fn report(contacts: Seq<ContactView>) -> Seq<char> {
    if contacts.len() == 0 {
        "Scope is currently clear"@
    } else {
        let nearest = contacts[closest(contacts)];
        braa_message(nearest.braa, nearest.name)
    }
}

// ---------------------------------------------------------------------------
// Replies
// ---------------------------------------------------------------------------

/// A reply of the controller `controller` to `requester`.
pub open spec fn reply(requester: Seq<char>, controller: Seq<char>, message: Seq<char>)
    -> OutgoingView {
    OutgoingView { to_callsign: requester, from_callsign: controller, message }
}

/// Addresses a message of the controller to `requester`.
pub fn reply_to(requester: String, config: &CommonConfig, message: String) -> (r:
    OutgoingTransmission)
    ensures
        r@ == reply(requester@, config@.callsign, message@),
{
    OutgoingTransmission {
        to_callsign: requester,
        from_callsign: config.callsign.clone(),
        message,
    }
}

/// Answers a request for bogey dope once the contacts have been measured:
/// reports the closest of them, or that the scope is clear.
pub fn report_bogey_dope(requester: String, config: &CommonConfig, contacts: &Vec<Contact>) -> (r:
    OutgoingTransmission)
    ensures
        r@ == reply(requester@, config@.callsign, report(contact_views(contacts@))),
{
    match closest_contact(contacts) {
        Some(i) => {
            let message = describe_contact(&contacts[i]);
            reply_to(requester, config, message)
        },
        None => reply_to(requester, config, String::from_str("Scope is currently clear")),
    }
}

// ---------------------------------------------------------------------------
// Requests
// ---------------------------------------------------------------------------

/// An opposing aircraft of which position, altitude and heading are known.
#[derive(Debug)]
pub struct Candidate {
    pub longitude: Scalar,
    pub latitude: Scalar,
    pub altitude: Scalar,
    pub heading: Scalar,
    /// The type designator.
    pub name: Option<String>,
}

/// The mathematical content of a [`Candidate`].
pub struct CandidateView {
    pub longitude: Scalar,
    pub latitude: Scalar,
    pub altitude: Scalar,
    pub heading: Scalar,
    pub name: Option<Seq<char>>,
}

impl View for Candidate {
    type V = CandidateView;

    open spec fn view(&self) -> CandidateView {
        CandidateView {
            longitude: self.longitude,
            latitude: self.latitude,
            altitude: self.altitude,
            heading: self.heading,
            name: text_of(self.name),
        }
    }
}

/// The contents of a list of candidates.
pub open spec fn candidate_views(candidates: Seq<Candidate>) -> Seq<CandidateView> {
    candidates.map_values(|c: Candidate| c@)
}

/// What has to be measured before a request for bogey dope can be answered.
/// Longitudes and latitudes are offsets from the reference origin.
#[derive(Debug)]
pub struct Survey {
    /// Whom the report is for.
    pub requester: String,
    pub reference_longitude: Scalar,
    pub reference_latitude: Scalar,
    /// Where the requester is.
    pub own_longitude: Scalar,
    pub own_latitude: Scalar,
    /// The opposing aircraft, smallest identifier first. There is at least
    /// one.
    pub candidates: Vec<Candidate>,
}

/// The mathematical content of a [`Survey`].
pub struct SurveyView {
    pub requester: Seq<char>,
    pub reference_longitude: Scalar,
    pub reference_latitude: Scalar,
    pub own_longitude: Scalar,
    pub own_latitude: Scalar,
    pub candidates: Seq<CandidateView>,
}

impl View for Survey {
    type V = SurveyView;

    open spec fn view(&self) -> SurveyView {
        SurveyView {
            requester: self.requester@,
            reference_longitude: self.reference_longitude,
            reference_latitude: self.reference_latitude,
            own_longitude: self.own_longitude,
            own_latitude: self.own_latitude,
            candidates: candidate_views(self.candidates@),
        }
    }
}

/// Why the controller says nothing.
#[derive(Clone, Copy, Debug, PartialEq, Eq, Structural)]
pub enum Silence {
    /// The call was for somebody else.
    NotAddressed,
    /// The call was for the controller, but what it asks is not known.
    UnknownIntent,
    /// The reference origin or the requester's position is not known yet.
    Uninitialized,
}

/// What the controller does about a radio call.
#[derive(Debug)]
pub enum Response {
    /// Nothing is sent.
    Silent(Silence),
    /// This is sent.
    Reply(OutgoingTransmission),
    /// The contacts of this survey are to be measured; the answer is then
    /// made by [`report_bogey_dope`].
    Measure(Survey),
}

/// The mathematical content of a [`Response`].
pub enum ResponseView {
    Silent(Silence),
    Reply(OutgoingView),
    Measure(SurveyView),
}

impl View for Response {
    type V = ResponseView;

    open spec fn view(&self) -> ResponseView {
        match self {
            Response::Silent(why) => ResponseView::Silent(*why),
            Response::Reply(transmission) => ResponseView::Reply(transmission@),
            Response::Measure(survey) => ResponseView::Measure(survey@),
        }
    }
}

/// An object as a candidate, if all its axes are known.
pub open spec fn candidate_of() -> spec_fn(ObjectView) -> Option<CandidateView> {
    |o: ObjectView|
        if o.coords.complete() {
            Some(
                CandidateView {
                    longitude: o.coords.longitude->0,
                    latitude: o.coords.latitude->0,
                    altitude: o.coords.altitude->0,
                    heading: o.coords.heading->0,
                    name: o.name,
                },
            )
        } else {
            None
        }
}

/// The aircraft of the side labelled `coalition` of which all axes are
/// known, smallest identifier first.
pub open spec fn candidates(picture: StateView, coalition: Seq<char>) -> Seq<CandidateView> {
    picture.air_objects(coalition).filter_map(candidate_of())
}

/// What the controller does about a request for bogey dope from `requester`.
pub open spec fn bogey_dope(picture: StateView, requester: Seq<char>, config: CommonView)
    -> ResponseView {
    let own_side = config.coalition.telemetry_label();
    match picture.find_air_object(requester, own_side) {
        None => ResponseView::Reply(
            reply(requester, config.callsign, "I cannot find you on scope"@),
        ),
        Some(own) => if own.coalition != Some(own_side) {
            ResponseView::Reply(reply(requester, config.callsign, "You are not in my coalition"@))
        } else if picture.reference_latitude is None || picture.reference_longitude is None
            || own.coords.latitude is None || own.coords.longitude is None {
            ResponseView::Silent(Silence::Uninitialized)
        } else {
            let found = candidates(picture, config.coalition.flipped().telemetry_label());
            if found.len() == 0 {
                ResponseView::Reply(reply(requester, config.callsign, "Scope is currently clear"@))
            } else {
                ResponseView::Measure(
                    SurveyView {
                        requester,
                        reference_longitude: picture.reference_longitude->0,
                        reference_latitude: picture.reference_latitude->0,
                        own_longitude: own.coords.longitude->0,
                        own_latitude: own.coords.latitude->0,
                        candidates: found,
                    },
                )
            }
        },
    }
}

/// Whether a call to `to_callsign` is meant for the controller `callsign`:
/// the two are the same but for case.
pub open spec fn addressed(to_callsign: Seq<char>, callsign: Seq<char>) -> bool {
    lowercase(to_callsign) == lowercase(callsign)
}

/// What the controller does about a radio call.
pub open spec fn respond(picture: StateView, incoming: IncomingView, config: CommonView)
    -> ResponseView {
    if !addressed(incoming.to_callsign, config.callsign) {
        ResponseView::Silent(Silence::NotAddressed)
    } else {
        match incoming.intent {
            Intent::Unknown => ResponseView::Silent(Silence::UnknownIntent),
            Intent::RadioCheck => ResponseView::Reply(
                reply(incoming.from_callsign, config.callsign, "5 by 5"@),
            ),
            Intent::RequestBogeyDope => bogey_dope(picture, incoming.from_callsign, config),
        }
    }
}

/// Picks, among the aircraft of a side, those of which all axes are known.
fn complete_candidates(aircraft: &Vec<&TacviewObject>) -> (r: Vec<Candidate>)
    ensures
        candidate_views(r@) == views(aircraft@).filter_map(candidate_of()),
{
    let ghost all = views(aircraft@);
    let mut out: Vec<Candidate> = Vec::new();
    let mut i: usize = 0;
    proof {
        assert(all.take(0) =~= Seq::<ObjectView>::empty());
        assert(candidate_views(out@) =~= Seq::<CandidateView>::empty());
    }
    while i < aircraft.len()
        invariant
            i <= aircraft.len(),
            all == views(aircraft@),
            candidate_views(out@) == all.take(i as int).filter_map(candidate_of()),
        decreases aircraft.len() - i,
    {
        let object = aircraft[i];
        proof {
            let next = all.take(i + 1);
            assert(next.drop_last() =~= all.take(i as int));
            assert(next.last() == object@);
        }
        match (
            object.coords.longitude,
            object.coords.latitude,
            object.coords.altitude,
            object.coords.heading,
        ) {
            (Some(longitude), Some(latitude), Some(altitude), Some(heading)) => {
                let name = match &object.name {
                    Some(designator) => Some(designator.clone()),
                    None => None,
                };
                let candidate = Candidate { longitude, latitude, altitude, heading, name };
                let ghost before = candidate_views(out@);
                proof {
                    assert((candidate_of())(object@) == Some(candidate@));
                }
                out.push(candidate);
                proof {
                    assert(candidate_views(out@) =~= before + seq![candidate@]);
                }
            },
            _ => {},
        }
        i += 1;
    }
    proof {
        assert(all.take(aircraft.len() as int) =~= all);
    }
    out
}

/// Decides what to do about a request for bogey dope.
///
/// The requester is looked for among the aircraft of the controller's own
/// side. If the picture is ready and holds opposing aircraft, they are
/// handed out to be measured.
pub fn handle_bogey_dope(
    incoming_transmission: IncomingTransmission,
    state: &TacviewState,
    common_config: &CommonConfig,
) -> (r: Response)
    ensures
        r@ == bogey_dope(state@, incoming_transmission@.from_callsign, common_config@),
{
    let requester = incoming_transmission.from_callsign;
    let own_side = common_config.coalition.as_tacview_coalition();
    match state.find_air_object_by_callsign(requester.as_str(), own_side) {
        None => Response::Reply(
            reply_to(requester, common_config, String::from_str("I cannot find you on scope")),
        ),
        Some(own) => {
            if !own.in_coalition(own_side) {
                return Response::Reply(
                    reply_to(
                        requester,
                        common_config,
                        String::from_str("You are not in my coalition"),
                    ),
                );
            }
            match (
                state.reference_latitude,
                state.reference_longitude,
                own.coords.latitude,
                own.coords.longitude,
            ) {
                (
                    Some(reference_latitude),
                    Some(reference_longitude),
                    Some(own_latitude),
                    Some(own_longitude),
                ) => {
                    let opposing = common_config.coalition.flip().as_tacview_coalition();
                    let bandits = state.list_air_object_by_coalition(opposing);
                    let found = complete_candidates(&bandits);
                    if found.len() == 0 {
                        Response::Reply(
                            reply_to(
                                requester,
                                common_config,
                                String::from_str("Scope is currently clear"),
                            ),
                        )
                    } else {
                        Response::Measure(
                            Survey {
                                requester,
                                reference_longitude,
                                reference_latitude,
                                own_longitude,
                                own_latitude,
                                candidates: found,
                            },
                        )
                    }
                },
                _ => Response::Silent(Silence::Uninitialized),
            }
        },
    }
}

/// Decides what to do about a radio call.
pub fn handle_transmission(
    incoming_transmission: IncomingTransmission,
    state: &TacviewState,
    common_config: &CommonConfig,
) -> (r: Response)
    ensures
        r@ == respond(state@, incoming_transmission@, common_config@),
{
    let to = to_lowercase(incoming_transmission.to_callsign.as_str());
    let own = to_lowercase(common_config.callsign.as_str());
    if !same_chars(&to, &own) {
        return Response::Silent(Silence::NotAddressed);
    }
    match incoming_transmission.intent {
        Intent::Unknown => Response::Silent(Silence::UnknownIntent),
        Intent::RadioCheck => Response::Reply(
            reply_to(
                incoming_transmission.from_callsign,
                common_config,
                String::from_str("5 by 5"),
            ),
        ),
        Intent::RequestBogeyDope => handle_bogey_dope(incoming_transmission, state, common_config),
    }
}

// ---------------------------------------------------------------------------
// What holds of every call
// ---------------------------------------------------------------------------

/// A radio check addressed to the controller is answered with "5 by 5",
/// whatever the picture holds.
pub proof fn lemma_radio_check_is_answered(
    picture: StateView,
    incoming: IncomingView,
    config: CommonView,
)
    requires
        incoming.intent == Intent::RadioCheck,
        addressed(incoming.to_callsign, config.callsign),
    ensures
        respond(picture, incoming, config) == ResponseView::Reply(
            reply(incoming.from_callsign, config.callsign, "5 by 5"@),
        ),
{
}

/// A request for bogey dope from somebody whom no aircraft of the
/// controller's side answers to gets "I cannot find you on scope", and
/// nothing else is looked at.
pub proof fn lemma_unknown_requester_is_told(
    picture: StateView,
    incoming: IncomingView,
    config: CommonView,
)
    requires
        incoming.intent == Intent::RequestBogeyDope,
        addressed(incoming.to_callsign, config.callsign),
        picture.find_air_object(incoming.from_callsign, config.coalition.telemetry_label())
            is None,
    ensures
        respond(picture, incoming, config) == ResponseView::Reply(
            reply(incoming.from_callsign, config.callsign, "I cannot find you on scope"@),
        ),
{
}

/// Whoever is found as a requester is of the side that was searched: a
/// request is never turned down for the requester's coalition.
pub proof fn lemma_found_requester_is_own_side(
    picture: StateView,
    requester: Seq<char>,
    coalition: Seq<char>,
)
    ensures
        picture.find_air_object(requester, coalition) matches Some(own) ==> own.is_air_of(
            coalition,
        ) && own.answers_to(requester),
{
    let wanted = crate::state::air_answering(requester, coalition);
    let found = picture.in_order().filter(wanted);
    if found.len() > 0 {
        picture.in_order().lemma_filter_pred(wanted, 0);
    }
}

} // verus!
