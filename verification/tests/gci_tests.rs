use awacs::config::{Coalition, CommonConfig};
use awacs::gci::{
    closest_contact, describe_altitude, describe_aspect, describe_contact, get_cardinal_point,
    handle_bogey_dope, handle_transmission, report_bogey_dope, Braa, Contact, Response, Silence,
};
use awacs::recognition::{IncomingTransmission, Intent};
use awacs::state::{Coords, Scalar, TacviewState, Tag};
use awacs::telemetry::{GlobalProperty, ObjectProperty, Record};

fn num(x: f64) -> Scalar {
    Scalar { bits: x.to_bits() }
}

fn config() -> CommonConfig {
    CommonConfig { callsign: "Magic".to_string(), coalition: Coalition::Blue }
}

fn call(to: &str, from: &str, intent: Intent) -> IncomingTransmission {
    IncomingTransmission {
        to_callsign: to.to_string(),
        from_callsign: from.to_string(),
        intent,
    }
}

fn aircraft(pilot: &str, coalition: &str, coords: Coords, name: Option<&str>) -> Vec<ObjectProperty> {
    let mut properties = vec![
        ObjectProperty::Type(vec![Tag::Air]),
        ObjectProperty::Pilot(pilot.to_string()),
        ObjectProperty::Coalition(coalition.to_string()),
        ObjectProperty::T(coords),
    ];
    if let Some(name) = name {
        properties.push(ObjectProperty::Name(name.to_string()));
    }
    properties
}

fn full(latitude: f64, longitude: f64, altitude: f64, heading: f64) -> Coords {
    Coords {
        longitude: Some(num(longitude)),
        latitude: Some(num(latitude)),
        altitude: Some(num(altitude)),
        heading: Some(num(heading)),
    }
}

fn ready_picture() -> TacviewState {
    let mut state = TacviewState::new();
    state.apply(Record::GlobalProperties(vec![
        GlobalProperty::ReferenceLatitude(num(41.0)),
        GlobalProperty::ReferenceLongitude(num(37.0)),
    ]));
    state.apply(Record::Update(1, aircraft("Viper 1-1", "Enemies", full(0.0, 0.0, 5000.0, 10.0), None)));
    state
}

fn braa(bearing: i64, range_order: u64, range_miles: u64, thousands: u64, offset: i64, heading: i64) -> Braa {
    Braa {
        bearing,
        range_order,
        range_miles,
        altitude_thousands: thousands,
        aspect_offset: offset,
        heading,
    }
}

fn reply_of(response: Response) -> (String, String, String) {
    match response {
        Response::Reply(t) => (t.to_callsign, t.from_callsign, t.message),
        other => panic!("no reply: {:?}", other),
    }
}

#[test]
fn cardinal_points_have_sectors_of_45_degrees() {
    let expected = [
        (0, "north"), (22, "north"), (23, "north east"), (67, "north east"), (68, "east"),
        (112, "east"), (113, "south east"), (157, "south east"), (158, "south"), (202, "south"),
        (203, "south west"), (247, "south west"), (248, "west"), (292, "west"),
        (293, "north west"), (337, "north west"), (338, "north"), (359, "north"), (360, "north"),
        (405, "north east"), (-1, "north"), (-90, "west"), (-360, "north"), (-400, "north west"),
        (-420, "north west"), (-697, "north east"), (-1000, "east"),
    ];
    for (heading, name) in expected {
        assert_eq!(get_cardinal_point(heading), name, "{heading}");
    }
}

#[test]
fn aspect_is_classified_by_the_wrapped_offset() {
    assert_eq!(describe_aspect(0, 90), "dragging east");
    assert_eq!(describe_aspect(65, 0), "dragging north");
    assert_eq!(describe_aspect(66, 0), "beaming north");
    assert_eq!(describe_aspect(115, 180), "beaming south");
    assert_eq!(describe_aspect(116, 180), "flanking south");
    assert_eq!(describe_aspect(155, 270), "flanking west");
    assert_eq!(describe_aspect(156, 270), "hot");
    assert_eq!(describe_aspect(180, 270), "hot");
    assert_eq!(describe_aspect(204, 270), "hot");
    assert_eq!(describe_aspect(205, 45), "flanking north east");
    assert_eq!(describe_aspect(244, 45), "flanking north east");
    assert_eq!(describe_aspect(245, 45), "beaming north east");
    assert_eq!(describe_aspect(294, 45), "beaming north east");
    assert_eq!(describe_aspect(295, 45), "dragging north east");
    assert_eq!(describe_aspect(-180, 180), "hot");
    assert_eq!(describe_aspect(-10, 135), "dragging south east");
    assert_eq!(describe_aspect(-539, 359), "hot");
    assert_eq!(describe_aspect(-390, 300), "dragging north west");
    assert_eq!(describe_aspect(-650, -700), "beaming north");
    assert_eq!(describe_aspect(-480, 90), "flanking east");
}

#[test]
fn altitude_is_said_in_thousands() {
    assert_eq!(describe_altitude(0), "on the deck");
    assert_eq!(describe_altitude(1), "one thousand");
    assert_eq!(describe_altitude(2), "2 thousands");
    assert_eq!(describe_altitude(10), "10 thousands");
    assert_eq!(describe_altitude(45), "45 thousands");
}

#[test]
fn a_contact_to_the_north_flying_south_is_hot() {
    let contact = Contact { name: Some("Su-27".to_string()), braa: braa(0, 1, 60, 10, -180, 180) };
    assert_eq!(
        describe_contact(&contact),
        "bandit braa 0 0 0, for 60 miles, 10 thousands, hot, type flanker"
    );
    let contact = Contact { name: None, braa: braa(-135, 1, 7, 0, -135, 0) };
    assert_eq!(
        describe_contact(&contact),
        "bandit braa 2 2 5, for 7 miles, on the deck, flanking north, type unknown"
    );
    let contact = Contact { name: Some("UFO".to_string()), braa: braa(45, 1, 0, 1, 15, 30) };
    assert_eq!(
        describe_contact(&contact),
        "bandit braa 0 4 5, for 0 miles, one thousand, dragging north east, type UFO"
    );
}

#[test]
fn the_closest_contact_is_the_first_of_the_nearest() {
    let contacts: Vec<Contact> = [5u64, 3, 9, 3, 4]
        .iter()
        .map(|order| Contact { name: None, braa: braa(0, *order, 0, 0, 0, 0) })
        .collect();
    assert_eq!(closest_contact(&contacts), Some(1));
    assert_eq!(closest_contact(&Vec::new()), None);
    let one = vec![Contact { name: None, braa: braa(0, u64::MAX, 0, 0, 0, 0) }];
    assert_eq!(closest_contact(&one), Some(0));
}

#[test]
fn the_report_is_about_the_closest_contact() {
    let contacts = vec![
        Contact { name: Some("MiG-29A".to_string()), braa: braa(90, 40.5f64.to_bits(), 40, 20, 0, 90) },
        Contact { name: Some("Su-27".to_string()), braa: braa(0, 12.25f64.to_bits(), 12, 10, 180, 180) },
        Contact { name: Some("F-4E".to_string()), braa: braa(270, 12.5f64.to_bits(), 12, 5, 90, 180) },
    ];
    let reply = report_bogey_dope("Viper 1-1".to_string(), &config(), &contacts);
    assert_eq!(reply.to_callsign, "Viper 1-1");
    assert_eq!(reply.from_callsign, "Magic");
    assert_eq!(reply.message, "bandit braa 0 0 0, for 12 miles, 10 thousands, hot, type flanker");
    let reply = report_bogey_dope("Viper 1-1".to_string(), &config(), &Vec::new());
    assert_eq!(reply.message, "Scope is currently clear");
}

#[test]
fn a_radio_check_is_answered_whatever_the_picture_holds() {
    for state in [TacviewState::new(), ready_picture()] {
        let response = handle_transmission(call("MAGIC", "Viper 1-1", Intent::RadioCheck), &state, &config());
        assert_eq!(
            reply_of(response),
            ("Viper 1-1".to_string(), "Magic".to_string(), "5 by 5".to_string())
        );
    }
}

#[test]
fn a_call_for_somebody_else_is_dropped() {
    let response = handle_transmission(call("Overlord", "Viper 1-1", Intent::RadioCheck), &ready_picture(), &config());
    assert!(matches!(response, Response::Silent(Silence::NotAddressed)));
    let response = handle_transmission(call("Magic ", "Viper 1-1", Intent::RequestBogeyDope), &ready_picture(), &config());
    assert!(matches!(response, Response::Silent(Silence::NotAddressed)));
}

#[test]
fn an_unknown_intent_gets_no_reply() {
    let response = handle_transmission(call("magic", "Viper 1-1", Intent::Unknown), &ready_picture(), &config());
    assert!(matches!(response, Response::Silent(Silence::UnknownIntent)));
}

#[test]
fn an_unknown_requester_is_told_so() {
    let response = handle_transmission(call("Magic", "Enfield 1", Intent::RequestBogeyDope), &ready_picture(), &config());
    assert_eq!(
        reply_of(response),
        ("Enfield 1".to_string(), "Magic".to_string(), "I cannot find you on scope".to_string())
    );
    let response = handle_bogey_dope(call("Magic", "Viper", Intent::RequestBogeyDope), &TacviewState::new(), &config());
    assert_eq!(reply_of(response).2, "I cannot find you on scope");
}

#[test]
fn a_requester_of_the_other_side_is_not_found() {
    let mut state = ready_picture();
    state.apply(Record::Update(2, aircraft("Bandit 1", "Allies", full(1.0, 0.0, 3048.0, 180.0), None)));
    let response = handle_bogey_dope(call("Magic", "Bandit 1", Intent::RequestBogeyDope), &state, &config());
    assert_eq!(reply_of(response).2, "I cannot find you on scope");
}

#[test]
fn without_origin_or_own_position_nothing_is_said() {
    let mut state = TacviewState::new();
    state.apply(Record::Update(1, aircraft("Viper 1-1", "Enemies", full(0.0, 0.0, 0.0, 0.0), None)));
    let response = handle_bogey_dope(call("Magic", "Viper", Intent::RequestBogeyDope), &state, &config());
    assert!(matches!(response, Response::Silent(Silence::Uninitialized)));
    let mut state = TacviewState::new();
    state.apply(Record::GlobalProperties(vec![
        GlobalProperty::ReferenceLatitude(num(41.0)),
        GlobalProperty::ReferenceLongitude(num(37.0)),
    ]));
    let nowhere = Coords { longitude: Some(num(0.0)), latitude: None, altitude: None, heading: None };
    state.apply(Record::Update(1, aircraft("Viper 1-1", "Enemies", nowhere, None)));
    let response = handle_bogey_dope(call("Magic", "Viper", Intent::RequestBogeyDope), &state, &config());
    assert!(matches!(response, Response::Silent(Silence::Uninitialized)));
}

#[test]
fn an_empty_scope_is_reported_clear() {
    let mut state = ready_picture();
    let partial = Coords { longitude: Some(num(1.0)), latitude: Some(num(1.0)), altitude: Some(num(1.0)), heading: None };
    state.apply(Record::Update(2, aircraft("Bandit 1", "Allies", partial, None)));
    state.apply(Record::Update(
        3,
        vec![
            ObjectProperty::Type(vec![Tag::Ground]),
            ObjectProperty::Coalition("Allies".to_string()),
            ObjectProperty::T(full(1.0, 1.0, 0.0, 0.0)),
        ],
    ));
    let response = handle_bogey_dope(call("Magic", "Viper 1-1", Intent::RequestBogeyDope), &state, &config());
    assert_eq!(reply_of(response).2, "Scope is currently clear");
}

#[test]
fn opposing_aircraft_are_handed_out_to_be_measured() {
    let mut state = ready_picture();
    state.apply(Record::Update(9, aircraft("Bandit 2", "Allies", full(2.0, 0.5, 6000.0, 90.0), Some("MiG-29A"))));
    state.apply(Record::Update(4, aircraft("Bandit 1", "Allies", full(1.0, 0.0, 3048.0, 180.0), Some("Su-27"))));
    state.apply(Record::Update(5, aircraft("Viper 1-2", "Enemies", full(0.1, 0.1, 100.0, 0.0), None)));
    let response = handle_transmission(call("magic", "viper 11", Intent::RequestBogeyDope), &state, &config());
    let survey = match response {
        Response::Measure(survey) => survey,
        other => panic!("no survey: {:?}", other),
    };
    assert_eq!(survey.requester, "viper 11");
    assert_eq!(survey.reference_latitude, num(41.0));
    assert_eq!(survey.reference_longitude, num(37.0));
    assert_eq!(survey.own_latitude, num(0.0));
    assert_eq!(survey.own_longitude, num(0.0));
    assert_eq!(survey.candidates.len(), 2);
    assert_eq!(survey.candidates[0].name.as_deref(), Some("Su-27"));
    assert_eq!(survey.candidates[0].latitude, num(1.0));
    assert_eq!(survey.candidates[0].altitude, num(3048.0));
    assert_eq!(survey.candidates[0].heading, num(180.0));
    assert_eq!(survey.candidates[1].name.as_deref(), Some("MiG-29A"));
    assert_eq!(survey.candidates[1].longitude, num(0.5));
}

#[test]
fn the_red_controller_looks_for_blue_aircraft() {
    let red = CommonConfig { callsign: "Overlord".to_string(), coalition: Coalition::Red };
    let mut state = ready_picture();
    state.apply(Record::Update(4, aircraft("Bandit 1", "Allies", full(1.0, 0.0, 3048.0, 180.0), None)));
    let response = handle_transmission(call("overlord", "bandit", Intent::RequestBogeyDope), &state, &red);
    let survey = match response {
        Response::Measure(survey) => survey,
        other => panic!("no survey: {:?}", other),
    };
    assert_eq!(survey.candidates.len(), 1);
    assert_eq!(survey.candidates[0].latitude, num(0.0));
}
