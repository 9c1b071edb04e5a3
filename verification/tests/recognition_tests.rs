use awacs::config::{Coalition, CommonConfig};
use awacs::recognition::{
    encode_utterance, possible_callsigns, Action, Event, IncomingTransmission, Intent, Phase,
    Recognizer, SILENCE_TIMEOUT_MILLIS,
};
use awacs::state::{TacviewState, Tag};
use awacs::telemetry::{ObjectProperty, Record};

fn config() -> CommonConfig {
    CommonConfig { callsign: "Magic".to_string(), coalition: Coalition::Blue }
}

fn picture() -> TacviewState {
    let mut state = TacviewState::new();
    for (id, pilot, coalition) in [
        (2u64, " Viper 1-1 | Bob ", "Enemies"),
        (1, "Enfield", "Enemies"),
        (3, "Bandit", "Allies"),
        (4, "a||b", "Enemies"),
    ] {
        state.apply(Record::Update(
            id,
            vec![
                ObjectProperty::Type(vec![Tag::Air]),
                ObjectProperty::Pilot(pilot.to_string()),
                ObjectProperty::Coalition(coalition.to_string()),
            ],
        ));
    }
    state
}

#[test]
fn intents_are_read_from_their_labels() {
    assert_eq!(Intent::from_label("radio_check"), Intent::RadioCheck);
    assert_eq!(Intent::from_label("request_bogey_dope"), Intent::RequestBogeyDope);
    assert_eq!(Intent::from_label("unknown"), Intent::Unknown);
    assert_eq!(Intent::from_label("Radio_Check"), Intent::Unknown);
    assert_eq!(Intent::from_label("request picture"), Intent::Unknown);
    assert_eq!(Intent::from_label(""), Intent::Unknown);
}

#[test]
fn callsign_hints_are_split_and_trimmed() {
    assert_eq!(
        possible_callsigns(&picture(), &config()),
        vec!["Enfield", "Viper 1-1", "Bob", "a", "", "b"]
    );
    assert!(possible_callsigns(&TacviewState::new(), &config()).is_empty());
    let red = CommonConfig { callsign: "Overlord".to_string(), coalition: Coalition::Red };
    assert_eq!(possible_callsigns(&picture(), &red), vec!["Bandit"]);
}

#[test]
fn an_utterance_is_packed_as_mono_16_bit_16_khz() {
    let bytes = encode_utterance(vec![1, -2, 0x1234]).unwrap();
    let mut expected: Vec<u8> = Vec::new();
    expected.extend_from_slice(b"RIFF");
    expected.extend_from_slice(&42u32.to_le_bytes());
    expected.extend_from_slice(b"WAVEfmt ");
    expected.extend_from_slice(&16u32.to_le_bytes());
    expected.extend_from_slice(&1u16.to_le_bytes());
    expected.extend_from_slice(&1u16.to_le_bytes());
    expected.extend_from_slice(&16000u32.to_le_bytes());
    expected.extend_from_slice(&32000u32.to_le_bytes());
    expected.extend_from_slice(&2u16.to_le_bytes());
    expected.extend_from_slice(&16u16.to_le_bytes());
    expected.extend_from_slice(b"data");
    expected.extend_from_slice(&6u32.to_le_bytes());
    expected.extend_from_slice(&[1, 0, 0xFE, 0xFF, 0x34, 0x12]);
    assert_eq!(bytes, expected);
    assert_eq!(encode_utterance(Vec::new()).unwrap().len(), 44);
}

#[test]
fn silence_without_speech_asks_for_no_transcript() {
    assert_eq!(SILENCE_TIMEOUT_MILLIS, 500);
    let mut cycle = Recognizer::new();
    for _ in 0..3 {
        let action = cycle.step(Event::Silence, &picture(), &config());
        assert!(matches!(action, Action::Listen));
        assert_eq!(cycle.phase, Phase::Listening);
    }
    let action = cycle.step(Event::Decoded(Vec::new()), &picture(), &config());
    assert!(matches!(action, Action::Listen));
    let action = cycle.step(Event::Undecodable, &picture(), &config());
    assert!(matches!(action, Action::Listen));
    let action = cycle.step(Event::Silence, &picture(), &config());
    assert!(matches!(action, Action::Listen));
    assert_eq!(cycle.phase, Phase::Listening);
}

#[test]
fn an_utterance_runs_through_the_cycle() {
    let state = picture();
    let mut cycle = Recognizer::new();
    assert!(matches!(cycle.step(Event::Decoded(vec![1, 2]), &state, &config()), Action::Listen));
    assert!(matches!(cycle.step(Event::Undecodable, &state, &config()), Action::Listen));
    assert!(matches!(cycle.step(Event::StreamError, &state, &config()), Action::Listen));
    assert!(matches!(cycle.step(Event::Decoded(vec![3]), &state, &config()), Action::Listen));
    assert_eq!(cycle.buffer, vec![1, 2, 3]);
    match cycle.step(Event::Silence, &state, &config()) {
        Action::Transcribe { audio, callsigns } => {
            assert_eq!(audio, encode_utterance(vec![1, 2, 3]).unwrap());
            assert_eq!(callsigns, possible_callsigns(&state, &config()));
        }
        other => panic!("{:?}", other),
    }
    assert_eq!(cycle.phase, Phase::Transcribing);
    assert!(cycle.buffer.is_empty());
    match cycle.step(Event::Transcribed(Some("Magic, Viper, radio check".to_string())), &state, &config()) {
        Action::Parse { transcript } => assert_eq!(transcript, "Magic, Viper, radio check"),
        other => panic!("{:?}", other),
    }
    assert_eq!(cycle.phase, Phase::Parsing);
    let call = IncomingTransmission {
        to_callsign: "magic".to_string(),
        from_callsign: "viper".to_string(),
        intent: Intent::RadioCheck,
    };
    match cycle.step(Event::Parsed(Some(call)), &state, &config()) {
        Action::Deliver(call) => {
            assert_eq!(call.to_callsign, "magic");
            assert_eq!(call.from_callsign, "viper");
            assert_eq!(call.intent, Intent::RadioCheck);
        }
        other => panic!("{:?}", other),
    }
    assert_eq!(cycle.phase, Phase::Listening);
}

#[test]
fn failures_give_the_utterance_up() {
    let state = picture();
    let mut cycle = Recognizer::new();
    cycle.step(Event::Decoded(vec![1]), &state, &config());
    cycle.step(Event::Silence, &state, &config());
    assert!(matches!(cycle.step(Event::Transcribed(None), &state, &config()), Action::Listen));
    assert_eq!(cycle.phase, Phase::Listening);
    cycle.step(Event::Decoded(vec![1]), &state, &config());
    cycle.step(Event::Silence, &state, &config());
    assert!(matches!(
        cycle.step(Event::Transcribed(Some(String::new())), &state, &config()),
        Action::Listen
    ));
    assert_eq!(cycle.phase, Phase::Listening);
    cycle.step(Event::Decoded(vec![1]), &state, &config());
    cycle.step(Event::Silence, &state, &config());
    cycle.step(Event::Transcribed(Some("garbled".to_string())), &state, &config());
    assert!(matches!(cycle.step(Event::Parsed(None), &state, &config()), Action::Listen));
    assert_eq!(cycle.phase, Phase::Listening);
    assert!(cycle.buffer.is_empty());
}

#[test]
fn a_closed_stream_stops_the_cycle_for_good() {
    let state = picture();
    let mut cycle = Recognizer::new();
    cycle.step(Event::Decoded(vec![1, 2, 3]), &state, &config());
    assert!(matches!(cycle.step(Event::Closed, &state, &config()), Action::Stop));
    assert_eq!(cycle.phase, Phase::Stopped);
    assert!(matches!(cycle.step(Event::Decoded(vec![1]), &state, &config()), Action::Stop));
    assert!(matches!(cycle.step(Event::Silence, &state, &config()), Action::Stop));
    assert_eq!(cycle.phase, Phase::Stopped);
}
