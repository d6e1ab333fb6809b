use control_core::codec::{encode_state, parse_state};
use control_core::engine::{Engine, PowerAction, PowerKind};
use control_core::pin::{Delays, Level, LineKind, PinConfig, PinMap};
use control_core::state::{HardPowerFlags, LoadError, StateStore, SystemState};

const DEFAULT_RECORD: &str = "{\n  \"current_input\": null,\n  \"hard_power_state\": {\n    \"1\": 0,\n    \"2\": 0,\n    \"3\": 0,\n    \"4\": 0\n  }\n}";

#[test]
fn load_or_init_without_a_file_starts_from_the_default_record() {
    let store = StateStore::load_or_init(None).unwrap();
    let snap = store.snapshot();
    assert_eq!(snap.current_input, None);
    assert!(!snap.hard_power.ch1 && !snap.hard_power.ch2 && !snap.hard_power.ch3 && !snap.hard_power.ch4);
    assert_eq!(store.encoded(), DEFAULT_RECORD.as_bytes().to_vec());
}

#[test]
fn load_or_init_is_idempotent() {
    let first = StateStore::load_or_init(None).unwrap();
    let written = first.encoded();
    let second = StateStore::load_or_init(Some(&written)).unwrap();
    assert_eq!(first.snapshot(), second.snapshot());
    assert_eq!(second.encoded(), written);
}

#[test]
fn load_or_init_rejects_malformed_records() {
    let cases: [&str; 6] = [
        "",
        "{}",
        "not json at all",
        // A trailing newline is not part of the canonical record.
        "{\n  \"current_input\": null,\n  \"hard_power_state\": {\n    \"1\": 0,\n    \"2\": 0,\n    \"3\": 0,\n    \"4\": 0\n  }\n}\n",
        // A flag outside 0/1.
        "{\n  \"current_input\": null,\n  \"hard_power_state\": {\n    \"1\": 2,\n    \"2\": 0,\n    \"3\": 0,\n    \"4\": 0\n  }\n}",
        // An input outside the valid set.
        "{\n  \"current_input\": 5,\n  \"hard_power_state\": {\n    \"1\": 0,\n    \"2\": 0,\n    \"3\": 0,\n    \"4\": 0\n  }\n}",
    ];
    for text in cases {
        let bytes = text.as_bytes().to_vec();
        assert_eq!(
            StateStore::load_or_init(Some(&bytes)).unwrap_err(),
            LoadError::MalformedRecord
        );
    }
}

#[test]
fn record_input_persists_the_selection() {
    let mut store = StateStore::init();
    store.record_input(2);
    assert_eq!(store.snapshot().current_input, Some(2));
    let reloaded = StateStore::load_or_init(Some(&store.encoded())).unwrap();
    assert_eq!(reloaded.snapshot(), store.snapshot());
}

#[test]
fn record_hard_power_last_write_wins_and_touches_nothing_else() {
    let mut store = StateStore::init();
    store.record_input(1);
    store.record_hard_power(3, true);
    let before = store.snapshot();

    store.record_hard_power(2, true);
    store.record_hard_power(2, false);
    let snap = store.snapshot();
    assert!(!snap.hard_power.get(2));
    assert_eq!(snap.hard_power.get(1), before.hard_power.get(1));
    assert_eq!(snap.hard_power.get(3), before.hard_power.get(3));
    assert_eq!(snap.hard_power.get(4), before.hard_power.get(4));
    assert_eq!(snap.current_input, before.current_input);
}

#[test]
fn reset_restores_the_initial_record() {
    let mut store = StateStore::init();
    store.record_input(4);
    store.record_hard_power(1, true);
    store.reset();
    assert_eq!(store.snapshot(), StateStore::init().snapshot());
    assert_eq!(store.encoded(), DEFAULT_RECORD.as_bytes().to_vec());
}

#[test]
fn encode_then_parse_round_trips_every_field_shape() {
    let states = [
        SystemState { current_input: None, hard_power: HardPowerFlags { ch1: false, ch2: false, ch3: false, ch4: false } },
        SystemState { current_input: Some(1), hard_power: HardPowerFlags { ch1: true, ch2: false, ch3: true, ch4: false } },
        SystemState { current_input: Some(4), hard_power: HardPowerFlags { ch1: true, ch2: true, ch3: true, ch4: true } },
        SystemState { current_input: None, hard_power: HardPowerFlags { ch1: false, ch2: true, ch3: false, ch4: true } },
    ];
    for s in states {
        let bytes = encode_state(&s);
        assert_eq!(parse_state(&bytes), Some(s));
    }
}

#[test]
fn parse_rejects_non_canonical_spacing() {
    // Same JSON value, different whitespace: not the canonical record.
    let text = "{ \"current_input\": null, \"hard_power_state\": { \"1\": 0, \"2\": 0, \"3\": 0, \"4\": 0 } }";
    assert_eq!(parse_state(&text.as_bytes().to_vec()), None);
}

#[test]
fn fresh_start_select_and_power_on_scenario() {
    // Startup with no record file: the store begins at the default and
    // hands back the bytes that create the file.
    let store = StateStore::load_or_init(None).unwrap();
    let file = store.encoded();
    assert_eq!(file, DEFAULT_RECORD.as_bytes().to_vec());

    let mut pm = PinMap::empty();
    pm.set(LineKind::Input, 2, PinConfig { physical_pin: 1, asserted_level: Level::High });
    pm.set(LineKind::HardPower, 3, PinConfig { physical_pin: 5, asserted_level: Level::High });
    let delays = Delays { button_press_delay_ms: 30, hard_power_delay_ms: 40 };
    let mut eng = Engine::new(pm, delays, store);

    let plan = eng.plan_select_input(2).unwrap();
    let file = eng.commit(&plan, true).unwrap().unwrap();
    assert_eq!(eng.current_status().current_input, Some(2));

    let plan = eng.plan_power(PowerKind::Hard, 3, PowerAction::On).unwrap();
    let file2 = eng.commit(&plan, true).unwrap().unwrap();
    assert!(eng.current_status().hard_power.get(3));
    assert_ne!(file, file2);

    // The persisted bytes reflect the same state the snapshot shows.
    let reloaded = StateStore::load_or_init(Some(&file2)).unwrap();
    assert_eq!(reloaded.snapshot(), eng.current_status());
    let text = String::from_utf8(file2).unwrap();
    assert!(text.contains("\"current_input\": 2"));
    assert!(text.contains("\"3\": 1"));
}
