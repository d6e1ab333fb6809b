use control_core::engine::{Engine, PowerAction, PowerKind, PulseStep, StateUpdate};
use control_core::ids::EngineError;
use control_core::pin::{Delays, Level, LineKind, PinConfig, PinMap};
use control_core::state::StateStore;

fn test_delays() -> Delays {
    Delays { button_press_delay_ms: 30, hard_power_delay_ms: 40 }
}

fn configured_engine() -> Engine {
    let mut pm = PinMap::empty();
    pm.set(LineKind::Input, 1, PinConfig { physical_pin: 0, asserted_level: Level::High });
    pm.set(LineKind::Input, 2, PinConfig { physical_pin: 1, asserted_level: Level::High });
    pm.set(LineKind::SoftPower, 1, PinConfig { physical_pin: 2, asserted_level: Level::Low });
    pm.set(LineKind::HardPower, 3, PinConfig { physical_pin: 5, asserted_level: Level::High });
    pm.set(LineKind::HardPower, 4, PinConfig { physical_pin: 6, asserted_level: Level::Low });
    Engine::new(pm, test_delays(), StateStore::init())
}

#[test]
fn invalid_id_rejected_everywhere() {
    let eng = configured_engine();
    for id in [0u8, 5, 6, 100, 255] {
        assert_eq!(eng.plan_select_input(id).unwrap_err(), EngineError::InvalidId);
        for kind in [PowerKind::Soft, PowerKind::Hard] {
            for action in [PowerAction::On, PowerAction::Off, PowerAction::Toggle] {
                assert_eq!(eng.plan_power(kind, id, action).unwrap_err(), EngineError::InvalidId);
            }
        }
    }
    // Planning has no side effects: the record is untouched.
    let snap = eng.current_status();
    assert_eq!(snap.current_input, None);
    assert!(!snap.hard_power.ch1 && !snap.hard_power.ch2 && !snap.hard_power.ch3 && !snap.hard_power.ch4);
}

#[test]
fn unconfigured_id_rejected_before_any_write() {
    let eng = configured_engine();
    // Channel 3 has no input line, channel 1 no hard-power line.
    assert_eq!(eng.plan_select_input(3).unwrap_err(), EngineError::UnconfiguredId);
    assert_eq!(
        eng.plan_power(PowerKind::Hard, 1, PowerAction::On).unwrap_err(),
        EngineError::UnconfiguredId
    );
    assert_eq!(
        eng.plan_power(PowerKind::Soft, 4, PowerAction::On).unwrap_err(),
        EngineError::UnconfiguredId
    );
}

#[test]
fn out_of_range_pin_rejected() {
    let mut pm = PinMap::empty();
    pm.set(LineKind::Input, 1, PinConfig { physical_pin: 8, asserted_level: Level::High });
    pm.set(LineKind::HardPower, 1, PinConfig { physical_pin: 200, asserted_level: Level::Low });
    let eng = Engine::new(pm, test_delays(), StateStore::init());
    assert_eq!(eng.plan_select_input(1).unwrap_err(), EngineError::InvalidPinConfig);
    assert_eq!(
        eng.plan_power(PowerKind::Hard, 1, PowerAction::Toggle).unwrap_err(),
        EngineError::InvalidPinConfig
    );
}

#[test]
fn input_selection_is_assert_hold_release_then_record() {
    let mut eng = configured_engine();
    let plan = eng.plan_select_input(2).unwrap();
    assert_eq!(plan.steps.len(), 2);
    assert_eq!(
        plan.steps[0],
        PulseStep { physical_pin: 1, level: Level::High, hold_ms: 30 }
    );
    assert_eq!(
        plan.steps[1],
        PulseStep { physical_pin: 1, level: Level::Low, hold_ms: 0 }
    );
    assert!(plan.steps[0].hold_ms >= test_delays().button_press_delay_ms);
    assert_eq!(plan.update, StateUpdate::SelectInput { id: 2 });

    let bytes = eng.commit(&plan, true).unwrap().unwrap();
    let snap = eng.current_status();
    assert_eq!(snap.current_input, Some(2));
    assert_eq!(bytes, eng.store.encoded());
}

#[test]
fn hard_power_on_is_one_write_with_true_record() {
    let mut eng = configured_engine();
    let plan = eng.plan_power(PowerKind::Hard, 3, PowerAction::On).unwrap();
    assert_eq!(plan.steps.len(), 1);
    assert_eq!(
        plan.steps[0],
        PulseStep { physical_pin: 5, level: Level::High, hold_ms: 0 }
    );
    assert_eq!(plan.update, StateUpdate::SetHardPower { id: 3, on: true });
    eng.commit(&plan, true).unwrap();
    assert!(eng.current_status().hard_power.ch3);
}

#[test]
fn hard_power_off_is_one_inverse_write_with_false_record() {
    let mut eng = configured_engine();
    let on_plan = eng.plan_power(PowerKind::Hard, 3, PowerAction::On).unwrap();
    eng.commit(&on_plan, true).unwrap();

    let plan = eng.plan_power(PowerKind::Hard, 3, PowerAction::Off).unwrap();
    assert_eq!(plan.steps.len(), 1);
    assert_eq!(
        plan.steps[0],
        PulseStep { physical_pin: 5, level: Level::Low, hold_ms: 0 }
    );
    assert_eq!(plan.update, StateUpdate::SetHardPower { id: 3, on: false });
    eng.commit(&plan, true).unwrap();
    assert!(!eng.current_status().hard_power.ch3);
}

#[test]
fn hard_power_toggle_is_two_writes_ending_on() {
    let mut eng = configured_engine();
    // Channel 4 is active-low: the toggle asserts High first, then Low.
    let plan = eng.plan_power(PowerKind::Hard, 4, PowerAction::Toggle).unwrap();
    assert_eq!(plan.steps.len(), 2);
    assert_eq!(
        plan.steps[0],
        PulseStep { physical_pin: 6, level: Level::High, hold_ms: 40 }
    );
    assert!(plan.steps[0].hold_ms >= test_delays().hard_power_delay_ms);
    assert_eq!(
        plan.steps[1],
        PulseStep { physical_pin: 6, level: Level::Low, hold_ms: 0 }
    );
    assert_eq!(plan.update, StateUpdate::SetHardPower { id: 4, on: true });
    eng.commit(&plan, true).unwrap();
    assert!(eng.current_status().hard_power.ch4);
}

#[test]
fn soft_power_is_a_stub_with_no_writes_and_no_record() {
    let mut eng = configured_engine();
    let before = eng.current_status();
    let plan = eng.plan_power(PowerKind::Soft, 1, PowerAction::On).unwrap();
    assert!(plan.steps.is_empty());
    assert_eq!(plan.update, StateUpdate::NoChange);
    let written = eng.commit(&plan, true).unwrap();
    assert!(written.is_none());
    assert_eq!(eng.current_status(), before);
}

#[test]
fn device_error_leaves_record_unchanged() {
    let mut eng = configured_engine();
    let setup = eng.plan_select_input(1).unwrap();
    eng.commit(&setup, true).unwrap();
    let before = eng.current_status();

    let plan = eng.plan_select_input(2).unwrap();
    assert_eq!(eng.commit(&plan, false).unwrap_err(), EngineError::DeviceError);
    assert_eq!(eng.current_status(), before);

    let hard = eng.plan_power(PowerKind::Hard, 3, PowerAction::On).unwrap();
    assert_eq!(eng.commit(&hard, false).unwrap_err(), EngineError::DeviceError);
    assert_eq!(eng.current_status(), before);
}

#[test]
fn engine_stays_usable_after_a_failed_request() {
    let mut eng = configured_engine();
    let plan = eng.plan_select_input(2).unwrap();
    assert!(eng.commit(&plan, false).is_err());
    let retry = eng.plan_select_input(2).unwrap();
    eng.commit(&retry, true).unwrap();
    assert_eq!(eng.current_status().current_input, Some(2));
}
