use frc_ui::connection::{ConnectionController, ConnectionIdentity};
use frc_ui::display::{
    alliance_is_red, format_game_time, input_bindings_hint, selected_text, state_label,
    BINDINGS_HINT, UNKNOWN_STATE_HINT,
};
use frc_ui::value::NTValueType;

#[test]
fn reconnect_forwards_last_identity() {
    let mut c = ConnectionController::new(8726, 5810);
    assert_eq!(c.reconnect(), ConnectionIdentity { team: 8726, port: 5810 });
    c.set_identity(254, 5800);
    c.set_identity(1114, 1735);
    assert_eq!(c.reconnect(), ConnectionIdentity { team: 1114, port: 1735 });
    assert_eq!(c.identity(), ConnectionIdentity { team: 1114, port: 1735 });
}

#[test]
fn game_time_formats() {
    assert_eq!(format_game_time(Some(65)), "1:5");
    assert_eq!(format_game_time(Some(135)), "2:15");
    assert_eq!(format_game_time(Some(0)), "0:0");
    assert_eq!(format_game_time(Some(59)), "0:59");
    assert_eq!(format_game_time(Some(600)), "10:0");
    assert_eq!(format_game_time(None), "--:--");
}

#[test]
fn game_time_negative_rounds_toward_zero() {
    assert_eq!(format_game_time(Some(-65)), "-1:-5");
    assert_eq!(format_game_time(Some(-5)), "0:-5");
    assert_eq!(format_game_time(Some(-120)), "-2:0");
    assert_eq!(format_game_time(Some(i32::MIN)), format!("{}:{}", i32::MIN / 60, i32::MIN % 60));
    assert_eq!(format_game_time(Some(i32::MAX)), format!("{}:{}", i32::MAX / 60, i32::MAX % 60));
}

#[test]
fn bindings_hint_by_state() {
    let s = String::from("Intake");
    assert_eq!(input_bindings_hint(Some(&s)), BINDINGS_HINT);
    let s = String::from("ManualIntake");
    assert_eq!(input_bindings_hint(Some(&s)), BINDINGS_HINT);
    let s = String::from("Dancing");
    assert_eq!(input_bindings_hint(Some(&s)), UNKNOWN_STATE_HINT);
    assert_eq!(input_bindings_hint(None), UNKNOWN_STATE_HINT);
    assert_eq!(BINDINGS_HINT, "A: Do something | B: Do other thing | ...");
}

#[test]
fn panel_labels() {
    let state = NTValueType::String(String::from("Shooting"));
    assert_eq!(state_label(Some(&state)), "Current State: Shooting");
    assert_eq!(state_label(Some(&NTValueType::Integer(1))), "Current State: Unknown");
    assert_eq!(state_label(None), "Current State: Unknown");
    assert_eq!(selected_text(Some(&state), "None"), "Shooting");
    assert_eq!(selected_text(Some(&NTValueType::Unknown), "None"), "None");
    assert!(alliance_is_red(Some(&NTValueType::Boolean(true))));
    assert!(!alliance_is_red(Some(&NTValueType::Boolean(false))));
    assert!(!alliance_is_red(Some(&NTValueType::Integer(1))));
    assert!(!alliance_is_red(None));
}
