use bevy::input::keyboard::KeyCode;
use bevy::input::mouse::MouseButton;
use bevy::input::Input;
use bevy_panorbit_camera::controls::{orbit_just_pressed_or_released, orbit_pressed, pan_pressed, PanOrbitControls};

fn default_controls() -> PanOrbitControls {
    PanOrbitControls::default()
}

fn mouse(buttons: &[MouseButton]) -> Input<MouseButton> {
    let mut input = Input::default();
    for b in buttons {
        input.press(*b);
    }
    input
}

fn keys(held: &[KeyCode]) -> Input<KeyCode> {
    let mut input = Input::default();
    for k in held {
        input.press(*k);
    }
    input
}

#[test]
fn default_controls_have_documented_defaults() {
    let c = default_controls();
    assert_eq!(c.button_orbit, MouseButton::Left);
    assert_eq!(c.button_pan, MouseButton::Right);
    assert_eq!(c.modifier_orbit, None);
    assert_eq!(c.modifier_pan, None);
    assert!(!c.reversed_zoom);
    assert!(!c.is_upside_down);
    assert!(!c.allow_upside_down);
    assert!(c.enabled);
    assert!(!c.initialized);
}

#[test]
fn orbit_needs_its_button() {
    let c = default_controls();
    assert!(!orbit_pressed(&c, &mouse(&[]), &keys(&[])));
    assert!(orbit_pressed(&c, &mouse(&[MouseButton::Left]), &keys(&[])));
    assert!(!orbit_pressed(&c, &mouse(&[MouseButton::Right]), &keys(&[])));
}

#[test]
fn pan_needs_its_button() {
    let c = default_controls();
    assert!(!pan_pressed(&c, &mouse(&[]), &keys(&[])));
    assert!(pan_pressed(&c, &mouse(&[MouseButton::Right]), &keys(&[])));
    assert!(!pan_pressed(&c, &mouse(&[MouseButton::Left]), &keys(&[])));
}

#[test]
fn without_modifiers_both_bindings_can_be_active() {
    let c = default_controls();
    let m = mouse(&[MouseButton::Left, MouseButton::Right]);
    assert!(orbit_pressed(&c, &m, &keys(&[])));
    assert!(pan_pressed(&c, &m, &keys(&[])));
}

#[test]
fn orbit_modifier_must_be_held() {
    let mut c = default_controls();
    c.modifier_orbit = Some(KeyCode::LShift);
    let m = mouse(&[MouseButton::Left]);
    assert!(!orbit_pressed(&c, &m, &keys(&[])));
    assert!(orbit_pressed(&c, &m, &keys(&[KeyCode::LShift])));
    assert!(!orbit_pressed(&c, &m, &keys(&[KeyCode::LControl])));
}

#[test]
fn pan_modifier_blocks_orbit() {
    let mut c = default_controls();
    c.modifier_pan = Some(KeyCode::LControl);
    let m = mouse(&[MouseButton::Left]);
    assert!(orbit_pressed(&c, &m, &keys(&[])));
    assert!(!orbit_pressed(&c, &m, &keys(&[KeyCode::LControl])));
}

#[test]
fn orbit_modifier_blocks_pan() {
    let mut c = default_controls();
    c.modifier_orbit = Some(KeyCode::LShift);
    let m = mouse(&[MouseButton::Right]);
    assert!(pan_pressed(&c, &m, &keys(&[])));
    assert!(!pan_pressed(&c, &m, &keys(&[KeyCode::LShift])));
}

#[test]
fn same_button_with_modifiers_is_exclusive() {
    // One button, told apart by the modifier key: never both at once.
    let mut c = PanOrbitControls::default();
    c.button_pan = MouseButton::Left;
    c.modifier_orbit = Some(KeyCode::LShift);
    c.modifier_pan = Some(KeyCode::LControl);
    let m = mouse(&[MouseButton::Left]);
    for held in [
        vec![],
        vec![KeyCode::LShift],
        vec![KeyCode::LControl],
        vec![KeyCode::LShift, KeyCode::LControl],
    ] {
        let k = keys(&held);
        assert!(!(orbit_pressed(&c, &m, &k) && pan_pressed(&c, &m, &k)));
    }
    assert!(orbit_pressed(&c, &m, &keys(&[KeyCode::LShift])));
    assert!(pan_pressed(&c, &m, &keys(&[KeyCode::LControl])));
    assert!(!orbit_pressed(&c, &m, &keys(&[KeyCode::LShift, KeyCode::LControl])));
    assert!(!pan_pressed(&c, &m, &keys(&[KeyCode::LShift, KeyCode::LControl])));
}

#[test]
fn orbit_press_and_release_are_changes() {
    let c = default_controls();
    let mut m: Input<MouseButton> = Input::default();
    assert!(!orbit_just_pressed_or_released(&c, &m, &keys(&[])));
    m.press(MouseButton::Left);
    assert!(orbit_just_pressed_or_released(&c, &m, &keys(&[])));
    m.clear();
    // Still held, but no longer a change.
    assert!(!orbit_just_pressed_or_released(&c, &m, &keys(&[])));
    assert!(orbit_pressed(&c, &m, &keys(&[])));
    m.release(MouseButton::Left);
    assert!(orbit_just_pressed_or_released(&c, &m, &keys(&[])));
    assert!(!orbit_pressed(&c, &m, &keys(&[])));
}

#[test]
fn orbit_change_respects_modifiers() {
    let mut c = default_controls();
    c.modifier_orbit = Some(KeyCode::LAlt);
    c.modifier_pan = Some(KeyCode::LControl);
    let m = mouse(&[MouseButton::Left]);
    assert!(!orbit_just_pressed_or_released(&c, &m, &keys(&[])));
    assert!(orbit_just_pressed_or_released(&c, &m, &keys(&[KeyCode::LAlt])));
    assert!(!orbit_just_pressed_or_released(&c, &m, &keys(&[KeyCode::LAlt, KeyCode::LControl])));
}

#[test]
fn pan_button_change_is_not_an_orbit_change() {
    let c = default_controls();
    let m = mouse(&[MouseButton::Right]);
    assert!(!orbit_just_pressed_or_released(&c, &m, &keys(&[])));
}

#[test]
fn pan_follows_the_orbit_rule_with_roles_swapped() {
    let mut c = PanOrbitControls::default();
    c.button_pan = MouseButton::Middle;
    c.modifier_orbit = Some(KeyCode::LAlt);
    let mut swapped = c;
    swapped.button_orbit = c.button_pan;
    swapped.button_pan = c.button_orbit;
    swapped.modifier_orbit = c.modifier_pan;
    swapped.modifier_pan = c.modifier_orbit;
    for buttons in [vec![], vec![MouseButton::Left], vec![MouseButton::Middle], vec![MouseButton::Left, MouseButton::Middle]] {
        for held in [vec![], vec![KeyCode::LAlt]] {
            let m = mouse(&buttons);
            let k = keys(&held);
            assert_eq!(pan_pressed(&c, &m, &k), orbit_pressed(&swapped, &m, &k));
        }
    }
}
