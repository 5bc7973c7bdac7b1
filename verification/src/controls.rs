//! Mouse and keyboard bindings of the camera, and when each binding is active.
//!
//! Orbiting and panning each have a mouse button and an optional modifier
//! key. A binding is active when its modifier (if any) is held, its button is
//! held, and the other binding's modifier (if any) is not held.

use crate::input::{
    button_held, button_just_pressed, button_just_released, held_buttons, held_keys, just_pressed_buttons,
    just_released_buttons, key_held,
};
use bevy::input::keyboard::KeyCode;
use bevy::input::mouse::MouseButton;
use bevy::input::Input;
use vstd::prelude::*;

verus! {

/// The control settings of a pan/orbit camera (everything the controller
/// decides with, apart from the angles, positions and sensitivities).
#[derive(Clone, Copy, Debug)]
pub struct PanOrbitControls {
    /// Button used to orbit the camera.
    pub button_orbit: MouseButton,
    /// Button used to pan the camera.
    pub button_pan: MouseButton,
    /// Key that must be held for `button_orbit` to work; `None` for no modifier.
    pub modifier_orbit: Option<KeyCode>,
    /// Key that must be held for `button_pan` to work; `None` for no modifier.
    pub modifier_pan: Option<KeyCode>,
    /// Whether to reverse the zoom direction.
    pub reversed_zoom: bool,
    /// Whether the camera is currently upside down.
    pub is_upside_down: bool,
    /// Whether the camera may go upside down.
    pub allow_upside_down: bool,
    /// If `false`, the camera ignores user input.
    pub enabled: bool,
    /// Whether the camera has been initialised with its initial configuration.
    pub initialized: bool,
}

/// An optional modifier is satisfied when it is absent or held.
pub open spec fn modifier_held(modifier: Option<KeyCode>, keys: Set<KeyCode>) -> bool {
    match modifier {
        Some(key) => keys.contains(key),
        None => true,
    }
}

/// An optional modifier is out of the way when it is absent or not held.
pub open spec fn modifier_free(modifier: Option<KeyCode>, keys: Set<KeyCode>) -> bool {
    match modifier {
        Some(key) => !keys.contains(key),
        None => true,
    }
}

/// The orbit binding is active: its modifier is satisfied, its button is held,
/// and the pan modifier is out of the way.
pub open spec fn orbit_active(controls: PanOrbitControls, buttons: Set<MouseButton>, keys: Set<KeyCode>) -> bool {
    &&& modifier_held(controls.modifier_orbit, keys)
    &&& buttons.contains(controls.button_orbit)
    &&& modifier_free(controls.modifier_pan, keys)
}

/// The pan binding is active: its modifier is satisfied, its button is held,
/// and the orbit modifier is out of the way.
pub open spec fn pan_active(controls: PanOrbitControls, buttons: Set<MouseButton>, keys: Set<KeyCode>) -> bool {
    &&& modifier_held(controls.modifier_pan, keys)
    &&& buttons.contains(controls.button_pan)
    &&& modifier_free(controls.modifier_orbit, keys)
}

/// The orbit button went down or up this frame while the orbit binding's
/// modifiers were in the orbit position.
pub open spec fn orbit_toggled(
    controls: PanOrbitControls,
    pressed: Set<MouseButton>,
    released: Set<MouseButton>,
    keys: Set<KeyCode>,
) -> bool {
    &&& modifier_held(controls.modifier_orbit, keys)
    &&& (pressed.contains(controls.button_orbit) || released.contains(controls.button_orbit))
    &&& modifier_free(controls.modifier_pan, keys)
}

/// The same controls with the orbit and pan bindings exchanged.
pub open spec fn roles_swapped(controls: PanOrbitControls) -> PanOrbitControls {
    PanOrbitControls {
        button_orbit: controls.button_pan,
        button_pan: controls.button_orbit,
        modifier_orbit: controls.modifier_pan,
        modifier_pan: controls.modifier_orbit,
        ..controls
    }
}

impl Default for PanOrbitControls {
    /// The default settings: orbit with the left button, pan with the right
    /// button, no modifiers, zoom not reversed, not upside down, upside down
    /// not allowed, enabled, and not yet initialised.
    fn default() -> (controls: Self)
        ensures
            controls.button_orbit == MouseButton::Left,
            controls.button_pan == MouseButton::Right,
            controls.modifier_orbit is None,
            controls.modifier_pan is None,
            !controls.reversed_zoom,
            !controls.is_upside_down,
            !controls.allow_upside_down,
            controls.enabled,
            !controls.initialized,
    {
        PanOrbitControls {
            button_orbit: MouseButton::Left,
            button_pan: MouseButton::Right,
            modifier_orbit: None,
            modifier_pan: None,
            reversed_zoom: false,
            is_upside_down: false,
            allow_upside_down: false,
            enabled: true,
            initialized: false,
        }
    }
}

/// Whether `modifier` is absent or held in `key_input`.
fn modifier_is_held(modifier: Option<KeyCode>, key_input: &Input<KeyCode>) -> (held: bool)
    ensures
        held == modifier_held(modifier, held_keys(*key_input)),
{
    match modifier {
        Some(key) => key_held(key_input, key),
        None => true,
    }
}

/// Whether `modifier` is absent or not held in `key_input`.
fn modifier_is_free(modifier: Option<KeyCode>, key_input: &Input<KeyCode>) -> (free: bool)
    ensures
        free == modifier_free(modifier, held_keys(*key_input)),
{
    match modifier {
        Some(key) => !key_held(key_input, key),
        None => true,
    }
}

/// Whether the orbit binding is active in the current input state.
pub fn orbit_pressed(pan_orbit: &PanOrbitControls, mouse_input: &Input<MouseButton>, key_input: &Input<KeyCode>) -> (pressed: bool)
    ensures
        pressed == orbit_active(*pan_orbit, held_buttons(*mouse_input), held_keys(*key_input)),
{
    let is_pressed = modifier_is_held(pan_orbit.modifier_orbit, key_input)
        && button_held(mouse_input, pan_orbit.button_orbit);
    is_pressed && modifier_is_free(pan_orbit.modifier_pan, key_input)
}

/// Whether the orbit button was pressed or released this frame while the
/// orbit binding's modifiers were in the orbit position.
pub fn orbit_just_pressed_or_released(
    pan_orbit: &PanOrbitControls,
    mouse_input: &Input<MouseButton>,
    key_input: &Input<KeyCode>,
) -> (changed: bool)
    ensures
        changed == orbit_toggled(
            *pan_orbit,
            just_pressed_buttons(*mouse_input),
            just_released_buttons(*mouse_input),
            held_keys(*key_input),
        ),
{
    let just_pressed = modifier_is_held(pan_orbit.modifier_orbit, key_input) && (button_just_pressed(
        mouse_input,
        pan_orbit.button_orbit,
    ) || button_just_released(mouse_input, pan_orbit.button_orbit));
    just_pressed && modifier_is_free(pan_orbit.modifier_pan, key_input)
}

/// Whether the pan binding is active in the current input state.
pub fn pan_pressed(pan_orbit: &PanOrbitControls, mouse_input: &Input<MouseButton>, key_input: &Input<KeyCode>) -> (pressed: bool)
    ensures
        pressed == pan_active(*pan_orbit, held_buttons(*mouse_input), held_keys(*key_input)),
{
    let is_pressed = modifier_is_held(pan_orbit.modifier_pan, key_input)
        && button_held(mouse_input, pan_orbit.button_pan);
    is_pressed && modifier_is_free(pan_orbit.modifier_orbit, key_input)
}

/// Once either binding has a modifier key, orbiting and panning are never
/// active together, whatever buttons and keys are held.
pub proof fn lemma_orbit_pan_exclusive_with_modifier(
    controls: PanOrbitControls,
    buttons: Set<MouseButton>,
    keys: Set<KeyCode>,
)
    requires
        controls.modifier_orbit is Some || controls.modifier_pan is Some,
    ensures
        !(orbit_active(controls, buttons, keys) && pan_active(controls, buttons, keys)),
{
}

/// The pan binding is active exactly when the orbit binding of the controls
/// with both bindings exchanged is active: the two bindings follow one rule.
pub proof fn lemma_pan_is_orbit_with_roles_swapped(
    controls: PanOrbitControls,
    buttons: Set<MouseButton>,
    keys: Set<KeyCode>,
)
    ensures
        pan_active(controls, buttons, keys) == orbit_active(roles_swapped(controls), buttons, keys),
{
}

/// Whenever the orbit button's change counts this frame, the modifiers were in
/// the same position that an active orbit binding needs.
pub proof fn lemma_orbit_toggle_needs_orbit_modifiers(
    controls: PanOrbitControls,
    pressed: Set<MouseButton>,
    released: Set<MouseButton>,
    buttons: Set<MouseButton>,
    keys: Set<KeyCode>,
)
    requires
        orbit_toggled(controls, pressed, released, keys),
    ensures
        buttons.contains(controls.button_orbit) ==> orbit_active(controls, buttons, keys),
{
}

/// Orbiting needs the orbit button itself to be held: no modifier key and no
/// other button stands in for it.
pub proof fn lemma_orbit_needs_orbit_button(controls: PanOrbitControls, buttons: Set<MouseButton>, keys: Set<KeyCode>)
    requires
        orbit_active(controls, buttons, keys),
    ensures
        buttons.contains(controls.button_orbit),
        controls.modifier_orbit matches Some(key) ==> keys.contains(key),
        controls.modifier_pan matches Some(key) ==> !keys.contains(key),
{
}

/// Panning needs the pan button itself to be held: no modifier key and no
/// other button stands in for it.
pub proof fn lemma_pan_needs_pan_button(controls: PanOrbitControls, buttons: Set<MouseButton>, keys: Set<KeyCode>)
    requires
        pan_active(controls, buttons, keys),
    ensures
        buttons.contains(controls.button_pan),
        controls.modifier_pan matches Some(key) ==> keys.contains(key),
        controls.modifier_orbit matches Some(key) ==> !keys.contains(key),
{
}

/// Holding the orbit button with the orbit modifier (if any) and without the
/// pan modifier (if any) always orbits.
pub proof fn lemma_orbit_button_with_modifiers_orbits(controls: PanOrbitControls, buttons: Set<MouseButton>, keys: Set<KeyCode>)
    requires
        buttons.contains(controls.button_orbit),
        controls.modifier_orbit matches Some(key) ==> keys.contains(key),
        controls.modifier_pan matches Some(key) ==> !keys.contains(key),
    ensures
        orbit_active(controls, buttons, keys),
{
}

/// Holding the pan button with the pan modifier (if any) and without the
/// orbit modifier (if any) always pans.
pub proof fn lemma_pan_button_with_modifiers_pans(controls: PanOrbitControls, buttons: Set<MouseButton>, keys: Set<KeyCode>)
    requires
        buttons.contains(controls.button_pan),
        controls.modifier_pan matches Some(key) ==> keys.contains(key),
        controls.modifier_orbit matches Some(key) ==> !keys.contains(key),
    ensures
        pan_active(controls, buttons, keys),
{
}

/// Whether a binding is active depends on the other held buttons not at all:
/// two input states that agree on the binding's own button give the same answer.
pub proof fn lemma_bindings_ignore_other_buttons(
    controls: PanOrbitControls,
    buttons1: Set<MouseButton>,
    buttons2: Set<MouseButton>,
    keys: Set<KeyCode>,
)
    ensures
        buttons1.contains(controls.button_orbit) == buttons2.contains(controls.button_orbit) ==> orbit_active(
            controls,
            buttons1,
            keys,
        ) == orbit_active(controls, buttons2, keys),
        buttons1.contains(controls.button_pan) == buttons2.contains(controls.button_pan) ==> pan_active(
            controls,
            buttons1,
            keys,
        ) == pan_active(controls, buttons2, keys),
{
}

/// An orbit-button change is reported exactly when the orbit button itself went
/// down or up this frame, the orbit modifier (if any) is held and the pan
/// modifier (if any) is not: presses and releases of other buttons never count.
pub proof fn lemma_orbit_change_is_orbit_button_change(
    controls: PanOrbitControls,
    pressed: Set<MouseButton>,
    released: Set<MouseButton>,
    keys: Set<KeyCode>,
)
    ensures
        orbit_toggled(controls, pressed, released, keys) <==> {
            &&& pressed.contains(controls.button_orbit) || released.contains(controls.button_orbit)
            &&& controls.modifier_orbit matches Some(key) ==> keys.contains(key)
            &&& controls.modifier_pan matches Some(key) ==> !keys.contains(key)
        },
{
}

/// The orbit-button change reported for a frame depends on the other buttons'
/// presses and releases not at all.
pub proof fn lemma_orbit_change_ignores_other_buttons(
    controls: PanOrbitControls,
    pressed1: Set<MouseButton>,
    released1: Set<MouseButton>,
    pressed2: Set<MouseButton>,
    released2: Set<MouseButton>,
    keys: Set<KeyCode>,
)
    requires
        pressed1.contains(controls.button_orbit) == pressed2.contains(controls.button_orbit),
        released1.contains(controls.button_orbit) == released2.contains(controls.button_orbit),
    ensures
        orbit_toggled(controls, pressed1, released1, keys) == orbit_toggled(controls, pressed2, released2, keys),
{
}

} // verus!
