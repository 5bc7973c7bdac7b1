//! The decisions that one frame of the camera controller makes.
//!
//! A frame first decides where the mouse motion goes (orbit, pan or nowhere)
//! and whether the scroll wheel and the orbit button's changes are read. Once
//! the motion has been summed up, it applies at most one movement, with
//! orbiting before panning before zooming, and then decides whether the
//! orbit transform has to be recomputed.

use crate::controls::{orbit_active, orbit_just_pressed_or_released, orbit_pressed, orbit_toggled, pan_active, pan_pressed, PanOrbitControls};
use crate::input::{held_buttons, held_keys, just_pressed_buttons, just_released_buttons};
use bevy::input::keyboard::KeyCode;
use bevy::input::mouse::MouseButton;
use bevy::input::Input;
use vstd::prelude::*;

verus! {

/// Where the mouse motion of a frame goes.
#[derive(Clone, Copy, Debug, PartialEq, Eq, Structural)]
pub enum MotionTarget {
    /// The motion rotates the camera around its focus.
    Orbit,
    /// The motion moves the focus.
    Pan,
    /// The motion is not read this frame.
    Unused,
}

/// What a frame reads from the input devices.
#[derive(Clone, Copy, Debug, PartialEq, Eq, Structural)]
pub struct FrameInput {
    /// Where the mouse motion goes.
    pub motion_target: MotionTarget,
    /// Whether the scroll wheel is read.
    pub read_scroll: bool,
    /// Whether the orbit button went down or up this frame.
    pub orbit_button_changed: bool,
}

/// The single movement that a frame applies.
#[derive(Clone, Copy, Debug, PartialEq, Eq, Structural)]
pub enum Movement {
    /// Rotate around the focus by the summed orbit motion.
    Orbit,
    /// Move the focus by the summed pan motion.
    Pan,
    /// Move closer to or further from the focus by the summed scroll.
    Zoom,
    /// Nothing moves.
    Still,
}

/// Where the mouse motion goes, given the controls and the sets of held
/// buttons and keys.
pub open spec fn motion_target_of(controls: PanOrbitControls, buttons: Set<MouseButton>, keys: Set<KeyCode>) -> MotionTarget {
    if !controls.enabled {
        MotionTarget::Unused
    } else if orbit_active(controls, buttons, keys) {
        MotionTarget::Orbit
    } else if pan_active(controls, buttons, keys) {
        MotionTarget::Pan
    } else {
        MotionTarget::Unused
    }
}

/// The movement of a frame, given which summed inputs are non-zero.
pub open spec fn movement_of(rotation_moved: bool, pan_moved: bool, scrolled: bool) -> Movement {
    if rotation_moved {
        Movement::Orbit
    } else if pan_moved {
        Movement::Pan
    } else if scrolled {
        Movement::Zoom
    } else {
        Movement::Still
    }
}

/// Decides what the frame reads: mouse motion goes to orbiting when the orbit
/// binding is active, otherwise to panning when the pan binding is active;
/// scrolling and the orbit button's changes are read only while the camera
/// is enabled.
pub fn read_frame_input(
    pan_orbit: &PanOrbitControls,
    mouse_input: &Input<MouseButton>,
    key_input: &Input<KeyCode>,
) -> (frame: FrameInput)
    ensures
        frame.motion_target == motion_target_of(*pan_orbit, held_buttons(*mouse_input), held_keys(*key_input)),
        frame.read_scroll == pan_orbit.enabled,
        frame.orbit_button_changed == (pan_orbit.enabled && orbit_toggled(
            *pan_orbit,
            just_pressed_buttons(*mouse_input),
            just_released_buttons(*mouse_input),
            held_keys(*key_input),
        )),
        !pan_orbit.enabled ==> frame == (FrameInput {
            motion_target: MotionTarget::Unused,
            read_scroll: false,
            orbit_button_changed: false,
        }),
        frame.motion_target == MotionTarget::Pan ==> !orbit_active(
            *pan_orbit,
            held_buttons(*mouse_input),
            held_keys(*key_input),
        ),
{
    if !pan_orbit.enabled {
        return FrameInput { motion_target: MotionTarget::Unused, read_scroll: false, orbit_button_changed: false };
    }
    let motion_target = if orbit_pressed(pan_orbit, mouse_input, key_input) {
        MotionTarget::Orbit
    } else if pan_pressed(pan_orbit, mouse_input, key_input) {
        // Pan only while not orbiting.
        MotionTarget::Pan
    } else {
        MotionTarget::Unused
    };
    let orbit_button_changed = orbit_just_pressed_or_released(pan_orbit, mouse_input, key_input);
    FrameInput { motion_target, read_scroll: true, orbit_button_changed }
}

/// Chooses the one movement of the frame: orbiting if the summed orbit motion
/// is non-zero, else panning if the summed pan motion is non-zero, else
/// zooming if the summed scroll is non-zero.
pub fn choose_movement(rotation_moved: bool, pan_moved: bool, scrolled: bool) -> (movement: Movement)
    ensures
        movement == movement_of(rotation_moved, pan_moved, scrolled),
        (movement == Movement::Still) == (!rotation_moved && !pan_moved && !scrolled),
{
    if rotation_moved {
        Movement::Orbit
    } else if pan_moved {
        Movement::Pan
    } else if scrolled {
        Movement::Zoom
    } else {
        Movement::Still
    }
}

/// Whether the orbit transform is recomputed at the end of the frame: when
/// the frame moved the camera, or when an orbit angle is still non-zero.
pub fn needs_orbit_update(movement: Movement, alpha_nonzero: bool, beta_nonzero: bool) -> (update: bool)
    ensures
        update == (movement != Movement::Still || alpha_nonzero || beta_nonzero),
{
    movement != Movement::Still || alpha_nonzero || beta_nonzero
}

impl PanOrbitControls {
    /// Re-evaluates the upside-down state, but only in a frame in which the
    /// orbit button went down or up, so that the horizontal direction does
    /// not flip while the user is still dragging. `upside_down_now` is what
    /// the current target angle says.
    pub fn update_upside_down(&mut self, orbit_button_changed: bool, upside_down_now: bool)
        ensures
            final(self).is_upside_down == (if orbit_button_changed { upside_down_now } else { old(self).is_upside_down }),
            !orbit_button_changed ==> final(self).is_upside_down == old(self).is_upside_down,
            *final(self) == (PanOrbitControls { is_upside_down: final(self).is_upside_down, ..*old(self) }),
    {
        if orbit_button_changed {
            self.is_upside_down = upside_down_now;
        }
    }

    /// The sign of the horizontal orbit motion: reversed while upside down.
    pub fn horizontal_orbit_sign(&self) -> (sign: i8)
        ensures
            sign == (if self.is_upside_down { -1i8 } else { 1i8 }),
    {
        if self.is_upside_down {
            -1
        } else {
            1
        }
    }

    /// The sign of the zoom: reversed when `reversed_zoom` is set.
    pub fn zoom_sign(&self) -> (sign: i8)
        ensures
            sign == (if self.reversed_zoom { -1i8 } else { 1i8 }),
    {
        if self.reversed_zoom {
            -1
        } else {
            1
        }
    }
}

/// A frame applies at most one movement, and it orbits only when there was
/// orbit motion, pans only when there was pan motion and no orbit motion,
/// and zooms only when there was scrolling and no mouse motion at all.
pub proof fn lemma_one_movement_per_frame(rotation_moved: bool, pan_moved: bool, scrolled: bool)
    ensures
        movement_of(rotation_moved, pan_moved, scrolled) == Movement::Orbit <==> rotation_moved,
        movement_of(rotation_moved, pan_moved, scrolled) == Movement::Pan <==> (!rotation_moved && pan_moved),
        movement_of(rotation_moved, pan_moved, scrolled) == Movement::Zoom <==> (!rotation_moved && !pan_moved && scrolled),
{
}

/// A disabled camera reads no motion, whatever buttons and keys are held.
pub proof fn lemma_disabled_reads_no_motion(controls: PanOrbitControls, buttons: Set<MouseButton>, keys: Set<KeyCode>)
    requires
        !controls.enabled,
    ensures
        motion_target_of(controls, buttons, keys) == MotionTarget::Unused,
{
}

/// Holding the orbit binding always sends the motion to orbiting, even when
/// the pan binding is held too.
pub proof fn lemma_orbit_takes_precedence(controls: PanOrbitControls, buttons: Set<MouseButton>, keys: Set<KeyCode>)
    requires
        controls.enabled,
        orbit_active(controls, buttons, keys),
    ensures
        motion_target_of(controls, buttons, keys) == MotionTarget::Orbit,
{
}

/// Mouse motion goes to orbiting exactly when the camera is enabled and the
/// orbit binding is active.
pub proof fn lemma_motion_orbits_iff(controls: PanOrbitControls, buttons: Set<MouseButton>, keys: Set<KeyCode>)
    ensures
        (motion_target_of(controls, buttons, keys) == MotionTarget::Orbit) <==> (controls.enabled && orbit_active(
            controls,
            buttons,
            keys,
        )),
{
}

/// Mouse motion goes to panning exactly when the camera is enabled, the pan
/// binding is active and the orbit binding is not.
pub proof fn lemma_motion_pans_iff(controls: PanOrbitControls, buttons: Set<MouseButton>, keys: Set<KeyCode>)
    ensures
        (motion_target_of(controls, buttons, keys) == MotionTarget::Pan) <==> (controls.enabled && pan_active(
            controls,
            buttons,
            keys,
        ) && !orbit_active(controls, buttons, keys)),
{
}

/// Mouse motion is left unread exactly when the camera is disabled or neither
/// binding is active; in particular, motion is never read without the pan or
/// orbit button held.
pub proof fn lemma_motion_unused_iff(controls: PanOrbitControls, buttons: Set<MouseButton>, keys: Set<KeyCode>)
    ensures
        (motion_target_of(controls, buttons, keys) == MotionTarget::Unused) <==> (!controls.enabled || (!orbit_active(
            controls,
            buttons,
            keys,
        ) && !pan_active(controls, buttons, keys))),
        !buttons.contains(controls.button_orbit) && !buttons.contains(controls.button_pan)
            ==> motion_target_of(controls, buttons, keys) == MotionTarget::Unused,
{
}

} // verus!
