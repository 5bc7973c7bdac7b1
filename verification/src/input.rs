//! The boundary to `bevy_input`'s `Input` resource.
//!
//! `Input<T>` keeps three hash sets: the inputs held down, the inputs pressed
//! this frame and the inputs released this frame. Each set is named below, and
//! each query method that the controller calls gets a wrapper whose contract
//! is the set membership that `bevy_input` computes.

use bevy::input::keyboard::KeyCode;
use bevy::input::mouse::MouseButton;
use bevy::input::Input;
use std::hash::Hash;
use vstd::prelude::*;

verus! {

#[verifier::external_type_specification]
#[verifier::external_body]
#[verifier::reject_recursive_types(T)]
pub struct ExInput<T: Copy + Eq + Hash + Send + Sync + 'static>(Input<T>);

/// `MouseButton` is a public enum (`Left`, `Right`, `Middle`, `Other(u16)`)
/// with derived equality, so its variants are visible to proofs.
#[verifier::external_type_specification]
pub struct ExMouseButton(MouseButton);

#[verifier::external_type_specification]
#[verifier::external_body]
pub struct ExKeyCode(KeyCode);

/// The mouse buttons that an `Input<MouseButton>` records as held down.
pub uninterp spec fn held_buttons(input: Input<MouseButton>) -> Set<MouseButton>;

/// The mouse buttons that an `Input<MouseButton>` records as pressed this frame.
pub uninterp spec fn just_pressed_buttons(input: Input<MouseButton>) -> Set<MouseButton>;

/// The mouse buttons that an `Input<MouseButton>` records as released this frame.
pub uninterp spec fn just_released_buttons(input: Input<MouseButton>) -> Set<MouseButton>;

/// The keys that an `Input<KeyCode>` records as held down.
pub uninterp spec fn held_keys(input: Input<KeyCode>) -> Set<KeyCode>;

/// Calls `Input::<MouseButton>::pressed`, which tests membership of the
/// button in the set of held buttons.
#[verifier::external_body]
pub(crate) fn button_held(input: &Input<MouseButton>, button: MouseButton) -> (held: bool)
    ensures
        held == held_buttons(*input).contains(button),
{
    input.pressed(button)
}

/// Calls `Input::<MouseButton>::just_pressed`, which tests membership of the
/// button in the set of buttons pressed this frame.
#[verifier::external_body]
pub(crate) fn button_just_pressed(input: &Input<MouseButton>, button: MouseButton) -> (pressed: bool)
    ensures
        pressed == just_pressed_buttons(*input).contains(button),
{
    input.just_pressed(button)
}

/// Calls `Input::<MouseButton>::just_released`, which tests membership of the
/// button in the set of buttons released this frame.
#[verifier::external_body]
pub(crate) fn button_just_released(input: &Input<MouseButton>, button: MouseButton) -> (released: bool)
    ensures
        released == just_released_buttons(*input).contains(button),
{
    input.just_released(button)
}

/// Calls `Input::<KeyCode>::pressed`, which tests membership of the key in
/// the set of held keys.
#[verifier::external_body]
pub(crate) fn key_held(input: &Input<KeyCode>, key: KeyCode) -> (held: bool)
    ensures
        held == held_keys(*input).contains(key),
{
    input.pressed(key)
}

} // verus!
