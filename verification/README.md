# bevy_panorbit_camera

A pan/orbit/zoom camera controller for Bevy, whose per-frame decisions are
verified with Verus.

- `src/input.rs`: the boundary to `bevy_input`'s `Input` resource (its three
  sets of held, just-pressed and just-released inputs, and the queries on them).
- `src/controls.rs`: the camera's bindings and when the orbit and pan bindings
  are active, with the laws that relate them.
- `src/frame.rs`: what one frame reads, which single movement it applies, and
  when the upside-down state is re-evaluated.
- `app/`: the Bevy plugin, the ECS system and the floating-point geometry,
  which call the library for every decision.
- `tests/`: tests of the library on concrete input states.
