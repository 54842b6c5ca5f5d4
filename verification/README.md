# wss_fps

A first-person character controller for Godot, split in two:

- `src/` is a Verus-verified library holding the controller's discrete
  decisions: crouch toggling and holding, jump versus gravity, speed
  selection, head-bob phase, the ledge search and the mantle lifecycle
  (`movement`, `mantle`, `controller`), and the crosshair/aim branches of the
  idle frame (`aim`). `laws` states and proves the properties that hold across
  frames.
- `app/` is the Godot extension (`Player`, `Gun`): engine calls, vector maths
  and floating-point easing, calling the library once per frame for its
  decisions.
