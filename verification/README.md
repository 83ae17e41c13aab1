# uikit_event_loop

The event-loop core of a UIKit application: a verified state machine of the
application's lifecycle, and an unverified driver that runs it on UIKit.

UIKit calls into the loop at any time, also while the application's handler
runs. The library decides what such a call does: it changes the loop's state
and, where something is to be done outside, gives a task. The driver performs
the task's steps one by one, and each step may bring further calls.

- `src/model.rs` has the lifecycle as mathematical values; the contracts of all
  other modules speak of it.
- `src/app_state.rs` and `src/callback_state.rs` are the state and its
  transitions.
- `src/dispatch.rs` and `src/event_loop.rs` are the deliveries, tasks and
  steps.
- `src/waker.rs` and `src/time.rs` are the timer's settings and the clock.
- `src/os_capabilities.rs` has the features of each OS version.
- `src/notification.rs` has what can come in from outside, as mathematical
  values.
- `src/laws.rs` states what holds of single notifications and steps,
  `src/runs.rs` what whole tasks come to while more comes in, and `src/life.rs`
  what holds over the loop's whole life.
- `app/` is the driver: UIKit's notifications, windows, and the run-loop timer.

The driver builds for iOS only.
