//! The event-loop core of a UIKit application: lifecycle state, callback
//! reentrancy, event dispatch, the wake-up timer and OS capabilities.

pub mod app_state;
pub mod callback_state;
pub mod deliveries;
pub mod dispatch;
pub mod effects;
pub mod event;
pub mod event_loop;
pub mod handler;
pub mod journeys;
pub mod laws;
pub mod life;
pub mod model;
pub mod notification;
pub mod os_capabilities;
pub mod runs;
pub mod time;
pub mod waker;
