//! The run-loop timer that wakes a sleeping event loop.

use vstd::prelude::*;

use crate::time::{Clock, Delay, Instant};

verus! {

/// When the timer is to fire next.
#[derive(Debug, Clone, Copy, PartialEq, Eq, Structural)]
pub enum TimerSetting {
    /// Not in any foreseeable future.
    Never,
    /// At once.
    Immediately,
    /// At that instant, or at once if it has passed.
    At(Instant),
}

/// A setting as the platform's timer takes it, relative to the current time.
#[derive(Debug, Clone, Copy, PartialEq, Eq, Structural)]
pub enum FireDate {
    Never,
    Now,
    After(Delay),
}

/// Whether a timer programmed with `date` at the time `now` carries out `setting`.
pub open spec fn carries_out(date: FireDate, setting: TimerSetting, now: Instant) -> bool {
    match setting {
        TimerSetting::Never => date is Never,
        TimerSetting::Immediately => date is Now,
        TimerSetting::At(instant) => if instant.reached_at(now) {
            date is Now
        } else {
            &&& date matches FireDate::After(delay)
            &&& now.nanos + delay.total_nanos() == instant.nanos
            &&& delay.subsec_nanos < crate::time::NANOS_PER_SEC
        },
    }
}

/// The mathematical value of an [`EventLoopWaker`].
pub struct WakerModel {
    /// The latest setting.
    pub setting: TimerSetting,
    /// Whether it has yet to be handed to the platform's timer.
    pub unprogrammed: bool,
}

impl WakerModel {
    /// The waker once it was set to `setting`.
    pub open spec fn set_to(setting: TimerSetting) -> WakerModel {
        WakerModel { setting, unprogrammed: true }
    }

    /// The waker once its setting was handed over.
    pub open spec fn programmed(self) -> WakerModel {
        WakerModel { setting: self.setting, unprogrammed: false }
    }
}

/// The setting of the run-loop timer.
///
/// The timer does not repeat: it is programmed anew after every change, also
/// where the setting is the one it had before.
#[derive(Debug)]
pub struct EventLoopWaker {
    setting: TimerSetting,
    unprogrammed: bool,
}

impl View for EventLoopWaker {
    type V = WakerModel;

    closed spec fn view(&self) -> WakerModel {
        WakerModel { setting: self.setting, unprogrammed: self.unprogrammed }
    }
}

impl EventLoopWaker {
    /// A timer that was created to fire never.
    pub fn new() -> (waker: EventLoopWaker)
        ensures
            waker@ == (WakerModel { setting: TimerSetting::Never, unprogrammed: false }),
    {
        EventLoopWaker { setting: TimerSetting::Never, unprogrammed: false }
    }

    fn set(&mut self, setting: TimerSetting)
        ensures
            final(self)@ == WakerModel::set_to(setting),
    {
        self.setting = setting;
        self.unprogrammed = true;
    }

    /// Stops waking the loop.
    pub fn stop(&mut self)
        ensures
            final(self)@ == WakerModel::set_to(TimerSetting::Never),
    {
        self.set(TimerSetting::Never)
    }

    /// Wakes the loop at once.
    pub fn start(&mut self)
        ensures
            final(self)@ == WakerModel::set_to(TimerSetting::Immediately),
    {
        self.set(TimerSetting::Immediately)
    }

    /// Wakes the loop at `instant`, or at once if it has passed.
    pub fn start_at(&mut self, instant: Instant)
        ensures
            final(self)@ == WakerModel::set_to(TimerSetting::At(instant)),
    {
        self.set(TimerSetting::At(instant))
    }

    /// The latest setting.
    pub fn setting(&self) -> (setting: TimerSetting)
        ensures
            setting == self@.setting,
    {
        self.setting
    }

    /// Hands over the date to program the platform's timer with at the time
    /// `now`, if the setting changed since it was last handed over.
    pub fn take_fire_date_at(&mut self, now: Instant) -> (date: Option<FireDate>)
        ensures
            final(self)@ == old(self)@.programmed(),
            date is Some <==> old(self)@.unprogrammed,
            date matches Some(date) ==> carries_out(date, old(self)@.setting, now),
    {
        if !self.unprogrammed {
            return None;
        }
        self.unprogrammed = false;
        let date = match self.setting {
            TimerSetting::Never => FireDate::Never,
            TimerSetting::Immediately => FireDate::Now,
            TimerSetting::At(instant) => {
                if instant.reached(now) {
                    FireDate::Now
                } else {
                    FireDate::After(instant.delay_from(now))
                }
            },
        };
        Some(date)
    }

    /// As [`take_fire_date_at`](Self::take_fire_date_at), at the time that `clock` reads.
    pub fn take_fire_date(&mut self, clock: &Clock) -> (date: Option<FireDate>)
        ensures
            final(self)@ == old(self)@.programmed(),
            date is Some <==> old(self)@.unprogrammed,
            date matches Some(date) ==> exists|now: Instant|
                clock.reads(now) && #[trigger] carries_out(date, old(self)@.setting, now),
    {
        self.take_fire_date_at(clock.now())
    }
}

} // verus!
