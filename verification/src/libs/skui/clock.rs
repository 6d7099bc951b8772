use vstd::prelude::*;
use crate::ast::{exprs_view, Expr};
use crate::interpreter::Interpreter;
use crate::libs::nerd::number_value;
use crate::libs::skui::{load_skui_state, store_skui_state, SkuiState};
use crate::libs::NativeFunction;
use crate::machine::Request;

verus! {

/// The frame clock: when the last frame ended, in milliseconds, and how long
/// a frame is meant to last, in nanoseconds.
#[derive(Clone, Copy, Debug)]
pub struct Clock {
    pub last_frame_millis: u64,
    pub target_frame_nanos: u64,
}

/// How long a frame lasts at `fps` frames in a second, in nanoseconds; no
/// frame rate is zero.
pub open spec fn frame_nanos(fps: u32) -> Option<u64> {
    if fps == 0 {
        None
    } else {
        Some((1_000_000_000u64 / (fps as u64)) as u64)
    }
}

/// How long to sleep at `now`, in nanoseconds, so that the frame lasts as
/// long as it is meant to.
pub open spec fn sleep_nanos(clock: Clock, now_millis: u64) -> u64 {
    let elapsed = if now_millis >= clock.last_frame_millis {
        (now_millis - clock.last_frame_millis) * 1_000_000
    } else {
        0
    };
    if elapsed < clock.target_frame_nanos {
        (clock.target_frame_nanos - elapsed) as u64
    } else {
        0
    }
}

/// A time that the host tells, as a count of milliseconds: zero for a
/// negative one.
pub open spec fn millis_of(time: i64) -> u64 {
    if time < 0 {
        0
    } else {
        time as u64
    }
}

/// How long the frame lasted that ends at `now_millis`, in milliseconds;
/// zero if the time ran backwards.
pub open spec fn frame_millis(clock: Clock, now_millis: u64) -> u64 {
    if now_millis >= clock.last_frame_millis {
        (now_millis - clock.last_frame_millis) as u64
    } else {
        0
    }
}

/// A frame time as a value of the language: the largest integer stands for
/// any time beyond it.
pub open spec fn millis_value(millis: u64) -> i64 {
    if millis > i64::MAX {
        i64::MAX
    } else {
        millis as i64
    }
}

impl Default for Clock {
    /// A clock at time zero, for sixty frames in a second.
    fn default() -> (clock: Clock)
        ensures
            clock == (Clock { last_frame_millis: 0, target_frame_nanos: 16_666_666 }),
    {
        Clock { last_frame_millis: 0, target_frame_nanos: 1_000_000_000 / 60 }
    }
}

impl Clock {
    /// Sets the frame rate. A rate of zero is refused, and the clock stays
    /// as it is.
    pub fn set_fps(&mut self, fps: u32) -> (accepted: bool)
        ensures
            accepted == (fps != 0),
            final(self).last_frame_millis == old(self).last_frame_millis,
            final(self).target_frame_nanos == (match frame_nanos(fps) {
                Some(nanos) => nanos,
                None => old(self).target_frame_nanos,
            }),
    {
        if fps == 0 {
            false
        } else {
            self.target_frame_nanos = 1_000_000_000u64 / (fps as u64);
            true
        }
    }

    /// How long to sleep at `now_millis`, in nanoseconds, before the frame
    /// ends.
    pub fn wait_for(&self, now_millis: u64) -> (nanos: u64)
        ensures
            nanos == sleep_nanos(*self, now_millis),
    {
        if now_millis < self.last_frame_millis {
            return self.target_frame_nanos;
        }
        let elapsed_millis = now_millis - self.last_frame_millis;
        if elapsed_millis >= self.target_frame_nanos / 1_000_000 + 1 {
            assert(elapsed_millis * 1_000_000 >= self.target_frame_nanos) by (nonlinear_arith)
                requires
                    elapsed_millis >= self.target_frame_nanos / 1_000_000 + 1,
            ;
            0
        } else {
            assert(elapsed_millis * 1_000_000 <= self.target_frame_nanos + 1_000_000)
                by (nonlinear_arith)
                requires
                    elapsed_millis <= self.target_frame_nanos / 1_000_000,
            ;
            let elapsed = elapsed_millis * 1_000_000;
            if elapsed < self.target_frame_nanos {
                self.target_frame_nanos - elapsed
            } else {
                0
            }
        }
    }

    /// Ends the frame at `now_millis` and returns how long it lasted, in
    /// milliseconds; zero if the time ran backwards.
    pub fn tick(&mut self, now_millis: u64) -> (frame_millis: u64)
        ensures
            frame_millis == self::frame_millis(*old(self), now_millis),
            final(self).last_frame_millis == now_millis,
            final(self).target_frame_nanos == old(self).target_frame_nanos,
    {
        let frame_millis = if now_millis >= self.last_frame_millis {
            now_millis - self.last_frame_millis
        } else {
            0
        };
        self.last_frame_millis = now_millis;
        frame_millis
    }
}


/// A time that the host tells, as a count of milliseconds.
pub fn millis_from(time: i64) -> (millis: u64)
    ensures
        millis == millis_of(time),
{
    if time < 0 {
        0
    } else {
        time as u64
    }
}

/// A frame time as a value of the language.
pub fn millis_to_value(millis: u64) -> (value: i64)
    ensures
        value == millis_value(millis),
{
    if millis > i64::MAX as u64 {
        i64::MAX
    } else {
        millis as i64
    }
}

/// `setFramesPerSkibidi(rate)`: gives `true` while there is no clock;
/// refuses a rate that is not a positive 32-bit number, and sets the
/// clock's frame rate otherwise.
pub fn clock_set_fps_builtin(itp: &mut Interpreter, values: &Vec<Expr>)
    requires
        values.len() == 1,
    ensures
        final(itp)@ == old(itp)@.native(NativeFunction::SetFramesPerSkibidi, exprs_view(values@)),
{
    let fps = number_value(&values[0]);
    match load_skui_state(itp) {
        None => itp.general(String::from_str("Invalid state")),
        Some(state) => match state.clock {
            None => itp.give(Expr::Boolean(true)),
            Some(clock) => {
                if fps <= 0 || fps > u32::MAX as i64 {
                    itp.general(String::from_str("Frame rate must be greater than zero."));
                } else {
                    let mut clock = clock;
                    clock.set_fps(fps as u32);
                    store_skui_state(itp, SkuiState { app: state.app, clock: Some(clock) });
                    itp.give(Expr::Boolean(true));
                }
            },
        },
    }
}

/// `clockEdge()`: gives `true` while there is no clock, and asks the host
/// for the time otherwise.
pub fn clock_tick_builtin(itp: &mut Interpreter, values: &Vec<Expr>)
    ensures
        final(itp)@ == old(itp)@.native(NativeFunction::ClockEdge, exprs_view(values@)),
{
    match load_skui_state(itp) {
        None => itp.general(String::from_str("Invalid state")),
        Some(state) => match state.clock {
            None => itp.give(Expr::Boolean(true)),
            Some(_) => itp.ask(Request::Now),
        },
    }
}

/// Goes on with `clockEdge()` once the host has told the time: asks the
/// host to sleep for the rest of the frame.
pub fn clock_tick_wait(itp: &mut Interpreter, now: i64)
    ensures
        final(itp)@ == old(itp)@.clock_wait(now),
{
    match load_skui_state(itp) {
        None => itp.general(String::from_str("Invalid state")),
        Some(state) => match state.clock {
            None => itp.give(Expr::Boolean(true)),
            Some(clock) => {
                let nanos = clock.wait_for(millis_from(now));
                itp.ask(Request::Sleep { nanos });
            },
        },
    }
}

/// Ends `clockEdge()` once the host has slept and told the time: the frame
/// ends at that time, and the call gives how long the frame lasted, in
/// milliseconds.
pub fn clock_tick_end(itp: &mut Interpreter, now: i64)
    ensures
        final(itp)@ == old(itp)@.clock_end(now),
{
    match load_skui_state(itp) {
        None => itp.general(String::from_str("Invalid state")),
        Some(state) => match state.clock {
            None => itp.give(Expr::Boolean(true)),
            Some(clock) => {
                let mut clock = clock;
                let lasted = clock.tick(millis_from(now));
                store_skui_state(itp, SkuiState { app: state.app, clock: Some(clock) });
                itp.give(Expr::Number(millis_to_value(lasted)));
            },
        },
    }
}

} // verus!
