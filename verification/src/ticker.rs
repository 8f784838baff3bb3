//! The render/tick loop as a state machine: the host delivers events and
//! performs actions; the decisions live here.
//!
//! The loop starts `Uninitialized`; the first connection to a display
//! surface moves it to `Running`, requests an initial paint and arms the
//! repeating timer. While `Running`, each firing of the armed timer steps
//! the simulation, requests a repaint and rearms the timer — with no stop
//! condition, so the loop runs until the process exits.

use vstd::prelude::*;

verus! {

/// Where the loop stands: before or after the first surface connection.
#[derive(Clone, Copy, PartialEq, Eq, Structural, Debug)]
pub enum Phase {
    Uninitialized,
    Running,
}

/// An event as the host hands it over: the first surface connection, a
/// timer firing with its token, or anything else (input, lifecycle and
/// other host traffic, which this loop ignores).
#[derive(Clone, Copy, PartialEq, Eq, Structural, Debug)]
pub enum LoopEvent {
    WindowConnected,
    Timer(u64),
    Other,
}

/// What the host must do after an event: advance the simulation, request
/// a repaint, and/or arm the timer for the next interval.
#[derive(Clone, Copy, PartialEq, Eq, Structural, Debug)]
pub struct Directive {
    pub step_sim: bool,
    pub request_paint: bool,
    pub arm_timer: bool,
}

impl Directive {
    /// No action at all.
    pub open spec fn none() -> Directive {
        Directive { step_sim: false, request_paint: false, arm_timer: false }
    }
}

/// The loop's own state: its phase and the token of the timer it armed
/// last. Only a firing of that very timer drives a tick.
pub struct TickLoop {
    pub phase: Phase,
    pub timer_id: u64,
}

impl TickLoop {
    /// A fresh loop: not yet connected to a surface, no timer armed yet.
    /// `initial_token` is the host's token for "no timer".
    pub fn new(initial_token: u64) -> (s: TickLoop)
        ensures
            s.phase == Phase::Uninitialized,
            s.timer_id == initial_token,
    {
        TickLoop { phase: Phase::Uninitialized, timer_id: initial_token }
    }

    /// The transition function. On the surface connection the loop starts
    /// running and asks for an initial paint and a first timer; on a firing
    /// of the armed timer it asks for a step, a repaint and the next timer;
    /// everything else is ignored. A paint is requested after every step.
    pub fn on_event(&mut self, ev: &LoopEvent) -> (d: Directive)
        ensures
            ev is WindowConnected ==> {
                &&& final(self).phase == Phase::Running
                &&& final(self).timer_id == old(self).timer_id
                &&& d == (Directive { step_sim: false, request_paint: true, arm_timer: true })
            },
            (ev is Timer && old(self).phase == Phase::Running && ev->Timer_0 == old(self).timer_id)
                ==> {
                    &&& *final(self) == *old(self)
                    &&& d == (Directive { step_sim: true, request_paint: true, arm_timer: true })
                },
            (ev is Timer && !(old(self).phase == Phase::Running && ev->Timer_0 == old(self).timer_id))
                ==> {
                    &&& *final(self) == *old(self)
                    &&& d == Directive::none()
                },
            ev is Other ==> {
                &&& *final(self) == *old(self)
                &&& d == Directive::none()
            },
            d.step_sim ==> d.request_paint,
    {
        match ev {
            LoopEvent::WindowConnected => {
                self.phase = Phase::Running;
                Directive { step_sim: false, request_paint: true, arm_timer: true }
            }
            LoopEvent::Timer(id) => {
                if self.phase == Phase::Running && *id == self.timer_id {
                    Directive { step_sim: true, request_paint: true, arm_timer: true }
                } else {
                    Directive { step_sim: false, request_paint: false, arm_timer: false }
                }
            }
            LoopEvent::Other => {
                Directive { step_sim: false, request_paint: false, arm_timer: false }
            }
        }
    }

    /// Records the token of the timer the host just armed; only a firing
    /// of this token will drive the next tick.
    pub fn timer_armed(&mut self, token: u64)
        ensures
            final(self).phase == old(self).phase,
            final(self).timer_id == token,
    {
        self.timer_id = token;
    }
}

} // verus!
