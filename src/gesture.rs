//! The pull trigger state machine of the gesture engine: rising-edge
//! detection, latching, launch quantization and the fixed one-shot window.
//!
//! It decides, once per sample, whether the gesture envelope is driven
//! towards full tension; the envelope smoothing itself is left to the caller.

use vstd::prelude::*;

use crate::params::PullQuantize;

verus! {

/// What the trigger machine reads in one sample.
#[derive(Debug, Copy, Clone)]
pub struct TriggerInput {
    /// Momentary pull trigger held.
    pub trigger: bool,
    /// Latching pull mode enabled.
    pub latch: bool,
    /// Quantization grid for launches.
    pub quantize: PullQuantize,
    /// Host transport playing.
    pub playing: bool,
    /// The beat position crossed a boundary of the quantize grid since the
    /// previous sample.
    pub crossed_boundary: bool,
    /// Length in samples of a one-shot window started in this sample.
    pub one_shot_len: usize,
}

/// The state of the trigger machine.
#[derive(Debug, Copy, Clone, PartialEq, Eq, Structural)]
pub struct TriggerState {
    /// The trigger was held in the previous sample.
    pub was_pressed: bool,
    /// Latch engaged by a rising edge and not yet released by turning latch off.
    pub latched: bool,
    /// A launch is armed and waits for the next grid boundary.
    pub armed: bool,
    /// Samples left in the running one-shot window.
    pub one_shot_left: usize,
}

/// The logical phases of the machine.
#[derive(Debug, Copy, Clone, PartialEq, Eq, Structural)]
pub enum TriggerPhase {
    /// Nothing pending or running.
    Idle,
    /// A launch waits for a grid boundary.
    ArmedQuantized,
    /// A one-shot window runs.
    OneShotActive,
    /// Latch holds the gesture engaged.
    LatchedActive,
}

/// The trigger went down in this sample.
pub open spec fn rising_edge(s: TriggerState, i: TriggerInput) -> bool {
    i.trigger && !s.was_pressed
}

/// A launch fires at once rather than waiting for the grid.
pub open spec fn launches_now(i: TriggerInput) -> bool {
    !(i.quantize.spec_beats() is Some) || !i.playing
}

/// Armed after the rising edge has been taken into account.
pub open spec fn armed_mid(s: TriggerState, i: TriggerInput) -> bool {
    s.armed || (rising_edge(s, i) && !launches_now(i))
}

/// An armed launch fires: a grid boundary was crossed, or launches are no
/// longer quantized.
pub open spec fn armed_fires(s: TriggerState, i: TriggerInput) -> bool {
    armed_mid(s, i) && (!(i.quantize.spec_beats() is Some) || i.crossed_boundary)
}

/// A one-shot window starts in this sample: on a rising edge that launches at
/// once, or when an armed launch fires.
pub open spec fn starts_one_shot(s: TriggerState, i: TriggerInput) -> bool {
    (rising_edge(s, i) && launches_now(i)) || armed_fires(s, i)
}

/// Samples left in the window before this sample consumes one.
pub open spec fn window_mid(s: TriggerState, i: TriggerInput) -> nat {
    if starts_one_shot(s, i) {
        i.one_shot_len as nat
    } else {
        s.one_shot_left as nat
    }
}

/// The state after one sample.
pub open spec fn next_state(s: TriggerState, i: TriggerInput) -> TriggerState {
    TriggerState {
        was_pressed: i.trigger,
        latched: i.latch && (s.latched || rising_edge(s, i)),
        armed: armed_mid(s, i) && !armed_fires(s, i),
        one_shot_left: if window_mid(s, i) > 0 {
            (window_mid(s, i) - 1) as usize
        } else {
            0
        },
    }
}

/// Whether the envelope is driven towards full tension in this sample: by the
/// latch when latch mode is on, by the held trigger otherwise, and in either
/// mode by a running one-shot window.
pub open spec fn engaged(s: TriggerState, i: TriggerInput) -> bool {
    (if i.latch {
        next_state(s, i).latched
    } else {
        i.trigger
    }) || window_mid(s, i) > 0
}

impl TriggerState {
    /// The idle machine: nothing held, armed or running.
    pub fn new() -> (r: Self)
        ensures
            r == (TriggerState { was_pressed: false, latched: false, armed: false, one_shot_left: 0 }),
    {
        TriggerState { was_pressed: false, latched: false, armed: false, one_shot_left: 0 }
    }

    /// The logical phase: latched first, then a running window, then armed.
    pub fn phase(&self) -> (r: TriggerPhase)
        ensures
            self.latched ==> r == TriggerPhase::LatchedActive,
            !self.latched && self.one_shot_left > 0 ==> r == TriggerPhase::OneShotActive,
            !self.latched && self.one_shot_left == 0 && self.armed ==> r
                == TriggerPhase::ArmedQuantized,
            !self.latched && self.one_shot_left == 0 && !self.armed ==> r == TriggerPhase::Idle,
    {
        if self.latched {
            TriggerPhase::LatchedActive
        } else if self.one_shot_left > 0 {
            TriggerPhase::OneShotActive
        } else if self.armed {
            TriggerPhase::ArmedQuantized
        } else {
            TriggerPhase::Idle
        }
    }

    /// Advance one sample; returns whether the envelope is engaged.
    pub fn step(&mut self, input: TriggerInput) -> (r: bool)
        ensures
            *final(self) == next_state(*old(self), input),
            r == engaged(*old(self), input),
    {
        let rising = input.trigger && !self.was_pressed;
        self.was_pressed = input.trigger;
        if !input.latch {
            self.latched = false;
        }
        let quantized = input.quantize.is_quantized();
        let mut start = false;
        if rising {
            if input.latch {
                self.latched = true;
            }
            if !quantized || !input.playing {
                start = true;
            } else {
                self.armed = true;
            }
        }
        if self.armed {
            if !quantized || input.crossed_boundary {
                start = true;
                self.armed = false;
            }
        }
        if start {
            self.one_shot_left = input.one_shot_len;
        }
        let window_running = self.one_shot_left > 0;
        if window_running {
            self.one_shot_left = self.one_shot_left - 1;
        }
        let target = if input.latch {
            self.latched
        } else {
            input.trigger
        };
        target || window_running
    }
}

/// With latch on, pressing the trigger and then releasing it keeps the
/// gesture engaged: the latched envelope does not collapse on release.
pub proof fn lemma_latch_survives_release(s: TriggerState, press: TriggerInput, release: TriggerInput)
    requires
        !s.was_pressed,
        press.trigger,
        press.latch,
        !release.trigger,
        release.latch,
    ensures
        engaged(s, press),
        next_state(next_state(s, press), release).latched,
        engaged(next_state(s, press), release),
{
}

/// While latch stays on, an engaged latch stays engaged whatever the trigger does.
pub proof fn lemma_latch_holds(s: TriggerState, i: TriggerInput)
    requires
        s.latched,
        i.latch,
    ensures
        next_state(s, i).latched,
        engaged(s, i),
{
}

/// Turning latch off releases it at once.
pub proof fn lemma_latch_off_releases(s: TriggerState, i: TriggerInput)
    requires
        !i.latch,
    ensures
        !next_state(s, i).latched,
{
}

/// A rising edge with no quantize grid, or with the transport stopped, starts
/// the one-shot window in the same sample.
pub proof fn lemma_unquantized_press_engages(s: TriggerState, i: TriggerInput)
    requires
        rising_edge(s, i),
        launches_now(i),
        i.one_shot_len > 0,
    ensures
        engaged(s, i),
        next_state(s, i).one_shot_left == i.one_shot_len - 1,
{
}

/// A quantized press while playing waits: until a boundary is crossed no
/// window starts and the launch stays armed.
pub proof fn lemma_quantized_press_waits(s: TriggerState, i: TriggerInput)
    requires
        rising_edge(s, i),
        i.quantize.spec_beats() is Some,
        i.playing,
        !i.crossed_boundary,
    ensures
        next_state(s, i).armed,
        !starts_one_shot(s, i),
{
}

/// An armed launch fires on the first crossed boundary and disarms.
pub proof fn lemma_armed_fires_on_boundary(s: TriggerState, i: TriggerInput)
    requires
        s.armed,
        i.crossed_boundary,
        i.one_shot_len > 0,
    ensures
        starts_one_shot(s, i),
        !next_state(s, i).armed,
        engaged(s, i),
{
}

} // verus!
