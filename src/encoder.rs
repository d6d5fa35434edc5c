//! Quadrature decoding of the rotary encoder.
//!
//! The decoder is driven by samples of the two lines, each taken after a
//! line change and a settle delay. At rest both lines are high. A step up
//! takes line A low first: (A, B) runs high/high, low/high, low/low,
//! high/low, high/high. A step down is the mirror image, with B first. A
//! sample off that sequence is contact noise: the step is dropped and the
//! decoder waits for the rest state again.
use vstd::prelude::*;

verus! {

/// The settle delay after a line change, in milliseconds.
pub const SETTLE_MS: u64 = 5;

/// The direction of one detent-to-detent step.
#[derive(Clone, Copy, Debug, PartialEq, Eq, Structural)]
pub enum EncoderDirection {
    Up,
    Down,
}

/// Where the decoder stands within a step.
#[derive(Clone, Copy, Debug, PartialEq, Eq, Structural)]
pub enum EncoderPhase {
    /// Waiting for both lines to be high.
    Rest,
    /// Both lines high: waiting for one of them to fall.
    Armed,
    /// A fell first.
    UpFirst,
    /// Both low after A fell first.
    UpBoth,
    /// A back high, B still low.
    UpRise,
    /// B fell first.
    DownFirst,
    /// Both low after B fell first.
    DownBoth,
    /// B back high, A still low.
    DownRise,
}

/// The line condition that the decoder waits for before its next sample.
#[derive(Clone, Copy, Debug, PartialEq, Eq, Structural)]
pub enum LineWait {
    /// Either line going low, whichever comes first.
    EitherLow,
    /// Line A at level `a` and line B at level `b` (`true` is high).
    Levels { a: bool, b: bool },
}

/// The phase after sampling levels `a`, `b` in phase `p`.
pub open spec fn next_phase(p: EncoderPhase, a: bool, b: bool) -> EncoderPhase {
    match p {
        EncoderPhase::Rest => if a && b { EncoderPhase::Armed } else { EncoderPhase::Rest },
        EncoderPhase::Armed => if a && b {
            EncoderPhase::Armed
        } else if !a && b {
            EncoderPhase::UpFirst
        } else if a && !b {
            EncoderPhase::DownFirst
        } else {
            EncoderPhase::Rest
        },
        EncoderPhase::UpFirst => if !a && b {
            EncoderPhase::UpFirst
        } else if !a && !b {
            EncoderPhase::UpBoth
        } else {
            EncoderPhase::Rest
        },
        EncoderPhase::UpBoth => if !a && !b {
            EncoderPhase::UpBoth
        } else if a && !b {
            EncoderPhase::UpRise
        } else {
            EncoderPhase::Rest
        },
        EncoderPhase::UpRise => if a && !b {
            EncoderPhase::UpRise
        } else if a && b {
            EncoderPhase::Armed
        } else {
            EncoderPhase::Rest
        },
        EncoderPhase::DownFirst => if a && !b {
            EncoderPhase::DownFirst
        } else if !a && !b {
            EncoderPhase::DownBoth
        } else {
            EncoderPhase::Rest
        },
        EncoderPhase::DownBoth => if !a && !b {
            EncoderPhase::DownBoth
        } else if !a && b {
            EncoderPhase::DownRise
        } else {
            EncoderPhase::Rest
        },
        EncoderPhase::DownRise => if !a && b {
            EncoderPhase::DownRise
        } else if a && b {
            EncoderPhase::Armed
        } else {
            EncoderPhase::Rest
        },
    }
}

/// The step completed by sampling levels `a`, `b` in phase `p`, if any: the
/// return of both lines to high at the end of a sequence.
pub open spec fn step_output(p: EncoderPhase, a: bool, b: bool) -> Option<EncoderDirection> {
    if a && b && p == EncoderPhase::UpRise {
        Some(EncoderDirection::Up)
    } else if a && b && p == EncoderPhase::DownRise {
        Some(EncoderDirection::Down)
    } else {
        None
    }
}

/// The condition awaited in phase `p`.
pub open spec fn awaited(p: EncoderPhase) -> LineWait {
    match p {
        EncoderPhase::Rest => LineWait::Levels { a: true, b: true },
        EncoderPhase::Armed => LineWait::EitherLow,
        EncoderPhase::UpFirst => LineWait::Levels { a: false, b: false },
        EncoderPhase::UpBoth => LineWait::Levels { a: true, b: false },
        EncoderPhase::UpRise => LineWait::Levels { a: true, b: true },
        EncoderPhase::DownFirst => LineWait::Levels { a: false, b: false },
        EncoderPhase::DownBoth => LineWait::Levels { a: false, b: true },
        EncoderPhase::DownRise => LineWait::Levels { a: true, b: true },
    }
}

/// The same phase with the roles of the two lines exchanged.
pub open spec fn mirror_phase(p: EncoderPhase) -> EncoderPhase {
    match p {
        EncoderPhase::Rest => EncoderPhase::Rest,
        EncoderPhase::Armed => EncoderPhase::Armed,
        EncoderPhase::UpFirst => EncoderPhase::DownFirst,
        EncoderPhase::UpBoth => EncoderPhase::DownBoth,
        EncoderPhase::UpRise => EncoderPhase::DownRise,
        EncoderPhase::DownFirst => EncoderPhase::UpFirst,
        EncoderPhase::DownBoth => EncoderPhase::UpBoth,
        EncoderPhase::DownRise => EncoderPhase::UpRise,
    }
}

/// The opposite direction.
pub open spec fn reverse(d: EncoderDirection) -> EncoderDirection {
    match d {
        EncoderDirection::Up => EncoderDirection::Down,
        EncoderDirection::Down => EncoderDirection::Up,
    }
}

/// Exchanging the two lines exchanges the directions: the decoder treats A
/// and B symmetrically.
pub proof fn lemma_decoder_mirror(p: EncoderPhase, a: bool, b: bool)
    ensures
        next_phase(mirror_phase(p), b, a) == mirror_phase(next_phase(p, a, b)),
        step_output(mirror_phase(p), b, a) == match step_output(p, a, b) {
            Some(d) => Some(reverse(d)),
            None => None::<EncoderDirection>,
        },
{
}

/// The decoder of one rotary encoder.
#[derive(Clone, Copy, Debug)]
pub struct Encoder {
    pub phase: EncoderPhase,
    pub a_high: bool,
    pub b_high: bool,
}

impl Encoder {
    /// A decoder waiting for the rest state, whose lines were last seen at
    /// the given levels.
    pub fn new(a_high: bool, b_high: bool) -> (r: Encoder)
        ensures
            r.phase == EncoderPhase::Rest,
            r.a_high == a_high,
            r.b_high == b_high,
    {
        Encoder { phase: EncoderPhase::Rest, a_high, b_high }
    }

    /// The levels of lines A and B at the last sample (`true` is high).
    pub fn state(&self) -> (r: (bool, bool))
        ensures
            r == (self.a_high, self.b_high),
    {
        (self.a_high, self.b_high)
    }

    /// The line condition to wait for, then wait out the settle delay, before
    /// the next sample.
    pub fn wait_for(&self) -> (r: LineWait)
        ensures
            r == awaited(self.phase),
    {
        match self.phase {
            EncoderPhase::Rest => LineWait::Levels { a: true, b: true },
            EncoderPhase::Armed => LineWait::EitherLow,
            EncoderPhase::UpFirst => LineWait::Levels { a: false, b: false },
            EncoderPhase::UpBoth => LineWait::Levels { a: true, b: false },
            EncoderPhase::UpRise => LineWait::Levels { a: true, b: true },
            EncoderPhase::DownFirst => LineWait::Levels { a: false, b: false },
            EncoderPhase::DownBoth => LineWait::Levels { a: false, b: true },
            EncoderPhase::DownRise => LineWait::Levels { a: true, b: true },
        }
    }

    /// Takes one sample of the lines; returns the step that it completes.
    pub fn step(&mut self, a_high: bool, b_high: bool) -> (r: Option<EncoderDirection>)
        ensures
            final(self).phase == next_phase(old(self).phase, a_high, b_high),
            final(self).a_high == a_high,
            final(self).b_high == b_high,
            r == step_output(old(self).phase, a_high, b_high),
    {
        let a = a_high;
        let b = b_high;
        let (next, out) = match self.phase {
            EncoderPhase::Rest => if a && b {
                (EncoderPhase::Armed, None)
            } else {
                (EncoderPhase::Rest, None)
            },
            EncoderPhase::Armed => if a && b {
                (EncoderPhase::Armed, None)
            } else if !a && b {
                (EncoderPhase::UpFirst, None)
            } else if a && !b {
                (EncoderPhase::DownFirst, None)
            } else {
                (EncoderPhase::Rest, None)
            },
            EncoderPhase::UpFirst => if !a && b {
                (EncoderPhase::UpFirst, None)
            } else if !a && !b {
                (EncoderPhase::UpBoth, None)
            } else {
                (EncoderPhase::Rest, None)
            },
            EncoderPhase::UpBoth => if !a && !b {
                (EncoderPhase::UpBoth, None)
            } else if a && !b {
                (EncoderPhase::UpRise, None)
            } else {
                (EncoderPhase::Rest, None)
            },
            EncoderPhase::UpRise => if a && !b {
                (EncoderPhase::UpRise, None)
            } else if a && b {
                (EncoderPhase::Armed, Some(EncoderDirection::Up))
            } else {
                (EncoderPhase::Rest, None)
            },
            EncoderPhase::DownFirst => if a && !b {
                (EncoderPhase::DownFirst, None)
            } else if !a && !b {
                (EncoderPhase::DownBoth, None)
            } else {
                (EncoderPhase::Rest, None)
            },
            EncoderPhase::DownBoth => if !a && !b {
                (EncoderPhase::DownBoth, None)
            } else if !a && b {
                (EncoderPhase::DownRise, None)
            } else {
                (EncoderPhase::Rest, None)
            },
            EncoderPhase::DownRise => if !a && b {
                (EncoderPhase::DownRise, None)
            } else if a && b {
                (EncoderPhase::Armed, Some(EncoderDirection::Down))
            } else {
                (EncoderPhase::Rest, None)
            },
        };
        self.phase = next;
        self.a_high = a;
        self.b_high = b;
        out
    }
}

} // verus!
