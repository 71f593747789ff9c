//! The prediction window: the five most recent classifications.
//!
//! Every search decides by consensus over this window, never on a single
//! frame: the classifier is noisy near a transition.
//!
//! The window is a plain value of five slots, not a queue on the heap. It is
//! part of the state of every task, and a task's state is copied, compared
//! and named as a whole by the functions that say what a call makes of it.

use vstd::prelude::*;

verus! {

/// Number of slots of the window.
pub const WINDOW_SLOTS: usize = 5;

/// How many equal readings in the window make a consensus.
pub const CONSENSUS: usize = 3;

/// The logical label of a frame: one of the two transmission states.
#[derive(Clone, Copy, Debug, PartialEq, Eq, Structural)]
pub enum Label {
    Zero,
    One,
}

impl Label {
    /// The other label.
    pub open spec fn spec_opposite(self) -> Label {
        match self {
            Label::Zero => Label::One,
            Label::One => Label::Zero,
        }
    }

    /// The other label.
    #[verifier::when_used_as_spec(spec_opposite)]
    pub fn opposite(self) -> (other: Label)
        ensures
            other == self.spec_opposite(),
    {
        match self {
            Label::Zero => Label::One,
            Label::One => Label::Zero,
        }
    }

    /// The label with the orientation flag applied.
    pub open spec fn spec_flipped_if(self, invert: bool) -> Label {
        if invert {
            self.spec_opposite()
        } else {
            self
        }
    }

    /// The label with the orientation flag applied: exclusive or.
    #[verifier::when_used_as_spec(spec_flipped_if)]
    pub fn flipped_if(self, invert: bool) -> (out: Label)
        ensures
            out == self.spec_flipped_if(invert),
    {
        if invert {
            self.opposite()
        } else {
            self
        }
    }
}

/// A sliding queue of five readings, oldest first. `None` is a slot that no
/// classification has reached yet.
#[derive(Clone, Copy, Debug, PartialEq, Eq, Structural)]
pub struct PredictionWindow {
    pub s0: Option<Label>,
    pub s1: Option<Label>,
    pub s2: Option<Label>,
    pub s3: Option<Label>,
    pub s4: Option<Label>,
}

/// One if the slot holds the label, zero if not.
pub open spec fn one_if(slot: Option<Label>, label: Label) -> nat {
    if slot == Some(label) {
        1
    } else {
        0
    }
}

impl View for PredictionWindow {
    type V = Seq<Option<Label>>;

    open spec fn view(&self) -> Seq<Option<Label>> {
        seq![self.s0, self.s1, self.s2, self.s3, self.s4]
    }
}

impl PredictionWindow {
    /// The window with every slot unknown.
    pub open spec fn blank() -> PredictionWindow {
        PredictionWindow { s0: None, s1: None, s2: None, s3: None, s4: None }
    }

    /// The window after one more reading: the oldest slot is dropped.
    pub open spec fn pushed(self, label: Label) -> PredictionWindow {
        PredictionWindow {
            s0: self.s1,
            s1: self.s2,
            s2: self.s3,
            s3: self.s4,
            s4: Some(label),
        }
    }

    /// How many slots hold this label.
    pub open spec fn occurrences(self, label: Label) -> nat {
        one_if(self.s0, label) + one_if(self.s1, label) + one_if(self.s2, label) + one_if(
            self.s3,
            label,
        ) + one_if(self.s4, label)
    }

    /// A consensus flip: at least three slots disagree with the reference.
    pub open spec fn flips_from(self, reference: Option<Label>) -> bool {
        match reference {
            Some(label) => self.occurrences(label.spec_opposite()) >= CONSENSUS,
            None => false,
        }
    }

    /// The label that all five slots hold, if they hold the same one.
    pub open spec fn unanimous(self) -> Option<Label> {
        if self.occurrences(Label::Zero) == WINDOW_SLOTS {
            Some(Label::Zero)
        } else if self.occurrences(Label::One) == WINDOW_SLOTS {
            Some(Label::One)
        } else {
            None
        }
    }

    /// A window that has seen no reading.
    pub fn new() -> (w: PredictionWindow)
        ensures
            w == PredictionWindow::blank(),
    {
        PredictionWindow { s0: None, s1: None, s2: None, s3: None, s4: None }
    }

    /// Takes one more reading in and lets the oldest go.
    pub fn push(&mut self, label: Label)
        ensures
            *final(self) == old(self).pushed(label),
            final(self)@ == old(self)@.drop_first().push(Some(label)),
    {
        self.s0 = self.s1;
        self.s1 = self.s2;
        self.s2 = self.s3;
        self.s3 = self.s4;
        self.s4 = Some(label);
    }

    /// Forgets every reading.
    pub fn reset(&mut self)
        ensures
            *final(self) == PredictionWindow::blank(),
    {
        *self = PredictionWindow::new();
    }

    /// Counts the slots that hold a label.
    pub fn count(&self, label: Label) -> (n: usize)
        ensures
            n == self.occurrences(label),
            n <= WINDOW_SLOTS,
    {
        let mut n: usize = 0;
        if holds(self.s0, label) {
            n = n + 1;
        }
        if holds(self.s1, label) {
            n = n + 1;
        }
        if holds(self.s2, label) {
            n = n + 1;
        }
        if holds(self.s3, label) {
            n = n + 1;
        }
        if holds(self.s4, label) {
            n = n + 1;
        }
        n
    }

    /// Whether the window shows a consensus against the reference phase.
    /// With no reference there is nothing to flip from.
    pub fn flipped(&self, reference: Option<Label>) -> (flip: bool)
        ensures
            flip == self.flips_from(reference),
    {
        match reference {
            Some(label) => self.count(label.opposite()) >= CONSENSUS,
            None => false,
        }
    }

    /// The label of a uniform window.
    pub fn uniform(&self) -> (label: Option<Label>)
        ensures
            label == self.unanimous(),
    {
        if self.count(Label::Zero) == WINDOW_SLOTS {
            Some(Label::Zero)
        } else if self.count(Label::One) == WINDOW_SLOTS {
            Some(Label::One)
        } else {
            None
        }
    }
}

/// Whether a slot holds a label.
pub fn holds(slot: Option<Label>, label: Label) -> (b: bool)
    ensures
        b == (slot == Some(label)),
{
    match slot {
        Some(l) => match (l, label) {
            (Label::Zero, Label::Zero) => true,
            (Label::One, Label::One) => true,
            _ => false,
        },
        None => false,
    }
}

} // verus!
