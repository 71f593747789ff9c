//! The classifier bridge: from a frame to a label.
//!
//! The classifier itself is supplied from outside and works on floating-point
//! numbers. What is decided here is where in the frame it looks, what counts
//! as an answer, and how its answers are tallied against the truth.

use crate::backend::CircleLocation;
use crate::communication::emit;
use crate::communication::training_status_note;
use crate::communication::views;
use crate::communication::TaskError;
use crate::communication::TrainingNote;
use crate::communication::TrainingUpdate;
use crate::communication::Update;
use crate::window::Label;
use vstd::prelude::*;

verus! {

/// The side of the grid that a region is scaled to before it is classified.
pub const FEATURE_SIDE: usize = 20;

/// The number of features of one frame: one for each cell of the grid.
pub const FEATURE_COUNT: usize = 400;

/// A square of pixels in a frame.
#[derive(Clone, Copy, Debug, PartialEq, Eq, Structural)]
pub struct Region {
    pub x: i32,
    pub y: i32,
    pub side: i32,
}

/// The square around a circle, if it has pixels and lies within a frame of
/// the given size.
pub open spec fn region_around(circle: CircleLocation, width: int, height: int) -> Option<Region> {
    let x = circle.center_x - circle.radius;
    let y = circle.center_y - circle.radius;
    let side = 2 * circle.radius;
    if circle.radius > 0 && 0 <= x && 0 <= y && x + side <= width && y + side <= height {
        Some(Region { x: x as i32, y: y as i32, side: side as i32 })
    } else {
        None
    }
}

/// The circle that a classification goes by: the locked one that came with
/// the request, or else the one found in the frame.
pub open spec fn circle_used(
    hint: Option<CircleLocation>,
    detected: Option<CircleLocation>,
) -> Option<CircleLocation> {
    if hint is Some {
        hint
    } else {
        detected
    }
}

/// Resolves the region of a frame that is handed to the classifier: the
/// bounding square of the locked circle, or of the circle found in the
/// frame. Without a circle, or with a circle whose square does not lie
/// within the frame, the frame cannot be classified; the caller tries the
/// next one.
pub fn process_frame_for_ml(
    hint: Option<CircleLocation>,
    detected: Option<CircleLocation>,
    width: i32,
    height: i32,
) -> (region: Result<Region, TaskError>)
    ensures
        region == match circle_used(hint, detected) {
            Some(circle) => match region_around(circle, width as int, height as int) {
                Some(r) => Ok::<Region, TaskError>(r),
                None => Err::<Region, TaskError>(TaskError::NoCircleFound),
            },
            None => Err::<Region, TaskError>(TaskError::NoCircleFound),
        },
{
    let circle: CircleLocation = match hint {
        Some(circle) => circle,
        None => match detected {
            Some(circle) => circle,
            None => {
                return Err(TaskError::NoCircleFound);
            },
        },
    };
    let x: i64 = circle.center_x as i64 - circle.radius as i64;
    let y: i64 = circle.center_y as i64 - circle.radius as i64;
    let side: i64 = 2 * (circle.radius as i64);
    if circle.radius > 0 && 0 <= x && 0 <= y && x + side <= width as i64 && y + side
        <= height as i64 {
        Ok(Region { x: x as i32, y: y as i32, side: side as i32 })
    } else {
        Err(TaskError::NoCircleFound)
    }
}

/// The label that a raw answer of the classifier stands for, if it is one
/// of the two.
pub open spec fn label_of(raw: usize) -> Option<Label> {
    if raw == 0 {
        Some(Label::Zero)
    } else if raw == 1 {
        Some(Label::One)
    } else {
        None
    }
}

/// Takes the answer of the classifier for a region of `features` cells.
/// Only a full grid is an input, and only zero and one are answers; anything
/// else counts as a frame that could not be classified.
pub fn predict_from_frame(features: usize, raw: usize) -> (label: Result<Label, TaskError>)
    ensures
        label == if features == FEATURE_COUNT {
            match label_of(raw) {
                Some(l) => Ok::<Label, TaskError>(l),
                None => Err::<Label, TaskError>(TaskError::NoCircleFound),
            }
        } else {
            Err::<Label, TaskError>(TaskError::NoCircleFound)
        },
{
    if features != FEATURE_COUNT {
        Err(TaskError::NoCircleFound)
    } else if raw == 0 {
        Ok(Label::Zero)
    } else if raw == 1 {
        Ok(Label::One)
    } else {
        Err(TaskError::NoCircleFound)
    }
}

/// The labels of a training set: zero for every frame of the MAM set, then
/// one for every frame of the AMA set.
pub open spec fn labels_of(mam: nat, ama: nat) -> Seq<usize> {
    Seq::new(mam + ama, |i: int| if i < mam { 0usize } else { 1usize })
}

/// Prepares the labels for training. With either set empty there is
/// nothing to train on, and the outside is told so.
pub fn train_model(mam: usize, ama: usize) -> (prepared: (Option<Vec<usize>>, Vec<Update>))
    requires
        mam + ama <= usize::MAX,
    ensures
        mam == 0 || ama == 0 ==> prepared.0 is None && views(prepared.1@) == seq![
            training_status_note(TrainingNote::EmptyDataset),
        ],
        mam > 0 && ama > 0 ==> (prepared.0 matches Some(labels) && labels@ == labels_of(
            mam as nat,
            ama as nat,
        )) && prepared.1@.len() == 0,
{
    let mut updates: Vec<Update> = Vec::new();
    assert(views(updates@) =~= Seq::empty());
    if mam == 0 || ama == 0 {
        emit(&mut updates, Update::Training(TrainingUpdate::TrainingStatus(TrainingNote::EmptyDataset)));
        assert(views(updates@) =~= seq![training_status_note(TrainingNote::EmptyDataset)]);
        return (None, updates);
    }
    let mut labels: Vec<usize> = Vec::new();
    let mut i: usize = 0;
    while i < mam
        invariant
            i <= mam,
            labels@.len() == i,
            forall|j: int| 0 <= j < i ==> labels@[j] == 0,
        decreases mam - i,
    {
        labels.push(0);
        i = i + 1;
    }
    let mut k: usize = 0;
    while k < ama
        invariant
            k <= ama,
            mam + ama <= usize::MAX,
            labels@.len() == mam + k,
            forall|j: int| 0 <= j < mam ==> labels@[j] == 0,
            forall|j: int| mam <= j < mam + k ==> labels@[j] == 1,
        decreases ama - k,
    {
        labels.push(1);
        k = k + 1;
    }
    assert(labels@ =~= labels_of(mam as nat, ama as nat));
    (Some(labels), updates)
}

/// How often the classifier said what, against the truth.
#[derive(Clone, Copy, Debug, PartialEq, Eq, Structural)]
pub struct ConfusionMatrix {
    /// Truth zero, answer zero.
    pub true_negative: u32,
    /// Truth zero, answer one.
    pub false_positive: u32,
    /// Truth one, answer zero.
    pub false_negative: u32,
    /// Truth one, answer one.
    pub true_positive: u32,
}

impl ConfusionMatrix {
    /// The counts as rows of truth and columns of answer.
    pub fn matrix(&self) -> (m: [[u32; 2]; 2])
        ensures
            m[0][0] == self.true_negative,
            m[0][1] == self.false_positive,
            m[1][0] == self.false_negative,
            m[1][1] == self.true_positive,
    {
        [[self.true_negative, self.false_positive], [self.false_negative, self.true_positive]]
    }
}

/// How many of the first `upto` samples have this truth and this answer.
pub open spec fn tally(targets: Seq<usize>, predictions: Seq<usize>, truth: usize, answer: usize, upto: int) -> nat
    decreases upto,
{
    if upto <= 0 {
        0
    } else {
        tally(targets, predictions, truth, answer, upto - 1) + if targets[upto - 1] == truth
            && predictions[upto - 1] == answer {
            1nat
        } else {
            0nat
        }
    }
}

/// No tally is larger than the number of samples counted.
pub proof fn lemma_tally_bound(
    targets: Seq<usize>,
    predictions: Seq<usize>,
    truth: usize,
    answer: usize,
    upto: int,
)
    requires
        0 <= upto,
    ensures
        tally(targets, predictions, truth, answer, upto) <= upto,
    decreases upto,
{
    if upto > 0 {
        lemma_tally_bound(targets, predictions, truth, answer, upto - 1);
    }
}

/// Tallies the answers of the classifier against the truth. Lists of
/// different lengths cannot be compared and give an empty matrix. Samples
/// whose truth or answer is neither zero nor one are left out.
pub fn calculate_binary_confusion_matrix(predictions: &Vec<usize>, targets: &Vec<usize>) -> (m:
    ConfusionMatrix)
    requires
        predictions.len() <= u32::MAX,
    ensures
        predictions.len() != targets.len() ==> m == (ConfusionMatrix {
            true_negative: 0,
            false_positive: 0,
            false_negative: 0,
            true_positive: 0,
        }),
        predictions.len() == targets.len() ==> {
            &&& m.true_negative == tally(targets@, predictions@, 0, 0, targets.len() as int)
            &&& m.false_positive == tally(targets@, predictions@, 0, 1, targets.len() as int)
            &&& m.false_negative == tally(targets@, predictions@, 1, 0, targets.len() as int)
            &&& m.true_positive == tally(targets@, predictions@, 1, 1, targets.len() as int)
        },
{
    let mut m = ConfusionMatrix {
        true_negative: 0,
        false_positive: 0,
        false_negative: 0,
        true_positive: 0,
    };
    if predictions.len() != targets.len() {
        return m;
    }
    let n: usize = predictions.len();
    let mut i: usize = 0;
    while i < n
        invariant
            i <= n,
            n == predictions.len(),
            n == targets.len(),
            n <= u32::MAX,
            m.true_negative == tally(targets@, predictions@, 0, 0, i as int),
            m.false_positive == tally(targets@, predictions@, 0, 1, i as int),
            m.false_negative == tally(targets@, predictions@, 1, 0, i as int),
            m.true_positive == tally(targets@, predictions@, 1, 1, i as int),
        decreases n - i,
    {
        let truth: usize = targets[i];
        let answer: usize = predictions[i];
        proof {
            lemma_tally_bound(targets@, predictions@, 0, 0, i as int);
            lemma_tally_bound(targets@, predictions@, 0, 1, i as int);
            lemma_tally_bound(targets@, predictions@, 1, 0, i as int);
            lemma_tally_bound(targets@, predictions@, 1, 1, i as int);
        }
        if truth == 0 && answer == 0 {
            m.true_negative = m.true_negative + 1;
        } else if truth == 0 && answer == 1 {
            m.false_positive = m.false_positive + 1;
        } else if truth == 1 && answer == 0 {
            m.false_negative = m.false_negative + 1;
        } else if truth == 1 && answer == 1 {
            m.true_positive = m.true_positive + 1;
        }
        i = i + 1;
    }
    m
}

} // verus!
