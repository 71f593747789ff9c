use polarimeter::window::holds;
use polarimeter::window::Label;
use polarimeter::window::PredictionWindow;

fn window_of(labels: &[Label]) -> PredictionWindow {
    let mut window = PredictionWindow::new();
    for label in labels {
        window.push(*label);
    }
    window
}

const Z: Label = Label::Zero;
const O: Label = Label::One;

#[test]
fn a_new_window_knows_nothing() {
    let window = PredictionWindow::new();
    assert_eq!(window.count(Z), 0);
    assert_eq!(window.count(O), 0);
    assert_eq!(window.uniform(), None);
    assert!(!window.flipped(Some(Z)));
    assert!(!window.flipped(Some(O)));
    assert!(!window.flipped(None));
}

#[test]
fn the_window_keeps_the_last_five() {
    let window = window_of(&[Z, Z, Z, O, O, O, O]);
    assert_eq!(window.s0, Some(Z));
    assert_eq!(window.s1, Some(O));
    assert_eq!(window.s4, Some(O));
    assert_eq!(window.count(Z), 1);
    assert_eq!(window.count(O), 4);
}

#[test]
fn three_of_five_is_a_consensus() {
    assert!(!window_of(&[O, O]).flipped(Some(Z)));
    assert!(window_of(&[O, O, O]).flipped(Some(Z)));
    assert!(window_of(&[Z, O, Z, O, O]).flipped(Some(Z)));
    assert!(!window_of(&[Z, O, Z, O, Z]).flipped(Some(Z)));
    assert!(window_of(&[Z, O, Z, O, Z]).flipped(Some(O)));
    assert!(!window_of(&[O, O, O]).flipped(Some(O)));
    assert!(!window_of(&[O, O, O, O, O]).flipped(None));
}

#[test]
fn uniform_needs_all_five() {
    assert_eq!(window_of(&[Z, Z, Z, Z]).uniform(), None);
    assert_eq!(window_of(&[Z, Z, Z, Z, Z]).uniform(), Some(Z));
    assert_eq!(window_of(&[O, O, O, O, O, O]).uniform(), Some(O));
    assert_eq!(window_of(&[O, Z, O, O, O, O]).uniform(), None);
}

#[test]
fn reset_forgets() {
    let mut window = window_of(&[O, O, O, O, O]);
    window.reset();
    assert_eq!(window, PredictionWindow::new());
}

#[test]
fn labels_flip_under_the_orientation_flag() {
    assert_eq!(Z.opposite(), O);
    assert_eq!(O.opposite(), Z);
    assert_eq!(Z.flipped_if(false), Z);
    assert_eq!(Z.flipped_if(true), O);
    assert_eq!(O.flipped_if(true), Z);
}

#[test]
fn a_slot_holds_its_label_only() {
    assert!(holds(Some(Z), Z));
    assert!(!holds(Some(Z), O));
    assert!(!holds(None, Z));
}
