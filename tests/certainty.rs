use runs_inside_qemu::{runs_inside_qemu, QemuCertainty};

#[test]
fn definitely_not_predicates() {
    let c = QemuCertainty::DefinitelyNot;
    assert!(c.is_definitely_not());
    assert!(!c.is_very_likely());
    assert!(!c.is_maybe_or_very_likely());
}

#[test]
fn maybe_predicates() {
    let c = QemuCertainty::Maybe;
    assert!(!c.is_definitely_not());
    assert!(!c.is_very_likely());
    assert!(c.is_maybe_or_very_likely());
}

#[test]
fn very_likely_predicates() {
    let c = QemuCertainty::VeryLikely;
    assert!(!c.is_definitely_not());
    assert!(c.is_very_likely());
    assert!(c.is_maybe_or_very_likely());
}

#[test]
fn predicates_partition_verdicts() {
    for c in [QemuCertainty::DefinitelyNot, QemuCertainty::Maybe, QemuCertainty::VeryLikely] {
        assert_ne!(c.is_definitely_not(), c.is_maybe_or_very_likely());
        let maybe_only = c.is_maybe_or_very_likely() && !c.is_very_likely();
        let held = [c.is_definitely_not(), maybe_only, c.is_very_likely()];
        assert_eq!(held.iter().filter(|b| **b).count(), 1);
    }
}

#[test]
fn detection_on_this_machine_gives_one_verdict() {
    let c = runs_inside_qemu();
    assert_ne!(c.is_definitely_not(), c.is_maybe_or_very_likely());
    assert_eq!(runs_inside_qemu(), c);
}
