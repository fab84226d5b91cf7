use runs_inside_qemu::contains_qemu_marker;

#[test]
fn marker_alone() {
    assert!(contains_qemu_marker("QEMU"));
}

#[test]
fn marker_at_start_middle_and_end() {
    assert!(contains_qemu_marker("QEMU Virtual CPU version 2.5+"));
    assert!(contains_qemu_marker("Virtual QEMU CPU"));
    assert!(contains_qemu_marker("Virtual CPU QEMU"));
}

#[test]
fn marker_after_false_start() {
    assert!(contains_qemu_marker("QEQEMU"));
    assert!(contains_qemu_marker("QQEMU"));
}

#[test]
fn marker_after_non_ascii() {
    assert!(contains_qemu_marker("\u{e4}\u{3b1}QEMU"));
}

#[test]
fn no_marker() {
    assert!(!contains_qemu_marker(""));
    assert!(!contains_qemu_marker("QEM"));
    assert!(!contains_qemu_marker("qemu"));
    assert!(!contains_qemu_marker("Q E M U"));
    assert!(!contains_qemu_marker("Intel(R) Xeon(R) CPU E5-2673 v4 @ 2.30GHz"));
}
