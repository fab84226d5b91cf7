use vstd::prelude::*;

verus! {

/// How certain it is that the code runs inside QEMU.
///
/// The variants are ordered from the weakest to the strongest verdict.
#[derive(Clone, Copy, Debug, PartialEq, Eq, Structural)]
pub enum QemuCertainty {
    /// The hypervisor flag is not set: no hypervisor runs the code, so QEMU does not either.
    DefinitelyNot,
    /// A hypervisor runs the code, but nothing confirms or rules out QEMU. This happens, for
    /// example, under KVM with the host's processor model ("-cpu host").
    Maybe,
    /// The hypervisor identity is QEMU's own, or the processor brand string names QEMU.
    VeryLikely,
}

impl QemuCertainty {
    /// Whether the verdict is `DefinitelyNot`.
    pub fn is_definitely_not(self) -> (r: bool)
        ensures
            r == (self == QemuCertainty::DefinitelyNot),
    {
        self == QemuCertainty::DefinitelyNot
    }

    /// Whether the verdict is `VeryLikely`.
    pub fn is_very_likely(self) -> (r: bool)
        ensures
            r == (self == QemuCertainty::VeryLikely),
    {
        self == QemuCertainty::VeryLikely
    }

    /// Whether the verdict is `Maybe` or `VeryLikely`: the check for callers that want QEMU
    /// specific behaviour whenever a hypervisor may be QEMU.
    pub fn is_maybe_or_very_likely(self) -> (r: bool)
        ensures
            r == (self == QemuCertainty::Maybe || self == QemuCertainty::VeryLikely),
    {
        self == QemuCertainty::Maybe || self == QemuCertainty::VeryLikely
    }
}

/// The three predicates split the verdicts without overlap or gap: every verdict is either
/// definitely not QEMU or maybe-or-very-likely QEMU, never both, and a very likely verdict is
/// one of the maybe-or-very-likely ones. So each verdict is exactly one of `DefinitelyNot`,
/// `VeryLikely`, and maybe-or-very-likely without very-likely (that is, `Maybe`).
pub proof fn lemma_predicates_partition(c: QemuCertainty)
    ensures
        (c == QemuCertainty::DefinitelyNot) != (c == QemuCertainty::Maybe || c
            == QemuCertainty::VeryLikely),
        (c == QemuCertainty::VeryLikely) ==> (c == QemuCertainty::Maybe || c
            == QemuCertainty::VeryLikely),
        (c == QemuCertainty::Maybe) == ((c == QemuCertainty::Maybe || c
            == QemuCertainty::VeryLikely) && !(c == QemuCertainty::VeryLikely)),
{
}

} // verus!
