use vstd::prelude::*;
use crate::brand::{contains_marker, contains_qemu_marker};
use crate::certainty::QemuCertainty;

verus! {

/// The hypervisor products that the hypervisor information leaf identifies by their
/// twelve-byte vendor signature.
#[derive(Clone, Copy, Debug, PartialEq, Eq, Structural)]
pub enum Hypervisor {
    Xen,
    VMware,
    HyperV,
    KVM,
    /// QEMU itself, running without an accelerator such as KVM ("TCGTCGTCGTCG").
    QEMU,
    Bhyve,
    QNX,
    ACRN,
    /// A signature that is none of the above, as the three registers EBX, ECX and EDX hold it.
    Unknown(u32, u32, u32),
}

/// What the processor identification leaves tell about the environment.
#[derive(Clone, Copy, Debug)]
pub struct Evidence<'a> {
    /// Whether the processor reports that a hypervisor runs it. `false` also where the
    /// feature leaf cannot be read.
    pub hypervisor_present: bool,
    /// The identity in the hypervisor information leaf; `None` where it cannot be read.
    pub identity: Option<Hypervisor>,
    /// The processor brand string; `None` where the extended brand leaves are not supported.
    pub brand: Option<&'a str>,
}

/// Decides, from the evidence, how certain it is that the code runs inside QEMU.
///
/// The steps go in order and the first that applies decides: no hypervisor means
/// `DefinitelyNot`; QEMU's own identity means `VeryLikely`; otherwise the brand string decides,
/// `VeryLikely` where it contains "QEMU" and `Maybe` where it does not or cannot be read.
pub fn classify(evidence: &Evidence) -> (r: QemuCertainty)
    ensures
        !evidence.hypervisor_present ==> r == QemuCertainty::DefinitelyNot,
        evidence.hypervisor_present && evidence.identity == Some(Hypervisor::QEMU) ==> r
            == QemuCertainty::VeryLikely,
        evidence.hypervisor_present && evidence.identity != Some(Hypervisor::QEMU)
            && evidence.brand.is_none() ==> r == QemuCertainty::Maybe,
        evidence.hypervisor_present && evidence.identity != Some(Hypervisor::QEMU)
            && evidence.brand.is_some() && contains_marker(evidence.brand.unwrap()@) ==> r
            == QemuCertainty::VeryLikely,
        evidence.hypervisor_present && evidence.identity != Some(Hypervisor::QEMU)
            && evidence.brand.is_some() && !contains_marker(evidence.brand.unwrap()@) ==> r
            == QemuCertainty::Maybe,
{
    if !evidence.hypervisor_present {
        return QemuCertainty::DefinitelyNot;
    }
    if let Some(Hypervisor::QEMU) = evidence.identity {
        return QemuCertainty::VeryLikely;
    }
    match evidence.brand {
        None => QemuCertainty::Maybe,
        Some(brand) => {
            if contains_qemu_marker(brand) {
                QemuCertainty::VeryLikely
            } else {
                QemuCertainty::Maybe
            }
        },
    }
}

} // verus!
