use vstd::prelude::*;
use crate::certainty::QemuCertainty;
use crate::evidence::{classify, Evidence, Hypervisor};

verus! {

/// raw_cpuid's handle on the CPUID instruction; opaque here.
#[verifier::external_type_specification]
#[verifier::external_body]
pub struct ExCpuId(raw_cpuid::CpuId);

/// raw_cpuid's copy of the hypervisor information leaf; opaque here.
#[verifier::external_type_specification]
#[verifier::external_body]
pub struct ExHypervisorInfo(raw_cpuid::HypervisorInfo);

/// raw_cpuid's copy of the three brand string leaves; opaque here.
#[verifier::external_type_specification]
#[verifier::external_body]
pub struct ExProcessorBrandString(raw_cpuid::ProcessorBrandString);

/// Relies on raw_cpuid's `CpuId::new`: a handle that reads the processor's own leaves.
pub assume_specification[ raw_cpuid::CpuId::new ]() -> raw_cpuid::CpuId;

/// Relies on raw_cpuid's `CpuId::get_hypervisor_info`: `Some` only where the feature leaf has
/// the hypervisor flag set and the hypervisor information leaf reads.
pub assume_specification[ raw_cpuid::CpuId::get_hypervisor_info ](
    cpuid: &raw_cpuid::CpuId,
) -> Option<raw_cpuid::HypervisorInfo>;

/// Relies on raw_cpuid's `CpuId::get_processor_brand_string`: `Some` only where the three
/// extended brand leaves are supported.
pub assume_specification[ raw_cpuid::CpuId::get_processor_brand_string ](
    cpuid: &raw_cpuid::CpuId,
) -> Option<raw_cpuid::ProcessorBrandString>;

/// Relies on raw_cpuid's `ProcessorBrandString::as_str`: the text of the 48 brand bytes up to
/// the first zero byte, trimmed, so at most 48 characters.
pub assume_specification<'a>[ raw_cpuid::ProcessorBrandString::as_str ](
    brand: &'a raw_cpuid::ProcessorBrandString,
) -> (r: &'a str)
    ensures
        r@.len() <= 48,
;

/// Relies on raw_cpuid's `HypervisorInfo::identify`, which matches the vendor signature of the
/// hypervisor information leaf; its variants are carried over one for one.
#[verifier::external_body]
fn identify(info: &raw_cpuid::HypervisorInfo) -> (r: Hypervisor) {
    match info.identify() {
        raw_cpuid::Hypervisor::Xen => Hypervisor::Xen,
        raw_cpuid::Hypervisor::VMware => Hypervisor::VMware,
        raw_cpuid::Hypervisor::HyperV => Hypervisor::HyperV,
        raw_cpuid::Hypervisor::KVM => Hypervisor::KVM,
        raw_cpuid::Hypervisor::QEMU => Hypervisor::QEMU,
        raw_cpuid::Hypervisor::Bhyve => Hypervisor::Bhyve,
        raw_cpuid::Hypervisor::QNX => Hypervisor::QNX,
        raw_cpuid::Hypervisor::ACRN => Hypervisor::ACRN,
        raw_cpuid::Hypervisor::Unknown(ebx, ecx, edx) => Hypervisor::Unknown(ebx, ecx, edx),
    }
}

/// Tells how certain it is that the code runs inside QEMU, from this processor's
/// identification leaves.
///
/// The hypervisor flag counts as set where raw_cpuid gives the hypervisor information leaf.
/// The verdict is whatever `classify` decides on the evidence read: what the leaves hold is up
/// to the machine.
pub fn runs_inside_qemu() -> (r: QemuCertainty) {
    let cpuid = raw_cpuid::CpuId::new();
    let info = cpuid.get_hypervisor_info();
    let identity = match &info {
        Some(info) => Some(identify(info)),
        None => None,
    };
    let brand_leaves = cpuid.get_processor_brand_string();
    let brand = match &brand_leaves {
        Some(leaves) => Some(leaves.as_str()),
        None => None,
    };
    let evidence = Evidence { hypervisor_present: info.is_some(), identity, brand };
    classify(&evidence)
}

} // verus!
