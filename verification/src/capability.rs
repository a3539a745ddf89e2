//! The runtime capability gate.
//!
//! The accelerated multiply requires a processor that offers 256-bit wide
//! floating-point lanes and fused multiply-add.  Whether the executing
//! processor reports those extensions is queried from the processor itself
//! on every call; a caller can also ask `simd_supported` ahead of time.
//! On a processor that lacks the extensions, the accelerated entry point
//! aborts rather than fall back or return a result.

use vstd::prelude::*;

verus! {

/// Relies on `raw_cpuid::CpuId::get_feature_info` and
/// `raw_cpuid::FeatureInfo::has_avx`: whether the processor reports the
/// 256-bit wide-lane extension.  The answer depends on the executing
/// machine, so nothing is promised of it.
#[verifier::external_body]
pub fn cpu_has_avx() -> bool {
    match raw_cpuid::CpuId::new().get_feature_info() {
        Some(f) => f.has_avx(),
        None => false,
    }
}

/// Relies on `raw_cpuid::CpuId::get_extended_feature_info` and
/// `raw_cpuid::ExtendedFeatures::has_avx2`: whether the processor reports
/// the second wide-lane integer extension.  The answer depends on the
/// executing machine, so nothing is promised of it.
#[verifier::external_body]
pub fn cpu_has_avx2() -> bool {
    match raw_cpuid::CpuId::new().get_extended_feature_info() {
        Some(f) => f.has_avx2(),
        None => false,
    }
}

/// Relies on `raw_cpuid::CpuId::get_feature_info` and
/// `raw_cpuid::FeatureInfo::has_fma`: whether the processor reports the
/// fused-multiply-add extension.  The answer depends on the executing
/// machine, so nothing is promised of it.
#[verifier::external_body]
pub fn cpu_has_fma() -> bool {
    match raw_cpuid::CpuId::new().get_feature_info() {
        Some(f) => f.has_fma(),
        None => false,
    }
}

/// The capability the accelerated multiply requires: wide floating-point
/// lanes together with fused multiply-add.  Callers that need portability
/// should consult this before choosing the accelerated representation.
pub fn simd_supported() -> bool {
    cpu_has_avx() && cpu_has_fma()
}

/// Relies on `Option::unwrap` panicking on `None`: aborts the process.
/// Called only by the capability gate, after the required processor
/// extensions were found missing; it never returns normally.
#[verifier::external_body]
pub(crate) fn abort_unsupported_hardware() {
    None::<()>.unwrap()
}

} // verus!
