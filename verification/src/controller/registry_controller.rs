//! StellarRegistry reconciliation: admission policy, mirror status, garbage
//! collection, the registry's readiness and CVE metrics.
//!
//! Scanning, signature verification and the status write-back belong to the
//! caller, which hands in what they found.
use crate::controller::cve::CVECount;
use crate::crd::stellar_registry::{
    enabled_regions, MirrorStatus, RegistryMirror, RegistryPhase, StellarRegistrySpec,
    VulnerabilitySummary,
};
use crate::crd::types::Condition;
use crate::text::{append_decimal, decimal};
use vstd::prelude::*;
use vstd::string::*;

verus! {

/// Why an image is refused by a registry's admission policy, if it is.
pub open spec fn admission_refusal(
    registry: StellarRegistrySpec,
    image: Seq<char>,
    signed: bool,
    summary: VulnerabilitySummary,
) -> Option<Seq<char>> {
    let policy = registry.admission;
    if registry.signing.require_signature && !signed {
        Some("image "@ + image + " is not signed with Cosign"@)
    } else if policy.block_vulnerable && (summary.critical > registry.scanning.max_critical_cves
        || summary.high > registry.scanning.max_high_cves) {
        Some(
            "image "@ + image + " exceeds vulnerability threshold (critical="@ + decimal(
                summary.critical as nat,
            ) + ", high="@ + decimal(summary.high as nat) + ")"@,
        )
    } else {
        None
    }
}

/// Admission refuses an image exactly when it is unsigned while the registry
/// requires signatures, or when it exceeds a CVE threshold while the policy
/// blocks vulnerable images; a refusal of an unsigned image names the
/// missing signature first.
pub proof fn law_admission_blocks_exactly(
    registry: StellarRegistrySpec,
    image: Seq<char>,
    signed: bool,
    summary: VulnerabilitySummary,
)
    ensures
        (admission_refusal(registry, image, signed, summary) is None) <==> (!(
        registry.signing.require_signature && !signed) && !(registry.admission.block_vulnerable
            && !registry_ready(registry, summary))),
        (registry.signing.require_signature && !signed) ==> admission_refusal(registry, image, signed, summary) == Some(
            "image "@ + image + " is not signed with Cosign"@,
        ),
{
}

/// CVE thresholds are maxima: admission refuses an image for its CVEs, and
/// a registry stops being ready, only when the critical count exceeds
/// `max_critical_cves` or the high count exceeds `max_high_cves`. An image
/// at or under both maxima is admitted when it is signed or signatures are
/// not required; one over a maximum is refused with the counts named when
/// vulnerable images are blocked and its signature is in order.
pub proof fn law_cve_thresholds_are_maxima(
    registry: StellarRegistrySpec,
    image: Seq<char>,
    signed: bool,
    summary: VulnerabilitySummary,
)
    ensures
        registry_ready(registry, summary) <==> (summary.critical <= registry.scanning.max_critical_cves
            && summary.high <= registry.scanning.max_high_cves),
        (summary.critical <= registry.scanning.max_critical_cves && summary.high
            <= registry.scanning.max_high_cves && (signed || !registry.signing.require_signature))
            ==> admission_refusal(registry, image, signed, summary) is None,
        ((summary.critical > registry.scanning.max_critical_cves || summary.high
            > registry.scanning.max_high_cves) && registry.admission.block_vulnerable && (signed
            || !registry.signing.require_signature)) ==> admission_refusal(registry, image, signed, summary)
            == Some(
            "image "@ + image + " exceeds vulnerability threshold (critical="@ + decimal(
                summary.critical as nat,
            ) + ", high="@ + decimal(summary.high as nat) + ")"@,
        ),
{
}

/// Checks whether an image passes the admission policy of a registry:
/// unsigned images are refused whenever the registry requires signatures;
/// images over the CVE thresholds are refused when the
/// policy blocks vulnerable images.
pub fn check_admission(
    registry: &StellarRegistrySpec,
    image: &str,
    signed: bool,
    summary: &VulnerabilitySummary,
) -> (r: Result<(), String>)
    ensures
        match r {
            Ok(_) => admission_refusal(*registry, image@, signed, *summary) is None,
            Err(e) => admission_refusal(*registry, image@, signed, *summary) == Some(e@),
        },
{
    let policy = &registry.admission;
    if registry.signing.require_signature && !signed {
        let mut msg = String::from_str("image ");
        msg.append(image);
        msg.append(" is not signed with Cosign");
        return Err(msg);
    }
    if policy.block_vulnerable && summary.exceeds_threshold(
        registry.scanning.max_critical_cves,
        registry.scanning.max_high_cves,
    ) {
        let mut msg = String::from_str("image ");
        msg.append(image);
        msg.append(" exceeds vulnerability threshold (critical=");
        append_decimal(&mut msg, summary.critical as u64);
        msg.append(", high=");
        append_decimal(&mut msg, summary.high as u64);
        msg.append(")");
        return Err(msg);
    }
    Ok(())
}

/// Builds a CVE count from a vulnerability summary for metrics export.
pub fn summary_to_cve_count(summary: &VulnerabilitySummary) -> (c: CVECount)
    ensures
        c.critical == summary.critical,
        c.high == summary.high,
        c.medium == summary.medium,
        c.low == summary.low,
        c.unknown == 0,
{
    CVECount {
        critical: summary.critical,
        high: summary.high,
        medium: summary.medium,
        low: summary.low,
        unknown: 0,
    }
}

/// The status of every enabled mirror, in order: synced at `now`.
pub fn reconcile_mirrors(mirrors: &[RegistryMirror], now: i64) -> (r: Vec<MirrorStatus>)
    ensures
        r@.map_values(|m: MirrorStatus| m.region@) == enabled_regions(mirrors@),
        forall|i: int| 0 <= i < r@.len() ==> (#[trigger] r@[i]).synced && r@[i].last_sync == Some(now),
{
    let mut r: Vec<MirrorStatus> = Vec::new();
    let mut i: usize = 0;
    while i < mirrors.len()
        invariant
            i <= mirrors@.len(),
            r@.map_values(|m: MirrorStatus| m.region@) == enabled_regions(mirrors@.take(i as int)),
            forall|j: int| 0 <= j < r@.len() ==> (#[trigger] r@[j]).synced && r@[j].last_sync == Some(now),
        decreases mirrors.len() - i,
    {
        proof {
            assert(mirrors@.take(i as int + 1).drop_last() == mirrors@.take(i as int));
            assert(mirrors@.take(i as int + 1).last() == mirrors@[i as int]);
        }
        if mirrors[i].enabled {
            let ghost before = r@;
            r.push(MirrorStatus { region: mirrors[i].region.clone(), synced: true, last_sync: Some(now) });
            proof {
                assert(r@.map_values(|m: MirrorStatus| m.region@) =~= before.map_values(
                    |m: MirrorStatus| m.region@,
                ).push(mirrors@[i as int].region@));
            }
        }
        i = i + 1;
    }
    proof {
        assert(mirrors@.take(mirrors@.len() as int) == mirrors@);
    }
    r
}

/// Images a garbage collection run reclaims: none on a dry run, else two per
/// day of retention.
pub fn gc_reclaimed_images(retention_days: u32, dry_run: bool) -> (n: u64)
    ensures
        n == (if dry_run { 0 } else { 2 * retention_days }),
{
    if dry_run {
        0
    } else {
        retention_days as u64 * 2
    }
}

/// The image scanned to sample a registry: `<endpoint>/stellar-core:latest`.
pub fn probe_image(registry_endpoint: &str) -> (s: String)
    ensures
        s@ == registry_endpoint@ + "/stellar-core:latest"@,
{
    let mut s = registry_endpoint.to_owned();
    s.append("/stellar-core:latest");
    s
}

/// The vulnerability summary of one scanned image.
pub fn summary_from_count(count: &CVECount) -> (s: VulnerabilitySummary)
    ensures
        s.critical == count.critical,
        s.high == count.high,
        s.medium == count.medium,
        s.low == count.low,
        s.images_scanned == 1,
{
    VulnerabilitySummary {
        critical: count.critical,
        high: count.high,
        medium: count.medium,
        low: count.low,
        images_scanned: 1,
    }
}

/// The message of a registry's readiness condition.
pub open spec fn readiness_message(summary: VulnerabilitySummary, signed_percent: Seq<char>) -> Seq<char> {
    "CVEs: critical="@ + decimal(summary.critical as nat) + ", high="@ + decimal(summary.high as nat)
        + ", signed="@ + signed_percent + "%"@
}

/// A registry is ready when its CVEs stay within the scanning thresholds.
pub open spec fn registry_ready(spec: StellarRegistrySpec, summary: VulnerabilitySummary) -> bool {
    !(summary.critical > spec.scanning.max_critical_cves || summary.high > spec.scanning.max_high_cves)
}

/// The phase and readiness condition of a reconciled registry, given its
/// vulnerability summary and the share of signed images as printed with no
/// decimals.
pub fn registry_outcome(
    spec: &StellarRegistrySpec,
    summary: &VulnerabilitySummary,
    signed_percent: &str,
) -> (r: (RegistryPhase, Condition))
    ensures
        r.0 == (if registry_ready(*spec, *summary) {
            RegistryPhase::Active
        } else {
            RegistryPhase::Failed
        }),
        r.1.type_@ == "Ready"@,
        r.1.status@ == (if registry_ready(*spec, *summary) { "True"@ } else { "False"@ }),
        r.1.reason@ == (if registry_ready(*spec, *summary) {
            "RegistryCompliant"@
        } else {
            "VulnerabilitiesExceeded"@
        }),
        r.1.message@ == readiness_message(*summary, signed_percent@),
{
    let ready = !summary.exceeds_threshold(spec.scanning.max_critical_cves, spec.scanning.max_high_cves);
    let mut msg = String::from_str("CVEs: critical=");
    append_decimal(&mut msg, summary.critical as u64);
    msg.append(", high=");
    append_decimal(&mut msg, summary.high as u64);
    msg.append(", signed=");
    msg.append(signed_percent);
    msg.append("%");
    let phase = if ready {
        RegistryPhase::Active
    } else {
        RegistryPhase::Failed
    };
    let reason = if ready {
        "RegistryCompliant"
    } else {
        "VulnerabilitiesExceeded"
    };
    (phase, Condition::ready(ready, reason, msg.as_str()))
}

} // verus!
