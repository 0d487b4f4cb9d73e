//! StellarSecret reconciliation: which rotation a secret gets, its retained
//! versions, and the status written back.
//!
//! The KMS calls, the audit log and the metrics belong to the caller; it
//! hands back the version a rotation produced and the size of the audit log.
use crate::crd::stellar_secret::{
    secret_spec_error, SecretBackend, SecretPhase, SecretVersionRecord, StellarSecretSpec,
    StellarSecretStatus,
};
use crate::crd::types::Condition;
use vstd::prelude::*;
use vstd::string::*;

verus! {

/// How a valid secret is rotated.
#[derive(Clone, Copy, Debug, PartialEq, Eq, Structural)]
pub enum RotationSource {
    /// A KMS provider is configured: the secret policy rotates it.
    Policy,
    /// The AWS backend with its configuration: rotated through AWS KMS.
    AwsKms,
    /// Nothing rotates it: the current version stays (at least 1).
    KeepCurrent,
}

/// The rotation a spec asks for: a configured provider first, then the AWS
/// backend with its configuration, else none.
pub open spec fn rotation_source_of(spec: StellarSecretSpec) -> RotationSource {
    if spec.provider is Some {
        RotationSource::Policy
    } else if spec.backend == SecretBackend::Aws && spec.aws is Some {
        RotationSource::AwsKms
    } else {
        RotationSource::KeepCurrent
    }
}

/// Chooses how a secret is rotated.
pub fn rotation_source(spec: &StellarSecretSpec) -> (r: RotationSource)
    ensures
        r == rotation_source_of(*spec),
{
    if spec.provider.is_some() {
        RotationSource::Policy
    } else if spec.backend == SecretBackend::Aws && spec.aws.is_some() {
        RotationSource::AwsKms
    } else {
        RotationSource::KeepCurrent
    }
}

/// The version kept when nothing rotates the secret: the previous one, and
/// at least 1.
pub fn kept_version(previous: u32) -> (v: u32)
    ensures
        v == (if previous >= 1 { previous } else { 1 }),
{
    if previous >= 1 {
        previous
    } else {
        1
    }
}

/// First retained version: `retention` versions before `current`, never
/// below 0.
pub open spec fn first_retained(current: u32, retention: u32) -> int {
    if current >= retention {
        current - retention
    } else {
        0
    }
}

/// The versions kept after a rotation to `current`: the `retention`
/// versions before it and `current` itself (never below version 0), in
/// increasing order, only `current` active, all stamped `now`.
pub fn build_version_history(current: u32, retention: u32, now: i64) -> (vs: Vec<
    SecretVersionRecord,
>)
    ensures
        vs@.len() == current - first_retained(current, retention) + 1,
        forall|i: int|
            0 <= i < vs@.len() ==> (#[trigger] vs@[i]).version == first_retained(current, retention) + i
                && vs@[i].active == (first_retained(current, retention) + i == current)
                && vs@[i].created_at == now,
{
    let start: u32 = current.saturating_sub(retention);
    let mut vs: Vec<SecretVersionRecord> = Vec::new();
    let mut v: u32 = start;
    vs.push(SecretVersionRecord { version: v, created_at: now, active: v == current });
    while v < current
        invariant
            start <= v <= current,
            start == first_retained(current, retention),
            vs@.len() == v - start + 1,
            forall|i: int|
                0 <= i < vs@.len() ==> (#[trigger] vs@[i]).version == start + i && vs@[i].active
                    == (start + i == current) && vs@[i].created_at == now,
        decreases current - v,
    {
        v = v + 1;
        vs.push(SecretVersionRecord { version: v, created_at: now, active: v == current });
    }
    vs
}

/// The status of a secret whose spec failed validation: phase `Failed` and a
/// `Ready=False` condition (reason `ValidationFailed`) carrying the message.
pub fn failed_status(message: String) -> (s: StellarSecretStatus)
    ensures
        s.phase == SecretPhase::Failed,
        s.current_version == 0,
        s.versions@.len() == 0,
        s.last_rotation is None,
        s.audit_entries_count == 0,
        s.conditions@.len() == 1,
        s.conditions@[0].type_@ == "Ready"@,
        s.conditions@[0].status@ == "False"@,
        s.conditions@[0].reason@ == "ValidationFailed"@,
        s.conditions@[0].message@ == message@,
{
    let mut s = StellarSecretStatus::default();
    s.phase = SecretPhase::Failed;
    s.conditions = vec![Condition::ready(false, "ValidationFailed", message.as_str())];
    s
}

/// The status after a successful reconcile at `now`: phase `Active`, the
/// version history of `current_version`, and a `Ready=True` condition.
pub fn active_status(current_version: u32, retention: u32, now: i64, audit_entries_count: u64) -> (s:
    StellarSecretStatus)
    ensures
        s.phase == SecretPhase::Active,
        s.current_version == current_version,
        s.versions@ == build_version_history_spec(current_version, retention, now),
        s.last_rotation == Some(now),
        s.audit_entries_count == audit_entries_count,
        s.conditions@.len() == 1,
        s.conditions@[0].type_@ == "Ready"@,
        s.conditions@[0].status@ == "True"@,
        s.conditions@[0].reason@ == "SecretReady"@,
        s.conditions@[0].message@ == "rotation complete"@,
{
    let versions = build_version_history(current_version, retention, now);
    proof {
        assert(versions@ =~= build_version_history_spec(current_version, retention, now));
    }
    StellarSecretStatus {
        phase: SecretPhase::Active,
        current_version,
        versions,
        last_rotation: Some(now),
        audit_entries_count,
        conditions: vec![Condition::ready(true, "SecretReady", "rotation complete")],
    }
}

/// `s` is the status of a secret that failed validation with `message`.
pub open spec fn is_failed_status(s: StellarSecretStatus, message: Seq<char>) -> bool {
    &&& s.phase == SecretPhase::Failed
    &&& s.current_version == 0
    &&& s.versions@.len() == 0
    &&& s.last_rotation is None
    &&& s.audit_entries_count == 0
    &&& s.conditions@.len() == 1
    &&& s.conditions@[0].type_@ == "Ready"@
    &&& s.conditions@[0].status@ == "False"@
    &&& s.conditions@[0].reason@ == "ValidationFailed"@
    &&& s.conditions@[0].message@ == message
}

/// `s` is the status of a secret reconciled at `now` to `current_version`.
pub open spec fn is_active_status(
    s: StellarSecretStatus,
    current_version: u32,
    retention: u32,
    now: i64,
    audit_entries_count: u64,
) -> bool {
    &&& s.phase == SecretPhase::Active
    &&& s.current_version == current_version
    &&& s.versions@ == build_version_history_spec(current_version, retention, now)
    &&& s.last_rotation == Some(now)
    &&& s.audit_entries_count == audit_entries_count
    &&& s.conditions@.len() == 1
    &&& s.conditions@[0].type_@ == "Ready"@
    &&& s.conditions@[0].status@ == "True"@
    &&& s.conditions@[0].reason@ == "SecretReady"@
    &&& s.conditions@[0].message@ == "rotation complete"@
}

/// The version a valid secret ends a reconcile with: the rotated version
/// when the spec asks for a rotation, else the previous version (at least 1).
pub open spec fn reconciled_version(spec: StellarSecretSpec, previous_version: u32, rotated_version: u32) -> u32 {
    if rotation_source_of(spec) == RotationSource::KeepCurrent {
        if previous_version >= 1 {
            previous_version
        } else {
            1
        }
    } else {
        rotated_version
    }
}

/// The status a reconcile writes for a secret at `now`.
///
/// `previous_version` is the version of the status already recorded (0 when
/// there is none); `rotated_version` is the version that the rotation asked
/// for by `rotation_source` produced, and is not read when the spec asks for
/// none. An invalid spec gives the failed status carrying the validation
/// error; a valid one the active status of the reconciled version, with
/// `spec.rotation.version_retention` versions kept before it.
pub fn reconcile_secret_status(
    spec: &StellarSecretSpec,
    previous_version: u32,
    rotated_version: u32,
    now: i64,
    audit_entries_count: u64,
) -> (s: StellarSecretStatus)
    ensures
        match secret_spec_error(*spec) {
            Some(e) => is_failed_status(s, e),
            None => is_active_status(
                s,
                reconciled_version(*spec, previous_version, rotated_version),
                spec.rotation.version_retention,
                now,
                audit_entries_count,
            ),
        },
{
    match spec.validate() {
        Err(e) => failed_status(e),
        Ok(()) => {
            let version = match rotation_source(spec) {
                RotationSource::KeepCurrent => kept_version(previous_version),
                _ => rotated_version,
            };
            active_status(version, spec.rotation.version_retention, now, audit_entries_count)
        },
    }
}

/// The version history as a sequence.
pub open spec fn build_version_history_spec(current: u32, retention: u32, now: i64) -> Seq<
    SecretVersionRecord,
> {
    let start = first_retained(current, retention);
    Seq::new(
        (current - start + 1) as nat,
        |i: int| SecretVersionRecord { version: (start + i) as u32, created_at: now, active: start + i == current },
    )
}

/// The history kept after a rotation to `current` ends with `current`, its
/// only active version; it lists consecutive versions, and holds `retention`
/// versions before `current` (all of them when `current` is smaller).
pub proof fn law_history_ends_with_the_active_version(current: u32, retention: u32, now: i64)
    ensures
        ({
            let h = build_version_history_spec(current, retention, now);
            &&& h.len() == (if current >= retention { retention as int } else { current as int }) + 1
            &&& h.last().version == current
            &&& h.last().active
            &&& forall|i: int| 0 <= i < h.len() - 1 ==> !(#[trigger] h[i]).active && h[i + 1].version == h[i].version + 1
        }),
{
}

} // verus!
