//! StellarSecret Custom Resource Definition.
//!
//! Advanced secret management with dynamic credential generation, automatic rotation,
//! KMS encryption, multi-backend support, audit logging, and zero-downtime rotation.
use crate::crd::secret_policy::{AwsKmsConfig, AzureKeyVaultConfig, GcpKmsConfig, KmsProvider};
use crate::crd::types::Condition;
use crate::text::{parse_bounded, parse_unsigned, chars_of, string_of_range};
use vstd::prelude::*;
use vstd::string::*;

verus! {

#[derive(Clone, Copy, Debug, PartialEq, Eq, Structural)]
pub enum SecretBackend {
    Vault,
    Aws,
    Azure,
    Local,
}

#[derive(Clone, Debug, PartialEq)]
pub struct DynamicSecretConfig {
    pub enabled: bool,
    pub ttl: String,
    pub database: Option<DatabaseCredentialTarget>,
}

impl Default for DynamicSecretConfig {
    fn default() -> (c: Self)
        ensures
            !c.enabled,
            c.ttl@.len() == 0,
            c.database is None,
    {
        DynamicSecretConfig { enabled: false, ttl: String::new(), database: None }
    }
}

#[derive(Clone, Debug, PartialEq)]
pub struct DatabaseCredentialTarget {
    pub host: String,
    pub database: String,
    pub username: String,
    pub role: String,
}

#[derive(Clone, Debug, PartialEq)]
pub struct RotationConfig {
    pub interval: String,
    pub zero_downtime: bool,
    pub version_retention: u32,
}

impl Default for RotationConfig {
    fn default() -> (c: Self)
        ensures
            c.interval@.len() == 0,
            !c.zero_downtime,
            c.version_retention == 0,
    {
        RotationConfig { interval: String::new(), zero_downtime: false, version_retention: 0 }
    }
}

#[derive(Clone, Debug, PartialEq)]
pub struct SecretInjectionTarget {
    pub kind: InjectionKind,
    pub name: String,
    pub key: String,
}

#[derive(Clone, Copy, Debug, PartialEq, Eq, Structural)]
pub enum InjectionKind {
    EnvVar,
    File,
}

#[derive(Clone, Debug, PartialEq)]
pub struct SecretAuditPolicy {
    pub enabled: bool,
    pub sink: Option<String>,
}

impl Default for SecretAuditPolicy {
    fn default() -> (p: Self)
        ensures
            !p.enabled,
            p.sink is None,
    {
        SecretAuditPolicy { enabled: false, sink: None }
    }
}

/// Desired state of a StellarSecret.
#[derive(Clone, Debug)]
pub struct StellarSecretSpec {
    pub secret_name: String,
    pub backend: SecretBackend,
    pub provider: Option<KmsProvider>,
    pub aws: Option<AwsKmsConfig>,
    pub azure: Option<AzureKeyVaultConfig>,
    pub gcp: Option<GcpKmsConfig>,
    pub dynamic: DynamicSecretConfig,
    pub rotation: RotationConfig,
    pub targets: Vec<SecretInjectionTarget>,
    pub audit: SecretAuditPolicy,
}

#[derive(Clone, Copy, Debug, PartialEq, Eq, Structural)]
pub enum SecretPhase {
    Pending,
    Active,
    Rotating,
    Failed,
}

impl Default for SecretPhase {
    fn default() -> (p: Self)
        ensures
            p == SecretPhase::Pending,
    {
        SecretPhase::Pending
    }
}

/// Observed state of a StellarSecret. Times are seconds since the Unix
/// epoch (UTC).
#[derive(Clone, Debug)]
pub struct StellarSecretStatus {
    pub phase: SecretPhase,
    pub current_version: u32,
    pub versions: Vec<SecretVersionRecord>,
    pub last_rotation: Option<i64>,
    pub audit_entries_count: u64,
    pub conditions: Vec<Condition>,
}

impl Default for StellarSecretStatus {
    fn default() -> (s: Self)
        ensures
            s.phase == SecretPhase::Pending,
            s.current_version == 0,
            s.versions@.len() == 0,
            s.last_rotation is None,
            s.audit_entries_count == 0,
            s.conditions@.len() == 0,
    {
        StellarSecretStatus {
            phase: SecretPhase::Pending,
            current_version: 0,
            versions: Vec::new(),
            last_rotation: None,
            audit_entries_count: 0,
            conditions: Vec::new(),
        }
    }
}

/// One retained version of a secret; `created_at` is in seconds since the
/// Unix epoch (UTC).
#[derive(Clone, Copy, Debug, PartialEq, Eq, Structural)]
pub struct SecretVersionRecord {
    pub version: u32,
    pub created_at: i64,
    pub active: bool,
}

pub fn default_true() -> (b: bool)
    ensures
        b,
{
    true
}

pub fn default_ttl() -> (s: String)
    ensures
        s@ == "1h"@,
{
    String::from_str("1h")
}

pub fn default_rotation_interval() -> (s: String)
    ensures
        s@ == "720h"@,
{
    String::from_str("720h")
}

pub fn default_version_retention() -> (n: u32)
    ensures
        n == 5,
{
    5
}

/// The verdict of secret spec validation.
pub open spec fn secret_spec_error(spec: StellarSecretSpec) -> Option<Seq<char>> {
    if spec.secret_name@.len() == 0 {
        Some("secret_name is required"@)
    } else if spec.backend == SecretBackend::Aws && spec.aws is None {
        Some("aws config required when backend=aws"@)
    } else if spec.backend == SecretBackend::Azure && spec.azure is None {
        Some("azure config required when backend=azure"@)
    } else {
        None
    }
}

/// `s` without its trailing run of `c` (`str::trim_end_matches` with a char).
pub open spec fn trim_trailing(s: Seq<char>, c: char) -> Seq<char>
    decreases s.len(),
{
    if s.len() > 0 && s.last() == c {
        trim_trailing(s.drop_last(), c)
    } else {
        s
    }
}

/// Rotation interval in whole days: an interval `<n>h` with `n` a `u32` gives
/// `n / 24`; anything else gives the 30-day default.
pub open spec fn interval_days(interval: Seq<char>) -> nat {
    if interval.len() > 0 && interval.last() == 'h' {
        match parse_bounded(trim_trailing(interval, 'h'), u32::MAX as nat) {
            Some(h) => h / 24,
            None => 30,
        }
    } else {
        30
    }
}

impl StellarSecretSpec {
    /// Rejects an empty secret name, and an AWS or Azure backend without its
    /// configuration.
    pub fn validate(&self) -> (r: Result<(), String>)
        ensures
            match r {
                Ok(_) => secret_spec_error(*self) is None,
                Err(e) => secret_spec_error(*self) == Some(e@),
            },
    {
        if self.secret_name.as_str().is_empty() {
            return Err(String::from_str("secret_name is required"));
        }
        match self.backend {
            SecretBackend::Aws if self.aws.is_none() => Err(
                String::from_str("aws config required when backend=aws"),
            ),
            SecretBackend::Azure if self.azure.is_none() => Err(
                String::from_str("azure config required when backend=azure"),
            ),
            _ => Ok(()),
        }
    }

    /// The rotation interval in days.
    pub fn rotation_interval_days(&self) -> (d: u32)
        ensures
            d == interval_days(self.rotation.interval@),
    {
        let v = chars_of(self.rotation.interval.as_str());
        if v.len() > 0 && v[v.len() - 1] == 'h' {
            let mut end: usize = v.len();
            proof {
                assert(v@.take(end as int) == v@);
            }
            while end > 0 && v[end - 1] == 'h'
                invariant
                    end <= v@.len(),
                    v@ == self.rotation.interval@,
                    trim_trailing(v@.take(end as int), 'h') == trim_trailing(v@, 'h'),
                decreases end,
            {
                proof {
                    assert(v@.take(end as int - 1) == v@.take(end as int).drop_last());
                }
                end = end - 1;
            }
            proof {
                assert(trim_trailing(v@.take(end as int), 'h') == v@.take(end as int));
                assert(v@.take(end as int) == v@.subrange(0, end as int));
            }
            let digits = string_of_range(&v, 0, end);
            match parse_unsigned(digits.as_str(), 0xffff_ffff) {
                Some(h) => (h / 24) as u32,
                None => 30,
            }
        } else {
            30
        }
    }
}

} // verus!
