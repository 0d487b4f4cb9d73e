//! StellarRegistry Custom Resource Definition.
//!
//! Declarative container registry management with automated security scanning,
//! Cosign image signing, multi-region mirroring, garbage collection, and
//! admission policies for vulnerable or unsigned images.
use vstd::prelude::*;
use vstd::string::*;

verus! {

/// Desired state of a StellarRegistry.
#[derive(Clone, Debug)]
pub struct StellarRegistrySpec {
    /// Registry endpoint URL (e.g. `registry.example.com/stellar`)
    pub endpoint: String,
    /// Security scanning configuration (Trivy or Grype)
    pub scanning: ScanningConfig,
    /// Image signing with Cosign
    pub signing: SigningConfig,
    /// Admission control policy for vulnerable/unsigned images
    pub admission: AdmissionPolicy,
    /// Multi-region registry mirroring
    pub mirrors: Vec<RegistryMirror>,
    /// Garbage collection for unused images
    pub garbage_collection: Option<GarbageCollectionConfig>,
    /// Caching proxy for external registries (e.g. Docker Hub)
    pub proxy: Option<RegistryProxyConfig>,
    /// Automatic base image patching
    pub auto_patch: Option<AutoPatchConfig>,
}

#[derive(Clone, Debug, PartialEq)]
pub struct ScanningConfig {
    pub enabled: bool,
    pub scanner: ScannerBackend,
    pub endpoint: String,
    pub scan_interval_secs: u64,
    pub max_critical_cves: u32,
    pub max_high_cves: u32,
}

impl Default for ScanningConfig {
    fn default() -> (c: Self)
        ensures
            !c.enabled,
            c.scanner == ScannerBackend::Trivy,
            c.endpoint@.len() == 0,
            c.scan_interval_secs == 0,
            c.max_critical_cves == 0,
            c.max_high_cves == 0,
    {
        ScanningConfig {
            enabled: false,
            scanner: ScannerBackend::Trivy,
            endpoint: String::new(),
            scan_interval_secs: 0,
            max_critical_cves: 0,
            max_high_cves: 0,
        }
    }
}

#[derive(Clone, Copy, Debug, PartialEq, Eq, Structural)]
pub enum ScannerBackend {
    Trivy,
    Grype,
}

impl Default for ScannerBackend {
    fn default() -> (b: Self)
        ensures
            b == ScannerBackend::Trivy,
    {
        ScannerBackend::Trivy
    }
}

#[derive(Clone, Debug, PartialEq)]
pub struct SigningConfig {
    pub enabled: bool,
    pub cosign_public_key_ref: String,
    pub require_signature: bool,
}

impl Default for SigningConfig {
    fn default() -> (c: Self)
        ensures
            !c.enabled,
            c.cosign_public_key_ref@.len() == 0,
            !c.require_signature,
    {
        SigningConfig { enabled: false, cosign_public_key_ref: String::new(), require_signature: false }
    }
}

#[derive(Clone, Copy, Debug, PartialEq, Eq, Structural)]
pub struct AdmissionPolicy {
    pub block_vulnerable: bool,
    pub block_unsigned: bool,
    pub enforce_on_deploy: bool,
}

impl Default for AdmissionPolicy {
    fn default() -> (p: Self)
        ensures
            !p.block_vulnerable,
            !p.block_unsigned,
            !p.enforce_on_deploy,
    {
        AdmissionPolicy { block_vulnerable: false, block_unsigned: false, enforce_on_deploy: false }
    }
}

#[derive(Clone, Debug, PartialEq)]
pub struct RegistryMirror {
    pub region: String,
    pub endpoint: String,
    pub enabled: bool,
}

#[derive(Clone, Debug, PartialEq)]
pub struct GarbageCollectionConfig {
    pub enabled: bool,
    pub schedule: String,
    pub retention_days: u32,
    pub dry_run: bool,
}

#[derive(Clone, Debug, PartialEq)]
pub struct RegistryProxyConfig {
    pub enabled: bool,
    pub upstream: String,
    pub cache_ttl_hours: u32,
}

#[derive(Clone, Debug, PartialEq)]
pub struct AutoPatchConfig {
    pub enabled: bool,
    pub schedule: String,
}

#[derive(Clone, Copy, Debug, PartialEq, Eq, Structural)]
pub enum RegistryPhase {
    Pending,
    Scanning,
    Active,
    Failed,
    Syncing,
}

impl Default for RegistryPhase {
    fn default() -> (p: Self)
        ensures
            p == RegistryPhase::Pending,
    {
        RegistryPhase::Pending
    }
}

#[derive(Clone, Copy, Debug, PartialEq, Eq, Structural)]
pub struct VulnerabilitySummary {
    pub critical: u32,
    pub high: u32,
    pub medium: u32,
    pub low: u32,
    pub images_scanned: u32,
}

impl Default for VulnerabilitySummary {
    fn default() -> (s: Self)
        ensures
            s.critical == 0 && s.high == 0 && s.medium == 0 && s.low == 0 && s.images_scanned == 0,
    {
        VulnerabilitySummary { critical: 0, high: 0, medium: 0, low: 0, images_scanned: 0 }
    }
}

/// Synchronisation state of one mirror; `last_sync` is in seconds since
/// the Unix epoch (UTC).
#[derive(Clone, Debug, PartialEq)]
pub struct MirrorStatus {
    pub region: String,
    pub synced: bool,
    pub last_sync: Option<i64>,
}

pub fn default_true() -> (b: bool)
    ensures
        b,
{
    true
}

pub fn default_scanner() -> (b: ScannerBackend)
    ensures
        b == ScannerBackend::Trivy,
{
    ScannerBackend::Trivy
}

pub fn default_scanner_endpoint() -> (s: String)
    ensures
        s@ == "http://trivy.trivy.svc:4954"@,
{
    String::from_str("http://trivy.trivy.svc:4954")
}

pub fn default_scan_interval() -> (n: u64)
    ensures
        n == 3600,
{
    3600
}

pub fn default_max_critical() -> (n: u32)
    ensures
        n == 0,
{
    0
}

pub fn default_max_high() -> (n: u32)
    ensures
        n == 5,
{
    5
}

pub fn default_cosign_key() -> (s: String)
    ensures
        s@ == "cosign-public-key"@,
{
    String::from_str("cosign-public-key")
}

pub fn default_gc_schedule() -> (s: String)
    ensures
        s@ == "0 2 * * 0"@,
{
    String::from_str("0 2 * * 0")
}

pub fn default_retention_days() -> (n: u32)
    ensures
        n == 30,
{
    30
}

pub fn default_gc_dry_run() -> (b: bool)
    ensures
        !b,
{
    false
}

pub fn default_proxy_cache_ttl() -> (n: u32)
    ensures
        n == 24,
{
    24
}

pub fn default_patch_schedule() -> (s: String)
    ensures
        s@ == "0 3 * * *"@,
{
    String::from_str("0 3 * * *")
}

/// Regions of the enabled mirrors, in order.
pub open spec fn enabled_regions(ms: Seq<RegistryMirror>) -> Seq<Seq<char>>
    decreases ms.len(),
{
    if ms.len() == 0 {
        Seq::empty()
    } else if ms.last().enabled {
        enabled_regions(ms.drop_last()).push(ms.last().region@)
    } else {
        enabled_regions(ms.drop_last())
    }
}

/// The verdict of registry spec validation.
pub open spec fn registry_spec_error(spec: StellarRegistrySpec) -> Option<Seq<char>> {
    if spec.endpoint@.len() == 0 {
        Some("endpoint is required"@)
    } else if spec.scanning.enabled && spec.scanning.endpoint@.len() == 0 {
        Some("scanning.endpoint required when scanning is enabled"@)
    } else {
        None
    }
}

impl StellarRegistrySpec {
    /// Rejects a spec without an endpoint, or with scanning enabled and no
    /// scanner endpoint.
    pub fn validate(&self) -> (r: Result<(), String>)
        ensures
            match r {
                Ok(_) => registry_spec_error(*self) is None,
                Err(e) => registry_spec_error(*self) == Some(e@),
            },
    {
        if self.endpoint.as_str().is_empty() {
            return Err(String::from_str("endpoint is required"));
        }
        if self.scanning.enabled && self.scanning.endpoint.as_str().is_empty() {
            return Err(String::from_str("scanning.endpoint required when scanning is enabled"));
        }
        Ok(())
    }

    /// Regions of the enabled mirrors, in order.
    pub fn mirror_regions(&self) -> (r: Vec<&str>)
        ensures
            r@.map_values(|s: &str| s@) == enabled_regions(self.mirrors@),
    {
        let mut r: Vec<&str> = Vec::new();
        let mut i: usize = 0;
        while i < self.mirrors.len()
            invariant
                i <= self.mirrors@.len(),
                r@.map_values(|s: &str| s@) == enabled_regions(self.mirrors@.take(i as int)),
            decreases self.mirrors.len() - i,
        {
            proof {
                assert(self.mirrors@.take(i as int + 1).drop_last() == self.mirrors@.take(i as int));
                assert(self.mirrors@.take(i as int + 1).last() == self.mirrors@[i as int]);
            }
            if self.mirrors[i].enabled {
                let ghost before = r@;
                r.push(self.mirrors[i].region.as_str());
                proof {
                    assert(r@.map_values(|s: &str| s@) =~= before.map_values(|s: &str| s@).push(
                        self.mirrors@[i as int].region@,
                    ));
                }
            }
            i = i + 1;
        }
        proof {
            assert(self.mirrors@.take(self.mirrors@.len() as int) == self.mirrors@);
        }
        r
    }
}

/// Total number of CVEs of a summary.
pub open spec fn cve_total(s: VulnerabilitySummary) -> int {
    s.critical + s.high + s.medium + s.low
}

/// The highest severity with at least one CVE, `NONE` when there is none.
pub open spec fn highest_severity_label(s: VulnerabilitySummary) -> Seq<char> {
    if s.critical > 0 {
        "CRITICAL"@
    } else if s.high > 0 {
        "HIGH"@
    } else if s.medium > 0 {
        "MEDIUM"@
    } else if s.low > 0 {
        "LOW"@
    } else {
        "NONE"@
    }
}

impl VulnerabilitySummary {
    /// Total number of CVEs.
    pub fn total_cves(&self) -> (n: u32)
        requires
            cve_total(*self) <= u32::MAX,
        ensures
            n == cve_total(*self),
    {
        self.critical + self.high + self.medium + self.low
    }

    /// More critical CVEs than `max_critical`, or more high CVEs than `max_high`.
    pub fn exceeds_threshold(&self, max_critical: u32, max_high: u32) -> (b: bool)
        ensures
            b == (self.critical > max_critical || self.high > max_high),
    {
        self.critical > max_critical || self.high > max_high
    }

    /// The highest severity with at least one CVE (the compliance report's
    /// `highest_severity`).
    pub fn highest_severity(&self) -> (s: String)
        ensures
            s@ == highest_severity_label(*self),
    {
        if self.critical > 0 {
            String::from_str("CRITICAL")
        } else if self.high > 0 {
            String::from_str("HIGH")
        } else if self.medium > 0 {
            String::from_str("MEDIUM")
        } else if self.low > 0 {
            String::from_str("LOW")
        } else {
            String::from_str("NONE")
        }
    }
}

} // verus!
