//! Networking Policy CRDs for microsegmentation and zero-trust networking.
//!
//! - [`StellarNetworkPolicySpec`] - Identity-based network policies with L7 support
//! - [`StellarNetworkSegmentSpec`] - Security zones for pod grouping
//! - [`WorkloadIdentity`] - Workload identity of a behavioral profile
use std::collections::BTreeMap;
use vstd::prelude::*;

verus! {

/// StellarNetworkPolicy defines network access policies for pods with support for
/// L3/L4/L7 rules, identity-based selectors, and automatic policy generation.
#[derive(Clone, Debug)]
#[allow(non_snake_case)]
pub struct StellarNetworkPolicySpec {
    /// Pod selector indicating which pods this policy applies to
    pub selector: LabelSelector,

    /// Ingress rules
    pub ingress: Option<Vec<IngressRule>>,

    /// Egress rules
    pub egress: Option<Vec<EgressRule>>,

    /// Policy priority (lower number = higher priority, range: 0-1000)
    pub priority: i32,

    /// Enable enforcement (true) or warning-only mode (false)
    pub enforce: bool,

    /// Audit all traffic matching this policy
    pub audit: bool,

    /// Description of the policy
    pub description: Option<String>,

    /// Labels for organizing policies
    pub labels: Option<BTreeMap<String, String>>,
}

/// StellarNetworkPolicyStatus tracks policy status and violations
#[derive(Clone, Debug)]
#[allow(non_snake_case)]
pub struct StellarNetworkPolicyStatus {
    /// Current phase: Pending, Active, Error
    pub phase: Option<String>,

    /// Number of pods covered by this policy
    pub pods_covered: i32,

    /// Number of violations detected
    pub violations_detected: i32,

    /// Last update timestamp
    pub last_updated: Option<String>,

    /// Error message if any
    pub error: Option<String>,

    /// Conditions for policy status
    pub conditions: Option<Vec<Condition>>,
}

/// IngressRule describes traffic allowed to pods matching the selector
#[derive(Clone, Debug)]
#[allow(non_snake_case)]
pub struct IngressRule {
    /// From defines where traffic is allowed from
    pub from: Option<Vec<NetworkPolicyPeer>>,

    /// Ports define which ports are allowed
    pub ports: Option<Vec<NetworkPolicyPort>>,

    /// L7Rules define application-layer rules (HTTP, gRPC, etc.)
    pub l7Rules: Option<Vec<L7Rule>>,
}

/// EgressRule describes traffic allowed from pods matching the selector
#[derive(Clone, Debug)]
#[allow(non_snake_case)]
pub struct EgressRule {
    /// To defines where traffic is allowed to
    pub to: Option<Vec<NetworkPolicyPeer>>,

    /// Ports define which ports are allowed
    pub ports: Option<Vec<NetworkPolicyPort>>,

    /// L7Rules define application-layer rules
    pub l7Rules: Option<Vec<L7Rule>>,
}

/// NetworkPolicyPeer describes entities that can be selected for traffic rules
#[derive(Clone, Debug)]
#[allow(non_snake_case)]
pub struct NetworkPolicyPeer {
    /// PodSelector selects pods by label
    pub podSelector: Option<LabelSelector>,

    /// NamespaceSelector selects namespaces by label
    pub namespaceSelector: Option<LabelSelector>,

    /// SegmentSelector selects a network segment by name
    pub segmentSelector: Option<SegmentSelector>,

    /// IPBlock allows traffic from/to specific IP ranges
    pub ipBlock: Option<IPBlock>,
}

/// SegmentSelector refers to a StellarNetworkSegment by name
#[derive(Clone, Debug)]
#[allow(non_snake_case)]
pub struct SegmentSelector {
    /// Name of the segment
    pub name: String,
}

/// IPBlock describes a set of IP ranges
#[derive(Clone, Debug)]
#[allow(non_snake_case)]
pub struct IPBlock {
    /// CIDR block (e.g., "10.0.0.0/8")
    pub cidr: String,

    /// Except defines exceptions to the CIDR
    pub except: Option<Vec<String>>,
}

/// NetworkPolicyPort describes a port to allow
#[derive(Clone, Debug)]
#[allow(non_snake_case)]
pub struct NetworkPolicyPort {
    /// Protocol (TCP, UDP, SCTP)
    pub protocol: Option<String>,

    /// Port number
    pub port: Option<i32>,

    /// Port name
    pub portName: Option<String>,
}

/// L7Rule describes application-layer policy rules
#[derive(Clone, Debug)]
#[allow(non_snake_case)]
pub struct L7Rule {
    /// HTTP rules
    pub http: Option<Vec<HTTPRule>>,

    /// gRPC rules
    pub grpc: Option<Vec<GRPCRule>>,

    /// TLS/SNI rules
    pub tls: Option<Vec<TLSRule>>,

    /// DNS rules
    pub dns: Option<Vec<DNSRule>>,
}

/// HTTPRule describes HTTP-specific policy rules
#[derive(Clone, Debug)]
#[allow(non_snake_case)]
pub struct HTTPRule {
    /// Host header match (e.g., "api.stellar.org")
    pub host: Option<String>,

    /// HTTP path match (e.g., "/api/v1")
    pub path: Option<String>,

    /// HTTP method (GET, POST, PUT, DELETE, etc.)
    pub method: Option<String>,

    /// HTTP header matches
    pub headers: Option<Vec<HeaderMatch>>,
}

/// HeaderMatch describes HTTP header matching
#[derive(Clone, Debug)]
#[allow(non_snake_case)]
pub struct HeaderMatch {
    /// Header name
    pub name: String,

    /// Exact header value
    pub value: Option<String>,

    /// Regex header value match
    pub regex: Option<String>,
}

/// GRPCRule describes gRPC-specific policy rules
#[derive(Clone, Debug)]
#[allow(non_snake_case)]
pub struct GRPCRule {
    /// Fully qualified method name (e.g., "/stellar.Validator/GetStatus")
    pub method: String,

    /// Metadata matches for gRPC headers
    pub metadata: Option<Vec<MetadataMatch>>,
}

/// MetadataMatch describes gRPC metadata matching
#[derive(Clone, Debug)]
#[allow(non_snake_case)]
pub struct MetadataMatch {
    /// Metadata key
    pub name: String,

    /// Exact value
    pub value: Option<String>,

    /// Regex value match
    pub regex: Option<String>,
}

/// TLSRule describes TLS/SNI-specific policy rules
#[derive(Clone, Debug)]
#[allow(non_snake_case)]
pub struct TLSRule {
    /// SNI (Server Name Indication) match
    pub sni: Option<String>,

    /// Cipher suites to allow
    pub cipherSuites: Option<Vec<String>>,
}

/// DNSRule describes DNS-specific policy rules
#[derive(Clone, Debug)]
#[allow(non_snake_case)]
pub struct DNSRule {
    /// Domain name or pattern (e.g., "*.stellar.org")
    pub domain: String,

    /// Record type (A, AAAA, MX, etc.)
    pub recordType: Option<String>,
}

/// StellarNetworkSegment defines a security zone/segment
#[derive(Clone, Debug)]
#[allow(non_snake_case)]
pub struct StellarNetworkSegmentSpec {
    /// Pod selector indicating which pods belong to this segment
    pub podSelector: LabelSelector,

    /// Description of the segment
    pub description: Option<String>,

    /// Default ingress rules for all pods in this segment
    pub defaultIngress: Option<Vec<IngressRule>>,

    /// Default egress rules for all pods in this segment
    pub defaultEgress: Option<Vec<EgressRule>>,

    /// Parent segment (for hierarchy)
    pub parentSegment: Option<String>,

    /// Tier level (critical, standard, public, etc.)
    pub tier: Option<String>,

    /// Labels for organizing segments
    pub labels: Option<BTreeMap<String, String>>,
}

/// StellarNetworkSegmentStatus tracks segment status
#[derive(Clone, Debug)]
#[allow(non_snake_case)]
pub struct StellarNetworkSegmentStatus {
    /// Number of pods in this segment
    pub pod_count: i32,

    /// Number of policies applied
    pub policy_count: i32,

    /// Last update timestamp
    pub last_updated: Option<String>,
}

/// WorkloadIdentity describes the identity of a workload
#[derive(Clone, Debug)]
#[allow(non_snake_case)]
pub struct WorkloadIdentity {
    /// Service account name
    pub serviceAccount: String,

    /// Custom identity labels
    pub labels: Option<BTreeMap<String, String>>,

    /// SPIFFE identity (URI format)
    pub spiffeId: Option<String>,

    /// Certificate thumbprint for mTLS
    pub certificateThumbprint: Option<String>,
}

/// LabelSelector represents a Kubernetes label selector
#[derive(Clone, Debug)]
#[allow(non_snake_case)]
pub struct LabelSelector {
    /// Key-value label matches
    pub matchLabels: Option<BTreeMap<String, String>>,

    /// Expression-based label matches
    pub matchExpressions: Option<Vec<LabelSelectorRequirement>>,
}

/// LabelSelectorRequirement describes a single label selector requirement
#[derive(Clone, Debug)]
#[allow(non_snake_case)]
pub struct LabelSelectorRequirement {
    /// Label key
    pub key: String,

    /// Operator (In, NotIn, Exists, DoesNotExist, Gt, Lt)
    pub operator: String,

    /// Values for the label
    pub values: Option<Vec<String>>,
}

/// Condition represents a condition status
#[derive(Clone, Debug)]
#[allow(non_snake_case)]
pub struct Condition {
    /// Condition type
    pub condition_type: String,

    /// Condition status (True, False, Unknown)
    pub status: String,

    /// Last transition time
    pub lastTransitionTime: Option<String>,

    /// Reason for the condition
    pub reason: Option<String>,

    /// Message describing the condition
    pub message: Option<String>,
}

pub fn default_enforcement_enabled() -> (b: bool)
    ensures
        b,
{
    true
}

pub fn default_learning_mode() -> (b: bool)
    ensures
        !b,
{
    false
}

} // verus!
