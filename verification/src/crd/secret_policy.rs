//! Key-management providers and their per-cloud settings, shared by the
//! secret CRDs.
use vstd::prelude::*;

verus! {

/// Backend that holds the key material used to encrypt a secret.
#[derive(Clone, Copy, Debug, PartialEq, Eq, Structural)]
pub enum KmsProvider {
    Vault,
    Aws,
    Azure,
    Gcp,
}

/// AWS KMS key location.
#[derive(Clone, Debug, PartialEq)]
pub struct AwsKmsConfig {
    pub region: String,
    pub key_id: String,
}

/// Azure Key Vault key location.
#[derive(Clone, Debug, PartialEq)]
pub struct AzureKeyVaultConfig {
    pub vault_url: String,
    pub key_name: String,
}

/// Google Cloud KMS key location.
#[derive(Clone, Debug, PartialEq)]
pub struct GcpKmsConfig {
    pub project: String,
    pub location: String,
    pub key_ring: String,
    pub key_name: String,
}

} // verus!
