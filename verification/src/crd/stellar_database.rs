//! StellarDatabase CRD for advanced database management and optimization.
use vstd::prelude::*;

verus! {

/// Desired state of a StellarDatabase.
#[derive(Clone, Debug)]
pub struct StellarDatabaseSpec {
    /// Number of HA PostgreSQL instances to run
    pub instances: i32,
    /// Storage class name for PostgreSQL persistent volumes
    pub storage_class: Option<String>,
    /// Size of the PostgreSQL storage volumes (e.g. "100Gi")
    pub storage_size: String,
    /// Target PostgreSQL version (e.g. "16")
    pub postgres_version: Option<String>,
    /// PgBouncer connection pooling configuration
    pub connection_pooling: Option<ConnectionPoolingConfig>,
    /// Read replica auto-scaling configuration (1-10 replicas)
    pub read_replicas: Option<ReadReplicaConfig>,
    /// Failover and replication settings (e.g. Patroni or CNPG)
    pub failover: Option<FailoverConfig>,
    /// Engine auto-tuning parameters based on workload profile
    pub auto_tuning: Option<AutoTuningConfig>,
    /// Slow query logging and optimization checks
    pub query_optimization: Option<QueryOptimizationConfig>,
}

#[derive(Clone, Debug)]
pub struct ConnectionPoolingConfig {
    pub enabled: bool,
    /// PgBouncer pooling mode (session, transaction, statement)
    pub pool_mode: String,
    pub max_client_connections: Option<i32>,
    pub default_pool_size: Option<i32>,
}

#[derive(Clone, Debug)]
pub struct ReadReplicaConfig {
    pub enabled: bool,
    /// Minimum read replica nodes
    pub min_replicas: i32,
    /// Maximum read replica nodes (must be <= 10)
    pub max_replicas: i32,
    pub target_cpu_utilization: Option<i32>,
}

#[derive(Clone, Debug)]
pub struct FailoverConfig {
    pub enabled: bool,
    /// Automatic failover manager (e.g. "patroni" or "cnpg")
    pub provider: String,
    pub sync_timeout_seconds: Option<i32>,
}

#[derive(Clone, Debug)]
pub struct AutoTuningConfig {
    pub enabled: bool,
    /// Workload profile type (oltp, batch, mixed)
    pub workload_profile: String,
    pub max_connections: Option<i32>,
    pub shared_buffers: Option<String>,
    pub effective_cache_size: Option<String>,
}

#[derive(Clone, Debug)]
pub struct QueryOptimizationConfig {
    pub enabled: bool,
    /// Threshold (ms) for identifying slow queries
    pub slow_query_threshold_ms: i32,
    pub alert_channels: Option<Vec<String>>,
    /// Suggest/create indexes automatically
    pub auto_index_recommendations: bool,
}

#[derive(Clone, Copy, Debug, PartialEq, Eq, Structural)]
pub enum DatabasePhase {
    Pending,
    Configuring,
    Scaling,
    Running,
    Failed,
}

impl Default for DatabasePhase {
    fn default() -> (p: Self)
        ensures
            p == DatabasePhase::Pending,
    {
        DatabasePhase::Pending
    }
}

} // verus!
