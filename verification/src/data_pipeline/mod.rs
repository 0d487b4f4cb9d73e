//! Stellar data pipeline: ETL records, partitioning and quality rules.
pub mod etl;
pub mod partitioning;
pub mod binary64;
pub mod quality;
