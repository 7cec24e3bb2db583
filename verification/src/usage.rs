//! Usage statistics as plain values: the shape the service's usage endpoint
//! reports, one metric series per dimension per environment, plus the metadata
//! block. The crate builds the request for this data; an outside decoder fills
//! these records from the JSON body.

use vstd::prelude::*;

verus! {

/// One sampled value of a usage metric.
#[derive(Debug, Clone)]
pub struct UsageValue {
    pub value: String,
    pub timestamp: i64,
}

/// A named series of sampled values.
#[derive(Debug, Clone)]
pub struct UsageMetric {
    pub name: String,
    pub values: Vec<UsageValue>,
}

/// A dimension groups metrics under the names of the individuals measured.
#[derive(Debug, Clone)]
pub struct UsageDimension {
    pub name: String,
    pub metrics: Vec<UsageMetric>,
    pub individual_names: Vec<String>,
}

/// One reporting environment and its dimensions.
#[derive(Debug, Clone)]
pub struct UsageEnvironment {
    pub name: String,
    pub dimensions: Vec<UsageDimension>,
}

/// Notices and failures the service attaches to a usage report.
#[derive(Debug, Clone)]
pub struct UsageMetadata {
    pub notices: Option<Vec<String>>,
    pub errors: Option<Vec<String>>,
    pub failed_envs: Option<Vec<String>>,
}

/// A whole usage report.
#[derive(Debug, Clone)]
pub struct Usage {
    pub environments: Vec<UsageEnvironment>,
    pub metadata: UsageMetadata,
}

} // verus!
