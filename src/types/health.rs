//! The health report of the service.

use vstd::prelude::*;

verus! {

#[derive(Clone, Debug)]
pub struct HealthResponse {
    pub database: Option<String>,
    pub message: Option<String>,
    pub version: Option<String>,
    pub commit: Option<String>,
}

} // verus!
