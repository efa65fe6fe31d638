//! Responses of data source operations.

use vstd::prelude::*;

verus! {

#[derive(Clone, Debug)]
pub struct DeleteDatasourceResponse {
    pub message: Option<String>,
}

} // verus!
