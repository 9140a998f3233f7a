//! The gas-price oracle answers.
//!
//! The HTTP query itself is the caller's concern; this module holds the
//! answer's shape and the rule for accepting it: only a response whose
//! status is `"1"` carries a usable oracle, anything else is an upstream
//! refusal.

use vstd::prelude::*;

use crate::error::RelayError;

verus! {

/// Gas prices suggested by the oracle, all in Gwei, as served.
#[derive(Clone, Debug, PartialEq, Eq)]
pub struct GasOracle {
    pub last_block: String,
    pub safe_gas_price: String,
    pub propose_gas_price: String,
    pub fast_gas_price: String,
    pub suggest_base_fee: String,
    pub gas_used_ratio: String,
}

/// The oracle API's envelope.
#[derive(Clone, Debug, PartialEq, Eq)]
pub struct ApiResult<T> {
    /// `"1"` on success.
    pub status: String,
    /// Human-readable explanation of a refusal.
    pub message: String,
    /// The payload.
    pub result: T,
}

/// Accept a gas-oracle response: its payload on success, the upstream
/// message as an error otherwise.
pub fn get_gas_oracle(response: ApiResult<GasOracle>) -> (r: Result<GasOracle, RelayError>)
    ensures
        r is Ok <==> response.status@ == "1"@,
        r matches Ok(g) ==> g == response.result,
        r matches Err(e) ==> e matches RelayError::GasOracle(m) && m@ == response.message@,
{
    let one = String::from_str("1");
    if response.status == one {
        Ok(response.result)
    } else {
        Err(RelayError::GasOracle(response.message))
    }
}

} // verus!
