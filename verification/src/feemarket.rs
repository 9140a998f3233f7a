//! Fee-market views the relay strategies consult.
//!
//! The market itself lives on chain and is queried by collaborators; here
//! stands the one computation done on its answers: finding the local
//! account among the assigned relayers.

use vstd::prelude::*;

use crate::bytes::{bytes_clone, bytes_eq};

verus! {

/// One relayer of the fee market.
#[derive(Clone, Debug, PartialEq, Eq)]
pub struct Relayer {
    /// The relayer's account id.
    pub id: Vec<u8>,
    /// Collateral the relayer locked.
    pub collateral: u128,
    /// Fee the relayer quoted.
    pub fee: u128,
}

/// Two relayer records with the same account, collateral and fee.
pub open spec fn spec_same_relayer(a: Relayer, b: Relayer) -> bool {
    a.id@ == b.id@ && a.collateral == b.collateral && a.fee == b.fee
}

/// Where the signer stands among the assigned relayers: the first
/// matching slot and its record, or nothing when the signer is not
/// assigned.
pub fn my_assigned_info(assigned_relayers: &Vec<Relayer>, signer: &Vec<u8>) -> (r: Option<
    (usize, Relayer),
>)
    ensures
        r is Some <==> exists|i: int|
            0 <= i < assigned_relayers@.len() && #[trigger] assigned_relayers@[i].id@ == signer@,
        r matches Some((i, rel)) ==> i < assigned_relayers@.len() && assigned_relayers@[
            i as int
        ].id@ == signer@ && spec_same_relayer(rel, assigned_relayers@[i as int]) && (forall|j: int|
            0 <= j < i ==> #[trigger] assigned_relayers@[j].id@ != signer@),
{
    let n = assigned_relayers.len();
    let mut i: usize = 0;
    while i < n
        invariant
            i <= n,
            n == assigned_relayers@.len(),
            forall|j: int| 0 <= j < i ==> #[trigger] assigned_relayers@[j].id@ != signer@,
        decreases n - i,
    {
        let candidate = &assigned_relayers[i];
        if bytes_eq(&candidate.id, signer) {
            let found = Relayer {
                id: bytes_clone(&candidate.id),
                collateral: candidate.collateral,
                fee: candidate.fee,
            };
            return Some((i, found));
        }
        i = i + 1;
    }
    None
}

} // verus!
