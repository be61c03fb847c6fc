//! The event's topic-0 filter value: the Keccak-256 hash of the
//! canonical event signature, as the chain computes it. Both the
//! historical query and the live subscription filter on this value.
use vstd::prelude::*;

verus! {

/// The Keccak-256 digest of the bytes of a string. The digest is a
/// function of the input alone; no short statement pins its value, so
/// it only carries a name here.
pub uninterp spec fn keccak_str_of(s: Seq<char>) -> Seq<u8>;

/// Relies on ethers_core::utils::keccak256: the Keccak-256 digest of
/// the argument's bytes, always 32 bytes long, a pure function of the
/// input alone.
#[verifier::external_body]
fn keccak256_of_str(s: &str) -> (r: Vec<u8>)
    ensures
        r@ == keccak_str_of(s@),
        r@.len() == 32,
{
    ethers_core::utils::keccak256(s).to_vec()
}

/// Topic slot 0 that every occurrence of the event carries: the
/// Keccak-256 hash of the canonical event signature.
pub fn user_operation_event_topic0() -> (t: Vec<u8>)
    ensures
        t@ == keccak_str_of(
            "UserOperationEvent(bytes32,address,address,uint256,bool,uint256,uint256)"@,
        ),
        t@.len() == 32,
{
    keccak256_of_str("UserOperationEvent(bytes32,address,address,uint256,bool,uint256,uint256)")
}

} // verus!
