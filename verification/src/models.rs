use vstd::prelude::*;

verus! {

/// The path parameters of the block lookup endpoint.
pub struct BlockRequest {
    pub block_number: u64,
}

/// The body of the endpoint that mines blocks to a given address.
pub struct AddFundsRequest {
    pub address: String,
    pub num_blocks: u64,
}

} // verus!
