use vstd::prelude::*;

pub mod address;
pub mod auth;
pub mod escrow;
pub mod fee;
pub mod liquidity_manager;
pub mod liquidity_provider;
pub mod payment;
pub mod store;
pub mod transfer;
pub mod wallet;

verus! {

/// Sum of two bytes.
pub fn add(a: u8, b: u8) -> (sum: u8)
    requires
        a + b <= u8::MAX,
    ensures
        sum == a + b,
{
    a + b
}

} // verus!
