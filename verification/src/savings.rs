//! Plain data of the savings interface.

use vstd::prelude::*;

verus! {

#[derive(Debug, Clone)]
pub struct DepositAddress {
    pub address: String,
    pub coin: String,
    pub tag: String,
    pub url: String,
}

} // verus!
