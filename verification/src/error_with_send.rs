//! An error that is nothing but its message.

use vstd::prelude::*;

verus! {

#[derive(Debug, Clone)]
pub struct BinanceErrorWithSend {
    pub message: String,
}

impl BinanceErrorWithSend {
    pub fn new(message: &str) -> (r: Self)
        ensures
            r.message@ == message@,
    {
        BinanceErrorWithSend { message: message.to_owned() }
    }
}

} // verus!
