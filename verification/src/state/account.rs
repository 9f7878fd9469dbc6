use vstd::prelude::*;

verus! {

/// A 32-byte account address.
#[derive(Clone, Copy, Debug, PartialEq, Eq)]
pub struct Pubkey(pub [u8; 32]);

/// An account as an instruction sees it: its address and its decoded data.
#[derive(Clone, Copy, Debug, PartialEq, Eq)]
pub struct Keyed<T> {
    pub key: Pubkey,
    pub data: T,
}

} // verus!
