//! Types shared by the three contracts.
use vstd::prelude::*;

verus! {

/// An account or contract on the ledger.
///
/// The ledger's own addresses are opaque to the contracts: all they ever do
/// with one is compare it with another, hand it on, or ask the host whether it
/// authorized the call. The host numbers the addresses it passes in, and the
/// library works with those numbers.
#[derive(Clone, Copy, Debug, PartialEq, Eq, Structural)]
pub struct Address(pub u64);

/// Errors shared by the tree registry and the certificate collection.
#[derive(Clone, Copy, Debug, PartialEq, Eq, Structural)]
pub enum HarvestaError {
    AlreadyInitialized,
    NotInitialized,
    ContractPaused,
    Co2MustBePositive,
    MaturityYearsMustBePositive,
    TreeCountMustBePositive,
    InvalidPlantingDate,
    TokenAlreadyMinted,
    TokenNotFound,
    NotTokenOwner,
}

/// The code under which the host reports a shared error, for the errors
/// whose code is fixed: a zero tree count, a zero CO2 offset, a duplicate
/// certificate and a future planting date.
pub open spec fn harvesta_error_code(e: HarvestaError) -> Option<u32> {
    match e {
        HarvestaError::TreeCountMustBePositive => Some(10),
        HarvestaError::Co2MustBePositive => Some(62),
        HarvestaError::TokenAlreadyMinted => Some(90),
        HarvestaError::InvalidPlantingDate => Some(91),
        _ => None,
    }
}

impl HarvestaError {
    /// The code under which the host reports this error, where it is fixed.
    pub fn code(&self) -> (r: Option<u32>)
        ensures
            r == harvesta_error_code(*self),
    {
        match self {
            HarvestaError::TreeCountMustBePositive => Some(10),
            HarvestaError::Co2MustBePositive => Some(62),
            HarvestaError::TokenAlreadyMinted => Some(90),
            HarvestaError::InvalidPlantingDate => Some(91),
            _ => None,
        }
    }
}

/// Whether `addr` occurs in `list`.
pub fn contains_address(list: &Vec<Address>, addr: Address) -> (r: bool)
    ensures
        r == list@.contains(addr),
{
    let mut i: usize = 0;
    while i < list.len()
        invariant
            i <= list.len(),
            forall|j: int| 0 <= j < i ==> list@[j] != addr,
        decreases list.len() - i,
    {
        if list[i].0 == addr.0 {
            return true;
        }
        i = i + 1;
    }
    false
}

} // verus!
