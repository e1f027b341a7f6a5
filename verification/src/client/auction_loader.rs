//! Reading addresses given as text.

use vstd::prelude::*;
use crate::primitives::{Address, address_from_str, decode_hex_exact};

verus! {

/// Why an address could not be read.
#[derive(Clone, Copy, Debug, PartialEq, Eq)]
pub enum AddressParseError {
    /// The text is not 40 hexadecimal digits after an optional `0x`.
    InvalidHex,
}

/// Parses an address from hexadecimal text with an optional `0x` prefix.
pub fn parse_address(address: &str) -> (r: Result<Address, AddressParseError>)
    ensures
        match r {
            Ok(a) => decode_hex_exact(address@, 20) == Some(a@),
            Err(_) => decode_hex_exact(address@, 20) is None,
        },
{
    match address_from_str(address) {
        Some(a) => Ok(a),
        None => Err(AddressParseError::InvalidHex),
    }
}

} // verus!
