//! Defaults and address resolution shared by the tools.

use vstd::prelude::*;
pub use crate::block::get_block_id;
use crate::primitives::{hex_decode, hex_decoded_exact};

verus! {

/// The endpoint that is used where a request names none.
pub fn default_rpc() -> (r: String)
    ensures
        r@ == "http://localhost:8545"@,
{
    "http://localhost:8545".to_owned()
}

/// The signed integer type whose bounds are given where a request names none.
pub fn default_int() -> (r: String)
    ensures
        r@ == "int256"@,
{
    "int256".to_owned()
}

/// The unsigned integer type whose bounds are given where a request names none.
pub fn default_uint() -> (r: String)
    ensures
        r@ == "uint256"@,
{
    "uint256".to_owned()
}

/// The 20 bytes of `bytes`, where it holds exactly that many.
pub fn address_of(bytes: &Vec<u8>) -> (r: Option<[u8; 20]>)
    ensures
        match r {
            Some(address) => bytes.len() == 20 && address@ == bytes@,
            None => bytes.len() != 20,
        },
{
    if bytes.len() != 20 {
        return None;
    }
    let mut address: [u8; 20] = [0u8; 20];
    let mut i: usize = 0;
    while i < 20
        invariant
            i <= 20,
            bytes.len() == 20,
            forall|k: int| 0 <= k < i ==> address@[k] == bytes@[k],
        decreases 20 - i,
    {
        address[i] = bytes[i];
        i += 1;
    }
    assert(address@ =~= bytes@);
    Some(address)
}

/// The address that a request means, given what the lookup of its name
/// returned, if it has a name, and its literal address, if it has one.
pub open spec fn resolved(
    lookup: Option<Result<[u8; 20], String>>,
    address: Option<String>,
) -> Result<Seq<u8>, Seq<char>> {
    match lookup {
        Some(Ok(found)) => Ok(found@),
        Some(Err(reason)) => Err(reason@),
        None => match address {
            Some(literal) => match hex_decoded_exact(literal@, 20) {
                Some(bytes) => Ok(bytes),
                None => Err("invalid address"@),
            },
            None => Err("address is empty"@),
        },
    }
}

/// Resolves the address of a request. A name comes first: `lookup` is what
/// the provider returned for it, and is absent where the request has no
/// name. Without a name the literal address is parsed; without either the
/// request cannot be served.
pub fn resolve(lookup: Option<Result<[u8; 20], String>>, address: Option<String>) -> (r: Result<
    [u8; 20],
    String,
>)
    ensures
        match r {
            Ok(found) => resolved(lookup, address) == Ok::<Seq<u8>, Seq<char>>(found@),
            Err(reason) => resolved(lookup, address) == Err::<Seq<u8>, Seq<char>>(reason@),
        },
{
    match lookup {
        Some(Ok(found)) => Ok(found),
        Some(Err(reason)) => Err(reason),
        None => match address {
            Some(literal) => {
                let decoded = match hex_decode(literal.as_str()) {
                    Some(bytes) => address_of(&bytes),
                    None => None,
                };
                match decoded {
                    Some(found) => Ok(found),
                    None => Err("invalid address".to_owned()),
                }
            },
            None => Err("address is empty".to_owned()),
        },
    }
}

} // verus!
