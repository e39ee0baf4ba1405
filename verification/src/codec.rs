//! The trusted boundary to the wire codec. The composite query and its
//! response use the ledger's contract ABI encoding; building and parsing
//! that encoding is delegated to `ethers_core::abi`, and each call is
//! wrapped here behind a contract that names its result.
//!
//! Both the query builder and the response decoder rely on one fixed
//! schema per request shape: a pair-discovery query takes
//! `(uint, uint, address)` and answers with `address[]`; a pool-data
//! query takes `(address[])` and answers with an array of
//! `(address, uint8, address, uint8, uint112, uint112)` tuples.

use vstd::prelude::*;

use crate::pool::{address_views, slot_views, Address, DecodedPool};

verus! {

/// Declares `ethers_core::abi::Token`, the codec's tagged wire value, so
/// that the field-extraction helper below can take one; the library never
/// looks inside a `Token` itself.
#[verifier::external_type_specification]
#[verifier::external_body]
pub struct ExToken(ethers_core::abi::Token);

/// The ABI encoding of a pair-discovery query's constructor arguments
/// `(start, step, collection)`. ABI encoding is a function of the
/// argument values alone.
pub uninterp spec fn pairs_query_bytes(from: u128, step: u128, factory: Seq<u8>) -> Seq<u8>;

/// The ABI encoding of a pool-data query's constructor argument, an
/// array of target pool addresses. A function of the addresses alone.
pub uninterp spec fn pool_query_bytes(addresses: Seq<Seq<u8>>) -> Seq<u8>;

/// What a pair-discovery response buffer decodes to: `None` when the
/// bytes do not parse as `address[]`, else the 20-byte addresses in
/// buffer order. A function of the bytes alone.
pub uninterp spec fn decoded_pairs(data: Seq<u8>) -> Option<Seq<Seq<u8>>>;

/// What a pool-data response buffer decodes to: `None` when the bytes do
/// not parse as an array of six-field tuples; else one slot per tuple in
/// buffer order, where a slot is `None` when a field does not fit the
/// width the schema declares, and otherwise the six field values.
/// A function of the bytes alone.
pub uninterp spec fn decoded_pools(data: Seq<u8>) -> Option<Seq<Option<(Seq<u8>, u8, Seq<u8>, u8, u128, u128)>>>;

/// Relies on `ethers_core::abi::encode` (deterministic ABI encoding) over
/// `Token::Uint`, `Token::Uint`, `Token::Address`, with `U256::from` and
/// `H160` widening the plain argument values.
#[verifier::external_body]
pub(crate) fn encode_pairs_query(from: u128, step: u128, factory: &Address) -> (r: Vec<u8>)
    ensures
        r@ == pairs_query_bytes(from, step, factory@),
{
    ethers_core::abi::encode(&[
        ethers_core::abi::Token::Uint(ethers_core::types::U256::from(from)),
        ethers_core::abi::Token::Uint(ethers_core::types::U256::from(step)),
        ethers_core::abi::Token::Address(ethers_core::types::H160(factory.bytes)),
    ])
}

/// Relies on `ethers_core::abi::encode` (deterministic ABI encoding) over
/// `Token::Array` of `Token::Address`, with `H160` carrying each
/// address's bytes.
#[verifier::external_body]
pub(crate) fn encode_pool_query(addresses: &Vec<Address>) -> (r: Vec<u8>)
    ensures
        r@ == pool_query_bytes(address_views(addresses@)),
{
    let tokens: Vec<ethers_core::abi::Token> = addresses
        .iter()
        .map(|a| ethers_core::abi::Token::Address(ethers_core::types::H160(a.bytes)))
        .collect();
    ethers_core::abi::encode(&[ethers_core::abi::Token::Array(tokens)])
}

/// Relies on `ethers_core::abi::decode` with the `address[]` schema, a
/// deterministic parse of the buffer: `Token::into_array` then
/// `Token::into_address` only unwrap the variants that this schema is
/// guaranteed to produce, and `H160`'s public bytes carry each address out.
#[verifier::external_body]
pub(crate) fn decode_pairs_response(data: &Vec<u8>) -> (r: Option<Vec<Address>>)
    ensures
        match r {
            Option::Some(v) => decoded_pairs(data@) == Option::Some(address_views(v@)),
            Option::None => decoded_pairs(data@) is None,
        },
{
    let schema = ethers_core::abi::ParamType::Array(Box::new(ethers_core::abi::ParamType::Address));
    let tokens = ethers_core::abi::decode(&[schema], data.as_slice()).ok()?;
    let arr = tokens.into_iter().next()?.into_array()?;
    arr.into_iter().map(|t| t.into_address().map(|h| Address { bytes: h.0 })).collect()
}

/// Relies on `ethers_core::abi::decode` with the six-field tuple array
/// schema, a deterministic parse of the buffer; `Token::into_array`
/// unwraps the variant that this schema is guaranteed to produce, and
/// each element is converted by `decoded_pool_fields` below.
#[verifier::external_body]
pub(crate) fn decode_pools_response(data: &Vec<u8>) -> (r: Option<Vec<Option<DecodedPool>>>)
    ensures
        match r {
            Option::Some(v) => decoded_pools(data@) == Option::Some(slot_views(v@)),
            Option::None => decoded_pools(data@) is None,
        },
{
    let tuple = ethers_core::abi::ParamType::Tuple(vec![
        ethers_core::abi::ParamType::Address,
        ethers_core::abi::ParamType::Uint(8),
        ethers_core::abi::ParamType::Address,
        ethers_core::abi::ParamType::Uint(8),
        ethers_core::abi::ParamType::Uint(112),
        ethers_core::abi::ParamType::Uint(112),
    ]);
    let schema = ethers_core::abi::ParamType::Array(Box::new(tuple));
    let tokens = ethers_core::abi::decode(&[schema], data.as_slice()).ok()?;
    let arr = tokens.into_iter().next()?.into_array()?;
    Some(arr.into_iter().map(decoded_pool_fields).collect())
}

/// The field-extraction half of `decode_pools_response`; it runs only
/// inside that wrapper's body, one call per decoded tuple. Relies on
/// `Token::into_tuple`, `Token::into_address`, `Token::into_uint` to take
/// the schema's variants apart, and on `u8::try_from`/`u128::try_from`
/// from `U256` to refuse a field wider than the schema declares.
#[verifier::external_body]
fn decoded_pool_fields(t: ethers_core::abi::Token) -> (r: Option<DecodedPool>) {
    let mut f = t.into_tuple()?.into_iter();
    Some(DecodedPool {
        token_a: Address { bytes: f.next()?.into_address()?.0 },
        token_a_decimals: u8::try_from(f.next()?.into_uint()?).ok()?,
        token_b: Address { bytes: f.next()?.into_address()?.0 },
        token_b_decimals: u8::try_from(f.next()?.into_uint()?).ok()?,
        reserve_0: u128::try_from(f.next()?.into_uint()?).ok()?,
        reserve_1: u128::try_from(f.next()?.into_uint()?).ok()?,
    })
}

} // verus!
