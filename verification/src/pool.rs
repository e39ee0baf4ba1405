//! Domain records for batched pool-state retrieval: 160-bit account
//! identifiers, the pool record that callers own, and the decoded tuple
//! that the response decoder hands to the populator.

use vstd::prelude::*;

verus! {

broadcast use vstd::array::group_array_axioms;

/// A 160-bit ledger account identifier, held as its 20 raw bytes.
/// The all-zero value is the protocol's "no data" sentinel.
#[derive(Clone, Copy, Debug, PartialEq, Eq, Hash)]
pub struct Address {
    pub bytes: [u8; 20],
}

impl View for Address {
    type V = Seq<u8>;

    open spec fn view(&self) -> Seq<u8> {
        self.bytes@
    }
}

/// The zero-address sentinel, at the specification level.
pub open spec fn is_zero_address(a: Seq<u8>) -> bool {
    forall|i: int| 0 <= i < a.len() ==> a[i] == 0
}

/// The views of a sequence of addresses.
pub open spec fn address_views(s: Seq<Address>) -> Seq<Seq<u8>> {
    s.map_values(|a: Address| a@)
}

impl Address {
    /// The all-zero sentinel address.
    pub fn zero() -> (r: Address)
        ensures
            is_zero_address(r@),
    {
        Address { bytes: [0u8; 20] }
    }

    /// Whether this address is the zero sentinel.
    pub fn is_zero(&self) -> (r: bool)
        ensures
            r == is_zero_address(self@),
    {
        let mut i: usize = 0;
        while i < 20
            invariant
                i <= 20,
                forall|j: int| 0 <= j < i ==> self.bytes@[j] == 0,
            decreases 20 - i,
        {
            if self.bytes[i] != 0 {
                return false;
            }
            i += 1;
        }
        true
    }
}

/// A liquidity pool record owned by the caller: the pool's own address,
/// its two token identifiers with their decimal precisions, and the two
/// reserve quantities (at most 112 bits each on the wire, widened here).
#[derive(Clone, Copy, Debug, PartialEq, Eq)]
pub struct UniswapV2Pool {
    pub address: Address,
    pub token_a: Address,
    pub token_a_decimals: u8,
    pub token_b: Address,
    pub token_b_decimals: u8,
    pub reserve_0: u128,
    pub reserve_1: u128,
}

/// The mathematical image of a pool record.
pub ghost struct PoolView {
    pub address: Seq<u8>,
    pub token_a: Seq<u8>,
    pub token_a_decimals: u8,
    pub token_b: Seq<u8>,
    pub token_b_decimals: u8,
    pub reserve_0: u128,
    pub reserve_1: u128,
}

impl View for UniswapV2Pool {
    type V = PoolView;

    open spec fn view(&self) -> PoolView {
        PoolView {
            address: self.address@,
            token_a: self.token_a@,
            token_a_decimals: self.token_a_decimals,
            token_b: self.token_b@,
            token_b_decimals: self.token_b_decimals,
            reserve_0: self.reserve_0,
            reserve_1: self.reserve_1,
        }
    }
}

/// The views of a sequence of pool records.
pub open spec fn pool_views(s: Seq<UniswapV2Pool>) -> Seq<PoolView> {
    s.map_values(|p: UniswapV2Pool| p@)
}

/// The pool addresses of a sequence of pool records, as views.
pub open spec fn pool_addresses(s: Seq<UniswapV2Pool>) -> Seq<Seq<u8>> {
    s.map_values(|p: UniswapV2Pool| p.address@)
}

/// One decoded six-field tuple of the bulk response: token A, its decimal
/// precision, token B, its decimal precision, and the two reserves.
/// It never leaves the decoder/populator boundary with wider fields than
/// the wire schema declares.
#[derive(Clone, Copy, Debug, PartialEq, Eq)]
pub struct DecodedPool {
    pub token_a: Address,
    pub token_a_decimals: u8,
    pub token_b: Address,
    pub token_b_decimals: u8,
    pub reserve_0: u128,
    pub reserve_1: u128,
}

impl View for DecodedPool {
    type V = (Seq<u8>, u8, Seq<u8>, u8, u128, u128);

    open spec fn view(&self) -> (Seq<u8>, u8, Seq<u8>, u8, u128, u128) {
        (self.token_a@, self.token_a_decimals, self.token_b@, self.token_b_decimals, self.reserve_0, self.reserve_1)
    }
}

/// The views of a sequence of decoded slots; a `None` slot is a tuple
/// whose fields could not be extracted at the declared widths.
pub open spec fn slot_views(s: Seq<Option<DecodedPool>>) -> Seq<Option<(Seq<u8>, u8, Seq<u8>, u8, u128, u128)>> {
    s.map_values(
        |o: Option<DecodedPool>| match o {
            Option::Some(d) => Option::Some(d@),
            Option::None => Option::None,
        },
    )
}

/// The error taxonomy of the batch layer. Staging and delivery failures
/// belong to the transport edge; decode and missing-record failures are
/// raised by this core.
#[derive(Clone, Copy, Debug, PartialEq, Eq)]
pub enum AMMError {
    /// The composite query could not be staged for remote evaluation;
    /// carries the batch's representative address.
    StagingError(Address),
    /// The transport failed to deliver a response; same scope.
    DeliveryError(Address),
    /// The response bytes do not match the declared schema.
    DecodeError,
    /// A single-record request resolved to no data (zero sentinel) or
    /// failed field extraction; carries the requested pool address.
    MissingRecordError(Address),
}

} // verus!
