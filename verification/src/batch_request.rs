//! Query building, response decoding and record population for batched
//! pool-state retrieval. The caller's transport performs the single
//! network round trip in between: it takes the query bytes that the
//! builders here produce and hands the raw response bytes to the request
//! functions here.

use vstd::prelude::*;

use crate::codec::{
    decode_pairs_response, decode_pools_response, decoded_pairs, decoded_pools,
    encode_pairs_query, encode_pool_query, pairs_query_bytes, pool_query_bytes,
};
use crate::pool::{
    address_views, is_zero_address, pool_addresses, pool_views, slot_views, AMMError, Address,
    DecodedPool, PoolView, UniswapV2Pool,
};

verus! {

/// The pool record that results from overwriting `p`'s six data fields
/// with the decoded tuple `d`; the pool's own address is kept.
pub open spec fn populated_view(p: PoolView, d: (Seq<u8>, u8, Seq<u8>, u8, u128, u128)) -> PoolView {
    PoolView {
        address: p.address,
        token_a: d.0,
        token_a_decimals: d.1,
        token_b: d.2,
        token_b_decimals: d.3,
        reserve_0: d.4,
        reserve_1: d.5,
    }
}

/// How one decoded slot merges into one record: a missing slot or a slot
/// whose token-A field is the zero sentinel leaves the record untouched;
/// any other slot overwrites all six data fields at once.
pub open spec fn merge_slot(p: PoolView, s: Option<(Seq<u8>, u8, Seq<u8>, u8, u128, u128)>) -> PoolView {
    match s {
        Option::Some(d) => if is_zero_address(d.0) {
            p
        } else {
            populated_view(p, d)
        },
        Option::None => p,
    }
}

/// The bulk merge: slot `i` merges into record `i`; records past the
/// decoded prefix are untouched. Defined for any slot count, though the
/// executable path refuses more slots than records.
pub open spec fn merge_pools(
    ps: Seq<PoolView>,
    slots: Seq<Option<(Seq<u8>, u8, Seq<u8>, u8, u128, u128)>>,
) -> Seq<PoolView> {
    Seq::new(
        ps.len(),
        |i: int| if i < slots.len() {
            merge_slot(ps[i], slots[i])
        } else {
            ps[i]
        },
    )
}

/// The discovered addresses of one response: encounter order kept,
/// zero-sentinel entries dropped.
pub open spec fn nonzero_addresses(s: Seq<Seq<u8>>) -> Seq<Seq<u8>>
    decreases s.len(),
{
    if s.len() == 0 {
        Seq::empty()
    } else if is_zero_address(s.first()) {
        nonzero_addresses(s.drop_first())
    } else {
        seq![s.first()] + nonzero_addresses(s.drop_first())
    }
}

/// Copies the six decoded fields onto the record, keeping the record's
/// own pool address.
pub fn populate_pool_data_from_tokens(pool: &UniswapV2Pool, data: &DecodedPool) -> (r: UniswapV2Pool)
    ensures
        r@ == populated_view(pool@, data@),
{
    UniswapV2Pool {
        address: pool.address,
        token_a: data.token_a,
        token_a_decimals: data.token_a_decimals,
        token_b: data.token_b,
        token_b_decimals: data.token_b_decimals,
        reserve_0: data.reserve_0,
        reserve_1: data.reserve_1,
    }
}

/// The verified bulk merge loop over caller-owned records.
fn merge_records(amms: &Vec<UniswapV2Pool>, slots: &Vec<Option<DecodedPool>>) -> (out: Vec<UniswapV2Pool>)
    requires
        slots@.len() <= amms@.len(),
    ensures
        pool_views(out@) == merge_pools(pool_views(amms@), slot_views(slots@)),
{
    let ghost merged = merge_pools(pool_views(amms@), slot_views(slots@));
    let n: usize = amms.len();
    let mut out: Vec<UniswapV2Pool> = Vec::new();
    let mut i: usize = 0;
    while i < n
        invariant
            n == amms@.len(),
            slots@.len() <= n,
            i <= n,
            out@.len() == i,
            merged == merge_pools(pool_views(amms@), slot_views(slots@)),
            forall|j: int| 0 <= j < i ==> #[trigger] out@[j]@ == merged[j],
        decreases n - i,
    {
        let p = amms[i];
        let merged_record: UniswapV2Pool = if i < slots.len() {
            match slots[i] {
                Option::Some(d) => {
                    if d.token_a.is_zero() {
                        p
                    } else {
                        populate_pool_data_from_tokens(&p, &d)
                    }
                },
                Option::None => p,
            }
        } else {
            p
        };
        proof {
            assert(pool_views(amms@)[i as int] == amms@[i as int]@);
            if i < slots@.len() {
                assert(slot_views(slots@)[i as int] == match slots@[i as int] {
                    Option::Some(d) => Option::Some(d@),
                    Option::None => Option::None,
                });
            }
            assert(merged_record@ == merged[i as int]);
        }
        out.push(merged_record);
        i += 1;
    }
    proof {
        assert(pool_views(out@) =~= merged);
    }
    out
}

/// Bulk population: merges decoded slots into the records positionally.
/// More slots than records is a schema violation and changes nothing;
/// otherwise every slot merges under the zero-sentinel skip rule, and
/// records past the decoded prefix keep their caller-supplied values.
pub fn populate_amm_data(amms: &mut Vec<UniswapV2Pool>, slots: &Vec<Option<DecodedPool>>) -> (r: Result<(), AMMError>)
    ensures
        slots@.len() > old(amms)@.len() ==> r == Err::<(), AMMError>(AMMError::DecodeError)
            && final(amms)@ == old(amms)@,
        slots@.len() <= old(amms)@.len() ==> r == Ok::<(), AMMError>(())
            && pool_views(final(amms)@) == merge_pools(pool_views(old(amms)@), slot_views(slots@)),
{
    if slots.len() > amms.len() {
        return Err(AMMError::DecodeError);
    }
    let out = merge_records(amms, slots);
    *amms = out;
    Ok(())
}

/// Single-record population: exactly one slot is owed. A missing,
/// malformed or zero-sentinel slot is escalated as `MissingRecordError`
/// naming the requested pool; more than one slot is a schema violation.
pub fn populate_v2_pool_data(pool: &mut UniswapV2Pool, slots: &Vec<Option<DecodedPool>>) -> (r: Result<(), AMMError>)
    ensures
        slots@.len() == 0 ==> r == Err::<(), AMMError>(AMMError::MissingRecordError(old(pool).address))
            && final(pool)@ == old(pool)@,
        slots@.len() > 1 ==> r == Err::<(), AMMError>(AMMError::DecodeError)
            && final(pool)@ == old(pool)@,
        slots@.len() == 1 ==> match slot_views(slots@)[0] {
            Option::Some(d) => if is_zero_address(d.0) {
                r == Err::<(), AMMError>(AMMError::MissingRecordError(old(pool).address))
                    && final(pool)@ == old(pool)@
            } else {
                r == Ok::<(), AMMError>(()) && final(pool)@ == populated_view(old(pool)@, d)
            },
            Option::None => r == Err::<(), AMMError>(AMMError::MissingRecordError(old(pool).address))
                && final(pool)@ == old(pool)@,
        },
{
    if slots.len() == 0 {
        return Err(AMMError::MissingRecordError(pool.address));
    }
    if slots.len() > 1 {
        return Err(AMMError::DecodeError);
    }
    match slots[0] {
        Option::Some(d) => {
            if d.token_a.is_zero() {
                Err(AMMError::MissingRecordError(pool.address))
            } else {
                let updated = populate_pool_data_from_tokens(pool, &d);
                *pool = updated;
                Ok(())
            }
        },
        Option::None => Err(AMMError::MissingRecordError(pool.address)),
    }
}

/// Drops every zero-sentinel address, keeping encounter order.
pub fn filter_zero_addresses(addrs: &Vec<Address>) -> (r: Vec<Address>)
    ensures
        address_views(r@) == nonzero_addresses(address_views(addrs@)),
{
    let ghost s = address_views(addrs@);
    let mut out: Vec<Address> = Vec::new();
    let mut i: usize = 0;
    proof {
        assert(s.skip(0) =~= s);
    }
    while i < addrs.len()
        invariant
            i <= addrs@.len(),
            s == address_views(addrs@),
            nonzero_addresses(s) == address_views(out@) + nonzero_addresses(s.skip(i as int)),
        decreases addrs@.len() - i,
    {
        let a = addrs[i];
        proof {
            let rest = s.skip(i as int);
            assert(rest.first() == a@);
            assert(rest.drop_first() =~= s.skip(i as int + 1));
            if !is_zero_address(a@) {
                assert(nonzero_addresses(rest) == seq![a@] + nonzero_addresses(s.skip(i as int + 1)));
                assert(address_views(out@.push(a)) =~= address_views(out@) + seq![a@]);
                assert(address_views(out@) + nonzero_addresses(rest)
                    =~= (address_views(out@) + seq![a@]) + nonzero_addresses(s.skip(i as int + 1)));
            } else {
                assert(nonzero_addresses(rest) == nonzero_addresses(s.skip(i as int + 1)));
            }
        }
        if !a.is_zero() {
            out.push(a);
        }
        i += 1;
    }
    proof {
        assert(s.skip(addrs@.len() as int) =~= Seq::<Seq<u8>>::empty());
        assert(nonzero_addresses(s) =~= address_views(out@));
    }
    out
}

/// Builds the pair-discovery query for the range `(from, step)` over the
/// pool collection deployed at `factory`.
pub fn get_pairs_batch_query(from: u128, step: u128, factory: &Address) -> (r: Vec<u8>)
    ensures
        r@ == pairs_query_bytes(from, step, factory@),
{
    encode_pairs_query(from, step, factory)
}

/// Builds the bulk pool-data query for the records' own addresses, in
/// record order.
pub fn get_amm_data_batch_query(amms: &Vec<UniswapV2Pool>) -> (r: Vec<u8>)
    ensures
        r@ == pool_query_bytes(pool_addresses(amms@)),
{
    let mut addrs: Vec<Address> = Vec::new();
    let mut i: usize = 0;
    while i < amms.len()
        invariant
            i <= amms@.len(),
            addrs@.len() == i,
            forall|j: int| 0 <= j < i ==> #[trigger] addrs@[j] == amms@[j].address,
        decreases amms@.len() - i,
    {
        let a = amms[i].address;
        addrs.push(a);
        i += 1;
    }
    proof {
        assert(address_views(addrs@) =~= pool_addresses(amms@));
    }
    encode_pool_query(&addrs)
}

/// Builds the single-record pool-data query for one pool's address.
pub fn get_v2_pool_data_batch_query(pool: &UniswapV2Pool) -> (r: Vec<u8>)
    ensures
        r@ == pool_query_bytes(seq![pool.address@]),
{
    let mut addrs: Vec<Address> = Vec::new();
    addrs.push(pool.address);
    proof {
        assert(address_views(addrs@) =~= seq![pool.address@]);
    }
    encode_pool_query(&addrs)
}

/// Discovery: decodes a pair-discovery response and returns the non-zero
/// addresses in encounter order; a buffer that does not match the schema
/// is a `DecodeError`.
pub fn get_pairs_batch_request(return_data: &Vec<u8>) -> (r: Result<Vec<Address>, AMMError>)
    ensures
        match decoded_pairs(return_data@) {
            Option::Some(s) => match r {
                Result::Ok(v) => address_views(v@) == nonzero_addresses(s),
                Result::Err(_) => false,
            },
            Option::None => r == Err::<Vec<Address>, AMMError>(AMMError::DecodeError),
        },
{
    match decode_pairs_response(return_data) {
        Option::Some(v) => Ok(filter_zero_addresses(&v)),
        Option::None => Err(AMMError::DecodeError),
    }
}

/// Bulk retrieval: decodes a pool-data response and merges it into the
/// records positionally, under the zero-sentinel skip rule.
pub fn get_amm_data_batch_request(amms: &mut Vec<UniswapV2Pool>, return_data: &Vec<u8>) -> (r: Result<(), AMMError>)
    ensures
        match decoded_pools(return_data@) {
            Option::Some(slots) => if slots.len() > old(amms)@.len() {
                r == Err::<(), AMMError>(AMMError::DecodeError) && final(amms)@ == old(amms)@
            } else {
                r == Ok::<(), AMMError>(())
                    && pool_views(final(amms)@) == merge_pools(pool_views(old(amms)@), slots)
            },
            Option::None => r == Err::<(), AMMError>(AMMError::DecodeError)
                && final(amms)@ == old(amms)@,
        },
{
    match decode_pools_response(return_data) {
        Option::Some(v) => populate_amm_data(amms, &v),
        Option::None => Err(AMMError::DecodeError),
    }
}

/// Single-record retrieval: decodes a pool-data response for one pool and
/// populates it; a zero sentinel or failed extraction is escalated as
/// `MissingRecordError` naming the pool.
pub fn get_v2_pool_data_batch_request(pool: &mut UniswapV2Pool, return_data: &Vec<u8>) -> (r: Result<(), AMMError>)
    ensures
        match decoded_pools(return_data@) {
            Option::Some(slots) => {
                &&& slots.len() == 0 ==> r == Err::<(), AMMError>(AMMError::MissingRecordError(old(pool).address))
                    && final(pool)@ == old(pool)@
                &&& slots.len() > 1 ==> r == Err::<(), AMMError>(AMMError::DecodeError)
                    && final(pool)@ == old(pool)@
                &&& slots.len() == 1 ==> match slots[0] {
                    Option::Some(d) => if is_zero_address(d.0) {
                        r == Err::<(), AMMError>(AMMError::MissingRecordError(old(pool).address))
                            && final(pool)@ == old(pool)@
                    } else {
                        r == Ok::<(), AMMError>(()) && final(pool)@ == populated_view(old(pool)@, d)
                    },
                    Option::None => r == Err::<(), AMMError>(AMMError::MissingRecordError(old(pool).address))
                        && final(pool)@ == old(pool)@,
                }
            },
            Option::None => r == Err::<(), AMMError>(AMMError::DecodeError)
                && final(pool)@ == old(pool)@,
        },
{
    match decode_pools_response(return_data) {
        Option::Some(v) => populate_v2_pool_data(pool, &v),
        Option::None => Err(AMMError::DecodeError),
    }
}

/// Law: a bulk merge never changes the number of records, never moves a
/// record, never changes any record's own pool address, and touches at
/// most the first `slots.len()` records.
pub proof fn lemma_bulk_preserves_layout(ps: Seq<PoolView>, slots: Seq<Option<(Seq<u8>, u8, Seq<u8>, u8, u128, u128)>>)
    ensures
        merge_pools(ps, slots).len() == ps.len(),
        forall|i: int| 0 <= i < ps.len() ==> (#[trigger] merge_pools(ps, slots)[i]).address == ps[i].address,
        forall|i: int| slots.len() <= i < ps.len() ==> merge_pools(ps, slots)[i] == ps[i],
{
}

/// Law: a decoded slot whose token-A field is the zero sentinel leaves
/// its record completely unmodified.
pub proof fn lemma_zero_sentinel_skips(
    ps: Seq<PoolView>,
    slots: Seq<Option<(Seq<u8>, u8, Seq<u8>, u8, u128, u128)>>,
    i: int,
)
    requires
        0 <= i < ps.len(),
        i < slots.len(),
        slots[i] matches Option::Some(d) && is_zero_address(d.0),
    ensures
        merge_pools(ps, slots)[i] == ps[i],
{
}

/// Law: merging the same decoded slots a second time changes nothing, so
/// resubmitting an identical bulk query against an unchanged response
/// leaves the records exactly as after the first call.
pub proof fn lemma_bulk_idempotent(ps: Seq<PoolView>, slots: Seq<Option<(Seq<u8>, u8, Seq<u8>, u8, u128, u128)>>)
    ensures
        merge_pools(merge_pools(ps, slots), slots) == merge_pools(ps, slots),
{
    let m1 = merge_pools(ps, slots);
    let m2 = merge_pools(m1, slots);
    assert forall|i: int| 0 <= i < ps.len() implies m2[i] == m1[i] by {
        assert(m1[i] == merge_slot(ps[i], if i < slots.len() { slots[i] } else { Option::None }));
    }
    assert(m2 =~= m1);
}

/// Law: one response buffer decodes to one sequence of tuples only, so a
/// resubmitted bulk query whose response bytes are unchanged yields the
/// same decoded tuples and, from the same records, the same merge.
pub proof fn lemma_bulk_restartable(
    data: Seq<u8>,
    ps: Seq<PoolView>,
    s1: Seq<Option<(Seq<u8>, u8, Seq<u8>, u8, u128, u128)>>,
    s2: Seq<Option<(Seq<u8>, u8, Seq<u8>, u8, u128, u128)>>,
)
    requires
        decoded_pools(data) == Option::Some(s1),
        decoded_pools(data) == Option::Some(s2),
    ensures
        s1 == s2,
        merge_pools(ps, s1) == merge_pools(ps, s2),
{
}

/// Law: discovery is a function of the response bytes alone, so the same
/// range descriptor against unchanged remote state yields the same list.
pub proof fn lemma_discovery_restartable(data: Seq<u8>, r1: Seq<Seq<u8>>, r2: Seq<Seq<u8>>)
    requires
        decoded_pairs(data) matches Option::Some(s1) && r1 == nonzero_addresses(s1),
        decoded_pairs(data) matches Option::Some(s2) && r2 == nonzero_addresses(s2),
    ensures
        r1 == r2,
{
}

/// Law: every address that discovery returns is non-zero.
pub proof fn lemma_discovery_returns_no_zeros(s: Seq<Seq<u8>>)
    ensures
        forall|i: int| 0 <= i < nonzero_addresses(s).len()
            ==> !is_zero_address(#[trigger] nonzero_addresses(s)[i]),
    decreases s.len(),
{
    if s.len() > 0 {
        lemma_discovery_returns_no_zeros(s.drop_first());
        let rest = nonzero_addresses(s.drop_first());
        if !is_zero_address(s.first()) {
            assert forall|i: int| 0 <= i < nonzero_addresses(s).len()
                implies !is_zero_address(#[trigger] nonzero_addresses(s)[i]) by {
                if i == 0 {
                    assert(nonzero_addresses(s)[0] == s.first());
                } else {
                    assert(nonzero_addresses(s)[i] == rest[i - 1]);
                }
            }
        }
    }
}

/// Law: every non-zero address of the decoded response appears in what
/// discovery returns; only zero-sentinel entries are removed.
pub proof fn lemma_discovery_keeps_every_nonzero(s: Seq<Seq<u8>>, i: int)
    requires
        0 <= i < s.len(),
        !is_zero_address(s[i]),
    ensures
        nonzero_addresses(s).contains(s[i]),
    decreases s.len(),
{
    if i == 0 {
        assert(nonzero_addresses(s)[0] == s[0]);
    } else {
        lemma_discovery_keeps_every_nonzero(s.drop_first(), i - 1);
        let rest = nonzero_addresses(s.drop_first());
        let j = choose|j: int| 0 <= j < rest.len() && rest[j] == s.drop_first()[i - 1];
        assert(s.drop_first()[i - 1] == s[i]);
        if is_zero_address(s.first()) {
            assert(nonzero_addresses(s)[j] == s[i]);
        } else {
            assert(nonzero_addresses(s)[j + 1] == rest[j]);
        }
    }
}

} // verus!
