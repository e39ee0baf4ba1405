use amms::{
    filter_zero_addresses, get_amm_data_batch_query, get_amm_data_batch_request,
    get_pairs_batch_query, get_pairs_batch_request, get_v2_pool_data_batch_query,
    get_v2_pool_data_batch_request, populate_amm_data, populate_pool_data_from_tokens,
    populate_v2_pool_data, AMMError, Address, DecodedPool, UniswapV2Pool,
};
use ethers_core::abi::{encode, Token};
use ethers_core::types::{H160, U256};

fn addr(n: u8) -> Address {
    let mut bytes = [0u8; 20];
    bytes[19] = n;
    Address { bytes }
}

fn zero_addr() -> Address {
    Address { bytes: [0u8; 20] }
}

fn pool(own: Address) -> UniswapV2Pool {
    UniswapV2Pool {
        address: own,
        token_a: zero_addr(),
        token_a_decimals: 0,
        token_b: zero_addr(),
        token_b_decimals: 0,
        reserve_0: 0,
        reserve_1: 0,
    }
}

fn pairs_response(addrs: &[Address]) -> Vec<u8> {
    let tokens: Vec<Token> = addrs.iter().map(|a| Token::Address(H160(a.bytes))).collect();
    encode(&[Token::Array(tokens)])
}

fn pool_tuple(ta: Address, da: u64, tb: Address, db: u64, r0: u128, r1: u128) -> Token {
    Token::Tuple(vec![
        Token::Address(H160(ta.bytes)),
        Token::Uint(U256::from(da)),
        Token::Address(H160(tb.bytes)),
        Token::Uint(U256::from(db)),
        Token::Uint(U256::from(r0)),
        Token::Uint(U256::from(r1)),
    ])
}

fn pools_response(tuples: Vec<Token>) -> Vec<u8> {
    encode(&[Token::Array(tuples)])
}

fn word_u64(n: u64) -> [u8; 32] {
    let mut w = [0u8; 32];
    w[24..32].copy_from_slice(&n.to_be_bytes());
    w
}

fn word_address(a: &Address) -> [u8; 32] {
    let mut w = [0u8; 32];
    w[12..32].copy_from_slice(&a.bytes);
    w
}

#[test]
fn pairs_query_calldata_layout() {
    let factory = addr(0xC0);
    let calldata = get_pairs_batch_query(0, 3, &factory);
    let mut expected = Vec::new();
    expected.extend_from_slice(&word_u64(0));
    expected.extend_from_slice(&word_u64(3));
    expected.extend_from_slice(&word_address(&factory));
    assert_eq!(calldata, expected);
}

#[test]
fn pool_query_calldata_layout() {
    let p1 = pool(addr(1));
    let p2 = pool(addr(2));
    let calldata = get_amm_data_batch_query(&vec![p1, p2]);
    let mut expected = Vec::new();
    expected.extend_from_slice(&word_u64(0x20));
    expected.extend_from_slice(&word_u64(2));
    expected.extend_from_slice(&word_address(&addr(1)));
    expected.extend_from_slice(&word_address(&addr(2)));
    assert_eq!(calldata, expected);
}

#[test]
fn single_query_calldata_holds_one_address() {
    let p = pool(addr(7));
    let calldata = get_v2_pool_data_batch_query(&p);
    let mut expected = Vec::new();
    expected.extend_from_slice(&word_u64(0x20));
    expected.extend_from_slice(&word_u64(1));
    expected.extend_from_slice(&word_address(&addr(7)));
    assert_eq!(calldata, expected);
}

#[test]
fn discovery_drops_zero_and_keeps_order() {
    // Discovery over range (start = 0, step = 3) of one collection, where
    // the remote answers [addr1, addr2, 0x0].
    let factory = addr(0xC0);
    let calldata = get_pairs_batch_query(0, 3, &factory);
    assert_eq!(calldata.len(), 96);
    let response = pairs_response(&[addr(1), addr(2), zero_addr()]);
    let pairs = get_pairs_batch_request(&response).unwrap();
    assert_eq!(pairs, vec![addr(1), addr(2)]);
}

#[test]
fn discovery_of_empty_response_is_empty() {
    let response = pairs_response(&[]);
    let pairs = get_pairs_batch_request(&response).unwrap();
    assert_eq!(pairs, Vec::<Address>::new());
}

#[test]
fn discovery_of_garbage_is_decode_error() {
    let r = get_pairs_batch_request(&vec![1u8, 2, 3]);
    assert_eq!(r, Err(AMMError::DecodeError));
}

#[test]
fn discovery_twice_gives_same_list() {
    let response = pairs_response(&[addr(9), zero_addr(), addr(4)]);
    let first = get_pairs_batch_request(&response).unwrap();
    let second = get_pairs_batch_request(&response).unwrap();
    assert_eq!(first, second);
    assert_eq!(first, vec![addr(9), addr(4)]);
}

#[test]
fn bulk_populate_updates_and_skips() {
    // Two requested pools; the remote resolves the first and answers the
    // zero sentinel for the second.
    let tok_a1 = addr(0xA1);
    let tok_b1 = addr(0xB1);
    let response = pools_response(vec![
        pool_tuple(tok_a1, 18, tok_b1, 6, 1000, 2000),
        pool_tuple(zero_addr(), 0, zero_addr(), 0, 0, 0),
    ]);
    let mut amms = vec![pool(addr(1)), pool(addr(2))];
    let r = get_amm_data_batch_request(&mut amms, &response);
    assert_eq!(r, Ok(()));
    assert_eq!(amms.len(), 2);
    assert_eq!(amms[0].address, addr(1));
    assert_eq!(amms[0].token_a, tok_a1);
    assert_eq!(amms[0].token_a_decimals, 18);
    assert_eq!(amms[0].token_b, tok_b1);
    assert_eq!(amms[0].token_b_decimals, 6);
    assert_eq!(amms[0].reserve_0, 1000);
    assert_eq!(amms[0].reserve_1, 2000);
    assert_eq!(amms[1], pool(addr(2)));
}

#[test]
fn bulk_resubmission_changes_nothing_more() {
    let response = pools_response(vec![pool_tuple(addr(3), 8, addr(4), 9, 5, 6)]);
    let mut amms = vec![pool(addr(1))];
    get_amm_data_batch_request(&mut amms, &response).unwrap();
    let after_first = amms.clone();
    get_amm_data_batch_request(&mut amms, &response).unwrap();
    assert_eq!(amms, after_first);
}

#[test]
fn bulk_fewer_tuples_leaves_tail_unchanged() {
    let response = pools_response(vec![pool_tuple(addr(3), 8, addr(4), 9, 5, 6)]);
    let mut amms = vec![pool(addr(1)), pool(addr(2))];
    let r = get_amm_data_batch_request(&mut amms, &response);
    assert_eq!(r, Ok(()));
    assert_eq!(amms[0].reserve_0, 5);
    assert_eq!(amms[1], pool(addr(2)));
}

#[test]
fn bulk_more_tuples_than_records_is_decode_error() {
    let response = pools_response(vec![
        pool_tuple(addr(3), 8, addr(4), 9, 5, 6),
        pool_tuple(addr(5), 8, addr(6), 9, 7, 8),
    ]);
    let mut amms = vec![pool(addr(1))];
    let r = get_amm_data_batch_request(&mut amms, &response);
    assert_eq!(r, Err(AMMError::DecodeError));
    assert_eq!(amms, vec![pool(addr(1))]);
}

#[test]
fn bulk_garbage_is_decode_error_and_touches_nothing() {
    let mut amms = vec![pool(addr(1))];
    let r = get_amm_data_batch_request(&mut amms, &vec![0u8; 31]);
    assert_eq!(r, Err(AMMError::DecodeError));
    assert_eq!(amms, vec![pool(addr(1))]);
}

#[test]
fn bulk_overwide_decimal_field_skips_that_record() {
    // 256 does not fit the declared uint8, so the tuple's fields cannot be
    // extracted; in bulk that slot is tolerated and the record is left alone.
    let overwide = Token::Tuple(vec![
        Token::Address(H160(addr(3).bytes)),
        Token::Uint(U256::from(256u64)),
        Token::Address(H160(addr(4).bytes)),
        Token::Uint(U256::from(9u64)),
        Token::Uint(U256::from(5u64)),
        Token::Uint(U256::from(6u64)),
    ]);
    let response = pools_response(vec![overwide, pool_tuple(addr(5), 8, addr(6), 9, 7, 8)]);
    let mut amms = vec![pool(addr(1)), pool(addr(2))];
    let r = get_amm_data_batch_request(&mut amms, &response);
    assert_eq!(r, Ok(()));
    assert_eq!(amms[0], pool(addr(1)));
    assert_eq!(amms[1].reserve_0, 7);
}

#[test]
fn single_populate_success() {
    let response = pools_response(vec![pool_tuple(addr(3), 18, addr(4), 6, 11, 22)]);
    let mut p = pool(addr(1));
    let r = get_v2_pool_data_batch_request(&mut p, &response);
    assert_eq!(r, Ok(()));
    assert_eq!(p.address, addr(1));
    assert_eq!(p.token_a, addr(3));
    assert_eq!(p.token_a_decimals, 18);
    assert_eq!(p.token_b, addr(4));
    assert_eq!(p.token_b_decimals, 6);
    assert_eq!(p.reserve_0, 11);
    assert_eq!(p.reserve_1, 22);
}

#[test]
fn single_populate_zero_token_a_is_missing_record() {
    // The decode answers the zero sentinel for the one requested pool: the
    // error names the requested address and the record is untouched.
    let response = pools_response(vec![pool_tuple(zero_addr(), 0, zero_addr(), 0, 0, 0)]);
    let mut p = pool(addr(0x11));
    let r = get_v2_pool_data_batch_request(&mut p, &response);
    assert_eq!(r, Err(AMMError::MissingRecordError(addr(0x11))));
    assert_eq!(p, pool(addr(0x11)));
}

#[test]
fn single_populate_empty_response_is_missing_record() {
    let response = pools_response(vec![]);
    let mut p = pool(addr(0x11));
    let r = get_v2_pool_data_batch_request(&mut p, &response);
    assert_eq!(r, Err(AMMError::MissingRecordError(addr(0x11))));
    assert_eq!(p, pool(addr(0x11)));
}

#[test]
fn single_populate_overwide_field_is_missing_record() {
    let overwide = Token::Tuple(vec![
        Token::Address(H160(addr(3).bytes)),
        Token::Uint(U256::from(7u64)),
        Token::Address(H160(addr(4).bytes)),
        Token::Uint(U256::from(9u64)),
        Token::Uint(U256::from(u128::MAX) + U256::one()),
        Token::Uint(U256::from(6u64)),
    ]);
    let response = pools_response(vec![overwide]);
    let mut p = pool(addr(0x11));
    let r = get_v2_pool_data_batch_request(&mut p, &response);
    assert_eq!(r, Err(AMMError::MissingRecordError(addr(0x11))));
    assert_eq!(p, pool(addr(0x11)));
}

#[test]
fn single_populate_two_tuples_is_decode_error() {
    let response = pools_response(vec![
        pool_tuple(addr(3), 8, addr(4), 9, 5, 6),
        pool_tuple(addr(5), 8, addr(6), 9, 7, 8),
    ]);
    let mut p = pool(addr(1));
    let r = get_v2_pool_data_batch_request(&mut p, &response);
    assert_eq!(r, Err(AMMError::DecodeError));
    assert_eq!(p, pool(addr(1)));
}

#[test]
fn single_populate_garbage_is_decode_error() {
    let mut p = pool(addr(1));
    let r = get_v2_pool_data_batch_request(&mut p, &vec![9u8; 7]);
    assert_eq!(r, Err(AMMError::DecodeError));
    assert_eq!(p, pool(addr(1)));
}

#[test]
fn filter_zero_addresses_keeps_encounter_order() {
    let input = vec![zero_addr(), addr(5), addr(1), zero_addr(), addr(5)];
    let out = filter_zero_addresses(&input);
    assert_eq!(out, vec![addr(5), addr(1), addr(5)]);
}

#[test]
fn populate_pool_data_from_tokens_copies_fields() {
    let p = pool(addr(1));
    let d = DecodedPool {
        token_a: addr(2),
        token_a_decimals: 3,
        token_b: addr(4),
        token_b_decimals: 5,
        reserve_0: 6,
        reserve_1: 7,
    };
    let r = populate_pool_data_from_tokens(&p, &d);
    assert_eq!(r.address, addr(1));
    assert_eq!(r.token_a, addr(2));
    assert_eq!(r.token_a_decimals, 3);
    assert_eq!(r.token_b, addr(4));
    assert_eq!(r.token_b_decimals, 5);
    assert_eq!(r.reserve_0, 6);
    assert_eq!(r.reserve_1, 7);
}

#[test]
fn populate_amm_data_tolerates_malformed_slot() {
    let mut amms = vec![pool(addr(1))];
    let r = populate_amm_data(&mut amms, &vec![None]);
    assert_eq!(r, Ok(()));
    assert_eq!(amms, vec![pool(addr(1))]);
}

#[test]
fn populate_v2_pool_data_rejects_malformed_slot() {
    let mut p = pool(addr(1));
    let r = populate_v2_pool_data(&mut p, &vec![None]);
    assert_eq!(r, Err(AMMError::MissingRecordError(addr(1))));
    assert_eq!(p, pool(addr(1)));
}

#[test]
fn address_zero_check() {
    assert!(zero_addr().is_zero());
    assert!(!addr(1).is_zero());
    assert!(Address::zero().is_zero());
}
