use token_reader::abi::{string_length_overflows_in, Address};
use token_reader::call::{CallError, ContractFunction, ExecutionOutcome};
use token_reader::erc20_token::ERC20Token;
use token_reader::uint::U256;
use token_reader::uniswap_v2_token_pool::UniswapV2TokenPool;

fn word(value: u64) -> Vec<u8> {
    let mut w = vec![0u8; 24];
    w.extend_from_slice(&value.to_be_bytes());
    w
}

fn sample_address(first: u8) -> Address {
    let mut bytes = [0u8; 20];
    for (i, b) in bytes.iter_mut().enumerate() {
        *b = first.wrapping_add(i as u8);
    }
    Address::new(bytes)
}

#[test]
fn selectors_are_keccak_prefixes() {
    let cases = [
        (ContractFunction::BalanceOf, "balanceOf(address)"),
        (ContractFunction::Decimals, "decimals()"),
        (ContractFunction::Symbol, "symbol()"),
        (ContractFunction::Token0, "token0()"),
        (ContractFunction::Token1, "token1()"),
        (ContractFunction::GetReserves, "getReserves()"),
    ];
    for (function, signature) in cases {
        let hash = revm::primitives::keccak256(signature.as_bytes());
        assert_eq!(function.selector(), hash[..4].to_vec(), "{signature}");
    }
}

#[test]
fn balance_of_call_data() {
    let token = ERC20Token::new(sample_address(0x10));
    let account = sample_address(0xa0);
    let call = token.balance_of_call(&account);
    let mut expected = vec![0x70, 0xa0, 0x82, 0x31];
    expected.extend_from_slice(&[0u8; 12]);
    expected.extend_from_slice(&account.bytes);
    assert_eq!(call.data, expected);
    assert_eq!(call.to, sample_address(0x10));
    assert_eq!(call.caller, Address::with_last_byte(1));
    assert!(call.value.is_zero());
}

#[test]
fn calls_without_arguments() {
    let token = ERC20Token::new(sample_address(3));
    assert_eq!(token.decimals_call().data, vec![0x31, 0x3c, 0xe5, 0x67]);
    assert_eq!(token.symbol_call().data, vec![0x95, 0xd8, 0x9b, 0x41]);
    let pool = UniswapV2TokenPool::new(sample_address(4));
    let t0 = pool.token_0_call();
    assert_eq!(t0.data, vec![0x0d, 0xfe, 0x16, 0x81]);
    assert_eq!(t0.caller, Address::with_last_byte(1));
    let t1 = pool.token_1_call();
    assert_eq!(t1.data, vec![0xd2, 0x12, 0x20, 0xa7]);
    assert_eq!(t1.caller, Address::with_last_byte(0));
    assert_eq!(t1.to, sample_address(4));
    assert_eq!(pool.get_reserves_call().data, vec![0x09, 0x02, 0xf1, 0xac]);
}

#[test]
fn balance_reply_reads_the_first_word() {
    let token = ERC20Token::new(sample_address(3));
    let mut data = word(0);
    data[0] = 1; // 2^248
    data[31] = 5;
    let r = token.balance_of_reply(&ExecutionOutcome::Returned(data)).unwrap();
    assert_eq!(r.into_limbs(), [5, 0, 0, 1 << 56]);
    let d = token.decimals_reply(&ExecutionOutcome::Returned(word(18))).unwrap();
    assert_eq!(d, U256::from_u64(18));
}

#[test]
fn short_reply_is_a_decode_error() {
    let token = ERC20Token::new(sample_address(3));
    let r = token.balance_of_reply(&ExecutionOutcome::Returned(vec![0u8; 31]));
    assert!(matches!(r, Err(CallError::Decode(_))));
    assert_eq!(r.unwrap_err().message(), "buffer overrun while deserializing");
    let pool = UniswapV2TokenPool::new(sample_address(4));
    let r = pool.get_reserves_reply(&ExecutionOutcome::Returned(vec![0u8; 95]));
    assert!(matches!(r, Err(CallError::Decode(_))));
    let r = pool.token_0_reply(&ExecutionOutcome::Returned(vec![]));
    assert_eq!(r.unwrap_err().message(), "buffer overrun while deserializing");
}

#[test]
fn failed_execution_message() {
    let token = ERC20Token::new(sample_address(3));
    let r = token.balance_of_reply(&ExecutionOutcome::Failed("Revert { gas_used: 21000 }".to_string()));
    match r {
        Err(e) => {
            assert!(matches!(e, CallError::ExecutionFailed { function: ContractFunction::BalanceOf, .. }));
            assert_eq!(e.message(), "'balanceOf' execution failed: Revert { gas_used: 21000 }");
        }
        Ok(_) => panic!("a failed execution gave a value"),
    }
    let pool = UniswapV2TokenPool::new(sample_address(4));
    let r = pool.get_reserves_reply(&ExecutionOutcome::Failed("Halt".to_string()));
    assert_eq!(r.unwrap_err().message(), "'getReserves' execution failed: Halt");
}

#[test]
fn token_replies_read_addresses() {
    let pool = UniswapV2TokenPool::new(sample_address(4));
    let mut data = vec![0xffu8; 12];
    data.extend_from_slice(&sample_address(0x40).bytes);
    data.extend_from_slice(&[7u8; 32]);
    let t0 = pool.token_0_reply(&ExecutionOutcome::Returned(data.clone())).unwrap();
    assert_eq!(t0, sample_address(0x40));
    let t1 = pool.token_1_reply(&ExecutionOutcome::Returned(data)).unwrap();
    assert_eq!(t1, sample_address(0x40));
}

#[test]
fn reserves_reply_reads_three_words() {
    let pool = UniswapV2TokenPool::new(sample_address(4));
    let mut data = word(5);
    data.extend(word(7));
    data.extend(word(1_700_000_000));
    let (r0, r1, ts) = pool.get_reserves_reply(&ExecutionOutcome::Returned(data)).unwrap();
    assert_eq!(r0, U256::from_u64(5));
    assert_eq!(r1, U256::from_u64(7));
    assert_eq!(ts, U256::from_u64(1_700_000_000));
}

#[test]
fn symbol_reply_reads_the_string() {
    let token = ERC20Token::new(sample_address(3));
    let mut data = word(32);
    data.extend(word(4));
    let mut text = b"USDC".to_vec();
    text.resize(32, 0);
    data.extend(text);
    let outcome = ExecutionOutcome::Returned(data);
    assert_eq!(token.symbol_reply(&outcome).unwrap(), "USDC");
}

#[test]
fn symbol_reply_out_of_range() {
    let token = ERC20Token::new(sample_address(3));
    // the length word claims more bytes than there are
    let mut data = word(32);
    data.extend(word(40));
    data.extend(vec![b'A'; 32]);
    assert!(!string_length_overflows_in(&data));
    let r = token.symbol_reply(&ExecutionOutcome::Returned(data));
    assert!(matches!(r, Err(CallError::Decode(_))));
    // the offset points past the data
    let data = word(64);
    let r = token.symbol_reply(&ExecutionOutcome::Returned(data));
    assert_eq!(r.unwrap_err().message(), "buffer overrun while deserializing");
}

#[test]
fn symbol_reply_invalid_utf8_is_replaced() {
    let token = ERC20Token::new(sample_address(3));
    let mut data = word(32);
    data.extend(word(2));
    let mut text = vec![b'A', 0xff];
    text.resize(32, 0);
    data.extend(text);
    assert_eq!(token.symbol_reply(&ExecutionOutcome::Returned(data)).unwrap(), "A\u{fffd}");
}

#[test]
fn length_overflow_is_detected() {
    let mut data = word(32);
    data.extend(vec![0xffu8; 32]);
    assert!(string_length_overflows_in(&data));
    let mut data = word(32);
    data.extend(word(4));
    assert!(!string_length_overflows_in(&data));
    assert!(!string_length_overflows_in(&[0u8; 10]));
}

#[test]
fn amount_uses_the_decimals() {
    let token = ERC20Token::new(sample_address(3));
    let amount = token.amount(U256::from_u64(1_500_000), U256::from_u64(6));
    assert_eq!(amount.number, U256::from_u64(1_500_000));
    assert_eq!(amount.decimals, U256::from_u64(6));
    assert_eq!(amount.to_string(), "1.500000");
}
