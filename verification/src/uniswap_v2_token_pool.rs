//! A Uniswap V2 pair contract: the calls that read its two tokens and its
//! reserves, and what their replies mean.
use crate::abi::{address_ending_in, be_value, Address};
use crate::call::{
    address_reply, call_data, holds_three_words, holds_word, is_address_word, is_uint_triple,
    reply_from, request, uint_triple_reply, CallError, CallRequest, ContractFunction,
    ExecutionOutcome,
};
use crate::uint::U256;
use vstd::prelude::*;

verus! {

/// The pair contract at an address.
#[derive(Debug)]
pub struct UniswapV2TokenPool {
    address: Address,
}

impl UniswapV2TokenPool {
    /// The address of the pair contract.
    pub closed spec fn contract(&self) -> Address {
        self.address
    }

    pub fn new(address: Address) -> (r: UniswapV2TokenPool)
        ensures
            r.contract() == address,
    {
        UniswapV2TokenPool { address }
    }

    /// The call of `token0()` on the pair, from the address `0x…01`.
    pub fn token_0_call(&self) -> (r: CallRequest)
        ensures
            r.data@ == seq![0x0du8, 0xfeu8, 0x16u8, 0x81u8],
            r.caller.bytes@ == address_ending_in(1),
            r.to == self.contract(),
            r.data@ == call_data(ContractFunction::Token0, Seq::empty()),
            r.value@ == 0,
    {
        let r = request(ContractFunction::Token0, self.address, 1, Vec::new());
        assert(r.data@ =~= seq![0x0du8, 0xfeu8, 0x16u8, 0x81u8]);
        r
    }

    /// The first token that the outcome of `token_0_call` gives: the address in
    /// the first returned word.
    pub fn token_0_reply(&self, outcome: &ExecutionOutcome) -> (r: Result<Address, CallError>)
        ensures
            outcome matches ExecutionOutcome::Returned(data) ==> (r is Ok <==> data@.len() >= 32),
            r matches Ok(a) ==> (outcome matches ExecutionOutcome::Returned(data) && a.bytes@
                == data@.subrange(12, 32)),
            reply_from(
                ContractFunction::Token0,
                *outcome,
                r,
                |data: Seq<u8>| holds_word(data),
                |data: Seq<u8>, a: Address| is_address_word(data, a),
            ),
    {
        address_reply(ContractFunction::Token0, outcome)
    }

    /// The call of `token1()` on the pair, from the zero address.
    pub fn token_1_call(&self) -> (r: CallRequest)
        ensures
            r.data@ == seq![0xd2u8, 0x12u8, 0x20u8, 0xa7u8],
            r.caller.bytes@ == address_ending_in(0),
            r.to == self.contract(),
            r.data@ == call_data(ContractFunction::Token1, Seq::empty()),
            r.value@ == 0,
    {
        let r = request(ContractFunction::Token1, self.address, 0, Vec::new());
        assert(r.data@ =~= seq![0xd2u8, 0x12u8, 0x20u8, 0xa7u8]);
        r
    }

    /// The second token that the outcome of `token_1_call` gives.
    pub fn token_1_reply(&self, outcome: &ExecutionOutcome) -> (r: Result<Address, CallError>)
        ensures
            outcome matches ExecutionOutcome::Returned(data) ==> (r is Ok <==> data@.len() >= 32),
            r matches Ok(a) ==> (outcome matches ExecutionOutcome::Returned(data) && a.bytes@
                == data@.subrange(12, 32)),
            reply_from(
                ContractFunction::Token1,
                *outcome,
                r,
                |data: Seq<u8>| holds_word(data),
                |data: Seq<u8>, a: Address| is_address_word(data, a),
            ),
    {
        address_reply(ContractFunction::Token1, outcome)
    }

    /// The call of `getReserves()` on the pair, from the address `0x…01`.
    pub fn get_reserves_call(&self) -> (r: CallRequest)
        ensures
            r.data@ == seq![0x09u8, 0x02u8, 0xf1u8, 0xacu8],
            r.caller.bytes@ == address_ending_in(1),
            r.to == self.contract(),
            r.data@ == call_data(ContractFunction::GetReserves, Seq::empty()),
            r.value@ == 0,
    {
        let r = request(ContractFunction::GetReserves, self.address, 1, Vec::new());
        assert(r.data@ =~= seq![0x09u8, 0x02u8, 0xf1u8, 0xacu8]);
        r
    }

    /// The reserves of the two tokens and the timestamp of their last update,
    /// as the outcome of `get_reserves_call` gives them: the first three
    /// returned words.
    pub fn get_reserves_reply(&self, outcome: &ExecutionOutcome) -> (r: Result<
        (U256, U256, U256),
        CallError,
    >)
        ensures
            outcome matches ExecutionOutcome::Returned(data) ==> (r is Ok <==> data@.len() >= 96),
            r matches Ok(t) ==> (outcome matches ExecutionOutcome::Returned(data) && t.0@ == be_value(
                data@.subrange(0, 32),
            ) && t.1@ == be_value(data@.subrange(32, 64)) && t.2@ == be_value(
                data@.subrange(64, 96),
            )),
            reply_from(
                ContractFunction::GetReserves,
                *outcome,
                r,
                |data: Seq<u8>| holds_three_words(data),
                |data: Seq<u8>, t: (U256, U256, U256)| is_uint_triple(data, t),
            ),
    {
        uint_triple_reply(ContractFunction::GetReserves, outcome)
    }
}

} // verus!
