//! An ERC-20 token contract: the calls that read its balance of an account,
//! its decimals and its symbol, what their replies mean, and amounts in its
//! units.
use crate::abi::{
    address_ending_in, address_word, be_value, lemma_address_word_layout, sol_encode_address,
    string_decodes, Address,
};
use crate::call::{
    call_data, holds_word, lemma_call_data_layout, is_string_payload, is_uint_word, reply_from, request, string_reply,
    string_reply_decodable, uint_reply, CallError, CallRequest, ContractFunction,
    ExecutionOutcome,
};
use crate::integer_decimal::IntegerDecimal;
use crate::uint::U256;
use vstd::prelude::*;

verus! {

/// The token contract at an address.
#[derive(Debug)]
pub struct ERC20Token {
    address: Address,
}

impl ERC20Token {
    /// The address of the token contract.
    pub closed spec fn contract(&self) -> Address {
        self.address
    }

    pub fn new(address: Address) -> (r: ERC20Token)
        ensures
            r.contract() == address,
    {
        ERC20Token { address }
    }

    /// The call of `balanceOf(account)` on the token, from the address
    /// `0x…01`.
    pub fn balance_of_call(&self, account: &Address) -> (r: CallRequest)
        ensures
            r.caller.bytes@ == address_ending_in(1),
            r.to == self.contract(),
            r.data@ == call_data(ContractFunction::BalanceOf, address_word(*account)),
            r.data@.len() == 36,
            r.data@.take(4) == seq![0x70u8, 0xa0u8, 0x82u8, 0x31u8],
            forall|i: int| 4 <= i < 16 ==> #[trigger] r.data@[i] == 0,
            r.data@.subrange(16, 36) == account.bytes@,
            r.value@ == 0,
    {
        let r = request(ContractFunction::BalanceOf, self.address, 1, sol_encode_address(account));
        proof {
            let word = address_word(*account);
            lemma_address_word_layout(*account);
            lemma_call_data_layout(ContractFunction::BalanceOf, word);
            assert(r.data@.take(4) =~= seq![0x70u8, 0xa0u8, 0x82u8, 0x31u8]);
            assert(r.data@.subrange(16, 36) =~= word.subrange(12, 32));
            assert forall|i: int| 4 <= i < 16 implies #[trigger] r.data@[i] == 0 by {
                assert(r.data@[i] == word[i - 4]);
            }
        }
        r
    }

    /// The balance that the outcome of `balance_of_call` gives: the first word
    /// of the returned data, a decoding error where there is none, or the
    /// execution failure.
    pub fn balance_of_reply(&self, outcome: &ExecutionOutcome) -> (r: Result<U256, CallError>)
        ensures
            outcome matches ExecutionOutcome::Returned(data) ==> (r is Ok <==> data@.len() >= 32),
            r matches Ok(v) ==> (outcome matches ExecutionOutcome::Returned(data) && v@ == be_value(
                data@.subrange(0, 32),
            )),
            reply_from(
                ContractFunction::BalanceOf,
                *outcome,
                r,
                |data: Seq<u8>| holds_word(data),
                |data: Seq<u8>, v: U256| is_uint_word(data, v),
            ),
    {
        uint_reply(ContractFunction::BalanceOf, outcome)
    }

    /// The call of `decimals()` on the token, from the address `0x…01`.
    pub fn decimals_call(&self) -> (r: CallRequest)
        ensures
            r.data@ == seq![0x31u8, 0x3cu8, 0xe5u8, 0x67u8],
            r.caller.bytes@ == address_ending_in(1),
            r.to == self.contract(),
            r.data@ == call_data(ContractFunction::Decimals, Seq::empty()),
            r.value@ == 0,
    {
        let r = request(ContractFunction::Decimals, self.address, 1, Vec::new());
        assert(r.data@ =~= seq![0x31u8, 0x3cu8, 0xe5u8, 0x67u8]);
        r
    }

    /// The decimals that the outcome of `decimals_call` gives.
    pub fn decimals_reply(&self, outcome: &ExecutionOutcome) -> (r: Result<U256, CallError>)
        ensures
            outcome matches ExecutionOutcome::Returned(data) ==> (r is Ok <==> data@.len() >= 32),
            r matches Ok(v) ==> (outcome matches ExecutionOutcome::Returned(data) && v@ == be_value(
                data@.subrange(0, 32),
            )),
            reply_from(
                ContractFunction::Decimals,
                *outcome,
                r,
                |data: Seq<u8>| holds_word(data),
                |data: Seq<u8>, v: U256| is_uint_word(data, v),
            ),
    {
        uint_reply(ContractFunction::Decimals, outcome)
    }

    /// A raw `amount` of the token's smallest units, with the token's
    /// `decimals`.
    pub fn amount(&self, amount: U256, decimals: U256) -> (r: IntegerDecimal)
        ensures
            r.number == amount,
            r.decimals == decimals,
    {
        IntegerDecimal::new(amount, decimals)
    }

    /// The call of `symbol()` on the token, from the address `0x…01`.
    pub fn symbol_call(&self) -> (r: CallRequest)
        ensures
            r.data@ == seq![0x95u8, 0xd8u8, 0x9bu8, 0x41u8],
            r.caller.bytes@ == address_ending_in(1),
            r.to == self.contract(),
            r.data@ == call_data(ContractFunction::Symbol, Seq::empty()),
            r.value@ == 0,
    {
        let r = request(ContractFunction::Symbol, self.address, 1, Vec::new());
        assert(r.data@ =~= seq![0x95u8, 0xd8u8, 0x9bu8, 0x41u8]);
        r
    }

    /// The symbol that the outcome of `symbol_call` gives.
    pub fn symbol_reply(&self, outcome: &ExecutionOutcome) -> (r: Result<String, CallError>)
        requires
            string_reply_decodable(*outcome),
        ensures
            reply_from(
                ContractFunction::Symbol,
                *outcome,
                r,
                |data: Seq<u8>| string_decodes(data),
                |data: Seq<u8>, s: String| is_string_payload(data, s),
            ),
    {
        string_reply(ContractFunction::Symbol, outcome)
    }
}

} // verus!
