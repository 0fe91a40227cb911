//! Read-only contract calls: the transaction to execute, what came of it, and
//! the errors a reply can give.
use crate::abi::{
    address_ending_in, overrun_message, sol_decode_address, sol_decode_string,
    sol_decode_uint, sol_decode_uint_triple, string_decodes, string_length_overflows,
    string_payload, utf8_lossy, word_value, Address, is_ascii_bytes, ascii_chars, be_value,
};
use crate::uint::U256;
use vstd::prelude::*;

verus! {

/// The contract functions that are called.
#[derive(Clone, Copy, Debug, PartialEq, Eq)]
pub enum ContractFunction {
    /// `balanceOf(address)` of an ERC-20 token.
    BalanceOf,
    /// `decimals()` of an ERC-20 token.
    Decimals,
    /// `symbol()` of an ERC-20 token.
    Symbol,
    /// `token0()` of a Uniswap V2 pair.
    Token0,
    /// `token1()` of a Uniswap V2 pair.
    Token1,
    /// `getReserves()` of a Uniswap V2 pair.
    GetReserves,
}

impl ContractFunction {
    /// The four-byte selector: the first four bytes of the Keccak-256 hash of
    /// the function's signature.
    pub open spec fn selector_spec(self) -> Seq<u8> {
        match self {
            ContractFunction::BalanceOf => seq![0x70u8, 0xa0u8, 0x82u8, 0x31u8],
            ContractFunction::Decimals => seq![0x31u8, 0x3cu8, 0xe5u8, 0x67u8],
            ContractFunction::Symbol => seq![0x95u8, 0xd8u8, 0x9bu8, 0x41u8],
            ContractFunction::Token0 => seq![0x0du8, 0xfeu8, 0x16u8, 0x81u8],
            ContractFunction::Token1 => seq![0xd2u8, 0x12u8, 0x20u8, 0xa7u8],
            ContractFunction::GetReserves => seq![0x09u8, 0x02u8, 0xf1u8, 0xacu8],
        }
    }

    /// The function's name, as error messages give it.
    pub open spec fn name_spec(self) -> Seq<char> {
        match self {
            ContractFunction::BalanceOf => "balanceOf"@,
            ContractFunction::Decimals => "decimals"@,
            ContractFunction::Symbol => "symbol"@,
            ContractFunction::Token0 => "token0"@,
            ContractFunction::Token1 => "token1"@,
            ContractFunction::GetReserves => "getReserves"@,
        }
    }

    /// The four-byte selector of the function.
    pub fn selector(&self) -> (r: Vec<u8>)
        ensures
            r@ == self.selector_spec(),
    {
        let r = match self {
            ContractFunction::BalanceOf => vec![0x70u8, 0xa0u8, 0x82u8, 0x31u8],
            ContractFunction::Decimals => vec![0x31u8, 0x3cu8, 0xe5u8, 0x67u8],
            ContractFunction::Symbol => vec![0x95u8, 0xd8u8, 0x9bu8, 0x41u8],
            ContractFunction::Token0 => vec![0x0du8, 0xfeu8, 0x16u8, 0x81u8],
            ContractFunction::Token1 => vec![0xd2u8, 0x12u8, 0x20u8, 0xa7u8],
            ContractFunction::GetReserves => vec![0x09u8, 0x02u8, 0xf1u8, 0xacu8],
        };
        assert(r@ =~= self.selector_spec());
        r
    }

    /// The function's name.
    pub fn name(&self) -> (r: &'static str)
        ensures
            r@ == self.name_spec(),
    {
        match self {
            ContractFunction::BalanceOf => "balanceOf",
            ContractFunction::Decimals => "decimals",
            ContractFunction::Symbol => "symbol",
            ContractFunction::Token0 => "token0",
            ContractFunction::Token1 => "token1",
            ContractFunction::GetReserves => "getReserves",
        }
    }
}

/// A transaction that calls a contract without changing the chain: from
/// `caller` to `to`, with call data `data` and value `value`.
#[derive(Debug)]
pub struct CallRequest {
    pub caller: Address,
    pub to: Address,
    pub data: Vec<u8>,
    pub value: U256,
}

/// The call data of a function: its selector, then the encoded arguments.
pub open spec fn call_data(function: ContractFunction, arguments: Seq<u8>) -> Seq<u8> {
    function.selector_spec() + arguments
}

/// What came of executing a call.
#[derive(Debug)]
pub enum ExecutionOutcome {
    /// The call succeeded and returned these bytes.
    Returned(Vec<u8>),
    /// Anything else (a revert, a halt, or a contract creation), with its
    /// description.
    Failed(String),
}

/// Why a contract call gave no value.
#[derive(Debug)]
pub enum CallError {
    /// The execution did not return from the call; `detail` describes what
    /// came of it instead.
    ExecutionFailed { function: ContractFunction, detail: String },
    /// The returned bytes could not be decoded; the decoder's message.
    Decode(String),
}

impl CallError {
    /// The text of the error: "'{function}' execution failed: {detail}" for a
    /// failed execution, the decoder's message for a decoding error.
    pub fn message(&self) -> (r: String)
        ensures
            self matches CallError::ExecutionFailed { function, detail } ==> r@ == "'"@
                + function.name_spec() + "' execution failed: "@ + detail@,
            self matches CallError::Decode(m) ==> r@ == m@,
    {
        match self {
            CallError::ExecutionFailed { function, detail } => {
                let mut text = String::from_str("'");
                text.append(function.name());
                text.append("' execution failed: ");
                text.append(detail.as_str());
                text
            },
            CallError::Decode(m) => m.clone(),
        }
    }
}

/// The reply is the error of a failed execution of `function` with the
/// outcome's description.
pub open spec fn is_execution_failure(
    function: ContractFunction,
    outcome: ExecutionOutcome,
    error: CallError,
) -> bool {
    &&& outcome matches ExecutionOutcome::Failed(d)
    &&& error matches CallError::ExecutionFailed { function: f, detail }
    &&& f == function
    &&& detail@ == d@
}

/// The bytes returned by a call of `function`, or the error that an execution
/// which did not return gives.
fn returned_data(function: ContractFunction, outcome: &ExecutionOutcome) -> (r: Result<
    &Vec<u8>,
    CallError,
>)
    ensures
        outcome matches ExecutionOutcome::Returned(data) ==> (r matches Ok(d) && d@ == data@),
        outcome is Failed ==> (r matches Err(e) && is_execution_failure(function, *outcome, e)),
{
    match outcome {
        ExecutionOutcome::Returned(data) => Ok(data),
        ExecutionOutcome::Failed(detail) => Err(
            CallError::ExecutionFailed { function, detail: detail.clone() },
        ),
    }
}

/// A call of `function` to `to` from the address ending in `caller_last_byte`,
/// with the function's selector and then `arguments` as data, and no value.
pub fn request(
    function: ContractFunction,
    to: Address,
    caller_last_byte: u8,
    arguments: Vec<u8>,
) -> (r: CallRequest)
    ensures
        r.caller.bytes@ == address_ending_in(caller_last_byte),
        r.to == to,
        r.data@ == call_data(function, arguments@),
        r.data@ == function.selector_spec() + arguments@,
        r.data@.len() == 4 + arguments@.len(),
        r.data@.skip(4) == arguments@,
        r.value@ == 0,
{
    let mut data = function.selector();
    let mut arguments = arguments;
    data.append(&mut arguments);
    CallRequest {
        caller: Address::with_last_byte(caller_last_byte),
        to,
        data,
        value: U256::zero(),
    }
}

/// The call data is the four-byte selector followed by the arguments, whole.
pub proof fn lemma_call_data_layout(function: ContractFunction, arguments: Seq<u8>)
    ensures
        function.selector_spec().len() == 4,
        call_data(function, arguments).len() == 4 + arguments.len(),
        call_data(function, arguments).take(4) == function.selector_spec(),
        call_data(function, arguments).skip(4) == arguments,
{
    let d = call_data(function, arguments);
    assert(d.take(4) =~= function.selector_spec());
    assert(d.skip(4) =~= arguments);
}

/// How replies are read: an unsigned integer is a whole 32-byte word read
/// big-endian, three of them are the first three such words, and an address
/// is the last twenty bytes of the first word, whatever its padding holds.
pub proof fn lemma_reply_words(data: Seq<u8>, v: U256, a: Address, t: (U256, U256, U256))
    ensures
        is_uint_word(data, v) <==> v@ == be_value(data.subrange(0, 32)),
        is_address_word(data, a) <==> a.bytes@ == data.subrange(12, 32),
        is_uint_triple(data, t) <==> (t.0@ == be_value(data.subrange(0, 32)) && t.1@ == be_value(
            data.subrange(32, 64),
        ) && t.2@ == be_value(data.subrange(64, 96))),
        holds_word(data) <==> data.len() >= 32,
        holds_three_words(data) <==> data.len() >= 96,
{
}

/// The reply `r` of a call of `function` is what `outcome` gives when the
/// returned data is read by `decoded`: the error of a failed execution; a
/// decoding error, with the decoder's text for a read past the end of the
/// data, where `decodes` fails; otherwise `Ok` of a value that `decoded`
/// accepts.
pub open spec fn reply_from<T>(
    function: ContractFunction,
    outcome: ExecutionOutcome,
    r: Result<T, CallError>,
    decodes: spec_fn(Seq<u8>) -> bool,
    decoded: spec_fn(Seq<u8>, T) -> bool,
) -> bool {
    match outcome {
        ExecutionOutcome::Returned(data) => if decodes(data@) {
            r matches Ok(v) && decoded(data@, v)
        } else {
            r matches Err(e) && is_overrun_error(e)
        },
        ExecutionOutcome::Failed(_) => r matches Err(e) && is_execution_failure(
            function,
            outcome,
            e,
        ),
    }
}

/// The error of return data that is too short for what the call returns.
pub open spec fn is_overrun_error(e: CallError) -> bool {
    e matches CallError::Decode(m) && m@ == overrun_message()
}

/// The return data holds a 32-byte word.
pub open spec fn holds_word(data: Seq<u8>) -> bool {
    data.len() >= 32
}

/// The return data holds three 32-byte words.
pub open spec fn holds_three_words(data: Seq<u8>) -> bool {
    data.len() >= 96
}

/// `v` is the first word of the return data, read as an unsigned integer.
pub open spec fn is_uint_word(data: Seq<u8>, v: U256) -> bool {
    v@ == word_value(data, 0)
}

/// `a` is the address in the first word of the return data (its last twenty
/// bytes).
pub open spec fn is_address_word(data: Seq<u8>, a: Address) -> bool {
    a.bytes@ == data.subrange(12, 32)
}

/// `t` holds the first three words of the return data, read as unsigned
/// integers.
pub open spec fn is_uint_triple(data: Seq<u8>, t: (U256, U256, U256)) -> bool {
    t.0@ == word_value(data, 0) && t.1@ == word_value(data, 32) && t.2@ == word_value(data, 64)
}

/// `s` is the string the return data holds: its bytes read as UTF-8 (with
/// invalid sequences replaced), which for ASCII bytes are just those
/// characters.
pub open spec fn is_string_payload(data: Seq<u8>, s: String) -> bool {
    &&& s@ == utf8_lossy(string_payload(data))
    &&& is_ascii_bytes(string_payload(data)) ==> s@ == ascii_chars(string_payload(data))
}

/// The reply of a call of `function` that returns an unsigned integer.
pub fn uint_reply(function: ContractFunction, outcome: &ExecutionOutcome) -> (r: Result<
    U256,
    CallError,
>)
    ensures
        outcome matches ExecutionOutcome::Returned(data) ==> (r is Ok <==> data@.len() >= 32),
        r matches Ok(v) ==> (outcome matches ExecutionOutcome::Returned(data) && v@ == be_value(
            data@.subrange(0, 32),
        )),
        reply_from(
            function,
            *outcome,
            r,
            |data: Seq<u8>| holds_word(data),
            |data: Seq<u8>, v: U256| is_uint_word(data, v),
        ),
{
    let data = match returned_data(function, outcome) {
        Ok(data) => data,
        Err(e) => return Err(e),
    };
    match sol_decode_uint(data.as_slice()) {
        Ok(v) => Ok(v),
        Err(m) => Err(CallError::Decode(m)),
    }
}

/// The reply of a call of `function` that returns an address.
pub fn address_reply(function: ContractFunction, outcome: &ExecutionOutcome) -> (r: Result<
    Address,
    CallError,
>)
    ensures
        outcome matches ExecutionOutcome::Returned(data) ==> (r is Ok <==> data@.len() >= 32),
        r matches Ok(a) ==> (outcome matches ExecutionOutcome::Returned(data) && a.bytes@
            == data@.subrange(12, 32)),
        reply_from(
            function,
            *outcome,
            r,
            |data: Seq<u8>| holds_word(data),
            |data: Seq<u8>, a: Address| is_address_word(data, a),
        ),
{
    let data = match returned_data(function, outcome) {
        Ok(data) => data,
        Err(e) => return Err(e),
    };
    match sol_decode_address(data.as_slice()) {
        Ok(a) => Ok(a),
        Err(m) => Err(CallError::Decode(m)),
    }
}

/// The reply of a call of `function` that returns three unsigned integers.
pub fn uint_triple_reply(function: ContractFunction, outcome: &ExecutionOutcome) -> (r: Result<
    (U256, U256, U256),
    CallError,
>)
    ensures
        outcome matches ExecutionOutcome::Returned(data) ==> (r is Ok <==> data@.len() >= 96),
        r matches Ok(t) ==> (outcome matches ExecutionOutcome::Returned(data) && t.0@ == be_value(
            data@.subrange(0, 32),
        ) && t.1@ == be_value(data@.subrange(32, 64)) && t.2@ == be_value(data@.subrange(64, 96))),
        reply_from(
            function,
            *outcome,
            r,
            |data: Seq<u8>| holds_three_words(data),
            |data: Seq<u8>, t: (U256, U256, U256)| is_uint_triple(data, t),
        ),
{
    let data = match returned_data(function, outcome) {
        Ok(data) => data,
        Err(e) => return Err(e),
    };
    match sol_decode_uint_triple(data.as_slice()) {
        Ok(t) => Ok(t),
        Err(m) => Err(CallError::Decode(m)),
    }
}

/// The return data of a call does not make the string decoder panic.
pub open spec fn string_reply_decodable(outcome: ExecutionOutcome) -> bool {
    outcome matches ExecutionOutcome::Returned(data) ==> !string_length_overflows(data@)
}

/// The reply of a call of `function` that returns a string.
pub fn string_reply(function: ContractFunction, outcome: &ExecutionOutcome) -> (r: Result<
    String,
    CallError,
>)
    requires
        string_reply_decodable(*outcome),
    ensures
        reply_from(
            function,
            *outcome,
            r,
            |data: Seq<u8>| string_decodes(data),
            |data: Seq<u8>, s: String| is_string_payload(data, s),
        ),
{
    let data = match returned_data(function, outcome) {
        Ok(data) => data,
        Err(e) => return Err(e),
    };
    match sol_decode_string(data.as_slice()) {
        Ok(s) => Ok(s),
        Err(m) => Err(CallError::Decode(m)),
    }
}

} // verus!
