//! The Solidity ABI as far as these calls use it: 32-byte words, addresses,
//! and the return data of `uint256`, `address`, `string` and
//! `(uint, uint, uint)` functions. Encoding and decoding are done by
//! `alloy_sol_types` (without its validation, as the calls here ask for);
//! the layouts they accept are stated below.
use crate::uint::U256;
use alloy_sol_types::{SolType, SolValue};
use revm::primitives::U256 as RevmU256;
use vstd::prelude::*;

verus! {

/// A 20-byte Ethereum account address.
#[derive(Clone, Copy, Debug, PartialEq, Eq)]
pub struct Address {
    pub bytes: [u8; 20],
}

impl Address {
    pub fn new(bytes: [u8; 20]) -> (r: Address)
        ensures
            r.bytes == bytes,
    {
        Address { bytes }
    }

    /// The address of nineteen zero bytes and then `last`.
    pub fn with_last_byte(last: u8) -> (r: Address)
        ensures
            r.bytes@ == address_ending_in(last),
    {
        let r = Address { bytes: [0, 0, 0, 0, 0, 0, 0, 0, 0, 0, 0, 0, 0, 0, 0, 0, 0, 0, 0, last] };
        assert(r.bytes@ =~= address_ending_in(last));
        r
    }
}

/// The bytes of the address of nineteen zero bytes and then `last`.
pub open spec fn address_ending_in(last: u8) -> Seq<u8> {
    Seq::new(19, |i: int| 0u8).push(last)
}

/// The number that bytes stand for, most significant first.
pub open spec fn be_value(bytes: Seq<u8>) -> nat
    decreases bytes.len(),
{
    if bytes.len() == 0 {
        0
    } else {
        be_value(bytes.drop_last()) * 256 + bytes.last() as nat
    }
}

/// The big-endian value of the 32-byte word that starts at byte `at`.
pub open spec fn word_value(data: Seq<u8>, at: int) -> nat {
    be_value(data.subrange(at, at + 32))
}

/// The number of bytes in a `usize`.
pub open spec fn usize_bytes() -> int {
    (usize::BITS / 8) as int
}

/// The offset or length that the word at byte `at` holds when read as a
/// `usize`: the value of its last `usize_bytes()` bytes.
pub open spec fn word_as_usize(data: Seq<u8>, at: int) -> nat {
    be_value(data.subrange(at + 32 - usize_bytes(), at + 32))
}

/// The ABI word of an address: twelve zero bytes, then the address.
pub open spec fn address_word(address: Address) -> Seq<u8> {
    Seq::new(12, |i: int| 0u8) + address.bytes@
}

/// The word of an address is 32 bytes: twelve zeros, then the twenty bytes
/// of the address.
pub proof fn lemma_address_word_layout(address: Address)
    ensures
        address_word(address).len() == 32,
        forall|i: int| 0 <= i < 12 ==> #[trigger] address_word(address)[i] == 0,
        address_word(address).subrange(12, 32) == address.bytes@,
{
    assert(address_word(address).subrange(12, 32) =~= address.bytes@);
}

/// Where the encoding of a returned string starts (the first word).
pub open spec fn string_offset(data: Seq<u8>) -> nat {
    word_as_usize(data, 0)
}

/// The byte length of a returned string (the first word of its encoding).
pub open spec fn string_length(data: Seq<u8>) -> nat {
    word_as_usize(data, string_offset(data) as int)
}

/// The return data holds a string: an offset word, and at that offset a length
/// word followed by at least that many bytes.
pub open spec fn string_decodes(data: Seq<u8>) -> bool {
    &&& data.len() >= 32
    &&& string_offset(data) + 32 <= data.len()
    &&& string_offset(data) + 32 + string_length(data) <= data.len()
}

/// The length word of a returned string is so large that adding the word size
/// to it overflows a `usize`: the decoder panics on such data.
pub open spec fn string_length_overflows(data: Seq<u8>) -> bool {
    &&& data.len() >= 32
    &&& string_offset(data) + 32 <= data.len()
    &&& string_length(data) + 32 > usize::MAX
}

/// The bytes of a returned string.
pub open spec fn string_payload(data: Seq<u8>) -> Seq<u8> {
    let start = string_offset(data) + 32;
    data.subrange(start as int, (start + string_length(data)) as int)
}

/// All bytes are below 128.
pub open spec fn is_ascii_bytes(bytes: Seq<u8>) -> bool {
    forall|i: int| 0 <= i < bytes.len() ==> bytes[i] < 128
}

/// The characters of ASCII bytes.
pub open spec fn ascii_chars(bytes: Seq<u8>) -> Seq<char> {
    Seq::new(bytes.len(), |i: int| bytes[i] as char)
}

/// What `String::from_utf8_lossy` makes of bytes: valid UTF-8 read as is, and
/// each invalid sequence replaced by U+FFFD.
pub uninterp spec fn utf8_lossy(bytes: Seq<u8>) -> Seq<char>;

/// Calls `SolType::abi_encode` of `alloy_sol_types::sol_data::Address` on
/// the address bytes. The source tokenizes an address as
/// `Address::into_word` (twelve zero bytes, then the twenty address bytes)
/// and encodes the single static word as is: 32 bytes.
#[verifier::external_body]
pub(crate) fn sol_encode_address(address: &Address) -> (r: Vec<u8>)
    ensures
        r@ == address_word(*address),
{
    <alloy_sol_types::sol_data::Address as SolType>::abi_encode(&address.bytes)
}

/// The text that `alloy_sol_types` gives for `Error::Overrun`, the only error
/// that decoding without validation reports on the paths used here: each
/// failure is a read past the end of the data.
pub open spec fn overrun_message() -> Seq<char> {
    "buffer overrun while deserializing"@
}

/// Calls `SolValue::abi_decode` of `U256` (`alloy_sol_types`, without
/// validation). The source takes the first 32-byte word, failing with
/// `Error::Overrun` when there is none, and reads it big-endian; the limbs of
/// the result are converted one for one, and the error to its `Display` text.
#[verifier::external_body]
pub(crate) fn sol_decode_uint(data: &[u8]) -> (r: Result<U256, String>)
    ensures
        r is Ok <==> data@.len() >= 32,
        r matches Ok(v) ==> v@ == word_value(data@, 0),
        r matches Err(m) ==> m@ == overrun_message(),
{
    match <revm::primitives::U256 as SolValue>::abi_decode(data, false) {
        Ok(v) => Ok(U256 { limbs: v.into_limbs() }),
        Err(e) => Err(format!("{e}")),
    }
}

/// Calls `SolValue::abi_decode` of `Address` (`alloy_sol_types`, without
/// validation). The source takes the first 32-byte word, failing with
/// `Error::Overrun` when there is none, and keeps its last twenty bytes
/// (`Address::from_word`); the upper twelve bytes are not checked. The error
/// is converted to its `Display` text.
#[verifier::external_body]
pub(crate) fn sol_decode_address(data: &[u8]) -> (r: Result<Address, String>)
    ensures
        r is Ok <==> data@.len() >= 32,
        r matches Ok(a) ==> a.bytes@ == data@.subrange(12, 32),
        r matches Err(m) ==> m@ == overrun_message(),
{
    match <revm::primitives::Address as SolValue>::abi_decode(data, false) {
        Ok(a) => Ok(Address { bytes: a.into_array() }),
        Err(e) => Err(format!("{e}")),
    }
}

/// Calls `SolValue::abi_decode` of `(U256, U256, U256)` (`alloy_sol_types`,
/// without validation). A tuple of static types is decoded in place: three
/// consecutive 32-byte words, failing with `Error::Overrun` when there are
/// fewer, each read big-endian. The error is converted to its `Display` text.
#[verifier::external_body]
pub(crate) fn sol_decode_uint_triple(data: &[u8]) -> (r: Result<(U256, U256, U256), String>)
    ensures
        r is Ok <==> data@.len() >= 96,
        r matches Ok(t) ==> t.0@ == word_value(data@, 0) && t.1@ == word_value(data@, 32)
            && t.2@ == word_value(data@, 64),
        r matches Err(m) ==> m@ == overrun_message(),
{
    match <(RevmU256, RevmU256, RevmU256) as SolValue>::abi_decode(data, false) {
        Ok((a, b, c)) => Ok((U256 { limbs: a.into_limbs() }, U256 { limbs: b.into_limbs() }, U256 { limbs: c.into_limbs() })),
        Err(e) => Err(format!("{e}")),
    }
}

/// Calls `SolValue::abi_decode` of `String` (`alloy_sol_types`, without
/// validation). The source follows the offset in the first word, reads the
/// length word there, and takes that many bytes after it, failing with
/// `Error::Overrun` when any of these is out of the data (the child decoder
/// is one level deep, far from the recursion limit); it then converts the
/// bytes with `String::from_utf8_lossy`, which leaves ASCII as it is. Where
/// the length word plus 32 overflows a `usize`, the decoder's addition panics;
/// that data is left out. The error is converted to its `Display` text.
#[verifier::external_body]
pub(crate) fn sol_decode_string(data: &[u8]) -> (r: Result<String, String>)
    requires
        !string_length_overflows(data@),
    ensures
        r is Ok <==> string_decodes(data@),
        r matches Ok(s) ==> s@ == utf8_lossy(string_payload(data@)),
        is_ascii_bytes(string_payload(data@)) ==> (r matches Ok(s) ==> s@ == ascii_chars(
            string_payload(data@),
        )),
        r matches Err(m) ==> m@ == overrun_message(),
{
    match <String as SolValue>::abi_decode(data, false) {
        Ok(s) => Ok(s),
        Err(e) => Err(format!("{e}")),
    }
}

/// The number that `count` bytes at `at` stand for, big-endian.
fn read_be(data: &[u8], at: usize, count: usize) -> (r: u64)
    requires
        count <= 8,
        at + count <= data@.len(),
    ensures
        r == be_value(data@.subrange(at as int, at + count)),
{
    let n: usize = data.len();
    let mut acc: u64 = 0;
    let mut i: usize = 0;
    while i < count
        invariant
            n == data@.len(),
            i <= count <= 8,
            at + count <= data@.len(),
            acc == be_value(data@.subrange(at as int, at + i)),
            acc < pow256(i as nat),
        decreases count - i,
    {
        let ghost prev = data@.subrange(at as int, at + i);
        let ghost next = data@.subrange(at as int, at + i + 1);
        assert(next.drop_last() =~= prev);
        proof {
            lemma_pow256_step(i as nat);
            assert(acc * 256 + data@[at + i] < pow256((i + 1) as nat)) by (nonlinear_arith)
                requires
                    acc < pow256(i as nat),
                    data@[at + i] < 256,
                    pow256((i + 1) as nat) == pow256(i as nat) * 256,
            ;
        }
        acc = acc * 256 + data[at + i] as u64;
        i = i + 1;
    }
    acc
}

/// 256^n, for n up to 8.
spec fn pow256(n: nat) -> nat
    decreases n,
{
    if n == 0 {
        1
    } else {
        pow256((n - 1) as nat) * 256
    }
}

proof fn lemma_pow256_step(n: nat)
    requires
        n < 8,
    ensures
        pow256(n + 1) == pow256(n) * 256,
        pow256(n + 1) <= 18446744073709551616nat,
{
    reveal_with_fuel(pow256, 9);
}

/// Whether the length word of a returned string overflows when the word size
/// is added to it, the data on which decoding it panics.
pub fn string_length_overflows_in(data: &[u8]) -> (r: bool)
    ensures
        r == string_length_overflows(data@),
{
    let width: usize = (usize::BITS / 8) as usize;
    if data.len() < 32 {
        return false;
    }
    let offset = read_be(data, 32 - width, width);
    let len = data.len() as u64;
    if offset > len || len - offset < 32 {
        return false;
    }
    let length = read_be(data, offset as usize + 32 - width, width);
    length > (usize::MAX as u64) - 32
}

} // verus!
