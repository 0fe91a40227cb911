//! Reading ERC-20 tokens and Uniswap V2 pools through an EVM: the calls to
//! make, what their replies mean, and fixed-point token amounts.
pub mod uint;
pub mod integer_decimal;
pub mod abi;
pub mod call;
pub mod erc20_token;
pub mod uniswap_v2_token_pool;
