//! The instruction data that the liquidity venue reads: one tag byte, then
//! the arguments as little-endian integers.
//!
//! Only the bytes are made here. Sending them is the caller's part.

use vstd::prelude::*;
use crate::state::MeteoraPoolConfig;

verus! {

/// The tag of the instruction that creates a pool.
pub const CREATE_POOL_TAG: u8 = 0;

/// The tag of the instruction that adds liquidity.
pub const ADD_LIQUIDITY_TAG: u8 = 1;

/// The two bytes of a 16-bit value, lowest first.
pub open spec fn spec_u16_le(value: u16) -> Seq<u8> {
    seq![(value % 256) as u8, (value / 256) as u8]
}

/// The four bytes of a 32-bit value, lowest first.
pub open spec fn spec_u32_le(value: u32) -> Seq<u8> {
    seq![
        (value % 256) as u8,
        ((value / 256) % 256) as u8,
        ((value / 65536) % 256) as u8,
        (value / 16777216) as u8,
    ]
}

/// The eight bytes of a 64-bit value, lowest first: the low half, then the
/// high half.
pub open spec fn spec_u64_le(value: u64) -> Seq<u8> {
    spec_u32_le((value % 4294967296) as u32) + spec_u32_le((value / 4294967296) as u32)
}

/// The 32 bits of a signed value in two's complement.
pub open spec fn spec_i32_bits(value: i32) -> u32 {
    if value >= 0 {
        value as u32
    } else {
        (value + 4294967296) as u32
    }
}

/// The four bytes of a signed 32-bit value in two's complement, lowest first.
pub open spec fn spec_i32_le(value: i32) -> Seq<u8> {
    spec_u32_le(spec_i32_bits(value))
}

/// The data of the instruction that creates a pool: the tag, then the nine
/// fields of the configuration in the order in which it declares them.
pub open spec fn spec_create_pool_data(config: MeteoraPoolConfig) -> Seq<u8> {
    seq![CREATE_POOL_TAG] + spec_u16_le(config.bin_step) + spec_u16_le(config.base_factor)
        + spec_u16_le(config.filter_period) + spec_u16_le(config.decay_period) + spec_u16_le(
        config.reduction_factor,
    ) + spec_u32_le(config.variable_fee_control) + spec_u32_le(config.max_volatility_accumulator)
        + spec_i32_le(config.min_bin_id) + spec_i32_le(config.max_bin_id)
}

/// The data of the instruction that adds liquidity: the tag, the payment
/// amount, the token amount.
pub open spec fn spec_add_liquidity_data(sol_amount: u64, token_amount: u64) -> Seq<u8> {
    seq![ADD_LIQUIDITY_TAG] + spec_u64_le(sol_amount) + spec_u64_le(token_amount)
}

/// Appends a 16-bit value, lowest byte first.
fn push_u16_le(data: &mut Vec<u8>, value: u16)
    ensures
        final(data)@ == old(data)@ + spec_u16_le(value),
{
    data.push((value % 256) as u8);
    data.push((value / 256) as u8);
    assert(data@ =~= old(data)@ + spec_u16_le(value));
}

/// Appends a 32-bit value, lowest byte first.
fn push_u32_le(data: &mut Vec<u8>, value: u32)
    ensures
        final(data)@ == old(data)@ + spec_u32_le(value),
{
    data.push((value % 256) as u8);
    data.push(((value / 256) % 256) as u8);
    data.push(((value / 65536) % 256) as u8);
    data.push((value / 16777216) as u8);
    assert(data@ =~= old(data)@ + spec_u32_le(value));
}

/// Appends a 64-bit value, lowest byte first.
fn push_u64_le(data: &mut Vec<u8>, value: u64)
    ensures
        final(data)@ == old(data)@ + spec_u64_le(value),
{
    push_u32_le(data, (value % 4294967296) as u32);
    push_u32_le(data, (value / 4294967296) as u32);
    assert(data@ =~= old(data)@ + spec_u64_le(value));
}

/// Appends a signed 32-bit value in two's complement, lowest byte first.
fn push_i32_le(data: &mut Vec<u8>, value: i32)
    ensures
        final(data)@ == old(data)@ + spec_i32_le(value),
{
    let bits: u32 = if value >= 0 {
        value as u32
    } else {
        (value as i64 + 4294967296) as u32
    };
    push_u32_le(data, bits);
}

/// Builds the data of the instruction that creates a pool with the given
/// configuration: 27 bytes.
pub fn create_pool_instruction_data(config: &MeteoraPoolConfig) -> (data: Vec<u8>)
    ensures
        data@ == spec_create_pool_data(*config),
        data@.len() == 27,
{
    let mut data: Vec<u8> = Vec::new();
    data.push(CREATE_POOL_TAG);
    assert(data@ =~= seq![CREATE_POOL_TAG]);
    push_u16_le(&mut data, config.bin_step);
    push_u16_le(&mut data, config.base_factor);
    push_u16_le(&mut data, config.filter_period);
    push_u16_le(&mut data, config.decay_period);
    push_u16_le(&mut data, config.reduction_factor);
    push_u32_le(&mut data, config.variable_fee_control);
    push_u32_le(&mut data, config.max_volatility_accumulator);
    push_i32_le(&mut data, config.min_bin_id);
    push_i32_le(&mut data, config.max_bin_id);
    data
}

/// Builds the data of the instruction that adds liquidity: 17 bytes.
pub fn add_liquidity_instruction_data(sol_amount: u64, token_amount: u64) -> (data: Vec<u8>)
    ensures
        data@ == spec_add_liquidity_data(sol_amount, token_amount),
        data@.len() == 17,
{
    let mut data: Vec<u8> = Vec::new();
    data.push(ADD_LIQUIDITY_TAG);
    assert(data@ =~= seq![ADD_LIQUIDITY_TAG]);
    push_u64_le(&mut data, sol_amount);
    push_u64_le(&mut data, token_amount);
    data
}

} // verus!
