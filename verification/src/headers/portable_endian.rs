//! Byte order conversion helpers between host order and fixed little-endian or
//! big-endian representations.

use vstd::prelude::*;
use vstd::endian::{endianness, Endian};

verus! {

/// Conventional value used by C endian headers for little-endian byte order.
pub const LITTLE_ENDIAN: u32 = 1234;

/// Conventional value used by C endian headers for big-endian byte order.
pub const BIG_ENDIAN: u32 = 4321;

/// Conventional value used by C endian headers for PDP-endian byte order.
pub const PDP_ENDIAN: u32 = 3412;

/// True when the executing hardware stores integers least significant byte first.
pub open spec fn host_little() -> bool {
    endianness() is Little
}

/// The 16-bit value with its two bytes exchanged.
pub open spec fn swap16(v: u16) -> u16 {
    (((v & 0xffu16) << 8u16) | (v >> 8u16)) as u16
}

/// The 32-bit value with its four bytes in reverse order.
pub open spec fn swap32(v: u32) -> u32 {
    (((v & 0xffu32) << 24u32) | (((v >> 8u32) & 0xffu32) << 16u32) | (((v >> 16u32) & 0xffu32)
        << 8u32) | (v >> 24u32)) as u32
}

/// The 64-bit value with its eight bytes in reverse order.
pub open spec fn swap64(v: u64) -> u64 {
    (((v & 0xffu64) << 56u64) | (((v >> 8u64) & 0xffu64) << 48u64) | (((v >> 16u64) & 0xffu64)
        << 40u64) | (((v >> 24u64) & 0xffu64) << 32u64) | (((v >> 32u64) & 0xffu64) << 24u64) | (((v
        >> 40u64) & 0xffu64) << 16u64) | (((v >> 48u64) & 0xffu64) << 8u64) | (v >> 56u64)) as u64
}

/// Host order to big-endian for 16 bits: a byte swap on little-endian hosts.
pub open spec fn spec_to_be16(v: u16) -> u16 {
    if host_little() { swap16(v) } else { v }
}

/// Host order to little-endian for 16 bits: a byte swap on big-endian hosts.
pub open spec fn spec_to_le16(v: u16) -> u16 {
    if host_little() { v } else { swap16(v) }
}

/// Host order to big-endian for 32 bits.
pub open spec fn spec_to_be32(v: u32) -> u32 {
    if host_little() { swap32(v) } else { v }
}

/// Host order to little-endian for 32 bits.
pub open spec fn spec_to_le32(v: u32) -> u32 {
    if host_little() { v } else { swap32(v) }
}

/// Host order to big-endian for 64 bits.
pub open spec fn spec_to_be64(v: u64) -> u64 {
    if host_little() { swap64(v) } else { v }
}

/// Host order to little-endian for 64 bits.
pub open spec fn spec_to_le64(v: u64) -> u64 {
    if host_little() { v } else { swap64(v) }
}

/// `u16::to_le` of std: the identity on little-endian hosts, a byte swap otherwise.
#[verifier::external_body]
fn std_u16_to_le(v: u16) -> (r: u16)
    ensures
        r == spec_to_le16(v),
{
    v.to_le()
}

/// Reports whether the host stores integers least significant byte first.
fn host_is_little_endian() -> (r: bool)
    ensures
        r == host_little(),
{
    let one = std_u16_to_le(1);
    assert(swap16(1u16) == 256u16) by (bit_vector);
    one == 1
}

fn swap16_exec(v: u16) -> (r: u16)
    ensures
        r == swap16(v),
{
    ((v & 0xff) << 8) | (v >> 8)
}

fn swap32_exec(v: u32) -> (r: u32)
    ensures
        r == swap32(v),
{
    ((v & 0xff) << 24) | (((v >> 8) & 0xff) << 16) | (((v >> 16) & 0xff) << 8) | (v >> 24)
}

fn swap64_exec(v: u64) -> (r: u64)
    ensures
        r == swap64(v),
{
    ((v & 0xff) << 56) | (((v >> 8) & 0xff) << 48) | (((v >> 16) & 0xff) << 40) | (((v >> 24)
        & 0xff) << 32) | (((v >> 32) & 0xff) << 24) | (((v >> 40) & 0xff) << 16) | (((v >> 48)
        & 0xff) << 8) | (v >> 56)
}

/// Converts a 16-bit integer from big-endian representation to host order.
pub fn be16_to_host(value: u16) -> (r: u16)
    ensures
        r == spec_to_be16(value),
{
    if host_is_little_endian() { swap16_exec(value) } else { value }
}

/// Converts a 16-bit integer from host order to big-endian representation.
pub fn host_to_be16(value: u16) -> (r: u16)
    ensures
        r == spec_to_be16(value),
{
    if host_is_little_endian() { swap16_exec(value) } else { value }
}

/// Converts a 16-bit integer from host order to little-endian representation.
pub fn host_to_le16(value: u16) -> (r: u16)
    ensures
        r == spec_to_le16(value),
{
    if host_is_little_endian() { value } else { swap16_exec(value) }
}

/// Converts a 16-bit integer from little-endian representation to host order.
pub fn le16_to_host(value: u16) -> (r: u16)
    ensures
        r == spec_to_le16(value),
{
    if host_is_little_endian() { value } else { swap16_exec(value) }
}

/// Converts a 32-bit integer from big-endian representation to host order.
pub fn be32_to_host(value: u32) -> (r: u32)
    ensures
        r == spec_to_be32(value),
{
    if host_is_little_endian() { swap32_exec(value) } else { value }
}

/// Converts a 32-bit integer from host order to big-endian representation.
pub fn host_to_be32(value: u32) -> (r: u32)
    ensures
        r == spec_to_be32(value),
{
    if host_is_little_endian() { swap32_exec(value) } else { value }
}

/// Converts a 32-bit integer from host order to little-endian representation.
pub fn host_to_le32(value: u32) -> (r: u32)
    ensures
        r == spec_to_le32(value),
{
    if host_is_little_endian() { value } else { swap32_exec(value) }
}

/// Converts a 32-bit integer from little-endian representation to host order.
pub fn le32_to_host(value: u32) -> (r: u32)
    ensures
        r == spec_to_le32(value),
{
    if host_is_little_endian() { value } else { swap32_exec(value) }
}

/// Converts a 64-bit integer from big-endian representation to host order.
pub fn be64_to_host(value: u64) -> (r: u64)
    ensures
        r == spec_to_be64(value),
{
    if host_is_little_endian() { swap64_exec(value) } else { value }
}

/// Converts a 64-bit integer from host order to big-endian representation.
pub fn host_to_be64(value: u64) -> (r: u64)
    ensures
        r == spec_to_be64(value),
{
    if host_is_little_endian() { swap64_exec(value) } else { value }
}

/// Converts a 64-bit integer from host order to little-endian representation.
pub fn host_to_le64(value: u64) -> (r: u64)
    ensures
        r == spec_to_le64(value),
{
    if host_is_little_endian() { value } else { swap64_exec(value) }
}

/// Converts a 64-bit integer from little-endian representation to host order.
pub fn le64_to_host(value: u64) -> (r: u64)
    ensures
        r == spec_to_le64(value),
{
    if host_is_little_endian() { value } else { swap64_exec(value) }
}

/// Converting to a fixed byte order and back gives the original value, for
/// every width and either fixed order.
pub proof fn lemma_byte_order_round_trip(a: u16, b: u32, c: u64)
    ensures
        spec_to_be16(spec_to_be16(a)) == a,
        spec_to_le16(spec_to_le16(a)) == a,
        spec_to_be32(spec_to_be32(b)) == b,
        spec_to_le32(spec_to_le32(b)) == b,
        spec_to_be64(spec_to_be64(c)) == c,
        spec_to_le64(spec_to_le64(c)) == c,
{
    assert(swap16(swap16(a)) == a) by (bit_vector);
    assert(swap32(swap32(b)) == b) by (bit_vector);
    assert(swap64(swap64(c)) == c) by (bit_vector);
}

} // verus!
