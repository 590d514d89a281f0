//! The size header that the firmware's allocator hooks put in front of every
//! block they hand to the radar software: the requested size as a
//! little-endian `u16`, read back when the block is released.

use vstd::prelude::*;

verus! {

/// Bytes taken by the size header in front of each block.
pub const STORAGE_SIZE_BYTES: usize = 2;

/// The header recording `size`: its low byte, then its high byte.
pub open spec fn header_bytes(size: nat) -> Seq<u8> {
    seq![(size % 256) as u8, (size / 256) as u8]
}

/// The size a two-byte little-endian header records.
pub open spec fn header_value(header: Seq<u8>) -> nat {
    header[0] as nat + 256 * (header[1] as nat)
}

/// Bytes of the block that serves a request of `size` bytes: the header,
/// then the requested bytes.
pub open spec fn allocation_block_size(size: nat) -> nat {
    size + STORAGE_SIZE_BYTES as nat
}

/// Where the caller's part of a block starts, counted from the block's start.
pub open spec fn allocation_user_offset() -> nat {
    STORAGE_SIZE_BYTES as nat
}

/// Bytes released for a block whose header reads `header`: the size it
/// records plus the header.
pub open spec fn release_block_size(header: Seq<u8>) -> nat {
    header_value(header) + STORAGE_SIZE_BYTES as nat
}

/// How far before the caller's part the block, and its header, starts.
pub open spec fn release_header_offset() -> nat {
    STORAGE_SIZE_BYTES as nat
}

/// The little-endian header recording `size`.
pub fn size_header(size: u16) -> (header: [u8; 2])
    ensures
        header@ == header_bytes(size as nat),
        header[0] as nat == size as nat % 256,
        header[1] as nat == size as nat / 256,
{
    let header = [(size % 256) as u8, (size / 256) as u8];
    assert(header@ =~= header_bytes(size as nat));
    header
}

/// The size a little-endian header records.
pub fn header_size(header: [u8; 2]) -> (size: u16)
    ensures
        size == header_value(header@),
        size as nat == header[0] as nat + 256 * (header[1] as nat),
{
    let low = header[0] as u16;
    let high = header[1] as u16;
    low + 256 * high
}

/// How a request for `size` bytes is served: a block of `block_size` bytes
/// starting with `header`, of which the caller gets the part from
/// `user_offset` on.
#[derive(Clone, Copy, PartialEq, Eq, Debug)]
pub struct Allocation {
    pub header: [u8; 2],
    pub block_size: usize,
    pub user_offset: usize,
}

/// How a block handed out at some address is given back: its header starts
/// `header_offset` bytes before that address, and `block_size` bytes are
/// released from there.
#[derive(Clone, Copy, PartialEq, Eq, Debug)]
pub struct Release {
    pub header_offset: usize,
    pub block_size: usize,
}

/// Plans the block for a request of `size` bytes: the size header followed by
/// the requested bytes. A size the header cannot record (above 65535) is
/// refused with `None`.
pub fn plan_allocation(size: usize) -> (plan: Option<Allocation>)
    ensures
        plan is Some <==> size <= u16::MAX,
        plan matches Some(a) ==> {
            &&& a.header@ == header_bytes(size as nat)
            &&& a.block_size == allocation_block_size(size as nat)
            &&& a.user_offset == allocation_user_offset()
            &&& a.header[0] as nat == size % 256
            &&& a.header[1] as nat == size / 256
            &&& a.block_size == size + STORAGE_SIZE_BYTES
            &&& a.user_offset == STORAGE_SIZE_BYTES
            &&& a.block_size - a.user_offset == size
        },
{
    if size > 65535 {
        return Option::None;
    }
    let header = size_header(size as u16);
    Some(Allocation { header, block_size: size + STORAGE_SIZE_BYTES, user_offset: STORAGE_SIZE_BYTES })
}

/// Plans the release of a block whose header reads `header`: the header sits
/// just before the caller's part, and the whole block is released, the size
/// it records plus the header itself.
pub fn plan_release(header: [u8; 2]) -> (plan: Release)
    ensures
        plan.header_offset == release_header_offset(),
        plan.block_size == release_block_size(header@),
        plan.header_offset == STORAGE_SIZE_BYTES,
        plan.block_size == header[0] as nat + 256 * (header[1] as nat) + STORAGE_SIZE_BYTES,
{
    let size = header_size(header);
    Release { header_offset: STORAGE_SIZE_BYTES, block_size: size as usize + STORAGE_SIZE_BYTES }
}

/// Reading a header back gives the size it was written with.
pub proof fn lemma_header_round_trip(size: nat)
    requires
        size <= u16::MAX,
    ensures
        header_bytes(size).len() == 2,
        header_value(header_bytes(size)) == size,
{
}

/// Distinct sizes get distinct headers.
pub proof fn lemma_header_injective(a: nat, b: nat)
    requires
        a <= u16::MAX,
        b <= u16::MAX,
        header_bytes(a) == header_bytes(b),
    ensures
        a == b,
{
    lemma_header_round_trip(a);
    lemma_header_round_trip(b);
}

/// The release planned from the header that `plan_allocation(size)` wrote
/// gives back exactly the block that was taken: it steps back by the offset
/// at which the caller's part started, to the start of the block, and
/// releases the same number of bytes, header included.
pub proof fn lemma_release_matches_allocation(size: nat)
    requires
        size <= u16::MAX,
    ensures
        release_block_size(header_bytes(size)) == allocation_block_size(size),
        release_header_offset() == allocation_user_offset(),
{
    lemma_header_round_trip(size);
}

/// The header is little-endian: its first byte is the size's low byte and its
/// second byte the high byte, for every size a header can record.
pub proof fn lemma_header_little_endian(size: nat)
    requires
        size <= u16::MAX,
    ensures
        header_bytes(size).len() == 2,
        header_bytes(size)[0] as nat == size % 256,
        header_bytes(size)[1] as nat == size / 256,
        size == header_bytes(size)[0] as nat + 256 * (header_bytes(size)[1] as nat),
{
}

/// A two-byte header is read little-endian: low byte first, high byte
/// second, and every header records a size below 65536.
pub proof fn lemma_header_value_little_endian(header: Seq<u8>)
    requires
        header.len() == 2,
    ensures
        header_value(header) == header[0] as nat + 256 * (header[1] as nat),
        header_value(header) <= u16::MAX,
{
}

/// The block planned for a request is the request plus the two header bytes,
/// the caller's part starts right after the header and holds exactly the
/// requested bytes, and releasing a header gives back the recorded size plus
/// the header.
pub proof fn lemma_block_holds_header_and_request(size: nat, header: Seq<u8>)
    requires
        header.len() == 2,
    ensures
        allocation_block_size(size) == size + 2,
        allocation_user_offset() == 2,
        allocation_block_size(size) - allocation_user_offset() == size,
        release_header_offset() == 2,
        release_block_size(header) == header[0] as nat + 256 * (header[1] as nat) + 2,
{
}

} // verus!
