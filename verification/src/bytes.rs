//! Numbers in byte buffers, least significant byte first.
use vstd::prelude::*;

verus! {

/// The four bytes of `n`.
pub open spec fn le32(n: u32) -> Seq<u8> {
    seq![
        (n % 256) as u8,
        (n / 256 % 256) as u8,
        (n / 65536 % 256) as u8,
        (n / 16777216) as u8,
    ]
}

/// The number in the four bytes at `at`.
pub open spec fn le32_at(buf: Seq<u8>, at: int) -> int {
    buf[at] + 256 * buf[at + 1] + 65536 * buf[at + 2] + 16777216 * buf[at + 3]
}

/// Appends the four bytes of `n`.
pub fn push_le32(out: &mut Vec<u8>, n: u32)
    ensures
        final(out)@ == old(out)@ + le32(n),
{
    out.push((n % 256) as u8);
    out.push((n / 256 % 256) as u8);
    out.push((n / 65536 % 256) as u8);
    out.push((n / 16777216) as u8);
    assert(out@ =~= old(out)@ + le32(n));
}

/// The number in the four bytes at `at`.
pub fn read_le32(buf: &Vec<u8>, at: usize) -> (n: u32)
    requires
        at + 4 <= buf@.len(),
    ensures
        n == le32_at(buf@, at as int),
{
    let last: usize = buf.len() - 1;
    assert(at + 3 <= last);
    buf[at] as u32 + 256 * buf[at + 1] as u32 + 65536 * buf[at + 2] as u32 + 16777216
        * buf[at + 3] as u32
}

/// A number reads back from its bytes, wherever they stand.
pub proof fn law_le32_reads_back(head: Seq<u8>, n: u32, tail: Seq<u8>)
    ensures
        le32_at(head + le32(n) + tail, head.len() as int) == n,
{
    let buf = head + le32(n) + tail;
    let h = head.len() as int;
    assert(buf[h] == le32(n)[0]);
    assert(buf[h + 1] == le32(n)[1]);
    assert(buf[h + 2] == le32(n)[2]);
    assert(buf[h + 3] == le32(n)[3]);
    assert(n / 256 / 256 == n / 65536);
    assert(n / 65536 / 256 == n / 16777216);
}

/// A number's bytes stand lowest first.
pub proof fn law_lowest_byte_is_first(n: u32)
    ensures
        le32(n).len() == 4,
        le32(n)[0] == n % 256,
        le32(n)[1] == (n / 256) % 256,
        le32(n)[2] == (n / 65536) % 256,
        le32(n)[3] == n / 16777216,
        le32(n)[0] + 256 * (le32(n)[1] + 256 * (le32(n)[2] + 256 * le32(n)[3])) == n,
{
    law_le32_reads_back(seq![], n, seq![]);
    assert(seq![] + le32(n) + seq![] =~= le32(n));
}

} // verus!
