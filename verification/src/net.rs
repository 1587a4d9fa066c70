use vstd::prelude::*;
use vstd::slice::slice_subrange;

verus! {

/// Big-endian value of a byte sequence, as an unbounded integer.
pub open spec fn be_value(bytes: Seq<u8>) -> nat
    decreases bytes.len(),
{
    if bytes.len() == 0 {
        0
    } else {
        be_value(bytes.drop_last()) * 256 + bytes.last() as nat
    }
}

/// The IPv4 address stored big-endian in the four bytes at `off`.
pub open spec fn ipv4_be(packet: Seq<u8>, off: int) -> u32 {
    (packet[off] as int * 0x1000000 + packet[off + 1] as int * 0x10000 + packet[off + 2] as int
        * 0x100 + packet[off + 3] as int) as u32
}

/// Source address field of an IPv4 header (bytes 12..16), when the packet is long enough.
pub open spec fn spec_ipv4_source(packet: Seq<u8>) -> Option<u32> {
    if packet.len() >= 16 {
        Some(ipv4_be(packet, 12))
    } else {
        None
    }
}

/// Destination address field of an IPv4 header (bytes 16..20), when the packet is long enough.
pub open spec fn spec_ipv4_target(packet: Seq<u8>) -> Option<u32> {
    if packet.len() >= 20 {
        Some(ipv4_be(packet, 16))
    } else {
        None
    }
}

proof fn lemma_shift_or(r: u32, v: u8)
    ensures
        (r << 8u32) | (v as u32) == ((r as int * 256 + v as int) % 0x1_0000_0000) as u32,
{
    assert((r << 8u32) | (v as u32) == ((r as int * 256 + v as int) % 0x1_0000_0000) as u32)
        by (bit_vector);
}

proof fn lemma_fold_step(x: int, v: int)
    requires
        x >= 0,
        0 <= v < 256,
    ensures
        ((x % 0x1_0000_0000) * 256 + v) % 0x1_0000_0000 == (x * 256 + v) % 0x1_0000_0000,
{
    let m: int = 0x1_0000_0000;
    vstd::arithmetic::div_mod::lemma_mul_mod_noop_left(x, 256, m);
    vstd::arithmetic::div_mod::lemma_add_mod_noop((x % m) * 256, v, m);
    vstd::arithmetic::div_mod::lemma_add_mod_noop(x * 256, v, m);
    vstd::arithmetic::div_mod::lemma_mod_twice((x % m) * 256, m);
}

/// Folds the bytes into a `u32`, most significant first; only the last
/// four bytes survive the shifts.
fn parse_ipv4(bin: &[u8]) -> (r: u32)
    ensures
        r as int == be_value(bin@) % 0x1_0000_0000,
{
    let mut result: u32 = 0;
    let mut i: usize = 0;
    while i < bin.len()
        invariant
            i <= bin@.len(),
            result as int == be_value(bin@.take(i as int)) % 0x1_0000_0000,
        decreases bin@.len() - i,
    {
        let v: u8 = bin[i];
        proof {
            assert(bin@.take(i + 1).drop_last() =~= bin@.take(i as int));
            lemma_shift_or(result, v);
            lemma_fold_step(be_value(bin@.take(i as int)) as int, v as int);
        }
        result = (result << 8u32) | (v as u32);
        i = i + 1;
    }
    proof {
        assert(bin@.take(bin@.len() as int) =~= bin@);
    }
    result
}

proof fn lemma_four_bytes(s: Seq<u8>)
    requires
        s.len() == 4,
    ensures
        be_value(s) % 0x1_0000_0000 == ipv4_be(s, 0) as int,
{
    let s3 = s.drop_last();
    let s2 = s3.drop_last();
    let s1 = s2.drop_last();
    let s0 = s1.drop_last();
    assert(s0.len() == 0);
    assert(be_value(s0) == 0);
    assert(s1.last() == s[0]);
    assert(s2.last() == s[1]);
    assert(s3.last() == s[2]);
    assert(s.last() == s[3]);
    assert(be_value(s1) == s[0] as int);
    assert(be_value(s2) == s[0] as int * 256 + s[1] as int);
    assert(be_value(s3) == (s[0] as int * 256 + s[1] as int) * 256 + s[2] as int);
    assert(be_value(s) == ((s[0] as int * 256 + s[1] as int) * 256 + s[2] as int) * 256
        + s[3] as int);
    assert(be_value(s) < 0x1_0000_0000);
    vstd::arithmetic::div_mod::lemma_small_mod(be_value(s), 0x1_0000_0000);
}

/// Reads the IPv4 address in the four bytes at `off`.
fn read_ipv4_at(packet: &[u8], off: usize) -> (r: u32)
    requires
        off <= 16,
        off + 4 <= packet@.len(),
    ensures
        r == ipv4_be(packet@, off as int),
{
    let bin = slice_subrange(packet, off, off + 4);
    let r = parse_ipv4(bin);
    proof {
        lemma_four_bytes(bin@);
    }
    r
}

/// The source address of an IPv4 packet, or `None` when the packet is
/// shorter than the 16 bytes that hold it.
pub fn get_ipv4_source(packet: &[u8]) -> (r: Option<u32>)
    ensures
        r == spec_ipv4_source(packet@),
        packet@.len() >= 16 ==> r == Some(
            (packet@[12] as int * 0x1000000 + packet@[13] as int * 0x10000 + packet@[14] as int
                * 0x100 + packet@[15] as int) as u32,
        ),
        packet@.len() < 16 ==> r is None,
{
    if packet.len() >= 16 {
        Some(read_ipv4_at(packet, 12))
    } else {
        None
    }
}

/// The destination address of an IPv4 packet, or `None` when the packet is
/// shorter than the 20 bytes that hold it.
pub fn get_ipv4_target(packet: &[u8]) -> (r: Option<u32>)
    ensures
        r == spec_ipv4_target(packet@),
        packet@.len() >= 20 ==> r == Some(
            (packet@[16] as int * 0x1000000 + packet@[17] as int * 0x10000 + packet@[18] as int
                * 0x100 + packet@[19] as int) as u32,
        ),
        packet@.len() < 20 ==> r is None,
{
    if packet.len() >= 20 {
        Some(read_ipv4_at(packet, 16))
    } else {
        None
    }
}

/// The source address is the big-endian value of bytes 12..16 for every
/// packet long enough to hold it, whatever its length, and there is none
/// below 16 bytes. Its four bytes, most significant first, are those bytes.
pub proof fn lemma_source_is_bytes_12_to_16(packet: Seq<u8>)
    ensures
        packet.len() >= 16 ==> spec_ipv4_source(packet) == Some(
            (packet[12] as int * 0x1000000 + packet[13] as int * 0x10000 + packet[14] as int
                * 0x100 + packet[15] as int) as u32,
        ),
        packet.len() >= 16 ==> {
            let a = spec_ipv4_source(packet)->Some_0;
            &&& a as int / 0x1000000 == packet[12] as int
            &&& (a as int / 0x10000) % 0x100 == packet[13] as int
            &&& (a as int / 0x100) % 0x100 == packet[14] as int
            &&& a as int % 0x100 == packet[15] as int
        },
        packet.len() < 16 ==> spec_ipv4_source(packet) is None,
{
}

/// The destination address is the big-endian value of bytes 16..20 for
/// every packet long enough to hold it, whatever its length (a whole
/// receive buffer included), and there is none below 20 bytes. Its four
/// bytes, most significant first, are those bytes.
pub proof fn lemma_target_is_bytes_16_to_20(packet: Seq<u8>)
    ensures
        packet.len() >= 20 ==> spec_ipv4_target(packet) == Some(
            (packet[16] as int * 0x1000000 + packet[17] as int * 0x10000 + packet[18] as int
                * 0x100 + packet[19] as int) as u32,
        ),
        packet.len() >= 20 ==> {
            let a = spec_ipv4_target(packet)->Some_0;
            &&& a as int / 0x1000000 == packet[16] as int
            &&& (a as int / 0x10000) % 0x100 == packet[17] as int
            &&& (a as int / 0x100) % 0x100 == packet[18] as int
            &&& a as int % 0x100 == packet[19] as int
        },
        packet.len() < 20 ==> spec_ipv4_target(packet) is None,
{
}

/// The source and destination fields are distinct parts of the header: a
/// packet whose source bytes differ from its destination bytes has
/// different source and destination addresses.
pub proof fn lemma_source_and_target_differ(packet: Seq<u8>)
    requires
        packet.len() >= 20,
        packet.subrange(12, 16) != packet.subrange(16, 20),
    ensures
        spec_ipv4_source(packet) != spec_ipv4_target(packet),
{
    lemma_source_is_bytes_12_to_16(packet);
    lemma_target_is_bytes_16_to_20(packet);
    if spec_ipv4_source(packet) == spec_ipv4_target(packet) {
        assert(packet.subrange(12, 16) =~= packet.subrange(16, 20));
    }
}

} // verus!
