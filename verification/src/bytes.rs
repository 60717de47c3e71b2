use vstd::prelude::*;

verus! {

/// The number that eight bytes spell in little-endian order.
pub open spec fn le_u64(b: Seq<u8>) -> nat
    recommends
        b.len() == 8,
{
    (b[0] as nat) + (b[1] as nat) * 0x100 + (b[2] as nat) * 0x1_0000 + (b[3] as nat) * 0x100_0000
        + (b[4] as nat) * 0x1_0000_0000 + (b[5] as nat) * 0x100_0000_0000 + (b[6] as nat)
        * 0x1_0000_0000_0000 + (b[7] as nat) * 0x100_0000_0000_0000
}

/// The eight bytes that spell `v` in little-endian order.
pub open spec fn u64_le_bytes(v: u64) -> Seq<u8> {
    seq![
        (v % 0x100) as u8,
        (v / 0x100 % 0x100) as u8,
        (v / 0x1_0000 % 0x100) as u8,
        (v / 0x100_0000 % 0x100) as u8,
        (v / 0x1_0000_0000 % 0x100) as u8,
        (v / 0x100_0000_0000 % 0x100) as u8,
        (v / 0x1_0000_0000_0000 % 0x100) as u8,
        (v / 0x100_0000_0000_0000 % 0x100) as u8,
    ]
}

/// Reading back the bytes written for `v` gives `v`.
pub proof fn lemma_le_u64_of_bytes(v: u64)
    ensures
        u64_le_bytes(v).len() == 8,
        le_u64(u64_le_bytes(v)) == v,
{
    let q1 = v / 0x100;
    let q2 = v / 0x1_0000;
    let q3 = v / 0x100_0000;
    let q4 = v / 0x1_0000_0000;
    let q5 = v / 0x100_0000_0000;
    let q6 = v / 0x1_0000_0000_0000;
    let q7 = v / 0x100_0000_0000_0000;
    assert(v == q1 * 0x100 + v % 0x100);
    assert(q1 == q2 * 0x100 + q1 % 0x100);
    assert(q2 == q3 * 0x100 + q2 % 0x100);
    assert(q3 == q4 * 0x100 + q3 % 0x100);
    assert(q4 == q5 * 0x100 + q4 % 0x100);
    assert(q5 == q6 * 0x100 + q5 % 0x100);
    assert(q6 == q7 * 0x100 + q6 % 0x100);
    assert(q7 == q7 % 0x100);
}

/// Two numbers with the same little-endian bytes are the same number.
pub proof fn lemma_u64_le_bytes_injective(v: u64, w: u64)
    requires
        u64_le_bytes(v) == u64_le_bytes(w),
    ensures
        v == w,
{
    lemma_le_u64_of_bytes(v);
    lemma_le_u64_of_bytes(w);
}

/// Reads the little-endian `u64` that starts at `offset`.
pub fn read_u64_le(data: &[u8], offset: usize) -> (v: u64)
    requires
        offset + 8 <= data@.len(),
    ensures
        v == le_u64(data@.subrange(offset as int, offset + 8)),
{
    let n: usize = data.len();
    let ghost b = data@.subrange(offset as int, offset + 8);
    assert(forall|i: int| 0 <= i < 8 ==> b[i] == data@[offset + i]);
    let mut v: u64 = data[offset + 7] as u64;
    v = v * 0x100 + data[offset + 6] as u64;
    v = v * 0x100 + data[offset + 5] as u64;
    v = v * 0x100 + data[offset + 4] as u64;
    v = v * 0x100 + data[offset + 3] as u64;
    v = v * 0x100 + data[offset + 2] as u64;
    v = v * 0x100 + data[offset + 1] as u64;
    v = v * 0x100 + data[offset] as u64;
    v
}

/// Appends the little-endian bytes of `v` to `out`.
pub fn push_u64_le(out: &mut Vec<u8>, v: u64)
    ensures
        final(out)@ == old(out)@ + u64_le_bytes(v),
{
    let ghost before = out@;
    out.push((v % 0x100) as u8);
    out.push((v / 0x100 % 0x100) as u8);
    out.push((v / 0x1_0000 % 0x100) as u8);
    out.push((v / 0x100_0000 % 0x100) as u8);
    out.push((v / 0x1_0000_0000 % 0x100) as u8);
    out.push((v / 0x100_0000_0000 % 0x100) as u8);
    out.push((v / 0x1_0000_0000_0000 % 0x100) as u8);
    out.push((v / 0x100_0000_0000_0000 % 0x100) as u8);
    assert(out@ =~= before + u64_le_bytes(v));
}

} // verus!
