//! Little-endian integer layouts and fixed-width text fields of the HSES wire format.

use vstd::prelude::*;

verus! {

/// The two little-endian bytes of a `u16`.
pub open spec fn le_u16(v: u16) -> Seq<u8> {
    seq![v as u8, (v >> 8u16) as u8]
}

/// The four little-endian bytes of a `u32`.
pub open spec fn le_u32(v: u32) -> Seq<u8> {
    seq![v as u8, (v >> 8u32) as u8, (v >> 16u32) as u8, (v >> 24u32) as u8]
}

/// The two little-endian bytes of an `i16` (two's complement).
pub open spec fn le_i16(v: i16) -> Seq<u8> {
    le_u16(v as u16)
}

/// The four little-endian bytes of an `i32` (two's complement).
pub open spec fn le_i32(v: i32) -> Seq<u8> {
    le_u32(v as u32)
}

/// The `u16` whose little-endian bytes are `b0, b1`.
pub open spec fn u16_of(b0: u8, b1: u8) -> u16 {
    (b0 as u16 | ((b1 as u16) << 8u16)) as u16
}

/// The `u32` whose little-endian bytes are `b0 .. b3`.
pub open spec fn u32_of(b0: u8, b1: u8, b2: u8, b3: u8) -> u32 {
    (b0 as u32 | ((b1 as u32) << 8u32) | ((b2 as u32) << 16u32) | ((b3 as u32) << 24u32)) as u32
}

/// The `i16` whose little-endian two's complement bytes are `b0, b1`.
pub open spec fn i16_of(b0: u8, b1: u8) -> i16 {
    u16_of(b0, b1) as i16
}

/// The `i32` whose little-endian two's complement bytes are `b0 .. b3`.
pub open spec fn i32_of(b0: u8, b1: u8, b2: u8, b3: u8) -> i32 {
    u32_of(b0, b1, b2, b3) as i32
}

/// The `u16` stored little-endian at `off` in `s`.
pub open spec fn u16_at(s: Seq<u8>, off: int) -> u16 {
    u16_of(s[off], s[off + 1])
}

/// The `u32` stored little-endian at `off` in `s`.
pub open spec fn u32_at(s: Seq<u8>, off: int) -> u32 {
    u32_of(s[off], s[off + 1], s[off + 2], s[off + 3])
}

/// The `i16` stored little-endian at `off` in `s`.
pub open spec fn i16_at(s: Seq<u8>, off: int) -> i16 {
    i16_of(s[off], s[off + 1])
}

/// The `i32` stored little-endian at `off` in `s`.
pub open spec fn i32_at(s: Seq<u8>, off: int) -> i32 {
    i32_of(s[off], s[off + 1], s[off + 2], s[off + 3])
}

/// Reading back the bytes of a `u16` gives the same value.
pub proof fn lemma_u16_roundtrip(v: u16)
    ensures
        u16_at(le_u16(v), 0) == v,
{
    let b0 = v as u8;
    let b1 = (v >> 8u16) as u8;
    assert((b0 as u16 | ((b1 as u16) << 8u16)) == v) by (bit_vector)
        requires
            b0 == v as u8,
            b1 == (v >> 8u16) as u8,
    ;
}

/// Reading back the bytes of a `u32` gives the same value.
pub proof fn lemma_u32_roundtrip(v: u32)
    ensures
        u32_at(le_u32(v), 0) == v,
{
    let b0 = v as u8;
    let b1 = (v >> 8u32) as u8;
    let b2 = (v >> 16u32) as u8;
    let b3 = (v >> 24u32) as u8;
    assert((b0 as u32 | ((b1 as u32) << 8u32) | ((b2 as u32) << 16u32) | ((b3 as u32) << 24u32))
        == v) by (bit_vector)
        requires
            b0 == v as u8,
            b1 == (v >> 8u32) as u8,
            b2 == (v >> 16u32) as u8,
            b3 == (v >> 24u32) as u8,
    ;
}

/// Reading back the bytes of an `i16` gives the same value.
pub proof fn lemma_i16_roundtrip(v: i16)
    ensures
        i16_at(le_i16(v), 0) == v,
{
    lemma_u16_roundtrip(v as u16);
    assert(((v as u16) as i16) == v) by (bit_vector);
}

/// Reading back the bytes of an `i32` gives the same value.
pub proof fn lemma_i32_roundtrip(v: i32)
    ensures
        i32_at(le_i32(v), 0) == v,
{
    lemma_u32_roundtrip(v as u32);
    assert(((v as u32) as i32) == v) by (bit_vector);
}

/// Writing back a `u16` read from two bytes gives the same bytes.
pub proof fn lemma_u16_bytes_roundtrip(b0: u8, b1: u8)
    ensures
        le_u16(u16_of(b0, b1)) == seq![b0, b1],
{
    let v = u16_of(b0, b1);
    assert(v as u8 == b0 && (v >> 8u16) as u8 == b1) by (bit_vector)
        requires
            v == (b0 as u16 | ((b1 as u16) << 8u16)) as u16,
    ;
    assert(le_u16(v) =~= seq![b0, b1]);
}

/// Writing back a `u32` read from four bytes gives the same bytes.
pub proof fn lemma_u32_bytes_roundtrip(b0: u8, b1: u8, b2: u8, b3: u8)
    ensures
        le_u32(u32_of(b0, b1, b2, b3)) == seq![b0, b1, b2, b3],
{
    let v = u32_of(b0, b1, b2, b3);
    assert(v as u8 == b0 && (v >> 8u32) as u8 == b1 && (v >> 16u32) as u8 == b2 && (v >> 24u32)
        as u8 == b3) by (bit_vector)
        requires
            v == (b0 as u32 | ((b1 as u32) << 8u32) | ((b2 as u32) << 16u32) | ((b3 as u32)
                << 24u32)) as u32,
    ;
    assert(le_u32(v) =~= seq![b0, b1, b2, b3]);
}

/// Writing back an `i16` read at `off` gives the same two bytes.
pub proof fn lemma_i16_bytes_roundtrip_at(s: Seq<u8>, off: int)
    requires
        0 <= off,
        off + 2 <= s.len(),
    ensures
        le_i16(i16_at(s, off)) == s.subrange(off, off + 2),
{
    let u = u16_of(s[off], s[off + 1]);
    lemma_u16_bytes_roundtrip(s[off], s[off + 1]);
    assert((u as i16) as u16 == u) by (bit_vector);
    assert(s.subrange(off, off + 2) =~= seq![s[off], s[off + 1]]);
}

/// Writing back an `i32` read at `off` gives the same four bytes.
pub proof fn lemma_i32_bytes_roundtrip_at(s: Seq<u8>, off: int)
    requires
        0 <= off,
        off + 4 <= s.len(),
    ensures
        le_i32(i32_at(s, off)) == s.subrange(off, off + 4),
{
    let u = u32_of(s[off], s[off + 1], s[off + 2], s[off + 3]);
    lemma_u32_bytes_roundtrip(s[off], s[off + 1], s[off + 2], s[off + 3]);
    assert((u as i32) as u32 == u) by (bit_vector);
    assert(s.subrange(off, off + 4) =~= seq![s[off], s[off + 1], s[off + 2], s[off + 3]]);
}

/// Appends the little-endian bytes of `v` to `out`.
pub fn push_u16_le(out: &mut Vec<u8>, v: u16)
    ensures
        final(out)@ == old(out)@ + le_u16(v),
{
    out.push(v as u8);
    out.push((v >> 8) as u8);
    assert(out@ =~= old(out)@ + le_u16(v));
}

/// Appends the little-endian bytes of `v` to `out`.
pub fn push_u32_le(out: &mut Vec<u8>, v: u32)
    ensures
        final(out)@ == old(out)@ + le_u32(v),
{
    out.push(v as u8);
    out.push((v >> 8) as u8);
    out.push((v >> 16) as u8);
    out.push((v >> 24) as u8);
    assert(out@ =~= old(out)@ + le_u32(v));
}

/// Appends the little-endian bytes of `v` to `out`.
pub fn push_i16_le(out: &mut Vec<u8>, v: i16)
    ensures
        final(out)@ == old(out)@ + le_i16(v),
{
    push_u16_le(out, v as u16);
}

/// Appends the little-endian bytes of `v` to `out`.
pub fn push_i32_le(out: &mut Vec<u8>, v: i32)
    ensures
        final(out)@ == old(out)@ + le_i32(v),
{
    push_u32_le(out, v as u32);
}

/// The four bytes of `v`, little-endian, as a fresh vector.
pub fn u32_le_vec(v: u32) -> (r: Vec<u8>)
    ensures
        r@ == le_u32(v),
{
    let mut r = Vec::new();
    push_u32_le(&mut r, v);
    assert(r@ =~= le_u32(v));
    r
}

/// Reads the little-endian `u16` at `off`.
pub fn read_u16_le(data: &[u8], off: usize) -> (r: u16)
    requires
        off + 2 <= data@.len(),
    ensures
        r == u16_at(data@, off as int),
{
    (data[off] as u16) | ((data[off + 1] as u16) << 8)
}

/// Reads the little-endian `u32` at `off`.
pub fn read_u32_le(data: &[u8], off: usize) -> (r: u32)
    requires
        off + 4 <= data@.len(),
    ensures
        r == u32_at(data@, off as int),
{
    (data[off] as u32) | ((data[off + 1] as u32) << 8) | ((data[off + 2] as u32) << 16) | ((
    data[off + 3] as u32) << 24)
}

/// Reads the little-endian `i16` at `off`.
pub fn read_i16_le(data: &[u8], off: usize) -> (r: i16)
    requires
        off + 2 <= data@.len(),
    ensures
        r == i16_at(data@, off as int),
{
    read_u16_le(data, off) as i16
}

/// Reads the little-endian `i32` at `off`.
pub fn read_i32_le(data: &[u8], off: usize) -> (r: i32)
    requires
        off + 4 <= data@.len(),
    ensures
        r == i32_at(data@, off as int),
{
    read_u32_le(data, off) as i32
}

/// `bytes` cut to `width` bytes, or padded with zero bytes up to `width`.
pub open spec fn fit_to_width(bytes: Seq<u8>, width: nat) -> Seq<u8> {
    if bytes.len() >= width {
        bytes.take(width as int)
    } else {
        bytes + Seq::new((width - bytes.len()) as nat, |i: int| 0u8)
    }
}

/// Appends `bytes` cut or zero-padded to exactly `width` bytes.
pub fn push_fixed_width(out: &mut Vec<u8>, bytes: &[u8], width: usize)
    ensures
        final(out)@ == old(out)@ + fit_to_width(bytes@, width as nat),
{
    let n = if bytes.len() < width {
        bytes.len()
    } else {
        width
    };
    let mut i: usize = 0;
    while i < n
        invariant
            n <= width,
            n <= bytes@.len(),
            n == bytes@.len() || n == width,
            i <= n,
            out@ == old(out)@ + bytes@.take(i as int),
        decreases n - i,
    {
        out.push(bytes[i]);
        i = i + 1;
        assert(bytes@.take(i as int) =~= bytes@.take((i - 1) as int).push(bytes@[i - 1]));
    }
    let mut j: usize = n;
    while j < width
        invariant
            n <= j <= width,
            n <= bytes@.len(),
            n == bytes@.len() || n == width,
            out@ == old(out)@ + bytes@.take(n as int) + Seq::new((j - n) as nat, |k: int| 0u8),
        decreases width - j,
    {
        out.push(0u8);
        j = j + 1;
        assert(Seq::new((j - n) as nat, |k: int| 0u8) =~= Seq::new(
            (j - 1 - n) as nat,
            |k: int| 0u8,
        ).push(0u8));
    }
    if bytes.len() >= width {
        assert(Seq::new((width - n) as nat, |k: int| 0u8) =~= Seq::<u8>::empty());
        assert(out@ =~= old(out)@ + fit_to_width(bytes@, width as nat));
    } else {
        assert(bytes@.take(n as int) =~= bytes@);
        assert(out@ =~= old(out)@ + fit_to_width(bytes@, width as nat));
    }
}

/// The index of the first zero byte of `s`, or its length when it holds none.
pub open spec fn nul_index(s: Seq<u8>) -> int {
    if exists|i: int| 0 <= i < s.len() && s[i] == 0 {
        choose|i: int| 0 <= i < s.len() && s[i] == 0 && forall|j: int| 0 <= j < i ==> s[j] != 0
    } else {
        s.len() as int
    }
}

/// The bytes of `s` before its first zero byte.
pub open spec fn before_nul(s: Seq<u8>) -> Seq<u8> {
    s.take(nul_index(s))
}

/// The least index holding a zero is unique.
pub proof fn lemma_nul_index(s: Seq<u8>, k: int)
    requires
        0 <= k <= s.len(),
        forall|j: int| 0 <= j < k ==> s[j] != 0,
        k < s.len() ==> s[k] == 0,
    ensures
        nul_index(s) == k,
{
    if k < s.len() {
        assert(exists|i: int| 0 <= i < s.len() && s[i] == 0);
        let c = choose|i: int| 0 <= i < s.len() && s[i] == 0 && forall|j: int| 0 <= j < i ==> s[j] != 0;
        assert(0 <= k < s.len() && s[k] == 0 && forall|j: int| 0 <= j < k ==> s[j] != 0);
        if c < k {
            assert(s[c] != 0);
        } else if c > k {
            assert(s[k] != 0);
        }
    }
}

/// Finds the first zero byte in `data[start..end]`, relative to `start`.
pub fn find_nul(data: &[u8], start: usize, end: usize) -> (r: usize)
    requires
        start <= end <= data@.len(),
    ensures
        r == nul_index(data@.subrange(start as int, end as int)),
        r <= end - start,
{
    let ghost s = data@.subrange(start as int, end as int);
    let mut i: usize = start;
    while i < end
        invariant
            start <= i <= end <= data@.len(),
            s == data@.subrange(start as int, end as int),
            forall|j: int| 0 <= j < i - start ==> s[j] != 0,
        decreases end - i,
    {
        if data[i] == 0 {
            proof {
                lemma_nul_index(s, (i - start) as int);
            }
            return i - start;
        }
        i = i + 1;
    }
    proof {
        lemma_nul_index(s, (end - start) as int);
    }
    end - start
}

/// Copies `data[start..end]` into a fresh vector.
pub fn copy_range(data: &[u8], start: usize, end: usize) -> (r: Vec<u8>)
    requires
        start <= end <= data@.len(),
    ensures
        r@ == data@.subrange(start as int, end as int),
{
    let mut r = Vec::new();
    let mut i = start;
    while i < end
        invariant
            start <= i <= end <= data@.len(),
            r@ == data@.subrange(start as int, i as int),
        decreases end - i,
    {
        r.push(data[i]);
        i = i + 1;
        assert(r@ =~= data@.subrange(start as int, i as int));
    }
    r
}

/// Appends every byte of `bytes` to `out`.
pub fn push_all(out: &mut Vec<u8>, bytes: &[u8])
    ensures
        final(out)@ == old(out)@ + bytes@,
{
    let mut i: usize = 0;
    while i < bytes.len()
        invariant
            i <= bytes@.len(),
            out@ == old(out)@ + bytes@.take(i as int),
        decreases bytes@.len() - i,
    {
        out.push(bytes[i]);
        i = i + 1;
        assert(bytes@.take(i as int) =~= bytes@.take((i - 1) as int).push(bytes@[i - 1]));
    }
    assert(bytes@.take(i as int) =~= bytes@);
}

} // verus!
