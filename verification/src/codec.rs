use vstd::prelude::*;

verus! {

/// 256 to the power `width`: how many values `width` bytes can tell apart.
pub open spec fn radix(width: nat) -> nat
    decreases width,
{
    if width == 0 {
        1
    } else {
        256 * radix((width - 1) as nat)
    }
}

/// The `width` low-order bytes of `value`, least significant first.
pub open spec fn le_bytes(value: nat, width: nat) -> Seq<u8>
    decreases width,
{
    if width == 0 {
        Seq::empty()
    } else {
        seq![(value % 256) as u8] + le_bytes(value / 256, (width - 1) as nat)
    }
}

/// The number that `bytes` spell, least significant byte first.
pub open spec fn le_value(bytes: Seq<u8>) -> nat
    decreases bytes.len(),
{
    if bytes.len() == 0 {
        0
    } else {
        bytes[0] as nat + 256 * le_value(bytes.drop_first())
    }
}

/// The unsigned number that stands for `value` in 64-bit two's complement.
pub open spec fn twos_complement(value: i64) -> nat {
    if value >= 0 {
        value as nat
    } else {
        (value + 0x1_0000_0000_0000_0000) as nat
    }
}

/// The eight bytes of a `u64` on the wire.
pub open spec fn u64_encoding(value: u64) -> Seq<u8> {
    le_bytes(value as nat, 8)
}

/// The eight bytes of an `i64` on the wire.
pub open spec fn i64_encoding(value: i64) -> Seq<u8> {
    le_bytes(twos_complement(value), 8)
}

/// The single byte of a `bool` on the wire.
pub open spec fn bool_encoding(value: bool) -> Seq<u8> {
    seq![if value { 1u8 } else { 0u8 }]
}

/// The radix of no byte, of one byte and of eight bytes.
pub proof fn lemma_radix_values()
    ensures
        radix(0) == 1,
        radix(1) == 0x100,
        radix(8) == 0x1_0000_0000_0000_0000,
{
    reveal_with_fuel(radix, 9);
}

/// More bytes tell more values apart, and even no byte tells one.
pub proof fn lemma_radix_monotonic(a: nat, b: nat)
    requires
        a <= b,
    ensures
        0 < radix(a) <= radix(b),
    decreases b,
{
    if b == 0 {
    } else if a == b {
        lemma_radix_monotonic((a - 1) as nat, (b - 1) as nat);
    } else {
        lemma_radix_monotonic(a, (b - 1) as nat);
    }
}

/// A value written at a width takes that many bytes.
pub proof fn lemma_le_bytes_len(value: nat, width: nat)
    ensures
        le_bytes(value, width).len() == width,
    decreases width,
{
    if width > 0 {
        lemma_le_bytes_len(value / 256, (width - 1) as nat);
    }
}

/// What `n` bytes spell stays below 256 to the power `n`.
pub proof fn lemma_le_value_bound(bytes: Seq<u8>)
    ensures
        le_value(bytes) < radix(bytes.len()),
    decreases bytes.len(),
{
    if bytes.len() > 0 {
        lemma_le_value_bound(bytes.drop_first());
    }
}

/// Reading back the bytes written for a value that fits gives the value.
pub proof fn lemma_le_value_of_bytes(value: nat, width: nat)
    requires
        value < radix(width),
    ensures
        le_value(le_bytes(value, width)) == value,
    decreases width,
{
    if width > 0 {
        let rest = le_bytes(value / 256, (width - 1) as nat);
        let all = le_bytes(value, width);
        assert(all.drop_first() =~= rest);
        lemma_le_value_of_bytes(value / 256, (width - 1) as nat);
    }
}

/// Writing the value that bytes spell, at their width, gives the bytes back.
pub proof fn lemma_le_bytes_of_value(bytes: Seq<u8>)
    ensures
        le_bytes(le_value(bytes), bytes.len()) == bytes,
    decreases bytes.len(),
{
    if bytes.len() > 0 {
        let rest = bytes.drop_first();
        lemma_le_bytes_of_value(rest);
        let value = le_value(bytes);
        assert(value % 256 == bytes[0] as nat);
        assert(value / 256 == le_value(rest));
        assert(le_bytes(value, bytes.len()) =~= bytes);
    }
}

/// A `u64` takes eight bytes, and distinct values take distinct bytes.
pub proof fn lemma_u64_encoding(a: u64, b: u64)
    ensures
        u64_encoding(a).len() == 8,
        u64_encoding(a) == u64_encoding(b) ==> a == b,
{
    lemma_radix_values();
    lemma_le_bytes_len(a as nat, 8);
    lemma_le_value_of_bytes(a as nat, 8);
    lemma_le_value_of_bytes(b as nat, 8);
}

/// An `i64` takes eight bytes, and distinct values take distinct bytes.
pub proof fn lemma_i64_encoding(a: i64, b: i64)
    ensures
        i64_encoding(a).len() == 8,
        i64_encoding(a) == i64_encoding(b) ==> a == b,
{
    lemma_radix_values();
    lemma_le_bytes_len(twos_complement(a), 8);
    lemma_le_value_of_bytes(twos_complement(a), 8);
    lemma_le_value_of_bytes(twos_complement(b), 8);
}

/// Every string of eight bytes is the encoding of some `u64`.
pub proof fn lemma_u64_of(bytes: Seq<u8>) -> (value: u64)
    requires
        bytes.len() == 8,
    ensures
        u64_encoding(value) == bytes,
{
    lemma_radix_values();
    lemma_le_value_bound(bytes);
    lemma_le_bytes_of_value(bytes);
    le_value(bytes) as u64
}

/// Every string of eight bytes is the encoding of some `i64`.
pub proof fn lemma_i64_of(bytes: Seq<u8>) -> (value: i64)
    requires
        bytes.len() == 8,
    ensures
        i64_encoding(value) == bytes,
{
    lemma_radix_values();
    lemma_le_value_bound(bytes);
    lemma_le_bytes_of_value(bytes);
    let unsigned = le_value(bytes);
    if unsigned < 0x8000_0000_0000_0000 {
        unsigned as i64
    } else {
        (unsigned - 0x1_0000_0000_0000_0000) as i64
    }
}

/// Appends the eight little-endian bytes of `value` to `out`.
pub fn write_u64(out: &mut Vec<u8>, value: u64)
    ensures
        final(out)@ == old(out)@ + u64_encoding(value),
{
    let ghost before = out@;
    let mut rest: u64 = value;
    let mut i: usize = 0;
    while i < 8
        invariant
            i <= 8,
            out@ + le_bytes(rest as nat, (8 - i) as nat) == before + le_bytes(value as nat, 8),
        decreases 8 - i,
    {
        let ghost tail = le_bytes(rest as nat / 256, (8 - i - 1) as nat);
        assert(out@.push((rest % 256) as u8) + tail =~= out@ + le_bytes(
            rest as nat,
            (8 - i) as nat,
        ));
        out.push((rest % 256) as u8);
        rest = rest / 256;
        i += 1;
    }
    assert(out@ + le_bytes(rest as nat, 0) =~= out@);
}

/// Appends the eight little-endian bytes of `value`, in two's complement, to
/// `out`.
pub fn write_i64(out: &mut Vec<u8>, value: i64)
    ensures
        final(out)@ == old(out)@ + i64_encoding(value),
{
    let unsigned: u64 = if value >= 0 {
        value as u64
    } else {
        (value - i64::MIN) as u64 + 0x8000_0000_0000_0000u64
    };
    write_u64(out, unsigned);
}

/// Appends the byte that stands for `value` to `out`.
pub fn write_bool(out: &mut Vec<u8>, value: bool)
    ensures
        final(out)@ == old(out)@ + bool_encoding(value),
{
    let byte: u8 = if value { 1 } else { 0 };
    out.push(byte);
    assert(out@ =~= old(out)@ + bool_encoding(value));
}

/// The `u64` whose little-endian bytes are the eight bytes of `bytes` that
/// start at `at`.
pub(crate) fn read_u64(bytes: &[u8], at: usize) -> (r: u64)
    requires
        at + 8 <= bytes@.len(),
    ensures
        r == le_value(bytes@.subrange(at as int, at + 8)),
        u64_encoding(r) == bytes@.subrange(at as int, at + 8),
{
    let len: usize = bytes.len();
    let mut acc: u64 = 0;
    let mut i: usize = 8;
    proof {
        lemma_radix_values();
        assert(bytes@.subrange(at + 8, at + 8) =~= Seq::<u8>::empty());
    }
    while i > 0
        invariant
            i <= 8,
            len == bytes@.len(),
            at + 8 <= len,
            acc == le_value(bytes@.subrange(at + i, at + 8)),
            acc < radix((8 - i) as nat),
        decreases i,
    {
        i -= 1;
        proof {
            let window = bytes@.subrange(at + i, at + 8);
            assert(window.drop_first() =~= bytes@.subrange(at + i + 1, at + 8));
            lemma_radix_monotonic((8 - i) as nat, 8);
            lemma_radix_values();
        }
        acc = acc * 256 + bytes[at + i] as u64;
    }
    proof {
        lemma_le_bytes_of_value(bytes@.subrange(at as int, at + 8));
    }
    acc
}

/// The `i64` whose two's complement is spelled by the eight bytes of `bytes`
/// that start at `at`.
pub(crate) fn read_i64(bytes: &[u8], at: usize) -> (r: i64)
    requires
        at + 8 <= bytes@.len(),
    ensures
        i64_encoding(r) == bytes@.subrange(at as int, at + 8),
{
    let unsigned: u64 = read_u64(bytes, at);
    if unsigned < 0x8000_0000_0000_0000u64 {
        unsigned as i64
    } else {
        (unsigned - 0x8000_0000_0000_0000u64) as i64 + i64::MIN
    }
}

} // verus!
