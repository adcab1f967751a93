//! Little-endian byte algebra for word-granular tracee memory access.
//!
//! The kernel's tracing facility reads and writes one 64-bit word at a time.
//! Typed access to arbitrary byte ranges is built by splitting words into
//! bytes, splicing new bytes over the front of a word, and assembling words
//! back from bytes.  Everything here is pure computation over byte vectors.
use vstd::arithmetic::div_mod::lemma_mod_breakdown;
use vstd::prelude::*;

verus! {

/// The value of a byte sequence read as a little-endian unsigned integer:
/// the first byte is the least significant.
pub open spec fn le_val(b: Seq<u8>) -> nat
    decreases b.len(),
{
    if b.len() == 0 {
        0
    } else {
        b[0] as nat + 256 * le_val(b.drop_first())
    }
}

/// The `n`-byte little-endian encoding of `v` (truncated to `n` bytes).
pub open spec fn le_bytes(v: nat, n: nat) -> Seq<u8>
    decreases n,
{
    if n == 0 {
        Seq::empty()
    } else {
        seq![(v % 256) as u8] + le_bytes(v / 256, (n - 1) as nat)
    }
}

/// 256 raised to the `n`th power: the number of values of an `n`-byte field.
pub open spec fn pow256(n: nat) -> nat
    decreases n,
{
    if n == 0 {
        1
    } else {
        256 * pow256((n - 1) as nat)
    }
}

/// Decoding an encoding yields the value back, reduced modulo the field size.
/// Together with the exec contracts below this is the memory round-trip law:
/// writing a value's bytes and reading them back yields the value, for every
/// value that fits the field.
pub proof fn lemma_le_round_trip(v: nat, n: nat)
    ensures
        le_val(le_bytes(v, n)) == v % pow256(n),
        v < pow256(n) ==> le_val(le_bytes(v, n)) == v,
    decreases n,
{
    if n == 0 {
        assert(pow256(0) == 1);
    } else {
        lemma_le_round_trip(v / 256, (n - 1) as nat);
        let tail = le_bytes(v / 256, (n - 1) as nat);
        assert(le_bytes(v, n).drop_first() =~= tail);
        assert(le_val(le_bytes(v, n)) == v % 256 + 256 * ((v / 256) % pow256((n - 1) as nat)));
        lemma_pow256_pos((n - 1) as nat);
        lemma_mod_breakdown(v as int, 256, pow256((n - 1) as nat) as int);
    }
}

/// The field size is never zero.
pub proof fn lemma_pow256_pos(n: nat)
    ensures
        pow256(n) >= 1,
    decreases n,
{
    if n > 0 {
        lemma_pow256_pos((n - 1) as nat);
    }
}

/// Every `n`-byte sequence decodes to a value below the field size.
pub proof fn lemma_le_val_bound(b: Seq<u8>)
    ensures
        le_val(b) < pow256(b.len()),
    decreases b.len(),
{
    if b.len() > 0 {
        lemma_le_val_bound(b.drop_first());
    }
}

/// Splits a 64-bit word into its 8 little-endian bytes.
pub fn word_to_bytes(w: u64) -> (r: Vec<u8>)
    ensures
        r@ == le_bytes(w as nat, 8),
        r@.len() == 8,
{
    let r = encode_le(w as u128, 8);
    proof {
        assert(le_bytes(w as nat, 8).len() == 8) by {
            lemma_le_bytes_len(w as nat, 8);
        }
    }
    r
}

/// Assembles a 64-bit word from up to 8 little-endian bytes.
pub fn bytes_to_word(b: &Vec<u8>) -> (w: u64)
    requires
        b@.len() <= 8,
    ensures
        w as nat == le_val(b@),
{
    let v = decode_le(b);
    proof {
        lemma_le_val_bound(b@);
        lemma_pow256_le(b@.len(), 8);
        lemma_pow256_values();
    }
    v as u64
}

/// The length of an encoding is the requested width.
pub proof fn lemma_le_bytes_len(v: nat, n: nat)
    ensures
        le_bytes(v, n).len() == n,
    decreases n,
{
    if n > 0 {
        lemma_le_bytes_len(v / 256, (n - 1) as nat);
    }
}

/// `pow256` is monotone in its exponent.
pub proof fn lemma_pow256_le(m: nat, n: nat)
    requires
        m <= n,
    ensures
        pow256(m) <= pow256(n),
    decreases n,
{
    if m < n && n > 0 {
        lemma_pow256_le(m, (n - 1) as nat);
    }
}

/// The concrete sizes of the two word widths used here.
pub proof fn lemma_pow256_values()
    ensures
        pow256(8) == 0x1_0000_0000_0000_0000,
        pow256(16) == 0x1_0000_0000_0000_0000_0000_0000_0000_0000,
{
    reveal_with_fuel(pow256, 17);
}

/// Encodes `v` as `n` little-endian bytes, truncating to the field width.
pub fn encode_le(v: u128, n: usize) -> (r: Vec<u8>)
    requires
        n <= 16,
    ensures
        r@ == le_bytes(v as nat, n as nat),
        r@.len() == n,
{
    let mut r: Vec<u8> = Vec::new();
    let mut cur: u128 = v;
    let mut i: usize = 0;
    while i < n
        invariant
            i <= n,
            r@.len() == i,
            r@ + le_bytes(cur as nat, (n - i) as nat) =~= le_bytes(v as nat, n as nat),
        decreases n - i,
    {
        let b: u8 = (cur % 256) as u8;
        proof {
            assert(le_bytes(cur as nat, (n - i) as nat) == seq![(cur as nat % 256) as u8]
                + le_bytes(cur as nat / 256, (n - i - 1) as nat));
            assert(r@.push(b) + le_bytes(cur as nat / 256, (n - i - 1) as nat) =~= r@ + le_bytes(
                cur as nat,
                (n - i) as nat,
            ));
        }
        r.push(b);
        cur = cur / 256;
        i = i + 1;
    }
    proof {
        lemma_le_bytes_len(v as nat, n as nat);
        assert(r@ =~= le_bytes(v as nat, n as nat));
    }
    r
}

/// Decodes up to 16 little-endian bytes into their unsigned value.
pub fn decode_le(b: &Vec<u8>) -> (v: u128)
    requires
        b@.len() <= 16,
    ensures
        v as nat == le_val(b@),
{
    let n = b.len();
    let mut v: u128 = 0;
    let mut i: usize = n;
    proof {
        assert(b@.skip(n as int) =~= Seq::<u8>::empty());
    }
    while i > 0
        invariant
            i <= n,
            n == b@.len() <= 16,
            v as nat == le_val(b@.skip(i as int)),
        decreases i,
    {
        proof {
            lemma_le_val_bound(b@.skip(i as int));
            lemma_pow256_le((n - i) as nat, 15);
            lemma_pow256_values();
            assert(pow256(15) * 256 == pow256(16)) by {
                reveal_with_fuel(pow256, 17);
            }
            assert(b@.skip(i as int - 1).drop_first() =~= b@.skip(i as int));
        }
        i = i - 1;
        v = v * 256 + (b[i] as u128);
    }
    proof {
        assert(b@.skip(0) =~= b@);
    }
    v
}

/// Assembles a 64-bit word from up to 8 little-endian bytes taken out of
/// the middle of a buffer.
pub fn word_from_bytes_at(data: &Vec<u8>, start: usize, count: usize) -> (w: u64)
    requires
        count <= 8,
        start + count <= data@.len(),
    ensures
        w as nat == le_val(data@.subrange(start as int, (start + count) as int)),
{
    let n_data = data.len();
    let mut chunk: Vec<u8> = Vec::new();
    let mut i: usize = 0;
    while i < count
        invariant
            i <= count,
            start + count <= n_data == data@.len(),
            chunk@ =~= data@.subrange(start as int, (start + i) as int),
        decreases count - i,
    {
        chunk.push(data[start + i]);
        proof {
            assert(chunk@ =~= data@.subrange(start as int, (start + i + 1) as int));
        }
        i = i + 1;
    }
    bytes_to_word(&chunk)
}

/// Overlays `count` bytes of `src` starting at `start` over the front of a
/// word's bytes.  The bytes of the word at and past `count` are untouched:
/// a sub-word write never disturbs the rest of the enclosing word.
pub fn splice_word_bytes(word_bytes: &Vec<u8>, src: &Vec<u8>, start: usize, count: usize) -> (r: Vec<
    u8,
>)
    requires
        word_bytes@.len() == 8,
        count <= 8,
        start + count <= src@.len(),
    ensures
        r@.len() == 8,
        r@ == src@.subrange(start as int, (start + count) as int) + word_bytes@.skip(count as int),
        forall|k: int| count <= k < 8 ==> r@[k] == word_bytes@[k],
{
    let n_src = src.len();
    let mut r: Vec<u8> = Vec::new();
    let mut i: usize = 0;
    while i < count
        invariant
            i <= count,
            count <= 8,
            start + count <= n_src == src@.len(),
            r@ =~= src@.subrange(start as int, (start + i) as int),
        decreases count - i,
    {
        r.push(src[start + i]);
        proof {
            assert(r@ =~= src@.subrange(start as int, (start + i + 1) as int));
        }
        i = i + 1;
    }
    let mut j: usize = count;
    while j < 8
        invariant
            count <= j <= 8,
            word_bytes@.len() == 8,
            start + count <= src@.len(),
            r@ =~= src@.subrange(start as int, (start + count) as int) + word_bytes@.subrange(
                count as int,
                j as int,
            ),
        decreases 8 - j,
    {
        r.push(word_bytes[j]);
        proof {
            assert(r@ =~= src@.subrange(start as int, (start + count) as int)
                + word_bytes@.subrange(count as int, j as int + 1));
        }
        j = j + 1;
    }
    proof {
        assert(word_bytes@.subrange(count as int, 8) =~= word_bytes@.skip(count as int));
        assert(r@ == src@.subrange(start as int, (start + count) as int) + word_bytes@.skip(
            count as int,
        ));
    }
    r
}

} // verus!
