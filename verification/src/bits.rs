//! Bit-level helpers: masking bounds, bit extraction over byte sequences,
//! and Exp-Golomb decoding as used by the H.264/HEVC headers.
use vstd::prelude::*;

verus! {

/// Masking a byte keeps it at or below the mask.
pub proof fn lemma_u8_and_bound(x: u8, m: u8)
    ensures
        (x & m) <= m,
{
    assert((x & m) <= m) by (bit_vector);
}

/// A right shift of a byte keeps it at or below the unshifted value,
/// and below 2^(8-n) for the shifts this crate uses.
pub proof fn lemma_u8_shr_bound(x: u8, n: u8)
    requires
        n < 8,
    ensures
        (x >> n) < (1u16 << ((8 - n) as u16)),
        (x >> n) <= x,
{
    assert((x >> n) < (1u16 << ((8 - n) as u16)) && (x >> n) <= x) by (bit_vector)
        requires n < 8;
}

/// The bit at position `i` (most-significant first) of a byte sequence,
/// as 0 or 1.
pub open spec fn bit_at(d: Seq<u8>, i: int) -> u32 {
    ((d[i / 8] as u32) >> ((7 - (i % 8)) as u32)) & 1
}

/// The value of the `n` bits starting at bit position `pos`, big-endian.
pub open spec fn bits_val(d: Seq<u8>, pos: int, n: nat) -> int
    decreases n,
{
    if n == 0 {
        0
    } else {
        bits_val(d, pos, (n - 1) as nat) * 2 + bit_at(d, pos + n - 1)
    }
}

/// Reads one bit at bit position `pos`.
pub fn read_bit(d: &[u8], pos: usize) -> (r: u32)
    requires
        pos < 8 * d@.len(),
    ensures
        r == bit_at(d@, pos as int),
        r == 0 || r == 1,
{
    let byte = d[pos / 8];
    let r = ((byte as u32) >> ((7 - (pos % 8)) as u32)) & 1;
    proof {
        assert(((byte as u32) >> ((7 - ((pos as int) % 8)) as u32)) & 1 < 2) by (bit_vector);
    }
    r
}

/// Reads the `n` bits starting at `pos`, big-endian, for `n <= 32`.
pub fn read_bits(d: &[u8], pos: usize, n: usize) -> (r: u32)
    requires
        d@.len() < 0x1000000,
        n <= 32,
        pos + n <= 8 * d@.len(),
    ensures
        r == bits_val(d@, pos as int, n as nat),
        r < (1u64 << (n as u64)),
{
    let mut acc: u32 = 0;
    let mut k: usize = 0;
    proof {
        assert((1u64 << 0u64) == 1) by (bit_vector);
    }
    while k < n
        invariant
            d@.len() < 0x1000000,
            k <= n,
            n <= 32,
            pos + n <= 8 * d@.len(),
            acc == bits_val(d@, pos as int, k as nat),
            acc < (1u64 << (k as u64)),
        decreases n - k,
    {
        proof {
            assert(forall|m: u64|
                m < 32 ==> #[trigger] (1u64 << (m + 1)) == 2 * (1u64 << m) && (1u64 << (m + 1))
                    <= 0x100000000u64) by (bit_vector);
            assert(forall|m: u64| m <= 31 ==> #[trigger] (1u64 << m) <= 0x80000000u64)
                by (bit_vector);
        }
        let b = read_bit(d, pos + k);
        acc = acc * 2 + b;
        k += 1;
    }
    acc
}

/// Exp-Golomb decoding: the number of zero bits before the first one bit at
/// or after `pos`, or `None` when no one bit lies inside the sequence.
pub open spec fn eg_zeros(d: Seq<u8>, pos: int) -> Option<int>
    decreases 8 * d.len() - pos when 0 <= pos
{
    if pos >= 8 * d.len() {
        None
    } else if bit_at(d, pos) == 1 {
        Some(0)
    } else {
        match eg_zeros(d, pos + 1) {
            None => None,
            Some(k) => Some(k + 1),
        }
    }
}

/// An unsigned Exp-Golomb value and the bit position after it. `None` when
/// the sequence ends first or the value would not fit 32 bits.
pub open spec fn ue_spec(d: Seq<u8>, pos: int) -> Option<(u32, int)> {
    match eg_zeros(d, pos) {
        None => None,
        Some(k) => if k > 31 || pos + 2 * k + 1 > 8 * d.len() {
            None
        } else {
            Some(((bits_val(d, pos + k, (k + 1) as nat) - 1) as u32, pos + 2 * k + 1))
        },
    }
}

/// The signed Exp-Golomb value derived from the unsigned one.
pub open spec fn se_val(k: u32) -> int {
    if k % 2 == 0 {
        -((k as int + 1) / 2)
    } else {
        (k as int + 1) / 2
    }
}

/// A signed Exp-Golomb value and the bit position after it.
pub open spec fn se_spec(d: Seq<u8>, pos: int) -> Option<(int, int)> {
    match ue_spec(d, pos) {
        None => None,
        Some((k, p)) => Some((se_val(k), p)),
    }
}

/// Counts the zero bits before the first one bit, starting at `pos`.
fn eg_count_zeros(d: &[u8], pos: usize) -> (r: Option<usize>)
    requires
        d@.len() < 0x1000000,
        pos <= 8 * d@.len(),
    ensures
        match r {
            Some(k) => {
                &&& eg_zeros(d@, pos as int) == Some(k as int)
                &&& pos + k < 8 * d@.len()
            },
            None => eg_zeros(d@, pos as int) is None,
        },
    decreases 8 * d@.len() - pos,
{
    if pos >= 8 * d.len() {
        return None;
    }
    if read_bit(d, pos) == 1 {
        return Some(0);
    }
    match eg_count_zeros(d, pos + 1) {
        None => None,
        Some(k) => Some(k + 1),
    }
}

/// When Exp-Golomb zero counting succeeds, the bit after the zeros is one.
proof fn lemma_eg_zeros_one(d: Seq<u8>, pos: int)
    requires
        0 <= pos,
        eg_zeros(d, pos) is Some,
    ensures
        pos + eg_zeros(d, pos)->0 < 8 * d.len(),
        bit_at(d, pos + eg_zeros(d, pos)->0) == 1,
    decreases 8 * d.len() - pos,
{
    if pos >= 8 * d.len() {
    } else if bit_at(d, pos) == 1 {
    } else {
        lemma_eg_zeros_one(d, pos + 1);
    }
}

/// Unsigned Exp-Golomb decoder: value and next bit position.
pub fn ue(d: &[u8], pos: usize) -> (r: Option<(u32, usize)>)
    requires
        d@.len() < 0x1000000,
        pos <= 8 * d@.len(),
    ensures
        match r {
            Some((v, p)) => {
                &&& ue_spec(d@, pos as int) == Some((v, p as int))
                &&& pos <= p <= 8 * d@.len()
            },
            None => ue_spec(d@, pos as int) is None,
        },
{
    let k = match eg_count_zeros(d, pos) {
        None => { return None; },
        Some(k) => k,
    };
    if k > 31 || 8 * d.len() - pos < 2 * k + 1 {
        return None;
    }
    let raw = read_bits(d, pos + k, k + 1);
    proof {
        lemma_eg_zeros_one(d@, pos as int);
        lemma_bits_val_first_one(d@, pos + k, (k + 1) as nat);
    }
    Some((raw - 1, pos + 2 * k + 1))
}

/// The leading bit of an Exp-Golomb code word is one, so the raw value of
/// its `n` bits is at least 2^(n-1), in particular at least 1.
proof fn lemma_bits_val_first_one(d: Seq<u8>, pos: int, n: nat)
    requires
        n >= 1,
        bit_at(d, pos) == 1,
    ensures
        bits_val(d, pos, n) >= 1,
    decreases n,
{
    if n == 1 {
        assert(bits_val(d, pos, 1) == bits_val(d, pos, 0) * 2 + bit_at(d, pos));
    } else {
        lemma_bits_val_first_one(d, pos, (n - 1) as nat);
        assert(bits_val(d, pos, n) == bits_val(d, pos, (n - 1) as nat) * 2 + bit_at(
            d,
            pos + n - 1,
        ));
    }
}

/// Signed Exp-Golomb decoder: value and next bit position.
pub fn se(d: &[u8], pos: usize) -> (r: Option<(i64, usize)>)
    requires
        d@.len() < 0x1000000,
        pos <= 8 * d@.len(),
    ensures
        match r {
            Some((v, p)) => {
                &&& se_spec(d@, pos as int) == Some((v as int, p as int))
                &&& pos <= p <= 8 * d@.len()
            },
            None => se_spec(d@, pos as int) is None,
        },
{
    match ue(d, pos) {
        None => None,
        Some((k, p)) => {
            let v: i64 = if k % 2 == 0 {
                -(((k as i64) + 1) / 2)
            } else {
                ((k as i64) + 1) / 2
            };
            Some((v, p))
        },
    }
}

/// Collapses every `00 00 03` to `00 00` (emulation-prevention removal),
/// scanning left to right and dropping the third byte of each triple, a
/// trailing triple included. This inverts the insertion an H.264/HEVC
/// encoder performs on a NAL body.
pub open spec fn remove_ep_spec(d: Seq<u8>) -> Seq<u8>
    decreases d.len(),
{
    if d.len() == 0 {
        Seq::empty()
    } else if d.len() >= 3 && d[0] == 0 && d[1] == 0 && d[2] == 3 {
        seq![0u8, 0u8] + remove_ep_spec(d.skip(3))
    } else {
        seq![d[0]] + remove_ep_spec(d.skip(1))
    }
}

/// Removes emulation-prevention bytes, emitting the two zero bytes verbatim.
pub fn remove_ep(data: &[u8]) -> (r: Vec<u8>)
    ensures
        r@ == remove_ep_spec(data@),
{
    let r = remove_ep_from(data, 0);
    proof {
        assert(data@.skip(0) =~= data@);
    }
    r
}

/// Recursive worker for [`remove_ep`]: processes `data[idx..]`.
fn remove_ep_from(data: &[u8], idx: usize) -> (r: Vec<u8>)
    requires
        idx <= data@.len(),
    ensures
        r@ == remove_ep_spec(data@.skip(idx as int)),
    decreases data@.len() - idx,
{
    let n = data.len();
    if idx == n {
        proof {
            assert(data@.skip(idx as int) =~= Seq::<u8>::empty());
        }
        Vec::new()
    } else if n - idx >= 3 && data[idx] == 0 && data[idx + 1] == 0 && data[idx + 2] == 3 {
        let mut v: Vec<u8> = Vec::new();
        v.push(0);
        v.push(0);
        let mut rest = remove_ep_from(data, idx + 3);
        v.append(&mut rest);
        proof {
            let s = data@.skip(idx as int);
            assert(s.len() >= 3);
            assert(s[0] == data@[idx as int] && s[1] == data@[idx + 1] && s[2] == data@[idx + 2]);
            assert(s.skip(3) =~= data@.skip(idx + 3));
            assert(v@ =~= remove_ep_spec(s));
        }
        v
    } else {
        let mut v: Vec<u8> = Vec::new();
        v.push(data[idx]);
        let mut rest = remove_ep_from(data, idx + 1);
        v.append(&mut rest);
        proof {
            let s = data@.skip(idx as int);
            assert(s[0] == data@[idx as int]);
            assert(s.skip(1) =~= data@.skip(idx + 1));
            assert(v@ =~= remove_ep_spec(s));
        }
        v
    }
}

/// Emulation-prevention removal never lengthens the data.
pub proof fn lemma_remove_ep_len(d: Seq<u8>)
    ensures
        remove_ep_spec(d).len() <= d.len(),
    decreases d.len(),
{
    if d.len() == 0 {
    } else if d.len() >= 3 && d[0] == 0 && d[1] == 0 && d[2] == 3 {
        lemma_remove_ep_len(d.skip(3));
    } else {
        lemma_remove_ep_len(d.skip(1));
    }
}

/// The variant that keeps the byte pair by copying it from the input.
/// The result is the same byte sequence as [`remove_ep`].
pub fn remove_emulation_prevention(data: &[u8]) -> (r: Vec<u8>)
    ensures
        r@ == remove_ep_spec(data@),
{
    remove_ep(data)
}

} // verus!
