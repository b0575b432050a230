//! Calibration EEPROM decoder.
//!
//! The ColorMunki stores an 8169-byte calibration blob. Its integrity is
//! guarded by a wrapped 32-bit sum over the payload taken in 4-byte
//! little-endian words: the single word at offset 8 (the stored checksum
//! itself) is skipped, and a trailing 1-3 byte tail is zero-extended on the
//! right to a full word. Decoding succeeds exactly when the computed sum
//! equals the stored word, and a change to any single byte outside the
//! checksum word flips the computed sum
//! ([`lemma_checksum_detects_byte_change`]).
//!
//! Spectral coefficients are stored as IEEE-754 single-precision values; this
//! module keeps them as their raw 32-bit little-endian patterns, leaving the
//! floating-point interpretation to the numeric pipeline outside the crate.

use vstd::prelude::*;
use vstd::bytes::{
    lemma_auto_spec_u32_to_from_le_bytes, spec_u16_from_le_bytes, spec_u32_from_le_bytes,
    spec_u32_to_le_bytes, u16_from_le_bytes, u32_from_le_bytes,
};
use vstd::slice::{slice_subrange, slice_to_vec};
use vstd::wrapping::u32_specs;
use crate::errors::{EepromError, SpectroError};

verus! {

/// Least length of a full calibration blob, in bytes.
pub const EEPROM_MIN_LEN: usize = 8169;

/// Byte offset of the stored checksum word.
pub const CHECKSUM_OFFSET: usize = 8;

// ===========================================================================
// Checksum
// ===========================================================================

/// The 4-byte little-endian word starting at byte offset `off`, zero-extended
/// on the right where the payload ends.
pub open spec fn word_bytes_at(data: Seq<u8>, off: int) -> Seq<u8> {
    Seq::new(4, |k: int| if 0 <= off + k < data.len() { data[off + k] } else { 0u8 })
}

/// The value of the word starting at byte offset `off`.
pub open spec fn checksum_word(data: Seq<u8>, off: int) -> u32 {
    spec_u32_from_le_bytes(word_bytes_at(data, off))
}

/// Wrapped sum of the first `words` 4-byte words of the payload, the word at
/// offset 8 (word index 2) left out.
pub open spec fn checksum_upto(data: Seq<u8>, words: nat) -> u32
    decreases words,
{
    if words == 0 {
        0u32
    } else {
        let prev = checksum_upto(data, (words - 1) as nat);
        if words - 1 == 2 {
            prev
        } else {
            u32_specs::wrapping_add(prev, checksum_word(data, 4 * (words - 1)))
        }
    }
}

/// Number of 4-byte words covering `len` bytes (the last word possibly
/// partial).
pub open spec fn num_words(len: nat) -> nat {
    (len + 3) / 4
}

/// The wrapped-sum checksum of the whole payload.
pub open spec fn eeprom_checksum(data: Seq<u8>) -> u32 {
    checksum_upto(data, num_words(data.len()))
}

/// The checksum stored in the payload, at byte offset 8.
pub open spec fn stored_checksum(data: Seq<u8>) -> u32
    recommends
        data.len() >= 12,
{
    spec_u32_from_le_bytes(data.subrange(8, 12))
}

/// A payload decodes successfully exactly when it is long enough and its
/// computed checksum equals the stored one.
pub open spec fn eeprom_valid(data: Seq<u8>) -> bool {
    data.len() >= EEPROM_MIN_LEN && eeprom_checksum(data) == stored_checksum(data)
}

/// Computes the wrapped-sum checksum: 4-byte little-endian words, the word at
/// offset 8 skipped, a short tail zero-extended.
pub fn compute_checksum(data: &Vec<u8>) -> (sum: u32)
    ensures
        sum == eeprom_checksum(data@),
{
    let len: usize = data.len();
    let mut off: usize = 0;
    let mut sum: u32 = 0;
    while off < len && len - off >= 4
        invariant
            off <= len,
            off % 4 == 0,
            len == data@.len(),
            sum == checksum_upto(data@, (off / 4) as nat),
        decreases len - off,
    {
        let ghost w = (off / 4) as nat;
        proof {
            assert(4 * w == off as int);
        }
        if off != 8 {
            let word = u32_from_le_bytes(slice_subrange(data.as_slice(), off, off + 4));
            proof {
                assert(word_bytes_at(data@, off as int) =~= data@.subrange(
                    off as int,
                    off as int + 4,
                ));
            }
            sum = sum.wrapping_add(word);
        }
        off = off + 4;
        proof {
            assert((off / 4) as nat == w + 1);
        }
    }
    if off < len && off != 8 {
        // Zero-extended tail word of 1-3 bytes.
        let ghost w = (off / 4) as nat;
        proof {
            assert(4 * w == off as int);
        }
        let mut tb: Vec<u8> = Vec::new();
        let mut k: usize = off;
        while k < len
            invariant
                off <= k <= len,
                len == data@.len(),
                tb@ == data@.subrange(off as int, k as int),
            decreases len - k,
        {
            let b = data[k];
            tb.push(b);
            k = k + 1;
            proof {
                assert(tb@ =~= data@.subrange(off as int, k as int));
            }
        }
        while tb.len() < 4
            invariant
                len == data@.len(),
                off < len,
                len - off < 4,
                len - off <= tb@.len() <= 4,
                forall|m: int|
                    0 <= m < tb@.len() ==> tb@[m] == (if off + m < len {
                        data@[off + m]
                    } else {
                        0u8
                    }),
            decreases 4 - tb.len(),
        {
            tb.push(0u8);
        }
        let word = u32_from_le_bytes(tb.as_slice());
        proof {
            assert(tb@ =~= word_bytes_at(data@, off as int));
        }
        sum = sum.wrapping_add(word);
        proof {
            assert(num_words(data@.len()) == w + 1);
        }
    } else {
        proof {
            if off < len {
                // The tail falls inside the skipped checksum word.
                assert(off == 8);
                assert(num_words(data@.len()) == (off / 4) as nat + 1);
            } else {
                assert(off == len);
                assert(num_words(data@.len()) == (off / 4) as nat);
            }
        }
    }
    sum
}

// ===========================================================================
// Field layout
// ===========================================================================

/// The little-endian u32 at byte offset `off`.
pub open spec fn le_u32_at(data: Seq<u8>, off: int) -> u32
    recommends
        0 <= off,
        off + 4 <= data.len(),
{
    spec_u32_from_le_bytes(data.subrange(off, off + 4))
}

/// `count` consecutive little-endian u32 values starting at byte offset
/// `base`.
pub open spec fn le_u32_run(data: Seq<u8>, base: int, count: int) -> Seq<u32> {
    Seq::new(count as nat, |i: int| le_u32_at(data, base + 4 * i))
}

/// The calibration format version, little-endian u16 at offset 0.
pub open spec fn cal_version_of(data: Seq<u8>) -> u16 {
    spec_u16_from_le_bytes(data.subrange(0, 2))
}

/// The production number, little-endian u32 at offset 12.
pub open spec fn production_no_of(data: Seq<u8>) -> u32 {
    le_u32_at(data, 12)
}

/// A sequence with leading NUL bytes removed.
pub open spec fn drop_leading_nuls(s: Seq<u8>) -> Seq<u8>
    decreases s.len(),
{
    if s.len() > 0 && s[0] == 0 {
        drop_leading_nuls(s.subrange(1, s.len() as int))
    } else {
        s
    }
}

/// A sequence with trailing NUL bytes removed.
pub open spec fn drop_trailing_nuls(s: Seq<u8>) -> Seq<u8>
    decreases s.len(),
{
    if s.len() > 0 && s[s.len() - 1] == 0 {
        drop_trailing_nuls(s.subrange(0, s.len() - 1))
    } else {
        s
    }
}

/// A sequence with NUL bytes removed from both ends.
pub open spec fn nul_trimmed(s: Seq<u8>) -> Seq<u8> {
    drop_trailing_nuls(drop_leading_nuls(s))
}

/// The device serial: the 16 bytes at offset 24, NUL-trimmed.
pub open spec fn serial_of(data: Seq<u8>) -> Seq<u8> {
    nul_trimmed(data.subrange(24, 40))
}

/// A linearization polynomial: 4 little-endian words at `base`, stored
/// reversed so that the first delivered coefficient is the constant term.
pub open spec fn lin_poly_of(data: Seq<u8>, base: int) -> Seq<u32> {
    Seq::new(4, |i: int| le_u32_at(data, base + 4 * (3 - i)))
}

/// Parsed calibration EEPROM contents.
///
/// All spectral coefficients (`*_coef`, `lin_*`, `white_ref`) are IEEE-754
/// single-precision values kept as their raw little-endian 32-bit patterns;
/// the numeric pipeline outside this crate reinterprets them.
#[derive(Debug, Clone, PartialEq)]
pub struct MunkiConfig {
    /// Calibration format version (offset 0).
    pub cal_version: u16,
    /// Production number (offset 12).
    pub production_no: u32,
    /// Device serial, NUL-trimmed bytes (16 bytes at offset 24).
    pub serial_number: Vec<u8>,
    /// Reflective reconstruction matrix: 36 row start indices (offset 40).
    pub rmtx_index: Vec<u32>,
    /// Reflective reconstruction matrix: 36 x 16 coefficients (offset 184).
    pub rmtx_coef: Vec<u32>,
    /// Emissive reconstruction matrix: 36 row start indices (offset 2488).
    pub emtx_index: Vec<u32>,
    /// Emissive reconstruction matrix: 36 x 16 coefficients (offset 2632).
    pub emtx_coef: Vec<u32>,
    /// Normal-gain linearization polynomial, constant term first (offset
    /// 4936, stored reversed).
    pub lin_normal: Vec<u32>,
    /// High-gain linearization polynomial, constant term first (offset 4952,
    /// stored reversed).
    pub lin_high: Vec<u32>,
    /// 36-band white tile reference (offset 4968).
    pub white_ref: Vec<u32>,
    /// 36-band emissive calibration coefficients (offset 5112).
    pub emis_coef: Vec<u32>,
    /// 36-band ambient calibration coefficients (offset 5256).
    pub amb_coef: Vec<u32>,
    /// 36-band projector coefficients (offset 8024), present only for
    /// calibration versions 5 and later.
    pub proj_coef: Option<Vec<u32>>,
}

impl MunkiConfig {
    /// Structural well-formedness: every table has its fixed length.
    pub open spec fn wf(self) -> bool {
        &&& self.serial_number@.len() <= 16
        &&& self.rmtx_index@.len() == 36
        &&& self.rmtx_coef@.len() == 576
        &&& self.emtx_index@.len() == 36
        &&& self.emtx_coef@.len() == 576
        &&& self.lin_normal@.len() == 4
        &&& self.lin_high@.len() == 4
        &&& self.white_ref@.len() == 36
        &&& self.emis_coef@.len() == 36
        &&& self.amb_coef@.len() == 36
        &&& (self.proj_coef matches Some(p) ==> p@.len() == 36)
    }

    /// Every field equals the corresponding slice of the payload.
    pub open spec fn matches_payload(self, data: Seq<u8>) -> bool {
        &&& self.cal_version == cal_version_of(data)
        &&& self.production_no == production_no_of(data)
        &&& self.serial_number@ == serial_of(data)
        &&& self.rmtx_index@ == le_u32_run(data, 40, 36)
        &&& self.rmtx_coef@ == le_u32_run(data, 184, 576)
        &&& self.emtx_index@ == le_u32_run(data, 2488, 36)
        &&& self.emtx_coef@ == le_u32_run(data, 2632, 576)
        &&& self.lin_normal@ == lin_poly_of(data, 4936)
        &&& self.lin_high@ == lin_poly_of(data, 4952)
        &&& self.white_ref@ == le_u32_run(data, 4968, 36)
        &&& self.emis_coef@ == le_u32_run(data, 5112, 36)
        &&& self.amb_coef@ == le_u32_run(data, 5256, 36)
        &&& (self.proj_coef is Some <==> cal_version_of(data) >= 5)
        &&& (self.proj_coef matches Some(p) ==> p@ == le_u32_run(data, 8024, 36))
    }
}

// ===========================================================================
// Parsing
// ===========================================================================

/// Reads `count` consecutive little-endian u32 values starting at `base`.
fn read_u32_run(data: &Vec<u8>, base: usize, count: usize) -> (r: Vec<u32>)
    requires
        base + 4 * count <= data@.len(),
    ensures
        r@ == le_u32_run(data@, base as int, count as int),
{
    let len: usize = data.len();
    let mut r: Vec<u32> = Vec::new();
    let mut i: usize = 0;
    while i < count
        invariant
            i <= count,
            len == data@.len(),
            base + 4 * count <= len,
            r@.len() == i,
            forall|m: int| 0 <= m < i ==> r@[m] == le_u32_at(data@, base + 4 * m),
        decreases count - i,
    {
        let off = base + 4 * i;
        let word = u32_from_le_bytes(slice_subrange(data.as_slice(), off, off + 4));
        r.push(word);
        i = i + 1;
    }
    proof {
        assert(r@ =~= le_u32_run(data@, base as int, count as int));
    }
    r
}

/// Reads a 4-coefficient linearization polynomial stored in reverse order,
/// delivering the constant term first.
fn read_lin_poly(data: &Vec<u8>, base: usize) -> (r: Vec<u32>)
    requires
        base + 16 <= data@.len(),
    ensures
        r@ == lin_poly_of(data@, base as int),
{
    let len: usize = data.len();
    let mut r: Vec<u32> = Vec::new();
    let mut i: usize = 0;
    while i < 4
        invariant
            i <= 4,
            len == data@.len(),
            base + 16 <= len,
            r@.len() == i,
            forall|m: int| 0 <= m < i ==> r@[m] == le_u32_at(data@, base + 4 * (3 - m)),
        decreases 4 - i,
    {
        let off = base + 4 * (3 - i);
        let word = u32_from_le_bytes(slice_subrange(data.as_slice(), off, off + 4));
        r.push(word);
        i = i + 1;
    }
    proof {
        assert(r@ =~= lin_poly_of(data@, base as int));
    }
    r
}

/// Removes NUL bytes from both ends of a byte string.
pub fn trim_nuls(src: &Vec<u8>) -> (r: Vec<u8>)
    ensures
        r@ == nul_trimmed(src@),
        r@.len() <= src@.len(),
{
    let len: usize = src.len();
    proof {
        assert(src@.subrange(0, len as int) =~= src@);
    }
    let mut lo: usize = 0;
    while lo < len && src[lo] == 0
        invariant
            lo <= len,
            len == src@.len(),
            drop_leading_nuls(src@) == drop_leading_nuls(src@.subrange(lo as int, len as int)),
        decreases len - lo,
    {
        proof {
            let s = src@.subrange(lo as int, len as int);
            assert(s.subrange(1, s.len() as int) =~= src@.subrange(lo as int + 1, len as int));
        }
        lo = lo + 1;
    }
    proof {
        if lo == len {
            assert(src@.subrange(lo as int, len as int) =~= Seq::<u8>::empty());
        }
        assert(drop_leading_nuls(src@) == src@.subrange(lo as int, len as int));
    }
    let mut hi: usize = len;
    while hi > lo && src[hi - 1] == 0
        invariant
            lo <= hi <= len,
            len == src@.len(),
            drop_leading_nuls(src@) == src@.subrange(lo as int, len as int),
            drop_trailing_nuls(src@.subrange(lo as int, len as int)) == drop_trailing_nuls(
                src@.subrange(lo as int, hi as int),
            ),
        decreases hi,
    {
        proof {
            let s = src@.subrange(lo as int, hi as int);
            assert(s.subrange(0, s.len() - 1) =~= src@.subrange(lo as int, hi as int - 1));
        }
        hi = hi - 1;
    }
    proof {
        if hi == lo {
            assert(src@.subrange(lo as int, hi as int) =~= Seq::<u8>::empty());
        }
        assert(nul_trimmed(src@) == src@.subrange(lo as int, hi as int));
    }
    slice_to_vec(slice_subrange(src.as_slice(), lo, hi))
}

/// Decodes a calibration EEPROM payload.
///
/// Succeeds exactly on a valid payload: at least 8169 bytes whose wrapped-sum
/// checksum equals the stored word at offset 8. A short payload yields
/// `EepromError::Truncated`; a sum mismatch yields
/// `EepromError::ChecksumMismatch` carrying both values.
pub fn parse_eeprom(data: &Vec<u8>) -> (r: Result<MunkiConfig, SpectroError>)
    ensures
        r is Ok <==> eeprom_valid(data@),
        data@.len() < EEPROM_MIN_LEN ==> r == Err::<MunkiConfig, SpectroError>(
            SpectroError::Eeprom(EepromError::Truncated),
        ),
        data@.len() >= EEPROM_MIN_LEN && eeprom_checksum(data@) != stored_checksum(data@) ==> r
            == Err::<MunkiConfig, SpectroError>(
            SpectroError::Eeprom(
                EepromError::ChecksumMismatch {
                    computed: eeprom_checksum(data@),
                    stored: stored_checksum(data@),
                },
            ),
        ),
        r matches Ok(cfg) ==> cfg.wf() && cfg.matches_payload(data@),
{
    if data.len() < EEPROM_MIN_LEN {
        return Err(SpectroError::Eeprom(EepromError::Truncated));
    }
    let stored = u32_from_le_bytes(slice_subrange(data.as_slice(), 8, 12));
    let computed = compute_checksum(data);
    if computed != stored {
        return Err(
            SpectroError::Eeprom(EepromError::ChecksumMismatch { computed, stored }),
        );
    }
    let cal_version = u16_from_le_bytes(slice_subrange(data.as_slice(), 0, 2));
    let production_no = u32_from_le_bytes(slice_subrange(data.as_slice(), 12, 16));
    let serial_raw = slice_to_vec(slice_subrange(data.as_slice(), 24, 40));
    let serial_number = trim_nuls(&serial_raw);
    let rmtx_index = read_u32_run(data, 40, 36);
    let rmtx_coef = read_u32_run(data, 184, 576);
    let emtx_index = read_u32_run(data, 2488, 36);
    let emtx_coef = read_u32_run(data, 2632, 576);
    let lin_normal = read_lin_poly(data, 4936);
    let lin_high = read_lin_poly(data, 4952);
    let white_ref = read_u32_run(data, 4968, 36);
    let emis_coef = read_u32_run(data, 5112, 36);
    let amb_coef = read_u32_run(data, 5256, 36);
    let proj_coef = if cal_version >= 5 {
        Some(read_u32_run(data, 8024, 36))
    } else {
        None
    };
    Ok(
        MunkiConfig {
            cal_version,
            production_no,
            serial_number,
            rmtx_index,
            rmtx_coef,
            emtx_index,
            emtx_coef,
            lin_normal,
            lin_high,
            white_ref,
            emis_coef,
            amb_coef,
            proj_coef,
        },
    )
}

// ===========================================================================
// Checksum laws
// ===========================================================================

/// Little-endian decoding of 4-byte words is injective.
proof fn lemma_from_le_bytes_injective(s1: Seq<u8>, s2: Seq<u8>)
    requires
        s1.len() == 4,
        s2.len() == 4,
        spec_u32_from_le_bytes(s1) == spec_u32_from_le_bytes(s2),
    ensures
        s1 == s2,
{
    lemma_auto_spec_u32_to_from_le_bytes();
    assert(spec_u32_to_le_bytes(spec_u32_from_le_bytes(s1)) == s1);
    assert(spec_u32_to_le_bytes(spec_u32_from_le_bytes(s2)) == s2);
}

/// Wrapped addition cancels in either argument.
proof fn lemma_wadd_cancel(a: u32, b: u32, c: u32)
    ensures
        u32_specs::wrapping_add(a, c) == u32_specs::wrapping_add(b, c) ==> a == b,
        u32_specs::wrapping_add(c, a) == u32_specs::wrapping_add(c, b) ==> a == b,
{
}

/// Partial checksums agree on payloads that agree on all covered bytes.
proof fn lemma_checksum_upto_eq(d1: Seq<u8>, d2: Seq<u8>, w: nat)
    requires
        d1.len() == d2.len(),
        forall|k: int| 0 <= k < 4 * w && k < d1.len() ==> d1[k] == d2[k],
    ensures
        checksum_upto(d1, w) == checksum_upto(d2, w),
    decreases w,
{
    if w > 0 {
        lemma_checksum_upto_eq(d1, d2, (w - 1) as nat);
        assert(word_bytes_at(d1, 4 * (w - 1)) =~= word_bytes_at(d2, 4 * (w - 1)));
    }
}

/// After the word holding the changed byte, partial checksums stay apart.
proof fn lemma_checksum_upto_diff(d1: Seq<u8>, d2: Seq<u8>, j: int, w: nat)
    requires
        d1.len() == d2.len(),
        0 <= j < d1.len(),
        !(8 <= j < 12),
        d1[j] != d2[j],
        forall|k: int| 0 <= k < d1.len() && k != j ==> d1[k] == d2[k],
        w >= j / 4 + 1,
    ensures
        checksum_upto(d1, w) != checksum_upto(d2, w),
    decreases w,
{
    let w0 = j / 4;
    assert(4 * w0 <= j && j < 4 * w0 + 4);
    assert(w0 != 2);
    if w == w0 + 1 {
        lemma_checksum_upto_eq(d1, d2, w0 as nat);
        let b1 = word_bytes_at(d1, 4 * w0);
        let b2 = word_bytes_at(d2, 4 * w0);
        assert(b1[j - 4 * w0] == d1[j]);
        assert(b2[j - 4 * w0] == d2[j]);
        assert(checksum_word(d1, 4 * w0) != checksum_word(d2, 4 * w0)) by {
            if spec_u32_from_le_bytes(b1) == spec_u32_from_le_bytes(b2) {
                lemma_from_le_bytes_injective(b1, b2);
                assert(b1[j - 4 * w0] == b2[j - 4 * w0]);
            }
        }
        lemma_wadd_cancel(
            checksum_word(d1, 4 * w0),
            checksum_word(d2, 4 * w0),
            checksum_upto(d1, w0 as nat),
        );
    } else {
        lemma_checksum_upto_diff(d1, d2, j, (w - 1) as nat);
        if w - 1 != 2 {
            assert(word_bytes_at(d1, 4 * (w - 1)) =~= word_bytes_at(d2, 4 * (w - 1)));
            lemma_wadd_cancel(
                checksum_upto(d1, (w - 1) as nat),
                checksum_upto(d2, (w - 1) as nat),
                checksum_word(d1, 4 * (w - 1)),
            );
        }
    }
}

/// Changing any single byte that takes part in the sum changes the checksum.
///
/// Two payloads of equal length that differ in exactly one byte outside the
/// stored-checksum word (offsets 8-11) have different wrapped-sum checksums;
/// in particular, if the first payload is a valid calibration blob, the
/// mutated one is rejected.
pub proof fn lemma_checksum_detects_byte_change(d1: Seq<u8>, d2: Seq<u8>, j: int)
    requires
        d1.len() == d2.len(),
        0 <= j < d1.len(),
        !(8 <= j < 12),
        d1[j] != d2[j],
        forall|k: int| 0 <= k < d1.len() && k != j ==> d1[k] == d2[k],
    ensures
        eeprom_checksum(d1) != eeprom_checksum(d2),
        d1.len() >= 12 ==> stored_checksum(d1) == stored_checksum(d2),
        eeprom_valid(d1) ==> !eeprom_valid(d2),
{
    let len = d1.len() as int;
    let w = num_words(d1.len());
    assert(4 * (j / 4) <= j && j < 4 * (j / 4) + 4);
    assert(w >= j / 4 + 1);
    lemma_checksum_upto_diff(d1, d2, j, w);
    if d1.len() >= 12 {
        assert(d1.subrange(8, 12) =~= d2.subrange(8, 12));
    }
}

} // verus!
