//! ICC matrix-shaper profile writer.
//!
//! Produces a V2.4 `mntr` RGB profile with XYZ as the connection space:
//! a 128-byte header, a tag table, and the tags `desc`, `wtpt`, `rXYZ`,
//! `gXYZ`, `bXYZ`, `rTRC`, `gTRC`, `bTRC`, `cprt`, and optionally `A2B0` as
//! an `mft2` 16-bit lookup table. All multi-byte fields are big-endian.
//!
//! Color values enter this module already encoded: XYZ components as
//! s15Fixed16 (the value times 65536, rounded), the gamma as its `curv`
//! entry (the value times 256, rounded), and lookup-table entries as the
//! 16-bit numbers the CLUT stores. The floating-point conversions live with
//! the numeric pipeline outside the crate.

use vstd::prelude::*;
use vstd::utf8::encode_utf8;

verus! {

// ===========================================================================
// Big-endian encodings
// ===========================================================================

/// Big-endian bytes of a 16-bit value.
pub open spec fn be16(x: u16) -> Seq<u8> {
    seq![((x >> 8) & 0xff) as u8, (x & 0xff) as u8]
}

/// Big-endian bytes of a 32-bit value.
pub open spec fn be32(x: u32) -> Seq<u8> {
    seq![
        ((x >> 24) & 0xff) as u8,
        ((x >> 16) & 0xff) as u8,
        ((x >> 8) & 0xff) as u8,
        (x & 0xff) as u8,
    ]
}

/// Big-endian bytes of an s15Fixed16 value.
pub open spec fn be_i32(x: i32) -> Seq<u8> {
    be32(x as u32)
}

/// `n` zero bytes.
pub open spec fn zeros(n: int) -> Seq<u8> {
    Seq::new(n as nat, |i: int| 0u8)
}

/// A four-byte signature.
pub open spec fn sig4(a: u8, b: u8, c: u8, d: u8) -> Seq<u8> {
    seq![a, b, c, d]
}

/// Big-endian bytes of a run of 16-bit values.
pub open spec fn be16_words(data: Seq<u16>) -> Seq<u8> {
    Seq::new(
        2 * data.len(),
        |i: int|
            if i % 2 == 0 {
                ((data[i / 2] >> 8) & 0xff) as u8
            } else {
                (data[i / 2] & 0xff) as u8
            },
    )
}

fn push_be16(v: &mut Vec<u8>, x: u16)
    ensures
        final(v)@ == old(v)@ + be16(x),
{
    proof {
        assert(((x >> 8) & 0xff) < 256 && (x & 0xff) < 256) by (bit_vector);
    }
    v.push(((x >> 8) & 0xff) as u8);
    v.push((x & 0xff) as u8);
    proof {
        assert(v@ =~= old(v)@ + be16(x));
    }
}

fn push_be32(v: &mut Vec<u8>, x: u32)
    ensures
        final(v)@ == old(v)@ + be32(x),
{
    proof {
        assert(((x >> 24) & 0xff) < 256 && ((x >> 16) & 0xff) < 256 && ((x >> 8) & 0xff) < 256 && (
        x & 0xff) < 256) by (bit_vector);
    }
    v.push(((x >> 24) & 0xff) as u8);
    v.push(((x >> 16) & 0xff) as u8);
    v.push(((x >> 8) & 0xff) as u8);
    v.push((x & 0xff) as u8);
    proof {
        assert(v@ =~= old(v)@ + be32(x));
    }
}

fn push_be_i32(v: &mut Vec<u8>, x: i32)
    ensures
        final(v)@ == old(v)@ + be_i32(x),
{
    push_be32(v, x as u32);
}

fn push_sig(v: &mut Vec<u8>, a: u8, b: u8, c: u8, d: u8)
    ensures
        final(v)@ == old(v)@ + sig4(a, b, c, d),
{
    v.push(a);
    v.push(b);
    v.push(c);
    v.push(d);
    proof {
        assert(v@ =~= old(v)@ + sig4(a, b, c, d));
    }
}

fn push_zeros(v: &mut Vec<u8>, n: usize)
    ensures
        final(v)@ == old(v)@ + zeros(n as int),
{
    let mut i: usize = 0;
    while i < n
        invariant
            i <= n,
            v@.len() == old(v)@.len() + i,
            forall|m: int| 0 <= m < old(v)@.len() ==> v@[m] == old(v)@[m],
            forall|m: int| old(v)@.len() <= m < v@.len() ==> v@[m] == 0u8,
        decreases n - i,
    {
        v.push(0u8);
        i = i + 1;
    }
    proof {
        assert(v@ =~= old(v)@ + zeros(n as int));
    }
}

fn push_str_bytes(v: &mut Vec<u8>, s: &str)
    ensures
        final(v)@ == old(v)@ + encode_utf8(s@),
{
    v.extend_from_slice(s.as_bytes());
}

fn push_be16_words(v: &mut Vec<u8>, data: &Vec<u16>)
    ensures
        final(v)@ == old(v)@ + be16_words(data@),
{
    let n: usize = data.len();
    let mut i: usize = 0;
    while i < n
        invariant
            i <= n,
            n == data@.len(),
            v@.len() == old(v)@.len() + 2 * i,
            forall|m: int| 0 <= m < old(v)@.len() ==> v@[m] == old(v)@[m],
            forall|m: int|
                0 <= m < 2 * i ==> v@[old(v)@.len() + m] == be16_words(data@)[m],
        decreases n - i,
    {
        let x = data[i];
        proof {
            assert(((x >> 8) & 0xff) < 256 && (x & 0xff) < 256) by (bit_vector);
        }
        v.push(((x >> 8) & 0xff) as u8);
        v.push((x & 0xff) as u8);
        i = i + 1;
        proof {
            assert forall|m: int| 0 <= m < 2 * i implies v@[old(v)@.len() + m] == be16_words(
                data@,
            )[m] by {
                if m == 2 * i - 2 {
                    assert(m % 2 == 0 && m / 2 == i - 1);
                } else if m == 2 * i - 1 {
                    assert(m % 2 == 1 && m / 2 == i - 1);
                }
            }
        }
    }
    proof {
        assert(v@ =~= old(v)@ + be16_words(data@));
    }
}

// ===========================================================================
// Profile data model
// ===========================================================================

/// An XYZ triple in s15Fixed16 encoding (the value times 65536).
#[derive(Debug, Clone, Copy, PartialEq, Eq, Structural)]
pub struct IccXyz {
    pub x: i32,
    pub y: i32,
    pub z: i32,
}

/// A 3D lookup table: `grid_points` nodes per axis, three 16-bit output
/// channels per node, innermost axis blue.
#[derive(Debug, Clone, PartialEq)]
pub struct Lut3D {
    pub grid_points: u8,
    /// CLUT entries as stored, `grid_points` cubed times 3 of them.
    pub data: Vec<u16>,
}

impl Lut3D {
    /// The entry count matches the grid.
    pub open spec fn wf(self) -> bool {
        self.data@.len() == self.grid_points as int * self.grid_points as int
            * self.grid_points as int * 3
    }

    /// Create a zero-filled lookup table with the given grid size.
    pub fn new(grid_points: u8) -> (r: Lut3D)
        ensures
            r.wf(),
            r.grid_points == grid_points,
            forall|i: int| 0 <= i < r.data@.len() ==> r.data@[i] == 0u16,
    {
        let n = grid_points as usize;
        proof {
            assert(n * n <= 65025 && n * n * n <= 16581375 && n * n * n * 3 <= 49744125)
                by (nonlinear_arith)
                requires
                    n <= 255,
            ;
        }
        let size: usize = n * n * n * 3;
        let data: Vec<u16> = vec![0u16; size];
        Lut3D { grid_points, data }
    }
}

/// A simple ICC matrix-shaper profile.
#[derive(Debug, Clone, PartialEq)]
pub struct IccProfile {
    pub description: String,
    pub copyright: String,
    /// White point, s15Fixed16 XYZ.
    pub white_point: IccXyz,
    pub red_primary: IccXyz,
    pub green_primary: IccXyz,
    pub blue_primary: IccXyz,
    /// Tone curve exponent in `curv` encoding (the value times 256).
    pub gamma: u16,
    pub lut: Option<Lut3D>,
}

impl IccProfile {
    /// Bounds that keep every tag offset inside a 32-bit profile size.
    pub open spec fn wf(self) -> bool {
        &&& encode_utf8(self.description@).len() <= 0xffff
        &&& encode_utf8(self.copyright@).len() <= 0xffff
        &&& (self.lut matches Some(l) ==> l.wf())
    }

    /// An sRGB-like monitor profile: D50 white, the sRGB primaries adapted
    /// to D50, and a plain 2.2 gamma, all in their ICC fixed-point encoding.
    pub fn new_srgb_like(description: &str) -> (r: IccProfile)
        ensures
            r.description@ == description@,
            r.copyright@ == "Copyright (c) 2025 spectro-rs"@,
            r.white_point == (IccXyz { x: 63190, y: 65536, z: 54061 }),
            r.red_primary == (IccXyz { x: 28578, y: 14581, z: 912 }),
            r.green_primary == (IccXyz { x: 25241, y: 46981, z: 6362 }),
            r.blue_primary == (IccXyz { x: 9376, y: 3972, z: 46799 }),
            r.gamma == 563,
            r.lut is None,
    {
        IccProfile {
            description: description.to_owned(),
            copyright: "Copyright (c) 2025 spectro-rs".to_owned(),
            white_point: IccXyz { x: 63190, y: 65536, z: 54061 },
            red_primary: IccXyz { x: 28578, y: 14581, z: 912 },
            green_primary: IccXyz { x: 25241, y: 46981, z: 6362 },
            blue_primary: IccXyz { x: 9376, y: 3972, z: 46799 },
            gamma: 563,
            lut: None,
        }
    }
}

// ===========================================================================
// Tag encodings
// ===========================================================================

/// An `XYZ ` tag: signature, four reserved bytes, three s15Fixed16 values.
pub open spec fn xyz_tag_bytes(v: IccXyz) -> Seq<u8> {
    sig4(0x58, 0x59, 0x5A, 0x20) + zeros(4) + be_i32(v.x) + be_i32(v.y) + be_i32(v.z)
}

/// A single-gamma `curv` tag: one entry holding the gamma times 256, padded
/// to a 4-byte boundary.
pub open spec fn trc_tag_bytes(gamma: u16) -> Seq<u8> {
    sig4(0x63, 0x75, 0x72, 0x76) + zeros(4) + be32(1) + be16(gamma) + zeros(2)
}

/// A `text` tag: NUL-terminated ASCII.
pub open spec fn text_tag_bytes(text: Seq<char>) -> Seq<u8> {
    sig4(0x74, 0x65, 0x78, 0x74) + zeros(4) + encode_utf8(text) + seq![0u8]
}

/// A V2 `desc` tag: the NUL-terminated description and 67 bytes of zeroed
/// localization fields.
pub open spec fn desc_tag_bytes(desc: Seq<char>) -> Seq<u8> {
    sig4(0x64, 0x65, 0x73, 0x63) + zeros(4) + be32((encode_utf8(desc).len() + 1) as u32)
        + encode_utf8(desc) + seq![0u8] + zeros(67)
}

/// An identity 2-entry channel table for all three channels of an `mft2`
/// input or output side.
pub open spec fn identity_tables() -> Seq<u8> {
    be16(0) + be16(0xffff) + be16(0) + be16(0xffff) + be16(0) + be16(0xffff)
}

/// An `mft2` tag: 3 input and output channels, an identity matrix, 2-entry
/// identity input and output tables, and the CLUT entries.
pub open spec fn lut16_tag_bytes(grid: u8, data: Seq<u16>) -> Seq<u8> {
    sig4(0x6D, 0x66, 0x74, 0x32) + zeros(4) + seq![3u8, 3u8, grid, 0u8] + be_i32(65536) + be_i32(0)
        + be_i32(0) + be_i32(0) + be_i32(65536) + be_i32(0) + be_i32(0) + be_i32(0) + be_i32(65536)
        + be16(2) + be16(2) + identity_tables() + be16_words(data) + identity_tables()
}

/// The 128-byte profile header for a given total size.
pub open spec fn header_bytes(total: u32) -> Seq<u8> {
    be32(total)  // profile size
     + sig4(0x73, 0x63, 0x72, 0x73)  // CMM type
     + seq![0x02u8, 0x40u8, 0x00u8, 0x00u8]  // version 2.4
     + sig4(0x6D, 0x6E, 0x74, 0x72)  // device class: monitor
     + sig4(0x52, 0x47, 0x42, 0x20)  // data color space
     + sig4(0x58, 0x59, 0x5A, 0x20)  // connection space
     + zeros(12)  // creation date
     + sig4(0x61, 0x63, 0x73, 0x70)  // file signature
     + sig4(0x41, 0x50, 0x50, 0x4C)  // primary platform
     + zeros(4)  // flags
     + sig4(0x6E, 0x6F, 0x6E, 0x65)  // device manufacturer
     + sig4(0x6E, 0x6F, 0x6E, 0x65)  // device model
     + zeros(8)  // device attributes
     + zeros(4)  // rendering intent
     + be_i32(63190) + be_i32(65536) + be_i32(54061)  // D50 illuminant
     + sig4(0x73, 0x63, 0x72, 0x73)  // creator
     + zeros(44)  // reserved
}

/// One tag-table entry: signature, offset, size.
pub open spec fn entry_bytes(a: u8, b: u8, c: u8, d: u8, off: u32, len: u32) -> Seq<u8> {
    sig4(a, b, c, d) + be32(off) + be32(len)
}

/// Length of the `desc` tag data.
pub open spec fn spec_desc_len(p: IccProfile) -> int {
    80 + encode_utf8(p.description@).len() as int
}

/// Length of the `cprt` tag data.
pub open spec fn spec_cprt_len(p: IccProfile) -> int {
    9 + encode_utf8(p.copyright@).len() as int
}

/// Length of the `A2B0` tag data.
pub open spec fn spec_lut_len(l: Lut3D) -> int {
    76 + 2 * l.data@.len() as int
}

/// Total profile size in bytes.
pub open spec fn spec_profile_size(p: IccProfile) -> int {
    let fixed = spec_desc_len(p) + 4 * 20 + 3 * 16 + spec_cprt_len(p);
    match p.lut {
        Some(l) => 132 + 12 * 10 + fixed + spec_lut_len(l),
        None => 132 + 12 * 9 + fixed,
    }
}

/// The complete profile byte stream: header, tag count, tag table, tag data,
/// in the order the tags are listed.
pub open spec fn profile_bytes(p: IccProfile) -> Seq<u8> {
    let dl = spec_desc_len(p);
    let cl = spec_cprt_len(p);
    let n: int = if p.lut is Some {
        10
    } else {
        9
    };
    let base = 132 + 12 * n;
    let o_desc = base;
    let o_wtpt = o_desc + dl;
    let o_rxyz = o_wtpt + 20;
    let o_gxyz = o_rxyz + 20;
    let o_bxyz = o_gxyz + 20;
    let o_rtrc = o_bxyz + 20;
    let o_gtrc = o_rtrc + 16;
    let o_btrc = o_gtrc + 16;
    let o_cprt = o_btrc + 16;
    let o_lut = o_cprt + cl;
    let head = header_bytes(spec_profile_size(p) as u32) + be32(n as u32) + entry_bytes(
        0x64,
        0x65,
        0x73,
        0x63,
        o_desc as u32,
        dl as u32,
    ) + entry_bytes(0x77, 0x74, 0x70, 0x74, o_wtpt as u32, 20) + entry_bytes(
        0x72,
        0x58,
        0x59,
        0x5A,
        o_rxyz as u32,
        20,
    ) + entry_bytes(0x67, 0x58, 0x59, 0x5A, o_gxyz as u32, 20) + entry_bytes(
        0x62,
        0x58,
        0x59,
        0x5A,
        o_bxyz as u32,
        20,
    ) + entry_bytes(0x72, 0x54, 0x52, 0x43, o_rtrc as u32, 16) + entry_bytes(
        0x67,
        0x54,
        0x52,
        0x43,
        o_gtrc as u32,
        16,
    ) + entry_bytes(0x62, 0x54, 0x52, 0x43, o_btrc as u32, 16) + entry_bytes(
        0x63,
        0x70,
        0x72,
        0x74,
        o_cprt as u32,
        cl as u32,
    );
    let table = match p.lut {
        Some(l) => head + entry_bytes(0x41, 0x32, 0x42, 0x30, o_lut as u32, spec_lut_len(l) as u32),
        None => head,
    };
    let body = table + desc_tag_bytes(p.description@) + xyz_tag_bytes(p.white_point)
        + xyz_tag_bytes(p.red_primary) + xyz_tag_bytes(p.green_primary) + xyz_tag_bytes(
        p.blue_primary,
    ) + trc_tag_bytes(p.gamma) + trc_tag_bytes(p.gamma) + trc_tag_bytes(p.gamma) + text_tag_bytes(
        p.copyright@,
    );
    match p.lut {
        Some(l) => body + lut16_tag_bytes(l.grid_points, l.data@),
        None => body,
    }
}

// ===========================================================================
// Tag builders
// ===========================================================================

fn build_xyz_tag(v: IccXyz) -> (r: Vec<u8>)
    ensures
        r@ == xyz_tag_bytes(v),
        r@.len() == 20,
{
    let mut r: Vec<u8> = Vec::new();
    push_sig(&mut r, 0x58, 0x59, 0x5A, 0x20);
    push_zeros(&mut r, 4);
    push_be_i32(&mut r, v.x);
    push_be_i32(&mut r, v.y);
    push_be_i32(&mut r, v.z);
    proof {
        assert(Seq::<u8>::empty() + sig4(0x58, 0x59, 0x5A, 0x20) =~= sig4(0x58, 0x59, 0x5A, 0x20));
    }
    r
}

fn build_trc_tag(gamma: u16) -> (r: Vec<u8>)
    ensures
        r@ == trc_tag_bytes(gamma),
        r@.len() == 16,
{
    let mut r: Vec<u8> = Vec::new();
    push_sig(&mut r, 0x63, 0x75, 0x72, 0x76);
    push_zeros(&mut r, 4);
    push_be32(&mut r, 1);
    push_be16(&mut r, gamma);
    push_zeros(&mut r, 2);
    proof {
        assert(Seq::<u8>::empty() + sig4(0x63, 0x75, 0x72, 0x76) =~= sig4(0x63, 0x75, 0x72, 0x76));
    }
    r
}

fn build_text_tag(text: &str) -> (r: Vec<u8>)
    ensures
        r@ == text_tag_bytes(text@),
        r@.len() == 9 + encode_utf8(text@).len(),
{
    let mut r: Vec<u8> = Vec::new();
    push_sig(&mut r, 0x74, 0x65, 0x78, 0x74);
    push_zeros(&mut r, 4);
    push_str_bytes(&mut r, text);
    r.push(0u8);
    proof {
        assert(Seq::<u8>::empty() + sig4(0x74, 0x65, 0x78, 0x74) =~= sig4(0x74, 0x65, 0x78, 0x74));
        assert(r@ =~= text_tag_bytes(text@));
    }
    r
}

fn build_desc_tag(desc: &str) -> (r: Vec<u8>)
    requires
        encode_utf8(desc@).len() <= 0xffff,
    ensures
        r@ == desc_tag_bytes(desc@),
        r@.len() == 80 + encode_utf8(desc@).len(),
{
    let mut r: Vec<u8> = Vec::new();
    push_sig(&mut r, 0x64, 0x65, 0x73, 0x63);
    push_zeros(&mut r, 4);
    let dlen: usize = desc.as_bytes().len();
    push_be32(&mut r, (dlen as u32) + 1);
    push_str_bytes(&mut r, desc);
    r.push(0u8);
    push_zeros(&mut r, 67);
    proof {
        assert(Seq::<u8>::empty() + sig4(0x64, 0x65, 0x73, 0x63) =~= sig4(0x64, 0x65, 0x73, 0x63));
        assert(r@ =~= desc_tag_bytes(desc@));
    }
    r
}

fn build_lut16_tag(l: &Lut3D) -> (r: Vec<u8>)
    ensures
        r@ == lut16_tag_bytes(l.grid_points, l.data@),
        r@.len() == spec_lut_len(*l),
{
    let mut r: Vec<u8> = Vec::new();
    push_sig(&mut r, 0x6D, 0x66, 0x74, 0x32);
    push_zeros(&mut r, 4);
    r.push(3u8);
    r.push(3u8);
    r.push(l.grid_points);
    r.push(0u8);
    proof {
        assert(Seq::<u8>::empty() + sig4(0x6D, 0x66, 0x74, 0x32) =~= sig4(0x6D, 0x66, 0x74, 0x32));
        assert(r@ =~= sig4(0x6D, 0x66, 0x74, 0x32) + zeros(4) + seq![3u8, 3u8, l.grid_points, 0u8]);
    }
    push_be_i32(&mut r, 65536);
    push_be_i32(&mut r, 0);
    push_be_i32(&mut r, 0);
    push_be_i32(&mut r, 0);
    push_be_i32(&mut r, 65536);
    push_be_i32(&mut r, 0);
    push_be_i32(&mut r, 0);
    push_be_i32(&mut r, 0);
    push_be_i32(&mut r, 65536);
    push_be16(&mut r, 2);
    push_be16(&mut r, 2);
    push_be16(&mut r, 0);
    push_be16(&mut r, 0xffff);
    push_be16(&mut r, 0);
    push_be16(&mut r, 0xffff);
    push_be16(&mut r, 0);
    push_be16(&mut r, 0xffff);
    push_be16_words(&mut r, &l.data);
    push_be16(&mut r, 0);
    push_be16(&mut r, 0xffff);
    push_be16(&mut r, 0);
    push_be16(&mut r, 0xffff);
    push_be16(&mut r, 0);
    push_be16(&mut r, 0xffff);
    proof {
        assert(r@ =~= lut16_tag_bytes(l.grid_points, l.data@));
    }
    r
}

fn build_header(total: u32) -> (r: Vec<u8>)
    ensures
        r@ == header_bytes(total),
        r@.len() == 128,
{
    let mut r: Vec<u8> = Vec::new();
    push_be32(&mut r, total);
    push_sig(&mut r, 0x73, 0x63, 0x72, 0x73);
    r.push(0x02u8);
    r.push(0x40u8);
    r.push(0x00u8);
    r.push(0x00u8);
    proof {
        assert(Seq::<u8>::empty() + be32(total) =~= be32(total));
        assert(r@ =~= be32(total) + sig4(0x73, 0x63, 0x72, 0x73) + seq![
            0x02u8,
            0x40u8,
            0x00u8,
            0x00u8,
        ]);
    }
    push_sig(&mut r, 0x6D, 0x6E, 0x74, 0x72);
    push_sig(&mut r, 0x52, 0x47, 0x42, 0x20);
    push_sig(&mut r, 0x58, 0x59, 0x5A, 0x20);
    push_zeros(&mut r, 12);
    push_sig(&mut r, 0x61, 0x63, 0x73, 0x70);
    push_sig(&mut r, 0x41, 0x50, 0x50, 0x4C);
    push_zeros(&mut r, 4);
    push_sig(&mut r, 0x6E, 0x6F, 0x6E, 0x65);
    push_sig(&mut r, 0x6E, 0x6F, 0x6E, 0x65);
    push_zeros(&mut r, 8);
    push_zeros(&mut r, 4);
    push_be_i32(&mut r, 63190);
    push_be_i32(&mut r, 65536);
    push_be_i32(&mut r, 54061);
    push_sig(&mut r, 0x73, 0x63, 0x72, 0x73);
    push_zeros(&mut r, 44);
    proof {
        assert(r@ =~= header_bytes(total));
    }
    r
}

fn push_entry(v: &mut Vec<u8>, a: u8, b: u8, c: u8, d: u8, off: u32, len: u32)
    ensures
        final(v)@ == old(v)@ + entry_bytes(a, b, c, d, off, len),
{
    let mut e: Vec<u8> = Vec::new();
    push_sig(&mut e, a, b, c, d);
    push_be32(&mut e, off);
    push_be32(&mut e, len);
    proof {
        assert(Seq::<u8>::empty() + sig4(a, b, c, d) =~= sig4(a, b, c, d));
    }
    let mut e2 = e;
    v.append(&mut e2);
}

impl IccProfile {
    /// Serializes the profile: header, tag count, tag table, then the tag
    /// data in table order. The stream equals [`profile_bytes`] and its
    /// first four bytes carry the total length.
    #[verifier::rlimit(100)]
    pub fn to_bytes(&self) -> (r: Vec<u8>)
        requires
            self.wf(),
        ensures
            r@ == profile_bytes(*self),
            r@.len() == spec_profile_size(*self),
    {
        let dlen: usize = self.description.as_str().as_bytes().len();
        let clen: usize = self.copyright.as_str().as_bytes().len();
        let desc_len: usize = 80 + dlen;
        let cprt_len: usize = 9 + clen;
        let lut_len: usize = match &self.lut {
            Some(l) => {
                proof {
                    assert(l.data@.len() <= 255 * 255 * 255 * 3) by (nonlinear_arith)
                        requires
                            l.data@.len() == l.grid_points as int * l.grid_points as int
                                * l.grid_points as int * 3,
                            l.grid_points as int <= 255,
                    ;
                }
                76 + 2 * l.data.len()
            },
            None => 0,
        };
        let n_tags: usize = if self.lut.is_some() {
            10
        } else {
            9
        };
        let base: usize = 132 + 12 * n_tags;
        let o_desc: usize = base;
        let o_wtpt: usize = o_desc + desc_len;
        let o_rxyz: usize = o_wtpt + 20;
        let o_gxyz: usize = o_rxyz + 20;
        let o_bxyz: usize = o_gxyz + 20;
        let o_rtrc: usize = o_bxyz + 20;
        let o_gtrc: usize = o_rtrc + 16;
        let o_btrc: usize = o_gtrc + 16;
        let o_cprt: usize = o_btrc + 16;
        let o_lut: usize = o_cprt + cprt_len;
        let total: usize = o_lut + lut_len;

        let mut out: Vec<u8> = Vec::new();
        let mut header = build_header(total as u32);
        out.append(&mut header);
        proof {
            assert(Seq::<u8>::empty() + header_bytes(total as u32) =~= header_bytes(total as u32));
        }
        push_be32(&mut out, n_tags as u32);
        push_entry(&mut out, 0x64, 0x65, 0x73, 0x63, o_desc as u32, desc_len as u32);
        push_entry(&mut out, 0x77, 0x74, 0x70, 0x74, o_wtpt as u32, 20);
        push_entry(&mut out, 0x72, 0x58, 0x59, 0x5A, o_rxyz as u32, 20);
        push_entry(&mut out, 0x67, 0x58, 0x59, 0x5A, o_gxyz as u32, 20);
        push_entry(&mut out, 0x62, 0x58, 0x59, 0x5A, o_bxyz as u32, 20);
        push_entry(&mut out, 0x72, 0x54, 0x52, 0x43, o_rtrc as u32, 16);
        push_entry(&mut out, 0x67, 0x54, 0x52, 0x43, o_gtrc as u32, 16);
        push_entry(&mut out, 0x62, 0x54, 0x52, 0x43, o_btrc as u32, 16);
        push_entry(&mut out, 0x63, 0x70, 0x72, 0x74, o_cprt as u32, cprt_len as u32);
        match &self.lut {
            Some(l) => {
                push_entry(&mut out, 0x41, 0x32, 0x42, 0x30, o_lut as u32, lut_len as u32);
            },
            None => (),
        }
        let mut d_desc = build_desc_tag(self.description.as_str());
        out.append(&mut d_desc);
        let mut d_wtpt = build_xyz_tag(self.white_point);
        out.append(&mut d_wtpt);
        let mut d_rxyz = build_xyz_tag(self.red_primary);
        out.append(&mut d_rxyz);
        let mut d_gxyz = build_xyz_tag(self.green_primary);
        out.append(&mut d_gxyz);
        let mut d_bxyz = build_xyz_tag(self.blue_primary);
        out.append(&mut d_bxyz);
        let mut d_rtrc = build_trc_tag(self.gamma);
        out.append(&mut d_rtrc);
        let mut d_gtrc = build_trc_tag(self.gamma);
        out.append(&mut d_gtrc);
        let mut d_btrc = build_trc_tag(self.gamma);
        out.append(&mut d_btrc);
        let mut d_cprt = build_text_tag(self.copyright.as_str());
        out.append(&mut d_cprt);
        match &self.lut {
            Some(l) => {
                let mut d_lut = build_lut16_tag(l);
                out.append(&mut d_lut);
            },
            None => (),
        }
        proof {
            assert(out@ =~= profile_bytes(*self));
        }
        out
    }
}

} // verus!
