//! Framing of a shape's model for persistence.
//!
//! The persistence collaborator stores real geometry in its own file
//! format; what the control layer itself owes a file round trip is that the
//! attributes it tracks — name, dimensionality, extent — survive one.  This
//! module frames exactly those attributes as bytes and parses them back,
//! with a proved lossless round trip.  Reading and writing the bytes is the
//! shell's job.
//!
//! Layout: a format tag; the dimension (presence byte, then eight
//! little-endian bytes); the extent (presence byte, then sign byte and
//! eight-byte magnitude for each bound); the name length as eight
//! little-endian bytes; the name bytes, which must end the buffer exactly.

use vstd::prelude::*;

use crate::shape::{shape_wf, Shape, ShapeV, COORD_LIMIT};

verus! {

/// First byte of every framed shape.
pub const FORMAT_TAG: u8 = 1;

/// The eight little-endian bytes of a 64-bit value.
pub open spec fn u64_le_bytes(x: u64) -> Seq<u8> {
    seq![
        (x & 0xff) as u8,
        ((x >> 8) & 0xff) as u8,
        ((x >> 16) & 0xff) as u8,
        ((x >> 24) & 0xff) as u8,
        ((x >> 32) & 0xff) as u8,
        ((x >> 40) & 0xff) as u8,
        ((x >> 48) & 0xff) as u8,
        ((x >> 56) & 0xff) as u8,
    ]
}

/// The 64-bit value of eight little-endian bytes at `i`.
pub open spec fn u64_from_le_at(s: Seq<u8>, i: int) -> u64 {
    (s[i] as u64) | ((s[i + 1] as u64) << 8) | ((s[i + 2] as u64) << 16) | ((s[i + 3] as u64)
        << 24) | ((s[i + 4] as u64) << 32) | ((s[i + 5] as u64) << 40) | ((s[i + 6] as u64) << 48)
        | ((s[i + 7] as u64) << 56)
}

/// Reassembling the eight bytes of a value gives the value back.
pub proof fn lemma_u64_le_roundtrip(x: u64)
    ensures
        u64_from_le_at(u64_le_bytes(x), 0) == x,
{
    let s = u64_le_bytes(x);
    assert(s[0] == (x & 0xff) as u8);
    assert(s[1] == ((x >> 8) & 0xff) as u8);
    assert(s[2] == ((x >> 16) & 0xff) as u8);
    assert(s[3] == ((x >> 24) & 0xff) as u8);
    assert(s[4] == ((x >> 32) & 0xff) as u8);
    assert(s[5] == ((x >> 40) & 0xff) as u8);
    assert(s[6] == ((x >> 48) & 0xff) as u8);
    assert(s[7] == ((x >> 56) & 0xff) as u8);
    assert((((x & 0xff) as u8) as u64) | (((((x >> 8) & 0xff) as u8) as u64) << 8) | (((((x >> 16)
        & 0xff) as u8) as u64) << 16) | (((((x >> 24) & 0xff) as u8) as u64) << 24) | (((((x >> 32)
        & 0xff) as u8) as u64) << 32) | (((((x >> 40) & 0xff) as u8) as u64) << 40) | (((((x >> 48)
        & 0xff) as u8) as u64) << 48) | (((((x >> 56) & 0xff) as u8) as u64) << 56) == x)
        by (bit_vector);
}

/// Eight bytes found where a value was written reassemble to that value.
pub proof fn lemma_u64_at(s: Seq<u8>, i: int, x: u64)
    requires
        0 <= i,
        i + 8 <= s.len(),
        forall|k: int| 0 <= k < 8 ==> s[i + k] == u64_le_bytes(x)[k],
    ensures
        u64_from_le_at(s, i) == x,
{
    lemma_u64_le_roundtrip(x);
    assert(s[i + 0] == u64_le_bytes(x)[0]);
    assert(s[i + 1] == u64_le_bytes(x)[1]);
    assert(s[i + 2] == u64_le_bytes(x)[2]);
    assert(s[i + 3] == u64_le_bytes(x)[3]);
    assert(s[i + 4] == u64_le_bytes(x)[4]);
    assert(s[i + 5] == u64_le_bytes(x)[5]);
    assert(s[i + 6] == u64_le_bytes(x)[6]);
    assert(s[i + 7] == u64_le_bytes(x)[7]);
}

/// The framed dimension: a presence byte, then the value.
pub open spec fn dim_bytes(dim: Option<int>) -> Seq<u8> {
    match dim {
        None => seq![0u8],
        Some(d) => seq![1u8] + u64_le_bytes(d as u64),
    }
}

/// A framed coordinate: a sign byte, then the magnitude.
pub open spec fn coord_bytes(c: int) -> Seq<u8> {
    if c < 0 {
        seq![1u8] + u64_le_bytes((-c) as u64)
    } else {
        seq![0u8] + u64_le_bytes(c as u64)
    }
}

/// The framed extent: a presence byte, then both bounds.
pub open spec fn extent_bytes(e: Option<(int, int)>) -> Seq<u8> {
    match e {
        None => seq![0u8],
        Some((lo, hi)) => seq![1u8] + coord_bytes(lo) + coord_bytes(hi),
    }
}

/// The framed form of a shape's model.
pub open spec fn spec_encode(v: ShapeV) -> Seq<u8> {
    seq![FORMAT_TAG] + dim_bytes(v.dim) + extent_bytes(v.extent) + u64_le_bytes(
        v.name.len() as u64,
    ) + v.name
}

/// Parses the dimension at `i`: the value and the next index.
pub open spec fn dec_dim(s: Seq<u8>, i: int) -> Option<(Option<int>, int)> {
    if i + 1 <= s.len() && s[i] == 0u8 {
        Some((None::<int>, i + 1))
    } else if i + 9 <= s.len() && s[i] == 1u8 {
        let d = u64_from_le_at(s, i + 1);
        if d <= usize::MAX as u64 {
            Some((Some(d as int), i + 9))
        } else {
            None
        }
    } else {
        None
    }
}

/// Parses one coordinate at `i`: the value and the next index.
pub open spec fn dec_coord(s: Seq<u8>, i: int) -> Option<(int, int)> {
    if i + 9 <= s.len() && (s[i] == 0u8 || s[i] == 1u8) {
        let m = u64_from_le_at(s, i + 1);
        if m <= COORD_LIMIT as u64 {
            Some((if s[i] == 1u8 { -(m as int) } else { m as int }, i + 9))
        } else {
            None
        }
    } else {
        None
    }
}

/// Parses the extent at `i`: the value and the next index.
pub open spec fn dec_extent(s: Seq<u8>, i: int) -> Option<(Option<(int, int)>, int)> {
    if i + 1 <= s.len() && s[i] == 0u8 {
        Some((None::<(int, int)>, i + 1))
    } else if i + 1 <= s.len() && s[i] == 1u8 {
        match dec_coord(s, i + 1) {
            None => None,
            Some((lo, j)) => match dec_coord(s, j) {
                None => None,
                Some((hi, k)) => if lo <= hi {
                    Some((Some((lo, hi)), k))
                } else {
                    None
                },
            },
        }
    } else {
        None
    }
}

/// Parses the name at `i`; it must end the buffer exactly.
pub open spec fn dec_name(s: Seq<u8>, i: int) -> Option<Seq<u8>> {
    if i + 8 <= s.len() {
        let n = u64_from_le_at(s, i) as int;
        if n <= usize::MAX as int && i + 8 + n == s.len() {
            Some(s.subrange(i + 8, s.len() as int))
        } else {
            None
        }
    } else {
        None
    }
}

/// The shape's model a byte buffer frames, if it frames one.
pub open spec fn spec_decode(s: Seq<u8>) -> Option<ShapeV> {
    if s.len() < 1 || s[0] != FORMAT_TAG {
        None
    } else {
        match dec_dim(s, 1) {
            None => None,
            Some((dim, i)) => match dec_extent(s, i) {
                None => None,
                Some((extent, j)) => match dec_name(s, j) {
                    None => None,
                    Some(name) => Some(ShapeV { name, dim, extent }),
                },
            },
        }
    }
}

/// Appends the eight little-endian bytes of `x`.
fn push_u64(out: &mut Vec<u8>, x: u64)
    ensures
        final(out)@ == old(out)@ + u64_le_bytes(x),
{
    out.push((x & 0xff) as u8);
    out.push(((x >> 8) & 0xff) as u8);
    out.push(((x >> 16) & 0xff) as u8);
    out.push(((x >> 24) & 0xff) as u8);
    out.push(((x >> 32) & 0xff) as u8);
    out.push(((x >> 40) & 0xff) as u8);
    out.push(((x >> 48) & 0xff) as u8);
    out.push(((x >> 56) & 0xff) as u8);
    proof {
        assert(out@ =~= old(out)@ + u64_le_bytes(x));
    }
}

/// Appends a framed coordinate.
fn push_coord(out: &mut Vec<u8>, c: i64)
    requires
        -COORD_LIMIT <= c && c <= COORD_LIMIT,
    ensures
        final(out)@ == old(out)@ + coord_bytes(c as int),
{
    if c < 0 {
        out.push(1);
        push_u64(out, (-c) as u64);
    } else {
        out.push(0);
        push_u64(out, c as u64);
    }
    proof {
        assert(out@ =~= old(out)@ + coord_bytes(c as int));
    }
}

/// Reads the value of the eight little-endian bytes at `i`.
fn read_u64(s: &Vec<u8>, i: usize) -> (x: u64)
    requires
        i + 8 <= s@.len(),
    ensures
        x == u64_from_le_at(s@, i as int),
{
    let len: usize = s.len();
    proof {
        assert(i + 8 <= len);
    }
    (s[i] as u64) | ((s[i + 1] as u64) << 8) | ((s[i + 2] as u64) << 16) | ((s[i + 3] as u64)
        << 24) | ((s[i + 4] as u64) << 32) | ((s[i + 5] as u64) << 40) | ((s[i + 6] as u64) << 48)
        | ((s[i + 7] as u64) << 56)
}

/// Frames the attributes of a shape, as [`spec_encode`] describes.
pub fn encode(shape: &Shape) -> (out: Vec<u8>)
    requires
        shape_wf(shape@),
    ensures
        out@ == spec_encode(shape@),
{
    let mut out: Vec<u8> = Vec::new();
    out.push(FORMAT_TAG);
    match shape.dim {
        None => out.push(0),
        Some(d) => {
            out.push(1);
            push_u64(&mut out, d as u64);
        },
    }
    let ghost after_dim = out@;
    proof {
        assert(after_dim =~= seq![FORMAT_TAG] + dim_bytes(shape@.dim));
    }
    match shape.extent {
        None => out.push(0),
        Some((lo, hi)) => {
            out.push(1);
            push_coord(&mut out, lo);
            push_coord(&mut out, hi);
        },
    }
    let ghost after_extent = out@;
    proof {
        assert(after_extent =~= after_dim + extent_bytes(shape@.extent));
    }
    push_u64(&mut out, shape.name.len() as u64);
    let mut k: usize = 0;
    let ghost before_name = out@;
    while k < shape.name.len()
        invariant
            k <= shape.name.len(),
            out@ == before_name + shape.name@.subrange(0, k as int),
        decreases shape.name.len() - k,
    {
        out.push(shape.name[k]);
        k = k + 1;
        proof {
            assert(out@ =~= before_name + shape.name@.subrange(0, k as int));
        }
    }
    proof {
        assert(shape.name@.subrange(0, shape.name@.len() as int) =~= shape.name@);
        assert(out@ =~= spec_encode(shape@));
    }
    out
}

/// Parses a framed shape back, as [`spec_decode`] describes: the attributes
/// framed by [`encode`], or nothing for any buffer that is not exactly a
/// frame of a well-formed shape.
pub fn decode(bytes: &Vec<u8>) -> (r: Option<Shape>)
    ensures
        match r {
            Some(sh) => spec_decode(bytes@) == Some(sh@) && shape_wf(sh@),
            None => spec_decode(bytes@) is None,
        },
{
    if bytes.len() < 1 || bytes[0] != FORMAT_TAG {
        return None;
    }
    // dimension
    let i: usize = 1;
    let dim: Option<usize>;
    let i2: usize;
    if i < bytes.len() && bytes[i] == 0 {
        dim = None;
        i2 = i + 1;
    } else if bytes.len() - i >= 9 && bytes[i] == 1 {
        let d64 = read_u64(bytes, i + 1);
        if d64 <= usize::MAX as u64 {
            dim = Some(d64 as usize);
            i2 = i + 9;
        } else {
            return None;
        }
    } else {
        return None;
    }
    proof {
        assert(dec_dim(bytes@, 1) matches Some((d, j)) && d == (match dim {
            Some(u) => Some(u as int),
            None => None::<int>,
        }) && j == i2 as int);
    }
    // extent
    let extent: Option<(i64, i64)>;
    let i3: usize;
    if i2 < bytes.len() && bytes[i2] == 0 {
        extent = None;
        i3 = i2 + 1;
    } else if i2 < bytes.len() && bytes[i2] == 1 {
        let lo: i64;
        if bytes.len() - (i2 + 1) >= 9 && (bytes[i2 + 1] == 0 || bytes[i2 + 1] == 1) {
            let m = read_u64(bytes, i2 + 2);
            if m <= COORD_LIMIT as u64 {
                lo = if bytes[i2 + 1] == 1 {
                    -(m as i64)
                } else {
                    m as i64
                };
            } else {
                return None;
            }
        } else {
            return None;
        }
        let j = i2 + 10;
        let hi: i64;
        if bytes.len() - j >= 9 && (bytes[j] == 0 || bytes[j] == 1) {
            let m = read_u64(bytes, j + 1);
            if m <= COORD_LIMIT as u64 {
                hi = if bytes[j] == 1 {
                    -(m as i64)
                } else {
                    m as i64
                };
            } else {
                return None;
            }
        } else {
            return None;
        }
        if lo <= hi {
            extent = Some((lo, hi));
            i3 = j + 9;
        } else {
            return None;
        }
    } else {
        return None;
    }
    proof {
        assert(dec_extent(bytes@, i2 as int) matches Some((e, j)) && e == (match extent {
            Some((a, b)) => Some((a as int, b as int)),
            None => None::<(int, int)>,
        }) && j == i3 as int);
    }
    // name
    if bytes.len() - i3 < 8 {
        return None;
    }
    let n = read_u64(bytes, i3);
    if !(n <= usize::MAX as u64 && (n as usize) == bytes.len() - (i3 + 8)) {
        return None;
    }
    let start = i3 + 8;
    let mut name: Vec<u8> = Vec::new();
    let mut k: usize = start;
    while k < bytes.len()
        invariant
            start <= k <= bytes@.len(),
            name@ == bytes@.subrange(start as int, k as int),
        decreases bytes@.len() - k,
    {
        name.push(bytes[k]);
        k = k + 1;
        proof {
            assert(name@ =~= bytes@.subrange(start as int, k as int));
        }
    }
    let sh = Shape { name, dim, extent };
    proof {
        assert(dec_name(bytes@, i3 as int) == Some(sh@.name));
        assert(spec_decode(bytes@) matches Some(v) && v =~= sh@);
    }
    Some(sh)
}

/// LAW — lossless round trip: parsing a frame of any well-formed shape
/// model reproduces that model exactly — name, dimensionality and extent.
#[verifier::rlimit(50)]
pub proof fn lemma_codec_roundtrip(v: ShapeV)
    requires
        shape_wf(v),
        v.dim matches Some(d) ==> 0 <= d <= usize::MAX as int,
        v.name.len() <= usize::MAX as int,
    ensures
        spec_decode(spec_encode(v)) == Some(v),
{
    let s = spec_encode(v);
    let db = dim_bytes(v.dim);
    let eb = extent_bytes(v.extent);
    let lb = u64_le_bytes(v.name.len() as u64);
    assert(s == seq![FORMAT_TAG] + db + eb + lb + v.name);
    assert(s[0] == FORMAT_TAG);
    let i2 = 1 + db.len() as int;
    // the dimension parses back
    match v.dim {
        None => {
            assert(s[1] == 0u8);
            assert(dec_dim(s, 1) == Some((None::<int>, i2)));
        },
        Some(d) => {
            assert(s[1] == 1u8);
            assert forall|k: int| 0 <= k < 8 implies #[trigger] s[2 + k] == u64_le_bytes(d as u64)[k] by {
                assert(db[1 + k] == u64_le_bytes(d as u64)[k]);
            }
            lemma_u64_at(s, 2, d as u64);
            assert(dec_dim(s, 1) == Some((Some(d), i2)));
        },
    }
    // the extent parses back
    let j = i2 + eb.len() as int;
    match v.extent {
        None => {
            assert(s[i2] == 0u8);
            assert(dec_extent(s, i2) == Some((None::<(int, int)>, j)));
        },
        Some((lo, hi)) => {
            assert(s[i2] == 1u8);
            let cl = coord_bytes(lo);
            let ch = coord_bytes(hi);
            assert(eb == seq![1u8] + cl + ch);
            assert(cl.len() == 9 && ch.len() == 9);
            assert forall|k: int| 0 <= k < 9 implies #[trigger] s[i2 + 1 + k] == coord_bytes(
                lo,
            )[k] by {
                assert(eb[1 + k] == cl[k]);
                assert(s[i2 + (1 + k)] == eb[1 + k]);
            }
            lemma_coord_at(s, i2 + 1, lo);
            assert(dec_coord(s, i2 + 1) == Some((lo, i2 + 10)));
            assert forall|k: int| 0 <= k < 9 implies #[trigger] s[i2 + 10 + k] == coord_bytes(
                hi,
            )[k] by {
                assert(eb[1 + 9 + k] == ch[k]);
                assert(s[i2 + (10 + k)] == eb[10 + k]);
            }
            lemma_coord_at(s, i2 + 10, hi);
            assert(dec_coord(s, i2 + 10) == Some((hi, j)));
            assert(dec_extent(s, i2) == Some((Some((lo, hi)), j)));
        },
    }
    // the name parses back
    assert forall|k: int| 0 <= k < 8 implies #[trigger] s[j + k] == u64_le_bytes(v.name.len() as u64)[k] by {
        assert(lb[k] == u64_le_bytes(v.name.len() as u64)[k]);
    }
    lemma_u64_at(s, j, v.name.len() as u64);
    assert forall|k: int| 0 <= k < v.name.len() implies #[trigger] s[j + 8 + k] == v.name[k] by {}
    assert(s.subrange(j + 8, s.len() as int) =~= v.name);
    assert(dec_name(s, j) == Some(v.name));
    assert(spec_decode(s) matches Some(w) && w =~= v);
}

/// The bytes of one framed coordinate parse back to it.
proof fn lemma_coord_at(s: Seq<u8>, i: int, c: int)
    requires
        0 <= i,
        i + 9 <= s.len(),
        -COORD_LIMIT <= c <= COORD_LIMIT,
        forall|k: int| 0 <= k < 9 ==> s[i + k] == coord_bytes(c)[k],
    ensures
        dec_coord(s, i) == Some((c, i + 9)),
{
    if c < 0 {
        assert(s[i + 0] == coord_bytes(c)[0]);
        assert(s[i] == 1u8);
        assert forall|k: int| 0 <= k < 8 implies #[trigger] s[i + 1 + k] == u64_le_bytes((-c) as u64)[k] by {
            assert(s[i + (1 + k)] == coord_bytes(c)[1 + k]);
        }
        lemma_u64_at(s, i + 1, (-c) as u64);
    } else {
        assert(s[i + 0] == coord_bytes(c)[0]);
        assert(s[i] == 0u8);
        assert forall|k: int| 0 <= k < 8 implies #[trigger] s[i + 1 + k] == u64_le_bytes(c as u64)[k] by {
            assert(s[i + (1 + k)] == coord_bytes(c)[1 + k]);
        }
        lemma_u64_at(s, i + 1, c as u64);
    }
}

} // verus!
