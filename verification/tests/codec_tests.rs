//! Tests of the persistence framing: the round trip and each rejection.

use polyview::codec::{decode, encode, FORMAT_TAG};
use polyview::shape::{Shape, COORD_LIMIT, SCALE};

fn shape(name: &str, dim: Option<usize>, extent: Option<(i64, i64)>) -> Shape {
    Shape { name: name.as_bytes().to_vec(), dim, extent }
}

#[test]
fn roundtrip_preserves_name_and_dimensionality() {
    let s = shape("pentachoron", Some(4), Some((-2 * SCALE, 3 * SCALE)));
    let bytes = encode(&s);
    let back = decode(&bytes).expect("a frame of a well-formed shape parses back");
    assert_eq!(back.name, s.name);
    assert_eq!(back.dim, s.dim);
    assert_eq!(back.extent, s.extent);
}

#[test]
fn roundtrip_of_a_bare_shape() {
    let s = shape("", None, None);
    let back = decode(&encode(&s)).unwrap();
    assert_eq!(back, s);
}

#[test]
fn roundtrip_of_extreme_coordinates() {
    let s = shape("vast", Some(1), Some((-COORD_LIMIT, COORD_LIMIT)));
    let back = decode(&encode(&s)).unwrap();
    assert_eq!(back, s);
}

#[test]
fn decode_rejects_an_empty_buffer() {
    assert!(decode(&Vec::new()).is_none());
}

#[test]
fn decode_rejects_a_wrong_tag() {
    let s = shape("cube", Some(3), None);
    let mut bytes = encode(&s);
    bytes[0] = FORMAT_TAG.wrapping_add(1);
    assert!(decode(&bytes).is_none());
}

#[test]
fn decode_rejects_a_truncated_frame() {
    let s = shape("cube", Some(3), Some((-SCALE, SCALE)));
    let bytes = encode(&s);
    for cut in 1..bytes.len() {
        let shorter = bytes[..cut].to_vec();
        assert!(decode(&shorter).is_none(), "a frame cut to {} bytes must be rejected", cut);
    }
}

#[test]
fn decode_rejects_trailing_garbage() {
    let s = shape("cube", Some(3), None);
    let mut bytes = encode(&s);
    bytes.push(0);
    assert!(decode(&bytes).is_none());
}

#[test]
fn decode_rejects_a_disordered_extent() {
    // frame of extent (7, 9): tag, dim presence, extent presence,
    // sign + magnitude of each bound, then the name
    let mut bytes = encode(&shape("x", None, Some((7, 9))));
    // swap the two magnitudes by hand: extent (9, 7)
    bytes[4] = 9;
    bytes[13] = 7;
    assert!(decode(&bytes).is_none());
}

#[test]
fn decode_rejects_a_coordinate_over_the_limit() {
    let mut bytes = encode(&shape("x", None, Some((0, COORD_LIMIT))));
    // bump the high bound's magnitude past the admitted coordinates
    let lim = COORD_LIMIT as u64 + 1;
    for (k, b) in lim.to_le_bytes().iter().enumerate() {
        bytes[13 + k] = *b;
    }
    assert!(decode(&bytes).is_none());
}
