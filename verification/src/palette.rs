//! Palette expansion: indexed samples to RGB through a TIFF color map.
use vstd::prelude::*;
use vstd::arithmetic::power2::pow2;
use crate::error::ZentiffError;
use crate::samples::{Samples, index_rows, packed_row_len, unpack_palette_indices};

verus! {

/// Number of color map entries per channel for `bits`-bit indices: `2^bits`.
pub open spec fn palette_entries(bits: u8) -> int {
    pow2(bits as nat) as int
}

/// The palette indices held by decoded samples: unpacked sub-byte indices for 1 to 7 bits,
/// bytes for 8 bits, 16-bit samples for 9 to 16 bits; `None` for any other combination.
pub open spec fn palette_indices(width: u32, height: u32, bits: u8, result: Samples) -> Option<
    Seq<usize>,
> {
    match result {
        Samples::U8(v) => if 1 <= bits <= 7 {
            Some(index_rows(v@, width as int, bits, height as int))
        } else if bits == 8 {
            Some(v@.map_values(|b: u8| b as usize))
        } else {
            None
        },
        Samples::U16(v) => if 9 <= bits <= 16 {
            Some(v@.map_values(|b: u16| b as usize))
        } else {
            None
        },
        _ => None,
    }
}

/// Sub-byte indices are read row by row from packed rows; the rows must be there.
pub open spec fn packed_rows_present(width: u32, height: u32, bits: u8, result: Samples) -> bool {
    match result {
        Samples::U8(v) => 1 <= bits <= 7 ==> height * packed_row_len(width as int, bits as int)
            <= v@.len(),
        _ => true,
    }
}

/// RGB bytes of the first `count` indices: the high byte of the red, green and blue entries
/// of the color map, laid out as `[R0..Rn, G0..Gn, B0..Bn]` with `n` entries per channel.
pub open spec fn palette_rgb(map: Seq<u16>, n: int, idx: Seq<usize>, count: int) -> Seq<u8>
    decreases count,
{
    if count <= 0 {
        Seq::empty()
    } else {
        let i = idx[count - 1] as int;
        palette_rgb(map, n, idx, count - 1) + seq![
            (map[i] / 256) as u8,
            (map[n + i] / 256) as u8,
            (map[2 * n + i] / 256) as u8,
        ]
    }
}

/// Palette expansion gives three bytes per pixel, and pixel `k` takes its color from the
/// entry its index names: the high bytes of that entry's red, green and blue values, which the
/// color map holds in three runs of `n` entries.
pub proof fn lemma_palette_pixel_colors(map: Seq<u16>, n: int, idx: Seq<usize>, count: int, k: int)
    requires
        0 <= k < count,
    ensures
        palette_rgb(map, n, idx, count).len() == 3 * count,
        palette_rgb(map, n, idx, count).subrange(3 * k, 3 * k + 3) == seq![
            (map[idx[k] as int] / 256) as u8,
            (map[n + idx[k]] / 256) as u8,
            (map[2 * n + idx[k]] / 256) as u8,
        ],
    decreases count,
{
    lemma_palette_rgb_len(map, n, idx, count - 1);
    let prev = palette_rgb(map, n, idx, count - 1);
    let whole = palette_rgb(map, n, idx, count);
    if k < count - 1 {
        lemma_palette_pixel_colors(map, n, idx, count - 1, k);
        assert(whole.subrange(3 * k, 3 * k + 3) =~= prev.subrange(3 * k, 3 * k + 3));
    } else {
        assert(whole.subrange(3 * k, 3 * k + 3) =~= whole.subrange(prev.len() as int, prev.len() as int + 3));
    }
}

proof fn lemma_palette_rgb_len(map: Seq<u16>, n: int, idx: Seq<usize>, count: int)
    ensures
        palette_rgb(map, n, idx, count).len() == if count <= 0 { 0 } else { 3 * count },
    decreases count,
{
    if count > 0 {
        lemma_palette_rgb_len(map, n, idx, count - 1);
    }
}

/// Whether a palette image expands: the color map is complete, the depth is supported, there
/// is an index for every pixel, and every index names an entry of the map.
pub open spec fn palette_decodable(width: u32, height: u32, bits: u8, result: Samples, map: Seq<u16>) -> bool {
    let n = palette_entries(bits);
    &&& map.len() >= 3 * n
    &&& palette_indices(width, height, bits, result) matches Some(idx)
    &&& idx.len() >= width * height
    &&& forall|i: int| 0 <= i < width * height ==> (#[trigger] idx[i]) < n
}

/// Error message text, built with `format!`; no contract is claimed of the text.
#[verifier::external_body]
fn short_map_message(len: usize, expected: usize) -> String {
    format!("palette color map too short: {len} entries, expected {expected}")
}

/// Error message text, built with `format!`; no contract is claimed of the text.
#[verifier::external_body]
fn palette_depth_message(bits: u8) -> String {
    format!("unsupported palette bit depth: {bits}")
}

/// Error message text, built with `format!`; no contract is claimed of the text.
#[verifier::external_body]
fn short_indices_message(len: usize, pixels: usize) -> String {
    format!("palette data too short: {len} indices for {pixels} pixels")
}

/// Error message text, built with `format!`; no contract is claimed of the text.
#[verifier::external_body]
fn index_range_message(idx: usize, max: usize) -> String {
    format!("palette index {idx} out of range (max {max})")
}

fn widen_bytes(v: &Vec<u8>) -> (r: Vec<usize>)
    ensures
        r@ == v@.map_values(|b: u8| b as usize),
{
    let mut out: Vec<usize> = Vec::new();
    let mut i: usize = 0;
    while i < v.len()
        invariant
            0 <= i <= v@.len(),
            out@ == v@.take(i as int).map_values(|b: u8| b as usize),
        decreases v@.len() - i,
    {
        out.push(v[i] as usize);
        assert(v@.take(i + 1) =~= v@.take(i as int).push(v@[i as int]));
        i = i + 1;
    }
    assert(v@.take(v@.len() as int) =~= v@);
    out
}

fn widen_words(v: &Vec<u16>) -> (r: Vec<usize>)
    ensures
        r@ == v@.map_values(|b: u16| b as usize),
{
    let mut out: Vec<usize> = Vec::new();
    let mut i: usize = 0;
    while i < v.len()
        invariant
            0 <= i <= v@.len(),
            out@ == v@.take(i as int).map_values(|b: u16| b as usize),
        decreases v@.len() - i,
    {
        out.push(v[i] as usize);
        assert(v@.take(i + 1) =~= v@.take(i as int).push(v@[i as int]));
        i = i + 1;
    }
    assert(v@.take(v@.len() as int) =~= v@);
    out
}

/// Expands palette indices to RGB using the TIFF color map, which holds `3 * 2^bits` entries
/// laid out as `[R0..Rn, G0..Gn, B0..Bn]`; each entry is scaled from 16 to 8 bits by taking its
/// high byte. The result is `width * height` RGB8 pixels.
///
/// Errors: `Decode` for a short color map, too few indices or an index outside the map;
/// `Unsupported` for a depth that the samples do not carry.
pub fn expand_palette(width: u32, height: u32, bits: u8, result: Samples, color_map: &[u16]) -> (r:
    Result<Vec<u8>, ZentiffError>)
    requires
        bits < usize::BITS,
        3 * palette_entries(bits) <= usize::MAX,
        width * height <= usize::MAX,
        width * 8 <= usize::MAX,
        color_map@.len() >= 3 * palette_entries(bits) ==> packed_rows_present(
            width,
            height,
            bits,
            result,
        ),
    ensures
        r is Ok <==> palette_decodable(width, height, bits, result, color_map@),
        r matches Ok(v) ==> v@ == palette_rgb(
            color_map@,
            palette_entries(bits),
            palette_indices(width, height, bits, result)->0,
            width * height,
        ),
        r matches Err(e) ==> (e is Unsupported <==> (color_map@.len() >= 3 * palette_entries(bits)
            && palette_indices(width, height, bits, result) is None)),
        r matches Err(e) ==> (e is Unsupported || e is Decode),
{
    let ghost n = palette_entries(bits);
    let sh: usize = bits as usize;
    proof {
        vstd::bits::lemma_usize_pow2_no_overflow(sh as nat);
        vstd::bits::lemma_usize_shl_is_mul(1usize, sh);
    }
    let num_entries: usize = 1usize << sh;
    assert(num_entries == n);
    if color_map.len() < num_entries * 3 {
        return Err(ZentiffError::Decode(short_map_message(color_map.len(), num_entries * 3)));
    }
    let pixel_count: usize = width as usize * height as usize;
    let ghost spec_idx = palette_indices(width, height, bits, result);
    let indices: Vec<usize> = match result {
        Samples::U8(packed) => {
            if 1 <= bits && bits <= 7 {
                unpack_palette_indices(packed.as_slice(), width, height, bits)
            } else if bits == 8 {
                widen_bytes(&packed)
            } else {
                return Err(ZentiffError::Unsupported(palette_depth_message(bits)));
            }
        },
        Samples::U16(data) => {
            if 9 <= bits && bits <= 16 {
                widen_words(&data)
            } else {
                return Err(ZentiffError::Unsupported(palette_depth_message(bits)));
            }
        },
        _ => {
            return Err(ZentiffError::Unsupported(palette_depth_message(bits)));
        },
    };
    assert(spec_idx == Some(indices@));
    if indices.len() < pixel_count {
        return Err(ZentiffError::Decode(short_indices_message(indices.len(), pixel_count)));
    }
    let mut rgb: Vec<u8> = Vec::new();
    let mut i: usize = 0;
    while i < pixel_count
        invariant
            0 <= i <= pixel_count,
            pixel_count == width * height,
            pixel_count <= indices@.len(),
            num_entries == n,
            n == palette_entries(bits),
            0 < n,
            3 * n <= color_map@.len(),
            spec_idx == Some(indices@),
            spec_idx == palette_indices(width, height, bits, result),
            forall|j: int| 0 <= j < i ==> (#[trigger] indices@[j]) < n,
            rgb@ == palette_rgb(color_map@, n, indices@, i as int),
        decreases pixel_count - i,
    {
        let idx = indices[i];
        if idx >= num_entries {
            assert(indices@[i as int] >= n);
            assert(!palette_decodable(width, height, bits, result, color_map@)) by {
                let idx = spec_idx->0;
                assert(idx[i as int] >= n);
            }
            return Err(ZentiffError::Decode(index_range_message(idx, num_entries - 1)));
        }
        let red = color_map[idx];
        let green = color_map[num_entries + idx];
        let blue = color_map[2 * num_entries + idx];
        assert(red >> 8u16 == red / 256) by (bit_vector);
        assert(green >> 8u16 == green / 256) by (bit_vector);
        assert(blue >> 8u16 == blue / 256) by (bit_vector);
        rgb.push((red >> 8u16) as u8);
        rgb.push((green >> 8u16) as u8);
        rgb.push((blue >> 8u16) as u8);
        i = i + 1;
    }
    Ok(rgb)
}

} // verus!
