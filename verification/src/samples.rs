//! Sample-level pixel transformations: sub-byte unpacking, plane interleaving,
//! channel adjustment and sample-type conversion.
use vstd::prelude::*;
use crate::exif::{u16_bytes, u32_bytes};
use crate::color::{TiffColorType, ChannelType, PixelDescriptor, layout_channels};
use crate::error::ZentiffError;

verus! {

/// The largest value of a `bits`-bit sample: `2^bits - 1`.
pub open spec fn sample_max(bits: u8) -> u16 {
    ((1u16 << bits) - 1) as u16
}

/// The `bits`-bit sample that starts at bit `off` of `row`, bits read most significant first.
/// A sample may span two bytes; a missing second byte reads as zero.
pub open spec fn packed_sample(row: Seq<u8>, off: int, bits: u8) -> u16 {
    let i = off / 8;
    let b = (off % 8) as u16;
    let hi = row[i] as u16;
    let lo: u16 = if i + 1 < row.len() {
        row[i + 1] as u16
    } else {
        0
    };
    (((hi << 8u16) | lo) >> ((16 - b - bits) as u16)) & sample_max(bits)
}

/// A `bits`-bit sample scaled to the full 0-255 range.
pub open spec fn scale_sample(raw: u16, bits: u8) -> u8 {
    (raw as int * 255 / sample_max(bits) as int) as u8
}

/// Number of bytes of one packed row of `spr` samples of `bits` bits.
pub open spec fn packed_row_len(spr: int, bits: int) -> int {
    (spr * bits + 7) / 8
}

/// The scaled samples of row `r` of a packed image.
pub open spec fn unpacked_row(packed: Seq<u8>, spr: int, bits: u8, r: int) -> Seq<u8> {
    let prb = packed_row_len(spr, bits as int);
    let row = packed.subrange(r * prb, r * prb + prb);
    Seq::new(spr as nat, |s: int| scale_sample(packed_sample(row, s * bits, bits), bits))
}

/// The scaled samples of the first `r` rows.
pub open spec fn unpacked_rows(packed: Seq<u8>, spr: int, bits: u8, r: int) -> Seq<u8>
    decreases r,
{
    if r <= 0 {
        Seq::empty()
    } else {
        unpacked_rows(packed, spr, bits, r - 1) + unpacked_row(packed, spr, bits, r - 1)
    }
}

proof fn lemma_sample_in_byte(x: u8, y: u8, bib: u8, bits: u8)
    requires
        1 <= bits <= 7,
        bib < 8,
        bib + bits <= 8,
    ensures
        ((x >> ((8 - bib - bits) as u8)) & (((1u8 << bits) - 1) as u8)) as u16 == (((x as u16)
            << 8u16) | (y as u16)) >> ((16 - bib - bits) as u16) & sample_max(bits),
{
    assert(((x >> ((8 - bib - bits) as u8)) & (((1u8 << bits) - 1) as u8)) as u16 == (((x as u16)
        << 8u16) | (y as u16)) >> ((16 - (bib as u16) - (bits as u16)) as u16) & (((1u16 << bits)
        - 1) as u16)) by (bit_vector)
        requires
            1 <= bits <= 7,
            bib < 8,
            bib + bits <= 8,
    ;
}

proof fn lemma_sample_bounded(v: u16, bits: u8)
    requires
        1 <= bits <= 7,
    ensures
        v & sample_max(bits) <= sample_max(bits),
        1 <= sample_max(bits) <= 127,
{
    assert((v & (((1u16 << bits) - 1) as u16)) <= (((1u16 << bits) - 1) as u16)) by (bit_vector);
    assert(1 <= bits <= 7 ==> 1 <= (((1u16 << bits) - 1) as u16) <= 127) by (bit_vector);
}

/// Reads the `bits`-bit sample at bit `bit_offset` of the row of `row_len` bytes that
/// starts at `row_start`.
fn read_packed_sample(packed: &[u8], row_start: usize, row_len: usize, bit_offset: usize, bits: u8) -> (raw: u16)
    requires
        1 <= bits <= 7,
        row_start + row_len <= packed@.len(),
        bit_offset + bits <= row_len * 8,
    ensures
        raw == packed_sample(packed@.subrange(row_start as int, row_start + row_len), bit_offset as int, bits),
        raw <= sample_max(bits),
{
    let ghost row_data = packed@.subrange(row_start as int, row_start + row_len);
    let _plen = packed.len();
    let byte_idx = bit_offset / 8;
    let bit_in_byte = bit_offset % 8;
    assert(byte_idx < row_len);
    let raw: u16 = if bit_in_byte + (bits as usize) <= 8 {
        let shift = (8 - bit_in_byte - bits as usize) as u8;
        let x = packed[row_start + byte_idx];
        assert(1 <= bits <= 7 ==> (1u8 << bits) >= 1) by (bit_vector);
        let v = (x >> shift) & ((1u8 << bits) - 1);
        proof {
            let y: u8 = if byte_idx + 1 < row_len {
                row_data[byte_idx + 1]
            } else {
                0
            };
            lemma_sample_in_byte(x, y, bit_in_byte as u8, bits);
            assert(row_data[byte_idx as int] == x);
        }
        v as u16
    } else {
        let hi = packed[row_start + byte_idx] as u16;
        let lo: u16 = if byte_idx + 1 < row_len {
            packed[row_start + byte_idx + 1] as u16
        } else {
            0
        };
        assert(1 <= bits <= 7 ==> (1u16 << bits) >= 1) by (bit_vector);
        let shift = (16 - bit_in_byte - bits as usize) as u16;
        ((hi << 8u16) | lo) >> shift & ((1u16 << bits) - 1)
    };
    proof {
        lemma_sample_bounded((((row_data[byte_idx as int] as u16) << 8u16) | (if byte_idx + 1 < row_len {
            row_data[byte_idx + 1]
        } else {
            0
        }) as u16) >> ((16 - bit_in_byte - bits) as u16), bits);
    }
    raw
}

/// Unpacks sub-byte samples (1 to 7 bits, MSB first, each row padded to a byte boundary)
/// to one byte per sample, scaled to 0-255.
pub fn unpack_subbyte(packed: &[u8], width: u32, height: u32, bits: u8, num_channels: u16) -> (r:
    Vec<u8>)
    requires
        1 <= bits <= 7,
        width * num_channels * height <= usize::MAX,
        width * num_channels * 8 <= usize::MAX,
        height * packed_row_len(width * num_channels, bits as int) <= packed@.len(),
    ensures
        r@ == unpacked_rows(packed@, width * num_channels, bits, height as int),
        r@.len() == width * num_channels * height,
{
    let plen = packed.len();
    assert(width * num_channels <= width * num_channels * 8) by (nonlinear_arith);
    let samples_per_row = width as usize * num_channels as usize;
    let pixel_count = samples_per_row * height as usize;
    let mut out: Vec<u8> = Vec::with_capacity(pixel_count);
    assert(1 <= bits <= 7 ==> (1u16 << bits) >= 1 && (1u8 << bits) >= 1) by (bit_vector);
    let max_val: u16 = (1u16 << bits) - 1;
    assert(samples_per_row * bits + 7 <= usize::MAX) by (nonlinear_arith)
        requires
            samples_per_row * 8 <= usize::MAX,
            1 <= bits <= 7,
            usize::MAX >= 0xffff_ffff,
    ;
    let bits_per_row = samples_per_row * bits as usize;
    let packed_row_bytes = (bits_per_row + 7) / 8;
    let ghost spr = samples_per_row as int;
    let ghost prb = packed_row_bytes as int;
    assert(prb == packed_row_len(spr, bits as int));
    let mut row: usize = 0;
    while row < height as usize
        invariant
            0 <= row <= height,
            1 <= bits <= 7,
            spr == width * num_channels,
            spr * height <= usize::MAX,
            spr * 8 <= usize::MAX,
            samples_per_row == spr,
            bits_per_row == spr * bits,
            prb == packed_row_len(spr, bits as int),
            packed_row_bytes == prb,
            height * prb <= packed@.len(),
            plen == packed@.len(),
            max_val == sample_max(bits),
            out@ == unpacked_rows(packed@, spr, bits, row as int),
            out@.len() == row * spr,
        decreases height - row,
    {
        assert(row * prb + prb <= height * prb) by (nonlinear_arith)
            requires
                row < height,
                prb >= 0,
        ;
        let row_start = row * packed_row_bytes;
        let ghost row_data = packed@.subrange(row * prb, row * prb + prb);
        let ghost before = out@;
        let mut bit_offset: usize = 0;
        let mut s: usize = 0;
        while s < samples_per_row
            invariant
                0 <= s <= spr,
                1 <= bits <= 7,
                samples_per_row == spr,
                spr * 8 <= usize::MAX,
                bits_per_row == spr * bits,
                prb == packed_row_len(spr, bits as int),
                packed_row_bytes == prb,
                row_start == row * prb,
                row_start + prb <= packed@.len(),
                plen == packed@.len(),
                row_data == packed@.subrange(row * prb, row * prb + prb),
                max_val == sample_max(bits),
                bit_offset == s * bits,
                out@ == before + unpacked_row(packed@, spr, bits, row as int).take(s as int),
            decreases spr - s,
        {
            assert(bit_offset + bits <= spr * bits) by (nonlinear_arith)
                requires
                    bit_offset == s * bits,
                    s < spr,
            ;
            assert(bit_offset + bits <= packed_row_bytes * 8);
            let raw = read_packed_sample(packed, row_start, packed_row_bytes, bit_offset, bits);
            proof {
                lemma_sample_bounded(raw, bits);
            }
            assert((raw as int) * 255 / (max_val as int) <= 255) by (nonlinear_arith)
                requires
                    raw <= max_val,
                    max_val >= 1,
            ;
            let scaled = (raw * 255 / max_val) as u8;
            out.push(scaled);
            proof {
                assert(unpacked_row(packed@, spr, bits, row as int).take(s + 1) =~= unpacked_row(
                    packed@,
                    spr,
                    bits,
                    row as int,
                ).take(s as int).push(scaled));
            }
            assert(bit_offset + bits == (s + 1) * bits) by (nonlinear_arith)
                requires
                    bit_offset == s * bits,
            ;
            bit_offset = bit_offset + bits as usize;
            s = s + 1;
        }
        proof {
            assert(unpacked_row(packed@, spr, bits, row as int).take(spr) =~= unpacked_row(
                packed@,
                spr,
                bits,
                row as int,
            ));
            assert(out@.len() == row * spr + spr);
            assert((row + 1) * spr == row * spr + spr) by (nonlinear_arith);
        }
        row = row + 1;
    }
    assert(height * spr == width * num_channels * height) by (nonlinear_arith)
        requires
            spr == width * num_channels,
    ;
    out
}


/// Decoded samples, by sample type. Floating-point samples are held as their IEEE 754 bit
/// patterns (binary16, binary32, binary64).
#[derive(Debug)]
pub enum Samples {
    U8(Vec<u8>),
    U16(Vec<u16>),
    U32(Vec<u32>),
    U64(Vec<u64>),
    F16(Vec<u16>),
    F32(Vec<u32>),
    F64(Vec<u64>),
    I8(Vec<i8>),
    I16(Vec<i16>),
    I32(Vec<i32>),
    I64(Vec<i64>),
}

/// Whether decoded samples are floating point, and whether they are signed integers.
pub fn result_format_flags(result: &Samples) -> (r: (bool, bool))
    ensures
        r.0 == (result is F16 || result is F32 || result is F64),
        r.1 == (result is I8 || result is I16 || result is I32 || result is I64),
{
    match result {
        Samples::F16(_) | Samples::F32(_) | Samples::F64(_) => (true, false),
        Samples::I8(_) | Samples::I16(_) | Samples::I32(_) | Samples::I64(_) => (false, true),
        _ => (false, false),
    }
}

/// The pixels `0..count` of interleaved `data` with `src` channels, each replaced by `f(pixel)`.
pub open spec fn map_pixels<T>(data: Seq<T>, src: int, count: int, f: spec_fn(Seq<T>) -> Seq<T>) -> Seq<T>
    decreases count,
{
    if count <= 0 {
        Seq::empty()
    } else {
        map_pixels(data, src, count - 1, f) + f(data.subrange((count - 1) * src, (count - 1) * src + src))
    }
}

/// Keeps the first `dst` channels of every complete pixel of `src` channels.
pub open spec fn keep_channels<T>(data: Seq<T>, src: int, dst: int) -> Seq<T> {
    map_pixels(data, src, (data.len() as int) / src, |px: Seq<T>| px.take(dst))
}

/// Appends `dst - src` channels of value `fill` to every complete pixel of `src` channels.
pub open spec fn pad_channels<T>(data: Seq<T>, src: int, dst: int, fill: T) -> Seq<T> {
    map_pixels(data, src, (data.len() as int) / src, |px: Seq<T>| px + Seq::new((dst - src) as nat, |i: int| fill))
}

pub(crate) proof fn lemma_pixel_in_bounds(i: int, src: int, len: int)
    requires
        0 <= i < len / src,
        src > 0,
        len >= 0,
    ensures
        i * src + src <= len,
{
    assert(i * src + src <= (len / src) * src) by (nonlinear_arith)
        requires
            i < len / src,
            src > 0,
    ;
    assert((len / src) * src <= len) by (nonlinear_arith)
        requires
            src > 0,
            len >= 0,
    ;
}

fn truncate_generic<T: Copy>(data: &[T], src_ch: usize, dst_ch: usize) -> (r: Vec<T>)
    requires
        0 < src_ch,
        dst_ch <= src_ch,
    ensures
        r@ == keep_channels(data@, src_ch as int, dst_ch as int),
{
    let dlen = data.len();
    let pixel_count = dlen / src_ch;
    let ghost f = |px: Seq<T>| px.take(dst_ch as int);
    let mut out: Vec<T> = Vec::new();
    let mut i: usize = 0;
    while i < pixel_count
        invariant
            0 <= i <= pixel_count,
            pixel_count == (data@.len() as int) / (src_ch as int),
            dlen == data@.len(),
            0 < src_ch,
            dst_ch <= src_ch,
            f == (|px: Seq<T>| px.take(dst_ch as int)),
            out@ == map_pixels(data@, src_ch as int, i as int, f),
        decreases pixel_count - i,
    {
        proof {
            lemma_pixel_in_bounds(i as int, src_ch as int, data@.len() as int);
        }
        let base = i * src_ch;
        let ghost before = out@;
        let mut c: usize = 0;
        while c < dst_ch
            invariant
                0 <= c <= dst_ch,
                dst_ch <= src_ch,
                base == i * src_ch,
                base + src_ch <= data@.len(),
                dlen == data@.len(),
                out@ == before + data@.subrange(base as int, base + c),
            decreases dst_ch - c,
        {
            out.push(data[base + c]);
            assert(data@.subrange(base as int, base + c + 1) =~= data@.subrange(base as int, base + c).push(data@[base + c]));
            c = c + 1;
        }
        assert(f(data@.subrange(base as int, base + src_ch)) =~= data@.subrange(base as int, base + dst_ch));
        i = i + 1;
    }
    out
}

fn pad_generic<T: Copy>(data: &[T], src_ch: usize, dst_ch: usize, fill: T) -> (r: Vec<T>)
    requires
        0 < src_ch,
        src_ch <= dst_ch,
    ensures
        r@ == pad_channels(data@, src_ch as int, dst_ch as int, fill),
{
    let dlen = data.len();
    let pixel_count = dlen / src_ch;
    let ghost f = |px: Seq<T>| px + Seq::new((dst_ch - src_ch) as nat, |i: int| fill);
    let mut out: Vec<T> = Vec::new();
    let mut i: usize = 0;
    while i < pixel_count
        invariant
            0 <= i <= pixel_count,
            pixel_count == (data@.len() as int) / (src_ch as int),
            dlen == data@.len(),
            0 < src_ch,
            src_ch <= dst_ch,
            f == (|px: Seq<T>| px + Seq::new((dst_ch - src_ch) as nat, |i: int| fill)),
            out@ == map_pixels(data@, src_ch as int, i as int, f),
        decreases pixel_count - i,
    {
        proof {
            lemma_pixel_in_bounds(i as int, src_ch as int, data@.len() as int);
        }
        let base = i * src_ch;
        let ghost before = out@;
        let mut c: usize = 0;
        while c < src_ch
            invariant
                0 <= c <= src_ch,
                base == i * src_ch,
                base + src_ch <= data@.len(),
                dlen == data@.len(),
                out@ == before + data@.subrange(base as int, base + c),
            decreases src_ch - c,
        {
            out.push(data[base + c]);
            assert(data@.subrange(base as int, base + c + 1) =~= data@.subrange(base as int, base + c).push(data@[base + c]));
            c = c + 1;
        }
        let ghost mid = out@;
        let mut k: usize = src_ch;
        while k < dst_ch
            invariant
                src_ch <= k <= dst_ch,
                out@ == mid + Seq::new((k - src_ch) as nat, |j: int| fill),
            decreases dst_ch - k,
        {
            out.push(fill);
            assert(Seq::new((k + 1 - src_ch) as nat, |j: int| fill) =~= Seq::new((k - src_ch) as nat, |j: int| fill).push(fill));
            k = k + 1;
        }
        assert(out@ =~= before + f(data@.subrange(base as int, base + src_ch)));
        i = i + 1;
    }
    out
}

/// Truncate extra channels from interleaved data: keeps the first `dst_ch` of every `src_ch`
/// channels; a trailing incomplete pixel is dropped.
pub fn truncate_channels(data: &[u8], src_ch: usize, dst_ch: usize, width: u32, height: u32) -> (r:
    Vec<u8>)
    requires
        0 < src_ch,
        dst_ch <= src_ch,
    ensures
        r@ == keep_channels(data@, src_ch as int, dst_ch as int),
{
    truncate_generic(data, src_ch, dst_ch)
}

/// Pixel `j` of interleaved samples with `n` channels.
pub open spec fn pixel_of<T>(s: Seq<T>, j: int, n: int) -> Seq<T> {
    s.subrange(j * n, j * n + n)
}

/// Padding keeps every sample of a pixel and adds channels holding `fill`: pixel `j` of `dst`
/// channels is pixel `j` of `src` channels followed by `dst - src` copies of `fill`; a trailing
/// incomplete pixel is dropped. Dropping channels keeps the first `dst` samples of each pixel.
pub proof fn lemma_channel_adjust_pixels<T>(data: Seq<T>, src: int, dst: int, fill: T, j: int)
    requires
        0 < src,
        0 <= dst,
        0 <= j < (data.len() as int) / src,
    ensures
        src <= dst ==> pad_channels(data, src, dst, fill).len() == ((data.len() as int) / src) * dst,
        src <= dst ==> pad_channels(data, src, dst, fill).subrange(j * dst, j * dst + dst) == data.subrange(
            j * src,
            j * src + src,
        ) + Seq::new((dst - src) as nat, |k: int| fill),
        dst <= src ==> keep_channels(data, src, dst).subrange(j * dst, j * dst + dst) == data.subrange(
            j * src,
            j * src + dst,
        ),
{
    let n = (data.len() as int) / src;
    assert(n * src <= data.len()) by (nonlinear_arith)
        requires
            n == (data.len() as int) / src,
            src > 0,
    ;
    lemma_pixel_in_bounds(j, src, data.len() as int);
    if src <= dst {
        let f = |px: Seq<T>| px + Seq::new((dst - src) as nat, |i: int| fill);
        assert forall|px: Seq<T>| px.len() == src implies (#[trigger] f(px)).len() == dst by {}
        lemma_map_pixels_slices(data, src, dst, n, f);
        assert(pad_channels(data, src, dst, fill) == map_pixels(data, src, n, f));
    } else {
        let f = |px: Seq<T>| px.take(dst);
        assert forall|px: Seq<T>| px.len() == src implies (#[trigger] f(px)).len() == dst by {}
        lemma_map_pixels_slices(data, src, dst, n, f);
        assert(keep_channels(data, src, dst) == map_pixels(data, src, n, f));
        assert(data.subrange(j * src, j * src + src).take(dst) =~= data.subrange(j * src, j * src + dst));
    }
    if src == dst {
        let f = |px: Seq<T>| px.take(dst);
        assert forall|px: Seq<T>| px.len() == src implies (#[trigger] f(px)).len() == dst by {}
        lemma_map_pixels_slices(data, src, dst, n, f);
        assert(keep_channels(data, src, dst) == map_pixels(data, src, n, f));
        assert(data.subrange(j * src, j * src + src).take(dst) =~= data.subrange(j * src, j * src + dst));
    }
}

/// Expand channels by padding each pixel of `src_ch` channels with 255 up to `dst_ch`
/// channels; a trailing incomplete pixel is dropped.
pub fn expand_channels(data: &[u8], src_ch: usize, dst_ch: usize, width: u32, height: u32) -> (r:
    Vec<u8>)
    requires
        0 < src_ch,
        src_ch <= dst_ch,
    ensures
        r@ == pad_channels(data@, src_ch as int, dst_ch as int, 255u8),
        forall|j: int|
            0 <= j < (data@.len() as int) / (src_ch as int) ==> #[trigger] pixel_of(r@, j, dst_ch as int)
                == pixel_of(data@, j, src_ch as int) + Seq::new((dst_ch - src_ch) as nat, |k: int| 255u8),
{
    let r = pad_generic(data, src_ch, dst_ch, 255u8);
    proof {
        assert forall|j: int| 0 <= j < (data@.len() as int) / (src_ch as int) implies #[trigger] pixel_of(
            r@,
            j,
            dst_ch as int,
        ) == pixel_of(data@, j, src_ch as int) + Seq::new((dst_ch - src_ch) as nat, |k: int| 255u8) by {
            lemma_channel_adjust_pixels(data@, src_ch as int, dst_ch as int, 255u8, j);
        }
    }
    r
}

/// Adjust the channel count of 8-bit data: truncate when there are more source channels than
/// target channels, else pad with 255.
pub fn adjust_channels_u8(data: Vec<u8>, src_ch: usize, dst_ch: usize, width: u32, height: u32) -> (r:
    Vec<u8>)
    requires
        0 < src_ch,
    ensures
        src_ch > dst_ch ==> r@ == keep_channels(data@, src_ch as int, dst_ch as int),
        src_ch <= dst_ch ==> r@ == pad_channels(data@, src_ch as int, dst_ch as int, 255u8),
{
    if src_ch > dst_ch {
        truncate_channels(data.as_slice(), src_ch, dst_ch, width, height)
    } else {
        expand_channels(data.as_slice(), src_ch, dst_ch, width, height)
    }
}

/// Adjust the channel count of 16-bit data: truncate when there are more source channels than
/// target channels, else pad with 65535 (opaque alpha).
pub fn adjust_channels_u16(data: Vec<u16>, src_ch: usize, dst_ch: usize, width: u32, height: u32) -> (r:
    Vec<u16>)
    requires
        0 < src_ch,
    ensures
        src_ch > dst_ch ==> r@ == keep_channels(data@, src_ch as int, dst_ch as int),
        src_ch <= dst_ch ==> r@ == pad_channels(data@, src_ch as int, dst_ch as int, 65535u16),
{
    if src_ch > dst_ch {
        truncate_generic(data.as_slice(), src_ch, dst_ch)
    } else {
        pad_generic(data.as_slice(), src_ch, dst_ch, 65535u16)
    }
}


/// The first `count` pixels of planar data (`planes` consecutive planes of `plane_size`
/// samples) in pixel-interleaved order: pixel `p` is `data[k * plane_size + p]` for each plane `k`.
pub open spec fn interleaved<T>(data: Seq<T>, plane_size: int, planes: int, count: int) -> Seq<T>
    decreases count,
{
    if count <= 0 {
        Seq::empty()
    } else {
        interleaved(data, plane_size, planes, count - 1) + Seq::new(
            planes as nat,
            |k: int| data[k * plane_size + (count - 1)],
        )
    }
}

fn interleave_generic<T: Copy>(data: &Vec<T>, plane_size: usize, num_planes: usize) -> (r: Vec<T>)
    requires
        plane_size * num_planes <= data@.len(),
    ensures
        r@ == interleaved(data@, plane_size as int, num_planes as int, plane_size as int),
{
    let dlen = data.len();
    let mut out: Vec<T> = Vec::new();
    let mut pixel: usize = 0;
    while pixel < plane_size
        invariant
            0 <= pixel <= plane_size,
            plane_size * num_planes <= data@.len(),
            dlen == data@.len(),
            out@ == interleaved(data@, plane_size as int, num_planes as int, pixel as int),
        decreases plane_size - pixel,
    {
        let ghost before = out@;
        let ghost group = Seq::new(num_planes as nat, |k: int| data@[k * plane_size + pixel]);
        let mut plane: usize = 0;
        while plane < num_planes
            invariant
                0 <= plane <= num_planes,
                pixel < plane_size,
                plane_size * num_planes <= data@.len(),
                dlen == data@.len(),
                group == Seq::new(num_planes as nat, |k: int| data@[k * plane_size + pixel]),
                out@ == before + group.take(plane as int),
            decreases num_planes - plane,
        {
            assert(plane * plane_size + pixel < plane_size * num_planes) by (nonlinear_arith)
                requires
                    plane < num_planes,
                    pixel < plane_size,
            ;
            out.push(data[plane * plane_size + pixel]);
            assert(group.take(plane + 1) =~= group.take(plane as int).push(group[plane as int]));
            plane = plane + 1;
        }
        assert(group.take(num_planes as int) =~= group);
        pixel = pixel + 1;
    }
    out
}

/// Interleaves planar image data (RRRGGGBBB to RGBRGBRGB) for 8-, 16- and 32-bit unsigned and
/// 8-bit signed samples. Data holding fewer than all planes, and other sample types, are
/// returned unchanged.
pub fn interleave_planes(result: Samples, width: u32, height: u32, num_planes: usize) -> (r: Samples)
    requires
        width * height <= usize::MAX,
        width * height * num_planes <= usize::MAX,
    ensures
        ({
            let ps = width * height;
            match (result, r) {
                (Samples::U8(d), Samples::U8(o)) => o@ == if d@.len() < ps * num_planes {
                    d@
                } else {
                    interleaved(d@, ps, num_planes as int, ps)
                },
                (Samples::U16(d), Samples::U16(o)) => o@ == if d@.len() < ps * num_planes {
                    d@
                } else {
                    interleaved(d@, ps, num_planes as int, ps)
                },
                (Samples::U32(d), Samples::U32(o)) => o@ == if d@.len() < ps * num_planes {
                    d@
                } else {
                    interleaved(d@, ps, num_planes as int, ps)
                },
                (Samples::I8(d), Samples::I8(o)) => o@ == if d@.len() < ps * num_planes {
                    d@
                } else {
                    interleaved(d@, ps, num_planes as int, ps)
                },
                (Samples::U8(_), _) | (Samples::U16(_), _) | (Samples::U32(_), _) | (Samples::I8(_), _) => false,
                _ => r == result,
            }
        }),
{
    assert(width * height * num_planes == (width * height) * num_planes);
    match result {
        Samples::U8(data) => {
            let plane_size = width as usize * height as usize;
            if data.len() < plane_size * num_planes {
                return Samples::U8(data);
            }
            Samples::U8(interleave_generic(&data, plane_size, num_planes))
        },
        Samples::U16(data) => {
            let plane_size = width as usize * height as usize;
            if data.len() < plane_size * num_planes {
                return Samples::U16(data);
            }
            Samples::U16(interleave_generic(&data, plane_size, num_planes))
        },
        Samples::U32(data) => {
            let plane_size = width as usize * height as usize;
            if data.len() < plane_size * num_planes {
                return Samples::U32(data);
            }
            Samples::U32(interleave_generic(&data, plane_size, num_planes))
        },
        Samples::I8(data) => {
            let plane_size = width as usize * height as usize;
            if data.len() < plane_size * num_planes {
                return Samples::I8(data);
            }
            Samples::I8(interleave_generic(&data, plane_size, num_planes))
        },
        other => other,
    }
}


/// Bytes of a sequence of 16-bit values, each in the requested byte order.
pub open spec fn u16s_bytes(is_le: bool, v: Seq<u16>) -> Seq<u8>
    decreases v.len(),
{
    if v.len() == 0 {
        Seq::empty()
    } else {
        u16s_bytes(is_le, v.drop_last()) + u16_bytes(is_le, v.last())
    }
}

/// Bytes of a sequence of 32-bit values, each in the requested byte order.
pub open spec fn u32s_bytes(is_le: bool, v: Seq<u32>) -> Seq<u8>
    decreases v.len(),
{
    if v.len() == 0 {
        Seq::empty()
    } else {
        u32s_bytes(is_le, v.drop_last()) + u32_bytes(is_le, v.last())
    }
}

/// The in-memory bytes of 16-bit samples, by `bytemuck::cast_slice`. The contract claims that
/// the bytes are the samples' encodings in order; the byte order is the machine's, so it says
/// only that they are all little-endian or all big-endian.
#[verifier::external_body]
fn u16_samples_to_bytes(v: Vec<u16>) -> (r: Vec<u8>)
    ensures
        r@ == u16s_bytes(true, v@) || r@ == u16s_bytes(false, v@),
{
    bytemuck::cast_slice::<u16, u8>(&v).to_vec()
}

/// The in-memory bytes of 32-bit samples (IEEE binary32 bit patterns), by
/// `bytemuck::cast_slice`. The contract claims that the bytes are the samples' encodings in
/// order; the byte order is the machine's, so it says only that they are all little-endian or
/// all big-endian.
#[verifier::external_body]
fn u32_samples_to_bytes(v: Vec<u32>) -> (r: Vec<u8>)
    ensures
        r@ == u32s_bytes(true, v@) || r@ == u32s_bytes(false, v@),
{
    bytemuck::cast_slice::<u32, u8>(&v).to_vec()
}

/// Signed 8-bit sample offset to unsigned: `s + 128`.
pub open spec fn offset_i8(s: i8) -> u8 {
    (s + 128) as u8
}

/// Signed 16-bit sample offset to unsigned: `s + 32768`.
pub open spec fn offset_i16(s: i16) -> u16 {
    (s + 32768) as u16
}

/// Unsigned 32-bit sample scaled down to 16 bits: its top 16 bits.
pub open spec fn narrow_u32(s: u32) -> u16 {
    (s / 65536) as u16
}

/// Unsigned 64-bit sample scaled down to 16 bits: its top 16 bits.
pub open spec fn narrow_u64(s: u64) -> u16 {
    (s / 0x1_0000_0000_0000) as u16
}

/// Signed 32-bit sample offset to unsigned, then scaled down to 16 bits.
pub open spec fn narrow_i32(s: i32) -> u16 {
    ((s + 0x8000_0000) / 65536) as u16
}

/// Signed 64-bit sample offset to unsigned, then scaled down to 16 bits.
pub open spec fn narrow_i64(s: i64) -> u16 {
    ((s + 0x8000_0000_0000_0000) / 0x1_0000_0000_0000) as u16
}

/// Narrowing keeps the top 16 bits of a wide unsigned sample: `hi * 2^16 + lo` (32-bit) and
/// `hi * 2^48 + lo` (64-bit), with `lo` below the dropped width, narrow to `hi`; narrowing
/// keeps the order of samples, and the largest sample narrows to `0xFFFF`.
pub proof fn lemma_unsigned_narrowing_keeps_top_bits(hi: u16, lo32: u32, lo64: u64, a: u64, b: u64, c: u32, d: u32)
    requires
        lo32 < 0x1_0000,
        lo64 < 0x1_0000_0000_0000,
    ensures
        narrow_u32((hi * 0x1_0000 + lo32) as u32) == hi,
        narrow_u64((hi * 0x1_0000_0000_0000 + lo64) as u64) == hi,
        c <= d ==> narrow_u32(c) <= narrow_u32(d),
        a <= b ==> narrow_u64(a) <= narrow_u64(b),
        narrow_u32(u32::MAX) == 0xFFFF,
        narrow_u64(u64::MAX) == 0xFFFF,
{
    assert((hi * 0x1_0000 + lo32) / 0x1_0000 == hi) by (nonlinear_arith)
        requires
            lo32 < 0x1_0000,
            0 <= hi,
    ;
    assert((hi * 0x1_0000_0000_0000 + lo64) / 0x1_0000_0000_0000 == hi) by (nonlinear_arith)
        requires
            lo64 < 0x1_0000_0000_0000,
            0 <= hi,
    ;
    assert(hi * 0x1_0000 + lo32 <= u32::MAX) by (nonlinear_arith)
        requires
            lo32 < 0x1_0000,
            hi <= 0xFFFF,
    ;
    assert(hi * 0x1_0000_0000_0000 + lo64 <= u64::MAX) by (nonlinear_arith)
        requires
            lo64 < 0x1_0000_0000_0000,
            hi <= 0xFFFF,
    ;
    if c <= d {
        assert(c / 0x1_0000 <= d / 0x1_0000) by (nonlinear_arith)
            requires
                c <= d,
                0 <= c,
        ;
    }
    if a <= b {
        assert(a / 0x1_0000_0000_0000 <= b / 0x1_0000_0000_0000) by (nonlinear_arith)
            requires
                a <= b,
                0 <= a,
        ;
    }
}

/// Signed samples are offset to unsigned ones, keeping their order: `k - 128` (8-bit) gives `k`,
/// `k - 32768` (16-bit) gives `k`; the wide signed samples `hi * 2^16 + lo - 2^31` (32-bit) and
/// `hi * 2^48 + lo - 2^63` (64-bit), with `lo` below the dropped width, narrow to `hi`. The most
/// negative sample gives 0 and the largest the maximum.
pub proof fn lemma_signed_offsets_keep_order(k8: u8, k16: u16, hi: u16, lo32: u32, lo64: u64, a: i32, b: i32, c: i64, d: i64)
    requires
        lo32 < 0x1_0000,
        lo64 < 0x1_0000_0000_0000,
    ensures
        offset_i8((k8 - 128) as i8) == k8,
        offset_i16((k16 - 32768) as i16) == k16,
        narrow_i32((hi * 0x1_0000 + lo32 - 0x8000_0000) as i32) == hi,
        narrow_i64((hi * 0x1_0000_0000_0000 + lo64 - 0x8000_0000_0000_0000) as i64) == hi,
        a <= b ==> narrow_i32(a) <= narrow_i32(b),
        c <= d ==> narrow_i64(c) <= narrow_i64(d),
        offset_i8(i8::MIN) == 0 && offset_i8(i8::MAX) == 0xFF,
        offset_i16(i16::MIN) == 0 && offset_i16(i16::MAX) == 0xFFFF,
        narrow_i32(i32::MIN) == 0 && narrow_i32(i32::MAX) == 0xFFFF,
        narrow_i64(i64::MIN) == 0 && narrow_i64(i64::MAX) == 0xFFFF,
{
    assert((hi * 0x1_0000 + lo32) / 0x1_0000 == hi) by (nonlinear_arith)
        requires
            lo32 < 0x1_0000,
            0 <= hi,
    ;
    assert((hi * 0x1_0000_0000_0000 + lo64) / 0x1_0000_0000_0000 == hi) by (nonlinear_arith)
        requires
            lo64 < 0x1_0000_0000_0000,
            0 <= hi,
    ;
    assert(hi * 0x1_0000 + lo32 <= u32::MAX) by (nonlinear_arith)
        requires
            lo32 < 0x1_0000,
            hi <= 0xFFFF,
    ;
    assert(hi * 0x1_0000_0000_0000 + lo64 <= u64::MAX) by (nonlinear_arith)
        requires
            lo64 < 0x1_0000_0000_0000,
            hi <= 0xFFFF,
    ;
    if a <= b {
        assert((a + 0x8000_0000) / 0x1_0000 <= (b + 0x8000_0000) / 0x1_0000) by (nonlinear_arith)
            requires
                a <= b,
                0 <= a + 0x8000_0000,
        ;
    }
    if c <= d {
        assert((c + 0x8000_0000_0000_0000) / 0x1_0000_0000_0000 <= (d + 0x8000_0000_0000_0000)
            / 0x1_0000_0000_0000) by (nonlinear_arith)
            requires
                c <= d,
                0 <= c + 0x8000_0000_0000_0000,
        ;
    }
}

fn offset_i8_sample(s: i8) -> (r: u8)
    ensures
        r == offset_i8(s),
{
    (s as i16 + 128) as u8
}

fn offset_i16_sample(s: i16) -> (r: u16)
    ensures
        r == offset_i16(s),
{
    (s as i32 + 32768) as u16
}

fn narrow_u32_sample(s: u32) -> (r: u16)
    ensures
        r == narrow_u32(s),
{
    (s / 65536) as u16
}

fn narrow_u64_sample(s: u64) -> (r: u16)
    ensures
        r == narrow_u64(s),
{
    (s / 0x1_0000_0000_0000) as u16
}

fn narrow_i32_sample(s: i32) -> (r: u16)
    ensures
        r == narrow_i32(s),
{
    ((s as i64 + 0x8000_0000) / 65536) as u16
}

fn narrow_i64_sample(s: i64) -> (r: u16)
    ensures
        r == narrow_i64(s),
{
    ((s as i128 + 0x8000_0000_0000_0000) / 0x1_0000_0000_0000) as u16
}

/// Applies `f` to every element.
fn map_vec<T: Copy, U>(v: &Vec<T>, f: impl Fn(T) -> U) -> (r: Vec<U>)
    requires
        forall|i: int| 0 <= i < v.len() ==> call_requires(f, (v[i],)),
    ensures
        r.len() == v.len(),
        forall|i: int| 0 <= i < v.len() ==> call_ensures(f, (v[i],), #[trigger] r[i]),
{
    let mut out: Vec<U> = Vec::new();
    let mut j: usize = 0;
    while j < v.len()
        invariant
            0 <= j <= v.len(),
            out.len() == j,
            forall|i: int| 0 <= i < v.len() ==> call_requires(f, (v[i],)),
            forall|i: int| 0 <= i < j ==> call_ensures(f, (v[i],), #[trigger] out[i]),
        decreases v.len() - j,
    {
        out.push(f(v[j]));
        j = j + 1;
    }
    out
}


/// Whether decoding takes the sub-byte path: packed 8-bit data of fewer than 8 bits per sample
/// converted to 8-bit channels.
pub open spec fn is_subbyte(ct: TiffColorType, result: Samples, desc: PixelDescriptor) -> bool {
    ct.spec_bit_depth() < 8 && desc.channel_type == ChannelType::U8 && result is U8
}

/// Whether the channel count must be adjusted: a multiband image whose sample count differs
/// from the target's channel count.
pub open spec fn needs_channel_adjust(ct: TiffColorType, desc: PixelDescriptor) -> bool {
    ct is Multiband && ct.spec_num_samples() as int != layout_channels(desc.layout) as int
}

/// Data with `src` channels per pixel brought to `dst` channels: truncated or padded with `fill`.
pub open spec fn adjusted<T>(data: Seq<T>, src: int, dst: int, fill: T) -> Seq<T> {
    if src > dst {
        keep_channels(data, src, dst)
    } else {
        pad_channels(data, src, dst, fill)
    }
}

/// Whether a sample type converts to the target channel type.
pub open spec fn conversion_supported(ct: TiffColorType, result: Samples, desc: PixelDescriptor) -> bool {
    is_subbyte(ct, result, desc) || match (result, desc.channel_type) {
        (Samples::U8(_), ChannelType::U8) => true,
        (Samples::U16(_), ChannelType::U16) => true,
        (Samples::F32(_), ChannelType::F32) => true,
        (Samples::I8(_), ChannelType::U8) => true,
        (Samples::I16(_), ChannelType::U16) => true,
        (Samples::U32(_), ChannelType::U16) => true,
        (Samples::U64(_), ChannelType::U16) => true,
        (Samples::I32(_), ChannelType::U16) => true,
        (Samples::I64(_), ChannelType::U16) => true,
        _ => false,
    }
}

/// The bytes decoded samples convert to, with multi-byte channels in the given byte order.
pub open spec fn converted_bytes(
    is_le: bool,
    width: u32,
    height: u32,
    ct: TiffColorType,
    result: Samples,
    desc: PixelDescriptor,
) -> Seq<u8> {
    let src = ct.spec_num_samples() as int;
    let dst = layout_channels(desc.layout) as int;
    if is_subbyte(ct, result, desc) {
        let packed = match result {
            Samples::U8(v) => v@,
            _ => Seq::empty(),
        };
        let ex = unpacked_rows(packed, width * src, ct.spec_bit_depth(), height as int);
        if src == dst {
            ex
        } else {
            adjusted(ex, src, dst, 255u8)
        }
    } else {
        match (result, desc.channel_type) {
            (Samples::U8(v), ChannelType::U8) => if needs_channel_adjust(ct, desc) {
                adjusted(v@, src, dst, 255u8)
            } else {
                v@
            },
            (Samples::U16(v), ChannelType::U16) => u16s_bytes(
                is_le,
                if needs_channel_adjust(ct, desc) {
                    adjusted(v@, src, dst, 65535u16)
                } else {
                    v@
                },
            ),
            (Samples::F32(v), ChannelType::F32) => u32s_bytes(is_le, v@),
            (Samples::I8(v), ChannelType::U8) => v@.map_values(|s: i8| offset_i8(s)),
            (Samples::I16(v), ChannelType::U16) => u16s_bytes(is_le, v@.map_values(|s: i16| offset_i16(s))),
            (Samples::U32(v), ChannelType::U16) => u16s_bytes(is_le, v@.map_values(|s: u32| narrow_u32(s))),
            (Samples::U64(v), ChannelType::U16) => u16s_bytes(is_le, v@.map_values(|s: u64| narrow_u64(s))),
            (Samples::I32(v), ChannelType::U16) => u16s_bytes(is_le, v@.map_values(|s: i32| narrow_i32(s))),
            (Samples::I64(v), ChannelType::U16) => u16s_bytes(is_le, v@.map_values(|s: i64| narrow_i64(s))),
            _ => Seq::empty(),
        }
    }
}

/// The inputs on which the conversion is defined: packed sub-byte data must have a depth of at
/// least one bit, fit its sizes in memory and hold every row; channel adjustment needs at least
/// one source channel.
pub open spec fn conversion_defined(
    width: u32,
    height: u32,
    ct: TiffColorType,
    result: Samples,
    desc: PixelDescriptor,
) -> bool {
    let src = ct.spec_num_samples() as int;
    let bits = ct.spec_bit_depth();
    if is_subbyte(ct, result, desc) {
        let packed = match result {
            Samples::U8(v) => v@,
            _ => Seq::empty(),
        };
        &&& 1 <= bits
        &&& src > 0
        &&& width * src * height <= usize::MAX
        &&& width * src * 8 <= usize::MAX
        &&& height * packed_row_len(width * src, bits as int) <= packed.len()
    } else {
        needs_channel_adjust(ct, desc) && (result is U8 || result is U16) ==> src > 0
    }
}

/// Decides whether [`result_to_bytes`] is defined on the given inputs.
pub fn conversion_is_defined(width: u32, height: u32, ct: TiffColorType, result: &Samples, desc: PixelDescriptor) -> (r: bool)
    ensures
        r == conversion_defined(width, height, ct, *result, desc),
{
    let src = ct.num_samples() as u64;
    let bits = ct.bit_depth();
    let subbyte = bits < 8 && desc.channel_type == ChannelType::U8 && matches!(result, Samples::U8(_));
    if subbyte {
        let packed_len = match result {
            Samples::U8(v) => v.len(),
            _ => 0,
        };
        if bits < 1 || src == 0 {
            return false;
        }
        let w = width as u64;
        let h = height as u64;
        assert(w * src <= 0xffff_ffff_u64 * 0xffff) by (nonlinear_arith)
            requires
                w <= 0xffff_ffff,
                src <= 0xffff,
        ;
        let spr = w * src;
        let spr_max = usize::MAX as u64;
        assert(spr * h <= 0xffff_ffff_ffff_ffff_ffff_ffff_u128) by (nonlinear_arith)
            requires
                spr <= 0xffff_ffff_u64 * 0xffff,
                h <= 0xffff_ffff,
        ;
        let spr_h = spr as u128 * h as u128;
        if spr_h > usize::MAX as u128 || spr > spr_max / 8 {
            return false;
        }
        assert(spr * bits + 7 <= u64::MAX) by (nonlinear_arith)
            requires
                spr <= u64::MAX / 8,
                bits < 8,
        ;
        let prb = (spr * bits as u64 + 7) / 8;
        assert(prb * h <= 0xffff_ffff_ffff_ffff_ffff_ffff_u128) by (nonlinear_arith)
            requires
                prb <= u64::MAX,
                h <= 0xffff_ffff,
        ;
        let need = prb as u128 * h as u128;
        assert(spr * 8 <= usize::MAX);
        assert(spr == width * (ct.spec_num_samples() as int));
        assert(prb == packed_row_len(width * (ct.spec_num_samples() as int), bits as int));
        assert(spr_h == width * (ct.spec_num_samples() as int) * height);
        assert(need == height * packed_row_len(width * (ct.spec_num_samples() as int), bits as int)) by (nonlinear_arith)
            requires
                need == prb * h,
                h == height,
                prb == packed_row_len(width * (ct.spec_num_samples() as int), bits as int),
        ;
        need <= packed_len as u128
    } else {
        let dst = desc.channels() as u64;
        let adjust = matches!(ct, TiffColorType::Multiband { .. }) && src != dst;
        !(adjust && (matches!(result, Samples::U8(_)) || matches!(result, Samples::U16(_)))) || src > 0
    }
}


/// Error message text, built with `format!`; no contract is claimed of the text.
#[verifier::external_body]
fn unsupported_conversion_message(target: ChannelType) -> String {
    format!("cannot convert TIFF sample type to {target:?}")
}

/// Converts decoded samples to the bytes of the target pixel format: sub-byte samples are
/// unpacked and scaled, multiband channel counts adjusted, signed samples offset to unsigned,
/// wide integers scaled down to 16 bits; 16- and 32-bit channels are laid out in the machine's
/// byte order. Floating-point samples reach this step already in binary32 form.
/// Any other pairing of sample type and channel type is `Unsupported`.
pub fn result_to_bytes(width: u32, height: u32, color_type: TiffColorType, result: Samples, descriptor: PixelDescriptor) -> (r:
    Result<Vec<u8>, ZentiffError>)
    requires
        conversion_defined(width, height, color_type, result, descriptor),
    ensures
        r is Ok <==> conversion_supported(color_type, result, descriptor),
        r matches Ok(b) ==> b@ == converted_bytes(true, width, height, color_type, result, descriptor)
            || b@ == converted_bytes(false, width, height, color_type, result, descriptor),
        r matches Err(e) ==> e is Unsupported,
{
    let target_ct = descriptor.channel_type();
    let target_channels = descriptor.channels();
    let bit_depth = color_type.bit_depth();
    let src_channels = color_type.num_samples();
    let ghost src = src_channels as int;
    let ghost dst = target_channels as int;
    if bit_depth < 8 && target_ct == ChannelType::U8 {
        if let Samples::U8(packed) = result {
            let expanded = unpack_subbyte(packed.as_slice(), width, height, bit_depth, src_channels);
            if (src_channels as usize) < target_channels {
                return Ok(expand_channels(expanded.as_slice(), src_channels as usize, target_channels, width, height));
            } else if (src_channels as usize) > target_channels {
                return Ok(truncate_channels(expanded.as_slice(), src_channels as usize, target_channels, width, height));
            }
            return Ok(expanded);
        }
    }
    let needs_channel_adjust = matches!(color_type, TiffColorType::Multiband { .. })
        && (src_channels as usize) != target_channels;
    let bytes: Vec<u8> = match (result, target_ct) {
        (Samples::U8(v), ChannelType::U8) => {
            if needs_channel_adjust {
                adjust_channels_u8(v, src_channels as usize, target_channels, width, height)
            } else {
                v
            }
        },
        (Samples::U16(v), ChannelType::U16) => {
            if needs_channel_adjust {
                u16_samples_to_bytes(adjust_channels_u16(v, src_channels as usize, target_channels, width, height))
            } else {
                u16_samples_to_bytes(v)
            }
        },
        (Samples::F32(v), ChannelType::F32) => u32_samples_to_bytes(v),
        (Samples::I8(v), ChannelType::U8) => {
            let out = map_vec(&v, offset_i8_sample);
            assert(out@ =~= v@.map_values(|s: i8| offset_i8(s)));
            out
        },
        (Samples::I16(v), ChannelType::U16) => {
            let out = map_vec(&v, offset_i16_sample);
            assert(out@ =~= v@.map_values(|s: i16| offset_i16(s)));
            u16_samples_to_bytes(out)
        },
        (Samples::U32(v), ChannelType::U16) => {
            let out = map_vec(&v, narrow_u32_sample);
            assert(out@ =~= v@.map_values(|s: u32| narrow_u32(s)));
            u16_samples_to_bytes(out)
        },
        (Samples::U64(v), ChannelType::U16) => {
            let out = map_vec(&v, narrow_u64_sample);
            assert(out@ =~= v@.map_values(|s: u64| narrow_u64(s)));
            u16_samples_to_bytes(out)
        },
        (Samples::I32(v), ChannelType::U16) => {
            let out = map_vec(&v, narrow_i32_sample);
            assert(out@ =~= v@.map_values(|s: i32| narrow_i32(s)));
            u16_samples_to_bytes(out)
        },
        (Samples::I64(v), ChannelType::U16) => {
            let out = map_vec(&v, narrow_i64_sample);
            assert(out@ =~= v@.map_values(|s: i64| narrow_i64(s)));
            u16_samples_to_bytes(out)
        },
        _ => {
            return Err(ZentiffError::Unsupported(unsupported_conversion_message(target_ct)));
        },
    };
    Ok(bytes)
}


/// The raw samples of row `r` of a packed single-channel image (palette indices).
pub open spec fn index_row(packed: Seq<u8>, width: int, bits: u8, r: int) -> Seq<usize> {
    let prb = packed_row_len(width, bits as int);
    let row = packed.subrange(r * prb, r * prb + prb);
    Seq::new(width as nat, |s: int| packed_sample(row, s * bits, bits) as usize)
}

/// The raw samples of the first `r` rows.
pub open spec fn index_rows(packed: Seq<u8>, width: int, bits: u8, r: int) -> Seq<usize>
    decreases r,
{
    if r <= 0 {
        Seq::empty()
    } else {
        index_rows(packed, width, bits, r - 1) + index_row(packed, width, bits, r - 1)
    }
}

/// Extracts raw palette indices from sub-byte packed data (1 to 7 bits, MSB first, rows padded
/// to a byte boundary), without scaling.
pub fn unpack_palette_indices(packed: &[u8], width: u32, height: u32, bits: u8) -> (r: Vec<usize>)
    requires
        1 <= bits <= 7,
        width * height <= usize::MAX,
        width * 8 <= usize::MAX,
        height * packed_row_len(width as int, bits as int) <= packed@.len(),
    ensures
        r@ == index_rows(packed@, width as int, bits, height as int),
        r@.len() == width * height,
{
    let plen = packed.len();
    let samples_per_row = width as usize;
    let pixel_count = samples_per_row * height as usize;
    let mut out: Vec<usize> = Vec::with_capacity(pixel_count);
    assert(samples_per_row * bits + 7 <= usize::MAX) by (nonlinear_arith)
        requires
            samples_per_row * 8 <= usize::MAX,
            1 <= bits <= 7,
            usize::MAX >= 0xffff_ffff,
    ;
    let bits_per_row = samples_per_row * bits as usize;
    let packed_row_bytes = (bits_per_row + 7) / 8;
    let ghost spr = samples_per_row as int;
    let ghost prb = packed_row_bytes as int;
    let mut row: usize = 0;
    while row < height as usize
        invariant
            0 <= row <= height,
            1 <= bits <= 7,
            spr == width,
            spr * 8 <= usize::MAX,
            samples_per_row == spr,
            bits_per_row == spr * bits,
            prb == packed_row_len(spr, bits as int),
            packed_row_bytes == prb,
            height * prb <= packed@.len(),
            plen == packed@.len(),
            out@ == index_rows(packed@, spr, bits, row as int),
            out@.len() == row * spr,
        decreases height - row,
    {
        assert(row * prb + prb <= height * prb) by (nonlinear_arith)
            requires
                row < height,
                prb >= 0,
        ;
        let row_start = row * packed_row_bytes;
        let ghost before = out@;
        let mut bit_offset: usize = 0;
        let mut s: usize = 0;
        while s < samples_per_row
            invariant
                0 <= s <= spr,
                1 <= bits <= 7,
                samples_per_row == spr,
                spr * 8 <= usize::MAX,
                bits_per_row == spr * bits,
                prb == packed_row_len(spr, bits as int),
                packed_row_bytes == prb,
                row_start == row * prb,
                row_start + prb <= packed@.len(),
                plen == packed@.len(),
                bit_offset == s * bits,
                out@ == before + index_row(packed@, spr, bits, row as int).take(s as int),
            decreases spr - s,
        {
            assert(bit_offset + bits <= spr * bits) by (nonlinear_arith)
                requires
                    bit_offset == s * bits,
                    s < spr,
            ;
            assert(bit_offset + bits <= packed_row_bytes * 8);
            let raw = read_packed_sample(packed, row_start, packed_row_bytes, bit_offset, bits);
            out.push(raw as usize);
            proof {
                assert(index_row(packed@, spr, bits, row as int).take(s + 1) =~= index_row(
                    packed@,
                    spr,
                    bits,
                    row as int,
                ).take(s as int).push(raw as usize));
            }
            assert(bit_offset + bits == (s + 1) * bits) by (nonlinear_arith)
                requires
                    bit_offset == s * bits,
            ;
            bit_offset = bit_offset + bits as usize;
            s = s + 1;
        }
        proof {
            assert(index_row(packed@, spr, bits, row as int).take(spr) =~= index_row(
                packed@,
                spr,
                bits,
                row as int,
            ));
            assert((row + 1) * spr == row * spr + spr) by (nonlinear_arith);
        }
        row = row + 1;
    }
    assert(height * spr == width * height) by (nonlinear_arith)
        requires
            spr == width,
    ;
    out
}

/// Every sub-byte sample scales into 0-255: zero maps to 0, the largest `bits`-bit value maps
/// to 255, and larger raw values never give a smaller result.
pub proof fn lemma_subbyte_scale_range(bits: u8, a: u16, b: u16)
    requires
        1 <= bits <= 7,
        a <= b <= sample_max(bits),
    ensures
        scale_sample(0, bits) == 0,
        scale_sample(sample_max(bits), bits) == 255,
        scale_sample(a, bits) <= scale_sample(b, bits),
{
    lemma_sample_bounded(0, bits);
    let m = sample_max(bits) as int;
    assert(a as int * 255 / m <= b as int * 255 / m) by (nonlinear_arith)
        requires
            0 <= a <= b,
            m >= 1,
    ;
    assert(b as int * 255 / m <= 255) by (nonlinear_arith)
        requires
            0 <= b <= m,
            m >= 1,
    ;
    assert(m * 255 / m == 255) by (nonlinear_arith)
        requires
            m >= 1,
    ;
}

pub(crate) proof fn lemma_map_pixels_slices<T>(data: Seq<T>, src: int, dst: int, count: int, f: spec_fn(Seq<T>) -> Seq<T>)
    requires
        0 < src,
        0 <= dst,
        0 <= count,
        count * src <= data.len(),
        forall|px: Seq<T>| px.len() == src ==> (#[trigger] f(px)).len() == dst,
    ensures
        map_pixels(data, src, count, f).len() == count * dst,
        forall|j: int|
            0 <= j < count ==> (#[trigger] map_pixels(data, src, count, f).subrange(j * dst, j * dst + dst))
                == f(data.subrange(j * src, j * src + src)),
    decreases count,
{
    if count > 0 {
        assert((count - 1) * src + src == count * src) by (nonlinear_arith);
        assert((count - 1) * dst + dst == count * dst) by (nonlinear_arith);
        assert((count - 1) * src <= data.len()) by (nonlinear_arith)
            requires
                count * src <= data.len(),
                src > 0,
        ;
        lemma_map_pixels_slices(data, src, dst, count - 1, f);
        let prev = map_pixels(data, src, count - 1, f);
        let last = f(data.subrange((count - 1) * src, (count - 1) * src + src));
        assert forall|j: int| 0 <= j < count implies (#[trigger] map_pixels(data, src, count, f).subrange(
            j * dst,
            j * dst + dst,
        )) == f(data.subrange(j * src, j * src + src)) by {
            if j < count - 1 {
                assert(j * dst + dst <= (count - 1) * dst) by (nonlinear_arith)
                    requires
                        j < count - 1,
                        dst >= 0,
                ;
                assert(0 <= j * dst) by (nonlinear_arith)
                    requires
                        j >= 0,
                        dst >= 0,
                ;
                assert((prev + last).subrange(j * dst, j * dst + dst) =~= prev.subrange(j * dst, j * dst + dst));
            } else {
                assert((prev + last).subrange(j * dst, j * dst + dst) =~= last);
            }
        }
    }
}

proof fn lemma_map_pixels_restores<T>(p: Seq<T>, d: int, k: int, g: spec_fn(Seq<T>) -> Seq<T>, data: Seq<T>, s: int)
    requires
        0 < d,
        0 <= s,
        0 <= k,
        k * d <= p.len(),
        k * s <= data.len(),
        forall|j: int|
            0 <= j < k ==> g(#[trigger] p.subrange(j * d, j * d + d)) == data.subrange(j * s, j * s + s),
    ensures
        map_pixels(p, d, k, g) == data.take(k * s),
    decreases k,
{
    if k > 0 {
        assert((k - 1) * d + d == k * d) by (nonlinear_arith);
        assert((k - 1) * s + s == k * s) by (nonlinear_arith);
        assert(0 <= (k - 1) * s) by (nonlinear_arith)
            requires
                k >= 1,
                s >= 0,
        ;
        assert(0 <= (k - 1) * d) by (nonlinear_arith)
            requires
                k >= 1,
                d >= 0,
        ;
        lemma_map_pixels_restores(p, d, k - 1, g, data, s);
        let piece = p.subrange((k - 1) * d, (k - 1) * d + d);
        assert(g(piece) == data.subrange((k - 1) * s, (k - 1) * s + s));
        assert(map_pixels(p, d, k, g) == map_pixels(p, d, k - 1, g) + g(piece));
        assert(data.take((k - 1) * s) + data.subrange((k - 1) * s, k * s) =~= data.take(k * s));
    } else {
        assert(k * s == 0) by (nonlinear_arith)
            requires
                k == 0,
        ;
        assert(data.take(0) =~= Seq::<T>::empty());
    }
}

/// Truncating back to the source channel count undoes padding: every complete pixel of the
/// input comes back unchanged (a trailing incomplete pixel is dropped by the padding).
pub proof fn lemma_truncate_undoes_expand<T>(data: Seq<T>, src: int, dst: int, fill: T)
    requires
        0 < src <= dst,
    ensures
        keep_channels(pad_channels(data, src, dst, fill), dst, src) == data.take(((data.len() as int) / src) * src),
{
    let n = data.len() as int / src;
    let f = |px: Seq<T>| px + Seq::new((dst - src) as nat, |i: int| fill);
    let g = |px: Seq<T>| px.take(src);
    assert(n * src <= data.len()) by (nonlinear_arith)
        requires
            n == data.len() as int / src,
            src > 0,
    ;
    assert(n >= 0);
    lemma_map_pixels_slices(data, src, dst, n, f);
    let padded = pad_channels(data, src, dst, fill);
    assert(padded == map_pixels(data, src, n, f));
    assert((padded.len() as int) / dst == n) by (nonlinear_arith)
        requires
            padded.len() == n * dst,
            dst > 0,
            n >= 0,
    ;
    assert forall|j: int| 0 <= j < n implies g(#[trigger] padded.subrange(j * dst, j * dst + dst))
        == data.subrange(j * src, j * src + src) by {
        let px = data.subrange(j * src, j * src + src);
        assert(j * src + src <= n * src) by (nonlinear_arith)
            requires
                j < n,
                src > 0,
        ;
        assert(0 <= j * src) by (nonlinear_arith)
            requires
                j >= 0,
                src > 0,
        ;
        assert(padded.subrange(j * dst, j * dst + dst) == f(px));
        assert(f(px).take(src) =~= px);
    }
    lemma_map_pixels_restores(padded, dst, n, g, data, src);
}

/// Planar data interleaves sample by sample: plane `k`'s sample of pixel `p` lands at position
/// `p * planes + k`, and `count` pixels give `count * planes` samples.
pub proof fn lemma_interleaved_sample<T>(data: Seq<T>, plane_size: int, planes: int, count: int, p: int, k: int)
    requires
        0 <= planes,
        0 <= p < count,
        0 <= k < planes,
    ensures
        interleaved(data, plane_size, planes, count).len() == count * planes,
        interleaved(data, plane_size, planes, count)[p * planes + k] == data[k * plane_size + p],
    decreases count,
{
    lemma_interleaved_len(data, plane_size, planes, count);
    let prev = interleaved(data, plane_size, planes, count - 1);
    let last = Seq::new(planes as nat, |j: int| data[j * plane_size + (count - 1)]);
    lemma_interleaved_len(data, plane_size, planes, count - 1);
    assert(prev.len() == (count - 1) * planes) by (nonlinear_arith)
        requires
            count >= 1,
            count - 1 <= 0 ==> prev.len() == 0,
            count - 1 > 0 ==> prev.len() == (count - 1) * planes,
    ;
    assert(interleaved(data, plane_size, planes, count) == prev + last);
    if p < count - 1 {
        lemma_interleaved_sample(data, plane_size, planes, count - 1, p, k);
        assert(p * planes + k < (count - 1) * planes) by (nonlinear_arith)
            requires
                0 <= p < count - 1,
                0 <= k < planes,
        ;
        assert(0 <= p * planes) by (nonlinear_arith)
            requires
                0 <= p,
                0 <= planes,
        ;
    } else {
        assert(p * planes + k - (count - 1) * planes == k);
        assert((prev + last)[p * planes + k] == last[k]);
    }
}

proof fn lemma_interleaved_len<T>(data: Seq<T>, plane_size: int, planes: int, count: int)
    requires
        0 <= planes,
    ensures
        interleaved(data, plane_size, planes, count).len() == if count <= 0 {
            0
        } else {
            count * planes
        },
    decreases count,
{
    if count > 0 {
        lemma_interleaved_len(data, plane_size, planes, count - 1);
        assert((count - 1) * planes + planes == count * planes) by (nonlinear_arith);
    }
}

/// Palette indices are the unscaled sub-byte samples: unpacking a single-channel packed image
/// gives each raw index scaled to 0-255.
pub proof fn lemma_indices_are_unscaled_samples(packed: Seq<u8>, width: int, bits: u8, rows: int)
    requires
        1 <= bits <= 7,
        0 <= width,
    ensures
        unpacked_rows(packed, width, bits, rows) == index_rows(packed, width, bits, rows).map_values(
            |i: usize| scale_sample(i as u16, bits),
        ),
    decreases rows,
{
    let f = |i: usize| scale_sample(i as u16, bits);
    if rows > 0 {
        lemma_indices_are_unscaled_samples(packed, width, bits, rows - 1);
        assert(unpacked_row(packed, width, bits, rows - 1) =~= index_row(packed, width, bits, rows - 1).map_values(f));
        assert(index_rows(packed, width, bits, rows).map_values(f) =~= index_rows(packed, width, bits, rows - 1).map_values(f)
            + index_row(packed, width, bits, rows - 1).map_values(f));
    } else {
        assert(index_rows(packed, width, bits, rows).map_values(f) =~= Seq::<u8>::empty());
    }
}

} // verus!
