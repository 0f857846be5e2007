//! Re-serialization of an EXIF sub-IFD into a standalone TIFF blob.
use vstd::prelude::*;

verus! {

/// Bytes of a 16-bit value in the requested byte order.
pub open spec fn u16_bytes(is_le: bool, v: u16) -> Seq<u8> {
    if is_le {
        seq![(v % 256) as u8, (v / 256) as u8]
    } else {
        seq![(v / 256) as u8, (v % 256) as u8]
    }
}

/// Bytes of a 32-bit value in the requested byte order.
pub open spec fn u32_bytes(is_le: bool, v: u32) -> Seq<u8> {
    let b0 = (v % 256) as u8;
    let b1 = ((v / 256) % 256) as u8;
    let b2 = ((v / 65536) % 256) as u8;
    let b3 = (v / 16777216) as u8;
    if is_le {
        seq![b0, b1, b2, b3]
    } else {
        seq![b3, b2, b1, b0]
    }
}

/// Appends `v` to `buf` in the requested byte order.
pub fn push_u16(buf: &mut Vec<u8>, is_le: bool, v: u16)
    ensures
        final(buf)@ == old(buf)@ + u16_bytes(is_le, v),
{
    let lo = (v % 256) as u8;
    let hi = (v / 256) as u8;
    if is_le {
        buf.push(lo);
        buf.push(hi);
    } else {
        buf.push(hi);
        buf.push(lo);
    }
}

/// Appends `v` to `buf` in the requested byte order.
pub fn push_u32(buf: &mut Vec<u8>, is_le: bool, v: u32)
    ensures
        final(buf)@ == old(buf)@ + u32_bytes(is_le, v),
{
    let b0 = (v % 256) as u8;
    let b1 = ((v / 256) % 256) as u8;
    let b2 = ((v / 65536) % 256) as u8;
    let b3 = (v / 16777216) as u8;
    if is_le {
        buf.push(b0);
        buf.push(b1);
        buf.push(b2);
        buf.push(b3);
    } else {
        buf.push(b3);
        buf.push(b2);
        buf.push(b1);
        buf.push(b0);
    }
}


/// One element of a list-valued tag, as the serializer reads it.
#[derive(Clone, Copy, Debug, PartialEq, Eq)]
pub enum ExifListItem {
    Byte(u8),
    Short(u16),
    Unsigned(u32),
    Rational(u32, u32),
    /// Any other element type (signed, floating point, nested list, ...).
    Other,
}

/// The value of one tag of an EXIF directory, as the serializer reads it.
#[derive(Clone, Debug, PartialEq, Eq)]
pub enum ExifValue {
    Byte(u8),
    Short(u16),
    Unsigned(u32),
    Signed(i32),
    Rational(u32, u32),
    SRational(i32, i32),
    /// The bytes of an ASCII string, without its terminating NUL.
    Ascii(Vec<u8>),
    List(Vec<ExifListItem>),
    /// Any value type that is not re-serialized (floating point, 64-bit, IFD, ...).
    Other,
}

/// One directory entry: tag number and value.
#[derive(Clone, Debug, PartialEq, Eq)]
pub struct ExifEntry {
    pub tag: u16,
    pub value: ExifValue,
}

/// TIFF field type codes written by the serializer.
pub const TYPE_BYTE: u16 = 1;
pub const TYPE_ASCII: u16 = 2;
pub const TYPE_SHORT: u16 = 3;
pub const TYPE_LONG: u16 = 4;
pub const TYPE_RATIONAL: u16 = 5;
pub const TYPE_UNDEFINED: u16 = 7;
pub const TYPE_SLONG: u16 = 9;
pub const TYPE_SRATIONAL: u16 = 10;

/// Bytes of a 32-bit signed value (two's complement).
pub open spec fn i32_bytes(is_le: bool, v: i32) -> Seq<u8> {
    u32_bytes(is_le, v as u32)
}

/// The count written for an ASCII value: its length plus the NUL terminator.
pub open spec fn ascii_count(bytes: Seq<u8>) -> int {
    (bytes.len() as u32) + 1
}

/// An ASCII value whose count neither overflows nor claims to fit in the entry
/// while its bytes do not.
pub open spec fn ascii_fits(bytes: Seq<u8>) -> bool {
    &&& (bytes.len() as u32) < u32::MAX
    &&& ascii_count(bytes) <= 4 ==> bytes.len() <= 3
}

/// The count written for a list value.
pub open spec fn list_count(items: Seq<ExifListItem>) -> u32 {
    items.len() as u32
}

/// The type code, count and placement of a value.
pub open spec fn value_type(v: ExifValue) -> u16 {
    match v {
        ExifValue::Byte(_) => TYPE_BYTE,
        ExifValue::Short(_) => TYPE_SHORT,
        ExifValue::Unsigned(_) => TYPE_LONG,
        ExifValue::Signed(_) => TYPE_SLONG,
        ExifValue::Rational(_, _) => TYPE_RATIONAL,
        ExifValue::SRational(_, _) => TYPE_SRATIONAL,
        ExifValue::Ascii(_) => TYPE_ASCII,
        ExifValue::List(items) => if items.len() == 0 {
            TYPE_UNDEFINED
        } else {
            match items[0] {
                ExifListItem::Byte(_) => TYPE_BYTE,
                ExifListItem::Short(_) => TYPE_SHORT,
                ExifListItem::Rational(_, _) => TYPE_RATIONAL,
                ExifListItem::Unsigned(_) => TYPE_LONG,
                ExifListItem::Other => TYPE_UNDEFINED,
            }
        },
        ExifValue::Other => TYPE_UNDEFINED,
    }
}

pub open spec fn value_count(v: ExifValue) -> u32 {
    match v {
        ExifValue::Ascii(b) => ascii_count(b@) as u32,
        ExifValue::List(items) => if value_type(v) == TYPE_UNDEFINED {
            0
        } else {
            list_count(items@)
        },
        ExifValue::Other => 0,
        _ => 1,
    }
}

/// Whether the value's data is stored after the directory, with its offset in the entry.
pub open spec fn uses_offset(v: ExifValue) -> bool {
    match v {
        ExifValue::Rational(_, _) | ExifValue::SRational(_, _) => true,
        ExifValue::Ascii(b) => ascii_count(b@) > 4,
        ExifValue::List(items) => if items.len() == 0 {
            false
        } else {
            match items[0] {
                ExifListItem::Byte(_) => list_count(items@) > 4,
                ExifListItem::Short(_) => list_count(items@) > 2,
                ExifListItem::Rational(_, _) => true,
                ExifListItem::Unsigned(_) => list_count(items@) != 1,
                ExifListItem::Other => false,
            }
        },
        _ => false,
    }
}

/// Slot `i` of a short byte list stored in the entry itself.
pub open spec fn byte_slot(items: Seq<ExifListItem>, i: int) -> u8 {
    if i < items.len() {
        match items[i] {
            ExifListItem::Byte(b) => b,
            _ => 0,
        }
    } else {
        0
    }
}

/// Slot `i` (two bytes) of a short list stored in the entry itself.
pub open spec fn short_slot(is_le: bool, items: Seq<ExifListItem>, i: int) -> Seq<u8> {
    if i < items.len() {
        match items[i] {
            ExifListItem::Short(v) => u16_bytes(is_le, v),
            _ => seq![0u8, 0u8],
        }
    } else {
        seq![0u8, 0u8]
    }
}

/// The four bytes of the entry's value field when the value is stored in the entry.
pub open spec fn inline_bytes(is_le: bool, v: ExifValue) -> Seq<u8> {
    match v {
        ExifValue::Byte(b) => seq![b, 0u8, 0u8, 0u8],
        ExifValue::Short(x) => u16_bytes(is_le, x) + seq![0u8, 0u8],
        ExifValue::Unsigned(x) => u32_bytes(is_le, x),
        ExifValue::Signed(x) => i32_bytes(is_le, x),
        ExifValue::Ascii(b) => b@ + Seq::new((4 - b.len()) as nat, |i: int| 0u8),
        ExifValue::List(items) => if items.len() == 0 {
            seq![0u8, 0u8, 0u8, 0u8]
        } else {
            match items[0] {
                ExifListItem::Byte(_) => seq![
                    byte_slot(items@, 0),
                    byte_slot(items@, 1),
                    byte_slot(items@, 2),
                    byte_slot(items@, 3),
                ],
                ExifListItem::Short(_) => short_slot(is_le, items@, 0) + short_slot(
                    is_le,
                    items@,
                    1,
                ),
                ExifListItem::Unsigned(x) => u32_bytes(is_le, x),
                _ => seq![0u8, 0u8, 0u8, 0u8],
            }
        },
        _ => seq![0u8, 0u8, 0u8, 0u8],
    }
}

/// Bytes of one list element that matches the list's first element type.
pub open spec fn list_item_bytes(is_le: bool, first: ExifListItem, item: ExifListItem) -> Seq<
    u8,
> {
    match (first, item) {
        (ExifListItem::Byte(_), ExifListItem::Byte(b)) => seq![b],
        (ExifListItem::Short(_), ExifListItem::Short(x)) => u16_bytes(is_le, x),
        (ExifListItem::Rational(_, _), ExifListItem::Rational(n, d)) => u32_bytes(is_le, n)
            + u32_bytes(is_le, d),
        (ExifListItem::Unsigned(_), ExifListItem::Unsigned(x)) => u32_bytes(is_le, x),
        _ => Seq::empty(),
    }
}

/// Concatenated bytes of the elements of `items` that match `first`'s type.
pub open spec fn list_data(is_le: bool, first: ExifListItem, items: Seq<ExifListItem>) -> Seq<u8>
    decreases items.len(),
{
    if items.len() == 0 {
        Seq::empty()
    } else {
        list_data(is_le, first, items.drop_last()) + list_item_bytes(is_le, first, items.last())
    }
}

/// The bytes a value contributes to the data area after the directory.
#[verifier::opaque]
pub open spec fn value_overflow(is_le: bool, v: ExifValue) -> Seq<u8> {
    if !uses_offset(v) {
        Seq::empty()
    } else {
        match v {
            ExifValue::Rational(n, d) => u32_bytes(is_le, n) + u32_bytes(is_le, d),
            ExifValue::SRational(n, d) => i32_bytes(is_le, n) + i32_bytes(is_le, d),
            ExifValue::Ascii(b) => b@.push(0u8),
            ExifValue::List(items) => list_data(is_le, items[0], items@),
            _ => Seq::empty(),
        }
    }
}

/// The ten bytes that follow the tag number in a directory entry.
#[verifier::opaque]
pub open spec fn value_field(is_le: bool, v: ExifValue, offset: u32) -> Seq<u8> {
    u16_bytes(is_le, value_type(v)) + u32_bytes(is_le, value_count(v)) + if uses_offset(v) {
        u32_bytes(is_le, offset)
    } else {
        inline_bytes(is_le, v)
    }
}

/// The data area written for the first `k` entries.
pub open spec fn overflow_prefix(is_le: bool, entries: Seq<ExifEntry>, k: int) -> Seq<u8>
    decreases k,
{
    if k <= 0 {
        Seq::empty()
    } else {
        overflow_prefix(is_le, entries, k - 1) + value_overflow(is_le, entries[k - 1].value)
    }
}

/// The offset written for entry `k`: the end of the directory plus the data written so far.
pub open spec fn entry_offset(is_le: bool, entries: Seq<ExifEntry>, ifd_end: u32, k: int) -> u32 {
    (ifd_end + (overflow_prefix(is_le, entries, k).len() as u32)) as u32
}

/// The directory entries written for the first `k` entries.
pub open spec fn records_prefix(is_le: bool, entries: Seq<ExifEntry>, ifd_end: u32, k: int) -> Seq<
    u8,
>
    decreases k,
{
    if k <= 0 {
        Seq::empty()
    } else {
        records_prefix(is_le, entries, ifd_end, k - 1) + u16_bytes(is_le, entries[k - 1].tag)
            + value_field(is_le, entries[k - 1].value, entry_offset(is_le, entries, ifd_end, k - 1))
    }
}

/// The entry count as written (the number of entries truncated to 16 bits).
pub open spec fn written_count(entries: Seq<ExifEntry>) -> u16 {
    entries.len() as u16
}

/// Offset of the first byte after the directory (header, count, entries, next-IFD link).
pub open spec fn directory_end(entries: Seq<ExifEntry>) -> u32 {
    (8 + 2 + (written_count(entries) as u32) * 12 + 4) as u32
}

/// The TIFF header: byte-order mark, magic number 42, offset 8 of the directory.
pub open spec fn tiff_header(is_le: bool) -> Seq<u8> {
    (if is_le {
        seq![0x49u8, 0x49u8]
    } else {
        seq![0x4Du8, 0x4Du8]
    }) + u16_bytes(is_le, 42) + u32_bytes(is_le, 8)
}

/// The complete blob: header, count, entries, a zero next-IFD link, then the data area.
pub open spec fn exif_blob(is_le: bool, entries: Seq<ExifEntry>) -> Seq<u8> {
    let n = entries.len() as int;
    tiff_header(is_le) + u16_bytes(is_le, written_count(entries)) + records_prefix(
        is_le,
        entries,
        directory_end(entries),
        n,
    ) + u32_bytes(is_le, 0) + overflow_prefix(is_le, entries, n)
}

/// The serializer's arithmetic stays within 32 bits: every offset it computes, and every
/// ASCII count, fits.
pub open spec fn exif_fits(is_le: bool, entries: Seq<ExifEntry>) -> bool {
    &&& forall|i: int|
        0 <= i < entries.len() && uses_offset(#[trigger] entries[i].value) ==> directory_end(entries)
            + (overflow_prefix(is_le, entries, i).len() as u32) <= u32::MAX
    &&& forall|i: int|
        0 <= i < entries.len() ==> match #[trigger] entries[i].value {
            ExifValue::Ascii(b) => ascii_fits(b@),
            _ => true,
        }
}


/// The serializer's sizes fit in 32 bits without wrapping: the directory and the whole data
/// area end below 4 GiB, every ASCII value has fewer than `u32::MAX` bytes and every list
/// fewer than `2^32` items.
pub open spec fn exif_sizes_fit(is_le: bool, entries: Seq<ExifEntry>) -> bool {
    &&& directory_end(entries) + overflow_prefix(is_le, entries, entries.len() as int).len()
        <= u32::MAX
    &&& forall|i: int| 0 <= i < entries.len() ==> value_counts_fit(#[trigger] entries[i].value)
}

/// An ASCII value has fewer than `u32::MAX` bytes, a list fewer than `2^32` items.
pub open spec fn value_counts_fit(v: ExifValue) -> bool {
    match v {
        ExifValue::Ascii(b) => b.len() < u32::MAX,
        ExifValue::List(items) => items.len() <= u32::MAX,
        _ => true,
    }
}

proof fn lemma_list_data_grows(is_le: bool, first: ExifListItem, items: Seq<ExifListItem>, k: int)
    requires
        0 <= k <= items.len(),
    ensures
        list_data(is_le, first, items.take(k)).len() <= list_data(is_le, first, items).len(),
    decreases items.len() - k,
{
    if k < items.len() {
        lemma_list_data_grows(is_le, first, items, k + 1);
        assert(items.take(k + 1).drop_last() =~= items.take(k));
    } else {
        assert(items.take(k) =~= items);
    }
}

proof fn lemma_overflow_grows(is_le: bool, entries: Seq<ExifEntry>, i: int, k: int)
    requires
        0 <= i <= k,
    ensures
        overflow_prefix(is_le, entries, i).len() <= overflow_prefix(is_le, entries, k).len(),
    decreases k - i,
{
    if i < k {
        lemma_overflow_grows(is_le, entries, i, k - 1);
    }
}

/// Sizes that fit without wrapping meet the serializer's requirement.
pub proof fn lemma_sizes_fit_serializable(is_le: bool, entries: Seq<ExifEntry>)
    requires
        exif_sizes_fit(is_le, entries),
    ensures
        exif_fits(is_le, entries),
{
    let n = entries.len() as int;
    assert forall|i: int|
        0 <= i < entries.len() && uses_offset(#[trigger] entries[i].value) implies directory_end(entries)
        + (overflow_prefix(is_le, entries, i).len() as u32) <= u32::MAX by {
        lemma_overflow_grows(is_le, entries, i, n);
    }
    assert forall|i: int| 0 <= i < entries.len() implies match #[trigger] entries[i].value {
        ExifValue::Ascii(b) => ascii_fits(b@),
        _ => true,
    } by {
        assert(value_counts_fit(entries[i].value));
    }
}

fn list_item_size(is_le: bool, first: ExifListItem, item: ExifListItem) -> (r: u64)
    ensures
        r == list_item_bytes(is_le, first, item).len(),
{
    match (first, item) {
        (ExifListItem::Byte(_), ExifListItem::Byte(_)) => 1,
        (ExifListItem::Short(_), ExifListItem::Short(x)) => {
            proof {
                lemma_u16_bytes_len(is_le, x);
            }
            2
        },
        (ExifListItem::Rational(_, _), ExifListItem::Rational(n, d)) => {
            proof {
                lemma_u32_bytes_len(is_le, n);
                lemma_u32_bytes_len(is_le, d);
            }
            8
        },
        (ExifListItem::Unsigned(_), ExifListItem::Unsigned(x)) => {
            proof {
                lemma_u32_bytes_len(is_le, x);
            }
            4
        },
        _ => 0,
    }
}

/// The length of a list's data, or `None` when it exceeds `cap`.
fn list_data_len(is_le: bool, first: ExifListItem, items: &Vec<ExifListItem>, cap: u64) -> (r:
    Option<u64>)
    ensures
        match r {
            Some(len) => len == list_data(is_le, first, items@).len() && len <= cap,
            None => list_data(is_le, first, items@).len() > cap,
        },
{
    let mut total: u64 = 0;
    let mut k: usize = 0;
    while k < items.len()
        invariant
            0 <= k <= items@.len(),
            total == list_data(is_le, first, items@.take(k as int)).len(),
            total <= cap,
        decreases items@.len() - k,
    {
        let size = list_item_size(is_le, first, items[k]);
        proof {
            assert(items@.take(k + 1).drop_last() =~= items@.take(k as int));
        }
        if size > cap - total {
            proof {
                lemma_list_data_grows(is_le, first, items@, k + 1);
            }
            return None;
        }
        total = total + size;
        k = k + 1;
    }
    assert(items@.take(items@.len() as int) =~= items@);
    Some(total)
}

/// The length of the data a value stores after the directory, or `None` when it exceeds `cap`.
fn overflow_len(is_le: bool, v: &ExifValue, cap: u64) -> (r: Option<u64>)
    requires
        value_counts_fit(*v),
    ensures
        match r {
            Some(len) => len == value_overflow(is_le, *v).len() && len <= cap,
            None => value_overflow(is_le, *v).len() > cap,
        },
{
    reveal(value_overflow);
    let len: u64 = match v {
        ExifValue::Rational(n, d) => {
            proof {
                lemma_u32_bytes_len(is_le, *n);
                lemma_u32_bytes_len(is_le, *d);
            }
            8
        },
        ExifValue::SRational(n, d) => {
            proof {
                lemma_u32_bytes_len(is_le, *n as u32);
                lemma_u32_bytes_len(is_le, *d as u32);
            }
            8
        },
        ExifValue::Ascii(b) => {
            if b.len() >= 4 {
                if b.len() as u64 >= cap {
                    return None;
                }
                b.len() as u64 + 1
            } else {
                0
            }
        },
        ExifValue::List(items) => {
            if items.len() == 0 {
                0
            } else {
                let first = items[0];
                let uses = match first {
                    ExifListItem::Byte(_) => items.len() > 4,
                    ExifListItem::Short(_) => items.len() > 2,
                    ExifListItem::Rational(_, _) => true,
                    ExifListItem::Unsigned(_) => items.len() != 1,
                    ExifListItem::Other => false,
                };
                if uses {
                    return list_data_len(is_le, first, items, cap);
                }
                0
            }
        },
        _ => 0,
    };
    if len > cap {
        return None;
    }
    Some(len)
}

/// Decides whether the serializer's sizes fit in 32 bits without wrapping; where they do, the
/// directory can be serialized (see [`lemma_sizes_fit_serializable`]).
pub fn exif_sizes_ok(is_le: bool, entries: &Vec<ExifEntry>) -> (r: bool)
    ensures
        r == exif_sizes_fit(is_le, entries@),
{
    let count = entries.len() as u16;
    let dir_end: u64 = 8 + 2 + (count as u64) * 12 + 4;
    assert(dir_end == directory_end(entries@));
    let limit: u64 = 0xffff_ffff - dir_end;
    let mut total: u64 = 0;
    let mut i: usize = 0;
    while i < entries.len()
        invariant
            0 <= i <= entries@.len(),
            dir_end == directory_end(entries@),
            limit == u32::MAX - dir_end,
            total == overflow_prefix(is_le, entries@, i as int).len(),
            total <= limit,
            forall|j: int| 0 <= j < i ==> value_counts_fit(#[trigger] entries@[j].value),
        decreases entries@.len() - i,
    {
        let v = &entries[i].value;
        let counts_fit = match v {
            ExifValue::Ascii(b) => (b.len() as u64) < 0xffff_ffff,
            ExifValue::List(items) => items.len() as u64 <= 0xffff_ffff,
            _ => true,
        };
        if !counts_fit {
            assert(!value_counts_fit(entries@[i as int].value));
            return false;
        }
        match overflow_len(is_le, v, limit - total) {
            Some(len) => {
                total = total + len;
            },
            None => {
                proof {
                    lemma_overflow_grows(is_le, entries@, i + 1, entries@.len() as int);
                }
                return false;
            },
        }
        i = i + 1;
    }
    true
}

/// Appends the bytes of `item` when it has the type of the list's first element.
fn push_list_item(data: &mut Vec<u8>, is_le: bool, first: ExifListItem, item: ExifListItem)
    ensures
        final(data)@ == old(data)@ + list_item_bytes(is_le, first, item),
{
    match (first, item) {
        (ExifListItem::Byte(_), ExifListItem::Byte(b)) => {
            data.push(b);
        },
        (ExifListItem::Short(_), ExifListItem::Short(x)) => {
            push_u16(data, is_le, x);
        },
        (ExifListItem::Rational(_, _), ExifListItem::Rational(n, d)) => {
            push_u32(data, is_le, n);
            push_u32(data, is_le, d);
        },
        (ExifListItem::Unsigned(_), ExifListItem::Unsigned(x)) => {
            push_u32(data, is_le, x);
        },
        _ => {},
    }
}

/// Appends the data of every element of `items` that has the type of `items[0]`.
fn push_list_data(data: &mut Vec<u8>, is_le: bool, items: &Vec<ExifListItem>)
    requires
        items.len() > 0,
    ensures
        final(data)@ == old(data)@ + list_data(is_le, items@[0], items@),
{
    let first = items[0];
    let mut j: usize = 0;
    while j < items.len()
        invariant
            0 <= j <= items.len(),
            first == items@[0],
            data@ == old(data)@ + list_data(is_le, first, items@.take(j as int)),
        decreases items.len() - j,
    {
        push_list_item(data, is_le, first, items[j]);
        proof {
            assert(items@.take(j + 1).drop_last() =~= items@.take(j as int));
        }
        j = j + 1;
    }
    proof {
        assert(items@.take(items.len() as int) =~= items@);
    }
}

/// Computes slot `i` of a short byte list.
fn byte_slot_of(items: &Vec<ExifListItem>, i: usize) -> (r: u8)
    ensures
        r == byte_slot(items@, i as int),
{
    if i < items.len() {
        match items[i] {
            ExifListItem::Byte(b) => b,
            _ => 0,
        }
    } else {
        0
    }
}

/// Appends slot `i` of a short list of 16-bit values.
fn push_short_slot(buf: &mut Vec<u8>, is_le: bool, items: &Vec<ExifListItem>, i: usize)
    ensures
        final(buf)@ == old(buf)@ + short_slot(is_le, items@, i as int),
{
    if i < items.len() {
        match items[i] {
            ExifListItem::Short(x) => {
                push_u16(buf, is_le, x);
            },
            _ => {
                buf.push(0);
                buf.push(0);
            },
        }
    } else {
        buf.push(0);
        buf.push(0);
    }
}

/// Appends the ten-byte field of a list value, and its data when it does not fit.
#[verifier::rlimit(60)]
fn push_list_field(
    buf: &mut Vec<u8>,
    data: &mut Vec<u8>,
    is_le: bool,
    items: &Vec<ExifListItem>,
    ifd_end: u32,
)
    requires
        uses_offset(ExifValue::List(*items)) ==> ifd_end + (old(data)@.len() as u32) <= u32::MAX,
    ensures
        final(buf)@ == old(buf)@ + value_field(
            is_le,
            ExifValue::List(*items),
            (ifd_end + (old(data)@.len() as u32)) as u32,
        ),
        final(data)@ == old(data)@ + value_overflow(is_le, ExifValue::List(*items)),
{
    let ghost v = ExifValue::List(*items);
    proof {
        reveal(value_field);
        reveal(value_overflow);
    }
    if items.len() == 0 {
        push_u16(buf, is_le, TYPE_UNDEFINED);
        push_u32(buf, is_le, 0);
        push_u32(buf, is_le, 0);
        assert(buf@ =~= old(buf)@ + value_field(is_le, v, 0));
        assert(data@ =~= old(data)@ + value_overflow(is_le, v));
        return ;
    }
    let count = items.len() as u32;
    match items[0] {
        ExifListItem::Byte(_) => {
            push_u16(buf, is_le, TYPE_BYTE);
            push_u32(buf, is_le, count);
            if count <= 4 {
                let b0 = byte_slot_of(items, 0);
                let b1 = byte_slot_of(items, 1);
                let b2 = byte_slot_of(items, 2);
                let b3 = byte_slot_of(items, 3);
                buf.push(b0);
                buf.push(b1);
                buf.push(b2);
                buf.push(b3);
            } else {
                let offset = ifd_end + data.len() as u32;
                push_u32(buf, is_le, offset);
                push_list_data(data, is_le, items);
            }
        },
        ExifListItem::Short(_) => {
            push_u16(buf, is_le, TYPE_SHORT);
            push_u32(buf, is_le, count);
            if count <= 2 {
                push_short_slot(buf, is_le, items, 0);
                push_short_slot(buf, is_le, items, 1);
            } else {
                let offset = ifd_end + data.len() as u32;
                push_u32(buf, is_le, offset);
                push_list_data(data, is_le, items);
            }
        },
        ExifListItem::Rational(_, _) => {
            push_u16(buf, is_le, TYPE_RATIONAL);
            push_u32(buf, is_le, count);
            let offset = ifd_end + data.len() as u32;
            push_u32(buf, is_le, offset);
            push_list_data(data, is_le, items);
        },
        ExifListItem::Unsigned(x) => {
            push_u16(buf, is_le, TYPE_LONG);
            push_u32(buf, is_le, count);
            if count == 1 {
                push_u32(buf, is_le, x);
            } else {
                let offset = ifd_end + data.len() as u32;
                push_u32(buf, is_le, offset);
                push_list_data(data, is_le, items);
            }
        },
        ExifListItem::Other => {
            push_u16(buf, is_le, TYPE_UNDEFINED);
            push_u32(buf, is_le, 0);
            push_u32(buf, is_le, 0);
        },
    }
    assert(buf@ =~= old(buf)@ + value_field(is_le, v, (ifd_end + (old(data)@.len() as u32)) as u32));
    assert(data@ =~= old(data)@ + value_overflow(is_le, v));
}


/// Appends the ten-byte field of a scalar or ASCII value, and its data when it does not fit.
#[verifier::rlimit(60)]
fn push_value_field(buf: &mut Vec<u8>, data: &mut Vec<u8>, is_le: bool, v: &ExifValue, ifd_end: u32)
    requires
        uses_offset(*v) ==> ifd_end + (old(data)@.len() as u32) <= u32::MAX,
        match *v {
            ExifValue::Ascii(b) => ascii_fits(b@),
            _ => true,
        },
    ensures
        final(buf)@ == old(buf)@ + value_field(
            is_le,
            *v,
            (ifd_end + (old(data)@.len() as u32)) as u32,
        ),
        final(data)@ == old(data)@ + value_overflow(is_le, *v),
{
    let ghost offset = (ifd_end + (old(data)@.len() as u32)) as u32;
    proof {
        reveal(value_field);
        reveal(value_overflow);
    }
    match v {
        ExifValue::Byte(b) => {
            push_u16(buf, is_le, TYPE_BYTE);
            push_u32(buf, is_le, 1);
            buf.push(*b);
            buf.push(0);
            buf.push(0);
            buf.push(0);
        },
        ExifValue::Short(x) => {
            push_u16(buf, is_le, TYPE_SHORT);
            push_u32(buf, is_le, 1);
            push_u16(buf, is_le, *x);
            buf.push(0);
            buf.push(0);
        },
        ExifValue::Unsigned(x) => {
            push_u16(buf, is_le, TYPE_LONG);
            push_u32(buf, is_le, 1);
            push_u32(buf, is_le, *x);
        },
        ExifValue::Signed(x) => {
            push_u16(buf, is_le, TYPE_SLONG);
            push_u32(buf, is_le, 1);
            push_u32(buf, is_le, *x as u32);
        },
        ExifValue::Rational(n, d) => {
            let offset = ifd_end + data.len() as u32;
            push_u16(buf, is_le, TYPE_RATIONAL);
            push_u32(buf, is_le, 1);
            push_u32(buf, is_le, offset);
            push_u32(data, is_le, *n);
            push_u32(data, is_le, *d);
        },
        ExifValue::SRational(n, d) => {
            let offset = ifd_end + data.len() as u32;
            push_u16(buf, is_le, TYPE_SRATIONAL);
            push_u32(buf, is_le, 1);
            push_u32(buf, is_le, offset);
            push_u32(data, is_le, *n as u32);
            push_u32(data, is_le, *d as u32);
        },
        ExifValue::Ascii(bytes) => {
            let count = bytes.len() as u32 + 1;
            push_u16(buf, is_le, TYPE_ASCII);
            push_u32(buf, is_le, count);
            if count <= 4 {
                let mut k: usize = 0;
                while k < 4
                    invariant
                        0 <= k <= 4,
                        bytes.len() <= 3,
                        buf@ == old(buf)@ + u16_bytes(is_le, TYPE_ASCII) + u32_bytes(is_le, count)
                            + Seq::new(k as nat, |i: int| if i < bytes.len() { bytes@[i] } else { 0u8 }),
                    decreases 4 - k,
                {
                    if k < bytes.len() {
                        buf.push(bytes[k]);
                    } else {
                        buf.push(0);
                    }
                    k = k + 1;
                }
                assert(Seq::new(4, |i: int| if i < bytes.len() { bytes@[i] } else { 0u8 })
                    =~= bytes@ + Seq::new((4 - bytes.len()) as nat, |i: int| 0u8));
            } else {
                let offset = ifd_end + data.len() as u32;
                push_u32(buf, is_le, offset);
                let mut k: usize = 0;
                while k < bytes.len()
                    invariant
                        0 <= k <= bytes.len(),
                        data@ == old(data)@ + bytes@.take(k as int),
                    decreases bytes.len() - k,
                {
                    data.push(bytes[k]);
                    assert(bytes@.take(k + 1) =~= bytes@.take(k as int).push(bytes@[k as int]));
                    k = k + 1;
                }
                data.push(0);
                assert(bytes@.take(bytes.len() as int) =~= bytes@);
            }
        },
        ExifValue::List(items) => {
            push_list_field(buf, data, is_le, items, ifd_end);
        },
        ExifValue::Other => {
            push_u16(buf, is_le, TYPE_UNDEFINED);
            push_u32(buf, is_le, 0);
            push_u32(buf, is_le, 0);
        },
    }
    assert(buf@ =~= old(buf)@ + value_field(is_le, *v, offset));
    assert(data@ =~= old(data)@ + value_overflow(is_le, *v));
}


/// Serializes the entries of an EXIF directory into a standalone TIFF blob: an 8-byte header,
/// the entry count, 12 bytes per entry, a zero next-directory link, then the data of the values
/// that do not fit in four bytes. `is_le` selects little-endian ("II") or big-endian ("MM").
///
/// Returns `None` when the blob holds nothing beyond the header, count and link, that is when
/// there are no entries.
pub fn serialize_exif_ifd(is_le: bool, entries: &Vec<ExifEntry>) -> (r: Option<Vec<u8>>)
    requires
        exif_fits(is_le, entries@),
    ensures
        r is Some <==> entries@.len() > 0,
        r matches Some(blob) ==> blob@ == exif_blob(is_le, entries@),
        r matches Some(blob) ==> blob@.len() == 14 + 12 * entries@.len() + overflow_prefix(
            is_le,
            entries@,
            entries@.len() as int,
        ).len(),
{
    let mut buf: Vec<u8> = Vec::new();
    if is_le {
        buf.push(0x49);
        buf.push(0x49);
    } else {
        buf.push(0x4D);
        buf.push(0x4D);
    }
    push_u16(&mut buf, is_le, 42);
    push_u32(&mut buf, is_le, 8);
    let entry_count = entries.len() as u16;
    push_u16(&mut buf, is_le, entry_count);
    let ifd_end: u32 = 8 + 2 + (entry_count as u32) * 12 + 4;
    let mut overflow_data: Vec<u8> = Vec::new();
    let ghost head = tiff_header(is_le) + u16_bytes(is_le, entry_count);
    assert(buf@ =~= head + records_prefix(is_le, entries@, ifd_end, 0));
    let mut i: usize = 0;
    while i < entries.len()
        invariant
            0 <= i <= entries.len(),
            exif_fits(is_le, entries@),
            ifd_end == directory_end(entries@),
            entry_count == written_count(entries@),
            head == tiff_header(is_le) + u16_bytes(is_le, entry_count),
            buf@ == head + records_prefix(is_le, entries@, ifd_end, i as int),
            overflow_data@ == overflow_prefix(is_le, entries@, i as int),
        decreases entries.len() - i,
    {
        let entry = &entries[i];
        push_u16(&mut buf, is_le, entry.tag);
        proof {
            let _ = entries@[i as int].value;
        }
        push_value_field(&mut buf, &mut overflow_data, is_le, &entry.value, ifd_end);
        proof {
            assert(buf@ =~= head + records_prefix(is_le, entries@, ifd_end, i + 1));
        }
        i = i + 1;
    }
    push_u32(&mut buf, is_le, 0);
    let ghost before = buf@;
    let mut k: usize = 0;
    while k < overflow_data.len()
        invariant
            0 <= k <= overflow_data.len(),
            buf@ == before + overflow_data@.take(k as int),
        decreases overflow_data.len() - k,
    {
        buf.push(overflow_data[k]);
        assert(overflow_data@.take(k + 1) =~= overflow_data@.take(k as int).push(overflow_data@[k as int]));
        k = k + 1;
    }
    assert(overflow_data@.take(overflow_data.len() as int) =~= overflow_data@);
    assert(buf@ =~= exif_blob(is_le, entries@));
    proof {
        lemma_records_len(is_le, entries@, ifd_end, entries@.len() as int);
        lemma_u16_bytes_len(is_le, 42);
        lemma_u16_bytes_len(is_le, entry_count);
        lemma_u32_bytes_len(is_le, 8);
        lemma_u32_bytes_len(is_le, 0);
    }
    if buf.len() > 8 + 2 + 4 {
        Some(buf)
    } else {
        None
    }
}


proof fn lemma_u16_bytes_len(is_le: bool, v: u16)
    ensures
        u16_bytes(is_le, v).len() == 2,
{
}

proof fn lemma_u32_bytes_len(is_le: bool, v: u32)
    ensures
        u32_bytes(is_le, v).len() == 4,
{
}

proof fn lemma_value_field_len(is_le: bool, v: ExifValue, offset: u32)
    requires
        match v {
            ExifValue::Ascii(b) => ascii_fits(b@),
            _ => true,
        },
    ensures
        value_field(is_le, v, offset).len() == 10,
{
    reveal(value_field);
    lemma_u16_bytes_len(is_le, value_type(v));
    lemma_u32_bytes_len(is_le, value_count(v));
    lemma_u32_bytes_len(is_le, offset);
    match v {
        ExifValue::Short(x) => lemma_u16_bytes_len(is_le, x),
        ExifValue::List(items) => {
            if items.len() > 0 {
                match items[0] {
                    ExifListItem::Short(_) => {
                        assert(short_slot(is_le, items@, 0).len() == 2);
                        assert(short_slot(is_le, items@, 1).len() == 2);
                    },
                    _ => {},
                }
            }
        },
        _ => {},
    }
}

proof fn lemma_records_len(is_le: bool, entries: Seq<ExifEntry>, ifd_end: u32, k: int)
    requires
        0 <= k <= entries.len(),
        exif_fits(is_le, entries),
    ensures
        records_prefix(is_le, entries, ifd_end, k).len() == 12 * k,
    decreases k,
{
    if k > 0 {
        lemma_records_len(is_le, entries, ifd_end, k - 1);
        lemma_u16_bytes_len(is_le, entries[k - 1].tag);
        let _ = entries[k - 1].value;
        lemma_value_field_len(is_le, entries[k - 1].value, entry_offset(is_le, entries, ifd_end, k - 1));
    }
}

proof fn lemma_records_slice(is_le: bool, entries: Seq<ExifEntry>, ifd_end: u32, i: int, k: int)
    requires
        0 <= i < k <= entries.len(),
        exif_fits(is_le, entries),
    ensures
        records_prefix(is_le, entries, ifd_end, k).subrange(12 * i, 12 * i + 12) == u16_bytes(
            is_le,
            entries[i].tag,
        ) + value_field(is_le, entries[i].value, entry_offset(is_le, entries, ifd_end, i)),
    decreases k,
{
    lemma_records_len(is_le, entries, ifd_end, k - 1);
    lemma_records_len(is_le, entries, ifd_end, k);
    if k == i + 1 {
        let pre = records_prefix(is_le, entries, ifd_end, i);
        let rec = u16_bytes(is_le, entries[i].tag) + value_field(
            is_le,
            entries[i].value,
            entry_offset(is_le, entries, ifd_end, i),
        );
        assert(records_prefix(is_le, entries, ifd_end, k) =~= pre + rec);
        assert((pre + rec).subrange(12 * i, 12 * i + 12) =~= rec);
    } else {
        lemma_records_slice(is_le, entries, ifd_end, i, k - 1);
        let pre = records_prefix(is_le, entries, ifd_end, k - 1);
        assert(records_prefix(is_le, entries, ifd_end, k).subrange(12 * i, 12 * i + 12)
            =~= pre.subrange(12 * i, 12 * i + 12));
    }
}

proof fn lemma_overflow_slice(is_le: bool, entries: Seq<ExifEntry>, i: int, k: int)
    requires
        0 <= i < k <= entries.len(),
    ensures
        overflow_prefix(is_le, entries, k).len() >= overflow_prefix(is_le, entries, i).len()
            + value_overflow(is_le, entries[i].value).len(),
        overflow_prefix(is_le, entries, k).subrange(
            overflow_prefix(is_le, entries, i).len() as int,
            (overflow_prefix(is_le, entries, i).len() + value_overflow(is_le, entries[i].value).len()) as int,
        ) == value_overflow(is_le, entries[i].value),
    decreases k,
{
    let a = overflow_prefix(is_le, entries, i).len() as int;
    let b = a + value_overflow(is_le, entries[i].value).len();
    if k == i + 1 {
        assert(overflow_prefix(is_le, entries, k).subrange(a, b) =~= value_overflow(
            is_le,
            entries[i].value,
        ));
    } else {
        lemma_overflow_slice(is_le, entries, i, k - 1);
        assert(overflow_prefix(is_le, entries, k).subrange(a, b) =~= overflow_prefix(
            is_le,
            entries,
            k - 1,
        ).subrange(a, b));
    }
}

/// The layout of a serialized EXIF directory: entry `i` stands at byte `10 + 12 * i` and holds
/// its tag and field; when its value is stored out of line, the offset written in the entry
/// points at the value's data in the blob. (With at most 65535 entries, so that the count is
/// not truncated, and with offsets below 4 GiB.)
#[verifier::rlimit(100)]
pub proof fn lemma_exif_entry_layout(is_le: bool, entries: Seq<ExifEntry>, i: int)
    requires
        exif_fits(is_le, entries),
        entries.len() <= 65535,
        0 <= i < entries.len(),
        directory_end(entries) + overflow_prefix(is_le, entries, i).len() <= u32::MAX,
    ensures
        ({
            let blob = exif_blob(is_le, entries);
            let v = entries[i].value;
            let off = entry_offset(is_le, entries, directory_end(entries), i);
            &&& blob.subrange(10 + 12 * i, 10 + 12 * i + 12) == u16_bytes(is_le, entries[i].tag)
                + value_field(is_le, v, off)
            &&& uses_offset(v) ==> blob.subrange(off as int, (off + value_overflow(is_le, v).len()) as int)
                == value_overflow(is_le, v)
        }),
{
    let n = entries.len() as int;
    let end = directory_end(entries);
    let head = tiff_header(is_le) + u16_bytes(is_le, written_count(entries));
    let recs = records_prefix(is_le, entries, end, n);
    let tail = u32_bytes(is_le, 0);
    let data = overflow_prefix(is_le, entries, n);
    let blob = exif_blob(is_le, entries);
    assert(blob =~= head + recs + tail + data);
    lemma_u16_bytes_len(is_le, 42);
    lemma_u32_bytes_len(is_le, 8);
    lemma_u16_bytes_len(is_le, written_count(entries));
    lemma_u32_bytes_len(is_le, 0);
    assert(head.len() == 10);
    lemma_records_len(is_le, entries, end, n);
    lemma_records_slice(is_le, entries, end, i, n);
    assert(blob.subrange(10 + 12 * i, 10 + 12 * i + 12) =~= recs.subrange(12 * i, 12 * i + 12));
    assert(end == 14 + 12 * n);
    let v = entries[i].value;
    if uses_offset(v) {
        lemma_overflow_slice(is_le, entries, i, n);
        let a = overflow_prefix(is_le, entries, i).len() as int;
        let off = entry_offset(is_le, entries, end, i);
        assert(off == end + a);
        assert(blob.subrange(off as int, (off + value_overflow(is_le, v).len()) as int) =~= data.subrange(
            a,
            a + value_overflow(is_le, v).len(),
        ));
    }
}

/// A TIFF field type code as two bytes in the given byte order.
pub open spec fn type_code_bytes(is_le: bool, code: u8) -> Seq<u8> {
    if is_le {
        seq![code, 0u8]
    } else {
        seq![0u8, code]
    }
}

/// Each serialized entry carries, right after its tag, the TIFF 6.0 field type of its value:
/// BYTE (1) for bytes, ASCII (2) for text, SHORT (3), LONG (4), RATIONAL (5) for unsigned
/// ratios, SLONG (9) for signed integers and SRATIONAL (10) for signed ratios, a list by the
/// type of its first element; a single rational or signed rational has a count of one.
pub proof fn lemma_exif_field_types(is_le: bool, entries: Seq<ExifEntry>, i: int)
    requires
        exif_fits(is_le, entries),
        entries.len() <= 65535,
        0 <= i < entries.len(),
        directory_end(entries) + overflow_prefix(is_le, entries, i).len() <= u32::MAX,
    ensures
        ({
            let blob = exif_blob(is_le, entries);
            let field = blob.subrange(12 + 12 * i, 14 + 12 * i);
            let count = blob.subrange(14 + 12 * i, 18 + 12 * i);
            let v = entries[i].value;
            &&& v is Byte ==> field == type_code_bytes(is_le, 1)
            &&& v is Ascii ==> field == type_code_bytes(is_le, 2)
            &&& v is Short ==> field == type_code_bytes(is_le, 3)
            &&& v is Unsigned ==> field == type_code_bytes(is_le, 4)
            &&& v is Rational ==> field == type_code_bytes(is_le, 5)
            &&& v is Signed ==> field == type_code_bytes(is_le, 9)
            &&& v is SRational ==> field == type_code_bytes(is_le, 10)
            &&& (v is Rational || v is SRational) ==> count == (if is_le {
                seq![1u8, 0u8, 0u8, 0u8]
            } else {
                seq![0u8, 0u8, 0u8, 1u8]
            })
            &&& v matches ExifValue::List(items) ==> (items.len() > 0 ==> match items[0] {
                ExifListItem::Byte(_) => field == type_code_bytes(is_le, 1),
                ExifListItem::Short(_) => field == type_code_bytes(is_le, 3),
                ExifListItem::Unsigned(_) => field == type_code_bytes(is_le, 4),
                ExifListItem::Rational(_, _) => field == type_code_bytes(is_le, 5),
                ExifListItem::Other => field == type_code_bytes(is_le, 7),
            })
        }),
{
    lemma_exif_entry_layout(is_le, entries, i);
    let blob = exif_blob(is_le, entries);
    let v = entries[i].value;
    let off = entry_offset(is_le, entries, directory_end(entries), i);
    let rec = blob.subrange(10 + 12 * i, 10 + 12 * i + 12);
    reveal(value_field);
    lemma_u16_bytes_len(is_le, entries[i].tag);
    lemma_u16_bytes_len(is_le, value_type(v));
    lemma_u32_bytes_len(is_le, value_count(v));
    let n = entries.len() as int;
    let end = directory_end(entries);
    let head = tiff_header(is_le) + u16_bytes(is_le, written_count(entries));
    let recs = records_prefix(is_le, entries, end, n);
    assert(blob =~= head + recs + u32_bytes(is_le, 0) + overflow_prefix(is_le, entries, n));
    lemma_u16_bytes_len(is_le, 42);
    lemma_u32_bytes_len(is_le, 8);
    lemma_u16_bytes_len(is_le, written_count(entries));
    lemma_records_len(is_le, entries, end, n);
    assert(blob.len() >= 10 + 12 * n);
    assert(blob.subrange(12 + 12 * i, 14 + 12 * i) =~= rec.subrange(2, 4));
    assert(blob.subrange(14 + 12 * i, 18 + 12 * i) =~= rec.subrange(4, 8));
    assert(rec.subrange(2, 4) =~= u16_bytes(is_le, value_type(v)));
    assert(rec.subrange(4, 8) =~= u32_bytes(is_le, value_count(v)));
}

/// Values are written so that a reader of the blob's byte order reads them back: the
/// little-endian bytes of a value sum to it from the lowest byte up, the big-endian ones from
/// the highest byte down; the header starts with "II" or "MM" and the magic number 42, then
/// the offset 8 of the directory.
pub proof fn lemma_byte_order_reads_back(v16: u16, v32: u32)
    ensures
        u16_bytes(true, v16).len() == 2 && u16_bytes(true, v16)[0] + 256 * u16_bytes(true, v16)[1] == v16,
        u16_bytes(false, v16).len() == 2 && 256 * u16_bytes(false, v16)[0] + u16_bytes(false, v16)[1] == v16,
        ({
            let b = u32_bytes(true, v32);
            b.len() == 4 && b[0] + 256 * b[1] + 65536 * b[2] + 16777216 * b[3] == v32
        }),
        ({
            let b = u32_bytes(false, v32);
            b.len() == 4 && 16777216 * b[0] + 65536 * b[1] + 256 * b[2] + b[3] == v32
        }),
        tiff_header(true) == seq![0x49u8, 0x49u8, 42u8, 0u8, 8u8, 0u8, 0u8, 0u8],
        tiff_header(false) == seq![0x4Du8, 0x4Du8, 0u8, 42u8, 0u8, 0u8, 0u8, 8u8],
{
    assert(v16 == v16 % 256 + 256 * (v16 / 256) && v16 / 256 < 256) by (nonlinear_arith)
        requires
            v16 <= 0xFFFF,
    ;
    assert(v32 == v32 % 256 + 256 * ((v32 / 256) % 256) + 65536 * ((v32 / 65536) % 256) + 16777216 * (v32
        / 16777216) && v32 / 16777216 < 256) by (nonlinear_arith)
        requires
            v32 <= 0xFFFF_FFFF,
    ;
    assert(tiff_header(true) =~= seq![0x49u8, 0x49u8, 42u8, 0u8, 8u8, 0u8, 0u8, 0u8]);
    assert(tiff_header(false) =~= seq![0x4Du8, 0x4Du8, 0u8, 42u8, 0u8, 0u8, 0u8, 8u8]);
}

proof fn lemma_entry_record(is_le: bool, entries: Seq<ExifEntry>, i: int)
    requires
        exif_fits(is_le, entries),
        entries.len() <= 65535,
        0 <= i < entries.len(),
        directory_end(entries) + overflow_prefix(is_le, entries, i).len() <= u32::MAX,
    ensures
        ({
            let blob = exif_blob(is_le, entries);
            let v = entries[i].value;
            let off = entry_offset(is_le, entries, directory_end(entries), i);
            &&& blob.subrange(14 + 12 * i, 18 + 12 * i) == u32_bytes(is_le, value_count(v))
            &&& blob.subrange(18 + 12 * i, 22 + 12 * i) == if uses_offset(v) {
                u32_bytes(is_le, off)
            } else {
                inline_bytes(is_le, v)
            }
            &&& uses_offset(v) ==> blob.subrange(off as int, (off + value_overflow(is_le, v).len()) as int)
                == value_overflow(is_le, v)
        }),
{
    lemma_exif_entry_layout(is_le, entries, i);
    let blob = exif_blob(is_le, entries);
    let v = entries[i].value;
    let off = entry_offset(is_le, entries, directory_end(entries), i);
    let rec = blob.subrange(10 + 12 * i, 10 + 12 * i + 12);
    reveal(value_field);
    lemma_u16_bytes_len(is_le, entries[i].tag);
    lemma_u16_bytes_len(is_le, value_type(v));
    lemma_u32_bytes_len(is_le, value_count(v));
    lemma_u32_bytes_len(is_le, off);
    lemma_value_field_len(is_le, v, off);
    let n = entries.len() as int;
    let end = directory_end(entries);
    let head = tiff_header(is_le) + u16_bytes(is_le, written_count(entries));
    let recs = records_prefix(is_le, entries, end, n);
    assert(blob =~= head + recs + u32_bytes(is_le, 0) + overflow_prefix(is_le, entries, n));
    lemma_u16_bytes_len(is_le, 42);
    lemma_u32_bytes_len(is_le, 8);
    lemma_u16_bytes_len(is_le, written_count(entries));
    lemma_records_len(is_le, entries, end, n);
    assert(blob.len() >= 10 + 12 * n);
    assert(blob.subrange(18 + 12 * i, 22 + 12 * i) =~= rec.subrange(8, 12));
    assert(blob.subrange(14 + 12 * i, 18 + 12 * i) =~= rec.subrange(4, 8));
}

/// Where a reader finds a ratio: a signed or unsigned ratio is stored after the directory as
/// its numerator then its denominator, each four bytes in the blob's byte order (a signed value
/// in two's complement), and its entry holds their offset.
#[verifier::rlimit(50)]
pub proof fn lemma_exif_ratio_data(is_le: bool, entries: Seq<ExifEntry>, i: int)
    requires
        exif_fits(is_le, entries),
        entries.len() <= 65535,
        0 <= i < entries.len(),
        directory_end(entries) + overflow_prefix(is_le, entries, i).len() <= u32::MAX,
    ensures
        ({
            let blob = exif_blob(is_le, entries);
            let off = entry_offset(is_le, entries, directory_end(entries), i);
            &&& (entries[i].value matches ExifValue::Rational(n, d) ==> blob.subrange(18 + 12 * i, 22 + 12 * i)
                == u32_bytes(is_le, off) && blob.subrange(off as int, off + 8) == u32_bytes(is_le, n)
                + u32_bytes(is_le, d))
            &&& (entries[i].value matches ExifValue::SRational(n, d) ==> blob.subrange(18 + 12 * i, 22 + 12
                * i) == u32_bytes(is_le, off) && blob.subrange(off as int, off + 8) == u32_bytes(
                is_le,
                n as u32,
            ) + u32_bytes(is_le, d as u32))
        }),
{
    lemma_entry_record(is_le, entries, i);
    let v = entries[i].value;
    reveal(value_overflow);
    match v {
        ExifValue::Rational(a, b) => {
            lemma_u32_bytes_len(is_le, a);
            lemma_u32_bytes_len(is_le, b);
        },
        ExifValue::SRational(a, b) => {
            lemma_u32_bytes_len(is_le, a as u32);
            lemma_u32_bytes_len(is_le, b as u32);
        },
        _ => {},
    }
}

/// Where a reader finds a text: its count includes a NUL terminator; a text of up to three
/// bytes is stored in the entry itself and a longer one after the directory at the offset the
/// entry holds, followed in either case by a NUL byte.
pub proof fn lemma_exif_text_data(is_le: bool, entries: Seq<ExifEntry>, i: int)
    requires
        exif_fits(is_le, entries),
        entries.len() <= 65535,
        0 <= i < entries.len(),
        directory_end(entries) + overflow_prefix(is_le, entries, i).len() <= u32::MAX,
        entries[i].value is Ascii,
    ensures
        ({
            let blob = exif_blob(is_le, entries);
            let off = entry_offset(is_le, entries, directory_end(entries), i);
            let slot = blob.subrange(18 + 12 * i, 22 + 12 * i);
            let b = entries[i].value->Ascii_0@;
            &&& b.len() < u32::MAX ==> blob.subrange(14 + 12 * i, 18 + 12 * i) == u32_bytes(is_le, (b.len() + 1) as u32)
            &&& b.len() <= 3 ==> slot.take(b.len() as int) == b && slot[b.len() as int] == 0u8
            &&& b.len() > 3 ==> slot == u32_bytes(is_le, off) && blob.subrange(off as int, off + b.len() + 1)
                == b.push(0u8)
        }),
{
    lemma_entry_record(is_le, entries, i);
    let v = entries[i].value;
    let b = v->Ascii_0@;
    assert(ascii_fits(b));
    assert(value_count(v) == ascii_count(b) as u32);
    if b.len() < u32::MAX {
        assert((b.len() as u32) == b.len());
        assert(value_count(v) == (b.len() + 1) as u32);
    }
    if b.len() <= 3 {
        assert(!uses_offset(v));
        let slot = inline_bytes(is_le, v);
        assert(slot =~= b + Seq::new((4 - b.len()) as nat, |k: int| 0u8));
        assert(slot.take(b.len() as int) =~= b);
    } else {
        assert(uses_offset(v));
        reveal(value_overflow);
        assert(value_overflow(is_le, v) == b.push(0u8));
    }
}

} // verus!
