use vstd::prelude::*;
use vstd::utf8::encode_utf8;
use crate::calendar::CalendarDate;
use crate::record::Record;

verus! {

/// Number of columns in one row.
pub const COLUMN_COUNT: u64 = 15;

/// Largest byte length a single field can declare (a signed 32-bit length).
pub const MAX_FIELD_LEN: usize = 0x7FFF_FFFF;

/// Why a batch could not be put on the wire.
#[derive(Debug, Clone, Copy, PartialEq, Eq, Structural)]
pub enum EncodeError {
    /// A text field is longer than a field length can declare.
    FieldTooLarge,
}

/// The low `n` bytes of `v`, most significant first.
pub open spec fn be_bytes(v: nat, n: nat) -> Seq<u8>
    decreases n,
{
    if n == 0 {
        Seq::empty()
    } else {
        be_bytes(v / 256, (n - 1) as nat).push((v % 256) as u8)
    }
}

/// A field on the wire: its byte length as a 32-bit integer, then its bytes.
pub open spec fn field(value: Seq<u8>) -> Seq<u8> {
    be_bytes(value.len(), 4) + value
}

/// A 64-bit integer column value, two's complement, big-endian.
pub open spec fn int8_value(v: i64) -> Seq<u8> {
    be_bytes(v as u64 as nat, 8)
}

/// A 32-bit integer column value, two's complement, big-endian.
pub open spec fn int4_value(v: i32) -> Seq<u8> {
    be_bytes(v as u32 as nat, 4)
}

/// A double column value: its IEEE-754 bit pattern, big-endian.
pub open spec fn float8_value(bits: u64) -> Seq<u8> {
    be_bytes(bits as nat, 8)
}

/// A date column value: days since 2000-01-01 as a 32-bit integer.
pub open spec fn date_value(d: CalendarDate) -> Seq<u8> {
    be_bytes(d.spec_days_since_2000() as i32 as u32 as nat, 4)
}

/// A text column value: its UTF-8 bytes.
pub open spec fn text_value(s: Seq<char>) -> Seq<u8> {
    encode_utf8(s)
}

/// A text value fits in one field.
pub open spec fn text_fits(s: Seq<char>) -> bool {
    text_value(s).len() <= MAX_FIELD_LEN
}

/// Every text column of `r` fits in one field.
pub open spec fn row_fits(r: Record) -> bool {
    &&& text_fits(r.f8@)
    &&& text_fits(r.f9@)
    &&& text_fits(r.f13@)
    &&& text_fits(r.f14@)
    &&& text_fits(r.f15@)
}

/// One row on the wire: the column count, then the fifteen fields in
/// column order.
pub open spec fn row_bytes(r: Record) -> Seq<u8> {
    be_bytes(COLUMN_COUNT as nat, 2) + field(int8_value(r.f1)) + field(int8_value(r.f2)) + field(
        int4_value(r.f3),
    ) + field(float8_value(r.f4)) + field(float8_value(r.f5)) + field(float8_value(r.f6)) + field(
        float8_value(r.f7),
    ) + field(text_value(r.f8@)) + field(text_value(r.f9@)) + field(date_value(r.f10)) + field(
        date_value(r.f11),
    ) + field(date_value(r.f12)) + field(text_value(r.f13@)) + field(text_value(r.f14@)) + field(
        text_value(r.f15@),
    )
}

/// The rows of a batch, one after another in batch order.
pub open spec fn rows_bytes(rs: Seq<Record>) -> Seq<u8>
    decreases rs.len(),
{
    if rs.len() == 0 {
        Seq::empty()
    } else {
        rows_bytes(rs.drop_last()) + row_bytes(rs.last())
    }
}

/// The stream header: signature, flags and header-extension length.
pub open spec fn header() -> Seq<u8> {
    seq![0x50u8, 0x47, 0x43, 0x4F, 0x50, 0x59, 0x0A, 0xFF, 0x0D, 0x0A, 0x00] + be_bytes(0, 4)
        + be_bytes(0, 4)
}

/// The stream trailer: a column count of -1.
pub open spec fn trailer() -> Seq<u8> {
    be_bytes(0xFFFF, 2)
}

/// A whole batch on the wire.
pub open spec fn payload(rs: Seq<Record>) -> Seq<u8> {
    header() + rows_bytes(rs) + trailer()
}

/// Appends the low `n` bytes of `v`, most significant first.
fn push_be(out: &mut Vec<u8>, v: u64, n: usize)
    requires
        n <= 8,
    ensures
        final(out)@ == old(out)@ + be_bytes(v as nat, n as nat),
    decreases n,
{
    if n == 0 {
        assert(out@ =~= old(out)@ + be_bytes(v as nat, 0));
    } else {
        push_be(out, v / 256, n - 1);
        out.push((v % 256) as u8);
        assert(out@ =~= old(out)@ + be_bytes(v as nat, n as nat));
    }
}

/// Appends `bytes` unchanged.
fn push_bytes(out: &mut Vec<u8>, bytes: &[u8])
    ensures
        final(out)@ == old(out)@ + bytes@,
{
    let mut i: usize = 0;
    while i < bytes.len()
        invariant
            i <= bytes@.len(),
            out@ == old(out)@ + bytes@.subrange(0, i as int),
        decreases bytes@.len() - i,
    {
        out.push(bytes[i]);
        i = i + 1;
        assert(out@ =~= old(out)@ + bytes@.subrange(0, i as int));
    }
    assert(bytes@.subrange(0, i as int) =~= bytes@);
}

/// Appends a fixed-width field of `n` bytes holding `v`.
fn push_fixed(out: &mut Vec<u8>, v: u64, n: usize)
    requires
        n <= 8,
    ensures
        final(out)@ == old(out)@ + field(be_bytes(v as nat, n as nat)),
{
    let ghost start = old(out)@;
    proof {
        lemma_be_bytes_len(v as nat, n as nat);
    }
    push_be(out, n as u64, 4);
    push_be(out, v, n);
    assert(out@ =~= start + field(be_bytes(v as nat, n as nat)));
}

/// Appends a text field; its length must fit a field length.
fn push_text(out: &mut Vec<u8>, s: &String)
    requires
        text_fits(s@),
    ensures
        final(out)@ == old(out)@ + field(text_value(s@)),
{
    let ghost start = old(out)@;
    let bytes = s.as_str().as_bytes();
    push_be(out, bytes.len() as u64, 4);
    push_bytes(out, bytes);
    assert(out@ =~= start + field(text_value(s@)));
}

proof fn lemma_be_bytes_len(v: nat, n: nat)
    ensures
        be_bytes(v, n).len() == n,
    decreases n,
{
    if n > 0 {
        lemma_be_bytes_len(v / 256, (n - 1) as nat);
    }
}

/// Whether a text value fits in one field.
pub fn text_fits_field(s: &String) -> (r: bool)
    ensures
        r == text_fits(s@),
{
    s.as_str().as_bytes().len() <= MAX_FIELD_LEN
}

/// Whether every text column of a record fits in one field.
pub fn record_fits(r: &Record) -> (b: bool)
    ensures
        b == row_fits(*r),
{
    text_fits_field(&r.f8) && text_fits_field(&r.f9) && text_fits_field(&r.f13)
        && text_fits_field(&r.f14) && text_fits_field(&r.f15)
}

/// Encodes one row: the column count and the fifteen fields in order.
pub fn encode_row(r: &Record) -> (b: Vec<u8>)
    requires
        r.wf(),
        row_fits(*r),
    ensures
        b@ == row_bytes(*r),
{
    let mut b: Vec<u8> = Vec::new();
    push_be(&mut b, COLUMN_COUNT, 2);
    assert(b@ =~= be_bytes(COLUMN_COUNT as nat, 2));
    push_fixed(&mut b, r.f1 as u64, 8);
    push_fixed(&mut b, r.f2 as u64, 8);
    push_fixed(&mut b, r.f3 as u32 as u64, 4);
    push_fixed(&mut b, r.f4, 8);
    push_fixed(&mut b, r.f5, 8);
    push_fixed(&mut b, r.f6, 8);
    push_fixed(&mut b, r.f7, 8);
    push_text(&mut b, &r.f8);
    push_text(&mut b, &r.f9);
    push_fixed(&mut b, r.f10.days_since_2000() as u32 as u64, 4);
    push_fixed(&mut b, r.f11.days_since_2000() as u32 as u64, 4);
    push_fixed(&mut b, r.f12.days_since_2000() as u32 as u64, 4);
    push_text(&mut b, &r.f13);
    push_text(&mut b, &r.f14);
    push_text(&mut b, &r.f15);
    b
}

/// Encodes a batch into one bulk-load stream: header, each record as a row
/// in batch order, trailer. Fails exactly when some text field is too long
/// for a field length.
pub fn encode_batch(records: &Vec<Record>) -> (r: Result<Vec<u8>, EncodeError>)
    requires
        forall|i: int| 0 <= i < records@.len() ==> #[trigger] records@[i].wf(),
    ensures
        r is Ok <==> forall|i: int| 0 <= i < records@.len() ==> row_fits(#[trigger] records@[i]),
        r matches Ok(b) ==> b@ == payload(records@),
        r matches Err(e) ==> e == EncodeError::FieldTooLarge,
{
    let mut out: Vec<u8> = Vec::new();
    let sig: [u8; 11] = [0x50, 0x47, 0x43, 0x4F, 0x50, 0x59, 0x0A, 0xFF, 0x0D, 0x0A, 0x00];
    push_bytes(&mut out, sig.as_slice());
    push_be(&mut out, 0, 4);
    push_be(&mut out, 0, 4);
    assert(out@ =~= header() + rows_bytes(records@.subrange(0, 0)));
    let mut i: usize = 0;
    while i < records.len()
        invariant
            i <= records@.len(),
            forall|k: int| 0 <= k < records@.len() ==> #[trigger] records@[k].wf(),
            forall|k: int| 0 <= k < i ==> row_fits(#[trigger] records@[k]),
            out@ == header() + rows_bytes(records@.subrange(0, i as int)),
        decreases records@.len() - i,
    {
        let rec = &records[i];
        if !record_fits(rec) {
            return Err(EncodeError::FieldTooLarge);
        }
        let mut row = encode_row(rec);
        let ghost before = out@;
        out.append(&mut row);
        proof {
            let s = records@.subrange(0, i + 1);
            assert(s.drop_last() =~= records@.subrange(0, i as int));
            assert(s.last() == records@[i as int]);
            assert(out@ =~= header() + rows_bytes(s));
        }
        i = i + 1;
    }
    push_be(&mut out, 0xFFFF, 2);
    assert(records@.subrange(0, i as int) =~= records@);
    Ok(out)
}

} // verus!
