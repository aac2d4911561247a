//! The digest of the rows of a query, by which two tables are compared.

use crate::digest::{digest_text, sha256_hex};
use vstd::prelude::*;

verus! {

/// A value of a row. A floating-point number is held by its bits.
#[derive(Debug, PartialEq, Eq)]
pub enum SqlValue {
    Null,
    Integer(i64),
    Real(u64),
    Text(Vec<u8>),
    Blob(Vec<u8>),
}

/// What a value of a row is.
pub enum SqlData {
    Null,
    Integer(i64),
    Real(u64),
    Text(Seq<u8>),
    Blob(Seq<u8>),
}

impl View for SqlValue {
    type V = SqlData;

    open spec fn view(&self) -> SqlData {
        match *self {
            SqlValue::Null => SqlData::Null,
            SqlValue::Integer(value) => SqlData::Integer(value),
            SqlValue::Real(bits) => SqlData::Real(bits),
            SqlValue::Text(bytes) => SqlData::Text(bytes@),
            SqlValue::Blob(bytes) => SqlData::Blob(bytes@),
        }
    }
}

/// A row of values.
pub open spec fn row_data(row: Vec<SqlValue>) -> Seq<SqlData> {
    row@.map_values(|value: SqlValue| value@)
}

/// Rows of values.
pub open spec fn rows_data(rows: Seq<Vec<SqlValue>>) -> Seq<Seq<SqlData>> {
    rows.map_values(|row: Vec<SqlValue>| row_data(row))
}

/// Eight bytes, the most significant first.
#[verifier::opaque]
pub open spec fn big_endian(value: nat) -> Seq<u8> {
    seq![
        (value / 0x100_0000_0000_0000) as u8,
        (value / 0x1_0000_0000_0000 % 256) as u8,
        (value / 0x100_0000_0000 % 256) as u8,
        (value / 0x1_0000_0000 % 256) as u8,
        (value / 0x100_0000 % 256) as u8,
        (value / 0x1_0000 % 256) as u8,
        (value / 0x100 % 256) as u8,
        (value % 256) as u8,
    ]
}

/// The two's complement of a signed number, as an unsigned one.
pub open spec fn twos_complement(value: i64) -> nat {
    if value >= 0 {
        value as nat
    } else {
        (value + 0x1_0000_0000_0000_0000) as nat
    }
}

/// The bytes by which a value enters the digest: a tag, and what the tag calls
/// for. Texts and blobs are preceded by their lengths.
pub open spec fn value_bytes(value: SqlData) -> Seq<u8> {
    match value {
        SqlData::Null => seq![0u8],
        SqlData::Integer(number) => seq![1u8] + big_endian(twos_complement(number)),
        SqlData::Real(bits) => seq![2u8] + big_endian(bits as nat),
        SqlData::Text(bytes) => seq![3u8] + big_endian(bytes.len()) + bytes,
        SqlData::Blob(bytes) => seq![4u8] + big_endian(bytes.len()) + bytes,
    }
}

/// The bytes of a row, value after value.
pub open spec fn row_bytes(row: Seq<SqlData>) -> Seq<u8>
    decreases row.len(),
{
    if row.len() == 0 {
        Seq::empty()
    } else {
        row_bytes(row.drop_last()) + value_bytes(row.last())
    }
}

/// The bytes of rows, row after row.
pub open spec fn rows_bytes(rows: Seq<Seq<SqlData>>) -> Seq<u8>
    decreases rows.len(),
{
    if rows.len() == 0 {
        Seq::empty()
    } else {
        rows_bytes(rows.drop_last()) + row_bytes(rows.last())
    }
}

fn push_big_endian(out: &mut Vec<u8>, value: u64)
    ensures
        final(out)@ == old(out)@ + big_endian(value as nat),
{
    out.push((value / 0x100_0000_0000_0000) as u8);
    out.push((value / 0x1_0000_0000_0000 % 256) as u8);
    out.push((value / 0x100_0000_0000 % 256) as u8);
    out.push((value / 0x1_0000_0000 % 256) as u8);
    out.push((value / 0x100_0000 % 256) as u8);
    out.push((value / 0x1_0000 % 256) as u8);
    out.push((value / 0x100 % 256) as u8);
    out.push((value % 256) as u8);
    proof {
        reveal(big_endian);
    }
    assert(out@ =~= old(out)@ + big_endian(value as nat));
}

fn push_all(out: &mut Vec<u8>, bytes: &Vec<u8>)
    ensures
        final(out)@ == old(out)@ + bytes@,
{
    let ghost before = out@;
    for i in 0..bytes.len()
        invariant
            out@ == before + bytes@.take(i as int),
    {
        out.push(bytes[i]);
        assert(out@ =~= before + bytes@.take(i + 1));
    }
    assert(bytes@.take(bytes@.len() as int) =~= bytes@);
}

fn unsigned(value: i64) -> (out: u64)
    ensures
        out == twos_complement(value),
{
    if value >= 0 {
        value as u64
    } else {
        (value + i64::MAX + 1) as u64 + 0x8000_0000_0000_0000
    }
}

fn push_value(out: &mut Vec<u8>, value: &SqlValue)
    ensures
        final(out)@ == old(out)@ + value_bytes(value@),
{
    let ghost before = out@;
    match value {
        SqlValue::Null => {
            out.push(0);
        },
        SqlValue::Integer(number) => {
            out.push(1);
            push_big_endian(out, unsigned(*number));
        },
        SqlValue::Real(bits) => {
            out.push(2);
            push_big_endian(out, *bits);
        },
        SqlValue::Text(bytes) => {
            out.push(3);
            push_big_endian(out, bytes.len() as u64);
            push_all(out, bytes);
        },
        SqlValue::Blob(bytes) => {
            out.push(4);
            push_big_endian(out, bytes.len() as u64);
            push_all(out, bytes);
        },
    }
    assert(out@ =~= before + value_bytes(value@));
}

fn push_row(out: &mut Vec<u8>, row: &Vec<SqlValue>)
    ensures
        final(out)@ == old(out)@ + row_bytes(row_data(*row)),
{
    let ghost before = out@;
    let ghost data = row_data(*row);
    assert(data.take(0) =~= Seq::<SqlData>::empty());
    assert(before =~= before + row_bytes(data.take(0)));
    for i in 0..row.len()
        invariant
            data == row_data(*row),
            out@ == before + row_bytes(data.take(i as int)),
    {
        push_value(out, &row[i]);
        assert(data.take(i + 1).drop_last() =~= data.take(i as int));
        assert(data.take(i + 1).last() == row@[i as int]@);
        assert(out@ =~= before + row_bytes(data.take(i + 1)));
    }
    assert(data.take(data.len() as int) =~= data);
}

/// The number of rows of a query and the digest of all that they hold.
pub fn migration_query_digest(rows: &Vec<Vec<SqlValue>>) -> (result: (u64, String))
    ensures
        result.0 == rows@.len(),
        result.1@ == digest_text(rows_bytes(rows_data(rows@))),
        result.1@.len() == 64,
{
    let mut bytes: Vec<u8> = Vec::new();
    let ghost data = rows_data(rows@);
    assert(data.take(0) =~= Seq::<Seq<SqlData>>::empty());
    assert(bytes@ =~= rows_bytes(data.take(0)));
    for i in 0..rows.len()
        invariant
            data == rows_data(rows@),
            bytes@ == rows_bytes(data.take(i as int)),
    {
        push_row(&mut bytes, &rows[i]);
        assert(data.take(i + 1).drop_last() =~= data.take(i as int));
        assert(data.take(i + 1).last() == row_data(rows@[i as int]));
    }
    assert(data.take(data.len() as int) =~= data);
    (rows.len() as u64, sha256_hex(bytes.as_slice()))
}

/// The length of a value fits the eight bytes that precede it.
pub open spec fn has_length(value: SqlData) -> bool {
    match value {
        SqlData::Text(bytes) => bytes.len() <= u64::MAX,
        SqlData::Blob(bytes) => bytes.len() <= u64::MAX,
        _ => true,
    }
}

proof fn lemma_big_endian_injective(left: nat, right: nat)
    requires
        left <= u64::MAX,
        right <= u64::MAX,
        big_endian(left) == big_endian(right),
    ensures
        left == right,
{
    reveal(big_endian);
    let a = big_endian(left);
    let b = big_endian(right);
    assert(a[0] == b[0] && a[1] == b[1] && a[2] == b[2] && a[3] == b[3] && a[4] == b[4] && a[5]
        == b[5] && a[6] == b[6] && a[7] == b[7]);
    lemma_big_endian_sum(left);
    lemma_big_endian_sum(right);
}

proof fn lemma_big_endian_sum(value: nat)
    requires
        value <= u64::MAX,
    ensures
        value == big_endian(value)[0] * 0x100_0000_0000_0000 + big_endian(value)[1]
            * 0x1_0000_0000_0000 + big_endian(value)[2] * 0x100_0000_0000 + big_endian(value)[3]
            * 0x1_0000_0000 + big_endian(value)[4] * 0x100_0000 + big_endian(value)[5] * 0x1_0000
            + big_endian(value)[6] * 0x100 + big_endian(value)[7],
{
    reveal(big_endian);
    lemma_next_byte(value as int, 0x1_0000_0000_0000);
    lemma_next_byte(value as int, 0x100_0000_0000);
    lemma_next_byte(value as int, 0x1_0000_0000);
    lemma_next_byte(value as int, 0x100_0000);
    lemma_next_byte(value as int, 0x1_0000);
    lemma_next_byte(value as int, 0x100);
    lemma_next_byte(value as int, 1);
    let a = value / 0x100_0000_0000_0000;
    let b = value / 0x1_0000_0000_0000;
    let c = value / 0x100_0000_0000;
    let d = value / 0x1_0000_0000;
    let e = value / 0x100_0000;
    let f = value / 0x1_0000;
    let g = value / 0x100;
    assert(a < 256);
    assert(b == a * 256 + b % 256);
    assert(c == b * 256 + c % 256);
    assert(d == c * 256 + d % 256);
    assert(e == d * 256 + e % 256);
    assert(f == e * 256 + f % 256);
    assert(g == f * 256 + g % 256);
    assert(value == g * 256 + value % 256);
}

proof fn lemma_next_byte(value: int, unit: int)
    requires
        value >= 0,
        unit > 0,
    ensures
        value / unit == (value / (unit * 256)) * 256 + (value / unit) % 256,
{
    vstd::arithmetic::div_mod::lemma_div_denominator(value, unit, 256);
    vstd::arithmetic::div_mod::lemma_fundamental_div_mod(value / unit, 256);
}

proof fn lemma_big_endian_length(value: nat)
    ensures
        big_endian(value).len() == 8,
{
    reveal(big_endian);
}

/// A tagged number is told apart from what follows it.
proof fn lemma_number_prefix_free(
    tag: u8,
    left: nat,
    right: nat,
    left_rest: Seq<u8>,
    right_rest: Seq<u8>,
)
    requires
        left <= u64::MAX,
        right <= u64::MAX,
        seq![tag] + big_endian(left) + left_rest == seq![tag] + big_endian(right) + right_rest,
    ensures
        left == right,
        left_rest == right_rest,
{
    lemma_big_endian_length(left);
    lemma_big_endian_length(right);
    let a = seq![tag] + big_endian(left) + left_rest;
    let b = seq![tag] + big_endian(right) + right_rest;
    assert(a.subrange(1, 9) =~= big_endian(left));
    assert(b.subrange(1, 9) =~= big_endian(right));
    lemma_big_endian_injective(left, right);
    assert(a.skip(9) =~= left_rest);
    assert(b.skip(9) =~= right_rest);
}

/// Tagged bytes with their length are told apart from what follows them.
proof fn lemma_framed_prefix_free(
    tag: u8,
    left: Seq<u8>,
    right: Seq<u8>,
    left_rest: Seq<u8>,
    right_rest: Seq<u8>,
)
    requires
        left.len() <= u64::MAX,
        right.len() <= u64::MAX,
        seq![tag] + big_endian(left.len()) + left + left_rest == seq![tag] + big_endian(
            right.len(),
        ) + right + right_rest,
    ensures
        left == right,
        left_rest == right_rest,
{
    assert(seq![tag] + big_endian(left.len()) + (left + left_rest) =~= seq![tag] + big_endian(
        left.len(),
    ) + left + left_rest);
    assert(seq![tag] + big_endian(right.len()) + (right + right_rest) =~= seq![tag] + big_endian(
        right.len(),
    ) + right + right_rest);
    lemma_number_prefix_free(
        tag,
        left.len(),
        right.len(),
        left + left_rest,
        right + right_rest,
    );
    let a = left + left_rest;
    let b = right + right_rest;
    assert(a.take(left.len() as int) =~= left);
    assert(b.take(left.len() as int) =~= right);
    assert(a.skip(left.len() as int) =~= left_rest);
    assert(b.skip(left.len() as int) =~= right_rest);
}

/// The first byte of a value tells what kind of value it is.
spec fn tag_of(value: SqlData) -> u8 {
    match value {
        SqlData::Null => 0,
        SqlData::Integer(_) => 1,
        SqlData::Real(_) => 2,
        SqlData::Text(_) => 3,
        SqlData::Blob(_) => 4,
    }
}

proof fn lemma_tag(value: SqlData, rest: Seq<u8>)
    ensures
        (value_bytes(value) + rest).len() > 0,
        (value_bytes(value) + rest)[0] == tag_of(value),
{
}

/// What follows a value can be told from the value.
proof fn lemma_value_bytes_prefix_free(
    left: SqlData,
    right: SqlData,
    left_rest: Seq<u8>,
    right_rest: Seq<u8>,
)
    requires
        has_length(left),
        has_length(right),
        value_bytes(left) + left_rest == value_bytes(right) + right_rest,
    ensures
        left == right,
        left_rest == right_rest,
{
    lemma_tag(left, left_rest);
    lemma_tag(right, right_rest);
    match left {
        SqlData::Null => {
            assert((value_bytes(left) + left_rest).skip(1) =~= left_rest);
            assert((value_bytes(right) + right_rest).skip(1) =~= right_rest);
        },
        SqlData::Integer(x) => {
            let y = right->Integer_0;
            lemma_number_prefix_free(
                1,
                twos_complement(x),
                twos_complement(y),
                left_rest,
                right_rest,
            );
        },
        SqlData::Real(x) => {
            let y = right->Real_0;
            lemma_number_prefix_free(2, x as nat, y as nat, left_rest, right_rest);
        },
        SqlData::Text(x) => {
            lemma_framed_prefix_free(3, x, right->Text_0, left_rest, right_rest);
        },
        SqlData::Blob(x) => {
            lemma_framed_prefix_free(4, x, right->Blob_0, left_rest, right_rest);
        },
    }
}

proof fn lemma_row_bytes_first(row: Seq<SqlData>)
    requires
        row.len() > 0,
    ensures
        row_bytes(row) == value_bytes(row[0]) + row_bytes(row.drop_first()),
    decreases row.len(),
{
    if row.len() == 1 {
        assert(row.drop_last() =~= Seq::<SqlData>::empty());
        assert(row.drop_first() =~= Seq::<SqlData>::empty());
        assert(row_bytes(row) =~= value_bytes(row[0]) + row_bytes(row.drop_first()));
    } else {
        lemma_row_bytes_first(row.drop_last());
        assert(row.drop_last().drop_first() =~= row.drop_first().drop_last());
        assert(row.drop_first().last() == row.last());
        assert(row_bytes(row) =~= value_bytes(row[0]) + row_bytes(row.drop_first()));
    }
}

/// Rows of equal width are told apart, with whatever follows them, by their bytes.
proof fn lemma_row_bytes_prefix_free(
    left: Seq<SqlData>,
    right: Seq<SqlData>,
    left_rest: Seq<u8>,
    right_rest: Seq<u8>,
)
    requires
        left.len() == right.len(),
        forall|i: int| 0 <= i < left.len() ==> has_length(#[trigger] left[i]),
        forall|i: int| 0 <= i < right.len() ==> has_length(#[trigger] right[i]),
        row_bytes(left) + left_rest == row_bytes(right) + right_rest,
    ensures
        left == right,
        left_rest == right_rest,
    decreases left.len(),
{
    if left.len() == 0 {
        assert(left =~= right);
        assert(row_bytes(left) + left_rest =~= left_rest);
        assert(row_bytes(right) + right_rest =~= right_rest);
    } else {
        lemma_row_bytes_first(left);
        lemma_row_bytes_first(right);
        assert(value_bytes(left[0]) + (row_bytes(left.drop_first()) + left_rest) =~= row_bytes(left)
            + left_rest);
        assert(value_bytes(right[0]) + (row_bytes(right.drop_first()) + right_rest) =~= row_bytes(
            right,
        ) + right_rest);
        lemma_value_bytes_prefix_free(
            left[0],
            right[0],
            row_bytes(left.drop_first()) + left_rest,
            row_bytes(right.drop_first()) + right_rest,
        );
        lemma_row_bytes_prefix_free(
            left.drop_first(),
            right.drop_first(),
            left_rest,
            right_rest,
        );
        assert(left =~= seq![left[0]] + left.drop_first());
        assert(right =~= seq![right[0]] + right.drop_first());
    }
}

proof fn lemma_rows_bytes_first(rows: Seq<Seq<SqlData>>)
    requires
        rows.len() > 0,
    ensures
        rows_bytes(rows) == row_bytes(rows[0]) + rows_bytes(rows.drop_first()),
    decreases rows.len(),
{
    if rows.len() == 1 {
        assert(rows.drop_last() =~= Seq::<Seq<SqlData>>::empty());
        assert(rows.drop_first() =~= Seq::<Seq<SqlData>>::empty());
        assert(rows_bytes(rows) =~= row_bytes(rows[0]) + rows_bytes(rows.drop_first()));
    } else {
        lemma_rows_bytes_first(rows.drop_last());
        assert(rows.drop_last().drop_first() =~= rows.drop_first().drop_last());
        assert(rows.drop_first().last() == rows.last());
        assert(rows_bytes(rows) =~= row_bytes(rows[0]) + rows_bytes(rows.drop_first()));
    }
}

/// Two results of queries with the same columns and the same number of rows,
/// whose values are digested from the same bytes, hold the same values in the
/// same order: nothing but a collision of the digest can hide a difference.
pub proof fn law_digested_bytes_determine_rows(
    left: Seq<Seq<SqlData>>,
    right: Seq<Seq<SqlData>>,
    width: nat,
)
    requires
        left.len() == right.len(),
        forall|i: int| 0 <= i < left.len() ==> (#[trigger] left[i]).len() == width,
        forall|i: int| 0 <= i < right.len() ==> (#[trigger] right[i]).len() == width,
        forall|i: int, j: int|
            0 <= i < left.len() && 0 <= j < left[i].len() ==> has_length(#[trigger] left[i][j]),
        forall|i: int, j: int|
            0 <= i < right.len() && 0 <= j < right[i].len() ==> has_length(#[trigger] right[i][j]),
        rows_bytes(left) == rows_bytes(right),
    ensures
        left == right,
    decreases left.len(),
{
    if left.len() == 0 {
        assert(left =~= right);
    } else {
        lemma_rows_bytes_first(left);
        lemma_rows_bytes_first(right);
        assert forall|j: int| 0 <= j < left[0].len() implies has_length(#[trigger] left[0][j]) by {}
        assert forall|j: int| 0 <= j < right[0].len() implies has_length(
            #[trigger] right[0][j],
        ) by {}
        lemma_row_bytes_prefix_free(
            left[0],
            right[0],
            rows_bytes(left.drop_first()),
            rows_bytes(right.drop_first()),
        );
        assert forall|i: int, j: int|
            0 <= i < left.drop_first().len() && 0 <= j < left.drop_first()[i].len() implies has_length(
            #[trigger] left.drop_first()[i][j],
        ) by {
            assert(left.drop_first()[i] == left[i + 1]);
            assert(has_length(left[i + 1][j]));
        }
        assert forall|i: int, j: int|
            0 <= i < right.drop_first().len() && 0 <= j
                < right.drop_first()[i].len() implies has_length(
            #[trigger] right.drop_first()[i][j],
        ) by {
            assert(right.drop_first()[i] == right[i + 1]);
            assert(has_length(right[i + 1][j]));
        }
        law_digested_bytes_determine_rows(left.drop_first(), right.drop_first(), width);
        assert(left =~= seq![left[0]] + left.drop_first());
        assert(right =~= seq![right[0]] + right.drop_first());
    }
}

} // verus!
