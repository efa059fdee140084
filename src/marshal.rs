//! The result marshaller: a relational result, as the engine produced it, into
//! the wire `ResultRes`.

use vstd::prelude::*;
use vstd::string::*;
use crate::column::{ColumnMeta, label_of, type_label};
use crate::decimal::{decimal_of, is_decimal_text, lemma_decimal_round_trip, to_decimal, value_of};
use crate::wire::{Field, ResultRes, WireRow};

verus! {

/// One result tuple: a value per column, `None` for SQL NULL.
pub struct RawRow {
    pub cells: Vec<Option<Vec<u8>>>,
}

/// What the engine reports for a statement: a row set, or the counts of a
/// write.
pub enum RelationalResult {
    Read { columns: Vec<ColumnMeta>, rows: Vec<RawRow> },
    Write { affected_rows: u64, last_insert_id: u64 },
}

pub open spec fn cell_view(c: Option<Vec<u8>>) -> Option<Seq<u8>> {
    match c {
        Some(b) => Some(b@),
        None => None,
    }
}

impl RawRow {
    pub open spec fn view_cells(&self) -> Seq<Option<Seq<u8>>> {
        self.cells@.map_values(|c: Option<Vec<u8>>| cell_view(c))
    }
}

impl RelationalResult {
    /// Every row has one value per column.
    pub open spec fn has_matching_arity(&self) -> bool {
        match self {
            RelationalResult::Read { columns, rows } => forall|j: int|
                0 <= j < rows@.len() ==> (#[trigger] rows@[j]).cells@.len() == columns@.len(),
            RelationalResult::Write { .. } => true,
        }
    }
}

/// The length entry of one value: its byte count, or `-1` for NULL.
pub open spec fn length_text(c: Option<Seq<u8>>) -> Seq<char> {
    match c {
        Some(b) => decimal_of(b.len()),
        None => seq!['-', '1'],
    }
}

/// The non-NULL values of a row laid end to end.
pub open spec fn joined(cells: Seq<Option<Seq<u8>>>) -> Seq<u8>
    decreases cells.len(),
{
    if cells.len() == 0 {
        Seq::empty()
    } else {
        joined(cells.drop_last()) + match cells.last() {
            Some(b) => b,
            None => Seq::empty(),
        }
    }
}

/// The character for a 6-bit group in the standard base64 alphabet.
pub open spec fn base64_digit(v: int) -> char {
    "ABCDEFGHIJKLMNOPQRSTUVWXYZabcdefghijklmnopqrstuvwxyz0123456789+/"@[v]
}

/// The standard base64 text of a byte string, padded with `=`: each group of
/// three bytes becomes four characters.
pub open spec fn base64_of(b: Seq<u8>) -> Seq<char>
    decreases b.len(),
{
    if b.len() == 0 {
        Seq::empty()
    } else if b.len() == 1 {
        seq![base64_digit(b[0] as int / 4), base64_digit((b[0] as int % 4) * 16), '=', '=']
    } else if b.len() == 2 {
        seq![
            base64_digit(b[0] as int / 4),
            base64_digit((b[0] as int % 4) * 16 + b[1] as int / 16),
            base64_digit((b[1] as int % 16) * 4),
            '=',
        ]
    } else {
        seq![
            base64_digit(b[0] as int / 4),
            base64_digit((b[0] as int % 4) * 16 + b[1] as int / 16),
            base64_digit((b[1] as int % 16) * 4 + b[2] as int / 64),
            base64_digit(b[2] as int % 64),
        ] + base64_of(b.subrange(3, b.len() as int))
    }
}

/// Relies on base64's STANDARD engine `encode`: the padded standard base64 text
/// of the bytes.
#[verifier::external_body]
fn encode_base64(b: &Vec<u8>) -> (r: String)
    ensures
        r@ == base64_of(b@),
{
    base64::Engine::encode(&base64::engine::general_purpose::STANDARD, b)
}

pub open spec fn text_of(s: Option<String>) -> Option<Seq<char>> {
    match s {
        Some(t) => Some(t@),
        None => None,
    }
}

/// `row` is the wire form of a tuple with the given values.
pub open spec fn row_encodes(row: WireRow, cells: Seq<Option<Seq<u8>>>) -> bool {
    &&& row.lengths@.len() == cells.len()
    &&& forall|i: int| 0 <= i < cells.len() ==> (#[trigger] row.lengths@[i])@ == length_text(cells[i])
    &&& text_of(row.values) == Some(base64_of(joined(cells)))
}

/// `f` is the wire form of the column `c`.
pub open spec fn field_describes(f: Field, c: ColumnMeta) -> bool {
    &&& f.name@ == c.name@
    &&& f.field_type@ == label_of(c.type_code, c.flags).text()
    &&& text_of(f.table) == Some(c.table@)
    &&& text_of(f.database) == Some(c.schema@)
    &&& text_of(f.org_table) == Some(c.org_table@)
    &&& text_of(f.org_name) == Some(c.org_name@)
    &&& f.column_length == Some(c.column_length)
    &&& f.charset == Some(c.charset as u32)
    &&& f.flags == Some(c.flags as u32)
    &&& f.column_type is None
}

/// `out` is the wire form of the engine's result `r`.
pub open spec fn marshals_to(r: RelationalResult, out: ResultRes) -> bool {
    match r {
        RelationalResult::Read { columns, rows } => {
            &&& out.is_read()
            &&& out.fields->Some_0@.len() == columns@.len()
            &&& forall|i: int|
                0 <= i < columns@.len() ==> field_describes(
                    #[trigger] out.fields->Some_0@[i],
                    columns@[i],
                )
            &&& out.rows->Some_0@.len() == rows@.len()
            &&& forall|j: int|
                0 <= j < rows@.len() ==> row_encodes(
                    #[trigger] out.rows->Some_0@[j],
                    rows@[j].view_cells(),
                )
        },
        RelationalResult::Write { affected_rows, last_insert_id } => {
            &&& out.is_write()
            &&& out.rows_affected->Some_0@ == decimal_of(affected_rows as nat)
            &&& out.insert_id->Some_0@ == decimal_of(last_insert_id as nat)
        },
    }
}

fn null_length() -> (r: String)
    ensures
        r@ == length_text(None),
{
    proof {
        reveal_strlit("-1");
    }
    let r = String::from_str("-1");
    assert(r@ =~= seq!['-', '1']);
    r
}

/// The wire form of one tuple.
pub fn marshal_row(row: &RawRow) -> (r: WireRow)
    ensures
        row_encodes(r, row.view_cells()),
{
    let ghost cells = row.view_cells();
    let mut lengths: Vec<String> = Vec::new();
    let mut buf: Vec<u8> = Vec::new();
    let mut i: usize = 0;
    while i < row.cells.len()
        invariant
            cells == row.view_cells(),
            cells.len() == row.cells@.len(),
            i <= cells.len(),
            lengths@.len() == i,
            forall|k: int| 0 <= k < i ==> (#[trigger] lengths@[k])@ == length_text(cells[k]),
            buf@ == joined(cells.take(i as int)),
        decreases row.cells.len() - i,
    {
        let ghost before = buf@;
        assert(cells.take(i as int + 1).drop_last() =~= cells.take(i as int));
        match &row.cells[i] {
            Some(b) => {
                lengths.push(to_decimal(b.len() as u64));
                let mut j: usize = 0;
                while j < b.len()
                    invariant
                        j <= b@.len(),
                        buf@ == before + b@.take(j as int),
                    decreases b.len() - j,
                {
                    buf.push(b[j]);
                    assert(b@.take(j as int + 1) =~= b@.take(j as int).push(b@[j as int]));
                    j = j + 1;
                }
                assert(b@.take(b@.len() as int) =~= b@);
            },
            None => {
                lengths.push(null_length());
                assert(before + Seq::<u8>::empty() =~= before);
            },
        }
        i = i + 1;
    }
    assert(cells.take(cells.len() as int) =~= cells);
    WireRow { lengths, values: Some(encode_base64(&buf)) }
}

/// The wire form of one column.
pub fn marshal_field(c: &ColumnMeta) -> (f: Field)
    ensures
        field_describes(f, *c),
{
    let label = type_label(c.type_code, c.flags);
    Field {
        name: c.name.clone(),
        field_type: String::from_str(label.name()),
        table: Some(c.table.clone()),
        database: Some(c.schema.clone()),
        org_table: Some(c.org_table.clone()),
        org_name: Some(c.org_name.clone()),
        column_length: Some(c.column_length),
        charset: Some(c.charset as u32),
        flags: Some(c.flags as u32),
        column_type: None,
    }
}

/// Marshals a relational result into its wire form. Every result has one.
pub fn marshal(r: &RelationalResult) -> (out: ResultRes)
    ensures
        marshals_to(*r, out),
{
    match r {
        RelationalResult::Read { columns, rows } => {
            let mut fields: Vec<Field> = Vec::new();
            let mut i: usize = 0;
            while i < columns.len()
                invariant
                    i <= columns@.len(),
                    fields@.len() == i,
                    forall|k: int| 0 <= k < i ==> field_describes(#[trigger] fields@[k], columns@[k]),
                decreases columns.len() - i,
            {
                fields.push(marshal_field(&columns[i]));
                i = i + 1;
            }
            let mut out_rows: Vec<WireRow> = Vec::new();
            let mut j: usize = 0;
            while j < rows.len()
                invariant
                    j <= rows@.len(),
                    out_rows@.len() == j,
                    forall|k: int|
                        0 <= k < j ==> row_encodes(#[trigger] out_rows@[k], rows@[k].view_cells()),
                decreases rows.len() - j,
            {
                out_rows.push(marshal_row(&rows[j]));
                j = j + 1;
            }
            ResultRes { rows_affected: None, insert_id: None, fields: Some(fields), rows: Some(out_rows) }
        },
        RelationalResult::Write { affected_rows, last_insert_id } => {
            ResultRes {
                rows_affected: Some(to_decimal(*affected_rows)),
                insert_id: Some(to_decimal(*last_insert_id)),
                fields: None,
                rows: None,
            }
        },
    }
}

/// A read result marshals to fields and rows only, with one field per column;
/// where every tuple has one value per column, every wire row has exactly as
/// many length entries as there are fields.
pub proof fn lemma_read_arity(r: RelationalResult, out: ResultRes)
    requires
        r is Read,
        r.has_matching_arity(),
        marshals_to(r, out),
    ensures
        out.is_read(),
        out.fields->Some_0@.len() == r->Read_columns@.len(),
        out.rows->Some_0@.len() == r->Read_rows@.len(),
        forall|j: int|
            0 <= j < out.rows->Some_0@.len() ==> (#[trigger] out.rows->Some_0@[j]).lengths@.len()
                == out.fields->Some_0@.len(),
{
    let rows = r->Read_rows;
    assert forall|j: int| 0 <= j < out.rows->Some_0@.len() implies (#[trigger] out.rows->Some_0@[j]).lengths@.len()
        == out.fields->Some_0@.len() by {
        assert(row_encodes(out.rows->Some_0@[j], rows@[j].view_cells()));
        assert(rows@[j].cells@.len() == r->Read_columns@.len());
    }
}

/// A write result marshals to the affected-row count and the insert id only,
/// each a non-empty run of decimal digits that reads back as the engine's
/// number.
pub proof fn lemma_write_shape(affected_rows: u64, last_insert_id: u64, out: ResultRes)
    requires
        marshals_to(RelationalResult::Write { affected_rows, last_insert_id }, out),
    ensures
        out.is_write(),
        is_decimal_text(out.rows_affected->Some_0@),
        value_of(out.rows_affected->Some_0@) == affected_rows,
        is_decimal_text(out.insert_id->Some_0@),
        value_of(out.insert_id->Some_0@) == last_insert_id,
{
    lemma_decimal_round_trip(affected_rows as nat);
    lemma_decimal_round_trip(last_insert_id as nat);
}

} // verus!
