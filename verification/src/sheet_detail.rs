//! Column names of a sheet. A sheet's header lists its columns in file
//! order; the schema lists the names of the fields in the order of their
//! positions within a row. A column's name is the schema name at the rank
//! of its position among all the columns' positions.

use vstd::prelude::*;
use crate::text::str_eq;

verus! {

/// The kind of data a column holds.
#[derive(PartialEq, Eq, Structural, Clone, Copy, Debug)]
pub enum ColumnKind {
    String,
    Bool,
    Int8,
    UInt8,
    Int16,
    UInt16,
    Int32,
    UInt32,
    Float32,
    Int64,
    UInt64,
    PackedBool0,
    PackedBool1,
    PackedBool2,
    PackedBool3,
    PackedBool4,
    PackedBool5,
    PackedBool6,
    PackedBool7,
}

/// A column of a sheet's header: its kind and its byte offset in a row.
#[derive(PartialEq, Eq, Structural, Clone, Copy, Debug)]
pub struct ColumnDefinition {
    pub kind: ColumnKind,
    pub offset: u16,
}

/// The bit of a packed boolean column within its byte (zero for the other
/// kinds).
pub open spec fn packed_bit(kind: ColumnKind) -> u32 {
    match kind {
        ColumnKind::PackedBool1 => 1,
        ColumnKind::PackedBool2 => 2,
        ColumnKind::PackedBool3 => 3,
        ColumnKind::PackedBool4 => 4,
        ColumnKind::PackedBool5 => 5,
        ColumnKind::PackedBool6 => 6,
        ColumnKind::PackedBool7 => 7,
        _ => 0,
    }
}

/// The position of a column in a row, in bits: eight per byte of offset,
/// plus the bit of a packed boolean.
pub open spec fn shift_offset(c: ColumnDefinition) -> u32 {
    (c.offset * 8 + packed_bit(c.kind)) as u32
}

/// The position of a column in a row, in bits.
pub fn get_shift_offset(x: &ColumnDefinition) -> (r: u32)
    ensures
        r == shift_offset(*x),
{
    let shift: u32 = match x.kind {
        ColumnKind::PackedBool1 => 1,
        ColumnKind::PackedBool2 => 2,
        ColumnKind::PackedBool3 => 3,
        ColumnKind::PackedBool4 => 4,
        ColumnKind::PackedBool5 => 5,
        ColumnKind::PackedBool6 => 6,
        ColumnKind::PackedBool7 => 7,
        _ => 0,
    };
    let offset: u32 = x.offset as u32;
    assert(offset << 3 == offset * 8) by (bit_vector)
        requires
            offset <= 0xffff,
    ;
    (offset << 3) + shift
}

/// How many of `cols` lie at a position before `pos`: the index of `pos`
/// in the sorted list of positions (the first such index where positions
/// repeat).
pub open spec fn rank_below(cols: Seq<ColumnDefinition>, pos: u32) -> nat
    decreases cols.len(),
{
    if cols.len() == 0 {
        0
    } else {
        rank_below(cols.drop_last(), pos) + if shift_offset(cols.last()) < pos {
            1nat
        } else {
            0nat
        }
    }
}

/// The columns of a sheet, each with its name, in file order.
pub struct SheetDetail {
    pub col_def_list: Vec<(String, ColumnDefinition)>,
}

impl View for SheetDetail {
    type V = Seq<(Seq<char>, ColumnDefinition)>;

    open spec fn view(&self) -> Seq<(Seq<char>, ColumnDefinition)> {
        self.col_def_list@.map_values(|p: (String, ColumnDefinition)| (p.0@, p.1))
    }
}

/// Every column's rank names a field of the schema after its first (the
/// row number), so no column goes without a name.
pub open spec fn schema_covers(cols: Seq<ColumnDefinition>, schema_len: nat) -> bool {
    forall|i: int|
        0 <= i < cols.len() ==> rank_below(cols, shift_offset(#[trigger] cols[i])) + 1 < schema_len
}

/// The columns named: column `i` gets the schema name at one past its rank
/// (the schema's first name is the row number, which has no column).
pub open spec fn named_columns(cols: Seq<ColumnDefinition>, schema: Seq<Seq<char>>) -> Seq<(Seq<char>, ColumnDefinition)> {
    Seq::new(cols.len(), |i: int| (schema[rank_below(cols, shift_offset(cols[i])) + 1int], cols[i]))
}

/// The rank of `pos` among the positions of `cols`.
fn rank_of(cols: &Vec<ColumnDefinition>, pos: u32) -> (r: usize)
    ensures
        r == rank_below(cols@, pos),
        r <= cols@.len(),
{
    let mut count: usize = 0;
    let mut j: usize = 0;
    while j < cols.len()
        invariant
            j <= cols@.len(),
            count == rank_below(cols@.take(j as int), pos),
            count <= j,
        decreases cols@.len() - j,
    {
        proof {
            assert(cols@.take(j + 1).drop_last() =~= cols@.take(j as int));
        }
        if get_shift_offset(&cols[j]) < pos {
            count = count + 1;
        }
        j = j + 1;
    }
    assert(cols@.take(j as int) =~= cols@);
    count
}

/// Whether the schema's field names cover every column of a sheet, as
/// `get_sheet_detail` needs.
pub fn schema_covers_columns(columns: &Vec<ColumnDefinition>, field_names: &Vec<String>) -> (r: bool)
    ensures
        r == schema_covers(columns@, field_names@.len()),
{
    let count = field_names.len();
    let mut i: usize = 0;
    while i < columns.len()
        invariant
            count == field_names@.len(),
            i <= columns@.len(),
            forall|k: int|
                0 <= k < i ==> rank_below(columns@, shift_offset(#[trigger] columns@[k])) + 1 < count,
        decreases columns@.len() - i,
    {
        let rank = rank_of(columns, get_shift_offset(&columns[i]));
        if count == 0 || rank >= count - 1 {
            return false;
        }
        i = i + 1;
    }
    true
}

/// Names the columns of a sheet from the schema's field names (the first
/// of which is the row number).
pub fn get_sheet_detail(columns: &Vec<ColumnDefinition>, field_names: &Vec<String>) -> (r: SheetDetail)
    requires
        schema_covers(columns@, field_names@.len()),
    ensures
        r@ == named_columns(columns@, field_names@.map_values(|s: String| s@)),
{
    let mut list: Vec<(String, ColumnDefinition)> = Vec::new();
    let mut i: usize = 0;
    while i < columns.len()
        invariant
            schema_covers(columns@, field_names@.len()),
            i <= columns@.len(),
            list@.len() == i,
            forall|k: int|
                0 <= k < i ==> (#[trigger] list@[k]).0@ == field_names@[rank_below(
                    columns@,
                    shift_offset(columns@[k]),
                ) + 1int]@ && list@[k].1 == columns@[k],
        decreases columns@.len() - i,
    {
        let column = columns[i];
        let rank = rank_of(columns, get_shift_offset(&column));
        assert(columns@[i as int] == column);
        let count = field_names.len();
        assert(rank + 1 < count);
        let name = field_names[rank + 1].clone();
        list.push((name, column));
        i = i + 1;
    }
    let r = SheetDetail { col_def_list: list };
    assert(r@ =~= named_columns(columns@, field_names@.map_values(|s: String| s@)));
    r
}

/// The first column of `cols` with the name `name`, if any.
pub open spec fn column_named(cols: Seq<(Seq<char>, ColumnDefinition)>, name: Seq<char>) -> Option<ColumnDefinition>
    decreases cols.len(),
{
    if cols.len() == 0 {
        None
    } else if cols[0].0 == name {
        Some(cols[0].1)
    } else {
        column_named(cols.drop_first(), name)
    }
}

/// The position of the first column of `cols` with the name `name`, if any.
pub open spec fn position_named(cols: Seq<(Seq<char>, ColumnDefinition)>, name: Seq<char>) -> Option<int>
    decreases cols.len(),
{
    if cols.len() == 0 {
        None
    } else if cols[0].0 == name {
        Some(0)
    } else {
        match position_named(cols.drop_first(), name) {
            Some(i) => Some(i + 1),
            None => None,
        }
    }
}

impl SheetDetail {
    /// The position, in file order, of the first column named `name`.
    pub fn column_position(&self, name: &str) -> (r: Option<usize>)
        ensures
            match r {
                Some(i) => position_named(self@, name@) == Some(i as int),
                None => position_named(self@, name@) is None,
            },
    {
        let ghost cols = self@;
        assert(cols.skip(0) =~= cols);
        let mut i: usize = 0;
        while i < self.col_def_list.len()
            invariant
                cols == self@,
                i <= cols.len(),
                match position_named(cols, name@) {
                    Some(p) => match position_named(cols.skip(i as int), name@) {
                        Some(q) => p == q + i,
                        None => false,
                    },
                    None => position_named(cols.skip(i as int), name@) is None,
                },
            decreases cols.len() - i,
        {
            assert(cols.skip(i as int).drop_first() =~= cols.skip(i + 1));
            assert(cols.skip(i as int)[0] == cols[i as int]);
            if str_eq(self.col_def_list[i].0.as_str(), name) {
                return Some(i);
            }
            i = i + 1;
        }
        None
    }

    /// The definition of the first column named `name`.
    pub fn column_definition(&self, name: &str) -> (r: Option<ColumnDefinition>)
        ensures
            r == column_named(self@, name@),
    {
        let ghost cols = self@;
        assert(cols.skip(0) =~= cols);
        let mut i: usize = 0;
        while i < self.col_def_list.len()
            invariant
                cols == self@,
                i <= cols.len(),
                column_named(cols, name@) == column_named(cols.skip(i as int), name@),
            decreases cols.len() - i,
        {
            assert(cols.skip(i as int).drop_first() =~= cols.skip(i + 1));
            assert(cols.skip(i as int)[0] == cols[i as int]);
            if str_eq(self.col_def_list[i].0.as_str(), name) {
                return Some(self.col_def_list[i].1);
            }
            i = i + 1;
        }
        None
    }

    /// The name of the column at `index` in file order.
    pub fn column_name(&self, index: u32) -> (r: Option<String>)
        ensures
            match r {
                Some(s) => index < self@.len() && s@ == self@[index as int].0,
                None => index >= self@.len(),
            },
    {
        let i = index as usize;
        if i < self.col_def_list.len() {
            Some(self.col_def_list[i].0.clone())
        } else {
            None
        }
    }
}

} // verus!
