//! Forward-only, column-indexed cursors over one row of a fetched result.
use crate::codec::{bytes_view, FromSql};
use crate::result::DeserializeError;
use vstd::prelude::*;

verus! {

/// The cells of a fetched result, with each column's type OID and name.
pub struct PgResult {
    rows: Vec<Vec<Option<Vec<u8>>>>,
    column_types: Vec<u32>,
    column_names: Vec<String>,
}

pub open spec fn cells_view(rows: Seq<Vec<Option<Vec<u8>>>>) -> Seq<Seq<Option<Seq<u8>>>> {
    rows.map_values(
        |r: Vec<Option<Vec<u8>>>|
            r@.map_values(
                |c: Option<Vec<u8>>|
                    match c {
                        Some(b) => Some(b@),
                        None => None,
                    },
            ),
    )
}

impl PgResult {
    pub closed spec fn cells(&self) -> Seq<Seq<Option<Seq<u8>>>> {
        cells_view(self.rows@)
    }

    pub closed spec fn types(&self) -> Seq<u32> {
        self.column_types@
    }

    pub closed spec fn names(&self) -> Seq<Seq<char>> {
        self.column_names@.map_values(|s: String| s@)
    }

    /// The value at (`row`, `col`): `None` for SQL NULL or a cell outside
    /// the result.
    pub open spec fn cell(&self, row: int, col: int) -> Option<Seq<u8>> {
        if 0 <= row < self.cells().len() && 0 <= col < self.cells()[row].len() {
            self.cells()[row][col]
        } else {
            None
        }
    }

    pub fn new(
        rows: Vec<Vec<Option<Vec<u8>>>>,
        column_types: Vec<u32>,
        column_names: Vec<String>,
    ) -> (r: Self)
        ensures
            r.cells() == cells_view(rows@),
            r.types() == column_types@,
            r.names() == column_names@.map_values(|s: String| s@),
    {
        PgResult { rows, column_types, column_names }
    }

    pub fn num_rows(&self) -> (r: usize)
        ensures
            r == self.cells().len(),
    {
        self.rows.len()
    }

    pub fn get(&self, row: usize, col: usize) -> (r: Option<&[u8]>)
        ensures
            match self.cell(row as int, col as int) {
                Some(b) => r matches Some(s) && s@ == b,
                None => r is None,
            },
    {
        if row < self.rows.len() && col < self.rows[row].len() {
            let ghost cells = self.cells();
            assert(cells[row as int] == self.rows@[row as int]@.map_values(
                |c: Option<Vec<u8>>|
                    match c {
                        Some(b) => Some(b@),
                        None => None,
                    },
            ));
            match &self.rows[row][col] {
                Some(b) => Some(b.as_slice()),
                None => None,
            }
        } else {
            None
        }
    }

    pub fn is_null(&self, row: usize, col: usize) -> (r: bool)
        ensures
            r == (self.cell(row as int, col as int) is None),
    {
        self.get(row, col).is_none()
    }

    /// The type OID of column `col` (0 when there is no such column).
    pub fn column_type(&self, col: usize) -> (r: u32)
        ensures
            col < self.types().len() ==> r == self.types()[col as int],
            col >= self.types().len() ==> r == 0,
    {
        if col < self.column_types.len() {
            self.column_types[col]
        } else {
            0
        }
    }

    /// The first column named `name`.
    pub fn index_of_column(&self, name: &str) -> (r: Option<usize>)
        ensures
            match r {
                Some(i) => i < self.names().len() && self.names()[i as int] == name@ && forall|
                    j: int,
                | 0 <= j < i ==> self.names()[j] != name@,
                None => forall|j: int| 0 <= j < self.names().len() ==> self.names()[j] != name@,
            },
    {
        let wanted = name.to_owned();
        let mut i: usize = 0;
        while i < self.column_names.len()
            invariant
                i <= self.column_names@.len(),
                wanted@ == name@,
                forall|j: int| 0 <= j < i ==> self.names()[j] != name@,
            decreases self.column_names@.len() - i,
        {
            assert(self.names()[i as int] == self.column_names@[i as int]@);
            if self.column_names[i] == wanted {
                return Some(i);
            }
            i = i + 1;
        }
        None
    }
}

/// One column value with its type OID.
pub struct PgValue<'a> {
    pub bytes: &'a [u8],
    pub type_oid: u32,
}

/// The positional cursor over one row: taking a column advances it.
pub trait Row {
    /// Columns taken so far.
    spec fn taken(&self) -> nat;

    /// Whether each of the next `count` columns is SQL NULL, without taking
    /// them.
    fn next_is_null(&self, count: usize) -> bool
        requires
            self.taken() + count <= usize::MAX,
    ;
}

/// A cursor over row `row_idx` of a result.
pub struct PgRow<'a> {
    db_result: &'a PgResult,
    row_idx: usize,
    col_idx: usize,
}

impl<'a> PgRow<'a> {
    pub closed spec fn result(&self) -> &'a PgResult {
        self.db_result
    }

    pub closed spec fn row(&self) -> nat {
        self.row_idx as nat
    }

    pub closed spec fn col(&self) -> nat {
        self.col_idx as nat
    }

    pub fn new(db_result: &'a PgResult, row_idx: usize) -> (r: Self)
        ensures
            r.result() == db_result,
            r.row() == row_idx,
            r.col() == 0,
    {
        PgRow { db_result, row_idx, col_idx: 0 }
    }

    /// The next column's value (`None` for NULL), with its type; advances.
    pub fn take(&mut self) -> (r: Option<PgValue<'a>>)
        requires
            old(self).col() < usize::MAX,
        ensures
            final(self).result() == old(self).result(),
            final(self).row() == old(self).row(),
            final(self).col() == old(self).col() + 1,
            match old(self).result().cell(old(self).row() as int, old(self).col() as int) {
                Some(b) => r matches Some(v) && v.bytes@ == b && (old(self).col() < old(
                    self,
                ).result().types().len() ==> v.type_oid == old(self).result().types()[old(
                    self,
                ).col() as int]),
                None => r is None,
            },
    {
        let current_idx = self.col_idx;
        self.col_idx = self.col_idx + 1;
        match self.db_result.get(self.row_idx, current_idx) {
            Some(raw) => Some(PgValue { bytes: raw, type_oid: self.db_result.column_type(current_idx) }),
            None => None,
        }
    }
}

impl<'a> Row for PgRow<'a> {
    closed spec fn taken(&self) -> nat {
        self.col_idx as nat
    }

    fn next_is_null(&self, count: usize) -> (r: bool)
        ensures
            r == forall|i: int|
                0 <= i < count ==> #[trigger] self.result().cell(self.row() as int, self.col() + i)
                    is None,
    {
        let mut i: usize = 0;
        while i < count
            invariant
                i <= count,
                self.col() + count <= usize::MAX,
                forall|j: int|
                    0 <= j < i ==> #[trigger] self.result().cell(self.row() as int, self.col() + j)
                        is None,
            decreases count - i,
        {
            if !self.db_result.is_null(self.row_idx, self.col_idx + i) {
                return false;
            }
            i = i + 1;
        }
        true
    }
}

/// A row whose columns are read by index or by name.
pub struct PgNamedRow<'a> {
    cursor: &'a PgResult,
    idx: usize,
}

impl<'a> PgNamedRow<'a> {
    pub closed spec fn result(&self) -> &'a PgResult {
        self.cursor
    }

    pub closed spec fn row(&self) -> nat {
        self.idx as nat
    }

    pub fn new(cursor: &'a PgResult, idx: usize) -> (r: Self)
        ensures
            r.result() == cursor,
            r.row() == idx,
    {
        PgNamedRow { cursor, idx }
    }

    /// The value of column `index` (`None` for NULL), with its type.
    pub fn get_raw_value(&self, index: usize) -> (r: Option<PgValue<'a>>)
        ensures
            match self.result().cell(self.row() as int, index as int) {
                Some(b) => r matches Some(v) && v.bytes@ == b && (index < self.result().types().len()
                    ==> v.type_oid == self.result().types()[index as int]),
                None => r is None,
            },
    {
        match self.cursor.get(self.idx, index) {
            Some(raw) => Some(PgValue { bytes: raw, type_oid: self.cursor.column_type(index) }),
            None => None,
        }
    }

    /// The index of the first column named `column_name`.
    pub fn index_of(&self, column_name: &str) -> (r: Option<usize>)
        ensures
            match r {
                Some(i) => i < self.result().names().len() && self.result().names()[i as int]
                    == column_name@ && forall|j: int|
                    0 <= j < i ==> self.result().names()[j] != column_name@,
                None => forall|j: int|
                    0 <= j < self.result().names().len() ==> self.result().names()[j]
                        != column_name@,
            },
    {
        self.cursor.index_of_column(column_name)
    }
}

/// A cursor over the raw bytes of one row.
pub struct DbRow<'a> {
    db_result: &'a PgResult,
    row_idx: usize,
    col_idx: usize,
}

impl<'a> DbRow<'a> {
    pub closed spec fn result(&self) -> &'a PgResult {
        self.db_result
    }

    pub closed spec fn row(&self) -> nat {
        self.row_idx as nat
    }

    pub closed spec fn col(&self) -> nat {
        self.col_idx as nat
    }

    pub fn new(db_result: &'a PgResult, row_idx: usize) -> (r: Self)
        ensures
            r.result() == db_result,
            r.row() == row_idx,
            r.col() == 0,
    {
        DbRow { db_result, row_idx, col_idx: 0 }
    }

    /// The next column's bytes (`None` for NULL); advances.
    pub fn take(&mut self) -> (r: Option<&'a [u8]>)
        requires
            old(self).col() < usize::MAX,
        ensures
            final(self).result() == old(self).result(),
            final(self).row() == old(self).row(),
            final(self).col() == old(self).col() + 1,
            match old(self).result().cell(old(self).row() as int, old(self).col() as int) {
                Some(b) => r matches Some(v) && v@ == b,
                None => r is None,
            },
    {
        let current_idx = self.col_idx;
        self.col_idx = self.col_idx + 1;
        self.db_result.get(self.row_idx, current_idx)
    }
}

/// Decodes the next column of `row` as a `T` of SQL type `ST`, taking it.
pub fn build_from_row<ST, T: FromSql<ST>>(row: &mut DbRow) -> (r: Result<T, DeserializeError>)
    requires
        old(row).col() < usize::MAX,
    ensures
        final(row).result() == old(row).result(),
        final(row).row() == old(row).row(),
        final(row).col() == old(row).col() + 1,
        ({
            let cell = old(row).result().cell(old(row).row() as int, old(row).col() as int);
            match r {
                Ok(v) => T::decode(cell) == Ok::<
                    crate::value::ValueModel,
                    DeserializeError,
                >(v.model()),
                Err(e) => T::decode(cell) == Err::<crate::value::ValueModel, DeserializeError>(e),
            }
        }),
{
    let raw = row.take();
    proof {
        assert(bytes_view(raw) == old(row).result().cell(
            old(row).row() as int,
            old(row).col() as int,
        ));
    }
    T::from_sql(raw)
}

/// A native type built from a row value of SQL type `ST`.
pub trait Queryable<ST>: Sized {
    type Row;

    spec fn build_spec(row: Self::Row) -> Self;

    fn build(row: Self::Row) -> (r: Self)
        ensures
            r == Self::build_spec(row),
    ;
}

impl Queryable<crate::sql_types::Integer> for i32 {
    type Row = i32;

    open spec fn build_spec(row: i32) -> i32 {
        row
    }

    fn build(row: i32) -> (r: i32) {
        row
    }
}

impl Queryable<crate::sql_types::BigInt> for i64 {
    type Row = i64;

    open spec fn build_spec(row: i64) -> i64 {
        row
    }

    fn build(row: i64) -> (r: i64) {
        row
    }
}

impl Queryable<crate::sql_types::Text> for String {
    type Row = String;

    open spec fn build_spec(row: String) -> String {
        row
    }

    fn build(row: String) -> (r: String) {
        row
    }
}

impl<ST, T: Queryable<ST>> Queryable<crate::sql_types::Nullable<ST>> for Option<T> {
    type Row = Option<T::Row>;

    open spec fn build_spec(row: Option<T::Row>) -> Option<T> {
        match row {
            Some(v) => Some(T::build_spec(v)),
            None => None,
        }
    }

    fn build(row: Option<T::Row>) -> (r: Option<T>) {
        match row {
            Some(v) => Some(T::build(v)),
            None => None,
        }
    }
}

} // verus!
