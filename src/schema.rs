//! Schema inference: the Rust type of a column from its catalog type name,
//! and which foreign keys are safe to generate joins for.
use vstd::prelude::*;
use vstd::string::*;

verus! {

/// What `str::to_uppercase` makes of a text.
pub uninterp spec fn upper_of(s: Seq<char>) -> Seq<char>;

/// Relies on `str::to_uppercase`: the upper-case form of the text, which
/// depends on the text alone.
#[verifier::external_body]
fn to_uppercase(s: &str) -> (r: String)
    ensures
        r@ == upper_of(s@),
{
    s.to_uppercase()
}

/// A column as the catalog describes it.
pub struct ColumnInformation {
    pub column_name: String,
    pub udt_name: String,
    pub nullable: bool,
}

impl ColumnInformation {
    pub fn new(column_name: &str, udt_name: &str, nullable: bool) -> (r: Self)
        ensures
            r.column_name@ == column_name@,
            r.udt_name@ == udt_name@,
            r.nullable == nullable,
    {
        ColumnInformation {
            column_name: column_name.to_owned(),
            udt_name: udt_name.to_owned(),
            nullable,
        }
    }
}

/// The Rust type generated for a column: a path, and whether it is an array
/// and nullable.
pub struct ColumnType {
    pub path: Vec<String>,
    pub is_array: bool,
    pub is_nullable: bool,
}

/// `name` with its first character upper-cased.
pub open spec fn capitalized(name: Seq<char>) -> Seq<char> {
    upper_of(name.take(1)) + name.skip(1)
}

/// The base type of a catalog type name: without the leading `_` of an
/// array type and from the first `(` on.
pub open spec fn base_type(udt_name: Seq<char>) -> Seq<char> {
    let t = if udt_name.len() > 0 && udt_name[0] == '_' {
        udt_name.skip(1)
    } else {
        udt_name
    };
    t.take(first_paren(t))
}

/// The position of the first `(`, or the length.
pub open spec fn first_paren(t: Seq<char>) -> int
    decreases t.len(),
{
    if t.len() == 0 {
        0
    } else if t[0] == '(' {
        0
    } else {
        1 + first_paren(t.drop_first())
    }
}

/// `name` with its first character upper-cased; `name` is not empty.
pub fn capitalize(name: &str) -> (r: String)
    requires
        name@.len() > 0,
    ensures
        r@ == capitalized(name@),
{
    let n = name.unicode_len();
    let first = to_uppercase(name.substring_char(0, 1));
    let rest = name.substring_char(1, n);
    let r = first.concat(rest);
    assert(name@.subrange(0, 1) =~= name@.take(1));
    assert(name@.subrange(1, n as int) =~= name@.skip(1));
    r
}

fn find_paren(t: &str) -> (r: usize)
    ensures
        r == first_paren(t@),
        r <= t@.len(),
{
    let n = t.unicode_len();
    let mut i: usize = 0;
    while i < n && t.get_char(i) != '('
        invariant
            n == t@.len(),
            i <= n,
            forall|j: int| 0 <= j < i ==> t@[j] != '(',
        decreases n - i,
    {
        i = i + 1;
    }
    proof {
        lemma_first_paren(t@, i as int);
    }
    i
}

proof fn lemma_first_paren(t: Seq<char>, i: int)
    requires
        0 <= i <= t.len(),
        forall|j: int| 0 <= j < i ==> t[j] != '(',
        i == t.len() || t[i] == '(',
    ensures
        first_paren(t) == i,
    decreases t.len(),
{
    if t.len() > 0 && i > 0 {
        lemma_first_paren(t.drop_first(), i - 1);
    }
}

/// The type generated for a column: `diesel::types::<Base>` where `Base`
/// is the capitalized base type name; an array when the catalog name starts
/// with `_`. An empty base type name is refused.
pub fn determine_column_type(attr: &ColumnInformation) -> (r: Result<ColumnType, String>)
    ensures
        r is Ok <==> base_type(attr.udt_name@).len() > 0,
        r matches Ok(c) ==> c.path@.len() == 3 && c.path@[0]@ == "diesel"@ && c.path@[1]@
            == "types"@ && c.path@[2]@ == capitalized(base_type(attr.udt_name@)) && c.is_array
            == (attr.udt_name@.len() > 0 && attr.udt_name@[0] == '_') && c.is_nullable
            == attr.nullable,
{
    let full = attr.udt_name.as_str();
    let n = full.unicode_len();
    let is_array = n > 0 && full.get_char(0) == '_';
    let tpe = if is_array {
        assert(full@.subrange(1, n as int) =~= full@.skip(1));
        full.substring_char(1, n)
    } else {
        assert(full@.subrange(0, n as int) =~= full@);
        full.substring_char(0, n)
    };
    let cut = find_paren(tpe);
    let base = tpe.substring_char(0, cut);
    proof {
        assert(base@ =~= base_type(attr.udt_name@));
    }
    if base.unicode_len() == 0 {
        return Err(String::from_str("empty column type name"));
    }
    let mut path: Vec<String> = Vec::new();
    path.push(String::from_str("diesel"));
    path.push(String::from_str("types"));
    path.push(capitalize(base));
    Ok(ColumnType { path, is_array, is_nullable: attr.nullable })
}

/// A table by name and optional schema.
pub struct TableData {
    pub name: String,
    pub schema: Option<String>,
}

/// The mathematical content of a [`TableData`].
pub struct TableModel {
    pub name: Seq<char>,
    pub schema: Option<Seq<char>>,
}

impl View for TableData {
    type V = TableModel;

    open spec fn view(&self) -> TableModel {
        TableModel {
            name: self.name@,
            schema: match self.schema {
                Some(s) => Some(s@),
                None => None,
            },
        }
    }
}

impl TableData {
    pub fn new(name: &str, schema: &str) -> (r: Self)
        ensures
            r@ == (TableModel { name: name@, schema: Some(schema@) }),
    {
        TableData { name: name.to_owned(), schema: Some(schema.to_owned()) }
    }

    pub fn duplicate(&self) -> (r: Self)
        ensures
            r@ == self@,
    {
        TableData {
            name: self.name.clone(),
            schema: match &self.schema {
                Some(s) => Some(s.clone()),
                None => None,
            },
        }
    }

    pub fn same_as(&self, other: &TableData) -> (r: bool)
        ensures
            r == (self@ == other@),
    {
        if self.name != other.name {
            return false;
        }
        match (&self.schema, &other.schema) {
            (Some(a), Some(b)) => *a == *b,
            (None, None) => true,
            _ => false,
        }
    }
}

/// A foreign key from `child_table.foreign_key` to
/// `parent_table.primary_key`.
pub struct ForeignKeyConstraint {
    pub child_table: TableData,
    pub parent_table: TableData,
    pub foreign_key: String,
    pub primary_key: String,
}

pub struct ForeignKeyModel {
    pub child: TableModel,
    pub parent: TableModel,
    pub foreign_key: Seq<char>,
    pub primary_key: Seq<char>,
}

impl View for ForeignKeyConstraint {
    type V = ForeignKeyModel;

    open spec fn view(&self) -> ForeignKeyModel {
        ForeignKeyModel {
            child: self.child_table@,
            parent: self.parent_table@,
            foreign_key: self.foreign_key@,
            primary_key: self.primary_key@,
        }
    }
}

impl ForeignKeyConstraint {
    pub fn duplicate(&self) -> (r: Self)
        ensures
            r@ == self@,
    {
        ForeignKeyConstraint {
            child_table: self.child_table.duplicate(),
            parent_table: self.parent_table.duplicate(),
            foreign_key: self.foreign_key.clone(),
            primary_key: self.primary_key.clone(),
        }
    }
}

/// Two foreign keys join the same two tables, in either direction.
pub open spec fn same_tables(a: ForeignKeyModel, b: ForeignKeyModel) -> bool {
    (a.parent == b.parent && a.child == b.child) || (a.parent == b.child && a.child == b.parent)
}

/// How many of the first `n` keys join the same tables as `fk`.
pub open spec fn count_same_tables(fks: Seq<ForeignKeyModel>, fk: ForeignKeyModel, n: int) -> nat
    decreases n,
{
    if n <= 0 {
        0
    } else {
        count_same_tables(fks, fk, n - 1) + if same_tables(fks[n - 1], fk) {
            1nat
        } else {
            0nat
        }
    }
}

pub open spec fn contains_table(tables: Seq<TableModel>, t: TableModel) -> bool {
    exists|i: int| 0 <= i < tables.len() && tables[i] == t
}

/// A key is kept for code generation when it joins two different safe
/// tables, points at the whole single-column primary key of its parent, and
/// no other key joins the same two tables.
pub open spec fn keep_foreign_key(
    fks: Seq<ForeignKeyModel>,
    safe: Seq<TableModel>,
    parent_keys: Seq<Seq<Seq<char>>>,
    i: int,
) -> bool {
    let fk = fks[i];
    &&& fk.parent != fk.child
    &&& contains_table(safe, fk.parent)
    &&& contains_table(safe, fk.child)
    &&& parent_keys[i].len() == 1 && parent_keys[i][0] == fk.primary_key
    &&& count_same_tables(fks, fk, fks.len() as int) <= 1
}

/// The kept keys among the first `n`, in order.
pub open spec fn kept_foreign_keys(
    fks: Seq<ForeignKeyModel>,
    safe: Seq<TableModel>,
    parent_keys: Seq<Seq<Seq<char>>>,
    n: int,
) -> Seq<ForeignKeyModel>
    decreases n,
{
    if n <= 0 {
        seq![]
    } else {
        kept_foreign_keys(fks, safe, parent_keys, n - 1) + if keep_foreign_key(
            fks,
            safe,
            parent_keys,
            n - 1,
        ) {
            seq![fks[n - 1]]
        } else {
            seq![]
        }
    }
}

fn contains_table_exec(tables: &Vec<TableData>, t: &TableData) -> (r: bool)
    ensures
        r == contains_table(tables@.map_values(|x: TableData| x@), t@),
{
    let ghost view = tables@.map_values(|x: TableData| x@);
    let mut i: usize = 0;
    while i < tables.len()
        invariant
            i <= tables@.len(),
            view == tables@.map_values(|x: TableData| x@),
            forall|j: int| 0 <= j < i ==> view[j] != t@,
        decreases tables@.len() - i,
    {
        if tables[i].same_as(t) {
            assert(view[i as int] == t@);
            return true;
        }
        i = i + 1;
    }
    false
}

fn count_same_tables_exec(fks: &Vec<ForeignKeyConstraint>, fk: &ForeignKeyConstraint) -> (r: usize)
    ensures
        r == count_same_tables(fks@.map_values(|x: ForeignKeyConstraint| x@), fk@, fks@.len() as int),
{
    let ghost view = fks@.map_values(|x: ForeignKeyConstraint| x@);
    let mut count: usize = 0;
    let mut i: usize = 0;
    while i < fks.len()
        invariant
            i <= fks@.len(),
            view == fks@.map_values(|x: ForeignKeyConstraint| x@),
            count == count_same_tables(view, fk@, i as int),
            count <= i,
        decreases fks@.len() - i,
    {
        let other = &fks[i];
        assert(view[i as int] == other@);
        let same = (other.parent_table.same_as(&fk.parent_table) && other.child_table.same_as(
            &fk.child_table,
        )) || (other.parent_table.same_as(&fk.child_table) && other.child_table.same_as(
            &fk.parent_table,
        ));
        if same {
            count = count + 1;
        }
        i = i + 1;
    }
    count
}

/// The foreign keys it is safe to generate joins for. `parent_keys[i]` holds
/// the primary-key columns of the parent table of `foreign_keys[i]`.
pub fn remove_unsafe_foreign_keys_for_codegen(
    foreign_keys: &Vec<ForeignKeyConstraint>,
    safe_tables: &Vec<TableData>,
    parent_keys: &Vec<Vec<String>>,
) -> (r: Vec<ForeignKeyConstraint>)
    requires
        parent_keys@.len() == foreign_keys@.len(),
    ensures
        r@.map_values(|x: ForeignKeyConstraint| x@) == kept_foreign_keys(
            foreign_keys@.map_values(|x: ForeignKeyConstraint| x@),
            safe_tables@.map_values(|x: TableData| x@),
            parent_keys@.map_values(|k: Vec<String>| k@.map_values(|s: String| s@)),
            foreign_keys@.len() as int,
        ),
{
    let ghost fks = foreign_keys@.map_values(|x: ForeignKeyConstraint| x@);
    let ghost safe = safe_tables@.map_values(|x: TableData| x@);
    let ghost pks = parent_keys@.map_values(|k: Vec<String>| k@.map_values(|s: String| s@));
    let mut kept: Vec<ForeignKeyConstraint> = Vec::new();
    let mut i: usize = 0;
    while i < foreign_keys.len()
        invariant
            i <= foreign_keys@.len(),
            parent_keys@.len() == foreign_keys@.len(),
            fks == foreign_keys@.map_values(|x: ForeignKeyConstraint| x@),
            safe == safe_tables@.map_values(|x: TableData| x@),
            pks == parent_keys@.map_values(|k: Vec<String>| k@.map_values(|s: String| s@)),
            kept@.map_values(|x: ForeignKeyConstraint| x@) == kept_foreign_keys(
                fks,
                safe,
                pks,
                i as int,
            ),
        decreases foreign_keys@.len() - i,
    {
        let fk = &foreign_keys[i];
        assert(fks[i as int] == fk@);
        let keys = &parent_keys[i];
        assert(pks[i as int] == keys@.map_values(|s: String| s@));
        let single_key = keys.len() == 1 && keys[0] == fk.primary_key;
        let keep = !fk.parent_table.same_as(&fk.child_table) && contains_table_exec(
            safe_tables,
            &fk.parent_table,
        ) && contains_table_exec(safe_tables, &fk.child_table) && single_key
            && count_same_tables_exec(foreign_keys, fk) <= 1;
        assert(keep == keep_foreign_key(fks, safe, pks, i as int));
        if keep {
            kept.push(fk.duplicate());
        }
        i = i + 1;
        assert(kept@.map_values(|x: ForeignKeyConstraint| x@) =~= kept_foreign_keys(
            fks,
            safe,
            pks,
            i as int,
        ));
    }
    kept
}

} // verus!
