//! Statement builders. Each transition consumes the previous stage and
//! selection the next; only complete statements are fragments that can be run.
use crate::ast::{
    after, collected_binds, count_binds, lemma_after_concat, lemma_collected_binds_concat, lemma_count_binds_concat, render, AstEvent, AstPass,
    QueryFragment,
};
use crate::expression::{sql_event, Column, Expression};
use crate::query_builder::QueryBuilder;
use crate::expression::Bound;
use crate::sql_types::{BigInt, Bool};
use vstd::prelude::*;

verus! {

broadcast use lemma_count_binds_concat;

/// Walking the parts one after another is walking their concatenation.
pub proof fn lemma_after_parts<QB: QueryBuilder>(
    m: crate::ast::PassModel,
    a: Seq<AstEvent>,
    b: Seq<AstEvent>,
    c: Seq<AstEvent>,
    d: Seq<AstEvent>,
)
    ensures
        after::<QB>(after::<QB>(after::<QB>(after::<QB>(m, a), b), c), d) == after::<QB>(
            m,
            a + b + c + d,
        ),
{
    lemma_after_concat::<QB>(m, a, b);
    lemma_after_concat::<QB>(m, a + b, c);
    lemma_after_concat::<QB>(m, a + b + c, d);
}

/// A table, rendered as its quoted name.
pub struct Table {
    name: String,
}

impl Table {
    pub closed spec fn name_spec(&self) -> Seq<char> {
        self.name@
    }

    pub fn new(name: &str) -> (r: Self)
        ensures
            r.name_spec() == name@,
    {
        Table { name: name.to_owned() }
    }
}

impl QueryFragment for Table {
    open spec fn events(&self) -> Seq<AstEvent> {
        seq![AstEvent::Identifier(self.name_spec())]
    }

    fn walk_ast<QB: QueryBuilder>(&self, pass: &mut AstPass<QB>) {
        proof {
            crate::ast::lemma_single_event::<QB>(
                AstEvent::Identifier(self.name_spec()),
                pass.model().placeholders,
            );
        }
        pass.push_identifier(self.name.as_str());
    }
}

/// Two fragments separated by `", "`.
pub struct Comma<A, B>(pub A, pub B);

impl<A: QueryFragment, B: QueryFragment> QueryFragment for Comma<A, B> {
    open spec fn events(&self) -> Seq<AstEvent> {
        self.0.events() + sql_event(seq![',', ' ']) + self.1.events()
    }

    fn walk_ast<QB: QueryBuilder>(&self, pass: &mut AstPass<QB>) {
        let ghost m = pass.model();
        proof {
            reveal_strlit(", ");
            assert(", "@ =~= seq![',', ' ']);
            crate::expression::lemma_wrapped::<QB>(
                m,
                self.0.events(),
                sql_event(seq![',', ' ']),
                self.1.events(),
            );
        }
        self.0.walk_ast(pass);
        pass.push_sql(", ");
        self.1.walk_ast(pass);
    }
}

/// `INSERT`.
pub struct Insert;

/// `REPLACE`.
pub struct Replace;

impl QueryFragment for Insert {
    open spec fn events(&self) -> Seq<AstEvent> {
        sql_event(seq!['I', 'N', 'S', 'E', 'R', 'T'])
    }

    fn walk_ast<QB: QueryBuilder>(&self, pass: &mut AstPass<QB>) {
        proof {
            reveal_strlit("INSERT");
            assert("INSERT"@ =~= seq!['I', 'N', 'S', 'E', 'R', 'T']);
        }
        pass.push_sql("INSERT");
    }
}

impl QueryFragment for Replace {
    open spec fn events(&self) -> Seq<AstEvent> {
        sql_event(seq!['R', 'E', 'P', 'L', 'A', 'C', 'E'])
    }

    fn walk_ast<QB: QueryBuilder>(&self, pass: &mut AstPass<QB>) {
        proof {
            reveal_strlit("REPLACE");
            assert("REPLACE"@ =~= seq!['R', 'E', 'P', 'L', 'A', 'C', 'E']);
        }
        pass.push_sql("REPLACE");
    }
}

/// No RETURNING clause.
pub struct NoReturningClause;

impl QueryFragment for NoReturningClause {
    open spec fn events(&self) -> Seq<AstEvent> {
        seq![]
    }

    fn walk_ast<QB: QueryBuilder>(&self, pass: &mut AstPass<QB>) {
        ().walk_ast(pass);
    }
}

/// ` RETURNING <expr>`.
pub struct ReturningClause<Expr>(pub Expr);

pub open spec fn returning_keyword() -> Seq<char> {
    seq![' ', 'R', 'E', 'T', 'U', 'R', 'N', 'I', 'N', 'G', ' ']
}

impl<Expr: QueryFragment> QueryFragment for ReturningClause<Expr> {
    open spec fn events(&self) -> Seq<AstEvent> {
        sql_event(returning_keyword()) + self.0.events()
    }

    fn walk_ast<QB: QueryBuilder>(&self, pass: &mut AstPass<QB>) {
        let ghost m = pass.model();
        proof {
            reveal_strlit(" RETURNING ");
            assert(" RETURNING "@ =~= returning_keyword());
            lemma_after_concat::<QB>(m, sql_event(returning_keyword()), self.0.events());
        }
        pass.push_sql(" RETURNING ");
        self.0.walk_ast(pass);
    }
}

/// No WHERE clause.
pub struct NoWhereClause;

impl QueryFragment for NoWhereClause {
    open spec fn events(&self) -> Seq<AstEvent> {
        seq![]
    }

    fn walk_ast<QB: QueryBuilder>(&self, pass: &mut AstPass<QB>) {
        ().walk_ast(pass);
    }
}

pub open spec fn where_keyword() -> Seq<char> {
    seq![' ', 'W', 'H', 'E', 'R', 'E', ' ']
}

/// ` WHERE <predicate>`.
pub struct WhereClause<Expr>(pub Expr);

impl<Expr: QueryFragment> QueryFragment for WhereClause<Expr> {
    open spec fn events(&self) -> Seq<AstEvent> {
        sql_event(where_keyword()) + self.0.events()
    }

    fn walk_ast<QB: QueryBuilder>(&self, pass: &mut AstPass<QB>) {
        let ghost m = pass.model();
        proof {
            reveal_strlit(" WHERE ");
            assert(" WHERE "@ =~= where_keyword());
            lemma_after_concat::<QB>(m, sql_event(where_keyword()), self.0.events());
        }
        pass.push_sql(" WHERE ");
        self.0.walk_ast(pass);
    }
}

/// Adds a predicate to a WHERE clause: the first one starts the clause, a
/// later one is joined to it with AND.
pub trait WhereAnd<Predicate> {
    type Output;

    fn and(self, predicate: Predicate) -> Self::Output;
}

impl<Predicate: Expression<SqlType = Bool>> WhereAnd<Predicate> for NoWhereClause {
    type Output = WhereClause<Predicate>;

    fn and(self, predicate: Predicate) -> (r: WhereClause<Predicate>)
        ensures
            r == WhereClause(predicate),
    {
        WhereClause(predicate)
    }
}

impl<
    Expr: Expression<SqlType = Bool>,
    Predicate: Expression<SqlType = Bool>,
> WhereAnd<Predicate> for WhereClause<Expr> {
    type Output = WhereClause<crate::expression::And<Expr, Predicate>>;

    fn and(self, predicate: Predicate) -> (r: WhereClause<crate::expression::And<Expr, Predicate>>)
        ensures
            r.0.lhs_spec() == self.0,
            r.0.rhs_spec() == predicate,
    {
        WhereClause(crate::expression::And::new(self.0, predicate))
    }
}

pub open spec fn into_keyword() -> Seq<char> {
    seq![' ', 'I', 'N', 'T', 'O', ' ']
}

/// An INSERT (or REPLACE) waiting for its records.
pub struct IncompleteInsertStatement<T, Op> {
    target: T,
    operator: Op,
}

impl<T, Op> IncompleteInsertStatement<T, Op> {
    pub closed spec fn target_spec(&self) -> T {
        self.target
    }

    pub closed spec fn operator_spec(&self) -> Op {
        self.operator
    }

    pub fn new(target: T, operator: Op) -> (r: Self)
        ensures
            r.target_spec() == target,
            r.operator_spec() == operator,
    {
        IncompleteInsertStatement { target, operator }
    }

    /// Inserts `records` (a VALUES clause).
    pub fn values<U>(self, records: U) -> (r: InsertStatement<T, U, Op, NoReturningClause>)
        ensures
            r.target_spec() == self.target_spec(),
            r.operator_spec() == self.operator_spec(),
            r.records_spec() == records,
            r.returning_spec() == NoReturningClause,
    {
        InsertStatement {
            operator: self.operator,
            target: self.target,
            records,
            returning: NoReturningClause,
        }
    }

    /// Inserts one row of default values.
    pub fn default_values(self) -> (r: InsertStatement<T, DefaultValues, Op, NoReturningClause>)
        ensures
            r.target_spec() == self.target_spec(),
            r.operator_spec() == self.operator_spec(),
            r.records_spec() == DefaultValues,
            r.returning_spec() == NoReturningClause,
    {
        self.values(DefaultValues)
    }
}

/// Starts an INSERT into `target`.
pub fn insert_into<T>(target: T) -> (r: IncompleteInsertStatement<T, Insert>)
    ensures
        r.target_spec() == target,
        r.operator_spec() == Insert,
{
    IncompleteInsertStatement::new(target, Insert)
}

/// Starts a REPLACE into `target`.
pub fn replace_into<T>(target: T) -> (r: IncompleteInsertStatement<T, Replace>)
    ensures
        r.target_spec() == target,
        r.operator_spec() == Replace,
{
    IncompleteInsertStatement::new(target, Replace)
}

/// Records given before their table: `insert(records).into(table)`.
pub struct DeprecatedIncompleteInsertStatement<U, Op> {
    records: U,
    operator: Op,
}

impl<U, Op> DeprecatedIncompleteInsertStatement<U, Op> {
    pub closed spec fn records_spec(&self) -> U {
        self.records
    }

    pub closed spec fn operator_spec(&self) -> Op {
        self.operator
    }

    pub fn into<T>(self, target: T) -> (r: InsertStatement<T, U, Op, NoReturningClause>)
        ensures
            r.target_spec() == target,
            r.operator_spec() == self.operator_spec(),
            r.records_spec() == self.records_spec(),
            r.returning_spec() == NoReturningClause,
    {
        InsertStatement {
            operator: self.operator,
            target,
            records: self.records,
            returning: NoReturningClause,
        }
    }
}

/// Starts an INSERT of `records`, the table given later.
pub fn insert<U>(records: U) -> (r: DeprecatedIncompleteInsertStatement<U, Insert>)
    ensures
        r.records_spec() == records,
        r.operator_spec() == Insert,
{
    DeprecatedIncompleteInsertStatement { records, operator: Insert }
}

/// Starts an INSERT of one row of default values, the table given later.
pub fn insert_default_values() -> (r: DeprecatedIncompleteInsertStatement<DefaultValues, Insert>)
    ensures
        r.records_spec() == DefaultValues,
        r.operator_spec() == Insert,
{
    insert(DefaultValues)
}

pub open spec fn default_values_keyword() -> Seq<char> {
    seq![' ', 'D', 'E', 'F', 'A', 'U', 'L', 'T', ' ', 'V', 'A', 'L', 'U', 'E', 'S']
}

/// ` DEFAULT VALUES`.
pub struct DefaultValues;

impl QueryFragment for DefaultValues {
    open spec fn events(&self) -> Seq<AstEvent> {
        sql_event(default_values_keyword())
    }

    fn walk_ast<QB: QueryBuilder>(&self, pass: &mut AstPass<QB>) {
        proof {
            reveal_strlit(" DEFAULT VALUES");
            assert(" DEFAULT VALUES"@ =~= default_values_keyword());
        }
        pass.push_sql(" DEFAULT VALUES");
    }
}

pub open spec fn values_keyword() -> Seq<char> {
    seq![')', ' ', 'V', 'A', 'L', 'U', 'E', 'S', ' ', '(']
}

/// ` (<columns>) VALUES (<values>)`: one row.
pub struct ValuesClause<Cols, Vals> {
    columns: Cols,
    values: Vals,
}

impl<Cols, Vals> ValuesClause<Cols, Vals> {
    pub closed spec fn columns_spec(&self) -> Cols {
        self.columns
    }

    pub closed spec fn values_spec(&self) -> Vals {
        self.values
    }

    pub fn new(columns: Cols, values: Vals) -> (r: Self)
        ensures
            r.columns_spec() == columns,
            r.values_spec() == values,
    {
        ValuesClause { columns, values }
    }
}

impl<Cols: QueryFragment, Vals: QueryFragment> QueryFragment for ValuesClause<Cols, Vals> {
    open spec fn events(&self) -> Seq<AstEvent> {
        sql_event(seq![' ', '(']) + self.columns_spec().events() + sql_event(values_keyword())
            + self.values_spec().events() + sql_event(seq![')'])
    }

    fn walk_ast<QB: QueryBuilder>(&self, pass: &mut AstPass<QB>) {
        let ghost m = pass.model();
        proof {
            reveal_strlit(" (");
            reveal_strlit(") VALUES (");
            reveal_strlit(")");
            assert(" ("@ =~= seq![' ', '(']);
            assert(") VALUES ("@ =~= values_keyword());
            assert(")"@ =~= seq![')']);
            lemma_after_parts::<QB>(
                m,
                sql_event(seq![' ', '(']),
                self.columns.events(),
                sql_event(values_keyword()),
                self.values.events(),
            );
            lemma_after_concat::<QB>(
                m,
                sql_event(seq![' ', '(']) + self.columns.events() + sql_event(values_keyword())
                    + self.values.events(),
                sql_event(seq![')']),
            );
        }
        pass.push_sql(" (");
        self.columns.walk_ast(pass);
        pass.push_sql(") VALUES (");
        self.values.walk_ast(pass);
        pass.push_sql(")");
    }
}

/// `<op> INTO <target><records><returning>`.
pub struct InsertStatement<T, U, Op, Ret> {
    operator: Op,
    target: T,
    records: U,
    returning: Ret,
}

impl<T, U, Op, Ret> InsertStatement<T, U, Op, Ret> {
    pub closed spec fn target_spec(&self) -> T {
        self.target
    }

    pub closed spec fn operator_spec(&self) -> Op {
        self.operator
    }

    pub closed spec fn records_spec(&self) -> U {
        self.records
    }

    pub closed spec fn returning_spec(&self) -> Ret {
        self.returning
    }
}

impl<T, U, Op> InsertStatement<T, U, Op, NoReturningClause> {
    /// Adds ` RETURNING <selection>`.
    pub fn returning<E>(self, selection: E) -> (r: InsertStatement<T, U, Op, ReturningClause<E>>)
        ensures
            r.target_spec() == self.target_spec(),
            r.operator_spec() == self.operator_spec(),
            r.records_spec() == self.records_spec(),
            r.returning_spec() == ReturningClause(selection),
    {
        InsertStatement {
            operator: self.operator,
            target: self.target,
            records: self.records,
            returning: ReturningClause(selection),
        }
    }
}

impl<
    T: QueryFragment,
    U: QueryFragment,
    Op: QueryFragment,
    Ret: QueryFragment,
> QueryFragment for InsertStatement<T, U, Op, Ret> {
    open spec fn events(&self) -> Seq<AstEvent> {
        self.operator_spec().events() + sql_event(into_keyword()) + self.target_spec().events()
            + self.records_spec().events() + self.returning_spec().events()
    }

    fn walk_ast<QB: QueryBuilder>(&self, pass: &mut AstPass<QB>) {
        let ghost m = pass.model();
        proof {
            reveal_strlit(" INTO ");
            assert(" INTO "@ =~= into_keyword());
            lemma_after_parts::<QB>(
                m,
                self.operator.events(),
                sql_event(into_keyword()),
                self.target.events(),
                self.records.events(),
            );
            lemma_after_concat::<QB>(
                m,
                self.operator.events() + sql_event(into_keyword()) + self.target.events()
                    + self.records.events(),
                self.returning.events(),
            );
        }
        self.operator.walk_ast(pass);
        pass.push_sql(" INTO ");
        self.target.walk_ast(pass);
        self.records.walk_ast(pass);
        self.returning.walk_ast(pass);
    }
}

pub open spec fn on_conflict_keyword() -> Seq<char> {
    seq![' ', 'O', 'N', ' ', 'C', 'O', 'N', 'F', 'L', 'I', 'C', 'T']
}

pub open spec fn do_nothing_keyword() -> Seq<char> {
    seq![' ', 'D', 'O', ' ', 'N', 'O', 'T', 'H', 'I', 'N', 'G']
}

pub open spec fn do_update_keyword() -> Seq<char> {
    seq![' ', 'D', 'O', ' ', 'U', 'P', 'D', 'A', 'T', 'E', ' ', 'S', 'E', 'T', ' ']
}

/// No conflict target: ON CONFLICT without a column list.
pub struct NoConflictTarget;

impl QueryFragment for NoConflictTarget {
    open spec fn events(&self) -> Seq<AstEvent> {
        seq![]
    }

    fn walk_ast<QB: QueryBuilder>(&self, pass: &mut AstPass<QB>) {
        ().walk_ast(pass);
    }
}

/// ` (<columns>)`: the columns whose uniqueness is in conflict.
pub struct ConflictTarget<C>(pub C);

impl<C: QueryFragment> QueryFragment for ConflictTarget<C> {
    open spec fn events(&self) -> Seq<AstEvent> {
        sql_event(seq![' ', '(']) + self.0.events() + sql_event(seq![')'])
    }

    fn walk_ast<QB: QueryBuilder>(&self, pass: &mut AstPass<QB>) {
        let ghost m = pass.model();
        proof {
            reveal_strlit(" (");
            reveal_strlit(")");
            assert(" ("@ =~= seq![' ', '(']);
            assert(")"@ =~= seq![')']);
            crate::expression::lemma_wrapped::<QB>(
                m,
                sql_event(seq![' ', '(']),
                self.0.events(),
                sql_event(seq![')']),
            );
        }
        pass.push_sql(" (");
        self.0.walk_ast(pass);
        pass.push_sql(")");
    }
}

/// ` DO NOTHING`.
pub struct DoNothing;

impl QueryFragment for DoNothing {
    open spec fn events(&self) -> Seq<AstEvent> {
        sql_event(do_nothing_keyword())
    }

    fn walk_ast<QB: QueryBuilder>(&self, pass: &mut AstPass<QB>) {
        proof {
            reveal_strlit(" DO NOTHING");
            assert(" DO NOTHING"@ =~= do_nothing_keyword());
        }
        pass.push_sql(" DO NOTHING");
    }
}

/// ` DO UPDATE SET <changes>`.
pub struct DoUpdate<C> {
    changes: C,
}

impl<C> DoUpdate<C> {
    pub closed spec fn changes_spec(&self) -> C {
        self.changes
    }
}

impl<C: QueryFragment> QueryFragment for DoUpdate<C> {
    open spec fn events(&self) -> Seq<AstEvent> {
        sql_event(do_update_keyword()) + self.changes_spec().events()
    }

    fn walk_ast<QB: QueryBuilder>(&self, pass: &mut AstPass<QB>) {
        let ghost m = pass.model();
        proof {
            reveal_strlit(" DO UPDATE SET ");
            assert(" DO UPDATE SET "@ =~= do_update_keyword());
            lemma_after_concat::<QB>(m, sql_event(do_update_keyword()), self.changes.events());
        }
        pass.push_sql(" DO UPDATE SET ");
        self.changes.walk_ast(pass);
    }
}

/// `<values> ON CONFLICT<target><action>`.
pub struct OnConflictValues<U, Target, Action> {
    values: U,
    target: Target,
    action: Action,
}

impl<U, Target, Action> OnConflictValues<U, Target, Action> {
    pub closed spec fn values_spec(&self) -> U {
        self.values
    }

    pub closed spec fn target_spec(&self) -> Target {
        self.target
    }

    pub closed spec fn action_spec(&self) -> Action {
        self.action
    }
}

impl<
    U: QueryFragment,
    Target: QueryFragment,
    Action: QueryFragment,
> QueryFragment for OnConflictValues<U, Target, Action> {
    open spec fn events(&self) -> Seq<AstEvent> {
        self.values_spec().events() + sql_event(on_conflict_keyword()) + self.target_spec().events()
            + self.action_spec().events()
    }

    fn walk_ast<QB: QueryBuilder>(&self, pass: &mut AstPass<QB>) {
        let ghost m = pass.model();
        proof {
            reveal_strlit(" ON CONFLICT");
            assert(" ON CONFLICT"@ =~= on_conflict_keyword());
            lemma_after_parts::<QB>(
                m,
                self.values.events(),
                sql_event(on_conflict_keyword()),
                self.target.events(),
                self.action.events(),
            );
        }
        self.values.walk_ast(pass);
        pass.push_sql(" ON CONFLICT");
        self.target.walk_ast(pass);
        self.action.walk_ast(pass);
    }
}

impl<T, U, Op, Ret> InsertStatement<T, U, Op, Ret> {
    /// Adds ` ON CONFLICT DO NOTHING`, with no conflict target.
    pub fn on_conflict_do_nothing(self) -> (r: InsertStatement<
        T,
        OnConflictValues<U, NoConflictTarget, DoNothing>,
        Op,
        Ret,
    >)
        ensures
            r.target_spec() == self.target_spec(),
            r.operator_spec() == self.operator_spec(),
            r.records_spec().values_spec() == self.records_spec(),
            r.records_spec().target_spec() == NoConflictTarget,
            r.records_spec().action_spec() == DoNothing,
            r.returning_spec() == self.returning_spec(),
    {
        InsertStatement {
            operator: self.operator,
            target: self.target,
            records: OnConflictValues { values: self.records, target: NoConflictTarget, action: DoNothing },
            returning: self.returning,
        }
    }

    /// Names the conflict target; an action must follow.
    pub fn on_conflict<Target>(self, target: Target) -> (r: IncompleteOnConflict<
        InsertStatement<T, U, Op, Ret>,
        ConflictTarget<Target>,
    >)
        ensures
            r.stmt_spec() == self,
            r.target_spec() == ConflictTarget(target),
    {
        IncompleteOnConflict { stmt: self, target: ConflictTarget(target) }
    }
}

/// An insert with a conflict target and no action yet.
pub struct IncompleteOnConflict<Stmt, Target> {
    stmt: Stmt,
    target: Target,
}

impl<Stmt, Target> IncompleteOnConflict<Stmt, Target> {
    pub closed spec fn stmt_spec(&self) -> Stmt {
        self.stmt
    }

    pub closed spec fn target_spec(&self) -> Target {
        self.target
    }

    /// Chooses to update the conflicting row; the changes must follow.
    pub fn do_update(self) -> (r: IncompleteDoUpdate<Stmt, Target>)
        ensures
            r.stmt_spec() == self.stmt_spec(),
            r.target_spec() == self.target_spec(),
    {
        IncompleteDoUpdate { stmt: self.stmt, target: self.target }
    }
}

impl<T, U, Op, Ret, Target> IncompleteOnConflict<InsertStatement<T, U, Op, Ret>, Target> {
    /// ` ON CONFLICT<target> DO NOTHING`.
    pub fn do_nothing(self) -> (r: InsertStatement<
        T,
        OnConflictValues<U, Target, DoNothing>,
        Op,
        Ret,
    >)
        ensures
            r.target_spec() == self.stmt_spec().target_spec(),
            r.operator_spec() == self.stmt_spec().operator_spec(),
            r.records_spec().values_spec() == self.stmt_spec().records_spec(),
            r.records_spec().target_spec() == self.target_spec(),
            r.records_spec().action_spec() == DoNothing,
            r.returning_spec() == self.stmt_spec().returning_spec(),
    {
        let stmt = self.stmt;
        InsertStatement {
            operator: stmt.operator,
            target: stmt.target,
            records: OnConflictValues { values: stmt.records, target: self.target, action: DoNothing },
            returning: stmt.returning,
        }
    }
}

/// An insert that will update the conflicting row, waiting for the changes.
pub struct IncompleteDoUpdate<Stmt, Target> {
    stmt: Stmt,
    target: Target,
}

impl<Stmt, Target> IncompleteDoUpdate<Stmt, Target> {
    pub closed spec fn stmt_spec(&self) -> Stmt {
        self.stmt
    }

    pub closed spec fn target_spec(&self) -> Target {
        self.target
    }
}

impl<T, U, Op, Ret, Target> IncompleteDoUpdate<InsertStatement<T, U, Op, Ret>, Target> {
    /// ` ON CONFLICT<target> DO UPDATE SET <changes>`.
    pub fn set<Changes>(self, changes: Changes) -> (r: InsertStatement<
        T,
        OnConflictValues<U, Target, DoUpdate<Changes>>,
        Op,
        Ret,
    >)
        ensures
            r.target_spec() == self.stmt_spec().target_spec(),
            r.operator_spec() == self.stmt_spec().operator_spec(),
            r.records_spec().values_spec() == self.stmt_spec().records_spec(),
            r.records_spec().target_spec() == self.target_spec(),
            r.records_spec().action_spec().changes_spec() == changes,
            r.returning_spec() == self.stmt_spec().returning_spec(),
    {
        let stmt = self.stmt;
        InsertStatement {
            operator: stmt.operator,
            target: stmt.target,
            records: OnConflictValues {
                values: stmt.records,
                target: self.target,
                action: DoUpdate { changes },
            },
            returning: stmt.returning,
        }
    }
}

/// `excluded.<column>`: in DO UPDATE SET, the value of the row whose insert
/// was rejected by the conflict.
pub struct Excluded<T> {
    column: T,
}

impl<T> Excluded<T> {
    pub closed spec fn column_spec(&self) -> T {
        self.column
    }

    pub fn new(column: T) -> (r: Self)
        ensures
            r.column_spec() == column,
    {
        Excluded { column }
    }
}

/// The value of `column` in the row rejected by the conflict.
pub fn excluded<T>(column: T) -> (r: Excluded<T>)
    ensures
        r.column_spec() == column,
{
    Excluded::new(column)
}

pub open spec fn excluded_keyword() -> Seq<char> {
    seq!['e', 'x', 'c', 'l', 'u', 'd', 'e', 'd', '.']
}

impl<T: Column> QueryFragment for Excluded<T> {
    open spec fn events(&self) -> Seq<AstEvent> {
        sql_event(excluded_keyword()) + seq![AstEvent::Identifier(self.column_spec().name_spec())]
    }

    fn walk_ast<QB: QueryBuilder>(&self, pass: &mut AstPass<QB>) {
        let ghost m = pass.model();
        proof {
            reveal_strlit("excluded.");
            assert("excluded."@ =~= excluded_keyword());
            lemma_after_concat::<QB>(
                m,
                sql_event(excluded_keyword()),
                seq![AstEvent::Identifier(self.column.name_spec())],
            );
            crate::ast::lemma_single_event::<QB>(
                AstEvent::Identifier(self.column.name_spec()),
                m.placeholders,
            );
            crate::ast::lemma_single_event::<QB>(AstEvent::Sql(excluded_keyword()), m.placeholders);
        }
        pass.push_sql("excluded.");
        pass.push_identifier(self.column.name());
    }
}

impl<T: Column> Expression for Excluded<T> {
    type SqlType = T::SqlType;
}

/// An upsert with a conflict target and DO NOTHING renders as the plain
/// insert followed by ` ON CONFLICT (<target>) DO NOTHING`.
pub proof fn lemma_on_conflict_do_nothing_renders<
    QB: QueryBuilder,
    T: QueryFragment,
    U: QueryFragment,
    Op: QueryFragment,
    C: QueryFragment,
>(
    plain: InsertStatement<T, U, Op, NoReturningClause>,
    upsert: InsertStatement<T, OnConflictValues<U, ConflictTarget<C>, DoNothing>, Op, NoReturningClause>,
    start: nat,
)
    requires
        upsert.operator_spec() == plain.operator_spec(),
        upsert.target_spec() == plain.target_spec(),
        upsert.records_spec().values_spec() == plain.records_spec(),
        upsert.records_spec().action_spec() == DoNothing,
    ensures
        render::<QB>(upsert.events(), start) == render::<QB>(plain.events(), start)
            + on_conflict_keyword() + seq![' ', '('] + render::<QB>(
            upsert.records_spec().target_spec().0.events(),
            start + count_binds(plain.events()),
        ) + seq![')'] + do_nothing_keyword(),
        collected_binds(upsert.events()) == collected_binds(plain.events()) + collected_binds(
            upsert.records_spec().target_spec().0.events(),
        ),
{
    let head = plain.events();
    let c = upsert.records_spec().target_spec().0.events();
    let n = start + count_binds(head);
    let tail = sql_event(on_conflict_keyword()) + sql_event(seq![' ', '(']) + c + sql_event(
        seq![')'],
    ) + sql_event(do_nothing_keyword());
    assert(upsert.events() =~= head + tail);
    crate::ast::lemma_render_concat::<QB>(head, tail, start);
    lemma_render_parts::<QB>(
        sql_event(on_conflict_keyword()),
        sql_event(seq![' ', '(']),
        c,
        sql_event(seq![')']),
        sql_event(do_nothing_keyword()),
        n,
    );
    lemma_collected_binds_concat(head, tail);
}

/// An upsert with a conflict target and DO UPDATE renders as the plain
/// insert followed by ` ON CONFLICT (<target>) DO UPDATE SET <changes>`.
pub proof fn lemma_on_conflict_do_update_renders<
    QB: QueryBuilder,
    T: QueryFragment,
    U: QueryFragment,
    Op: QueryFragment,
    C: QueryFragment,
    Changes: QueryFragment,
>(
    plain: InsertStatement<T, U, Op, NoReturningClause>,
    upsert: InsertStatement<
        T,
        OnConflictValues<U, ConflictTarget<C>, DoUpdate<Changes>>,
        Op,
        NoReturningClause,
    >,
    start: nat,
)
    requires
        upsert.operator_spec() == plain.operator_spec(),
        upsert.target_spec() == plain.target_spec(),
        upsert.records_spec().values_spec() == plain.records_spec(),
    ensures
        ({
            let c = upsert.records_spec().target_spec().0.events();
            let n = start + count_binds(plain.events());
            render::<QB>(upsert.events(), start) == render::<QB>(plain.events(), start)
                + on_conflict_keyword() + seq![' ', '('] + render::<QB>(c, n) + seq![')']
                + do_update_keyword() + render::<QB>(
                upsert.records_spec().action_spec().changes_spec().events(),
                n + count_binds(c),
            )
        }),
        collected_binds(upsert.events()) == collected_binds(plain.events()) + collected_binds(
            upsert.records_spec().target_spec().0.events(),
        ) + collected_binds(upsert.records_spec().action_spec().changes_spec().events()),
{
    let head = plain.events();
    let c = upsert.records_spec().target_spec().0.events();
    let ch = upsert.records_spec().action_spec().changes_spec().events();
    let n = start + count_binds(head);
    let tail5 = sql_event(on_conflict_keyword()) + sql_event(seq![' ', '(']) + c + sql_event(
        seq![')'],
    ) + sql_event(do_update_keyword());
    assert(upsert.events() =~= head + (tail5 + ch));
    crate::ast::lemma_render_concat::<QB>(head, tail5 + ch, start);
    crate::ast::lemma_render_concat::<QB>(tail5, ch, n);
    lemma_render_parts::<QB>(
        sql_event(on_conflict_keyword()),
        sql_event(seq![' ', '(']),
        c,
        sql_event(seq![')']),
        sql_event(do_update_keyword()),
        n,
    );
    assert(render::<QB>(upsert.events(), start) =~= render::<QB>(plain.events(), start)
        + on_conflict_keyword() + seq![' ', '('] + render::<QB>(c, n) + seq![')']
        + do_update_keyword() + render::<QB>(ch, n + count_binds(c)));
    lemma_collected_binds_concat(head, tail5 + ch);
    lemma_collected_binds_concat(tail5, ch);
    assert(collected_binds(upsert.events()) =~= collected_binds(head) + collected_binds(c)
        + collected_binds(ch));
}

/// An upsert without a conflict target renders as the plain insert followed
/// by ` ON CONFLICT DO NOTHING`, with no column list.
pub proof fn lemma_on_conflict_do_nothing_without_target_renders<
    QB: QueryBuilder,
    T: QueryFragment,
    U: QueryFragment,
    Op: QueryFragment,
>(
    plain: InsertStatement<T, U, Op, NoReturningClause>,
    upsert: InsertStatement<
        T,
        OnConflictValues<U, NoConflictTarget, DoNothing>,
        Op,
        NoReturningClause,
    >,
    start: nat,
)
    requires
        upsert.operator_spec() == plain.operator_spec(),
        upsert.target_spec() == plain.target_spec(),
        upsert.records_spec().values_spec() == plain.records_spec(),
    ensures
        render::<QB>(upsert.events(), start) == render::<QB>(plain.events(), start)
            + on_conflict_keyword() + do_nothing_keyword(),
        collected_binds(upsert.events()) == collected_binds(plain.events()),
{
    let head = plain.events();
    let n = start + count_binds(head);
    let tail = sql_event(on_conflict_keyword()) + sql_event(do_nothing_keyword());
    assert(upsert.events() =~= head + tail);
    crate::ast::lemma_render_concat::<QB>(head, tail, start);
    crate::ast::lemma_render_concat::<QB>(
        sql_event(on_conflict_keyword()),
        sql_event(do_nothing_keyword()),
        n,
    );
    crate::ast::lemma_single_event::<QB>(AstEvent::Sql(on_conflict_keyword()), n);
    crate::ast::lemma_single_event::<QB>(AstEvent::Sql(do_nothing_keyword()), n);
    assert(render::<QB>(upsert.events(), start) =~= render::<QB>(plain.events(), start)
        + on_conflict_keyword() + do_nothing_keyword());
    lemma_collected_binds_concat(head, tail);
    lemma_collected_binds_concat(sql_event(on_conflict_keyword()), sql_event(do_nothing_keyword()));
    assert(collected_binds(upsert.events()) =~= collected_binds(head));
}

/// Rendering five parts where only the third may hold bind events.
proof fn lemma_render_parts<QB: QueryBuilder>(
    a: Seq<AstEvent>,
    b: Seq<AstEvent>,
    c: Seq<AstEvent>,
    d: Seq<AstEvent>,
    e: Seq<AstEvent>,
    n: nat,
)
    requires
        a.len() == 1 && a[0] is Sql,
        b.len() == 1 && b[0] is Sql,
        d.len() == 1 && d[0] is Sql,
        e.len() == 1 && e[0] is Sql,
    ensures
        render::<QB>(a + b + c + d + e, n) == a[0]->Sql_0 + b[0]->Sql_0 + render::<QB>(c, n)
            + d[0]->Sql_0 + e[0]->Sql_0,
        count_binds(a + b + c + d + e) == count_binds(c),
        collected_binds(a + b + c + d + e) == collected_binds(c),
{
    lemma_collected_binds_concat(a, b);
    lemma_collected_binds_concat(a + b, c);
    lemma_collected_binds_concat(a + b + c, d);
    lemma_collected_binds_concat(a + b + c + d, e);
    assert(a =~= seq![a[0]]);
    assert(b =~= seq![b[0]]);
    assert(d =~= seq![d[0]]);
    assert(e =~= seq![e[0]]);
    crate::ast::lemma_single_event::<QB>(a[0], n);
    crate::ast::lemma_single_event::<QB>(b[0], n);
    crate::ast::lemma_single_event::<QB>(d[0], n + count_binds(c));
    crate::ast::lemma_single_event::<QB>(e[0], n + count_binds(c));
    crate::ast::lemma_render_concat::<QB>(a, b, n);
    crate::ast::lemma_render_concat::<QB>(a + b, c, n);
    crate::ast::lemma_render_concat::<QB>(a + b + c, d, n);
    crate::ast::lemma_render_concat::<QB>(a + b + c + d, e, n);
    assert(render::<QB>(a + b + c + d + e, n) =~= a[0]->Sql_0 + b[0]->Sql_0 + render::<QB>(c, n)
        + d[0]->Sql_0 + e[0]->Sql_0);
    assert(collected_binds(a + b + c + d + e) =~= collected_binds(c));
}

pub open spec fn update_keyword() -> Seq<char> {
    seq!['U', 'P', 'D', 'A', 'T', 'E', ' ']
}

pub open spec fn set_keyword() -> Seq<char> {
    seq![' ', 'S', 'E', 'T', ' ']
}

pub open spec fn delete_keyword() -> Seq<char> {
    seq!['D', 'E', 'L', 'E', 'T', 'E', ' ', 'F', 'R', 'O', 'M', ' ']
}

/// An UPDATE waiting for its changes.
pub struct IncompleteUpdateStatement<T, W> {
    table: T,
    where_clause: W,
}

impl<T, W> IncompleteUpdateStatement<T, W> {
    pub closed spec fn table_spec(&self) -> T {
        self.table
    }

    pub closed spec fn where_spec(&self) -> W {
        self.where_clause
    }

    /// ` SET <changes>`.
    pub fn set<V>(self, changes: V) -> (r: UpdateStatement<T, W, V>)
        ensures
            r.table_spec() == self.table_spec(),
            r.where_spec() == self.where_spec(),
            r.changes_spec() == changes,
    {
        UpdateStatement { table: self.table, where_clause: self.where_clause, changes }
    }
}

impl<T> IncompleteUpdateStatement<T, NoWhereClause> {
    /// Restricts the update to the rows where `predicate` holds.
    pub fn filter<P: Expression<SqlType = Bool>>(self, predicate: P) -> (r: IncompleteUpdateStatement<
        T,
        WhereClause<P>,
    >)
        ensures
            r.table_spec() == self.table_spec(),
            r.where_spec() == WhereClause(predicate),
    {
        IncompleteUpdateStatement { table: self.table, where_clause: WhereClause(predicate) }
    }
}

/// Starts an UPDATE of `table`.
pub fn update<T>(table: T) -> (r: IncompleteUpdateStatement<T, NoWhereClause>)
    ensures
        r.table_spec() == table,
        r.where_spec() == NoWhereClause,
{
    IncompleteUpdateStatement { table, where_clause: NoWhereClause }
}

/// `UPDATE <table> SET <changes><where>`.
pub struct UpdateStatement<T, W, V> {
    table: T,
    where_clause: W,
    changes: V,
}

impl<T, W, V> UpdateStatement<T, W, V> {
    pub closed spec fn table_spec(&self) -> T {
        self.table
    }

    pub closed spec fn where_spec(&self) -> W {
        self.where_clause
    }

    pub closed spec fn changes_spec(&self) -> V {
        self.changes
    }
}

impl<T: QueryFragment, W: QueryFragment, V: QueryFragment> QueryFragment for UpdateStatement<
    T,
    W,
    V,
> {
    open spec fn events(&self) -> Seq<AstEvent> {
        sql_event(update_keyword()) + self.table_spec().events() + sql_event(set_keyword())
            + self.changes_spec().events() + self.where_spec().events()
    }

    fn walk_ast<QB: QueryBuilder>(&self, pass: &mut AstPass<QB>) {
        let ghost m = pass.model();
        proof {
            reveal_strlit("UPDATE ");
            reveal_strlit(" SET ");
            assert("UPDATE "@ =~= update_keyword());
            assert(" SET "@ =~= set_keyword());
            lemma_after_parts::<QB>(
                m,
                sql_event(update_keyword()),
                self.table.events(),
                sql_event(set_keyword()),
                self.changes.events(),
            );
            lemma_after_concat::<QB>(
                m,
                sql_event(update_keyword()) + self.table.events() + sql_event(set_keyword())
                    + self.changes.events(),
                self.where_clause.events(),
            );
        }
        pass.push_sql("UPDATE ");
        self.table.walk_ast(pass);
        pass.push_sql(" SET ");
        self.changes.walk_ast(pass);
        self.where_clause.walk_ast(pass);
    }
}

/// `DELETE FROM <table><where>`.
pub struct DeleteStatement<T, W> {
    table: T,
    where_clause: W,
}

impl<T, W> DeleteStatement<T, W> {
    pub closed spec fn table_spec(&self) -> T {
        self.table
    }

    pub closed spec fn where_spec(&self) -> W {
        self.where_clause
    }
}

impl<T> DeleteStatement<T, NoWhereClause> {
    /// Restricts the delete to the rows where `predicate` holds.
    pub fn filter<P: Expression<SqlType = Bool>>(self, predicate: P) -> (r: DeleteStatement<
        T,
        WhereClause<P>,
    >)
        ensures
            r.table_spec() == self.table_spec(),
            r.where_spec() == WhereClause(predicate),
    {
        DeleteStatement { table: self.table, where_clause: WhereClause(predicate) }
    }
}

/// Starts a DELETE from `table`: without a filter it deletes every row.
pub fn delete<T>(table: T) -> (r: DeleteStatement<T, NoWhereClause>)
    ensures
        r.table_spec() == table,
        r.where_spec() == NoWhereClause,
{
    DeleteStatement { table, where_clause: NoWhereClause }
}

impl<T: QueryFragment, W: QueryFragment> QueryFragment for DeleteStatement<T, W> {
    open spec fn events(&self) -> Seq<AstEvent> {
        sql_event(delete_keyword()) + self.table_spec().events() + self.where_spec().events()
    }

    fn walk_ast<QB: QueryBuilder>(&self, pass: &mut AstPass<QB>) {
        let ghost m = pass.model();
        proof {
            reveal_strlit("DELETE FROM ");
            assert("DELETE FROM "@ =~= delete_keyword());
            crate::expression::lemma_wrapped::<QB>(
                m,
                sql_event(delete_keyword()),
                self.table.events(),
                self.where_clause.events(),
            );
        }
        pass.push_sql("DELETE FROM ");
        self.table.walk_ast(pass);
        self.where_clause.walk_ast(pass);
    }
}

/// A whole statement given as raw SQL text; it is never cached.
pub struct SqlQuery {
    query: String,
}

impl SqlQuery {
    pub closed spec fn query_spec(&self) -> Seq<char> {
        self.query@
    }

    pub fn new(query: String) -> (r: Self)
        ensures
            r.query_spec() == query@,
    {
        SqlQuery { query }
    }
}

/// A statement from raw SQL text.
pub fn sql_query(query: String) -> (r: SqlQuery)
    ensures
        r.query_spec() == query@,
{
    SqlQuery::new(query)
}

impl QueryFragment for SqlQuery {
    open spec fn events(&self) -> Seq<AstEvent> {
        seq![AstEvent::UnsafeToCache, AstEvent::Sql(self.query_spec())]
    }

    fn walk_ast<QB: QueryBuilder>(&self, pass: &mut AstPass<QB>) {
        let ghost m = pass.model();
        proof {
            lemma_after_concat::<QB>(
                m,
                seq![AstEvent::UnsafeToCache],
                seq![AstEvent::Sql(self.query_spec())],
            );
            assert(seq![AstEvent::UnsafeToCache] + seq![AstEvent::Sql(self.query_spec())]
                =~= self.events());
        }
        pass.unsafe_to_cache_prepared();
        pass.push_sql(self.query.as_str());
    }
}

/// A complete statement that returns rows of `SqlType`.
pub trait Query {
    type SqlType;
}

/// Converts into a complete, typed query.
pub trait AsQuery {
    type SqlType;

    type Query: Query<SqlType = Self::SqlType>;

    spec fn as_query_spec(self) -> Self::Query;

    fn as_query(self) -> (r: Self::Query)
        ensures
            r == self.as_query_spec(),
    ;
}

impl<T: Query> AsQuery for T {
    type SqlType = T::SqlType;

    type Query = T;

    open spec fn as_query_spec(self) -> T {
        self
    }

    fn as_query(self) -> (r: T) {
        self
    }
}

impl<T, U, Op, Expr: Expression> Query for InsertStatement<T, U, Op, ReturningClause<Expr>> {
    type SqlType = Expr::SqlType;
}

pub open spec fn select_keyword() -> Seq<char> {
    seq!['S', 'E', 'L', 'E', 'C', 'T', ' ']
}

pub open spec fn from_keyword() -> Seq<char> {
    seq![' ', 'F', 'R', 'O', 'M', ' ']
}

pub open spec fn offset_keyword() -> Seq<char> {
    seq![' ', 'O', 'F', 'F', 'S', 'E', 'T', ' ']
}

/// ` FROM <source>`.
pub struct FromClause<T>(pub T);

impl<T: QueryFragment> QueryFragment for FromClause<T> {
    open spec fn events(&self) -> Seq<AstEvent> {
        sql_event(from_keyword()) + self.0.events()
    }

    fn walk_ast<QB: QueryBuilder>(&self, pass: &mut AstPass<QB>) {
        let ghost m = pass.model();
        proof {
            reveal_strlit(" FROM ");
            assert(" FROM "@ =~= from_keyword());
            lemma_after_concat::<QB>(m, sql_event(from_keyword()), self.0.events());
        }
        pass.push_sql(" FROM ");
        self.0.walk_ast(pass);
    }
}

/// No OFFSET clause.
pub struct NoOffsetClause;

impl QueryFragment for NoOffsetClause {
    open spec fn events(&self) -> Seq<AstEvent> {
        seq![]
    }

    fn walk_ast<QB: QueryBuilder>(&self, pass: &mut AstPass<QB>) {
        ().walk_ast(pass);
    }
}

/// ` OFFSET <n>`, the count bound as a parameter.
pub struct OffsetClause(pub Bound<BigInt>);

impl QueryFragment for OffsetClause {
    open spec fn events(&self) -> Seq<AstEvent> {
        sql_event(offset_keyword()) + self.0.events()
    }

    fn walk_ast<QB: QueryBuilder>(&self, pass: &mut AstPass<QB>) {
        let ghost m = pass.model();
        proof {
            reveal_strlit(" OFFSET ");
            assert(" OFFSET "@ =~= offset_keyword());
            lemma_after_concat::<QB>(m, sql_event(offset_keyword()), self.0.events());
        }
        pass.push_sql(" OFFSET ");
        self.0.walk_ast(pass);
    }
}

/// `SELECT <selection><from><where><offset>`.
pub struct SelectStatement<S, F, W, O> {
    select: S,
    from: F,
    where_clause: W,
    offset: O,
}

impl<S, F, W, O> SelectStatement<S, F, W, O> {
    pub closed spec fn select_spec(&self) -> S {
        self.select
    }

    pub closed spec fn from_spec(&self) -> F {
        self.from
    }

    pub closed spec fn where_spec(&self) -> W {
        self.where_clause
    }

    pub closed spec fn offset_spec(&self) -> O {
        self.offset
    }
}

/// `SELECT <expression>`, with no FROM clause.
pub fn select<S: Expression>(expression: S) -> (r: SelectStatement<
    S,
    (),
    NoWhereClause,
    NoOffsetClause,
>)
    ensures
        r.select_spec() == expression,
        r.from_spec() == (),
        r.where_spec() == NoWhereClause,
        r.offset_spec() == NoOffsetClause,
{
    SelectStatement {
        select: expression,
        from: (),
        where_clause: NoWhereClause,
        offset: NoOffsetClause,
    }
}

impl<S, W, O> SelectStatement<S, (), W, O> {
    /// Selects from `source`.
    pub fn from<T>(self, source: T) -> (r: SelectStatement<S, FromClause<T>, W, O>)
        ensures
            r.select_spec() == self.select_spec(),
            r.from_spec() == FromClause(source),
            r.where_spec() == self.where_spec(),
            r.offset_spec() == self.offset_spec(),
    {
        SelectStatement {
            select: self.select,
            from: FromClause(source),
            where_clause: self.where_clause,
            offset: self.offset,
        }
    }
}

impl<S, F, O> SelectStatement<S, F, NoWhereClause, O> {
    /// Keeps the rows where `predicate` holds.
    pub fn filter<P: Expression<SqlType = Bool>>(self, predicate: P) -> (r: SelectStatement<
        S,
        F,
        WhereClause<P>,
        O,
    >)
        ensures
            r.select_spec() == self.select_spec(),
            r.from_spec() == self.from_spec(),
            r.where_spec() == WhereClause(predicate),
            r.offset_spec() == self.offset_spec(),
    {
        SelectStatement {
            select: self.select,
            from: self.from,
            where_clause: WhereClause(predicate),
            offset: self.offset,
        }
    }
}

/// Skips the first rows of a query.
pub trait OffsetDsl {
    type Output;

    fn offset(self, offset: i64) -> Self::Output;
}

impl<S, F, W> OffsetDsl for SelectStatement<S, F, W, NoOffsetClause> {
    type Output = SelectStatement<S, F, W, OffsetClause>;

    fn offset(self, offset: i64) -> (r: SelectStatement<S, F, W, OffsetClause>)
        ensures
            r.select_spec() == self.select_spec(),
            r.from_spec() == self.from_spec(),
            r.where_spec() == self.where_spec(),
            r.offset_spec().0.value_spec() == crate::value::ValueModel::BigInt(offset),
    {
        SelectStatement {
            select: self.select,
            from: self.from,
            where_clause: self.where_clause,
            offset: OffsetClause(crate::expression::bind::<BigInt, i64>(&offset)),
        }
    }
}

impl<
    S: QueryFragment,
    F: QueryFragment,
    W: QueryFragment,
    O: QueryFragment,
> QueryFragment for SelectStatement<S, F, W, O> {
    open spec fn events(&self) -> Seq<AstEvent> {
        sql_event(select_keyword()) + self.select_spec().events() + self.from_spec().events()
            + self.where_spec().events() + self.offset_spec().events()
    }

    fn walk_ast<QB: QueryBuilder>(&self, pass: &mut AstPass<QB>) {
        let ghost m = pass.model();
        proof {
            reveal_strlit("SELECT ");
            assert("SELECT "@ =~= select_keyword());
            lemma_after_parts::<QB>(
                m,
                sql_event(select_keyword()),
                self.select.events(),
                self.from.events(),
                self.where_clause.events(),
            );
            lemma_after_concat::<QB>(
                m,
                sql_event(select_keyword()) + self.select.events() + self.from.events()
                    + self.where_clause.events(),
                self.offset.events(),
            );
        }
        pass.push_sql("SELECT ");
        self.select.walk_ast(pass);
        self.from.walk_ast(pass);
        self.where_clause.walk_ast(pass);
        self.offset.walk_ast(pass);
    }
}

impl<S: Expression, F, W, O> Query for SelectStatement<S, F, W, O> {
    type SqlType = S::SqlType;
}

/// The SQL of `query` on the Postgres-like backend.
pub fn deprecated_debug_sql<T: QueryFragment>(query: &T) -> (r: String)
    requires
        count_binds(query.events()) < u64::MAX,
    ensures
        r@ == render::<crate::query_builder::PgQueryBuilder>(query.events(), 0),
{
    crate::ast::debug_sql::<crate::query_builder::PgQueryBuilder, T>(query)
}

/// A conflict target restricted to the rows where `predicate` holds:
/// `<target> WHERE <predicate>`.
pub struct DecoratedConflictTarget<T, P> {
    target: T,
    predicate: P,
}

impl<T, P> DecoratedConflictTarget<T, P> {
    pub closed spec fn target_spec(&self) -> T {
        self.target
    }

    pub closed spec fn predicate_spec(&self) -> P {
        self.predicate
    }
}

impl<T: QueryFragment, P: QueryFragment> QueryFragment for DecoratedConflictTarget<T, P> {
    open spec fn events(&self) -> Seq<AstEvent> {
        self.target_spec().events() + sql_event(where_keyword()) + self.predicate_spec().events()
    }

    fn walk_ast<QB: QueryBuilder>(&self, pass: &mut AstPass<QB>) {
        let ghost m = pass.model();
        proof {
            reveal_strlit(" WHERE ");
            assert(" WHERE "@ =~= where_keyword());
            crate::expression::lemma_wrapped::<QB>(
                m,
                self.target.events(),
                sql_event(where_keyword()),
                self.predicate.events(),
            );
        }
        self.target.walk_ast(pass);
        pass.push_sql(" WHERE ");
        self.predicate.walk_ast(pass);
    }
}

impl<Stmt, C> IncompleteOnConflict<Stmt, ConflictTarget<C>> {
    /// Restricts the conflict target to the rows where `predicate` holds.
    pub fn filter_target<P: Expression<SqlType = Bool>>(self, predicate: P) -> (r: IncompleteOnConflict<
        Stmt,
        DecoratedConflictTarget<ConflictTarget<C>, P>,
    >)
        ensures
            r.stmt_spec() == self.stmt_spec(),
            r.target_spec().target_spec() == self.target_spec(),
            r.target_spec().predicate_spec() == predicate,
    {
        IncompleteOnConflict {
            stmt: self.stmt,
            target: DecoratedConflictTarget { target: self.target, predicate },
        }
    }
}

} // verus!
