//! Typed expression nodes. Each node carries its SQL type as a type-level
//! tag and walks its children in the order they appear in the SQL text.
use crate::ast::{
    after, cacheable, collected_binds, count_binds, lemma_after_concat, lemma_cacheable_concat,
    lemma_collected_binds_concat, lemma_count_binds_concat, lemma_render_concat,
    lemma_single_event, render, AstEvent, AstPass, QueryFragment,
};
use crate::query_builder::QueryBuilder;
use crate::sql_types::{
    AddOp, Array, BigInt, Binary, Bool, DivOp, Integer, MulOp, Nullable, SmallInt, SubOp, Text,
};
use crate::value::{SqlValue, ValueModel};
use core::marker::PhantomData;
use vstd::prelude::*;

verus! {

broadcast use lemma_count_binds_concat;

/// A typed SQL expression.
pub trait Expression: QueryFragment {
    type SqlType;
}

/// An expression that may appear in a query whose FROM clause is `QS`: every
/// part of it may.
pub trait SelectableExpression<QS>: Expression {

}

/// An expression that may appear outside an aggregate: every part of it may.
pub trait NonAggregate: Expression {

}

/// Walking `a`, then a node with events `inner`, then `b` is walking
/// `a + inner + b`.
pub proof fn lemma_wrapped<QB: QueryBuilder>(
    m: crate::ast::PassModel,
    a: Seq<AstEvent>,
    inner: Seq<AstEvent>,
    b: Seq<AstEvent>,
)
    ensures
        after::<QB>(after::<QB>(after::<QB>(m, a), inner), b) == after::<QB>(m, a + inner + b),
        count_binds(a + inner + b) == count_binds(a) + count_binds(inner) + count_binds(b),
{
    lemma_after_concat::<QB>(m, a, inner);
    lemma_after_concat::<QB>(m, a + inner, b);
}

pub open spec fn sql_event(s: Seq<char>) -> Seq<AstEvent> {
    seq![AstEvent::Sql(s)]
}

/// `inner` in literal parentheses.
pub struct Grouped<T>(pub T);

impl<T: QueryFragment> QueryFragment for Grouped<T> {
    open spec fn events(&self) -> Seq<AstEvent> {
        sql_event(seq!['(']) + self.0.events() + sql_event(seq![')'])
    }

    fn walk_ast<QB: QueryBuilder>(&self, pass: &mut AstPass<QB>) {
        let ghost m = pass.model();
        proof {
            reveal_strlit("(");
            reveal_strlit(")");
            lemma_wrapped::<QB>(m, sql_event(seq!['(']), self.0.events(), sql_event(seq![')']));
            assert("("@ =~= seq!['(']);
            assert(")"@ =~= seq![')']);
        }
        pass.push_sql("(");
        self.0.walk_ast(pass);
        pass.push_sql(")");
    }
}

impl<T: Expression> Expression for Grouped<T> {
    type SqlType = T::SqlType;
}

impl<T: SelectableExpression<QS>, QS> SelectableExpression<QS> for Grouped<T> {

}

impl<T: NonAggregate> NonAggregate for Grouped<T> {

}

/// Raw SQL text with a caller-asserted type. Nothing checks the text against
/// the type: a wrong claim gives wrong values or a backend error at
/// execution. Its text is not fit for the prepared-statement cache.
pub struct SqlLiteral<ST> {
    sql: String,
    _marker: PhantomData<ST>,
}

impl<ST> SqlLiteral<ST> {
    pub closed spec fn sql_spec(&self) -> Seq<char> {
        self.sql@
    }

    pub fn new(sql: String) -> (r: Self)
        ensures
            r.sql_spec() == sql@,
    {
        SqlLiteral { sql, _marker: PhantomData }
    }
}

impl<ST> QueryFragment for SqlLiteral<ST> {
    open spec fn events(&self) -> Seq<AstEvent> {
        seq![AstEvent::UnsafeToCache, AstEvent::Sql(self.sql_spec())]
    }

    fn walk_ast<QB: QueryBuilder>(&self, pass: &mut AstPass<QB>) {
        let ghost m = pass.model();
        proof {
            lemma_after_concat::<QB>(
                m,
                seq![AstEvent::UnsafeToCache],
                seq![AstEvent::Sql(self.sql_spec())],
            );
            assert(seq![AstEvent::UnsafeToCache] + seq![AstEvent::Sql(self.sql_spec())]
                =~= self.events());
        }
        pass.unsafe_to_cache_prepared();
        pass.push_sql(self.sql.as_str());
    }
}

impl<ST> Expression for SqlLiteral<ST> {
    type SqlType = ST;
}

impl<ST, QS> SelectableExpression<QS> for SqlLiteral<ST> {

}

impl<ST> NonAggregate for SqlLiteral<ST> {

}

/// Raw SQL of type `ST`; see [`SqlLiteral`].
pub fn sql<ST>(text: &str) -> (r: SqlLiteral<ST>)
    ensures
        r.sql_spec() == text@,
{
    SqlLiteral::new(text.to_owned())
}

/// A native value that can be bound as a parameter of SQL type `ST`.
pub trait ToSqlValue<ST> {
    spec fn value_model(&self) -> ValueModel;

    fn to_sql_value(&self) -> (r: SqlValue)
        ensures
            r@ == self.value_model(),
    ;
}

impl ToSqlValue<Bool> for bool {
    open spec fn value_model(&self) -> ValueModel {
        ValueModel::Bool(*self)
    }

    fn to_sql_value(&self) -> (r: SqlValue) {
        SqlValue::Bool(*self)
    }
}

impl ToSqlValue<SmallInt> for i16 {
    open spec fn value_model(&self) -> ValueModel {
        ValueModel::SmallInt(*self)
    }

    fn to_sql_value(&self) -> (r: SqlValue) {
        SqlValue::SmallInt(*self)
    }
}

impl ToSqlValue<Integer> for i32 {
    open spec fn value_model(&self) -> ValueModel {
        ValueModel::Integer(*self)
    }

    fn to_sql_value(&self) -> (r: SqlValue) {
        SqlValue::Integer(*self)
    }
}

impl ToSqlValue<BigInt> for i64 {
    open spec fn value_model(&self) -> ValueModel {
        ValueModel::BigInt(*self)
    }

    fn to_sql_value(&self) -> (r: SqlValue) {
        SqlValue::BigInt(*self)
    }
}

impl ToSqlValue<Text> for String {
    open spec fn value_model(&self) -> ValueModel {
        ValueModel::Text(self@)
    }

    fn to_sql_value(&self) -> (r: SqlValue) {
        SqlValue::Text(self.clone())
    }
}

impl ToSqlValue<Binary> for Vec<u8> {
    open spec fn value_model(&self) -> ValueModel {
        ValueModel::Binary(self@)
    }

    fn to_sql_value(&self) -> (r: SqlValue) {
        SqlValue::Binary(crate::value::copy_bytes(self))
    }
}

impl<ST, T: ToSqlValue<ST>> ToSqlValue<Nullable<ST>> for Option<T> {
    open spec fn value_model(&self) -> ValueModel {
        match self {
            Some(v) => v.value_model(),
            None => ValueModel::Null,
        }
    }

    fn to_sql_value(&self) -> (r: SqlValue) {
        match self {
            Some(v) => v.to_sql_value(),
            None => SqlValue::Null,
        }
    }
}

/// A bind parameter of SQL type `ST`.
pub struct Bound<ST> {
    value: SqlValue,
    _marker: PhantomData<ST>,
}

impl<ST> Bound<ST> {
    pub closed spec fn value_spec(&self) -> ValueModel {
        self.value@
    }
}

/// Binds `value` as a parameter of type `ST`.
pub fn bind<ST, T: ToSqlValue<ST>>(value: &T) -> (r: Bound<ST>)
    ensures
        r.value_spec() == value.value_model(),
{
    Bound { value: value.to_sql_value(), _marker: PhantomData }
}

impl<ST> QueryFragment for Bound<ST> {
    open spec fn events(&self) -> Seq<AstEvent> {
        seq![AstEvent::Bind(self.value_spec())]
    }

    fn walk_ast<QB: QueryBuilder>(&self, pass: &mut AstPass<QB>) {
        proof {
            crate::ast::lemma_single_event::<QB>(
                AstEvent::Bind(self.value_spec()),
                pass.model().placeholders,
            );
        }
        pass.push_bind_param(&self.value);
    }
}

impl<ST> Expression for Bound<ST> {
    type SqlType = ST;
}

impl<ST, QS> SelectableExpression<QS> for Bound<ST> {

}

impl<ST> NonAggregate for Bound<ST> {

}

/// A column of some table.
pub trait Column: Expression {
    spec fn name_spec(&self) -> Seq<char>;

    fn name(&self) -> (r: &str)
        ensures
            r@ == self.name_spec(),
    ;
}

/// A column given by name, of SQL type `ST`; it renders as a quoted
/// identifier.
pub struct NamedColumn<ST> {
    name: String,
    _marker: PhantomData<ST>,
}

impl<ST> NamedColumn<ST> {
    pub fn new(name: &str) -> (r: Self)
        ensures
            r.name_spec() == name@,
    {
        NamedColumn { name: name.to_owned(), _marker: PhantomData }
    }
}

impl<ST> QueryFragment for NamedColumn<ST> {
    open spec fn events(&self) -> Seq<AstEvent> {
        seq![AstEvent::Identifier(self.name_spec())]
    }

    fn walk_ast<QB: QueryBuilder>(&self, pass: &mut AstPass<QB>) {
        proof {
            crate::ast::lemma_single_event::<QB>(
                AstEvent::Identifier(self.name_spec()),
                pass.model().placeholders,
            );
        }
        pass.push_identifier(self.name.as_str());
    }
}

impl<ST> Expression for NamedColumn<ST> {
    type SqlType = ST;
}

impl<ST> Column for NamedColumn<ST> {
    closed spec fn name_spec(&self) -> Seq<char> {
        self.name@
    }

    fn name(&self) -> (r: &str) {
        self.name.as_str()
    }
}

impl<ST> NonAggregate for NamedColumn<ST> {

}

/// `lhs + rhs`; its SQL type is the `AddOp` output of the left side's type.
pub struct Add<Lhs, Rhs> {
    lhs: Lhs,
    rhs: Rhs,
}

impl<Lhs, Rhs> Add<Lhs, Rhs> {
    pub closed spec fn lhs_spec(&self) -> Lhs {
        self.lhs
    }

    pub closed spec fn rhs_spec(&self) -> Rhs {
        self.rhs
    }

    pub fn new(left: Lhs, right: Rhs) -> (r: Self)
        ensures
            r.lhs_spec() == left,
            r.rhs_spec() == right,
    {
        Add { lhs: left, rhs: right }
    }
}

impl<Lhs: QueryFragment, Rhs: QueryFragment> QueryFragment for Add<Lhs, Rhs> {
    open spec fn events(&self) -> Seq<AstEvent> {
        self.lhs_spec().events() + sql_event(seq![' ', '+', ' ']) + self.rhs_spec().events()
    }

    fn walk_ast<QB: QueryBuilder>(&self, pass: &mut AstPass<QB>) {
        let ghost m = pass.model();
        proof {
            reveal_strlit(" + ");
            lemma_wrapped::<QB>(m, self.lhs.events(), sql_event(seq![' ', '+', ' ']), self.rhs.events());
            assert(" + "@ =~= seq![' ', '+', ' ']);
        }
        self.lhs.walk_ast(pass);
        pass.push_sql(" + ");
        self.rhs.walk_ast(pass);
    }
}

impl<Lhs: Expression, Rhs: Expression> Expression for Add<Lhs, Rhs> where Lhs::SqlType: AddOp {
    type SqlType = <Lhs::SqlType as AddOp>::Output;
}

impl<Lhs, Rhs, QS> SelectableExpression<QS> for Add<Lhs, Rhs> where
    Lhs: SelectableExpression<QS>,
    Rhs: SelectableExpression<QS>,
    Lhs::SqlType: AddOp,
 {

}

impl<Lhs: NonAggregate, Rhs: NonAggregate> NonAggregate for Add<Lhs, Rhs> where
    Lhs::SqlType: AddOp,
 {

}

/// `lhs - rhs`; its SQL type is the `SubOp` output of the left side's type.
pub struct Sub<Lhs, Rhs> {
    lhs: Lhs,
    rhs: Rhs,
}

impl<Lhs, Rhs> Sub<Lhs, Rhs> {
    pub closed spec fn lhs_spec(&self) -> Lhs {
        self.lhs
    }

    pub closed spec fn rhs_spec(&self) -> Rhs {
        self.rhs
    }

    pub fn new(left: Lhs, right: Rhs) -> (r: Self)
        ensures
            r.lhs_spec() == left,
            r.rhs_spec() == right,
    {
        Sub { lhs: left, rhs: right }
    }
}

impl<Lhs: QueryFragment, Rhs: QueryFragment> QueryFragment for Sub<Lhs, Rhs> {
    open spec fn events(&self) -> Seq<AstEvent> {
        self.lhs_spec().events() + sql_event(seq![' ', '-', ' ']) + self.rhs_spec().events()
    }

    fn walk_ast<QB: QueryBuilder>(&self, pass: &mut AstPass<QB>) {
        let ghost m = pass.model();
        proof {
            reveal_strlit(" - ");
            lemma_wrapped::<QB>(m, self.lhs.events(), sql_event(seq![' ', '-', ' ']), self.rhs.events());
            assert(" - "@ =~= seq![' ', '-', ' ']);
        }
        self.lhs.walk_ast(pass);
        pass.push_sql(" - ");
        self.rhs.walk_ast(pass);
    }
}

impl<Lhs: Expression, Rhs: Expression> Expression for Sub<Lhs, Rhs> where Lhs::SqlType: SubOp {
    type SqlType = <Lhs::SqlType as SubOp>::Output;
}

impl<Lhs, Rhs, QS> SelectableExpression<QS> for Sub<Lhs, Rhs> where
    Lhs: SelectableExpression<QS>,
    Rhs: SelectableExpression<QS>,
    Lhs::SqlType: SubOp,
 {

}

impl<Lhs: NonAggregate, Rhs: NonAggregate> NonAggregate for Sub<Lhs, Rhs> where
    Lhs::SqlType: SubOp,
 {

}

/// `lhs * rhs`; its SQL type is the `MulOp` output of the left side's type.
pub struct Mul<Lhs, Rhs> {
    lhs: Lhs,
    rhs: Rhs,
}

impl<Lhs, Rhs> Mul<Lhs, Rhs> {
    pub closed spec fn lhs_spec(&self) -> Lhs {
        self.lhs
    }

    pub closed spec fn rhs_spec(&self) -> Rhs {
        self.rhs
    }

    pub fn new(left: Lhs, right: Rhs) -> (r: Self)
        ensures
            r.lhs_spec() == left,
            r.rhs_spec() == right,
    {
        Mul { lhs: left, rhs: right }
    }
}

impl<Lhs: QueryFragment, Rhs: QueryFragment> QueryFragment for Mul<Lhs, Rhs> {
    open spec fn events(&self) -> Seq<AstEvent> {
        self.lhs_spec().events() + sql_event(seq![' ', '*', ' ']) + self.rhs_spec().events()
    }

    fn walk_ast<QB: QueryBuilder>(&self, pass: &mut AstPass<QB>) {
        let ghost m = pass.model();
        proof {
            reveal_strlit(" * ");
            lemma_wrapped::<QB>(m, self.lhs.events(), sql_event(seq![' ', '*', ' ']), self.rhs.events());
            assert(" * "@ =~= seq![' ', '*', ' ']);
        }
        self.lhs.walk_ast(pass);
        pass.push_sql(" * ");
        self.rhs.walk_ast(pass);
    }
}

impl<Lhs: Expression, Rhs: Expression> Expression for Mul<Lhs, Rhs> where Lhs::SqlType: MulOp {
    type SqlType = <Lhs::SqlType as MulOp>::Output;
}

impl<Lhs, Rhs, QS> SelectableExpression<QS> for Mul<Lhs, Rhs> where
    Lhs: SelectableExpression<QS>,
    Rhs: SelectableExpression<QS>,
    Lhs::SqlType: MulOp,
 {

}

impl<Lhs: NonAggregate, Rhs: NonAggregate> NonAggregate for Mul<Lhs, Rhs> where
    Lhs::SqlType: MulOp,
 {

}

/// `lhs / rhs`; its SQL type is the `DivOp` output of the left side's type.
pub struct Div<Lhs, Rhs> {
    lhs: Lhs,
    rhs: Rhs,
}

impl<Lhs, Rhs> Div<Lhs, Rhs> {
    pub closed spec fn lhs_spec(&self) -> Lhs {
        self.lhs
    }

    pub closed spec fn rhs_spec(&self) -> Rhs {
        self.rhs
    }

    pub fn new(left: Lhs, right: Rhs) -> (r: Self)
        ensures
            r.lhs_spec() == left,
            r.rhs_spec() == right,
    {
        Div { lhs: left, rhs: right }
    }
}

impl<Lhs: QueryFragment, Rhs: QueryFragment> QueryFragment for Div<Lhs, Rhs> {
    open spec fn events(&self) -> Seq<AstEvent> {
        self.lhs_spec().events() + sql_event(seq![' ', '/', ' ']) + self.rhs_spec().events()
    }

    fn walk_ast<QB: QueryBuilder>(&self, pass: &mut AstPass<QB>) {
        let ghost m = pass.model();
        proof {
            reveal_strlit(" / ");
            lemma_wrapped::<QB>(m, self.lhs.events(), sql_event(seq![' ', '/', ' ']), self.rhs.events());
            assert(" / "@ =~= seq![' ', '/', ' ']);
        }
        self.lhs.walk_ast(pass);
        pass.push_sql(" / ");
        self.rhs.walk_ast(pass);
    }
}

impl<Lhs: Expression, Rhs: Expression> Expression for Div<Lhs, Rhs> where Lhs::SqlType: DivOp {
    type SqlType = <Lhs::SqlType as DivOp>::Output;
}

impl<Lhs, Rhs, QS> SelectableExpression<QS> for Div<Lhs, Rhs> where
    Lhs: SelectableExpression<QS>,
    Rhs: SelectableExpression<QS>,
    Lhs::SqlType: DivOp,
 {

}

impl<Lhs: NonAggregate, Rhs: NonAggregate> NonAggregate for Div<Lhs, Rhs> where
    Lhs::SqlType: DivOp,
 {

}

/// `lhs = rhs, of type Bool`.
pub struct Equal<Lhs, Rhs> {
    lhs: Lhs,
    rhs: Rhs,
}

impl<Lhs, Rhs> Equal<Lhs, Rhs> {
    pub closed spec fn lhs_spec(&self) -> Lhs {
        self.lhs
    }

    pub closed spec fn rhs_spec(&self) -> Rhs {
        self.rhs
    }

    pub fn new(left: Lhs, right: Rhs) -> (r: Self)
        ensures
            r.lhs_spec() == left,
            r.rhs_spec() == right,
    {
        Equal { lhs: left, rhs: right }
    }
}

impl<Lhs: QueryFragment, Rhs: QueryFragment> QueryFragment for Equal<Lhs, Rhs> {
    open spec fn events(&self) -> Seq<AstEvent> {
        self.lhs_spec().events() + sql_event(seq![' ', '=', ' ']) + self.rhs_spec().events()
    }

    fn walk_ast<QB: QueryBuilder>(&self, pass: &mut AstPass<QB>) {
        let ghost m = pass.model();
        proof {
            reveal_strlit(" = ");
            lemma_wrapped::<QB>(m, self.lhs.events(), sql_event(seq![' ', '=', ' ']), self.rhs.events());
            assert(" = "@ =~= seq![' ', '=', ' ']);
        }
        self.lhs.walk_ast(pass);
        pass.push_sql(" = ");
        self.rhs.walk_ast(pass);
    }
}

impl<Lhs: Expression, Rhs: Expression> Expression for Equal<Lhs, Rhs> {
    type SqlType = Bool;
}

impl<Lhs, Rhs, QS> SelectableExpression<QS> for Equal<Lhs, Rhs> where
    Lhs: SelectableExpression<QS>,
    Rhs: SelectableExpression<QS>,
 {

}

impl<Lhs: NonAggregate, Rhs: NonAggregate> NonAggregate for Equal<Lhs, Rhs> {

}

/// `lhs AND rhs, of type Bool`.
pub struct And<Lhs, Rhs> {
    lhs: Lhs,
    rhs: Rhs,
}

impl<Lhs, Rhs> And<Lhs, Rhs> {
    pub closed spec fn lhs_spec(&self) -> Lhs {
        self.lhs
    }

    pub closed spec fn rhs_spec(&self) -> Rhs {
        self.rhs
    }

    pub fn new(left: Lhs, right: Rhs) -> (r: Self)
        ensures
            r.lhs_spec() == left,
            r.rhs_spec() == right,
    {
        And { lhs: left, rhs: right }
    }
}

impl<Lhs: QueryFragment, Rhs: QueryFragment> QueryFragment for And<Lhs, Rhs> {
    open spec fn events(&self) -> Seq<AstEvent> {
        self.lhs_spec().events() + sql_event(seq![' ', 'A', 'N', 'D', ' ']) + self.rhs_spec().events()
    }

    fn walk_ast<QB: QueryBuilder>(&self, pass: &mut AstPass<QB>) {
        let ghost m = pass.model();
        proof {
            reveal_strlit(" AND ");
            lemma_wrapped::<QB>(m, self.lhs.events(), sql_event(seq![' ', 'A', 'N', 'D', ' ']), self.rhs.events());
            assert(" AND "@ =~= seq![' ', 'A', 'N', 'D', ' ']);
        }
        self.lhs.walk_ast(pass);
        pass.push_sql(" AND ");
        self.rhs.walk_ast(pass);
    }
}

impl<Lhs: Expression, Rhs: Expression> Expression for And<Lhs, Rhs> {
    type SqlType = Bool;
}

impl<Lhs, Rhs, QS> SelectableExpression<QS> for And<Lhs, Rhs> where
    Lhs: SelectableExpression<QS>,
    Rhs: SelectableExpression<QS>,
 {

}

impl<Lhs: NonAggregate, Rhs: NonAggregate> NonAggregate for And<Lhs, Rhs> {

}

/// `ANY(expr)` over an array expression; its SQL type is the element type.
pub struct Any<Expr, ST> {
    expr: Expr,
    _marker: PhantomData<ST>,
}

impl<Expr, ST> Any<Expr, ST> {
    pub closed spec fn expr_spec(&self) -> Expr {
        self.expr
    }

    pub fn new(expr: Expr) -> (r: Self)
        ensures
            r.expr_spec() == expr,
    {
        Any { expr, _marker: PhantomData }
    }
}

/// `ANY(vals)`: compares against every element of the array `vals`.
pub fn any<ST, Expr: Expression<SqlType = Array<ST>>>(vals: Expr) -> (r: Any<Expr, ST>)
    ensures
        r.expr_spec() == vals,
{
    Any::new(vals)
}

impl<Expr: QueryFragment, ST> QueryFragment for Any<Expr, ST> {
    open spec fn events(&self) -> Seq<AstEvent> {
        sql_event(seq!['A', 'N', 'Y', '(']) + self.expr_spec().events() + sql_event(seq![')'])
    }

    fn walk_ast<QB: QueryBuilder>(&self, pass: &mut AstPass<QB>) {
        let ghost m = pass.model();
        proof {
            reveal_strlit("ANY(");
            reveal_strlit(")");
            lemma_wrapped::<QB>(m, sql_event(seq!['A', 'N', 'Y', '(']), self.expr.events(), sql_event(seq![')']));
            assert("ANY("@ =~= seq!['A', 'N', 'Y', '(']);
            assert(")"@ =~= seq![')']);
        }
        pass.push_sql("ANY(");
        self.expr.walk_ast(pass);
        pass.push_sql(")");
    }
}

impl<Expr: Expression<SqlType = Array<ST>>, ST> Expression for Any<Expr, ST> {
    type SqlType = ST;
}

impl<Expr: SelectableExpression<QS, SqlType = Array<ST>>, ST, QS> SelectableExpression<QS> for Any<Expr, ST> {

}

impl<Expr: NonAggregate<SqlType = Array<ST>>, ST> NonAggregate for Any<Expr, ST> {

}

/// `ALL(expr)` over an array expression; its SQL type is the element type.
pub struct All<Expr, ST> {
    expr: Expr,
    _marker: PhantomData<ST>,
}

impl<Expr, ST> All<Expr, ST> {
    pub closed spec fn expr_spec(&self) -> Expr {
        self.expr
    }

    pub fn new(expr: Expr) -> (r: Self)
        ensures
            r.expr_spec() == expr,
    {
        All { expr, _marker: PhantomData }
    }
}

/// `ALL(vals)`: compares against every element of the array `vals`.
pub fn all<ST, Expr: Expression<SqlType = Array<ST>>>(vals: Expr) -> (r: All<Expr, ST>)
    ensures
        r.expr_spec() == vals,
{
    All::new(vals)
}

impl<Expr: QueryFragment, ST> QueryFragment for All<Expr, ST> {
    open spec fn events(&self) -> Seq<AstEvent> {
        sql_event(seq!['A', 'L', 'L', '(']) + self.expr_spec().events() + sql_event(seq![')'])
    }

    fn walk_ast<QB: QueryBuilder>(&self, pass: &mut AstPass<QB>) {
        let ghost m = pass.model();
        proof {
            reveal_strlit("ALL(");
            reveal_strlit(")");
            lemma_wrapped::<QB>(m, sql_event(seq!['A', 'L', 'L', '(']), self.expr.events(), sql_event(seq![')']));
            assert("ALL("@ =~= seq!['A', 'L', 'L', '(']);
            assert(")"@ =~= seq![')']);
        }
        pass.push_sql("ALL(");
        self.expr.walk_ast(pass);
        pass.push_sql(")");
    }
}

impl<Expr: Expression<SqlType = Array<ST>>, ST> Expression for All<Expr, ST> {
    type SqlType = ST;
}

impl<Expr: SelectableExpression<QS, SqlType = Array<ST>>, ST, QS> SelectableExpression<QS> for All<Expr, ST> {

}

impl<Expr: NonAggregate<SqlType = Array<ST>>, ST> NonAggregate for All<Expr, ST> {

}

/// `Grouped(e)` renders as `"(" + render(e) + ")"` on every backend and at
/// every placeholder offset, and binds and caches exactly as `e` does. (Its
/// SQL type, selectability and non-aggregate status are `e`'s by the impls
/// above.)
pub proof fn lemma_grouped_renders_parenthesized<QB: QueryBuilder, T: QueryFragment>(
    e: T,
    start: nat,
)
    ensures
        render::<QB>(Grouped(e).events(), start) == seq!['('] + render::<QB>(e.events(), start)
            + seq![')'],
        count_binds(Grouped(e).events()) == count_binds(e.events()),
        collected_binds(Grouped(e).events()) == collected_binds(e.events()),
        cacheable(Grouped(e).events()) == cacheable(e.events()),
{
    let open_ = sql_event(seq!['(']);
    let close = sql_event(seq![')']);
    let inner = e.events();
    lemma_single_event::<QB>(AstEvent::Sql(seq!['(']), start);
    lemma_single_event::<QB>(AstEvent::Sql(seq![')']), start + count_binds(inner));
    lemma_render_concat::<QB>(open_, inner, start);
    lemma_render_concat::<QB>(open_ + inner, close, start);
    lemma_count_binds_concat(open_, inner);
    lemma_count_binds_concat(open_ + inner, close);
    lemma_collected_binds_concat(open_, inner);
    lemma_collected_binds_concat(open_ + inner, close);
    lemma_cacheable_concat(open_, inner);
    lemma_cacheable_concat(open_ + inner, close);
    assert(collected_binds(Grouped(e).events()) =~= collected_binds(e.events()));
}

/// The events of a comma-separated list of bind parameters.
pub open spec fn bind_list_events(values: Seq<ValueModel>) -> Seq<AstEvent>
    decreases values.len(),
{
    if values.len() == 0 {
        seq![]
    } else {
        bind_list_events(values.drop_last()) + if values.len() > 1 {
            sql_event(seq![',', ' '])
        } else {
            seq![]
        } + seq![AstEvent::Bind(values.last())]
    }
}

proof fn lemma_bind_list_count(values: Seq<ValueModel>)
    ensures
        count_binds(bind_list_events(values)) == values.len(),
    decreases values.len(),
{
    if values.len() > 0 {
        lemma_bind_list_count(values.drop_last());
        lemma_single_event::<crate::query_builder::PgQueryBuilder>(AstEvent::Sql(seq![',', ' ']), 0);
        lemma_single_event::<crate::query_builder::PgQueryBuilder>(
            AstEvent::Bind(values.last()),
            0,
        );
    }
}

pub open spec fn in_keyword() -> Seq<char> {
    seq![' ', 'I', 'N', ' ', '(']
}

/// `expr IN (v1, v2, ...)`. Its text depends on how many values there are,
/// so a statement holding it is never reused from the prepared-statement
/// cache.
pub struct In<Expr, ST> {
    expr: Expr,
    values: Vec<SqlValue>,
    _marker: PhantomData<ST>,
}

impl<Expr, ST> In<Expr, ST> {
    pub closed spec fn expr_spec(&self) -> Expr {
        self.expr
    }

    pub closed spec fn values_spec(&self) -> Seq<ValueModel> {
        self.values@.map_values(|v: SqlValue| v@)
    }
}

/// The bound values of native values.
pub open spec fn value_models<ST, T: ToSqlValue<ST>>(values: Seq<T>) -> Seq<ValueModel> {
    Seq::new(values.len(), |i: int| values[i].value_model())
}

/// `expr IN (values)`, each value bound as a parameter of type `ST`.
pub fn eq_any<ST, Expr: Expression<SqlType = ST>, T: ToSqlValue<ST>>(expr: Expr, values: &Vec<T>) -> (r: In<
    Expr,
    ST,
>)
    ensures
        r.expr_spec() == expr,
        r.values_spec() == value_models::<ST, T>(values@),
{
    let mut bound: Vec<SqlValue> = Vec::new();
    let mut i: usize = 0;
    while i < values.len()
        invariant
            i <= values@.len(),
            bound@.len() == i,
            forall|j: int| 0 <= j < i ==> (#[trigger] bound@[j])@ == values@[j].value_model(),
        decreases values@.len() - i,
    {
        let v = values[i].to_sql_value();
        bound.push(v);
        i = i + 1;
    }
    let r = In { expr, values: bound, _marker: PhantomData };
    assert(r.values_spec() =~= value_models::<ST, T>(values@));
    r
}

impl<Expr: QueryFragment, ST> QueryFragment for In<Expr, ST> {
    open spec fn events(&self) -> Seq<AstEvent> {
        seq![AstEvent::UnsafeToCache] + self.expr_spec().events() + sql_event(in_keyword())
            + bind_list_events(self.values_spec()) + sql_event(seq![')'])
    }

    fn walk_ast<QB: QueryBuilder>(&self, pass: &mut AstPass<QB>) {
        let ghost m = pass.model();
        let ghost values = self.values_spec();
        let ghost head = seq![AstEvent::UnsafeToCache] + self.expr.events() + sql_event(
            in_keyword(),
        );
        proof {
            reveal_strlit(" IN (");
            reveal_strlit(", ");
            reveal_strlit(")");
            assert(" IN ("@ =~= in_keyword());
            assert(", "@ =~= seq![',', ' ']);
            assert(")"@ =~= seq![')']);
            lemma_bind_list_count(values);
            lemma_single_event::<QB>(AstEvent::UnsafeToCache, 0);
            lemma_single_event::<QB>(AstEvent::Sql(in_keyword()), 0);
            lemma_single_event::<QB>(AstEvent::Sql(seq![')']), 0);
            lemma_after_concat::<QB>(m, seq![AstEvent::UnsafeToCache], self.expr.events());
            lemma_after_concat::<QB>(
                m,
                seq![AstEvent::UnsafeToCache] + self.expr.events(),
                sql_event(in_keyword()),
            );
        }
        pass.unsafe_to_cache_prepared();
        self.expr.walk_ast(pass);
        pass.push_sql(" IN (");
        let mut i: usize = 0;
        proof {
            assert(values.take(0) =~= Seq::<ValueModel>::empty());
            assert(head + bind_list_events(values.take(0)) =~= head);
        }
        while i < self.values.len()
            invariant
                i <= self.values@.len(),
                values == self.values_spec(),
                values.len() == self.values@.len(),
                pass.model() == after::<QB>(m, head + bind_list_events(values.take(i as int))),
                m.placeholders + count_binds(self.events()) < u64::MAX,
                count_binds(self.events()) == count_binds(head) + values.len(),
            decreases self.values@.len() - i,
        {
            let ghost prefix = head + bind_list_events(values.take(i as int));
            proof {
                lemma_bind_list_count(values.take(i as int));
                assert(values.take(i as int + 1).drop_last() =~= values.take(i as int));
                assert(values[i as int] == self.values@[i as int]@);
            }
            proof {
                reveal_strlit(", ");
                assert(", "@ =~= seq![',', ' ']);
            }
            if i > 0 {
                pass.push_sql(", ");
                proof {
                    lemma_after_concat::<QB>(m, prefix, sql_event(seq![',', ' ']));
                }
            }
            let ghost mid = if i > 0 {
                prefix + sql_event(seq![',', ' '])
            } else {
                prefix
            };
            proof {
                lemma_count_binds_concat(head, bind_list_events(values.take(i as int)));
                lemma_single_event::<QB>(AstEvent::Sql(seq![',', ' ']), 0);
                if i > 0 {
                    lemma_count_binds_concat(prefix, sql_event(seq![',', ' ']));
                }
            }
            assert(pass.model() == after::<QB>(m, mid));
            pass.push_bind_param(&self.values[i]);
            proof {
                lemma_after_concat::<QB>(m, mid, seq![AstEvent::Bind(values[i as int])]);
                assert(mid + seq![AstEvent::Bind(values[i as int])] =~= head + bind_list_events(
                    values.take(i as int + 1),
                ));
            }
            i = i + 1;
        }
        proof {
            assert(values.take(i as int) =~= values);
            lemma_after_concat::<QB>(m, head + bind_list_events(values), sql_event(seq![')']));
        }
        pass.push_sql(")");
    }
}

impl<Expr: Expression, ST> Expression for In<Expr, ST> {
    type SqlType = Bool;
}

impl<Expr: NonAggregate, ST> NonAggregate for In<Expr, ST> {

}

} // verus!
