//! The single traversal shared by SQL rendering, bind collection and the
//! statement-cache decision.
use crate::query_builder::{quote_identifier, QueryBuilder};
use crate::value::{SqlValue, ValueModel};
use vstd::prelude::*;

verus! {

/// One thing a node does to the pass while it is walked.
pub enum AstEvent {
    /// Literal SQL text.
    Sql(Seq<char>),
    /// An identifier, quoted by the backend.
    Identifier(Seq<char>),
    /// A bind parameter: a placeholder in the text, a value in the binds.
    Bind(ValueModel),
    /// The node's text may differ between executions of the same shape.
    UnsafeToCache,
}

/// Which of the three outputs a pass accumulates.
#[derive(PartialEq, Eq, Structural, Clone, Copy, Debug)]
pub enum PassMode {
    ToSql,
    CollectBinds,
    IsSafeToCachePrepared,
}

/// The mathematical state of a pass.
pub struct PassModel {
    pub mode: PassMode,
    pub text: Seq<char>,
    pub placeholders: nat,
    pub binds: Seq<ValueModel>,
    pub safe: bool,
}

/// Number of bind events.
pub open spec fn count_binds(evs: Seq<AstEvent>) -> nat
    decreases evs.len(),
{
    if evs.len() == 0 {
        0
    } else {
        count_binds(evs.drop_last()) + match evs.last() {
            AstEvent::Bind(_) => 1nat,
            _ => 0nat,
        }
    }
}

/// The values of the bind events, in order.
pub open spec fn collected_binds(evs: Seq<AstEvent>) -> Seq<ValueModel>
    decreases evs.len(),
{
    if evs.len() == 0 {
        seq![]
    } else {
        collected_binds(evs.drop_last()) + match evs.last() {
            AstEvent::Bind(v) => seq![v],
            _ => seq![],
        }
    }
}

/// No event marks the text as varying.
pub open spec fn cacheable(evs: Seq<AstEvent>) -> bool
    decreases evs.len(),
{
    if evs.len() == 0 {
        true
    } else {
        cacheable(evs.drop_last()) && evs.last() != AstEvent::UnsafeToCache
    }
}

/// The text one event adds, when `before` placeholders precede it.
pub open spec fn piece<QB: QueryBuilder>(e: AstEvent, before: nat) -> Seq<char> {
    match e {
        AstEvent::Sql(s) => s,
        AstEvent::Identifier(s) => quote_identifier(QB::quote(), s),
        AstEvent::Bind(_) => QB::placeholder(before + 1),
        AstEvent::UnsafeToCache => seq![],
    }
}

/// The text the events add, when `start` placeholders precede them.
pub open spec fn render<QB: QueryBuilder>(evs: Seq<AstEvent>, start: nat) -> Seq<char>
    decreases evs.len(),
{
    if evs.len() == 0 {
        seq![]
    } else {
        render::<QB>(evs.drop_last(), start) + piece::<QB>(
            evs.last(),
            start + count_binds(evs.drop_last()),
        )
    }
}

/// The state of a pass after the events.
pub open spec fn after<QB: QueryBuilder>(m: PassModel, evs: Seq<AstEvent>) -> PassModel {
    match m.mode {
        PassMode::ToSql => PassModel {
            text: m.text + render::<QB>(evs, m.placeholders),
            placeholders: m.placeholders + count_binds(evs),
            ..m
        },
        PassMode::CollectBinds => PassModel { binds: m.binds + collected_binds(evs), ..m },
        PassMode::IsSafeToCachePrepared => PassModel { safe: m.safe && cacheable(evs), ..m },
    }
}

pub broadcast proof fn lemma_count_binds_concat(a: Seq<AstEvent>, b: Seq<AstEvent>)
    ensures
        #[trigger] count_binds(a + b) == count_binds(a) + count_binds(b),
    decreases b.len(),
{
    if b.len() == 0 {
        assert(a + b =~= a);
    } else {
        assert((a + b).drop_last() =~= a + b.drop_last());
        lemma_count_binds_concat(a, b.drop_last());
    }
}

pub broadcast proof fn lemma_collected_binds_concat(a: Seq<AstEvent>, b: Seq<AstEvent>)
    ensures
        #[trigger] collected_binds(a + b) == collected_binds(a) + collected_binds(b),
    decreases b.len(),
{
    if b.len() == 0 {
        assert(a + b =~= a);
        assert(collected_binds(a) + collected_binds(b) =~= collected_binds(a));
    } else {
        assert((a + b).drop_last() =~= a + b.drop_last());
        lemma_collected_binds_concat(a, b.drop_last());
        assert(collected_binds(a + b) =~= collected_binds(a) + collected_binds(b));
    }
}

pub broadcast proof fn lemma_cacheable_concat(a: Seq<AstEvent>, b: Seq<AstEvent>)
    ensures
        #[trigger] cacheable(a + b) == (cacheable(a) && cacheable(b)),
    decreases b.len(),
{
    if b.len() == 0 {
        assert(a + b =~= a);
    } else {
        assert((a + b).drop_last() =~= a + b.drop_last());
        lemma_cacheable_concat(a, b.drop_last());
    }
}

pub broadcast proof fn lemma_render_concat<QB: QueryBuilder>(
    a: Seq<AstEvent>,
    b: Seq<AstEvent>,
    start: nat,
)
    ensures
        #[trigger] render::<QB>(a + b, start) == render::<QB>(a, start) + render::<QB>(
            b,
            start + count_binds(a),
        ),
    decreases b.len(),
{
    if b.len() == 0 {
        assert(a + b =~= a);
        assert(render::<QB>(a, start) + render::<QB>(b, start + count_binds(a)) =~= render::<QB>(
            a,
            start,
        ));
    } else {
        assert((a + b).drop_last() =~= a + b.drop_last());
        lemma_render_concat::<QB>(a, b.drop_last(), start);
        lemma_count_binds_concat(a, b.drop_last());
        assert(render::<QB>(a + b, start) =~= render::<QB>(a, start) + render::<QB>(
            b,
            start + count_binds(a),
        ));
    }
}

/// Walking `a` then `b` is walking `a + b`.
pub proof fn lemma_after_concat<QB: QueryBuilder>(
    m: PassModel,
    a: Seq<AstEvent>,
    b: Seq<AstEvent>,
)
    ensures
        after::<QB>(after::<QB>(m, a), b) == after::<QB>(m, a + b),
{
    lemma_count_binds_concat(a, b);
    lemma_collected_binds_concat(a, b);
    lemma_cacheable_concat(a, b);
    lemma_render_concat::<QB>(a, b, m.placeholders);
    match m.mode {
        PassMode::ToSql => {
            assert(after::<QB>(after::<QB>(m, a), b).text =~= after::<QB>(m, a + b).text);
        },
        PassMode::CollectBinds => {
            assert(after::<QB>(after::<QB>(m, a), b).binds =~= after::<QB>(m, a + b).binds);
        },
        PassMode::IsSafeToCachePrepared => {},
    }
}

/// What one event does.
pub proof fn lemma_single_event<QB: QueryBuilder>(e: AstEvent, start: nat)
    ensures
        count_binds(seq![e]) == (match e {
            AstEvent::Bind(_) => 1nat,
            _ => 0nat,
        }),
        collected_binds(seq![e]) == (match e {
            AstEvent::Bind(v) => seq![v],
            _ => Seq::<ValueModel>::empty(),
        }),
        cacheable(seq![e]) == (e != AstEvent::UnsafeToCache),
        render::<QB>(seq![e], start) == piece::<QB>(e, start),
{
    let evs = seq![e];
    assert(evs.drop_last() =~= Seq::<AstEvent>::empty());
    assert(evs.last() == e);
    assert(count_binds(Seq::<AstEvent>::empty()) == 0);
    assert(cacheable(Seq::<AstEvent>::empty()));
    assert(collected_binds(Seq::<AstEvent>::empty()) =~= Seq::<ValueModel>::empty());
    assert(render::<QB>(Seq::<AstEvent>::empty(), start) =~= Seq::<char>::empty());
    assert(render::<QB>(evs, start) =~= piece::<QB>(e, start));
    assert(collected_binds(evs) =~= collected_binds(Seq::<AstEvent>::empty()) + match e {
        AstEvent::Bind(v) => seq![v],
        _ => Seq::<ValueModel>::empty(),
    });
}

/// Every bind event is a placeholder in the text and a value in the binds:
/// the walk produces as many placeholders as bind values, and the `k`-th
/// placeholder of the text, at the position of the `k`-th bind event, stands
/// for the `k`-th collected value. This holds of the events of any tree, on
/// every backend.
pub proof fn lemma_placeholders_match_binds<QB: QueryBuilder>(
    evs: Seq<AstEvent>,
    start: nat,
    k: nat,
)
    requires
        k < count_binds(evs),
    ensures
        count_binds(evs) == collected_binds(evs).len(),
        exists|i: int|
            #![trigger evs[i]]
            0 <= i < evs.len() && evs[i] == AstEvent::Bind(collected_binds(evs)[k as int])
                && count_binds(evs.take(i)) == k && render::<QB>(evs, start) == render::<QB>(
                evs.take(i),
                start,
            ) + QB::placeholder(start + k + 1) + render::<QB>(evs.skip(i + 1), start + k + 1),
    decreases evs.len(),
{
    lemma_bind_count_matches(evs);
    let p = evs.drop_last();
    let e = evs.last();
    lemma_bind_count_matches(p);
    assert(evs =~= p + seq![e]);
    if k < count_binds(p) {
        lemma_placeholders_match_binds::<QB>(p, start, k);
        let i = choose|i: int|
            #![trigger p[i]]
            0 <= i < p.len() && p[i] == AstEvent::Bind(collected_binds(p)[k as int])
                && count_binds(p.take(i)) == k && render::<QB>(p, start) == render::<QB>(
                p.take(i),
                start,
            ) + QB::placeholder(start + k + 1) + render::<QB>(p.skip(i + 1), start + k + 1);
        assert(evs[i] == p[i]);
        assert(evs.take(i) =~= p.take(i));
        assert(collected_binds(evs) == collected_binds(p) + collected_binds(seq![e])) by {
            lemma_collected_binds_concat(p, seq![e]);
        }
        assert(collected_binds(evs)[k as int] == collected_binds(p)[k as int]);
        let rest = p.skip(i + 1);
        assert(evs.skip(i + 1) =~= rest + seq![e]);
        assert(p =~= p.take(i) + seq![p[i]] + rest);
        lemma_count_binds_concat(p.take(i) + seq![p[i]], rest);
        lemma_count_binds_concat(p.take(i), seq![p[i]]);
        lemma_single_event::<QB>(p[i], 0);
        lemma_single_event::<QB>(e, start + count_binds(p));
        lemma_render_concat::<QB>(p, seq![e], start);
        lemma_render_concat::<QB>(rest, seq![e], start + k + 1);
        assert(render::<QB>(evs, start) =~= render::<QB>(evs.take(i), start) + QB::placeholder(
            start + k + 1,
        ) + render::<QB>(evs.skip(i + 1), start + k + 1));
    } else {
        let i = p.len() as int;
        lemma_single_event::<QB>(e, start + count_binds(p));
        lemma_count_binds_concat(p, seq![e]);
        lemma_collected_binds_concat(p, seq![e]);
        lemma_render_concat::<QB>(p, seq![e], start);
        assert(k == count_binds(p));
        match e {
            AstEvent::Bind(v) => {
                assert(collected_binds(evs)[k as int] == v);
            },
            _ => {},
        }
        assert(evs.take(i) =~= p);
        assert(evs.skip(i + 1) =~= Seq::<AstEvent>::empty());
        assert(render::<QB>(Seq::<AstEvent>::empty(), start + k + 1) =~= Seq::<char>::empty());
        assert(render::<QB>(evs, start) =~= render::<QB>(evs.take(i), start) + QB::placeholder(
            start + k + 1,
        ) + render::<QB>(evs.skip(i + 1), start + k + 1));
        assert(evs[i] == e);
    }
}

/// There are as many bind values as bind events.
pub proof fn lemma_bind_count_matches(evs: Seq<AstEvent>)
    ensures
        count_binds(evs) == collected_binds(evs).len(),
    decreases evs.len(),
{
    if evs.len() > 0 {
        lemma_bind_count_matches(evs.drop_last());
    }
}

/// A pass over one tree: accumulates text through a query builder, bind
/// values, or the cache-safety verdict, according to its mode.
pub struct AstPass<QB> {
    mode: PassMode,
    builder: QB,
    binds: Vec<SqlValue>,
    safe: bool,
}

impl<QB: QueryBuilder> AstPass<QB> {
    pub closed spec fn model(&self) -> PassModel {
        PassModel {
            mode: self.mode,
            text: self.builder.text(),
            placeholders: self.builder.binds_pushed(),
            binds: self.binds@.map_values(|v: SqlValue| v@),
            safe: self.safe,
        }
    }

    pub closed spec fn builder_spec(&self) -> QB {
        self.builder
    }

    /// A pass that renders text into `builder`.
    pub fn to_sql(builder: QB) -> (r: Self)
        ensures
            r.model().mode == PassMode::ToSql,
            r.builder_spec() == builder,
            r.model().text == builder.text(),
            r.model().placeholders == builder.binds_pushed(),
            r.model().binds.len() == 0,
            r.model().safe,
    {
        let r = AstPass { mode: PassMode::ToSql, builder, binds: Vec::new(), safe: true };
        assert(r.model().binds =~= Seq::<ValueModel>::empty());
        r
    }

    /// A pass that collects bind values.
    pub fn collect_binds() -> (r: Self)
        ensures
            r.model().mode == PassMode::CollectBinds,
            r.model().placeholders == 0,
            r.model().binds.len() == 0,
            r.model().safe,
    {
        let r = AstPass {
            mode: PassMode::CollectBinds,
            builder: QB::empty(),
            binds: Vec::new(),
            safe: true,
        };
        assert(r.model().binds =~= Seq::<ValueModel>::empty());
        r
    }

    /// A pass that decides whether the statement text may be cached.
    pub fn is_safe_to_cache_prepared() -> (r: Self)
        ensures
            r.model().mode == PassMode::IsSafeToCachePrepared,
            r.model().placeholders == 0,
            r.model().binds.len() == 0,
            r.model().safe,
    {
        let r = AstPass {
            mode: PassMode::IsSafeToCachePrepared,
            builder: QB::empty(),
            binds: Vec::new(),
            safe: true,
        };
        assert(r.model().binds =~= Seq::<ValueModel>::empty());
        r
    }

    pub fn into_builder(self) -> (r: QB)
        ensures
            r.text() == self.model().text,
            r.binds_pushed() == self.model().placeholders,
    {
        self.builder
    }

    pub fn into_binds(self) -> (r: Vec<SqlValue>)
        ensures
            r@.map_values(|v: SqlValue| v@) == self.model().binds,
    {
        self.binds
    }

    pub fn is_safe(&self) -> (r: bool)
        ensures
            r == self.model().safe,
    {
        self.safe
    }

    pub fn push_sql(&mut self, sql: &str)
        ensures
            final(self).model() == after::<QB>(old(self).model(), seq![AstEvent::Sql(sql@)]),
    {
        let ghost evs = seq![AstEvent::Sql(sql@)];
        proof {
            lemma_single_event::<QB>(evs[0], old(self).model().placeholders);
            assert(evs =~= seq![evs[0]]);
        }
        if self.mode == PassMode::ToSql {
            self.builder.push_sql(sql);
            assert(self.model().text =~= after::<QB>(old(self).model(), evs).text);
        } else if self.mode == PassMode::CollectBinds {
            assert(self.model().binds =~= after::<QB>(old(self).model(), evs).binds);
        }
    }

    pub fn push_identifier(&mut self, identifier: &str)
        ensures
            final(self).model() == after::<QB>(
                old(self).model(),
                seq![AstEvent::Identifier(identifier@)],
            ),
    {
        let ghost evs = seq![AstEvent::Identifier(identifier@)];
        proof {
            lemma_single_event::<QB>(evs[0], old(self).model().placeholders);
            assert(evs =~= seq![evs[0]]);
        }
        if self.mode == PassMode::ToSql {
            self.builder.push_identifier(identifier);
            assert(self.model().text =~= after::<QB>(old(self).model(), evs).text);
        } else if self.mode == PassMode::CollectBinds {
            assert(self.model().binds =~= after::<QB>(old(self).model(), evs).binds);
        }
    }

    pub fn push_bind_param(&mut self, value: &SqlValue)
        requires
            old(self).model().placeholders < u64::MAX,
        ensures
            final(self).model() == after::<QB>(old(self).model(), seq![AstEvent::Bind(value@)]),
    {
        let ghost evs = seq![AstEvent::Bind(value@)];
        proof {
            lemma_single_event::<QB>(evs[0], old(self).model().placeholders);
            assert(evs =~= seq![evs[0]]);
        }
        if self.mode == PassMode::ToSql {
            self.builder.push_bind_param();
            assert(self.model().text =~= after::<QB>(old(self).model(), evs).text);
        } else if self.mode == PassMode::CollectBinds {
            self.binds.push(value.duplicate());
            assert(self.model().binds =~= after::<QB>(old(self).model(), evs).binds);
        }
    }

    /// Marks the text of this statement as unfit for the prepared-statement
    /// cache.
    pub fn unsafe_to_cache_prepared(&mut self)
        ensures
            final(self).model() == after::<QB>(old(self).model(), seq![AstEvent::UnsafeToCache]),
    {
        let ghost evs = seq![AstEvent::UnsafeToCache];
        proof {
            lemma_single_event::<QB>(evs[0], old(self).model().placeholders);
            assert(evs =~= seq![evs[0]]);
        }
        if self.mode == PassMode::IsSafeToCachePrepared {
            self.safe = false;
        } else if self.mode == PassMode::ToSql {
            assert(self.model().text =~= after::<QB>(old(self).model(), evs).text);
        } else {
            assert(self.model().binds =~= after::<QB>(old(self).model(), evs).binds);
        }
    }
}

/// A node that can be walked: an expression, a clause or a whole statement.
pub trait QueryFragment {
    /// What walking this node does, in order.
    spec fn events(&self) -> Seq<AstEvent>;

    fn walk_ast<QB: QueryBuilder>(&self, pass: &mut AstPass<QB>)
        requires
            old(pass).model().placeholders + count_binds(self.events()) < u64::MAX,
        ensures
            final(pass).model() == after::<QB>(old(pass).model(), self.events()),
    ;
}

/// Renders `node` into `out`.
pub fn to_sql<QB: QueryBuilder, T: QueryFragment>(node: &T, out: &mut QB)
    requires
        old(out).binds_pushed() + count_binds(node.events()) < u64::MAX,
    ensures
        final(out).text() == old(out).text() + render::<QB>(node.events(), old(out).binds_pushed()),
        final(out).binds_pushed() == old(out).binds_pushed() + count_binds(node.events()),
{
    let mut builder = QB::empty();
    core::mem::swap(out, &mut builder);
    let mut pass = AstPass::to_sql(builder);
    node.walk_ast(&mut pass);
    let mut done = pass.into_builder();
    core::mem::swap(out, &mut done);
}

/// The bind values of `node`, in the order of its placeholders.
pub fn collect_binds<QB: QueryBuilder, T: QueryFragment>(node: &T) -> (r: Vec<SqlValue>)
    requires
        count_binds(node.events()) < u64::MAX,
    ensures
        r@.map_values(|v: SqlValue| v@) == collected_binds(node.events()),
{
    let mut pass = AstPass::<QB>::collect_binds();
    node.walk_ast(&mut pass);
    let r = pass.into_binds();
    proof {
        assert(Seq::<ValueModel>::empty() + collected_binds(node.events()) =~= collected_binds(
            node.events(),
        ));
    }
    r
}

/// Whether a statement prepared from `node`'s text may be reused.
pub fn is_safe_to_cache_prepared<QB: QueryBuilder, T: QueryFragment>(node: &T) -> (r: bool)
    requires
        count_binds(node.events()) < u64::MAX,
    ensures
        r == cacheable(node.events()),
{
    let mut pass = AstPass::<QB>::is_safe_to_cache_prepared();
    node.walk_ast(&mut pass);
    pass.is_safe()
}

/// The SQL text of `query` for the backend of `QB`, placeholders in place of
/// the bound values.
pub fn debug_sql<QB: QueryBuilder, T: QueryFragment>(query: &T) -> (r: String)
    requires
        count_binds(query.events()) < u64::MAX,
    ensures
        r@ == render::<QB>(query.events(), 0),
{
    let mut builder = QB::empty();
    to_sql(query, &mut builder);
    assert(builder.text() =~= render::<QB>(query.events(), 0));
    builder.finish()
}

/// A boxed fragment walks as its content.
impl<T: QueryFragment> QueryFragment for Box<T> {
    open spec fn events(&self) -> Seq<AstEvent> {
        (**self).events()
    }

    fn walk_ast<QB: QueryBuilder>(&self, pass: &mut AstPass<QB>) {
        (**self).walk_ast(pass);
    }
}

/// A borrowed fragment walks as the fragment.
impl<'a, T: QueryFragment> QueryFragment for &'a T {
    open spec fn events(&self) -> Seq<AstEvent> {
        (**self).events()
    }

    fn walk_ast<QB: QueryBuilder>(&self, pass: &mut AstPass<QB>) {
        (**self).walk_ast(pass);
    }
}

/// The unit fragment does nothing.
impl QueryFragment for () {
    open spec fn events(&self) -> Seq<AstEvent> {
        seq![]
    }

    fn walk_ast<QB: QueryBuilder>(&self, pass: &mut AstPass<QB>) {
        assert(after::<QB>(pass.model(), seq![]) =~= pass.model()) by {
            assert(render::<QB>(seq![], pass.model().placeholders) =~= Seq::<char>::empty());
            assert(pass.model().text + Seq::<char>::empty() =~= pass.model().text);
            assert(collected_binds(seq![]) =~= Seq::empty());
            assert(pass.model().binds + Seq::empty() =~= pass.model().binds);
            assert(cacheable(seq![]));
        }
    }
}

/// For every tree and backend: rendering a node produces as many
/// placeholders as collecting its binds produces values, and the `k`-th
/// placeholder stands at the `k`-th bind event, for the `k`-th value.
pub proof fn lemma_fragment_placeholders_match_binds<QB: QueryBuilder, T: QueryFragment>(
    node: &T,
    k: nat,
)
    requires
        k < count_binds(node.events()),
    ensures
        count_binds(node.events()) == collected_binds(node.events()).len(),
        exists|i: int|
            #![trigger node.events()[i]]
            0 <= i < node.events().len() && node.events()[i] == AstEvent::Bind(
                collected_binds(node.events())[k as int],
            ) && count_binds(node.events().take(i)) == k && render::<QB>(node.events(), 0)
                == render::<QB>(node.events().take(i), 0) + QB::placeholder(k + 1) + render::<QB>(
                node.events().skip(i + 1),
                k + 1,
            ),
{
    lemma_placeholders_match_binds::<QB>(node.events(), 0, k);
}

} // verus!
