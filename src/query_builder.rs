//! Dialect-specific SQL text accumulators.
use vstd::prelude::*;
use vstd::string::*;

verus! {

/// The text of a quoted identifier: every quote character doubled, the whole
/// wrapped in the quote character.
pub open spec fn quote_identifier(q: char, s: Seq<char>) -> Seq<char> {
    seq![q] + escape_identifier(q, s) + seq![q]
}

/// `s` with every occurrence of `q` doubled.
pub open spec fn escape_identifier(q: char, s: Seq<char>) -> Seq<char>
    decreases s.len(),
{
    if s.len() == 0 {
        seq![]
    } else {
        escape_identifier(q, s.drop_last()) + escape_char(q, s.last())
    }
}

pub open spec fn escape_char(q: char, c: char) -> Seq<char> {
    if c == q {
        seq![q, q]
    } else {
        seq![c]
    }
}

/// Number of occurrences of `c` in `s`.
pub open spec fn count_char(c: char, s: Seq<char>) -> nat
    decreases s.len(),
{
    if s.len() == 0 {
        0
    } else {
        count_char(c, s.drop_last()) + if s.last() == c {
            1nat
        } else {
            0nat
        }
    }
}

/// Decimal digits of `n`, most significant first.
pub open spec fn decimal(n: nat) -> Seq<char>
    decreases n,
{
    if n < 10 {
        seq![digit_char(n)]
    } else {
        decimal(n / 10) + seq![digit_char(n % 10)]
    }
}

pub open spec fn digit_char(d: nat) -> char {
    if d == 0 {
        '0'
    } else if d == 1 {
        '1'
    } else if d == 2 {
        '2'
    } else if d == 3 {
        '3'
    } else if d == 4 {
        '4'
    } else if d == 5 {
        '5'
    } else if d == 6 {
        '6'
    } else if d == 7 {
        '7'
    } else if d == 8 {
        '8'
    } else {
        '9'
    }
}

/// Text of the `n`-th positional placeholder (`$n`).
pub open spec fn positional_placeholder(n: nat) -> Seq<char> {
    seq!['$'] + decimal(n)
}

/// The text accumulator of one backend: identifier quoting and bind-parameter
/// placeholder syntax.
pub trait QueryBuilder: Sized {
    /// The text accumulated so far.
    spec fn text(&self) -> Seq<char>;

    /// How many placeholders have been pushed so far.
    spec fn binds_pushed(&self) -> nat;

    /// The character that wraps identifiers.
    spec fn quote() -> char;

    /// The text of the `n`-th placeholder (counting from 1).
    spec fn placeholder(n: nat) -> Seq<char>;

    fn empty() -> (r: Self)
        ensures
            r.text() == Seq::<char>::empty(),
            r.binds_pushed() == 0,
    ;

    fn push_sql(&mut self, sql: &str)
        ensures
            final(self).text() == old(self).text() + sql@,
            final(self).binds_pushed() == old(self).binds_pushed(),
    ;

    fn push_identifier(&mut self, identifier: &str)
        ensures
            final(self).text() == old(self).text() + quote_identifier(Self::quote(), identifier@),
            final(self).binds_pushed() == old(self).binds_pushed(),
    ;

    fn push_bind_param(&mut self)
        requires
            old(self).binds_pushed() < u64::MAX,
        ensures
            final(self).text() == old(self).text() + Self::placeholder(
                old(self).binds_pushed() + 1,
            ),
            final(self).binds_pushed() == old(self).binds_pushed() + 1,
    ;

    fn finish(self) -> (r: String)
        ensures
            r@ == self.text(),
    ;
}

fn digit_str(d: u64) -> (r: &'static str)
    requires
        d < 10,
    ensures
        r@ == seq![digit_char(d as nat)],
{
    proof {
        reveal_strlit("0");
        reveal_strlit("1");
        reveal_strlit("2");
        reveal_strlit("3");
        reveal_strlit("4");
        reveal_strlit("5");
        reveal_strlit("6");
        reveal_strlit("7");
        reveal_strlit("8");
        reveal_strlit("9");
    }
    if d == 0 {
        "0"
    } else if d == 1 {
        "1"
    } else if d == 2 {
        "2"
    } else if d == 3 {
        "3"
    } else if d == 4 {
        "4"
    } else if d == 5 {
        "5"
    } else if d == 6 {
        "6"
    } else if d == 7 {
        "7"
    } else if d == 8 {
        "8"
    } else {
        "9"
    }
}

/// Appends the decimal digits of `n`.
pub fn push_decimal(out: &mut String, n: u64)
    ensures
        final(out)@ == old(out)@ + decimal(n as nat),
    decreases n,
{
    if n < 10 {
        out.append(digit_str(n));
    } else {
        push_decimal(out, n / 10);
        out.append(digit_str(n % 10));
        assert(final(out)@ =~= old(out)@ + decimal(n as nat));
    }
}

/// Appends `identifier` with each `quote` doubled; `quote` is the
/// one-character text `q`.
fn push_escaped(out: &mut String, identifier: &str, quote: &str, Ghost(q): Ghost<char>)
    requires
        quote@ == seq![q],
    ensures
        final(out)@ == old(out)@ + escape_identifier(q, identifier@),
{
    let n = identifier.unicode_len();
    let mut i: usize = 0;
    while i < n
        invariant
            n == identifier@.len(),
            i <= n,
            quote@ == seq![q],
            out@ == old(out)@ + escape_identifier(q, identifier@.take(i as int)),
        decreases n - i,
    {
        let c = identifier.get_char(i);
        let piece = identifier.substring_char(i, i + 1);
        assert(piece@ =~= seq![c]);
        if c == q_char(quote) {
            out.append(quote);
            out.append(quote);
        } else {
            out.append(piece);
        }
        assert(identifier@.take(i + 1).drop_last() =~= identifier@.take(i as int));
        assert(out@ =~= old(out)@ + escape_identifier(q, identifier@.take(i + 1)));
        i = i + 1;
    }
    assert(identifier@.take(n as int) =~= identifier@);
}

fn q_char(quote: &str) -> (c: char)
    requires
        quote@.len() == 1,
    ensures
        c == quote@[0],
{
    quote.get_char(0)
}

/// Appends `identifier` wrapped in `quote`, with each inner `quote` doubled.
fn push_quoted(out: &mut String, identifier: &str, quote: &str, Ghost(q): Ghost<char>)
    requires
        quote@ == seq![q],
    ensures
        final(out)@ == old(out)@ + quote_identifier(q, identifier@),
{
    out.append(quote);
    push_escaped(out, identifier, quote, Ghost(q));
    out.append(quote);
    assert(final(out)@ =~= old(out)@ + quote_identifier(q, identifier@));
}

/// Query builder of the Postgres-like backend: `"` quoting, `$1, $2, ...`
/// placeholders.
pub struct PgQueryBuilder {
    sql: String,
    bind_idx: u64,
}

impl PgQueryBuilder {
    pub fn new() -> (r: Self)
        ensures
            r.text() == Seq::<char>::empty(),
            r.binds_pushed() == 0,
    {
        PgQueryBuilder { sql: String::new(), bind_idx: 0 }
    }
}

impl QueryBuilder for PgQueryBuilder {
    closed spec fn text(&self) -> Seq<char> {
        self.sql@
    }

    closed spec fn binds_pushed(&self) -> nat {
        self.bind_idx as nat
    }

    open spec fn quote() -> char {
        '"'
    }

    open spec fn placeholder(n: nat) -> Seq<char> {
        positional_placeholder(n)
    }

    fn empty() -> (r: Self) {
        Self::new()
    }

    fn push_sql(&mut self, sql: &str) {
        self.sql.append(sql);
    }

    fn push_identifier(&mut self, identifier: &str) {
        proof {
            reveal_strlit("\"");
        }
        let quote = "\"";
        assert(quote@ =~= seq!['"']);
        push_quoted(&mut self.sql, identifier, quote, Ghost('"'));
    }

    fn push_bind_param(&mut self) {
        proof {
            reveal_strlit("$");
        }
        self.bind_idx = self.bind_idx + 1;
        self.sql.append("$");
        push_decimal(&mut self.sql, self.bind_idx);
        assert(self.sql@ =~= old(self).sql@ + positional_placeholder(self.bind_idx as nat));
    }

    fn finish(self) -> (r: String) {
        self.sql
    }
}

/// Query builder of the MySQL-like backend: backtick quoting, `?` placeholders.
pub struct MysqlQueryBuilder {
    pub sql: String,
    bind_count: u64,
}

impl MysqlQueryBuilder {
    pub fn new() -> (r: Self)
        ensures
            r.text() == Seq::<char>::empty(),
            r.binds_pushed() == 0,
    {
        MysqlQueryBuilder { sql: String::new(), bind_count: 0 }
    }
}

impl QueryBuilder for MysqlQueryBuilder {
    closed spec fn text(&self) -> Seq<char> {
        self.sql@
    }

    closed spec fn binds_pushed(&self) -> nat {
        self.bind_count as nat
    }

    open spec fn quote() -> char {
        '`'
    }

    open spec fn placeholder(n: nat) -> Seq<char> {
        seq!['?']
    }

    fn empty() -> (r: Self) {
        Self::new()
    }

    fn push_sql(&mut self, sql: &str) {
        self.sql.append(sql);
    }

    fn push_identifier(&mut self, identifier: &str) {
        proof {
            reveal_strlit("`");
        }
        let quote = "`";
        assert(quote@ =~= seq!['`']);
        push_quoted(&mut self.sql, identifier, quote, Ghost('`'));
    }

    fn push_bind_param(&mut self) {
        proof {
            reveal_strlit("?");
        }
        self.bind_count = self.bind_count + 1;
        self.sql.append("?");
    }

    fn finish(self) -> (r: String) {
        self.sql
    }
}

/// Query builder of the embedded engine: backtick quoting, `?` placeholders.
pub struct SqliteQueryBuilder {
    sql: String,
    bind_count: u64,
}

impl SqliteQueryBuilder {
    pub fn new() -> (r: Self)
        ensures
            r.text() == Seq::<char>::empty(),
            r.binds_pushed() == 0,
    {
        SqliteQueryBuilder { sql: String::new(), bind_count: 0 }
    }
}

impl QueryBuilder for SqliteQueryBuilder {
    closed spec fn text(&self) -> Seq<char> {
        self.sql@
    }

    closed spec fn binds_pushed(&self) -> nat {
        self.bind_count as nat
    }

    open spec fn quote() -> char {
        '`'
    }

    open spec fn placeholder(n: nat) -> Seq<char> {
        seq!['?']
    }

    fn empty() -> (r: Self) {
        Self::new()
    }

    fn push_sql(&mut self, sql: &str) {
        self.sql.append(sql);
    }

    fn push_identifier(&mut self, identifier: &str) {
        proof {
            reveal_strlit("`");
        }
        let quote = "`";
        assert(quote@ =~= seq!['`']);
        push_quoted(&mut self.sql, identifier, quote, Ghost('`'));
    }

    fn push_bind_param(&mut self) {
        proof {
            reveal_strlit("?");
        }
        self.bind_count = self.bind_count + 1;
        self.sql.append("?");
    }

    fn finish(self) -> (r: String) {
        self.sql
    }
}

pub open spec fn default_keyword() -> Seq<char> {
    seq!['D', 'E', 'F', 'A', 'U', 'L', 'T']
}

/// The positional placeholder `$idx`, advancing `idx`.
pub fn positional_bind_param(idx: &mut usize) -> (r: String)
    requires
        *old(idx) < usize::MAX,
    ensures
        r@ == positional_placeholder(*old(idx) as nat),
        *final(idx) == *old(idx) + 1,
{
    proof {
        reveal_strlit("$");
    }
    let mut r = String::from_str("$");
    push_decimal(&mut r, *idx as u64);
    *idx = *idx + 1;
    assert(r@ =~= positional_placeholder(*old(idx) as nat));
    r
}

/// A value inserted as a positional parameter of SQL type `ST`.
pub trait AsBindParam<ST> {
    /// The text standing for the value in an INSERT: a placeholder, or
    /// `DEFAULT` for a missing optional value.
    spec fn insert_text(&self, idx: nat) -> Seq<char>;

    /// Whether the value takes a placeholder in an INSERT.
    spec fn takes_param(&self) -> bool;

    fn as_bind_param(&self, idx: &mut usize) -> (r: String)
        requires
            *old(idx) < usize::MAX,
        ensures
            r@ == positional_placeholder(*old(idx) as nat),
            *final(idx) == *old(idx) + 1,
    {
        positional_bind_param(idx)
    }

    fn as_bind_param_for_insert(&self, idx: &mut usize) -> (r: String)
        requires
            *old(idx) < usize::MAX,
        ensures
            r@ == self.insert_text(*old(idx) as nat),
            *final(idx) == *old(idx) + if self.takes_param() {
                1nat
            } else {
                0nat
            },
    ;
}

impl AsBindParam<crate::sql_types::Integer> for i32 {
    open spec fn insert_text(&self, idx: nat) -> Seq<char> {
        positional_placeholder(idx)
    }

    open spec fn takes_param(&self) -> bool {
        true
    }

    fn as_bind_param_for_insert(&self, idx: &mut usize) -> (r: String) {
        self.as_bind_param(idx)
    }
}

impl AsBindParam<crate::sql_types::BigInt> for i64 {
    open spec fn insert_text(&self, idx: nat) -> Seq<char> {
        positional_placeholder(idx)
    }

    open spec fn takes_param(&self) -> bool {
        true
    }

    fn as_bind_param_for_insert(&self, idx: &mut usize) -> (r: String) {
        self.as_bind_param(idx)
    }
}

impl AsBindParam<crate::sql_types::Text> for String {
    open spec fn insert_text(&self, idx: nat) -> Seq<char> {
        positional_placeholder(idx)
    }

    open spec fn takes_param(&self) -> bool {
        true
    }

    fn as_bind_param_for_insert(&self, idx: &mut usize) -> (r: String) {
        self.as_bind_param(idx)
    }
}

impl<ST, T: AsBindParam<ST>> AsBindParam<crate::sql_types::Nullable<ST>> for Option<T> {
    open spec fn insert_text(&self, idx: nat) -> Seq<char> {
        match self {
            Some(v) => v.insert_text(idx),
            None => default_keyword(),
        }
    }

    open spec fn takes_param(&self) -> bool {
        match self {
            Some(v) => v.takes_param(),
            None => false,
        }
    }

    fn as_bind_param_for_insert(&self, idx: &mut usize) -> (r: String) {
        match self {
            Some(value) => value.as_bind_param_for_insert(idx),
            None => {
                proof {
                    reveal_strlit("DEFAULT");
                }
                let r = String::from_str("DEFAULT");
                assert(r@ =~= default_keyword());
                r
            },
        }
    }
}

/// A quoted identifier is wrapped in the quote character, and inside it
/// every quote character of the identifier appears doubled: the inner text
/// is one character longer per quote, holds twice as many quotes, and is the
/// identifier itself when it has none.
pub proof fn lemma_quote_identifier(q: char, s: Seq<char>)
    ensures
        quote_identifier(q, s)[0] == q,
        quote_identifier(q, s).last() == q,
        quote_identifier(q, s).len() == s.len() + count_char(q, s) + 2,
        quote_identifier(q, s).subrange(1, quote_identifier(q, s).len() - 1) == escape_identifier(
            q,
            s,
        ),
        escape_identifier(q, s).len() == s.len() + count_char(q, s),
        count_char(q, escape_identifier(q, s)) == 2 * count_char(q, s),
        count_char(q, s) == 0 ==> escape_identifier(q, s) == s,
    decreases s.len(),
{
    lemma_escape_counts(q, s);
    let e = escape_identifier(q, s);
    assert(quote_identifier(q, s).subrange(1, quote_identifier(q, s).len() - 1) =~= e);
}

proof fn lemma_count_concat(c: char, a: Seq<char>, b: Seq<char>)
    ensures
        count_char(c, a + b) == count_char(c, a) + count_char(c, b),
    decreases b.len(),
{
    if b.len() == 0 {
        assert(a + b =~= a);
    } else {
        assert((a + b).drop_last() =~= a + b.drop_last());
        lemma_count_concat(c, a, b.drop_last());
    }
}

proof fn lemma_escape_counts(q: char, s: Seq<char>)
    ensures
        escape_identifier(q, s).len() == s.len() + count_char(q, s),
        count_char(q, escape_identifier(q, s)) == 2 * count_char(q, s),
        count_char(q, s) == 0 ==> escape_identifier(q, s) == s,
    decreases s.len(),
{
    if s.len() > 0 {
        let p = s.drop_last();
        let c = s.last();
        lemma_escape_counts(q, p);
        lemma_count_concat(q, escape_identifier(q, p), escape_char(q, c));
        let piece = escape_char(q, c);
        reveal_with_fuel(count_char, 3);
        if c == q {
            assert(piece.drop_last() =~= seq![q]);
            assert(seq![q].drop_last() =~= Seq::<char>::empty());
            assert(count_char(q, piece) == 2);
        } else {
            assert(piece.drop_last() =~= Seq::<char>::empty());
            assert(count_char(q, piece) == 0);
        }
        if count_char(q, s) == 0 {
            assert(s =~= p + seq![c]);
        }
    }
}

} // verus!
