//! The embedded engine's statement lifecycle. The engine keeps raw pointers
//! to the buffers bound to a prepared statement, so every bound index is
//! rebound to NULL before those buffers are released: after a failed bind,
//! when the statement is reset for reuse, and before it is finalized. The
//! decisions live here as a state machine; the caller performs each native
//! call it names and reports the outcome.
use crate::result::{DatabaseErrorKind, Error, QueryResult};
use crate::sql_types::SqliteType;
use vstd::prelude::*;

verus! {

/// A value to bind: owned buffers are kept by the statement until they are
/// unbound, borrowed ones must outlive it.
pub enum SqliteBindValue<'a> {
    Null,
    BorrowedString(&'a str),
    String(String),
    BorrowedBinary(&'a [u8]),
    Binary(Vec<u8>),
    I32(i32),
    I64(i64),
}

/// The engine keeps a pointer to this value's buffer while it is bound.
pub open spec fn holds_buffer(v: SqliteBindValue) -> bool {
    match v {
        SqliteBindValue::BorrowedString(_) | SqliteBindValue::String(_)
        | SqliteBindValue::BorrowedBinary(_) | SqliteBindValue::Binary(_) => true,
        _ => false,
    }
}

/// A value may be bound to a placeholder of type `t`.
pub open spec fn bind_fits(t: SqliteType, v: SqliteBindValue) -> bool {
    match v {
        SqliteBindValue::Null => true,
        SqliteBindValue::BorrowedBinary(_) | SqliteBindValue::Binary(_) => t == SqliteType::Binary,
        SqliteBindValue::BorrowedString(_) | SqliteBindValue::String(_) => t == SqliteType::Text,
        SqliteBindValue::I32(_) => t == SqliteType::Integer,
        SqliteBindValue::I64(_) => t == SqliteType::Long,
    }
}

impl<'a> SqliteBindValue<'a> {
    pub fn holds_buffer(&self) -> (r: bool)
        ensures
            r == holds_buffer(*self),
    {
        match self {
            SqliteBindValue::BorrowedString(_) | SqliteBindValue::String(_)
            | SqliteBindValue::BorrowedBinary(_) | SqliteBindValue::Binary(_) => true,
            _ => false,
        }
    }

    pub fn fits(&self, t: SqliteType) -> (r: bool)
        ensures
            r == bind_fits(t, *self),
    {
        match self {
            SqliteBindValue::Null => true,
            SqliteBindValue::BorrowedBinary(_) | SqliteBindValue::Binary(_) => t
                == SqliteType::Binary,
            SqliteBindValue::BorrowedString(_) | SqliteBindValue::String(_) => t
                == SqliteType::Text,
            SqliteBindValue::I32(_) => t == SqliteType::Integer,
            SqliteBindValue::I64(_) => t == SqliteType::Long,
        }
    }
}

/// Where a statement is in its bind cycle.
#[derive(PartialEq, Eq, Structural, Clone, Copy, Debug)]
pub enum Phase {
    /// Binding the values in order.
    Binding,
    /// Every value is bound; the statement may be stepped.
    Bound,
    /// Resetting the statement, then rebinding the bound indices to NULL.
    /// The engine refuses binds on a statement that was stepped and not
    /// reset, so the reset comes first.
    Unbinding,
    /// No index refers to a buffer of the statement any more.
    Unbound,
}

/// The native call the statement asks for next.
#[derive(PartialEq, Eq, Structural, Clone, Copy, Debug)]
pub enum NativeCall {
    /// Bind the value at `position` to the 1-based `index`.
    Bind { index: i32, position: usize },
    /// The value at `position` does not fit its type: make no call and report
    /// a failed bind.
    Reject { position: usize },
    /// Reset the statement before its indices are unbound.
    Reset,
    /// Rebind `index` to NULL.
    BindNull { index: i32 },
    /// Nothing to do in this phase.
    Idle,
}

/// The mathematical state of a bind cycle.
pub struct BindModel {
    pub len: nat,
    pub bound: nat,
    pub unbound: nat,
    pub phase: Phase,
    pub failed: bool,
    pub reset: bool,
}

pub open spec fn next_call_spec(m: BindModel, fits: spec_fn(nat) -> bool) -> NativeCall {
    match m.phase {
        Phase::Binding => if m.bound < m.len {
            if fits(m.bound) {
                NativeCall::Bind { index: (m.bound + 1) as i32, position: m.bound as usize }
            } else {
                NativeCall::Reject { position: m.bound as usize }
            }
        } else {
            NativeCall::Idle
        },
        Phase::Unbinding => if !m.reset {
            NativeCall::Reset
        } else if m.unbound < m.bound {
            NativeCall::BindNull { index: (m.unbound + 1) as i32 }
        } else {
            NativeCall::Idle
        },
        _ => NativeCall::Idle,
    }
}

/// The state after the bind at position `m.bound` succeeded or failed.
pub open spec fn after_bind(m: BindModel, ok: bool) -> BindModel {
    if ok {
        BindModel {
            bound: m.bound + 1,
            phase: if m.bound + 1 == m.len {
                Phase::Bound
            } else {
                Phase::Binding
            },
            ..m
        }
    } else {
        BindModel {
            phase: if m.bound == 0 {
                Phase::Unbound
            } else {
                Phase::Unbinding
            },
            failed: true,
            reset: true,
            unbound: 0,
            ..m
        }
    }
}

/// The state after the requested reset or NULL rebind was made.
pub open spec fn after_unbind_step(m: BindModel) -> BindModel {
    if !m.reset {
        BindModel { reset: true, phase: if m.bound == 0 { Phase::Unbound } else { m.phase }, ..m }
    } else {
        BindModel {
            unbound: m.unbound + 1,
            phase: if m.unbound + 1 == m.bound {
                Phase::Unbound
            } else {
                Phase::Unbinding
            },
            ..m
        }
    }
}

/// The NULL rebinds made from `m` until nothing is left to unbind.
pub open spec fn unbind_trace(m: BindModel) -> Seq<NativeCall>
    decreases m.bound - m.unbound, if m.reset {
        0nat
    } else {
        1nat
    },
{
    if m.phase == Phase::Unbinding && m.unbound < m.bound {
        if !m.reset {
            unbind_trace(after_unbind_step(m))
        } else {
            seq![NativeCall::BindNull { index: (m.unbound + 1) as i32 }] + unbind_trace(
                after_unbind_step(m),
            )
        }
    } else {
        seq![]
    }
}

/// NULL rebinds of the indices `from + 1 ..= to`, in order.
pub open spec fn nulls_between(from: nat, to: nat) -> Seq<NativeCall>
    decreases to - from,
{
    if from < to {
        seq![NativeCall::BindNull { index: (from + 1) as i32 }] + nulls_between(from + 1, to)
    } else {
        seq![]
    }
}

proof fn lemma_unbind_trace_from(m: BindModel)
    requires
        m.phase == Phase::Unbinding,
        m.reset,
        m.unbound <= m.bound,
    ensures
        unbind_trace(m) == nulls_between(m.unbound, m.bound),
    decreases m.bound - m.unbound,
{
    if m.unbound < m.bound {
        let n = after_unbind_step(m);
        if n.phase == Phase::Unbinding {
            lemma_unbind_trace_from(n);
        } else {
            assert(n.unbound == n.bound);
            assert(unbind_trace(n) == Seq::<NativeCall>::empty());
            assert(nulls_between(n.unbound, n.bound) == Seq::<NativeCall>::empty());
        }
        assert(unbind_trace(m) == seq![NativeCall::BindNull { index: (m.unbound + 1) as i32 }]
            + unbind_trace(n));
    }
}

/// After a bind fails at any position, every index bound before it, and
/// only those, is rebound to NULL, lowest first, before the statement can
/// release its buffers; a statement whose binds all succeeded rebinds every
/// index after its reset.
pub proof fn lemma_failed_bind_unbinds_earlier(m: BindModel)
    requires
        m.phase == Phase::Binding,
        m.bound < m.len,
    ensures
        m.bound > 0 ==> after_bind(m, false).phase == Phase::Unbinding,
        unbind_trace(after_bind(m, false)) == nulls_between(0, m.bound),
        forall|i: int|
            0 <= i < m.bound ==> nulls_between(0, m.bound)[i] == (NativeCall::BindNull {
                index: (i + 1) as i32,
            }),
        nulls_between(0, m.bound).len() == m.bound,
{
    if m.bound > 0 {
        lemma_unbind_trace_from(after_bind(m, false));
    }
    lemma_nulls_between(0, m.bound);
}

/// The rebinds after a complete bind cycle cover every bound index.
pub proof fn lemma_release_unbinds_all(m: BindModel)
    requires
        m.phase == Phase::Bound,
        m.bound == m.len,
        m.bound > 0,
    ensures
        unbind_trace(BindModel { phase: Phase::Unbinding, reset: false, unbound: 0, ..m })
            == nulls_between(0, m.len),
{
    let u = BindModel { phase: Phase::Unbinding, reset: false, unbound: 0, ..m };
    lemma_unbind_trace_from(after_unbind_step(u));
}

proof fn lemma_nulls_between(from: nat, to: nat)
    requires
        from <= to,
    ensures
        nulls_between(from, to).len() == to - from,
        forall|i: int|
            0 <= i < to - from ==> nulls_between(from, to)[i] == (NativeCall::BindNull {
                index: (from + i + 1) as i32,
            }),
    decreases to - from,
{
    if from < to {
        lemma_nulls_between(from + 1, to);
        let rest = nulls_between(from + 1, to);
        let head = seq![NativeCall::BindNull { index: (from + 1) as i32 }];
        assert forall|i: int| 0 <= i < to - from implies nulls_between(from, to)[i] == (
        NativeCall::BindNull { index: (from + i + 1) as i32 }) by {
            if i > 0 {
                assert(nulls_between(from, to)[i] == rest[i - 1]);
            }
        }
    }
}

/// The 1-based indices among the first `n` values whose buffers the engine
/// keeps while they are bound.
pub open spec fn buffer_indices(values: Seq<(SqliteBindValue, SqliteType)>, n: nat) -> Seq<i32>
    decreases n,
{
    if n == 0 {
        seq![]
    } else {
        buffer_indices(values, (n - 1) as nat) + if holds_buffer(values[n - 1].0) {
            seq![n as i32]
        } else {
            seq![]
        }
    }
}

/// A prepared statement's bind cycle: the values bound to it, which of them
/// are bound, and which indices have been rebound to NULL.
pub struct BoundStatement<'a> {
    binds: Vec<(SqliteBindValue<'a>, SqliteType)>,
    bound: usize,
    unbound: usize,
    phase: Phase,
    failed: bool,
    reset: bool,
    binds_to_free: Vec<i32>,
}

impl<'a> BoundStatement<'a> {
    pub closed spec fn model(&self) -> BindModel {
        BindModel {
            len: self.binds@.len(),
            bound: self.bound as nat,
            unbound: self.unbound as nat,
            phase: self.phase,
            failed: self.failed,
            reset: self.reset,
        }
    }

    pub closed spec fn values(&self) -> Seq<(SqliteBindValue<'a>, SqliteType)> {
        self.binds@
    }

    /// Whether the value at each position fits its type.
    pub open spec fn fits(&self) -> spec_fn(nat) -> bool {
        |i: nat| bind_fits(self.values()[i as int].1, self.values()[i as int].0)
    }

    /// The indices whose buffers are kept until they are unbound.
    pub closed spec fn keep_alive(&self) -> Seq<i32> {
        self.binds_to_free@
    }

    pub closed spec fn wf(&self) -> bool {
        &&& self.bound <= self.binds@.len() < i32::MAX
        &&& self.unbound <= self.bound
        &&& self.binds_to_free@ == buffer_indices(self.binds@, self.bound as nat)
        &&& self.phase == Phase::Binding ==> self.bound < self.binds@.len()
        &&& self.phase == Phase::Bound ==> self.bound == self.binds@.len()
        &&& self.phase == Phase::Unbinding ==> (self.reset ==> self.unbound < self.bound)
        &&& self.phase == Phase::Unbinding ==> (!self.reset ==> self.unbound == 0)
    }

    /// Starts the bind cycle of `binds`, each value with its placeholder's
    /// type, in placeholder order.
    pub fn bind(binds: Vec<(SqliteBindValue<'a>, SqliteType)>) -> (r: Self)
        requires
            binds@.len() < i32::MAX,
        ensures
            r.wf(),
            r.values() == binds@,
            r.model() == (BindModel {
                len: binds@.len(),
                bound: 0,
                unbound: 0,
                phase: if binds@.len() == 0 {
                    Phase::Bound
                } else {
                    Phase::Binding
                },
                failed: false,
                reset: false,
            }),
            r.keep_alive() == buffer_indices(r.values(), 0),
            r.keep_alive().len() == 0,
    {
        let phase = if binds.len() == 0 {
            Phase::Bound
        } else {
            Phase::Binding
        };
        BoundStatement {
            binds,
            bound: 0,
            unbound: 0,
            phase,
            failed: false,
            reset: false,
            binds_to_free: Vec::new(),
        }
    }

    /// The native call to make next.
    pub fn next_call(&self) -> (r: NativeCall)
        requires
            self.wf(),
        ensures
            r == next_call_spec(self.model(), self.fits()),
    {
        match self.phase {
            Phase::Binding => {
                let (value, tpe) = &self.binds[self.bound];
                if value.fits(*tpe) {
                    NativeCall::Bind { index: (self.bound + 1) as i32, position: self.bound }
                } else {
                    NativeCall::Reject { position: self.bound }
                }
            },
            Phase::Unbinding => {
                if !self.reset {
                    NativeCall::Reset
                } else {
                    NativeCall::BindNull { index: (self.unbound + 1) as i32 }
                }
            },
            _ => NativeCall::Idle,
        }
    }

    /// The value at `position`, for the native bind call.
    pub fn value(&self, position: usize) -> (r: &SqliteBindValue<'a>)
        requires
            position < self.values().len(),
        ensures
            *r == self.values()[position as int].0,
    {
        &self.binds[position].0
    }

    /// The type of the placeholder at `position`.
    pub fn value_type(&self, position: usize) -> (r: SqliteType)
        requires
            position < self.values().len(),
        ensures
            r == self.values()[position as int].1,
    {
        self.binds[position].1
    }

    /// Reports the outcome of the requested bind (a rejected value counts as
    /// a failure).
    pub fn record_bind(&mut self, ok: bool)
        requires
            old(self).wf(),
            old(self).model().phase == Phase::Binding,
        ensures
            final(self).keep_alive() == buffer_indices(final(self).values(), final(self).model().bound),
            final(self).wf(),
            final(self).values() == old(self).values(),
            final(self).model() == after_bind(old(self).model(), ok),
    {
        if ok {
            let ghost before = self.binds_to_free@;
            if self.binds[self.bound].0.holds_buffer() {
                self.binds_to_free.push((self.bound + 1) as i32);
            }
            self.bound = self.bound + 1;
            proof {
                assert(self.binds_to_free@ =~= buffer_indices(self.binds@, self.bound as nat));
            }
            if self.bound == self.binds.len() {
                self.phase = Phase::Bound;
            }
        } else {
            self.phase = Phase::Unbinding;
            self.failed = true;
            self.unbound = 0;
            if self.bound == 0 {
                self.phase = Phase::Unbound;
            }
            self.reset = true;
        }
    }

    /// Starts releasing a statement whose values are all bound, after it was
    /// run or before it is reused or dropped: reset, then every index to NULL.
    pub fn start_release(&mut self)
        requires
            old(self).wf(),
            old(self).model().phase == Phase::Bound,
        ensures
            final(self).keep_alive() == buffer_indices(final(self).values(), final(self).model().bound),
            final(self).wf(),
            final(self).values() == old(self).values(),
            final(self).model() == (BindModel {
                phase: Phase::Unbinding,
                reset: false,
                unbound: 0,
                ..old(self).model()
            }),
    {
        self.phase = Phase::Unbinding;
        self.reset = false;
        self.unbound = 0;
    }

    /// Reports that the requested reset or NULL rebind was made.
    pub fn record_unbind(&mut self)
        requires
            old(self).wf(),
            old(self).model().phase == Phase::Unbinding,
        ensures
            final(self).keep_alive() == buffer_indices(final(self).values(), final(self).model().bound),
            final(self).wf(),
            final(self).values() == old(self).values(),
            final(self).model() == after_unbind_step(old(self).model()),
    {
        if !self.reset {
            self.reset = true;
            if self.bound == 0 {
                self.phase = Phase::Unbound;
            }
        } else {
            self.unbound = self.unbound + 1;
            if self.unbound == self.bound {
                self.phase = Phase::Unbound;
            }
        }
    }

    pub fn phase(&self) -> (r: Phase)
        ensures
            r == self.model().phase,
    {
        self.phase
    }

    /// Whether a bind of this cycle failed.
    pub fn failed(&self) -> (r: bool)
        ensures
            r == self.model().failed,
    {
        self.failed
    }

    /// The indices whose buffers the statement keeps until they are unbound.
    pub fn binds_to_free(&self) -> (r: &Vec<i32>)
        ensures
            r@ == self.keep_alive(),
    {
        &self.binds_to_free
    }

    /// Hands back the values once no index refers to them any more.
    pub fn release(self) -> (r: Vec<(SqliteBindValue<'a>, SqliteType)>)
        requires
            self.model().phase == Phase::Unbound,
        ensures
            r@ == self.values(),
    {
        self.binds
    }
}

/// Result codes of the engine's C API.
pub const SQLITE_OK: i32 = 0;

pub const SQLITE_ROW: i32 = 100;

pub const SQLITE_DONE: i32 = 101;

pub const SQLITE_CONSTRAINT_CHECK: i32 = 275;

pub const SQLITE_CONSTRAINT_FOREIGNKEY: i32 = 787;

pub const SQLITE_CONSTRAINT_NOTNULL: i32 = 1299;

pub const SQLITE_CONSTRAINT_PRIMARYKEY: i32 = 1555;

pub const SQLITE_CONSTRAINT_UNIQUE: i32 = 2067;

/// The kind of a failure with the extended result code `code`.
pub open spec fn error_kind_of(code: i32) -> DatabaseErrorKind {
    if code == SQLITE_CONSTRAINT_UNIQUE || code == SQLITE_CONSTRAINT_PRIMARYKEY {
        DatabaseErrorKind::UniqueViolation
    } else if code == SQLITE_CONSTRAINT_FOREIGNKEY {
        DatabaseErrorKind::ForeignKeyViolation
    } else if code == SQLITE_CONSTRAINT_NOTNULL {
        DatabaseErrorKind::NotNullViolation
    } else if code == SQLITE_CONSTRAINT_CHECK {
        DatabaseErrorKind::CheckViolation
    } else {
        DatabaseErrorKind::Unknown
    }
}

/// The database error for the connection's last extended result code and
/// message.
pub fn last_error(extended_code: i32, message: String) -> (r: Error)
    ensures
        r matches Error::DatabaseError(kind, m) && kind == error_kind_of(extended_code) && m@
            == message@,
{
    let kind = if extended_code == SQLITE_CONSTRAINT_UNIQUE || extended_code
        == SQLITE_CONSTRAINT_PRIMARYKEY {
        DatabaseErrorKind::UniqueViolation
    } else if extended_code == SQLITE_CONSTRAINT_FOREIGNKEY {
        DatabaseErrorKind::ForeignKeyViolation
    } else if extended_code == SQLITE_CONSTRAINT_NOTNULL {
        DatabaseErrorKind::NotNullViolation
    } else if extended_code == SQLITE_CONSTRAINT_CHECK {
        DatabaseErrorKind::CheckViolation
    } else {
        DatabaseErrorKind::Unknown
    };
    Error::DatabaseError(kind, message)
}

/// `Ok` for `SQLITE_OK`, else the connection's last error.
pub fn ensure_sqlite_ok(code: i32, extended_code: i32, message: String) -> (r: QueryResult<()>)
    ensures
        code == SQLITE_OK <==> r is Ok,
        code != SQLITE_OK ==> (r matches Err(Error::DatabaseError(kind, m)) && kind
            == error_kind_of(extended_code) && m@ == message@),
{
    if code == SQLITE_OK {
        Ok(())
    } else {
        Err(last_error(extended_code, message))
    }
}

/// What a step of the statement gave: `Some(true)` a row, `Some(false)` the
/// end of the rows, `None` an error.
pub open spec fn step_outcome(code: i32) -> Option<bool> {
    if code == SQLITE_ROW {
        Some(true)
    } else if code == SQLITE_DONE {
        Some(false)
    } else {
        None
    }
}

/// Column names of the current row, read once per step and dropped by the
/// next step, which may invalidate them.
pub struct ColumnNames {
    names: Option<Vec<String>>,
    called_step_once: bool,
}

impl ColumnNames {
    pub closed spec fn cached(&self) -> Option<Seq<Seq<char>>> {
        match self.names {
            Some(v) => Some(v@.map_values(|s: String| s@)),
            None => None,
        }
    }

    pub closed spec fn stepped(&self) -> bool {
        self.called_step_once
    }

    pub fn new() -> (r: Self)
        ensures
            r.cached() is None,
            !r.stepped(),
    {
        ColumnNames { names: None, called_step_once: false }
    }

    /// Handles the result code of a step: on a row the cached names are
    /// dropped; on the end `Ok(false)`; otherwise the connection's error.
    pub fn step(&mut self, code: i32, extended_code: i32, message: String) -> (r: QueryResult<bool>)
        ensures
            step_outcome(code) matches Some(row) ==> r == Ok::<bool, Error>(row),
            step_outcome(code) is None ==> (r matches Err(Error::DatabaseError(kind, m)) && kind
                == error_kind_of(extended_code) && m@ == message@),
            step_outcome(code) == Some(true) ==> final(self).cached() is None && final(self).stepped(),
            step_outcome(code) != Some(true) ==> *final(self) == *old(self),
    {
        if code == SQLITE_ROW {
            self.names = None;
            self.called_step_once = true;
            Ok(true)
        } else if code == SQLITE_DONE {
            Ok(false)
        } else {
            Err(last_error(extended_code, message))
        }
    }

    pub fn is_cached(&self) -> (r: bool)
        ensures
            r == self.cached() is Some,
    {
        self.names.is_some()
    }

    /// Caches the names read after the current step, unless they already are.
    pub fn fill(&mut self, names: Vec<String>)
        ensures
            old(self).cached() is Some ==> final(self).cached() == old(self).cached(),
            old(self).cached() is None ==> final(self).cached() == Some(
                names@.map_values(|s: String| s@),
            ),
            final(self).stepped() == old(self).stepped(),
    {
        if self.names.is_none() {
            self.names = Some(names);
        }
    }

    /// The name of column `idx`, if the names are cached and it exists.
    pub fn field_name(&self, idx: usize) -> (r: Option<&str>)
        ensures
            match self.cached() {
                Some(names) => if idx < names.len() {
                    r matches Some(n) && n@ == names[idx as int]
                } else {
                    r is None
                },
                None => r is None,
            },
    {
        match &self.names {
            Some(names) => {
                if idx < names.len() {
                    Some(names[idx].as_str())
                } else {
                    None
                }
            },
            None => None,
        }
    }

    /// The first column named `field_name`.
    pub fn index_for_column_name(&self, field_name: &str) -> (r: Option<usize>)
        ensures
            match self.cached() {
                Some(names) => match r {
                    Some(i) => i < names.len() && names[i as int] == field_name@ && forall|j: int|
                        0 <= j < i ==> names[j] != field_name@,
                    None => forall|j: int| 0 <= j < names.len() ==> names[j] != field_name@,
                },
                None => r is None,
            },
    {
        match &self.names {
            Some(names) => {
                let wanted = field_name.to_owned();
                let mut i: usize = 0;
                while i < names.len()
                    invariant
                        i <= names@.len(),
                        wanted@ == field_name@,
                        self.cached() == Some(names@.map_values(|s: String| s@)),
                        forall|j: int| 0 <= j < i ==> names@[j]@ != field_name@,
                    decreases names@.len() - i,
                {
                    if names[i] == wanted {
                        return Some(i);
                    }
                    i = i + 1;
                }
                None
            },
            None => None,
        }
    }
}

} // verus!
