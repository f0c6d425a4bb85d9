//! Scoped key-value access: every operation passes the access policy before
//! it may reach the backend.

use vstd::prelude::*;
use vstd::string::{StrSliceExecFns, StringExecFns};

verus! {

/// A logical store operation.
#[derive(Debug, Clone, PartialEq)]
pub enum StoreOp {
    Read { key: String },
    Write { key: String, value: String },
    Range { prefix: String },
}

/// A store operation as text.
pub enum OpView {
    Read(Seq<char>),
    Write(Seq<char>, Seq<char>),
    Range(Seq<char>),
}

impl View for StoreOp {
    type V = OpView;

    open spec fn view(&self) -> OpView {
        match self {
            StoreOp::Read { key } => OpView::Read(key@),
            StoreOp::Write { key, value } => OpView::Write(key@, value@),
            StoreOp::Range { prefix } => OpView::Range(prefix@),
        }
    }
}

/// An operation refused by the access policy.
#[derive(Debug, Clone, PartialEq)]
pub enum PolicyError {
    Denied { scope: String, reason: String },
}

/// Failures of store access; a denial stays distinct from a backend fault.
#[derive(Debug, Clone, PartialEq)]
pub enum StoreError {
    Policy(PolicyError),
    Backend(String),
}

/// Decides, for a caller scope, whether an operation may proceed and in
/// what rewritten form.
pub trait QueryPolicy {
    /// Whether `r` is what this policy answers for `op` issued under `scope`.
    spec fn permits(&self, scope: Seq<char>, op: OpView, r: Result<StoreOp, PolicyError>) -> bool;

    fn authorize(&self, scope: &str, op: StoreOp) -> (r: Result<StoreOp, PolicyError>)
        ensures
            self.permits(scope@, op@, r),
    ;
}

/// The code of one scope character: `:` and `\` are escaped with a `\`,
/// every other character stands for itself.
pub open spec fn escape_char(c: char) -> Seq<char> {
    if c == ':' {
        seq!['\\', ':']
    } else if c == '\\' {
        seq!['\\', '\\']
    } else {
        seq![c]
    }
}

/// `s` with each character replaced by its code.
pub open spec fn escape(s: Seq<char>) -> Seq<char>
    decreases s.len(),
{
    if s.len() == 0 {
        Seq::empty()
    } else {
        escape_char(s[0]) + escape(s.drop_first())
    }
}

/// `key` under the namespace of `scope`: the escaped scope, an unescaped
/// `:`, then the key. The first unescaped `:` ends the scope, so the stored
/// key determines both the scope and the key.
pub open spec fn scoped_key(scope: Seq<char>, key: Seq<char>) -> Seq<char> {
    escape(scope) + seq![':'] + key
}

proof fn lemma_escape_concat(s: Seq<char>, t: Seq<char>)
    ensures
        escape(s + t) == escape(s) + escape(t),
    decreases s.len(),
{
    if s.len() == 0 {
        assert(s + t =~= t);
        assert(escape(s) + escape(t) =~= escape(t));
    } else {
        assert((s + t).drop_first() =~= s.drop_first() + t);
        lemma_escape_concat(s.drop_first(), t);
        assert(escape(s + t) =~= escape_char(s[0]) + escape(s.drop_first() + t));
    }
}

proof fn lemma_escape_one(c: char)
    ensures
        escape(seq![c]) == escape_char(c),
{
    let one = seq![c];
    assert(one[0] == c);
    assert(one.drop_first() =~= Seq::<char>::empty());
    assert(escape(Seq::<char>::empty()) == Seq::<char>::empty());
    assert(escape(one) == escape_char(one[0]) + escape(one.drop_first()));
    assert(escape_char(c) + Seq::<char>::empty() =~= escape_char(c));
}

/// The stored key determines the scope and the logical key.
proof fn lemma_scoped_key_injective(a: Seq<char>, k1: Seq<char>, b: Seq<char>, k2: Seq<char>)
    requires
        scoped_key(a, k1) == scoped_key(b, k2),
    ensures
        a == b,
        k1 == k2,
    decreases a.len(),
{
    let x = scoped_key(a, k1);
    let y = scoped_key(b, k2);
    if a.len() == 0 {
        assert(x =~= seq![':'] + k1);
        if b.len() > 0 {
            assert(y =~= escape_char(b[0]) + (escape(b.drop_first()) + seq![':'] + k2));
            assert(y[0] == escape_char(b[0])[0]);
            assert(false);
        }
        assert(y =~= seq![':'] + k2);
        assert(k1 =~= x.drop_first());
        assert(k2 =~= y.drop_first());
        assert(a =~= b);
    } else if b.len() == 0 {
        assert(y =~= seq![':'] + k2);
        assert(x =~= escape_char(a[0]) + (escape(a.drop_first()) + seq![':'] + k1));
        assert(x[0] == escape_char(a[0])[0]);
        assert(false);
    } else {
        let ca = escape_char(a[0]);
        let cb = escape_char(b[0]);
        let ra = escape(a.drop_first()) + seq![':'] + k1;
        let rb = escape(b.drop_first()) + seq![':'] + k2;
        assert(x =~= ca + ra);
        assert(y =~= cb + rb);
        assert(x[0] == ca[0]);
        assert(y[0] == cb[0]);
        if ca[0] == '\\' {
            assert(x[1] == ca[1]);
            assert(y[1] == cb[1]);
        }
        assert(a[0] == b[0]);
        assert(ra =~= x.subrange(ca.len() as int, x.len() as int));
        assert(rb =~= y.subrange(cb.len() as int, y.len() as int));
        lemma_scoped_key_injective(a.drop_first(), k1, b.drop_first(), k2);
        assert(a =~= seq![a[0]] + a.drop_first());
        assert(b =~= seq![b[0]] + b.drop_first());
    }
}

/// `op` with its key or prefix moved under the namespace of `scope`.
pub open spec fn rewrite_spec(scope: Seq<char>, op: OpView) -> OpView {
    match op {
        OpView::Read(key) => OpView::Read(scoped_key(scope, key)),
        OpView::Write(key, value) => OpView::Write(scoped_key(scope, key), value),
        OpView::Range(prefix) => OpView::Range(scoped_key(scope, prefix)),
    }
}

fn escape_scope(scope: &str) -> (r: String)
    ensures
        r@ == escape(scope@),
{
    proof {
        assert(scope@.subrange(0, 0) =~= Seq::<char>::empty());
    }
    let n = scope.unicode_len();
    let mut out = String::new();
    let mut i: usize = 0;
    while i < n
        invariant
            n == scope@.len(),
            i <= n,
            out@ == escape(scope@.subrange(0, i as int)),
        decreases n - i,
    {
        let c = scope.get_char(i);
        proof {
            assert(scope@.subrange(0, i + 1) =~= scope@.subrange(0, i as int) + seq![c]);
            lemma_escape_concat(scope@.subrange(0, i as int), seq![c]);
            lemma_escape_one(c);
            reveal_strlit("\\:");
            reveal_strlit("\\\\");
            assert("\\:"@ =~= seq!['\\', ':']);
            assert("\\\\"@ =~= seq!['\\', '\\']);
        }
        if c == ':' {
            out.append("\\:");
        } else if c == '\\' {
            out.append("\\\\");
        } else {
            let one = scope.substring_char(i, i + 1);
            assert(one@ =~= seq![c]);
            out.append(one);
        }
        i += 1;
    }
    assert(scope@.subrange(0, n as int) =~= scope@);
    out
}

fn scope_key(scope: &str, key: &str) -> (r: String)
    ensures
        r@ == scoped_key(scope@, key@),
{
    proof {
        reveal_strlit(":");
    }
    escape_scope(scope).concat(":").concat(key)
}

/// The default policy: every key is rewritten under the caller's escaped
/// scope, so a caller can only ever address its own namespace. It never
/// denies.
#[derive(Debug, Clone, Copy)]
pub struct PrefixPolicy;

impl PrefixPolicy {
    pub fn rewrite(&self, scope: &str, op: StoreOp) -> (r: StoreOp)
        ensures
            r@ == rewrite_spec(scope@, op@),
    {
        match op {
            StoreOp::Read { key } => StoreOp::Read { key: scope_key(scope, key.as_str()) },
            StoreOp::Write { key, value } => StoreOp::Write {
                key: scope_key(scope, key.as_str()),
                value,
            },
            StoreOp::Range { prefix } => StoreOp::Range { prefix: scope_key(scope, prefix.as_str()) },
        }
    }
}

impl QueryPolicy for PrefixPolicy {
    /// Always allowed, rewritten under the scope.
    open spec fn permits(&self, scope: Seq<char>, op: OpView, r: Result<StoreOp, PolicyError>) -> bool {
        r matches Ok(o) && o@ == rewrite_spec(scope, op)
    }

    fn authorize(&self, scope: &str, op: StoreOp) -> (r: Result<StoreOp, PolicyError>) {
        Ok(self.rewrite(scope, op))
    }
}

/// How an operation is issued to the backend: as a query, which returns
/// rows, or as a statement, which returns a count of changed rows.
#[derive(Debug, Clone, Copy, PartialEq, Eq, Structural)]
pub enum Access {
    Query,
    Execute,
}

/// Whether `op` is of the kind that `access` issues: reads and ranges are
/// queries, writes are statements.
pub open spec fn fits(access: Access, op: OpView) -> bool {
    match op {
        OpView::Write(_, _) => access == Access::Execute,
        _ => access == Access::Query,
    }
}

/// The store as one scope sees it: every operation issued here is
/// rewritten by the prefix policy before it is handed to the backend.
pub struct ScopedStore {
    scope: String,
    policy: PrefixPolicy,
}

impl ScopedStore {
    pub fn new(scope: &str) -> (r: ScopedStore)
        ensures
            r.scope()@ == scope@,
    {
        ScopedStore { scope: scope.to_owned(), policy: PrefixPolicy }
    }

    pub closed spec fn scope(&self) -> String {
        self.scope
    }

    /// The scope this store acts for.
    pub fn scope_name(&self) -> (r: &str)
        ensures
            r@ == self.scope()@,
    {
        self.scope.as_str()
    }

    /// The operation that may reach the backend for `op`: always allowed,
    /// with its key under this store's scope.
    pub fn prepare(&self, op: StoreOp) -> (r: Result<StoreOp, StoreError>)
        ensures
            r matches Ok(o) && o@ == rewrite_spec(self.scope()@, op@),
    {
        Ok(self.policy.rewrite(self.scope.as_str(), op))
    }

    /// What reaches the backend when `op` is issued through `access`: the
    /// prepared operation where `op` is of that kind, else nothing (a write
    /// issued as a query reads no rows; a read issued as a statement changes
    /// none).
    pub fn plan(&self, access: Access, op: StoreOp) -> (r: Result<Option<StoreOp>, StoreError>)
        ensures
            r matches Ok(o) && if fits(access, op@) {
                o matches Some(p) && p@ == rewrite_spec(self.scope()@, op@)
            } else {
                o is None
            },
    {
        let is_write = matches!(op, StoreOp::Write { .. });
        let fitting = if is_write {
            access == Access::Execute
        } else {
            access == Access::Query
        };
        if fitting {
            match self.prepare(op) {
                Ok(p) => Ok(Some(p)),
                Err(e) => Err(e),
            }
        } else {
            Ok(None)
        }
    }
}

/// No two scopes ever address the same stored key: the stored key that an
/// operation reaches fixes the scope it was issued under and its logical
/// key, so nothing one scope writes is visible to a read from another.
pub proof fn scopes_are_isolated(a: Seq<char>, k1: Seq<char>, b: Seq<char>, k2: Seq<char>)
    ensures
        scoped_key(a, k1) == scoped_key(b, k2) ==> a == b && k1 == k2,
        a != b ==> rewrite_spec(b, OpView::Read(k2))->Read_0 != scoped_key(a, k1),
{
    if scoped_key(a, k1) == scoped_key(b, k2) {
        lemma_scoped_key_injective(a, k1, b, k2);
    }
}

} // verus!
