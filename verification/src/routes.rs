//! Route tables and their composition.
//!
//! A route table is an ordered collection of (method, path) -> handler
//! bindings.  Well-formed tables bind each (method, path) pair at most
//! once, so insertion order never affects dispatch.  Two tables from
//! independent route groups are merged by concatenation; the merge fails
//! loudly - a startup-time configuration error - when the groups bind a
//! common (method, path) pair, and is otherwise order-independent for
//! dispatch.

use vstd::prelude::*;

verus! {

/// The HTTP methods a route can bind.
#[derive(Clone, Copy, PartialEq, Eq, Structural, Debug)]
pub enum Method {
    Get,
    Post,
    Put,
    Delete,
}

/// Names one of the request handlers a route can dispatch to.
#[derive(Clone, Copy, PartialEq, Eq, Structural, Debug)]
pub enum HandlerId {
    Homepage,
    Charts,
    ErrorDemo,
}

/// One binding of a method and path to a handler.
pub struct Route {
    pub method: Method,
    pub path: String,
    pub handler: HandlerId,
}

impl Route {
    /// Whether this route binds the given method and path.
    pub open spec fn binds(self, method: Method, path: Seq<char>) -> bool {
        self.method == method && self.path@ == path
    }
}

/// Whether two routes bind the same (method, path) key.
pub open spec fn same_key(a: Route, b: Route) -> bool {
    a.method == b.method && a.path@ == b.path@
}

/// No two distinct entries bind the same key.
pub open spec fn distinct_bindings(routes: Seq<Route>) -> bool {
    forall|i: int, j: int|
        0 <= i < routes.len() && 0 <= j < routes.len() && i != j
            ==> !#[trigger] same_key(routes[i], routes[j])
}

/// No entry of `a` binds a key that an entry of `b` also binds.
pub open spec fn no_conflict(a: Seq<Route>, b: Seq<Route>) -> bool {
    forall|i: int, j: int|
        0 <= i < a.len() && 0 <= j < b.len() ==> !#[trigger] same_key(a[i], b[j])
}

/// The handler the table answers (method, path) with: the first binding
/// that matches.  In a well-formed table at most one entry matches, so
/// this is the unique match.
pub open spec fn spec_dispatch(routes: Seq<Route>, method: Method, path: Seq<char>) -> Option<
    HandlerId,
>
    decreases routes.len(),
{
    if routes.len() == 0 {
        None
    } else if routes[0].binds(method, path) {
        Some(routes[0].handler)
    } else {
        spec_dispatch(routes.drop_first(), method, path)
    }
}

/// A table where no entry matches answers nothing.
pub proof fn lemma_dispatch_none(routes: Seq<Route>, method: Method, path: Seq<char>)
    requires
        forall|i: int| 0 <= i < routes.len() ==> !(#[trigger] routes[i]).binds(method, path),
    ensures
        spec_dispatch(routes, method, path) is None,
    decreases routes.len(),
{
    if routes.len() > 0 {
        assert(forall|i: int|
            0 <= i < routes.drop_first().len()
                ==> #[trigger] routes.drop_first()[i] == routes[i + 1]);
        lemma_dispatch_none(routes.drop_first(), method, path);
    }
}

/// In a well-formed table, a matching entry is the answer: the unique
/// match is also the first.
pub proof fn lemma_dispatch_unique(routes: Seq<Route>, method: Method, path: Seq<char>, i: int)
    requires
        distinct_bindings(routes),
        0 <= i < routes.len(),
        routes[i].binds(method, path),
    ensures
        spec_dispatch(routes, method, path) == Some(routes[i].handler),
    decreases routes.len(),
{
    if i == 0 {
    } else {
        assert(!same_key(routes[0], routes[i]));
        assert(!routes[0].binds(method, path));
        let rest = routes.drop_first();
        assert(forall|k: int| 0 <= k < rest.len() ==> #[trigger] rest[k] == routes[k + 1]);
        assert(distinct_bindings(rest)) by {
            assert forall|p: int, q: int|
                0 <= p < rest.len() && 0 <= q < rest.len() && p != q implies !#[trigger] same_key(
                rest[p],
                rest[q],
            ) by {
                assert(!same_key(routes[p + 1], routes[q + 1]));
            }
        }
        lemma_dispatch_unique(rest, method, path, i - 1);
    }
}

/// A route table: the dispatch table one group contributes, or the merged
/// table the application serves from.
pub struct RouteTable {
    pub routes: Vec<Route>,
}

impl RouteTable {
    /// Well-formed: each (method, path) key is bound at most once.
    pub open spec fn wf(self) -> bool {
        distinct_bindings(self.routes@)
    }

    /// An empty table.
    pub fn new() -> (r: RouteTable)
        ensures
            r.routes@ =~= Seq::<Route>::empty(),
            r.wf(),
    {
        RouteTable { routes: Vec::new() }
    }

    /// Append one binding.
    pub fn route(self, method: Method, path: String, handler: HandlerId) -> (r: RouteTable)
        ensures
            r.routes@ == self.routes@.push((Route { method, path, handler })),
    {
        let mut routes = self.routes;
        routes.push(Route { method, path, handler });
        RouteTable { routes }
    }

    /// Whether some entry binds (method, path).
    fn contains_binding(&self, method: Method, path: &String) -> (r: bool)
        ensures
            r == exists|i: int|
                0 <= i < self.routes@.len() && (#[trigger] self.routes@[i]).binds(method, path@),
    {
        let n = self.routes.len();
        let mut k: usize = 0;
        while k < n
            invariant
                n == self.routes@.len(),
                0 <= k <= n,
                forall|i: int| 0 <= i < k ==> !(#[trigger] self.routes@[i]).binds(method, path@),
            decreases n - k,
        {
            if self.routes[k].method == method && self.routes[k].path == *path {
                return true;
            }
            k = k + 1;
        }
        false
    }

    /// Merge another group's table into this one by concatenation.
    /// Answers the merged table exactly when the two tables bind no
    /// common (method, path) key, and reports the configuration error
    /// otherwise.
    pub fn merge(self, other: RouteTable) -> (r: Option<RouteTable>)
        ensures
            match r {
                Some(merged) => no_conflict(self.routes@, other.routes@) && merged.routes@
                    == self.routes@ + other.routes@,
                None => !no_conflict(self.routes@, other.routes@),
            },
    {
        let n = other.routes.len();
        let mut k: usize = 0;
        while k < n
            invariant
                n == other.routes@.len(),
                0 <= k <= n,
                forall|i: int, j: int|
                    0 <= i < self.routes@.len() && 0 <= j < k ==> !#[trigger] same_key(
                        self.routes@[i],
                        other.routes@[j],
                    ),
            decreases n - k,
        {
            let conflict = self.contains_binding(other.routes[k].method, &other.routes[k].path);
            if conflict {
                proof {
                    let i = choose|i: int|
                        0 <= i < self.routes@.len() && (#[trigger] self.routes@[i]).binds(
                            other.routes@[k as int].method,
                            other.routes@[k as int].path@,
                        );
                    assert(same_key(self.routes@[i], other.routes@[k as int]));
                }
                return None;
            }
            proof {
                assert forall|i: int|
                    0 <= i < self.routes@.len() implies !same_key(
                    self.routes@[i],
                    other.routes@[k as int],
                ) by {
                    if same_key(self.routes@[i], other.routes@[k as int]) {
                        assert(self.routes@[i].binds(
                            other.routes@[k as int].method,
                            other.routes@[k as int].path@,
                        ));
                    }
                }
            }
            k = k + 1;
        }
        let mut routes = self.routes;
        let mut incoming = other.routes;
        routes.append(&mut incoming);
        Some(RouteTable { routes })
    }

    /// The handler this table dispatches (method, path) to, if any.
    pub fn dispatch(&self, method: Method, path: &String) -> (r: Option<HandlerId>)
        ensures
            r == spec_dispatch(self.routes@, method, path@),
    {
        let n = self.routes.len();
        let mut k: usize = 0;
        while k < n
            invariant
                n == self.routes@.len(),
                0 <= k <= n,
                forall|i: int| 0 <= i < k ==> !(#[trigger] self.routes@[i]).binds(method, path@),
            decreases n - k,
        {
            if self.routes[k].method == method && self.routes[k].path == *path {
                proof {
                    lemma_dispatch_first_match(self.routes@, method, path@, k as int);
                }
                return Some(self.routes[k].handler);
            }
            k = k + 1;
        }
        proof {
            lemma_dispatch_none(self.routes@, method, path@);
        }
        None
    }
}

/// The first matching entry is the answer, whether or not the table is
/// well-formed.
pub proof fn lemma_dispatch_first_match(
    routes: Seq<Route>,
    method: Method,
    path: Seq<char>,
    i: int,
)
    requires
        0 <= i < routes.len(),
        routes[i].binds(method, path),
        forall|k: int| 0 <= k < i ==> !(#[trigger] routes[k]).binds(method, path),
    ensures
        spec_dispatch(routes, method, path) == Some(routes[i].handler),
    decreases routes.len(),
{
    if i > 0 {
        let rest = routes.drop_first();
        assert(forall|k: int| 0 <= k < rest.len() ==> #[trigger] rest[k] == routes[k + 1]);
        lemma_dispatch_first_match(rest, method, path, i - 1);
    }
}

/// Distinct groups that bind no common key compose to a well-formed
/// table.
pub proof fn lemma_merge_wf(a: Seq<Route>, b: Seq<Route>)
    requires
        distinct_bindings(a),
        distinct_bindings(b),
        no_conflict(a, b),
    ensures
        distinct_bindings(a + b),
{
    let ab = a + b;
    assert forall|i: int, j: int|
        0 <= i < ab.len() && 0 <= j < ab.len() && i != j implies !#[trigger] same_key(
        ab[i],
        ab[j],
    ) by {
        if i < a.len() && j < a.len() {
            assert(!same_key(a[i], a[j]));
        } else if i < a.len() && j >= a.len() {
            assert(!same_key(a[i], b[j - a.len()]));
        } else if i >= a.len() && j < a.len() {
            assert(!same_key(a[j], b[i - a.len()]));
            assert(ab[i] == b[i - a.len()] && ab[j] == a[j]);
        } else {
            assert(!same_key(b[i - a.len()], b[j - a.len()]));
        }
    }
}

/// Route composition is associative: merging three groups gives the same
/// table whichever merge happens first.
pub proof fn lemma_merge_associative(a: Seq<Route>, b: Seq<Route>, c: Seq<Route>)
    ensures
        (a + b) + c == a + (b + c),
{
    assert((a + b) + c =~= a + (b + c));
}

/// Route composition is commutative: merging group A into B gives a table
/// with the same match results as merging B into A, for every method and
/// path, whenever the groups are well-formed and bind no common key.
pub proof fn lemma_merge_commutative(a: Seq<Route>, b: Seq<Route>, method: Method, path: Seq<char>)
    requires
        distinct_bindings(a),
        distinct_bindings(b),
        no_conflict(a, b),
    ensures
        spec_dispatch(a + b, method, path) == spec_dispatch(b + a, method, path),
{
    assert(no_conflict(b, a)) by {
        assert forall|i: int, j: int|
            0 <= i < b.len() && 0 <= j < a.len() implies !#[trigger] same_key(b[i], a[j]) by {
            assert(!same_key(a[j], b[i]));
        }
    }
    lemma_merge_wf(a, b);
    lemma_merge_wf(b, a);
    let ab = a + b;
    let ba = b + a;
    if exists|i: int| 0 <= i < a.len() && (#[trigger] a[i]).binds(method, path) {
        let i = choose|i: int| 0 <= i < a.len() && (#[trigger] a[i]).binds(method, path);
        assert(ab[i] == a[i]);
        assert(ba[b.len() + i] == a[i]);
        lemma_dispatch_unique(ab, method, path, i);
        lemma_dispatch_unique(ba, method, path, b.len() + i);
    } else if exists|j: int| 0 <= j < b.len() && (#[trigger] b[j]).binds(method, path) {
        let j = choose|j: int| 0 <= j < b.len() && (#[trigger] b[j]).binds(method, path);
        assert(ab[a.len() + j] == b[j]);
        assert(ba[j] == b[j]);
        lemma_dispatch_unique(ab, method, path, a.len() + j);
        lemma_dispatch_unique(ba, method, path, j);
    } else {
        assert forall|k: int| 0 <= k < ab.len() implies !(#[trigger] ab[k]).binds(
            method,
            path,
        ) by {
            if k < a.len() {
                assert(ab[k] == a[k]);
            } else {
                assert(ab[k] == b[k - a.len()]);
            }
        }
        assert forall|k: int| 0 <= k < ba.len() implies !(#[trigger] ba[k]).binds(
            method,
            path,
        ) by {
            if k < b.len() {
                assert(ba[k] == b[k]);
            } else {
                assert(ba[k] == a[k - b.len()]);
            }
        }
        lemma_dispatch_none(ab, method, path);
        lemma_dispatch_none(ba, method, path);
    }
}

} // verus!
