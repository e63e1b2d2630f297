//! Registry of keybinding help, organised by context (main view, pickers,
//! dialogs). It answers the status bar, the help overlay and the dialogs:
//! bindings of a context in priority order, status-bar hints, and display
//! formatting.

use vstd::prelude::*;

use crate::text::{concat3, join_seqs, join_strings, views};

verus! {

/// Priority given to a binding that does not state one.
pub const DEFAULT_PRIORITY: u32 = 50;

/// Priority given to a binding that does not state one.
pub fn default_priority() -> (p: u32)
    ensures
        p == 50,
{
    DEFAULT_PRIORITY
}

/// A single keybinding definition
#[derive(Debug, Clone)]
pub struct Binding {
    /// Primary key(s) for this action
    pub keys: Vec<String>,
    /// Alternative keys
    pub alt_keys: Vec<String>,
    /// Full description of the action
    pub action: String,
    /// Short hint for the status bar
    pub hint: Option<String>,
    /// Priority for display order (lower = more important, shown first)
    pub priority: u32,
}

/// A context with its bindings
#[derive(Debug, Clone)]
pub struct Context {
    /// Human-readable name
    pub name: String,
    /// Description of when this context is active
    pub description: String,
    /// Keybindings for this context
    pub bindings: Vec<Binding>,
}

/// Metadata about the help definitions
#[derive(Debug, Clone)]
pub struct HelpMeta {
    /// Version of the help file format
    pub version: String,
    /// Name of the application
    pub app_name: String,
}

// ---------------------------------------------------------------------------
// Priority order
// ---------------------------------------------------------------------------

/// Entry `a` comes before entry `b` in priority order: lower priority first,
/// and among equal priorities the earlier entry first.
pub open spec fn before(pr: Seq<u32>, a: int, b: int) -> bool {
    pr[a] < pr[b] || (pr[a] == pr[b] && a < b)
}

/// `r` lists every index of `pr` exactly once, in priority order (a stable
/// sort of the indices by priority).
pub open spec fn is_priority_order(pr: Seq<u32>, r: Seq<usize>) -> bool {
    &&& pr.len() <= usize::MAX
    &&& r.len() == pr.len()
    &&& forall|k: int| 0 <= k < r.len() ==> (#[trigger] r[k]) < pr.len()
    &&& forall|j: int, k: int| 0 <= j < k < r.len() ==> before(pr, #[trigger] r[j] as int, #[trigger] r[k] as int)
    &&& forall|i: int| 0 <= i < pr.len() ==> #[trigger] r.contains(i as usize)
}

/// The indices `0..n` of `pr` ordered by priority, ties kept in index order.
pub fn priority_order(pr: &Vec<u32>) -> (r: Vec<usize>)
    ensures
        is_priority_order(pr@, r@),
{
    let n = pr.len();
    let mut r: Vec<usize> = Vec::new();
    let mut i: usize = 0;
    while i < n
        invariant
            n == pr@.len(),
            i <= n,
            r@.len() == i,
            forall|k: int| 0 <= k < r@.len() ==> (#[trigger] r@[k]) < i,
            forall|j: int, k: int|
                0 <= j < k < r@.len() ==> before(pr@, #[trigger] r@[j] as int, #[trigger] r@[k] as int),
            forall|x: int| 0 <= x < i ==> #[trigger] r@.contains(x as usize),
        decreases n - i,
    {
        let p = pr[i];
        let mut pos: usize = 0;
        while pos < r.len() && pr[r[pos]] <= p
            invariant
                n == pr@.len(),
                i < n,
                p == pr@[i as int],
                pos <= r@.len(),
                forall|k: int| 0 <= k < r@.len() ==> (#[trigger] r@[k]) < i,
                forall|q: int| 0 <= q < pos ==> pr@[#[trigger] r@[q] as int] <= p,
            decreases r@.len() - pos,
        {
            pos = pos + 1;
        }
        let ghost old_r = r@;
        assert forall|q: int| pos <= q < old_r.len() implies p < pr@[#[trigger] old_r[q] as int] by {
            if pos < old_r.len() {
                assert(p < pr@[old_r[pos as int] as int]);
                if q > pos {
                    assert(before(pr@, old_r[pos as int] as int, old_r[q] as int));
                }
            }
        }
        r.insert(pos, i);
        assert forall|j: int, k: int| 0 <= j < k < r@.len() implies before(
            pr@,
            #[trigger] r@[j] as int,
            #[trigger] r@[k] as int,
        ) by {
            if k < pos {
                assert(r@[j] == old_r[j] && r@[k] == old_r[k]);
            } else if k == pos {
                assert(r@[j] == old_r[j]);
                assert(pr@[old_r[j] as int] <= p);
            } else if j < pos {
                assert(r@[j] == old_r[j] && r@[k] == old_r[k - 1]);
                assert(before(pr@, old_r[j] as int, old_r[pos as int] as int));
            } else if j == pos {
                assert(r@[k] == old_r[k - 1]);
                assert(p < pr@[old_r[k - 1] as int]);
            } else {
                assert(r@[j] == old_r[j - 1] && r@[k] == old_r[k - 1]);
            }
        }
        assert forall|x: int| 0 <= x < i + 1 implies #[trigger] r@.contains(x as usize) by {
            if x == i {
                assert(r@[pos as int] == i);
            } else {
                assert(old_r.contains(x as usize));
                let q = choose|q: int| 0 <= q < old_r.len() && old_r[q] == x as usize;
                if q < pos {
                    assert(r@[q] == x as usize);
                } else {
                    assert(r@[q + 1] == x as usize);
                }
            }
        }
        assert forall|k: int| 0 <= k < r@.len() implies (#[trigger] r@[k]) < i + 1 by {
            if k < pos {
                assert(r@[k] == old_r[k]);
            } else if k > pos {
                assert(r@[k] == old_r[k - 1]);
            }
        }
        i = i + 1;
    }
    r
}

/// Two priority orders of the same priorities are the same sequence: the
/// order is fully determined (this is what makes the sort stable).
pub proof fn law_priority_order_unique(pr: Seq<u32>, r1: Seq<usize>, r2: Seq<usize>)
    requires
        is_priority_order(pr, r1),
        is_priority_order(pr, r2),
    ensures
        r1 == r2,
{
    assert forall|k: int| 0 <= k < r1.len() implies r1[k] == r2[k] by {
        lemma_rank(pr, r1, k);
        lemma_rank(pr, r2, k);
        let a = r1[k] as int;
        let b = r2[k] as int;
        if a != b {
            if before(pr, a, b) {
                lemma_rank_monotone(pr, r1, a, b);
                lemma_rank_monotone(pr, r2, a, b);
            } else {
                assert(before(pr, b, a));
                lemma_rank_monotone(pr, r1, b, a);
                lemma_rank_monotone(pr, r2, b, a);
            }
        }
    }
    assert(r1 =~= r2);
}

/// Number of indices of `pr` that come before index `a`.
pub open spec fn rank(pr: Seq<u32>, a: int) -> nat {
    Set::new(|x: int| 0 <= x < pr.len() && before(pr, x, a)).len()
}

/// The entries at positions `0..k` of `r`.
pub open spec fn prefix_image(r: Seq<usize>, k: int) -> Set<int> {
    Set::new(|x: int| exists|j: int| 0 <= j < k && #[trigger] r[j] as int == x)
}

/// In a priority order, the entry at position `k` has exactly `k` entries
/// before it.
proof fn lemma_rank(pr: Seq<u32>, r: Seq<usize>, k: int)
    requires
        is_priority_order(pr, r),
        0 <= k < r.len(),
    ensures
        rank(pr, r[k] as int) == k,
{
    let a = r[k] as int;
    let s = Set::new(|x: int| 0 <= x < pr.len() && before(pr, x, a));
    let t = prefix_image(r, k);
    assert forall|x: int| s.contains(x) implies t.contains(x) by {
        assert(0 <= x < pr.len());
        assert(r.contains(x as usize));
        let j = choose|j: int| 0 <= j < r.len() && r[j] == x as usize;
        assert(r[j] as int == x);
        if j > k {
            assert(before(pr, r[k] as int, r[j] as int));
            assert(false);
        }
        if j == k {
            assert(false);
        }
    }
    assert forall|x: int| t.contains(x) implies s.contains(x) by {
        let j = choose|j: int| 0 <= j < k && #[trigger] r[j] as int == x;
        assert(before(pr, r[j] as int, r[k] as int));
    }
    assert(s =~= t);
    lemma_prefix_image_len(r, k);
}

/// The first `k` entries of a sequence without repetitions form a set of
/// `k` elements.
proof fn lemma_prefix_image_len(r: Seq<usize>, k: int)
    requires
        0 <= k <= r.len(),
        forall|j1: int, j2: int| 0 <= j1 < j2 < r.len() ==> r[j1] != r[j2],
    ensures
        prefix_image(r, k).finite(),
        prefix_image(r, k).len() == k,
    decreases k,
{
    let img = prefix_image(r, k);
    if k == 0 {
        assert(img =~= Set::empty());
    } else {
        lemma_prefix_image_len(r, k - 1);
        let prev = prefix_image(r, k - 1);
        assert(img =~= prev.insert(r[k - 1] as int)) by {
            assert forall|x: int| img.contains(x) implies prev.insert(r[k - 1] as int).contains(x) by {
                let j = choose|j: int| 0 <= j < k && #[trigger] r[j] as int == x;
                if j < k - 1 {
                    assert(prev.contains(x));
                }
            }
            assert forall|x: int| prev.insert(r[k - 1] as int).contains(x) implies img.contains(x) by {
                if x == r[k - 1] as int {
                    assert(r[k - 1] as int == x);
                } else {
                    let j = choose|j: int| 0 <= j < k - 1 && #[trigger] r[j] as int == x;
                    assert(r[j] as int == x);
                }
            }
        }
        assert(!prev.contains(r[k - 1] as int)) by {
            if prev.contains(r[k - 1] as int) {
                let j = choose|j: int| 0 <= j < k - 1 && #[trigger] r[j] as int == r[k - 1] as int;
                assert(r[j] != r[k - 1]);
            }
        }
    }
}

/// When `a` comes before `b`, `a` has fewer entries before it than `b`.
proof fn lemma_rank_monotone(pr: Seq<u32>, r: Seq<usize>, a: int, b: int)
    requires
        is_priority_order(pr, r),
        0 <= a < pr.len(),
        0 <= b < pr.len(),
        before(pr, a, b),
    ensures
        rank(pr, a) < rank(pr, b),
{
    let sa = Set::new(|x: int| 0 <= x < pr.len() && before(pr, x, a));
    let sb = Set::new(|x: int| 0 <= x < pr.len() && before(pr, x, b));
    let full = Set::new(|x: int| 0 <= x < pr.len());
    assert(full.finite()) by {
        vstd::set_lib::lemma_int_range(0, pr.len() as int);
        assert(full =~= vstd::set_lib::set_int_range(0, pr.len() as int));
    }
    assert(sb.subset_of(full));
    vstd::set_lib::lemma_len_subset(sb, full);
    assert(sa.subset_of(sb));
    assert(sb.contains(a));
    assert(!sa.contains(a));
    assert(sa.subset_of(sb.remove(a)));
    vstd::set_lib::lemma_len_subset(sa, sb.remove(a));
}

/// Priorities of a sequence of bindings.
pub open spec fn priorities(b: Seq<Binding>) -> Seq<u32> {
    b.map_values(|x: Binding| x.priority)
}

/// `out` is `items` in priority order.
pub open spec fn sorted_by_priority(items: Seq<Binding>, out: Seq<Binding>) -> bool {
    exists|r: Seq<usize>|
        is_priority_order(priorities(items), r) && out == r.map_values(|i: usize| items[i as int])
}

/// `items` in priority order.
pub open spec fn by_priority(items: Seq<Binding>) -> Seq<Binding> {
    choose|out: Seq<Binding>| sorted_by_priority(items, out)
}

/// A priority order is unique, so it is [`by_priority`].
pub proof fn lemma_sorted_unique(items: Seq<Binding>, out: Seq<Binding>)
    requires
        sorted_by_priority(items, out),
    ensures
        out == by_priority(items),
{
    let other = by_priority(items);
    assert(sorted_by_priority(items, other));
    let r1 = choose|r: Seq<usize>|
        is_priority_order(priorities(items), r) && out == r.map_values(|i: usize| items[i as int]);
    let r2 = choose|r: Seq<usize>|
        is_priority_order(priorities(items), r) && other == r.map_values(|i: usize| items[i as int]);
    law_priority_order_unique(priorities(items), r1, r2);
}

/// The bindings of `items` that define a status-bar hint, in order.
pub open spec fn with_hint(items: Seq<Binding>) -> Seq<Binding>
    decreases items.len(),
{
    if items.len() == 0 {
        Seq::empty()
    } else {
        let rest = with_hint(items.drop_last());
        if items.last().hint is Some {
            rest.push(items.last())
        } else {
            rest
        }
    }
}

/// References to `items` in priority order.
fn sorted_refs<'a>(items: &'a Vec<Binding>) -> (out: Vec<&'a Binding>)
    ensures
        sorted_by_priority(items@, out@.map_values(|b: &Binding| *b)),
{
    let mut pr: Vec<u32> = Vec::new();
    let mut i: usize = 0;
    while i < items.len()
        invariant
            i <= items@.len(),
            pr@ == priorities(items@).take(i as int),
        decreases items@.len() - i,
    {
        pr.push(items[i].priority);
        assert(priorities(items@).take(i as int + 1) =~= priorities(items@).take(i as int).push(
            items@[i as int].priority,
        ));
        i = i + 1;
    }
    assert(pr@ =~= priorities(items@));
    let order = priority_order(&pr);
    let mut out: Vec<&'a Binding> = Vec::new();
    let mut k: usize = 0;
    while k < order.len()
        invariant
            is_priority_order(pr@, order@),
            pr@ == priorities(items@),
            k <= order@.len(),
            out@.map_values(|b: &Binding| *b) == order@.take(k as int).map_values(
                |i: usize| items@[i as int],
            ),
        decreases order@.len() - k,
    {
        let idx = order[k];
        assert(idx < pr@.len());
        let ghost prev = out@;
        out.push(&items[idx]);
        assert(order@.take(k as int + 1) =~= order@.take(k as int).push(idx));
        assert(out@ =~= prev.push(&items@[idx as int]));
        assert(out@.map_values(|b: &Binding| *b) =~= prev.map_values(|b: &Binding| *b).push(
            items@[idx as int],
        ));
        assert(order@.take(k as int + 1).map_values(|i: usize| items@[i as int]) =~= order@.take(
            k as int,
        ).map_values(|i: usize| items@[i as int]).push(items@[idx as int]));
        k = k + 1;
    }
    assert(order@.take(order@.len() as int) =~= order@);
    out
}

// ---------------------------------------------------------------------------
// Registry
// ---------------------------------------------------------------------------

/// Help registry providing access to keybinding definitions.
#[derive(Debug)]
pub struct HelpRegistry {
    meta: HelpMeta,
    contexts: Vec<(String, Context)>,
}

/// No context key occurs twice.
pub open spec fn keys_distinct(c: Seq<(String, Context)>) -> bool {
    forall|i: int, j: int| 0 <= i < j < c.len() ==> (#[trigger] c[i]).0@ != (#[trigger] c[j]).0@
}

/// Whether two strings are equal.
fn same_text(a: &String, b: &str) -> (eq: bool)
    ensures
        eq == (a@ == b@),
{
    let b2 = String::from_str(b);
    *a == b2
}

impl HelpRegistry {
    /// The metadata.
    pub closed spec fn spec_meta(&self) -> HelpMeta {
        self.meta
    }

    /// The contexts with their keys.
    pub closed spec fn spec_contexts(&self) -> Seq<(String, Context)> {
        self.contexts@
    }

    /// The context with key `name`, if any (keys are distinct, so there is
    /// at most one).
    pub open spec fn context_named(&self, name: Seq<char>) -> Option<Context> {
        if exists|i: int|
            0 <= i < self.spec_contexts().len() && (#[trigger] self.spec_contexts()[i]).0@ == name {
            let i = choose|i: int|
                0 <= i < self.spec_contexts().len() && (#[trigger] self.spec_contexts()[i]).0@
                    == name;
            Some(self.spec_contexts()[i].1)
        } else {
            None
        }
    }

    /// The context [`HelpRegistry::context_named`] gives is one with that
    /// key, and there is none exactly when no key matches.
    proof fn lemma_context_named(&self, name: Seq<char>)
        ensures
            self.context_named(name) is Some ==> exists|i: int|
                0 <= i < self.spec_contexts().len() && (#[trigger] self.spec_contexts()[i]).0@ == name
                    && self.spec_contexts()[i].1 == self.context_named(name)->0,
            self.context_named(name) is None ==> forall|i: int|
                0 <= i < self.spec_contexts().len() ==> (#[trigger] self.spec_contexts()[i]).0@ != name,
    {
    }

    #[verifier::type_invariant]
    spec fn inv(&self) -> bool {
        keys_distinct(self.contexts@)
    }

    /// Builds a registry from metadata and keyed contexts; `None` when a
    /// context key occurs twice.
    pub fn from_parts(meta: HelpMeta, contexts: Vec<(String, Context)>) -> (r: Option<Self>)
        ensures
            r is Some <==> keys_distinct(contexts@),
            r is Some ==> r->0.spec_meta() == meta && r->0.spec_contexts() == contexts@,
    {
        let n = contexts.len();
        let mut i: usize = 0;
        while i < n
            invariant
                n == contexts@.len(),
                i <= n,
                forall|a: int, b: int| 0 <= a < b < n && a < i ==> (#[trigger] contexts@[a]).0@ != (
                #[trigger] contexts@[b]).0@,
            decreases n - i,
        {
            let mut j: usize = i + 1;
            while j < n
                invariant
                    n == contexts@.len(),
                    i < n,
                    i < j <= n,
                    forall|a: int, b: int| 0 <= a < b < n && a < i ==> (#[trigger] contexts@[a]).0@
                        != (#[trigger] contexts@[b]).0@,
                    forall|b: int| i < b < j ==> contexts@[i as int].0@ != (#[trigger] contexts@[b]).0@,
                decreases n - j,
            {
                if same_text(&contexts[i].0, contexts[j].0.as_str()) {
                    assert(!keys_distinct(contexts@)) by {
                        assert(contexts@[i as int].0@ == contexts@[j as int].0@);
                    }
                    return None;
                }
                j = j + 1;
            }
            i = i + 1;
        }
        Some(HelpRegistry { meta, contexts })
    }

    /// Name of the application.
    pub fn app_name(&self) -> (s: &str)
        ensures
            s@ == self.spec_meta().app_name@,
    {
        self.meta.app_name.as_str()
    }

    /// Version of the help definitions.
    pub fn version(&self) -> (s: &str)
        ensures
            s@ == self.spec_meta().version@,
    {
        self.meta.version.as_str()
    }

    /// Index of the context named `name`, if any.
    fn find(&self, name: &str) -> (r: Option<usize>)
        ensures
            match r {
                Some(i) => i < self.spec_contexts().len() && self.spec_contexts()[i as int].0@
                    == name@,
                None => forall|i: int|
                    0 <= i < self.spec_contexts().len() ==> (#[trigger] self.spec_contexts()[i]).0@
                        != name@,
            },
    {
        let mut i: usize = 0;
        while i < self.contexts.len()
            invariant
                i <= self.contexts@.len(),
                forall|j: int| 0 <= j < i ==> (#[trigger] self.contexts@[j]).0@ != name@,
            decreases self.contexts@.len() - i,
        {
            if same_text(&self.contexts[i].0, name) {
                return Some(i);
            }
            i = i + 1;
        }
        None
    }

    /// The context with key `name`, if any.
    pub fn get_context(&self, name: &str) -> (c: Option<&Context>)
        ensures
            c is Some <==> exists|i: int|
                0 <= i < self.spec_contexts().len() && (#[trigger] self.spec_contexts()[i]).0@
                    == name@,
            c is Some ==> exists|i: int|
                0 <= i < self.spec_contexts().len() && (#[trigger] self.spec_contexts()[i]).0@
                    == name@ && *c->0 == self.spec_contexts()[i].1,
            match c {
                Some(x) => self.context_named(name@) == Some(*x),
                None => self.context_named(name@) is None,
            },
    {
        proof {
            use_type_invariant(self);
        }
        match self.find(name) {
            Some(i) => {
                assert(self.spec_contexts()[i as int].0@ == name@);
                let ghost j = choose|j: int|
                    0 <= j < self.spec_contexts().len() && (#[trigger] self.spec_contexts()[j]).0@
                        == name@;
                assert(j == i as int) by {
                    if j < i as int {
                        assert(self.contexts@[j].0@ != self.contexts@[i as int].0@);
                    } else if j > i as int {
                        assert(self.contexts@[i as int].0@ != self.contexts@[j].0@);
                    }
                }
                Some(&self.contexts[i].1)
            },
            None => None,
        }
    }

    /// All bindings of the context `name` in priority order (lower first,
    /// ties in definition order); empty for an unknown context.
    pub fn get_bindings(&self, context_name: &str) -> (out: Vec<&Binding>)
        ensures
            (forall|i: int|
                0 <= i < self.spec_contexts().len() ==> (#[trigger] self.spec_contexts()[i]).0@
                    != context_name@) ==> out@.len() == 0,
            forall|i: int|
                0 <= i < self.spec_contexts().len() && (#[trigger] self.spec_contexts()[i]).0@
                    == context_name@ ==> sorted_by_priority(
                    self.spec_contexts()[i].1.bindings@,
                    out@.map_values(|b: &Binding| *b),
                ),
            out@.map_values(|b: &Binding| *b) == match self.context_named(context_name@) {
                Some(c) => by_priority(c.bindings@),
                None => Seq::empty(),
            },
    {
        proof {
            use_type_invariant(self);
        }
        match self.get_context(context_name) {
            Some(c) => {
                let out = sorted_refs(&c.bindings);
                proof {
                    lemma_sorted_unique(c.bindings@, out@.map_values(|b: &Binding| *b));
                    let i = choose|i: int|
                        0 <= i < self.spec_contexts().len() && (#[trigger] self.spec_contexts()[i]).0@
                            == context_name@ && *c == self.spec_contexts()[i].1;
                    assert forall|k: int|
                        0 <= k < self.spec_contexts().len() && (#[trigger] self.spec_contexts()[k]).0@
                            == context_name@ implies sorted_by_priority(
                        self.spec_contexts()[k].1.bindings@,
                        out@.map_values(|b: &Binding| *b),
                    ) by {
                        if k < i {
                            assert(self.contexts@[k].0@ != self.contexts@[i].0@);
                        } else if k > i {
                            assert(self.contexts@[i].0@ != self.contexts@[k].0@);
                        }
                    }
                }
                out
            },
            None => {
                let out: Vec<&Binding> = Vec::new();
                assert(out@.map_values(|b: &Binding| *b) =~= Seq::<Binding>::empty());
                out
            },
        }
    }

    /// The bindings of the context `name` that define a hint, in priority
    /// order; empty for an unknown context.
    pub fn get_status_bar_hints(&self, context_name: &str) -> (out: Vec<&Binding>)
        ensures
            hints_for(*self, context_name@, out@.map_values(|b: &Binding| *b)),
            out@.map_values(|b: &Binding| *b) == with_hint(
                match self.context_named(context_name@) {
                    Some(c) => by_priority(c.bindings@),
                    None => Seq::empty(),
                },
            ),
    {
        proof {
            use_type_invariant(self);
        }
        match self.find(context_name) {
            Some(ci) => {
                let all = &self.contexts[ci].1.bindings;
                let mut refs: Vec<&Binding> = Vec::new();
                let mut k: usize = 0;
                while k < all.len()
                    invariant
                        k <= all@.len(),
                        refs@.map_values(|b: &Binding| *b) == with_hint(all@.take(k as int)),
                    decreases all@.len() - k,
                {
                    proof {
                        assert(all@.take(k as int + 1).drop_last() =~= all@.take(k as int));
                    }
                    let ghost prev = refs@;
                    if all[k].hint.is_some() {
                        refs.push(&all[k]);
                        assert(refs@ =~= prev.push(&all@[k as int]));
                        assert(refs@.map_values(|b: &Binding| *b) =~= prev.map_values(
                            |b: &Binding| *b,
                        ).push(all@[k as int]));
                    }
                    k = k + 1;
                }
                assert(all@.take(all@.len() as int) =~= all@);
                let out = sorted_ref_refs(&refs);
                proof {
                    let hs = out@.map_values(|b: &Binding| *b);
                    lemma_sorted_unique(with_hint(all@), hs);
                    law_hints_commute_with_order(all@);
                    self.lemma_context_named(context_name@);
                    let i = choose|i: int|
                        0 <= i < self.spec_contexts().len() && (#[trigger] self.spec_contexts()[i]).0@
                            == context_name@ && self.spec_contexts()[i].1 == self.context_named(
                            context_name@,
                        )->0;
                    if i < ci {
                        assert(self.contexts@[i].0@ != self.contexts@[ci as int].0@);
                    } else if i > ci {
                        assert(self.contexts@[ci as int].0@ != self.contexts@[i].0@);
                    }
                }
                out
            },
            None => {
                let out: Vec<&Binding> = Vec::new();
                proof {
                    self.lemma_context_named(context_name@);
                    assert(out@.map_values(|b: &Binding| *b) =~= Seq::<Binding>::empty());
                    assert(with_hint(Seq::<Binding>::empty()) =~= Seq::<Binding>::empty());
                }
                out
            },
        }
    }

    /// Every context key.
    pub fn context_names(&self) -> (out: Vec<&String>)
        ensures
            out@.len() == self.spec_contexts().len(),
            forall|i: int| 0 <= i < out@.len() ==> *out@[i] == self.spec_contexts()[i].0,
    {
        let mut out: Vec<&String> = Vec::new();
        let mut i: usize = 0;
        while i < self.contexts.len()
            invariant
                i <= self.contexts@.len(),
                out@.len() == i,
                forall|j: int| 0 <= j < i ==> *out@[j] == self.contexts@[j].0,
            decreases self.contexts@.len() - i,
        {
            out.push(&self.contexts[i].0);
            i = i + 1;
        }
        out
    }

    /// Formats a binding for the help overlay: the keys joined with `/`
    /// (then the alternative keys in parentheses, when there are any), and the
    /// action.
    pub fn format_binding_for_help(binding: &Binding) -> (r: (String, String))
        ensures
            r.0@ == (if binding.alt_keys@.len() == 0 {
                join_seqs(views(binding.keys@), "/"@)
            } else {
                join_seqs(views(binding.keys@), "/"@) + " ("@ + join_seqs(
                    views(binding.alt_keys@),
                    "/"@,
                ) + ")"@
            }),
            r.1@ == binding.action@,
    {
        let primary = join_strings(&binding.keys, "/");
        let keys = if binding.alt_keys.len() == 0 {
            primary
        } else {
            let alt = join_strings(&binding.alt_keys, "/");
            let mut s = concat3(primary.as_str(), " (", alt.as_str());
            s.append(")");
            s
        };
        (keys, binding.action.clone())
    }

    /// Status-bar hints of a context: at most `max_hints` pairs of the first
    /// key (empty when there is none) and the hint text (the action when the
    /// hint is missing), following [`HelpRegistry::get_status_bar_hints`].
    pub fn format_status_bar_hints(&self, context_name: &str, max_hints: usize) -> (out: Vec<
        (String, String),
    >)
        ensures
            exists|hs: Seq<Binding>|
                #[trigger] hints_for(*self, context_name@, hs) && out@.len() == (if hs.len()
                    <= max_hints {
                    hs.len() as int
                } else {
                    max_hints as int
                }) && forall|k: int| 0 <= k < out@.len() ==> hint_pair(#[trigger] out@[k], hs[k]),
    {
        let hints = self.get_status_bar_hints(context_name);
        let ghost hs = hints@.map_values(|b: &Binding| *b);
        assert(hints_for(*self, context_name@, hs));
        let mut out: Vec<(String, String)> = Vec::new();
        let mut k: usize = 0;
        while k < hints.len() && k < max_hints
            invariant
                hs == hints@.map_values(|b: &Binding| *b),
                k <= hints@.len(),
                k <= max_hints,
                out@.len() == k,
                forall|j: int| 0 <= j < k ==> hint_pair(#[trigger] out@[j], hs[j]),
            decreases hints@.len() - k,
        {
            let b = hints[k];
            let key = if b.keys.len() > 0 {
                b.keys[0].clone()
            } else {
                String::new()
            };
            let hint = match &b.hint {
                Some(h) => h.clone(),
                None => b.action.clone(),
            };
            out.push((key, hint));
            k = k + 1;
        }
        out
    }

    /// For every context: its key, its name and its description.
    pub fn get_context_info(&self) -> (out: Vec<(&str, &str, &str)>)
        ensures
            out@.len() == self.spec_contexts().len(),
            forall|i: int|
                0 <= i < out@.len() ==> (#[trigger] out@[i]).0@ == self.spec_contexts()[i].0@
                    && out@[i].1@ == self.spec_contexts()[i].1.name@ && out@[i].2@
                    == self.spec_contexts()[i].1.description@,
    {
        let mut out: Vec<(&str, &str, &str)> = Vec::new();
        let mut i: usize = 0;
        while i < self.contexts.len()
            invariant
                i <= self.contexts@.len(),
                out@.len() == i,
                forall|j: int|
                    0 <= j < i ==> (#[trigger] out@[j]).0@ == self.contexts@[j].0@ && out@[j].1@
                        == self.contexts@[j].1.name@ && out@[j].2@ == self.contexts@[j].1.description@,
            decreases self.contexts@.len() - i,
        {
            let entry = &self.contexts[i];
            out.push((entry.0.as_str(), entry.1.name.as_str(), entry.1.description.as_str()));
            i = i + 1;
        }
        out
    }
}

/// `hs` are the hinted bindings of the context `name` in priority order
/// (none for an unknown context).
pub open spec fn hints_for(reg: HelpRegistry, name: Seq<char>, hs: Seq<Binding>) -> bool {
    &&& (forall|i: int|
        0 <= i < reg.spec_contexts().len() ==> (#[trigger] reg.spec_contexts()[i]).0@ != name)
        ==> hs.len() == 0
    &&& forall|i: int|
        0 <= i < reg.spec_contexts().len() && (#[trigger] reg.spec_contexts()[i]).0@ == name
            ==> sorted_by_priority(with_hint(reg.spec_contexts()[i].1.bindings@), hs)
}

/// A formatted hint `(key, text)` for binding `b`: the first key (empty when
/// none) and the hint (the action when there is no hint).
pub open spec fn hint_pair(p: (String, String), b: Binding) -> bool {
    &&& p.0@ == (if b.keys@.len() > 0 { b.keys@[0]@ } else { Seq::<char>::empty() })
    &&& p.1@ == (match b.hint {
        Some(h) => h@,
        None => b.action@,
    })
}

/// References to referenced bindings, in priority order.
fn sorted_ref_refs<'a>(items: &Vec<&'a Binding>) -> (out: Vec<&'a Binding>)
    ensures
        sorted_by_priority(items@.map_values(|b: &Binding| *b), out@.map_values(|b: &Binding| *b)),
{
    let ghost vs = items@.map_values(|b: &Binding| *b);
    let mut pr: Vec<u32> = Vec::new();
    let mut i: usize = 0;
    while i < items.len()
        invariant
            vs == items@.map_values(|b: &Binding| *b),
            i <= items@.len(),
            pr@ == priorities(vs).take(i as int),
        decreases items@.len() - i,
    {
        pr.push(items[i].priority);
        assert(priorities(vs).take(i as int + 1) =~= priorities(vs).take(i as int).push(
            vs[i as int].priority,
        ));
        i = i + 1;
    }
    assert(pr@ =~= priorities(vs));
    let order = priority_order(&pr);
    let mut out: Vec<&'a Binding> = Vec::new();
    let mut k: usize = 0;
    while k < order.len()
        invariant
            vs == items@.map_values(|b: &Binding| *b),
            is_priority_order(pr@, order@),
            pr@ == priorities(vs),
            k <= order@.len(),
            out@.map_values(|b: &Binding| *b) == order@.take(k as int).map_values(
                |i: usize| vs[i as int],
            ),
        decreases order@.len() - k,
    {
        let idx = order[k];
        assert(idx < pr@.len());
        let ghost prev = out@;
        out.push(items[idx]);
        assert(order@.take(k as int + 1) =~= order@.take(k as int).push(idx));
        assert(out@ =~= prev.push(items@[idx as int]));
        assert(out@.map_values(|b: &Binding| *b) =~= prev.map_values(|b: &Binding| *b).push(
            vs[idx as int],
        ));
        assert(order@.take(k as int + 1).map_values(|i: usize| vs[i as int]) =~= order@.take(
            k as int,
        ).map_values(|i: usize| vs[i as int]).push(vs[idx as int]));
        k = k + 1;
    }
    assert(order@.take(order@.len() as int) =~= order@);
    out
}


/// Bindings handed out in priority order are sorted by priority and are
/// exactly as many as the context defines.
pub proof fn law_bindings_sorted(items: Seq<Binding>, out: Seq<Binding>)
    requires
        sorted_by_priority(items, out),
    ensures
        out.len() == items.len(),
        forall|j: int, k: int| 0 <= j < k < out.len() ==> out[j].priority <= out[k].priority,
{
    let r = choose|r: Seq<usize>|
        is_priority_order(priorities(items), r) && out == r.map_values(|i: usize| items[i as int]);
    assert forall|j: int, k: int| 0 <= j < k < out.len() implies out[j].priority <= out[k].priority by {
        assert(before(priorities(items), r[j] as int, r[k] as int));
    }
}

/// Every binding that with_hint keeps defines a hint.
proof fn lemma_with_hint_all_hinted(items: Seq<Binding>)
    ensures
        forall|k: int| 0 <= k < with_hint(items).len() ==> (#[trigger] with_hint(items)[k]).hint is Some,
    decreases items.len(),
{
    if items.len() > 0 {
        lemma_with_hint_all_hinted(items.drop_last());
    }
}

/// Every status-bar hint handed out defines a hint.
pub proof fn law_status_hints_have_hint(items: Seq<Binding>, out: Seq<Binding>)
    requires
        sorted_by_priority(with_hint(items), out),
    ensures
        forall|k: int| 0 <= k < out.len() ==> (#[trigger] out[k]).hint is Some,
{
    let hs = with_hint(items);
    let r = choose|r: Seq<usize>|
        is_priority_order(priorities(hs), r) && out == r.map_values(|i: usize| hs[i as int]);
    lemma_with_hint_all_hinted(items);
    assert forall|k: int| 0 <= k < out.len() implies (#[trigger] out[k]).hint is Some by {
        assert(r[k] < hs.len());
        assert(out[k] == hs[r[k] as int]);
    }
}


/// `out` with `x` inserted at position `q`.
pub open spec fn inserted_at(out: Seq<Binding>, q: int, x: Binding) -> Seq<Binding> {
    out.take(q) + seq![x] + out.skip(q)
}

/// Inserting a new last index into a priority order, after the entries of
/// priority at most `p` and before those above it, gives the priority order
/// of the priorities with `p` appended.
proof fn lemma_order_insert(pr: Seq<u32>, r: Seq<usize>, p: u32, q: int)
    requires
        is_priority_order(pr, r),
        pr.len() < usize::MAX,
        0 <= q <= r.len(),
        forall|j: int| 0 <= j < q ==> pr[#[trigger] r[j] as int] <= p,
        forall|j: int| q <= j < r.len() ==> p < pr[#[trigger] r[j] as int],
    ensures
        is_priority_order(pr.push(p), r.insert(q, pr.len() as usize)),
{
    let n = pr.len() as int;
    let pr2 = pr.push(p);
    let r2 = r.insert(q, n as usize);
    assert forall|k: int| 0 <= k < r2.len() implies (#[trigger] r2[k]) < pr2.len() by {
        if k < q {
            assert(r2[k] == r[k]);
        } else if k > q {
            assert(r2[k] == r[k - 1]);
        }
    }
    assert forall|j: int, k: int| 0 <= j < k < r2.len() implies before(
        pr2,
        #[trigger] r2[j] as int,
        #[trigger] r2[k] as int,
    ) by {
        if k < q {
            assert(r2[j] == r[j] && r2[k] == r[k]);
            assert(before(pr, r[j] as int, r[k] as int));
        } else if k == q {
            assert(r2[j] == r[j] && r[j] < n);
        } else if j < q {
            assert(r2[j] == r[j] && r2[k] == r[k - 1]);
            assert(before(pr, r[j] as int, r[k - 1] as int));
        } else if j == q {
            assert(r2[k] == r[k - 1] && r[k - 1] < n);
        } else {
            assert(r2[j] == r[j - 1] && r2[k] == r[k - 1]);
            assert(before(pr, r[j - 1] as int, r[k - 1] as int));
        }
    }
    assert forall|i: int| 0 <= i < pr2.len() implies #[trigger] r2.contains(i as usize) by {
        if i == n {
            assert(r2[q] == n as usize);
        } else {
            assert(r.contains(i as usize));
            let j = choose|j: int| 0 <= j < r.len() && r[j] == i as usize;
            if j < q {
                assert(r2[j] == i as usize);
            } else {
                assert(r2[j + 1] == i as usize);
            }
        }
    }
}

/// Adding a binding to the end of a list inserts it into the priority order
/// after the bindings of priority at most its own.
proof fn lemma_sorted_push(items: Seq<Binding>, out: Seq<Binding>, x: Binding, q: int)
    requires
        sorted_by_priority(items, out),
        items.len() < usize::MAX,
        0 <= q <= out.len(),
        forall|j: int| 0 <= j < q ==> (#[trigger] out[j]).priority <= x.priority,
        forall|j: int| q <= j < out.len() ==> x.priority < (#[trigger] out[j]).priority,
    ensures
        sorted_by_priority(items.push(x), inserted_at(out, q, x)),
{
    let r = choose|r: Seq<usize>|
        is_priority_order(priorities(items), r) && out == r.map_values(|i: usize| items[i as int]);
    let n = items.len() as int;
    let items2 = items.push(x);
    assert(priorities(items2) =~= priorities(items).push(x.priority));
    assert forall|j: int| 0 <= j < q implies priorities(items)[#[trigger] r[j] as int] <= x.priority by {
        assert(out[j] == items[r[j] as int]);
    }
    assert forall|j: int| q <= j < r.len() implies x.priority < priorities(items)[#[trigger] r[j] as int] by {
        assert(out[j] == items[r[j] as int]);
    }
    lemma_order_insert(priorities(items), r, x.priority, q);
    let r2 = r.insert(q, n as usize);
    assert(inserted_at(out, q, x) =~= r2.map_values(|i: usize| items2[i as int])) by {
        assert forall|k: int| 0 <= k < r2.len() implies #[trigger] inserted_at(out, q, x)[k] == items2[r2[k] as int] by {
            if k < q {
                assert(r2[k] == r[k] && r[k] < n);
            } else if k > q {
                assert(r2[k] == r[k - 1] && r[k - 1] < n);
            }
        }
    }
}

/// In bindings ordered by priority, the position after the last binding of
/// priority at most `p`.
proof fn lemma_priority_split(out: Seq<Binding>, p: u32) -> (q: int)
    requires
        forall|j: int, k: int| 0 <= j < k < out.len() ==> out[j].priority <= out[k].priority,
    ensures
        0 <= q <= out.len(),
        forall|j: int| 0 <= j < q ==> (#[trigger] out[j]).priority <= p,
        forall|j: int| q <= j < out.len() ==> p < (#[trigger] out[j]).priority,
    decreases out.len(),
{
    if out.len() == 0 {
        0
    } else if out.last().priority <= p {
        assert forall|j: int| 0 <= j < out.len() implies (#[trigger] out[j]).priority <= p by {
            if j < out.len() - 1 {
                assert(out[j].priority <= out[out.len() - 1].priority);
            }
        }
        out.len() as int
    } else {
        let init = out.drop_last();
        let q = lemma_priority_split(init, p);
        assert forall|j: int| 0 <= j < q implies (#[trigger] out[j]).priority <= p by {
            assert(init[j] == out[j]);
        }
        assert forall|j: int| q <= j < out.len() implies p < (#[trigger] out[j]).priority by {
            if j < out.len() - 1 {
                assert(init[j] == out[j]);
            }
        }
        q
    }
}

/// Every list of bindings has a priority order.
proof fn lemma_sorted_exists(items: Seq<Binding>)
    requires
        items.len() <= usize::MAX,
    ensures
        sorted_by_priority(items, by_priority(items)),
    decreases items.len(),
{
    if items.len() == 0 {
        let r = Seq::<usize>::empty();
        assert(is_priority_order(priorities(items), r));
        assert(Seq::<Binding>::empty() =~= r.map_values(|i: usize| items[i as int]));
        assert(sorted_by_priority(items, Seq::<Binding>::empty()));
    } else {
        let init = items.drop_last();
        let x = items.last();
        lemma_sorted_exists(init);
        let out0 = by_priority(init);
        law_bindings_sorted(init, out0);
        let q = lemma_priority_split(out0, x.priority);
        lemma_sorted_push(init, out0, x, q);
        assert(init.push(x) =~= items);
        assert(sorted_by_priority(items, inserted_at(out0, q, x)));
    }
}

/// Keeping the hinted bindings of two lists joined is joining the hinted
/// bindings of each.
proof fn lemma_with_hint_add(a: Seq<Binding>, b: Seq<Binding>)
    ensures
        with_hint(a + b) == with_hint(a) + with_hint(b),
    decreases b.len(),
{
    if b.len() == 0 {
        assert(a + b =~= a);
        assert(with_hint(b) =~= Seq::<Binding>::empty());
        assert(with_hint(a) + with_hint(b) =~= with_hint(a));
    } else {
        lemma_with_hint_add(a, b.drop_last());
        assert((a + b).drop_last() =~= a + b.drop_last());
        assert((a + b).last() == b.last());
        if b.last().hint is Some {
            assert(with_hint(a) + with_hint(b.drop_last()).push(b.last()) =~= (with_hint(a) + with_hint(
                b.drop_last(),
            )).push(b.last()));
        }
    }
}

/// Every binding that with_hint keeps comes from the list.
proof fn lemma_with_hint_from(items: Seq<Binding>, k: int)
    requires
        0 <= k < with_hint(items).len(),
    ensures
        exists|j: int| 0 <= j < items.len() && items[j] == #[trigger] with_hint(items)[k],
    decreases items.len(),
{
    let rest = with_hint(items.drop_last());
    if k < rest.len() {
        lemma_with_hint_from(items.drop_last(), k);
        let j = choose|j: int| 0 <= j < items.drop_last().len() && items.drop_last()[j] == rest[k];
        assert(items[j] == with_hint(items)[k]);
    } else {
        assert(items[items.len() - 1] == with_hint(items)[k]);
    }
}

/// Ordering by priority and then keeping the bindings with a hint gives the
/// same list as keeping them first and then ordering.
pub proof fn law_hints_commute_with_order(items: Seq<Binding>)
    requires
        items.len() <= usize::MAX,
    ensures
        with_hint(by_priority(items)) == by_priority(with_hint(items)),
    decreases items.len(),
{
    if items.len() == 0 {
        lemma_sorted_exists(items);
        law_bindings_sorted(items, by_priority(items));
        assert(by_priority(items) =~= Seq::<Binding>::empty());
        assert(with_hint(items) =~= items);
    } else {
        let init = items.drop_last();
        let x = items.last();
        assert(init.push(x) =~= items);
        law_hints_commute_with_order(init);
        lemma_sorted_exists(init);
        let out0 = by_priority(init);
        law_bindings_sorted(init, out0);
        let q = lemma_priority_split(out0, x.priority);
        lemma_sorted_push(init, out0, x, q);
        let out = inserted_at(out0, q, x);
        lemma_sorted_unique(items, out);
        // with_hint of the insertion
        let a = out0.take(q);
        let b = out0.skip(q);
        assert(a + b =~= out0);
        lemma_with_hint_add(a, b);
        lemma_with_hint_add(a + seq![x], b);
        lemma_with_hint_add(a, seq![x]);
        assert(seq![x].drop_last() =~= Seq::<Binding>::empty());
        assert(seq![x].last() == x);
        assert(with_hint(Seq::<Binding>::empty()) =~= Seq::<Binding>::empty());
        let hs0 = with_hint(out0);
        let ha = with_hint(a);
        let hb = with_hint(b);
        let hinit = with_hint(init);
        lemma_with_hint_len(init);
        lemma_sorted_exists(hinit);
        if x.hint is Some {
            assert(with_hint(items) == hinit.push(x));
            assert(with_hint(seq![x]) =~= seq![x]);
            let q2 = ha.len() as int;
            assert(hs0.take(q2) =~= ha);
            assert(hs0.skip(q2) =~= hb);
            assert forall|j: int| 0 <= j < q2 implies (#[trigger] hs0[j]).priority <= x.priority by {
                lemma_with_hint_from(a, j);
                assert(hs0[j] == ha[j]);
            }
            assert forall|j: int| q2 <= j < hs0.len() implies x.priority < (#[trigger] hs0[j]).priority by {
                lemma_with_hint_from(b, j - q2);
                assert(hs0[j] == hb[j - q2]);
            }
            lemma_sorted_push(hinit, hs0, x, q2);
            assert(with_hint(out) =~= inserted_at(hs0, q2, x));
            lemma_sorted_unique(with_hint(items), with_hint(out));
        } else {
            assert(with_hint(items) == hinit);
            assert(with_hint(seq![x]) =~= Seq::<Binding>::empty());
            assert(with_hint(out) =~= hs0);
        }
    }
}

/// with_hint keeps at most the bindings it is given.
proof fn lemma_with_hint_len(items: Seq<Binding>)
    ensures
        with_hint(items).len() <= items.len(),
    decreases items.len(),
{
    if items.len() > 0 {
        lemma_with_hint_len(items.drop_last());
    }
}

} // verus!
