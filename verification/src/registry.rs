//! The test registry: a deduplicating collection of test descriptors keyed
//! by name, built once at startup, iterated in registration order.

use crate::descriptor::PerformanceTest;
use crate::text::{contains_substring, lemma_empty_needle_matches, str_contains};
use vstd::prelude::*;

verus! {

/// Some descriptor in `tests` carries `name`.
pub open spec fn has_name<P>(tests: Seq<PerformanceTest<P>>, name: Seq<char>) -> bool {
    exists|i: int| 0 <= i < tests.len() && tests[i].name@ == name
}

/// The effect of registering `t` on a registry holding `tests`: a duplicate
/// name is silently dropped (the earlier entry is retained), a new name is
/// appended.
pub open spec fn spec_register<P>(
    tests: Seq<PerformanceTest<P>>,
    t: PerformanceTest<P>,
) -> Seq<PerformanceTest<P>> {
    if has_name(tests, t.name@) {
        tests
    } else {
        tests.push(t)
    }
}

/// The indices of the descriptors whose name contains `filter` as a literal
/// substring, in registration order.
pub open spec fn spec_filtered<P>(
    tests: Seq<PerformanceTest<P>>,
    filter: Seq<char>,
) -> Seq<int>
    decreases tests.len(),
{
    if tests.len() == 0 {
        Seq::empty()
    } else {
        let prev = spec_filtered(tests.drop_last(), filter);
        if contains_substring(tests.last().name@, filter) {
            prev.push(tests.len() - 1)
        } else {
            prev
        }
    }
}

/// Every selected index is in range, selects a matching name, and the
/// selection is strictly increasing.
pub proof fn lemma_filtered_props<P>(tests: Seq<PerformanceTest<P>>, filter: Seq<char>)
    ensures
        forall|k: int|
            0 <= k < spec_filtered(tests, filter).len() ==> 0 <= (#[trigger] spec_filtered(
                tests,
                filter,
            )[k]) < tests.len(),
        forall|k: int|
            0 <= k < spec_filtered(tests, filter).len() ==> contains_substring(
                tests[#[trigger] spec_filtered(tests, filter)[k]].name@,
                filter,
            ),
        forall|k1: int, k2: int|
            0 <= k1 < k2 < spec_filtered(tests, filter).len() ==> #[trigger] spec_filtered(
                tests,
                filter,
            )[k1] < #[trigger] spec_filtered(tests, filter)[k2],
    decreases tests.len(),
{
    if tests.len() > 0 {
        let prev = spec_filtered(tests.drop_last(), filter);
        let cur = spec_filtered(tests, filter);
        lemma_filtered_props(tests.drop_last(), filter);
        assert(forall|k: int|
            0 <= k < prev.len() ==> tests.drop_last()[#[trigger] prev[k] as int] == tests[prev[k]
                as int]);
        assert forall|k: int| 0 <= k < cur.len() implies 0 <= (#[trigger] cur[k]) < tests.len() by {
            if k < prev.len() {
                assert(cur[k] == prev[k]);
            }
        }
        assert forall|k: int| 0 <= k < cur.len() implies contains_substring(
            tests[#[trigger] cur[k]].name@,
            filter,
        ) by {
            if k < prev.len() {
                assert(cur[k] == prev[k]);
                assert(contains_substring(tests.drop_last()[prev[k]].name@, filter));
            } else {
                assert(cur[k] == tests.len() - 1);
                assert(tests.last() == tests[tests.len() - 1]);
            }
        }
        assert forall|k1: int, k2: int| 0 <= k1 < k2 < cur.len() implies (#[trigger] cur[k1]) < (
        #[trigger] cur[k2]) by {
            if k2 < prev.len() {
                assert(cur[k1] == prev[k1] && cur[k2] == prev[k2]);
            } else {
                assert(cur[k1] == prev[k1]);
                assert(prev[k1] < tests.drop_last().len());
            }
        }
    }
}

/// An empty filter selects every registered descriptor, in order.
pub proof fn lemma_empty_filter_selects_all<P>(tests: Seq<PerformanceTest<P>>, filter: Seq<char>)
    requires
        filter.len() == 0,
    ensures
        spec_filtered(tests, filter) =~= Seq::new(tests.len(), |i: int| i),
    decreases tests.len(),
{
    if tests.len() > 0 {
        lemma_empty_filter_selects_all(tests.drop_last(), filter);
        lemma_empty_needle_matches(tests.last().name@, filter);
    }
}

/// A filter matching no registered name selects nothing.
pub proof fn lemma_no_match_selects_none<P>(tests: Seq<PerformanceTest<P>>, filter: Seq<char>)
    requires
        forall|i: int| 0 <= i < tests.len() ==> !contains_substring(tests[i].name@, filter),
    ensures
        spec_filtered(tests, filter) =~= Seq::<int>::empty(),
    decreases tests.len(),
{
    if tests.len() > 0 {
        assert(forall|i: int|
            0 <= i < tests.drop_last().len() ==> tests.drop_last()[i] == tests[i]);
        lemma_no_match_selects_none(tests.drop_last(), filter);
    }
}

/// Registering a second descriptor with the name of one already registered
/// changes nothing: the registry retains exactly one entry for that name,
/// the earlier one.
pub proof fn lemma_duplicate_register_is_noop<P>(
    tests: Seq<PerformanceTest<P>>,
    t1: PerformanceTest<P>,
    t2: PerformanceTest<P>,
)
    requires
        t2.name@ == t1.name@,
    ensures
        spec_register(spec_register(tests, t1), t2) == spec_register(tests, t1),
{
    let s1 = spec_register(tests, t1);
    if has_name(tests, t1.name@) {
    } else {
        assert(s1[tests.len() as int].name@ == t2.name@);
        assert(has_name(s1, t2.name@));
    }
}

/// A deduplicated collection of test descriptors; name uniqueness is its
/// invariant, and iteration follows registration order.
pub struct Registry<P> {
    pub tests: Vec<PerformanceTest<P>>,
}

impl<P> Registry<P> {
    /// All registered names are distinct.
    pub open spec fn wf(self) -> bool {
        forall|i: int, j: int|
            0 <= i < j < self.tests@.len() ==> self.tests@[i].name@ != self.tests@[j].name@
    }

    /// An empty registry.
    pub fn new() -> (r: Self)
        ensures
            r.tests@ =~= Seq::<PerformanceTest<P>>::empty(),
            r.wf(),
    {
        Registry { tests: Vec::new() }
    }

    /// Whether some registered descriptor carries `name`.
    pub fn contains_name(&self, name: &String) -> (r: bool)
        ensures
            r == has_name(self.tests@, name@),
    {
        let mut i: usize = 0;
        while i < self.tests.len()
            invariant
                i <= self.tests@.len(),
                forall|k: int| 0 <= k < i ==> self.tests@[k].name@ != name@,
            decreases self.tests@.len() - i,
        {
            if self.tests[i].name == *name {
                return true;
            }
            i += 1;
        }
        false
    }

    /// Inserts a descriptor. A descriptor whose name is already registered
    /// is silently dropped; the earlier entry stays.
    pub fn register(&mut self, t: PerformanceTest<P>)
        ensures
            final(self).tests@ == spec_register(old(self).tests@, t),
            has_name(final(self).tests@, t.name@),
            old(self).wf() ==> final(self).wf(),
    {
        let already = self.contains_name(&t.name);
        let ghost gname = t.name@;
        if !already {
            self.tests.push(t);
            proof {
                assert(self.tests@[old(self).tests@.len() as int].name@ == gname);
                if old(self).wf() {
                    assert forall|i: int, j: int|
                        0 <= i < j < self.tests@.len() implies self.tests@[i].name@
                        != self.tests@[j].name@ by {
                        if j < old(self).tests@.len() {
                        } else {
                            assert(self.tests@[j].name@ == gname);
                            assert(!has_name(old(self).tests@, gname));
                        }
                    }
                }
            }
        }
    }

    /// The number of registered descriptors.
    pub fn len(&self) -> (r: usize)
        ensures
            r == self.tests@.len(),
    {
        self.tests.len()
    }

    /// The descriptor at a registration-order position.
    pub fn get(&self, i: usize) -> (r: &PerformanceTest<P>)
        requires
            i < self.tests@.len(),
        ensures
            *r == self.tests@[i as int],
    {
        &self.tests[i]
    }

    /// The registration-order positions of the descriptors whose name
    /// contains `filter` as a literal substring; an empty filter selects
    /// everything.
    pub fn filtered(&self, filter: &str) -> (r: Vec<usize>)
        ensures
            r@.map_values(|u: usize| u as int) == spec_filtered(self.tests@, filter@),
    {
        let mut r: Vec<usize> = Vec::new();
        let n = self.tests.len();
        let mut i: usize = 0;
        while i < n
            invariant
                n == self.tests@.len(),
                i <= n,
                r@.map_values(|u: usize| u as int) == spec_filtered(
                    self.tests@.take(i as int),
                    filter@,
                ),
            decreases n - i,
        {
            let ghost prefix = self.tests@.take(i as int);
            let ghost rmap = r@.map_values(|u: usize| u as int);
            if str_contains(self.tests[i].name.as_str(), filter) {
                r.push(i);
                proof {
                    assert(r@.map_values(|u: usize| u as int) =~= rmap.push(i as int));
                }
            }
            proof {
                let next = self.tests@.take(i + 1);
                assert(next.drop_last() =~= prefix);
                assert(next.last() == self.tests@[i as int]);
            }
            i += 1;
        }
        proof {
            assert(self.tests@.take(n as int) =~= self.tests@);
        }
        r
    }
}

} // verus!
