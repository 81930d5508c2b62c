//! The catalog of registered providers.
use vstd::prelude::*;

use crate::plugin::{CoreError, Plugin};
use crate::sorting::{
    insert_desc, insert_point, key_is, lemma_insert_desc_split, lemma_insert_point,
    lemma_sort_desc_sorted, lemma_sort_desc_stable, sort_desc, sorted_desc,
};
use crate::text::str_eq;
use crate::trigger::spec_matches;

verus! {

/// Orders matched providers by descending priority.
pub open spec fn prio_key<P: Plugin>() -> spec_fn(P) -> int {
    |p: P| p.spec_priority()
}

/// The providers whose trigger claims `q`.
pub open spec fn claims_query<P: Plugin>(q: Seq<char>) -> spec_fn(P) -> bool {
    |p: P| spec_matches(p.spec_trigger(), q) is Some
}

/// The providers whose trigger is implicit.
pub open spec fn is_implicit_provider<P: Plugin>() -> spec_fn(P) -> bool {
    |p: P| p.spec_trigger() is Implicit
}

/// A sequence of borrowed providers, as the providers themselves.
pub open spec fn refs_to_vals<P>(s: Seq<&P>) -> Seq<P> {
    s.map_values(|p: &P| *p)
}

proof fn lemma_refs_to_vals<P>(s: Seq<&P>)
    ensures
        refs_to_vals(s).len() == s.len(),
        forall|i: int| 0 <= i < s.len() ==> refs_to_vals(s)[i] == *(#[trigger] s[i]),
{
}

/// What matching a query against a catalog returns: the providers whose
/// trigger claims the query, stably sorted by descending priority.
pub open spec fn spec_match_plugins<P: Plugin>(s: Seq<P>, q: Seq<char>) -> Seq<P> {
    sort_desc(s.filter(claims_query(q)), prio_key())
}

/// The catalog mapping each provider id to its registered provider.
/// Registration order is kept; ids are unique.
pub struct PluginRegistry<P: Plugin> {
    plugins: Vec<P>,
}

impl<P: Plugin> View for PluginRegistry<P> {
    type V = Seq<P>;

    closed spec fn view(&self) -> Seq<P> {
        self.plugins@
    }
}

impl<P: Plugin> PluginRegistry<P> {
    /// No two registered providers share an id.
    pub open spec fn wf(&self) -> bool {
        forall|i: int, j: int|
            #![trigger self@[i], self@[j]]
            0 <= i < j < self@.len() ==> self@[i].spec_id() != self@[j].spec_id()
    }

    /// Some registered provider reports `id`.
    pub open spec fn spec_contains_id(&self, id: Seq<char>) -> bool {
        exists|i: int| 0 <= i < self@.len() && (#[trigger] self@[i]).spec_id() == id
    }

    pub fn new() -> (r: Self)
        ensures
            r@ =~= Seq::<P>::empty(),
            r.wf(),
    {
        Self { plugins: Vec::new() }
    }

    /// Add a provider. Fails with `DuplicateId`, changing nothing, when a
    /// provider with the same id is already registered; otherwise the
    /// provider becomes visible to all subsequent lookups and matches.
    pub fn register(&mut self, plugin: P) -> (r: Result<(), CoreError>)
        requires
            old(self).wf(),
        ensures
            final(self).wf(),
            old(self).spec_contains_id(plugin.spec_id()) ==> {
                &&& r matches Err(CoreError::DuplicateId { id }) && id@ == plugin.spec_id()
                &&& final(self)@ == old(self)@
            },
            !old(self).spec_contains_id(plugin.spec_id()) ==> {
                &&& r is Ok
                &&& final(self)@ == old(self)@.push(plugin)
            },
    {
        let n = self.plugins.len();
        let mut i: usize = 0;
        while i < n
            invariant
                0 <= i <= n,
                n == self@.len(),
                *self == *old(self),
                old(self).wf(),
                forall|j: int| 0 <= j < i ==> (#[trigger] self@[j]).spec_id() != plugin.spec_id(),
            decreases n - i,
        {
            if str_eq(self.plugins[i].id(), plugin.id()) {
                return Err(CoreError::DuplicateId { id: plugin.id().to_owned() });
            }
            i = i + 1;
        }
        self.plugins.push(plugin);
        proof {
            assert forall|a: int, b: int|
                0 <= a < b < self@.len() implies (#[trigger] self@[a]).spec_id() != (
            #[trigger] self@[b]).spec_id() by {
                if b < self@.len() - 1 {
                    assert(old(self)@[a].spec_id() != old(self)@[b].spec_id());
                }
            }
        }
        Ok(())
    }

    /// Remove the provider registered under `plugin_id`. Fails with
    /// `NotFound`, changing nothing, when no provider has that id.
    pub fn unregister(&mut self, plugin_id: &str) -> (r: Result<(), CoreError>)
        requires
            old(self).wf(),
        ensures
            final(self).wf(),
            !old(self).spec_contains_id(plugin_id@) ==> {
                &&& r matches Err(CoreError::NotFound { id }) && id@ == plugin_id@
                &&& final(self)@ == old(self)@
            },
            old(self).spec_contains_id(plugin_id@) ==> {
                &&& r is Ok
                &&& exists|i: int|
                    {
                        &&& 0 <= i < old(self)@.len()
                        &&& (#[trigger] old(self)@[i]).spec_id() == plugin_id@
                        &&& final(self)@ == old(self)@.remove(i)
                    }
            },
    {
        let n = self.plugins.len();
        let mut i: usize = 0;
        while i < n
            invariant
                0 <= i <= n,
                n == self@.len(),
                *self == *old(self),
                old(self).wf(),
                forall|j: int| 0 <= j < i ==> (#[trigger] self@[j]).spec_id() != plugin_id@,
            decreases n - i,
        {
            if str_eq(self.plugins[i].id(), plugin_id) {
                self.plugins.remove(i);
                proof {
                    assert(final(self)@ == old(self)@.remove(i as int));
                    assert forall|a: int, b: int|
                        0 <= a < b < self@.len() implies (#[trigger] self@[a]).spec_id() != (
                    #[trigger] self@[b]).spec_id() by {
                        let a0 = if a < i as int {
                            a
                        } else {
                            a + 1
                        };
                        let b0 = if b < i as int {
                            b
                        } else {
                            b + 1
                        };
                        assert(old(self)@[a0].spec_id() != old(self)@[b0].spec_id());
                    }
                }
                return Ok(());
            }
            i = i + 1;
        }
        Err(CoreError::NotFound { id: plugin_id.to_owned() })
    }

    /// The provider registered under `plugin_id`, when there is one.
    /// Absence is a normal outcome, not an error.
    pub fn get(&self, plugin_id: &str) -> (r: Option<&P>)
        ensures
            r is Some <==> self.spec_contains_id(plugin_id@),
            r matches Some(p) ==> p.spec_id() == plugin_id@ && self@.contains(*p),
    {
        let n = self.plugins.len();
        let mut i: usize = 0;
        while i < n
            invariant
                0 <= i <= n,
                n == self@.len(),
                forall|j: int| 0 <= j < i ==> (#[trigger] self@[j]).spec_id() != plugin_id@,
            decreases n - i,
        {
            if str_eq(self.plugins[i].id(), plugin_id) {
                return Some(&self.plugins[i]);
            }
            i = i + 1;
        }
        None
    }

    /// Every provider whose trigger claims `query`, ordered by descending
    /// priority; providers of equal priority keep registration order.
    pub fn match_plugins(&self, query: &str) -> (r: Vec<&P>)
        ensures
            refs_to_vals(r@) == spec_match_plugins(self@, query@),
    {
        let n = self.plugins.len();
        let mut matched: Vec<&P> = Vec::new();
        let mut i: usize = 0;
        while i < n
            invariant
                0 <= i <= n,
                n == self@.len(),
                refs_to_vals(matched@) == self@.take(i as int).filter(claims_query(query@)),
            decreases n - i,
        {
            let p = &self.plugins[i];
            let claimed = p.trigger().matches(query).is_some();
            proof {
                reveal_with_fuel(Seq::filter, 2);
                assert(self@.take(i + 1).drop_last() =~= self@.take(i as int));
                assert(self@.take(i + 1).last() == self@[i as int]);
            }
            if claimed {
                let ghost pre = matched@;
                matched.push(p);
                proof {
                    lemma_refs_to_vals(pre);
                    lemma_refs_to_vals(matched@);
                    assert(refs_to_vals(matched@) =~= self@.take(i as int).filter(
                        claims_query(query@),
                    ).push(self@[i as int]));
                }
            }
            i = i + 1;
        }
        proof {
            assert(self@.take(n as int) =~= self@);
        }
        sort_by_priority(matched)
    }

    /// The providers whose trigger is implicit, in registration order.
    pub fn implicit_plugins(&self) -> (r: Vec<&P>)
        ensures
            refs_to_vals(r@) == self@.filter(is_implicit_provider()),
    {
        let n = self.plugins.len();
        let mut out: Vec<&P> = Vec::new();
        let mut i: usize = 0;
        while i < n
            invariant
                0 <= i <= n,
                n == self@.len(),
                refs_to_vals(out@) == self@.take(i as int).filter(is_implicit_provider()),
            decreases n - i,
        {
            let p = &self.plugins[i];
            let implicit = p.trigger().is_implicit();
            proof {
                reveal_with_fuel(Seq::filter, 2);
                assert(self@.take(i + 1).drop_last() =~= self@.take(i as int));
                assert(self@.take(i + 1).last() == self@[i as int]);
            }
            if implicit {
                let ghost pre = out@;
                out.push(p);
                proof {
                    lemma_refs_to_vals(pre);
                    lemma_refs_to_vals(out@);
                    assert(refs_to_vals(out@) =~= self@.take(i as int).filter(
                        is_implicit_provider(),
                    ).push(self@[i as int]));
                }
            }
            i = i + 1;
        }
        proof {
            assert(self@.take(n as int) =~= self@);
        }
        out
    }

    /// Every registered provider, in registration order.
    pub fn all_plugins(&self) -> (r: Vec<&P>)
        ensures
            refs_to_vals(r@) == self@,
    {
        let n = self.plugins.len();
        let mut out: Vec<&P> = Vec::new();
        let mut i: usize = 0;
        while i < n
            invariant
                0 <= i <= n,
                n == self@.len(),
                refs_to_vals(out@) == self@.take(i as int),
            decreases n - i,
        {
            let ghost pre = out@;
            out.push(&self.plugins[i]);
            proof {
                lemma_refs_to_vals(pre);
                lemma_refs_to_vals(out@);
                assert(refs_to_vals(out@) =~= self@.take(i + 1));
            }
            i = i + 1;
        }
        proof {
            assert(self@.take(n as int) =~= self@);
        }
        out
    }

    /// How many providers are registered.
    pub fn count(&self) -> (n: usize)
        ensures
            n == self@.len(),
    {
        self.plugins.len()
    }
}

impl<P: Plugin> Default for PluginRegistry<P> {
    fn default() -> (r: Self)
        ensures
            r@ =~= Seq::<P>::empty(),
            r.wf(),
    {
        Self::new()
    }
}

/// Matched providers come out ordered by descending priority, and
/// providers of equal priority keep their relative registration order.
pub proof fn lemma_match_plugins_ordered<P: Plugin>(s: Seq<P>, q: Seq<char>, v: int)
    ensures
        sorted_desc(spec_match_plugins(s, q), prio_key::<P>()),
        spec_match_plugins(s, q).filter(key_is(prio_key::<P>(), v)) == s.filter(
            claims_query(q),
        ).filter(key_is(prio_key::<P>(), v)),
{
    lemma_sort_desc_sorted(s.filter(claims_query(q)), prio_key::<P>());
    lemma_sort_desc_stable(s.filter(claims_query(q)), prio_key::<P>(), v);
}

/// Stable insertion sort of borrowed providers by descending priority.
fn sort_by_priority<'a, P: Plugin>(mut input: Vec<&'a P>) -> (r: Vec<&'a P>)
    ensures
        refs_to_vals(r@) == sort_desc(refs_to_vals(input@), prio_key()),
{
    let ghost orig = refs_to_vals(input@);
    let mut out: Vec<&P> = Vec::new();
    let ghost mut k: int = 0;
    while input.len() > 0
        invariant
            0 <= k <= orig.len(),
            refs_to_vals(input@) == orig.skip(k),
            refs_to_vals(out@) == sort_desc(orig.take(k), prio_key()),
        decreases input@.len(),
    {
        let ghost pre = input@;
        let x = input.remove(0);
        proof {
            lemma_refs_to_vals(pre);
            lemma_refs_to_vals(input@);
            assert(refs_to_vals(pre)[0] == *x);
            assert(*x == orig[k]);
            assert(refs_to_vals(input@) =~= orig.skip(k + 1));
        }
        insert_by_priority(&mut out, x);
        proof {
            k = k + 1;
            assert(orig.take(k).drop_last() =~= orig.take(k - 1));
            assert(orig.take(k).last() == orig[k - 1]);
        }
    }
    proof {
        assert(orig.take(k) =~= orig);
    }
    out
}

/// Place one provider after every one already sorted in whose priority is
/// at least its own.
fn insert_by_priority<'a, P: Plugin>(out: &mut Vec<&'a P>, x: &'a P)
    ensures
        refs_to_vals(final(out)@) == insert_desc(refs_to_vals(old(out)@), *x, prio_key()),
{
    let ghost vals = refs_to_vals(out@);
    let xp = x.priority();
    let n = out.len();
    let mut i: usize = 0;
    while i < n && out[i].priority() >= xp
        invariant
            0 <= i <= n,
            n == out@.len(),
            out@ == old(out)@,
            vals == refs_to_vals(out@),
            xp as int == x.spec_priority(),
            forall|j: int| 0 <= j < i ==> (*#[trigger] out@[j]).spec_priority() >= x.spec_priority(),
        decreases n - i,
    {
        i = i + 1;
    }
    proof {
        lemma_refs_to_vals(out@);
        lemma_insert_point(vals, *x, prio_key());
        assert(insert_point(vals, *x, prio_key()) == i as int) by {
            lemma_refs_to_vals(out@);
            lemma_insert_point(vals, *x, prio_key());
            let ip = insert_point(vals, *x, prio_key());
            if ip < i as int {
                assert(vals[ip] == *out@[ip]);
            }
            if ip > i as int {
                assert(vals[i as int] == *out@[i as int]);
            }
        }
        lemma_insert_desc_split(vals, *x, prio_key());
    }
    let ghost pre = out@;
    out.insert(i, x);
    proof {
        lemma_refs_to_vals(pre);
        lemma_refs_to_vals(out@);
        assert(refs_to_vals(out@) =~= vals.take(i as int) + seq![*x] + vals.skip(i as int));
    }
}

} // verus!
