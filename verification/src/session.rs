//! The ownership protocol of one engine and its compiled patterns.
//!
//! An engine handle is created by one call and destroyed by exactly
//! one paired call; a compiled pattern is created by a compile call,
//! destroyed by a free call, and never outlives its engine. A match
//! result aliases engine memory tied to the pattern that produced it,
//! so no new match may be issued against a pattern while a previous
//! result from that same pattern is still being read. At the native
//! layer breaking any of these rules is undefined behaviour, not a
//! recoverable error, so the session records the protocol state and
//! its operations demand, as preconditions, exactly the orderings the
//! engine imposes: a verified caller cannot break them.

use vstd::prelude::*;

verus! {

/// Whether no element of `s` occurs twice.
pub open spec fn distinct(s: Seq<i32>) -> bool {
    forall|i: int, j: int| 0 <= i < j < s.len() ==> s[i] != s[j]
}

/// Whether every lease names a pattern that is still outstanding on a
/// live engine — a result buffer aliases pattern memory, so a lease
/// may never outlive its pattern, nor the engine.
pub open spec fn leases_backed(alive: bool, patterns: Seq<i32>, leases: Seq<i32>) -> bool {
    forall|q: i32| #[trigger] leases.contains(q) ==> alive && patterns.contains(q)
}

proof fn lemma_contains_push(s: Seq<i32>, x: i32, q: i32)
    ensures
        s.push(x).contains(q) <==> (s.contains(q) || q == x),
{
    assert(s.push(x)[s.len() as int] == x);
    if s.contains(q) {
        let k = choose|k: int| 0 <= k < s.len() && s[k] == q;
        assert(s.push(x)[k] == q);
    }
    if s.push(x).contains(q) && q != x {
        let k = choose|k: int| 0 <= k < s.push(x).len() && s.push(x)[k] == q;
        assert(s[k] == q);
    }
}

proof fn lemma_distinct_push(s: Seq<i32>, x: i32)
    requires
        distinct(s),
        !s.contains(x),
    ensures
        distinct(s.push(x)),
{
    assert forall|i: int, j: int|
        0 <= i < j < s.push(x).len() implies s.push(x)[i] != s.push(x)[j] by {
        if j == s.len() {
            if s[i] == x {
                assert(s.contains(x));
            }
        }
    }
}

proof fn lemma_contains_nonempty(s: Seq<i32>, q: i32)
    requires
        s.contains(q),
    ensures
        s.len() > 0,
{
    let k = choose|k: int| 0 <= k < s.len() && s[k] == q;
}

/// The index of the first occurrence of `x` in `v`, if any.
fn index_of(v: &Vec<i32>, x: i32) -> (r: Option<usize>)
    ensures
        r matches Some(i) ==> i < v@.len() && v@[i as int] == x,
        r is None ==> !v@.contains(x),
{
    let mut i: usize = 0;
    while i < v.len()
        invariant
            i <= v@.len(),
            forall|j: int| 0 <= j < i ==> v@[j] != x,
        decreases v@.len() - i,
    {
        if v[i] == x {
            return Some(i);
        }
        i += 1;
    }
    None
}

/// Take the one occurrence of `x` out of a duplicate-free vector,
/// leaving every other element in place.
fn take_out(v: &mut Vec<i32>, x: i32)
    requires
        distinct(old(v)@),
        old(v)@.contains(x),
    ensures
        distinct(final(v)@),
        !final(v)@.contains(x),
        forall|q: i32| q != x ==> final(v)@.contains(q) == old(v)@.contains(q),
        final(v)@.len() == old(v)@.len() - 1,
{
    let ghost old_seq = v@;
    match index_of(v, x) {
        Some(i) => {
            v.remove(i);
            proof {
                old_seq.remove_ensures(i as int);
                let removed = v@;
                assert forall|q: i32| q != x implies removed.contains(q)
                    == old_seq.contains(q) by {
                    if removed.contains(q) {
                        let k = choose|k: int| 0 <= k < removed.len() && removed[k] == q;
                        if k < i {
                            assert(old_seq[k] == q);
                        } else {
                            assert(old_seq[k + 1] == q);
                        }
                    }
                    if old_seq.contains(q) {
                        let k = choose|k: int| 0 <= k < old_seq.len() && old_seq[k] == q;
                        if k < i {
                            assert(removed[k] == q);
                        } else {
                            assert(k != i);
                            assert(removed[k - 1] == q);
                        }
                    }
                }
                assert(!removed.contains(x)) by {
                    if removed.contains(x) {
                        let k = choose|k: int| 0 <= k < removed.len() && removed[k] == x;
                        if k < i {
                            assert(old_seq[k] == x);
                        } else {
                            assert(old_seq[k + 1] == x);
                        }
                    }
                }
                assert forall|a: int, b: int|
                    0 <= a < b < removed.len() implies removed[a] != removed[b] by {
                    let fa: int = if a < i { a } else { a + 1 };
                    let fb: int = if b < i { b } else { b + 1 };
                    assert(removed[a] == old_seq[fa]);
                    assert(removed[b] == old_seq[fb]);
                }
            }
        },
        None => {
            proof {
                assert(false);
            }
        },
    }
}

/// The protocol state of one live engine: which compiled patterns are
/// outstanding, and which of them have a match result that is still
/// being read.
pub struct EngineSession {
    alive: bool,
    patterns: Vec<i32>,
    leases: Vec<i32>,
}

impl EngineSession {
    /// Whether the engine has not been destroyed yet.
    pub closed spec fn spec_alive(&self) -> bool {
        self.alive
    }

    /// The compiled-pattern handles that have not been freed yet.
    pub closed spec fn spec_patterns(&self) -> Seq<i32> {
        self.patterns@
    }

    /// Whether the pattern handle `pat` is outstanding.
    pub open spec fn spec_has(&self, pat: i32) -> bool {
        self.spec_patterns().contains(pat)
    }

    /// The patterns whose match results are still being read.
    pub closed spec fn spec_leases(&self) -> Seq<i32> {
        self.leases@
    }

    /// Whether a match result produced by `pat` is still being read.
    pub open spec fn spec_leased(&self, pat: i32) -> bool {
        self.spec_leases().contains(pat)
    }

    /// Well-formedness: no pattern handle or lease is recorded twice,
    /// every lease names an outstanding pattern of a live engine, and
    /// a destroyed engine has no outstanding patterns at all.
    pub open spec fn wf(&self) -> bool {
        &&& distinct(self.spec_patterns())
        &&& distinct(self.spec_leases())
        &&& leases_backed(self.spec_alive(), self.spec_patterns(), self.spec_leases())
        &&& (!self.spec_alive() ==> self.spec_patterns().len() == 0)
    }

    /// The state right after the engine is created: alive, with no
    /// compiled pattern and no outstanding result.
    pub fn new() -> (r: EngineSession)
        ensures
            r.wf(),
            r.spec_alive(),
            r.spec_patterns().len() == 0,
            r.spec_leases().len() == 0,
    {
        EngineSession { alive: true, patterns: Vec::new(), leases: Vec::new() }
    }

    /// Whether `pat` is an outstanding compiled pattern.
    pub fn has_pattern(&self, pat: i32) -> (r: bool)
        ensures
            r == self.spec_has(pat),
    {
        index_of(&self.patterns, pat).is_some()
    }

    /// Whether a match result produced by `pat` is still being read.
    pub fn is_leased(&self, pat: i32) -> (r: bool)
        ensures
            r == self.spec_leased(pat),
    {
        index_of(&self.leases, pat).is_some()
    }

    /// Record a pattern the engine reported as successfully compiled.
    /// The engine hands out handles it is not already using, so the
    /// recorded handle must be new.
    pub fn note_compiled(&mut self, pat: i32)
        requires
            old(self).wf(),
            old(self).spec_alive(),
            !old(self).spec_has(pat),
        ensures
            final(self).wf(),
            final(self).spec_alive(),
            final(self).spec_patterns() == old(self).spec_patterns().push(pat),
            final(self).spec_has(pat),
            final(self).spec_leases() == old(self).spec_leases(),
    {
        self.patterns.push(pat);
        proof {
            let s = old(self).spec_patterns();
            let t = self.spec_patterns();
            lemma_distinct_push(s, pat);
            lemma_contains_push(s, pat, pat);
            assert forall|q: i32| #[trigger] self.spec_leases().contains(q)
                implies self.spec_alive() && t.contains(q) by {
                lemma_contains_push(s, pat, q);
            }
        }
    }

    /// Record that a match was issued against `pat` and its result is
    /// now being read. The pattern must be outstanding, and no earlier
    /// result of the same pattern may still be outstanding — results
    /// alias memory tied to their pattern.
    pub fn begin_match(&mut self, pat: i32)
        requires
            old(self).wf(),
            old(self).spec_alive(),
            old(self).spec_has(pat),
            !old(self).spec_leased(pat),
        ensures
            final(self).wf(),
            final(self).spec_alive(),
            final(self).spec_patterns() == old(self).spec_patterns(),
            final(self).spec_leases() == old(self).spec_leases().push(pat),
            final(self).spec_leased(pat),
    {
        self.leases.push(pat);
        proof {
            let s = old(self).spec_leases();
            let t = self.spec_leases();
            lemma_distinct_push(s, pat);
            lemma_contains_push(s, pat, pat);
            assert forall|q: i32| #[trigger] t.contains(q)
                implies self.spec_alive() && self.spec_patterns().contains(q) by {
                lemma_contains_push(s, pat, q);
            }
        }
    }

    /// Record that the match result produced by `pat` has been
    /// consumed or released; matching against `pat` may proceed again.
    pub fn end_match(&mut self, pat: i32)
        requires
            old(self).wf(),
            old(self).spec_leased(pat),
        ensures
            final(self).wf(),
            final(self).spec_alive() == old(self).spec_alive(),
            final(self).spec_patterns() == old(self).spec_patterns(),
            !final(self).spec_leased(pat),
            forall|q: i32|
                q != pat ==> final(self).spec_leased(q) == old(self).spec_leased(q),
            final(self).spec_leases().len() == old(self).spec_leases().len() - 1,
    {
        take_out(&mut self.leases, pat);
        proof {
            assert forall|q: i32| #[trigger] self.spec_leases().contains(q)
                implies self.spec_alive() && self.spec_patterns().contains(q) by {
                assert(q != pat);
                assert(old(self).spec_leases().contains(q));
            }
        }
    }

    /// Record that `pat` was freed. The pattern must be outstanding,
    /// and no result of it may still be being read. Every other
    /// pattern stays outstanding.
    pub fn note_freed(&mut self, pat: i32)
        requires
            old(self).wf(),
            old(self).spec_alive(),
            old(self).spec_has(pat),
            !old(self).spec_leased(pat),
        ensures
            final(self).wf(),
            final(self).spec_alive(),
            !final(self).spec_has(pat),
            forall|q: i32| q != pat ==> final(self).spec_has(q) == old(self).spec_has(q),
            final(self).spec_patterns().len() == old(self).spec_patterns().len() - 1,
            final(self).spec_leases() == old(self).spec_leases(),
    {
        take_out(&mut self.patterns, pat);
        proof {
            assert forall|q: i32| #[trigger] self.spec_leases().contains(q)
                implies self.spec_alive() && self.spec_patterns().contains(q) by {
                assert(old(self).spec_leases().contains(q));
                assert(old(self).spec_has(q));
                assert(q != pat);
            }
        }
    }

    /// Whether the engine may be destroyed now: it is alive and every
    /// pattern has been freed, which also means no result is left
    /// outstanding.
    pub fn may_finalize(&self) -> (r: bool)
        requires
            self.wf(),
        ensures
            r == (self.spec_alive() && self.spec_patterns().len() == 0),
            r ==> self.spec_leases().len() == 0,
    {
        proof {
            if self.spec_alive() && self.spec_patterns().len() == 0 && self.spec_leases().len()
                > 0 {
                let q = self.spec_leases()[0];
                assert(self.spec_leases().contains(q));
                lemma_contains_nonempty(self.spec_patterns(), q);
            }
        }
        self.alive && self.patterns.len() == 0
    }

    /// Record that the engine was destroyed: exactly one such call
    /// ends the engine's life, after every pattern derived from it has
    /// been freed.
    pub fn finalize(&mut self)
        requires
            old(self).wf(),
            old(self).spec_alive(),
            old(self).spec_patterns().len() == 0,
        ensures
            final(self).wf(),
            !final(self).spec_alive(),
            final(self).spec_patterns().len() == 0,
            final(self).spec_leases().len() == 0,
    {
        proof {
            if self.spec_leases().len() > 0 {
                let q = self.spec_leases()[0];
                assert(self.spec_leases().contains(q));
                lemma_contains_nonempty(self.spec_patterns(), q);
            }
        }
        self.alive = false;
    }
}

/// Law: patterns are freed before their engine is destroyed. A session
/// in which a pattern is still outstanding is never one that
/// [`EngineSession::finalize`] accepts, and freeing that pattern first
/// is what makes destruction acceptable once the rest of the session
/// is settled.
pub proof fn lemma_free_precedes_finalize(s: EngineSession, pat: i32)
    requires
        s.wf(),
        s.spec_has(pat),
    ensures
        !(s.spec_alive() && s.spec_patterns().len() == 0),
{
    lemma_contains_nonempty(s.spec_patterns(), pat);
}

} // verus!
