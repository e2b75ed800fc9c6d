//! A cache that builds each key's value at most once, however many callers
//! ask for it at the same time: leaf certificates by host name, compiled
//! hook modules by path.
use vstd::prelude::*;
use crate::text::{chars_equal, chars_of};

verus! {

/// What a caller asking for a key's value does next.
#[derive(Clone, Copy, Debug, PartialEq, Eq, Structural)]
pub enum OnceStep {
    /// The value is built: use the one with this number.
    Cached(u64),
    /// Another caller is building this key's value: wait for it.
    Wait,
    /// This caller builds the value, then reports with [`OnceCache::finish`].
    Build,
}

/// Values built at most once per key (leaf certificates by host, compiled
/// modules by path): the built values' numbers by key, and the keys whose
/// value is being built.
#[derive(Debug)]
pub struct OnceCache {
    cached: Vec<(String, u64)>,
    building: Vec<String>,
}

/// Mathematical view of the cache.
pub struct OnceCacheView {
    pub cached: Seq<(Seq<char>, u64)>,
    pub building: Seq<Seq<char>>,
}

impl View for OnceCache {
    type V = OnceCacheView;

    closed spec fn view(&self) -> OnceCacheView {
        OnceCacheView {
            cached: Seq::new(self.cached@.len(), |i: int| (self.cached@[i].0@, self.cached@[i].1)),
            building: Seq::new(self.building@.len(), |i: int| self.building@[i]@),
        }
    }
}

/// The value cached for `key`: the first entry for it.
pub open spec fn cached_for(cached: Seq<(Seq<char>, u64)>, key: Seq<char>) -> Option<u64>
    decreases cached.len(),
{
    if cached.len() == 0 {
        None
    } else if cached[0].0 == key {
        Some(cached[0].1)
    } else {
        cached_for(cached.subrange(1, cached.len() as int), key)
    }
}

/// Whether the value for `key` is being built.
pub open spec fn is_building(building: Seq<Seq<char>>, key: Seq<char>) -> bool {
    exists|i: int| 0 <= i < building.len() && building[i] == key
}

/// The step for a caller asking for `key`'s value.
pub open spec fn spec_step(s: OnceCacheView, key: Seq<char>) -> OnceStep {
    match cached_for(s.cached, key) {
        Some(id) => OnceStep::Cached(id),
        None => if is_building(s.building, key) {
            OnceStep::Wait
        } else {
            OnceStep::Build
        },
    }
}

/// The cache after a caller asked for `key`'s value: a caller told to
/// build marks the key as being built.
pub open spec fn spec_after_begin(s: OnceCacheView, key: Seq<char>) -> OnceCacheView {
    if spec_step(s, key) == OnceStep::Build {
        OnceCacheView { cached: s.cached, building: s.building.push(key) }
    } else {
        s
    }
}

/// Keeps every key but `key`.
pub open spec fn other_than(key: Seq<char>) -> spec_fn(Seq<char>) -> bool {
    |h: Seq<char>| h != key
}

/// The cache after the build for `key` ended: the key is no longer being
/// built, and a built value is cached unless one already is.
pub open spec fn spec_after_finish(s: OnceCacheView, key: Seq<char>, built: Option<u64>) -> OnceCacheView {
    OnceCacheView {
        cached: match built {
            Some(id) => if cached_for(s.cached, key) is None {
                s.cached.push((key, id))
            } else {
                s.cached
            },
            None => s.cached,
        },
        building: s.building.filter(other_than(key)),
    }
}

proof fn lemma_cached_for_push(cached: Seq<(Seq<char>, u64)>, entry: (Seq<char>, u64), key: Seq<char>)
    ensures
        cached_for(cached.push(entry), key) == (if cached_for(cached, key) is Some {
            cached_for(cached, key)
        } else if entry.0 == key {
            Some(entry.1)
        } else {
            None
        }),
    decreases cached.len(),
{
    if cached.len() > 0 {
        assert(cached.push(entry)[0] == cached[0]);
        assert(cached.push(entry).subrange(1, cached.len() + 1int) =~= cached.subrange(1, cached.len() as int).push(entry));
        lemma_cached_for_push(cached.subrange(1, cached.len() as int), entry, key);
    } else {
        assert(cached.push(entry)[0] == entry);
        assert(cached.push(entry).subrange(1, 1) =~= Seq::<(Seq<char>, u64)>::empty());
        assert(cached_for(Seq::<(Seq<char>, u64)>::empty(), key) is None);
    }
}

impl OnceCache {
    /// An empty cache.
    pub fn new() -> (r: OnceCache)
        ensures
            r@.cached.len() == 0,
            r@.building.len() == 0,
    {
        OnceCache { cached: Vec::new(), building: Vec::new() }
    }

    fn lookup(&self, key: &Vec<char>) -> (r: Option<u64>)
        ensures
            r == cached_for(self@.cached, key@),
    {
        let ghost c = self@.cached;
        assert(c.subrange(0, c.len() as int) =~= c);
        let mut i: usize = 0;
        while i < self.cached.len()
            invariant
                i <= self.cached@.len(),
                c == self@.cached,
                cached_for(c.subrange(i as int, c.len() as int), key@) == cached_for(c, key@),
            decreases self.cached@.len() - i,
        {
            let entry = chars_of(self.cached[i].0.as_str());
            let ghost rest = c.subrange(i as int, c.len() as int);
            assert(rest.subrange(1, rest.len() as int) =~= c.subrange(i + 1, c.len() as int));
            if chars_equal(entry.as_slice(), key.as_slice()) {
                return Some(self.cached[i].1);
            }
            i = i + 1;
        }
        None
    }

    fn in_flight(&self, key: &Vec<char>) -> (r: bool)
        ensures
            r == is_building(self@.building, key@),
    {
        let mut i: usize = 0;
        while i < self.building.len()
            invariant
                i <= self.building@.len(),
                forall|j: int| 0 <= j < i ==> self@.building[j] != key@,
            decreases self.building@.len() - i,
        {
            let entry = chars_of(self.building[i].as_str());
            if chars_equal(entry.as_slice(), key.as_slice()) {
                assert(self@.building[i as int] == key@);
                return true;
            }
            i = i + 1;
        }
        false
    }

    /// Asks for `key`'s value: the cached one, or an order to wait for the
    /// build under way, or an order to build it.
    pub fn begin(&mut self, key: &str) -> (r: OnceStep)
        ensures
            r == spec_step(old(self)@, key@),
            final(self)@ == spec_after_begin(old(self)@, key@),
    {
        let h = chars_of(key);
        match self.lookup(&h) {
            Some(id) => OnceStep::Cached(id),
            None => {
                if self.in_flight(&h) {
                    OnceStep::Wait
                } else {
                    let ghost before = self@;
                    self.building.push(key.to_owned());
                    assert(self@.building =~= before.building.push(key@));
                    assert(self@.cached =~= before.cached);
                    OnceStep::Build
                }
            },
        }
    }

    /// Reports the end of the build for `key`, with the number of the built
    /// value, or nothing when building failed (nothing is cached then).
    pub fn finish(&mut self, key: &str, built: Option<u64>)
        ensures
            final(self)@ == spec_after_finish(old(self)@, key@, built),
    {
        let h = chars_of(key);
        let ghost before = self@;
        let mut kept: Vec<String> = Vec::new();
        let mut i: usize = 0;
        while i < self.building.len()
            invariant
                i <= self.building@.len(),
                before == self@,
                h@ == key@,
                Seq::new(kept@.len(), |j: int| kept@[j]@) == before.building.subrange(0, i as int).filter(
                    other_than(key@),
                ),
            decreases self.building@.len() - i,
        {
            let entry = chars_of(self.building[i].as_str());
            let ghost prefix = before.building.subrange(0, i as int);
            assert(before.building.subrange(0, i + 1) =~= prefix.push(before.building[i as int]));
            proof {
                prefix.lemma_filter_push(before.building[i as int], other_than(key@));
            }
            if !chars_equal(entry.as_slice(), h.as_slice()) {
                let ghost old_kept = kept@;
                kept.push(self.building[i].clone());
                assert(Seq::new(kept@.len(), |j: int| kept@[j]@) =~= Seq::new(old_kept.len(), |j: int| old_kept[j]@).push(
                    before.building[i as int],
                ));
            }
            i = i + 1;
        }
        assert(before.building.subrange(0, before.building.len() as int) =~= before.building);
        let cached_now = self.lookup(&h);
        self.building = kept;
        if let Some(id) = built {
            if cached_now.is_none() {
                self.cached.push((key.to_owned(), id));
                assert(self@.cached =~= before.cached.push((key@, id)));
            }
        }
        assert(self@.building =~= spec_after_finish(before, key@, built).building);
    }
}

/// The cache after `n` callers in a row asked for `key`'s value.
pub open spec fn spec_after_begins(s: OnceCacheView, key: Seq<char>, n: nat) -> OnceCacheView
    decreases n,
{
    if n == 0 {
        s
    } else {
        spec_after_begin(spec_after_begins(s, key, (n - 1) as nat), key)
    }
}

/// Of any number of callers asking for a key's value before its build ends,
/// only the first can be told to build: every later one waits or uses the
/// cache, so a leaf certificate is generated (or a module compiled) at most
/// once per key.
pub proof fn lemma_one_build_per_key(s: OnceCacheView, key: Seq<char>, n: nat)
    requires
        n >= 1,
    ensures
        spec_after_begins(s, key, n) == spec_after_begin(s, key),
        spec_step(spec_after_begins(s, key, n), key) != OnceStep::Build,
    decreases n,
{
    let t = spec_after_begin(s, key);
    if spec_step(s, key) == OnceStep::Build {
        assert(t.building[t.building.len() - 1] == key);
    }
    assert(spec_step(t, key) != OnceStep::Build);
    assert(spec_after_begin(t, key) == t);
    if n > 1 {
        lemma_one_build_per_key(s, key, (n - 1) as nat);
        assert(spec_after_begins(s, key, n) == spec_after_begin(spec_after_begins(s, key, (n - 1) as nat), key));
    } else {
        assert(spec_after_begins(s, key, 0) == s);
        assert(spec_after_begins(s, key, n) == spec_after_begin(spec_after_begins(s, key, 0), key));
    }
}

/// Callers and builds for other keys do not change what a caller for
/// `key` is told, so the single build per key holds under any interleaving.
pub proof fn lemma_other_keys_do_not_interfere(s: OnceCacheView, key: Seq<char>, other: Seq<char>, built: Option<u64>)
    requires
        key != other,
    ensures
        spec_step(spec_after_begin(s, other), key) == spec_step(s, key),
        spec_step(spec_after_finish(s, other, built), key) == spec_step(s, key),
{
    let b = spec_after_begin(s, other);
    if spec_step(s, other) == OnceStep::Build {
        assert(is_building(b.building, key) == is_building(s.building, key)) by {
            if is_building(b.building, key) {
                let i = choose|i: int| 0 <= i < b.building.len() && b.building[i] == key;
                assert(i < s.building.len());
            }
            if is_building(s.building, key) {
                let i = choose|i: int| 0 <= i < s.building.len() && s.building[i] == key;
                assert(b.building[i] == key);
            }
        }
    }
    let f = spec_after_finish(s, other, built);
    if let Some(id) = built {
        lemma_cached_for_push(s.cached, (other, id), key);
    }
    let keep = other_than(other);
    assert(is_building(f.building, key) == is_building(s.building, key)) by {
        s.building.filter_lemma(keep);
        if is_building(f.building, key) {
            let i = choose|i: int| 0 <= i < f.building.len() && f.building[i] == key;
            assert(s.building.filter(keep).contains(key));
            s.building.lemma_filter_contains_rev(keep, key);
        }
        if is_building(s.building, key) {
            let i = choose|i: int| 0 <= i < s.building.len() && s.building[i] == key;
            assert(s.building.filter(keep).contains(key));
        }
    }
}

/// After a successful build, every caller for that key gets the same
/// cached value.
pub proof fn lemma_built_value_is_shared(s: OnceCacheView, key: Seq<char>, id: u64)
    requires
        cached_for(s.cached, key) is None,
    ensures
        spec_step(spec_after_finish(s, key, Some(id)), key) == OnceStep::Cached(id),
        spec_after_begin(spec_after_finish(s, key, Some(id)), key) == spec_after_finish(s, key, Some(id)),
{
    lemma_cached_for_push(s.cached, (key, id), key);
}

/// What happens to the cache: a caller asks for a key's value, or the build
/// for a key ends.
pub enum OnceEvent {
    Begin(Seq<char>),
    Finish(Seq<char>, Option<u64>),
}

/// The cache after one event.
pub open spec fn spec_apply(s: OnceCacheView, e: OnceEvent) -> OnceCacheView {
    match e {
        OnceEvent::Begin(k) => spec_after_begin(s, k),
        OnceEvent::Finish(k, built) => spec_after_finish(s, k, built),
    }
}

/// The cache after the events of `trace`, in order.
pub open spec fn spec_run(s: OnceCacheView, trace: Seq<OnceEvent>) -> OnceCacheView
    decreases trace.len(),
{
    if trace.len() == 0 {
        s
    } else {
        spec_apply(spec_run(s, trace.drop_last()), trace.last())
    }
}

/// The event is the end of the build for `key`.
pub open spec fn finishes(e: OnceEvent, key: Seq<char>) -> bool {
    e matches OnceEvent::Finish(k, _) && k == key
}

proof fn lemma_event_keeps_no_build(s: OnceCacheView, e: OnceEvent, key: Seq<char>)
    requires
        spec_step(s, key) != OnceStep::Build,
        !finishes(e, key),
    ensures
        spec_step(spec_apply(s, e), key) != OnceStep::Build,
{
    match e {
        OnceEvent::Begin(k) => {
            if k == key {
                assert(spec_after_begin(s, key) == s);
            } else {
                lemma_other_keys_do_not_interfere(s, key, k, None);
            }
        },
        OnceEvent::Finish(k, built) => {
            lemma_other_keys_do_not_interfere(s, key, k, built);
        },
    }
}

/// Once no build may start for `key`, none does until its build ends,
/// whatever other callers and builds do in between.
pub proof fn lemma_no_build_until_finish(s: OnceCacheView, trace: Seq<OnceEvent>, key: Seq<char>)
    requires
        spec_step(s, key) != OnceStep::Build,
        forall|i: int| 0 <= i < trace.len() ==> !finishes(#[trigger] trace[i], key),
    ensures
        spec_step(spec_run(s, trace), key) != OnceStep::Build,
    decreases trace.len(),
{
    if trace.len() > 0 {
        let prefix = trace.drop_last();
        assert forall|i: int| 0 <= i < prefix.len() implies !finishes(#[trigger] prefix[i], key) by {
            assert(prefix[i] == trace[i]);
        }
        lemma_no_build_until_finish(s, prefix, key);
        lemma_event_keeps_no_build(spec_run(s, prefix), trace.last(), key);
    }
}

/// In any interleaving of callers and builds, a caller told to build a
/// key's value is followed by no other such caller until that build ends:
/// the generator runs at most once per host at a time, and later callers
/// wait or use the cache.
pub proof fn lemma_one_build_in_any_trace(s: OnceCacheView, trace: Seq<OnceEvent>, key: Seq<char>, i: int, j: int)
    requires
        0 <= i < j < trace.len(),
        trace[i] == OnceEvent::Begin(key),
        trace[j] == OnceEvent::Begin(key),
        spec_step(spec_run(s, trace.take(i)), key) == OnceStep::Build,
        forall|k: int| i < k < j ==> !finishes(#[trigger] trace[k], key),
    ensures
        spec_step(spec_run(s, trace.take(j)), key) != OnceStep::Build,
{
    let before = spec_run(s, trace.take(i));
    let after = spec_run(s, trace.take(i + 1));
    assert(trace.take(i + 1).drop_last() =~= trace.take(i));
    assert(after == spec_after_begin(before, key));
    lemma_one_build_per_key(before, key, 1);
    assert(spec_after_begins(before, key, 1) == spec_after_begin(spec_after_begins(before, key, 0), key));
    let middle = trace.subrange(i + 1, j);
    assert forall|k: int| 0 <= k < middle.len() implies !finishes(#[trigger] middle[k], key) by {
        assert(middle[k] == trace[i + 1 + k]);
    }
    lemma_no_build_until_finish(after, middle, key);
    lemma_run_split(s, trace.take(j), i + 1);
    assert(trace.take(j).take(i + 1) =~= trace.take(i + 1));
    assert(trace.take(j).subrange(i + 1, j) =~= middle);
}

proof fn lemma_run_split(s: OnceCacheView, trace: Seq<OnceEvent>, n: int)
    requires
        0 <= n <= trace.len(),
    ensures
        spec_run(s, trace) == spec_run(spec_run(s, trace.take(n)), trace.subrange(n, trace.len() as int)),
    decreases trace.len(),
{
    if trace.len() > n {
        let prefix = trace.drop_last();
        lemma_run_split(s, prefix, n);
        assert(prefix.take(n) =~= trace.take(n));
        let rest = trace.subrange(n, trace.len() as int);
        assert(rest.drop_last() =~= prefix.subrange(n, prefix.len() as int));
    } else {
        assert(trace.take(n) =~= trace);
        assert(trace.subrange(n, trace.len() as int).len() == 0);
    }
}

/// A cached value stays the one cached for its key, whatever callers and
/// builds follow: every caller told to use the cache gets the same value.
pub proof fn lemma_cached_value_is_stable(s: OnceCacheView, trace: Seq<OnceEvent>, key: Seq<char>, id: u64)
    requires
        cached_for(s.cached, key) == Some(id),
    ensures
        cached_for(spec_run(s, trace).cached, key) == Some(id),
        spec_step(spec_run(s, trace), key) == OnceStep::Cached(id),
    decreases trace.len(),
{
    if trace.len() > 0 {
        lemma_cached_value_is_stable(s, trace.drop_last(), key, id);
        let t = spec_run(s, trace.drop_last());
        match trace.last() {
            OnceEvent::Begin(k) => {},
            OnceEvent::Finish(k, built) => {
                if let Some(b) = built {
                    lemma_cached_for_push(t.cached, (k, b), key);
                }
            },
        }
    }
}

} // verus!
