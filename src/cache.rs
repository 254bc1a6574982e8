use vstd::prelude::*;
use crate::format::PixelFormat;

verus! {

/// The formats held after one more request for `f`: unchanged when `f` is
/// already there, else `f` appended.
pub open spec fn requested(keys: Seq<PixelFormat>, f: PixelFormat) -> Seq<PixelFormat> {
    if keys.contains(f) {
        keys
    } else {
        keys.push(f)
    }
}

/// The formats held after the requests `reqs`, in order, starting from `keys`.
pub open spec fn after_requests(keys: Seq<PixelFormat>, reqs: Seq<PixelFormat>) -> Seq<PixelFormat>
    decreases reqs.len(),
{
    if reqs.len() == 0 {
        keys
    } else {
        requested(after_requests(keys, reqs.drop_last()), reqs.last())
    }
}

proof fn lemma_requested_step(keys: Seq<PixelFormat>, f: PixelFormat)
    requires
        keys.no_duplicates(),
    ensures
        requested(keys, f).no_duplicates(),
        requested(keys, f).to_set() == keys.to_set().insert(f),
{
    broadcast use vstd::seq_lib::group_seq_properties, vstd::set::group_set_axioms;
    if keys.contains(f) {
        assert(keys.to_set().insert(f) =~= keys.to_set());
    } else {
        keys.lemma_push_to_set_commute(f);
        let ks = keys.push(f);
        assert forall|a: int, b: int| 0 <= a < ks.len() && 0 <= b < ks.len() && a != b
            implies ks[a] != ks[b] by {
            if a == keys.len() {
                assert(keys[b] == ks[b]);
            } else if b == keys.len() {
                assert(keys[a] == ks[a]);
            }
        }
    }
}

/// Memoization: after any sequence of requests on a table whose formats are
/// distinct, every format requested holds exactly one entry, nothing else was
/// added, and the table has exactly as many entries as distinct formats, so a
/// build happened once per distinct format however often each was requested.
pub proof fn lemma_one_entry_per_format(keys: Seq<PixelFormat>, reqs: Seq<PixelFormat>)
    requires
        keys.no_duplicates(),
    ensures
        after_requests(keys, reqs).no_duplicates(),
        after_requests(keys, reqs).to_set() == keys.to_set() + reqs.to_set(),
        after_requests(keys, reqs).len() == (keys.to_set() + reqs.to_set()).len(),
    decreases reqs.len(),
{
    broadcast use vstd::seq_lib::group_seq_properties, vstd::set::group_set_axioms;
    if reqs.len() == 0 {
        assert(reqs.to_set() =~= Set::<PixelFormat>::empty());
        assert(keys.to_set() + reqs.to_set() =~= keys.to_set());
    } else {
        let init = reqs.drop_last();
        lemma_one_entry_per_format(keys, init);
        lemma_requested_step(after_requests(keys, init), reqs.last());
        init.lemma_push_to_set_commute(reqs.last());
        assert(init.push(reqs.last()) =~= reqs);
        assert(keys.to_set() + reqs.to_set() =~= (keys.to_set() + init.to_set()).insert(reqs.last()));
    }
    after_requests(keys, reqs).unique_seq_to_set();
}

/// A request for a format that already has an entry changes nothing.
pub proof fn lemma_repeat_request_is_free(keys: Seq<PixelFormat>, reqs: Seq<PixelFormat>, f: PixelFormat)
    requires
        after_requests(keys, reqs).contains(f),
    ensures
        after_requests(keys, reqs.push(f)) == after_requests(keys, reqs),
{
    assert(reqs.push(f).drop_last() =~= reqs);
}

/// Cache growth: requesting two distinct formats F1, F2, then F1 again, from
/// an empty table leaves exactly two entries, and the second F1 request adds
/// nothing.
pub proof fn lemma_two_formats_two_entries(f1: PixelFormat, f2: PixelFormat)
    requires
        f1 != f2,
    ensures
        after_requests(Seq::empty(), seq![f1, f2, f1]).len() == 2,
        after_requests(Seq::empty(), seq![f1, f2, f1]) == after_requests(Seq::empty(), seq![f1, f2]),
{
    let e = Seq::<PixelFormat>::empty();
    assert(seq![f1, f2, f1].drop_last() =~= seq![f1, f2]);
    assert(seq![f1, f2].drop_last() =~= seq![f1]);
    assert(seq![f1].drop_last() =~= e);
    assert(after_requests(e, e) == e);
    assert(!e.contains(f1));
    assert(e.push(f1) =~= seq![f1]);
    assert(after_requests(e, seq![f1]) =~= seq![f1]);
    assert(!seq![f1].contains(f2)) by {
        assert(seq![f1][0] == f1);
    }
    assert(after_requests(e, seq![f1, f2]) =~= seq![f1, f2]);
    assert(seq![f1, f2][0] == f1);
}

/// A table from pixel format to the pipeline built for it.
///
/// Each format has at most one entry, and entries are never removed: the
/// table only grows with the set of formats ever requested.
pub struct PipelineCache<P> {
    formats: Vec<PixelFormat>,
    pipelines: Vec<P>,
}

impl<P> PipelineCache<P> {
    /// The formats held, in the order they were first requested.
    pub closed spec fn keys(&self) -> Seq<PixelFormat> {
        self.formats@
    }

    /// The pipelines held; the one at index `i` belongs to `keys()[i]`.
    pub closed spec fn values(&self) -> Seq<P> {
        self.pipelines@
    }

    pub open spec fn wf(&self) -> bool {
        &&& self.keys().len() == self.values().len()
        &&& self.keys().no_duplicates()
    }

    /// Whether `f` has a pipeline.
    pub open spec fn has(&self, f: PixelFormat) -> bool {
        self.keys().contains(f)
    }

    /// An empty table.
    pub fn new() -> (r: Self)
        ensures
            r.wf(),
            r.keys() == Seq::<PixelFormat>::empty(),
            r.values() == Seq::<P>::empty(),
    {
        PipelineCache { formats: Vec::new(), pipelines: Vec::new() }
    }

    /// The number of formats with a pipeline.
    pub fn len(&self) -> (r: usize)
        requires
            self.wf(),
        ensures
            r == self.keys().len(),
    {
        self.formats.len()
    }

    /// The index of the entry for `f`, if there is one.
    pub fn find(&self, f: PixelFormat) -> (r: Option<usize>)
        requires
            self.wf(),
        ensures
            r is None <==> !self.has(f),
            r matches Some(i) ==> i < self.keys().len() && self.keys()[i as int] == f,
    {
        let mut i: usize = 0;
        while i < self.formats.len()
            invariant
                i <= self.formats@.len(),
                forall|j: int| 0 <= j < i ==> self.formats@[j] != f,
            decreases self.formats@.len() - i,
        {
            if self.formats[i] == f {
                return Some(i);
            }
            i = i + 1;
        }
        None
    }

    /// The pipeline at index `i`.
    pub fn get(&self, i: usize) -> (r: &P)
        requires
            self.wf(),
            i < self.keys().len(),
        ensures
            *r == self.values()[i as int],
    {
        &self.pipelines[i]
    }

    /// Adds an entry for a format that has none.
    pub fn insert(&mut self, f: PixelFormat, p: P)
        requires
            old(self).wf(),
            !old(self).has(f),
        ensures
            final(self).wf(),
            final(self).keys() == old(self).keys().push(f),
            final(self).values() == old(self).values().push(p),
    {
        self.formats.push(f);
        self.pipelines.push(p);
        proof {
            let ks = self.formats@;
            assert forall|a: int, b: int| 0 <= a < ks.len() && 0 <= b < ks.len() && a != b
                implies ks[a] != ks[b] by {
                if a == ks.len() - 1 {
                    assert(old(self).keys()[b] == ks[b]);
                } else if b == ks.len() - 1 {
                    assert(old(self).keys()[a] == ks[a]);
                }
            }
        }
    }

    /// The index of the entry for `f`, building it with `build` first when
    /// there is none. `build` runs only on a miss, and a hit leaves the table
    /// as it was, so each format is built at most once. When the build fails
    /// the result is `None` and the table is left as it was.
    pub fn get_or_try_insert_with<F: FnOnce(PixelFormat) -> Option<P>>(&mut self, f: PixelFormat, build: F) -> (r: Option<usize>)
        requires
            old(self).wf(),
            call_requires(build, (f,)),
        ensures
            final(self).wf(),
            old(self).has(f) ==> r is Some && final(self).values() == old(self).values(),
            r matches Some(i) ==> final(self).keys() == requested(old(self).keys(), f)
                && i < final(self).keys().len() && final(self).keys()[i as int] == f,
            r matches Some(i) && !old(self).has(f) ==> final(self).values().drop_last() == old(self).values()
                && call_ensures(build, (f,), Some(final(self).values().last())),
            r is None ==> !old(self).has(f) && call_ensures(build, (f,), None::<P>)
                && final(self).keys() == old(self).keys() && final(self).values() == old(self).values(),
    {
        match self.find(f) {
            Some(i) => Some(i),
            None => {
                match build(f) {
                    Some(p) => {
                        self.insert(f, p);
                        proof {
                            assert(self.values().drop_last() =~= old(self).values());
                        }
                        Some(self.formats.len() - 1)
                    },
                    None => None,
                }
            },
        }
    }
}

} // verus!
