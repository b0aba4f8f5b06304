use vstd::prelude::*;

verus! {

/// An ordered scene: the objects that a nearest-hit search walks, in the
/// order in which they were added.
pub struct HittableList<T> {
    objects: Vec<T>,
}

impl<T> View for HittableList<T> {
    type V = Seq<T>;

    closed spec fn view(&self) -> Seq<T> {
        self.objects@
    }
}

/// `kept` and `found` record a nearest-hit search over `objects` with
/// `query`: the search starts with nothing kept, object `i` is queried with
/// `kept[i]`, what it reports is `found[i]`, and a reported hit replaces what
/// was kept.
pub open spec fn search_trace<T, R, F: Fn(&T, Option<R>) -> Option<R>>(
    objects: Seq<T>,
    query: F,
    kept: Seq<Option<R>>,
    found: Seq<Option<R>>,
) -> bool {
    &&& kept.len() == objects.len() + 1
    &&& found.len() == objects.len()
    &&& kept[0] is None
    &&& forall|i: int|
        0 <= i < objects.len() ==> #[trigger] query.ensures((&objects[i], kept[i]), found[i])
    &&& forall|i: int|
        0 <= i < objects.len() ==> #[trigger] kept[i + 1] == (if found[i] is Some {
            found[i]
        } else {
            kept[i]
        })
}

/// Each query of the search reports a hit only when it is strictly nearer,
/// by `dist`, than the hit it was given.
pub open spec fn reports_only_nearer<T, R>(
    kept: Seq<Option<R>>,
    found: Seq<Option<R>>,
    dist: spec_fn(R) -> int,
) -> bool {
    forall|i: int|
        #![trigger found[i]]
        0 <= i < found.len() && found[i] is Some && kept[i] is Some ==> dist(found[i]->0) < dist(
            kept[i]->0,
        )
}

proof fn lemma_search_prefix<T, R, F: Fn(&T, Option<R>) -> Option<R>>(
    objects: Seq<T>,
    query: F,
    kept: Seq<Option<R>>,
    found: Seq<Option<R>>,
    dist: spec_fn(R) -> int,
    k: int,
)
    requires
        search_trace(objects, query, kept, found),
        reports_only_nearer::<T, R>(kept, found, dist),
        0 <= k <= objects.len(),
    ensures
        kept[k] is Some <==> exists|i: int| 0 <= i < k && #[trigger] found[i] is Some,
        kept[k] is Some ==> exists|i: int| 0 <= i < k && #[trigger] found[i] == kept[k],
        forall|i: int|
            0 <= i < k && #[trigger] found[i] is Some ==> dist(kept[k]->0) <= dist(found[i]->0),
    decreases k,
{
    if k > 0 {
        lemma_search_prefix(objects, query, kept, found, dist, k - 1);
        let j = k - 1;
        assert(kept[j + 1] == (if found[j] is Some { found[j] } else { kept[j] }));
        if found[j] is Some {
            assert(found[j] == kept[k]);
        } else {
            if kept[k] is Some {
                let w = choose|i: int| 0 <= i < j && #[trigger] found[i] == kept[j];
                assert(0 <= w < k && found[w] == kept[k]);
            }
            assert forall|i: int| 0 <= i < k && #[trigger] found[i] is Some implies exists|
                m: int,
            | 0 <= m < j && #[trigger] found[m] is Some by {
                assert(i < j);
            }
        }
    }
}

/// Nearest hit wins: where each query reports only hits strictly nearer
/// than the one it is given, the search ends with a hit exactly when some
/// object reported one, the hit it ends with is one that was reported, and
/// no reported hit is nearer.
pub proof fn lemma_search_keeps_nearest<T, R, F: Fn(&T, Option<R>) -> Option<R>>(
    objects: Seq<T>,
    query: F,
    kept: Seq<Option<R>>,
    found: Seq<Option<R>>,
    dist: spec_fn(R) -> int,
)
    requires
        search_trace(objects, query, kept, found),
        reports_only_nearer::<T, R>(kept, found, dist),
    ensures
        kept.last() is Some <==> exists|i: int| 0 <= i < found.len() && #[trigger] found[i] is Some,
        kept.last() is Some ==> exists|i: int|
            0 <= i < found.len() && #[trigger] found[i] == kept.last(),
        forall|i: int|
            0 <= i < found.len() && #[trigger] found[i] is Some ==> dist(kept.last()->0) <= dist(
                found[i]->0,
            ),
{
    lemma_search_prefix(objects, query, kept, found, dist, objects.len() as int);
}

impl<T> HittableList<T> {
    /// A scene that holds `object` alone.
    pub fn new(object: T) -> (r: Self)
        ensures
            r@ == seq![object],
    {
        let mut objects: Vec<T> = Vec::new();
        objects.push(object);
        HittableList { objects }
    }

    /// Appends `object` after every object already in the scene.
    pub fn add(&mut self, object: T)
        ensures
            final(self)@ == old(self)@.push(object),
    {
        self.objects.push(object);
    }

    /// Walks the objects in order, asking `query` of each whether it is hit,
    /// given the nearest hit kept so far (whose distance bounds the search),
    /// and keeps each hit reported. Returns the last hit kept: the nearest,
    /// where each query only reports hits nearer than the one it is given.
    pub fn hit<R: Copy, F: Fn(&T, Option<R>) -> Option<R>>(&self, query: F) -> (r: Option<R>)
        requires
            forall|o: &T, best: Option<R>| #[trigger] query.requires((o, best)),
        ensures
            exists|kept: Seq<Option<R>>, found: Seq<Option<R>>|
                search_trace(self@, query, kept, found) && r == kept.last(),
    {
        let mut best: Option<R> = None;
        let ghost mut kept: Seq<Option<R>> = seq![None];
        let ghost mut found: Seq<Option<R>> = Seq::empty();
        let mut i: usize = 0;
        while i < self.objects.len()
            invariant
                0 <= i <= self@.len(),
                forall|o: &T, b: Option<R>| #[trigger] query.requires((o, b)),
                kept.len() == i + 1,
                found.len() == i,
                kept[0] is None,
                best == kept.last(),
                forall|j: int| 0 <= j < i ==> #[trigger] query.ensures((&self@[j], kept[j]), found[j]),
                forall|j: int|
                    0 <= j < i ==> #[trigger] kept[j + 1] == (if found[j] is Some {
                        found[j]
                    } else {
                        kept[j]
                    }),
            decreases self@.len() - i,
        {
            let out = query(&self.objects[i], best);
            proof {
                found = found.push(out);
                kept = kept.push(if out is Some { out } else { best });
            }
            if out.is_some() {
                best = out;
            }
            i += 1;
        }
        assert(search_trace(self@, query, kept, found));
        best
    }

    /// The number of objects in the scene.
    pub fn len(&self) -> (r: usize)
        ensures
            r == self@.len(),
    {
        self.objects.len()
    }

    /// The objects of the scene, in insertion order.
    pub fn objects(&self) -> (r: &[T])
        ensures
            r@ == self@,
    {
        self.objects.as_slice()
    }
}

} // verus!
