use vstd::prelude::*;

verus! {

/// The bound and the best hit after the first `n` answers of a scan that starts with the
/// upper bound `t_max`: each hit found (a distance and a record) becomes the new bound and
/// replaces the best hit so far.
pub open spec fn scan<S, H>(t_max: S, answers: Seq<Option<(S, H)>>, n: nat) -> (S, Option<(S, H)>)
    decreases n,
{
    if n == 0 {
        (t_max, None)
    } else {
        let prev = scan(t_max, answers, (n - 1) as nat);
        match answers[n - 1] {
            Some(rec) => (rec.0, Some(rec)),
            None => prev,
        }
    }
}

/// `answers` are what `query` returned for the primitives of `objects` in order, each
/// queried with `ray`, `t_min` and the bound left by the answers before it.
pub open spec fn answered<P, R, S, H, F: Fn(&P, &R, S, S) -> Option<(S, H)>>(
    query: F,
    objects: Seq<P>,
    ray: R,
    t_min: S,
    t_max: S,
    answers: Seq<Option<(S, H)>>,
) -> bool {
    &&& answers.len() == objects.len()
    &&& forall|i: int|
        0 <= i < objects.len() ==> query.ensures(
            (&objects[i], &ray, t_min, scan(t_max, answers, i as nat).0),
            #[trigger] answers[i],
        )
}

/// The scene: an ordered collection of primitives, scanned linearly by hit queries.
pub struct World<P> {
    objects: Vec<P>,
}

impl<P> View for World<P> {
    type V = Seq<P>;

    closed spec fn view(&self) -> Seq<P> {
        self.objects@
    }
}

impl<P> World<P> {
    /// An empty scene.
    pub fn new() -> (r: World<P>)
        ensures
            r@ == Seq::<P>::empty(),
    {
        World { objects: Vec::new() }
    }

    /// Appends a primitive after those already in the scene.
    pub fn add(&mut self, object: P)
        ensures
            final(self)@ == old(self)@.push(object),
    {
        self.objects.push(object);
    }

    /// Removes every primitive.
    pub fn clear(&mut self)
        ensures
            final(self)@ == Seq::<P>::empty(),
    {
        self.objects.clear();
    }

    /// The number of primitives.
    pub fn len(&self) -> (r: usize)
        ensures
            r == self@.len(),
    {
        self.objects.len()
    }

    /// The nearest hit of `ray` in the scene within `[t_min, t_max]`, where `query` asks
    /// one primitive for its nearest hit within the given bounds (its distance and record).
    /// Every primitive is queried in order with the closest distance found so far as its
    /// upper bound, so one farther than the current best is not reported, and the last hit
    /// found wins. An empty scene reports nothing.
    pub fn hit<R, S: Copy, H, F: Fn(&P, &R, S, S) -> Option<(S, H)>>(
        &self,
        ray: &R,
        t_min: S,
        t_max: S,
        query: F,
    ) -> (r: Option<(S, H)>)
        requires
            forall|i: int, bound: S|
                0 <= i < self@.len() ==> query.requires((&self@[i], ray, t_min, bound)),
        ensures
            exists|answers: Seq<Option<(S, H)>>|
                #[trigger] answered(query, self@, *ray, t_min, t_max, answers) && r == scan(
                    t_max,
                    answers,
                    answers.len(),
                ).1,
            self@.len() == 0 ==> r.is_none(),
    {
        let mut closest_so_far = t_max;
        let mut best: Option<(S, H)> = None;
        let ghost mut answers: Seq<Option<(S, H)>> = Seq::empty();
        let n = self.objects.len();
        let mut i: usize = 0;
        while i < n
            invariant
                i <= n,
                n == self@.len(),
                answers.len() == i,
                forall|k: int, bound: S|
                    0 <= k < self@.len() ==> query.requires((&self@[k], ray, t_min, bound)),
                forall|k: int|
                    0 <= k < i ==> query.ensures(
                        (&self@[k], ray, t_min, scan(t_max, answers, k as nat).0),
                        #[trigger] answers[k],
                    ),
                (closest_so_far, best) == scan(t_max, answers, i as nat),
            decreases n - i,
        {
            let found = query(&self.objects[i], ray, t_min, closest_so_far);
            proof {
                let prev = answers;
                answers = answers.push(found);
                assert forall|j: nat| j <= i implies #[trigger] scan(t_max, answers, j) == scan(
                    t_max,
                    prev,
                    j,
                ) by {
                    lemma_scan_prefix(t_max, prev, answers, j);
                }
                assert forall|k: int| 0 <= k < i + 1 implies query.ensures(
                    (&self@[k], ray, t_min, scan(t_max, answers, k as nat).0),
                    #[trigger] answers[k],
                ) by {
                    if k < i {
                        assert(answers[k] == prev[k]);
                    }
                }
            }
            match found {
                Some(rec) => {
                    closest_so_far = rec.0;
                    best = Some(rec);
                },
                None => {},
            }
            i = i + 1;
        }
        assert(answered(query, self@, *ray, t_min, t_max, answers));
        best
    }

    /// The primitives, in the order they were added.
    pub fn objects(&self) -> (r: &Vec<P>)
        ensures
            r@ == self@,
    {
        &self.objects
    }
}

proof fn lemma_scan_prefix<S, H>(
    t_max: S,
    a: Seq<Option<(S, H)>>,
    b: Seq<Option<(S, H)>>,
    n: nat,
)
    requires
        n <= a.len(),
        n <= b.len(),
        forall|k: int| 0 <= k < n ==> a[k] == b[k],
    ensures
        scan(t_max, a, n) == scan(t_max, b, n),
    decreases n,
{
    if n > 0 {
        lemma_scan_prefix(t_max, a, b, (n - 1) as nat);
    }
}

} // verus!
