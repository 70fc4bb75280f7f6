use vstd::prelude::*;

verus! {

/// The path after `move_to(p)`: a new subpath that starts at `p`. The
/// previous subpath stays open.
pub open spec fn moved<P>(subpaths: Seq<Seq<P>>, p: P) -> Seq<Seq<P>> {
    subpaths.push(seq![p])
}

/// The path after `line_to(p)`: a straight segment from the last point of
/// the last subpath to `p`. With no subpath yet, `p` starts one.
pub open spec fn lined<P>(subpaths: Seq<Seq<P>>, p: P) -> Seq<Seq<P>> {
    if subpaths.len() == 0 {
        seq![seq![p]]
    } else {
        subpaths.drop_last().push(subpaths.last().push(p))
    }
}

/// The points of each subpath held in `v`.
pub open spec fn polylines<P>(v: Seq<Vec<P>>) -> Seq<Seq<P>> {
    v.map_values(|s: Vec<P>| s@)
}

/// Records move and line commands as subpaths, each a polyline of points.
#[verifier::reject_recursive_types(P)]
pub struct PathBuilder<P> {
    subpaths: Vec<Vec<P>>,
}

impl<P> View for PathBuilder<P> {
    type V = Seq<Seq<P>>;

    closed spec fn view(&self) -> Seq<Seq<P>> {
        polylines(self.subpaths@)
    }
}

impl<P> PathBuilder<P> {
    /// An empty path.
    pub fn new() -> (r: Self)
        ensures
            r@ == Seq::<Seq<P>>::empty(),
    {
        let r = PathBuilder { subpaths: Vec::new() };
        assert(r@ =~= Seq::<Seq<P>>::empty());
        r
    }

    /// Starts a new subpath at `p`.
    pub fn move_to(&mut self, p: P)
        ensures
            final(self)@ == moved(old(self)@, p),
    {
        let mut s: Vec<P> = Vec::new();
        s.push(p);
        self.subpaths.push(s);
        assert(self@ =~= moved(old(self)@, p));
    }

    /// Extends the last subpath with a straight segment to `p`.
    pub fn line_to(&mut self, p: P)
        ensures
            final(self)@ == lined(old(self)@, p),
    {
        match self.subpaths.pop() {
            Some(mut last) => {
                last.push(p);
                self.subpaths.push(last);
            },
            None => {
                let mut s: Vec<P> = Vec::new();
                s.push(p);
                self.subpaths.push(s);
            },
        }
        assert(self@ =~= lined(old(self)@, p));
    }

    /// Hands out the recorded subpaths and leaves the path empty.
    pub fn build_and_reset(&mut self) -> (r: Vec<Vec<P>>)
        ensures
            polylines(r@) == old(self)@,
            final(self)@ == Seq::<Seq<P>>::empty(),
    {
        let mut r: Vec<Vec<P>> = Vec::new();
        std::mem::swap(&mut r, &mut self.subpaths);
        assert(self@ =~= Seq::<Seq<P>>::empty());
        r
    }

    /// How many subpaths are recorded.
    pub fn len(&self) -> (r: usize)
        ensures
            r == self@.len(),
    {
        self.subpaths.len()
    }

    pub fn is_empty(&self) -> (r: bool)
        ensures
            r == (self@.len() == 0),
    {
        self.subpaths.len() == 0
    }
}

} // verus!
