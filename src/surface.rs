use vstd::prelude::*;

verus! {

/// The two kinds of drawable primitive a plotting surface accepts.
#[derive(Clone, Copy, Debug, PartialEq, Eq, Structural)]
pub enum Primitive {
    /// Unconnected markers, one per vertex.
    PointSet,
    /// A polyline through the vertices, in order.
    LinePath,
}

/// Mathematical view of one draw call: its kind, the x and y coordinates of
/// its vertices, and the style it was issued with.
pub ghost struct Draw<T, O> {
    pub kind: Primitive,
    pub xs: Seq<T>,
    pub ys: Seq<T>,
    pub style: O,
}

/// One primitive draw call, as recorded on a [`Surface`].
pub struct DrawCall<T, O> {
    pub kind: Primitive,
    pub xs: Vec<T>,
    pub ys: Vec<T>,
    pub style: O,
}

impl<T, O> View for DrawCall<T, O> {
    type V = Draw<T, O>;

    open spec fn view(&self) -> Draw<T, O> {
        Draw { kind: self.kind, xs: self.xs@, ys: self.ys@, style: self.style }
    }
}

/// An append-only plotting surface: it records, in order, every primitive
/// draw call issued against it. A backend replays the calls afterwards.
pub struct Surface<T, O> {
    calls: Vec<DrawCall<T, O>>,
}

impl<T, O> View for Surface<T, O> {
    type V = Seq<Draw<T, O>>;

    closed spec fn view(&self) -> Seq<Draw<T, O>> {
        self.calls@.map_values(|c: DrawCall<T, O>| c@)
    }
}

impl<T, O> Surface<T, O> {
    /// A surface on which nothing has been drawn yet.
    pub fn new() -> (s: Self)
        ensures
            s@ == Seq::<Draw<T, O>>::empty(),
    {
        let s = Surface { calls: Vec::new() };
        proof {
            assert(s@ =~= Seq::<Draw<T, O>>::empty());
        }
        s
    }

    /// Number of draw calls issued so far.
    pub fn len(&self) -> (n: usize)
        ensures
            n == self@.len(),
    {
        self.calls.len()
    }

    /// The draw calls issued so far, oldest first.
    pub fn calls(&self) -> (r: &Vec<DrawCall<T, O>>)
        ensures
            r@.len() == self@.len(),
            forall|i: int| 0 <= i < r@.len() ==> #[trigger] r@[i]@ == self@[i],
    {
        &self.calls
    }

    /// Gives back the recorded draw calls, oldest first.
    pub fn into_calls(self) -> (r: Vec<DrawCall<T, O>>)
        ensures
            r@.len() == self@.len(),
            forall|i: int| 0 <= i < r@.len() ==> #[trigger] r@[i]@ == self@[i],
    {
        self.calls
    }

    fn add(&mut self, kind: Primitive, xs: Vec<T>, ys: Vec<T>, style: O)
        ensures
            final(self)@ == old(self)@.push(Draw { kind, xs: xs@, ys: ys@, style }),
    {
        self.calls.push(DrawCall { kind, xs, ys, style });
        proof {
            assert(self@ =~= old(self)@.push(Draw { kind, xs: xs@, ys: ys@, style }));
        }
    }

    /// Issues one point-set call with the markers `(xs[i], ys[i])`.
    pub fn add_point_set(&mut self, xs: Vec<T>, ys: Vec<T>, style: O)
        ensures
            final(self)@ == old(self)@.push(
                Draw { kind: Primitive::PointSet, xs: xs@, ys: ys@, style },
            ),
    {
        self.add(Primitive::PointSet, xs, ys, style);
    }

    /// Issues one line-path call through the vertices `(xs[i], ys[i])`.
    pub fn add_line_path(&mut self, xs: Vec<T>, ys: Vec<T>, style: O)
        ensures
            final(self)@ == old(self)@.push(
                Draw { kind: Primitive::LinePath, xs: xs@, ys: ys@, style },
            ),
    {
        self.add(Primitive::LinePath, xs, ys, style);
    }
}

} // verus!
