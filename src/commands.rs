//! What one frame records: geometry draws for the first subpass, then the
//! ambient pass and the light passes of the lighting subpass.
use vstd::prelude::*;

verus! {

/// A light pass, carrying the parameters that its uniform block receives.
#[derive(Clone, Debug, PartialEq, Eq)]
pub enum Light<P, D> {
    Point(P),
    Directional(D),
}

/// One recorded GPU command, in the order in which it is replayed.
#[derive(Clone, Debug, PartialEq, Eq)]
pub enum Command<G, P, D> {
    /// Draws one object into the geometry subpass.
    Geometry(G),
    /// Moves to the lighting subpass and draws the ambient full-screen quad.
    Ambient,
    /// Draws one light's full-screen quad, blended additively.
    Light(Light<P, D>),
}

/// The commands of one frame in progress. The ambient pass needs no
/// parameters of its own: it stands between the geometry draws and the
/// lights, and its presence is tracked by the frame's stage.
#[derive(Clone, Debug)]
pub struct Frame<G, P, D> {
    pub geometry: Vec<G>,
    pub lights: Vec<Light<P, D>>,
}

/// The mathematical content of a `Frame`.
pub struct FrameView<G, P, D> {
    pub geometry: Seq<G>,
    pub lights: Seq<Light<P, D>>,
}

impl<G, P, D> View for Frame<G, P, D> {
    type V = FrameView<G, P, D>;

    open spec fn view(&self) -> FrameView<G, P, D> {
        FrameView { geometry: self.geometry@, lights: self.lights@ }
    }
}

impl<G, P, D> FrameView<G, P, D> {
    /// A frame with nothing recorded yet.
    pub open spec fn empty() -> Self {
        FrameView { geometry: Seq::empty(), lights: Seq::empty() }
    }

    /// The command stream of a finished frame: every geometry draw, then the
    /// ambient pass, then every light in the order recorded.
    pub open spec fn commands(self) -> Seq<Command<G, P, D>> {
        Self::geometry_commands(self.geometry).add(seq![Command::Ambient]).add(
            Self::light_commands(self.lights),
        )
    }

    pub open spec fn geometry_commands(gs: Seq<G>) -> Seq<Command<G, P, D>> {
        gs.map_values(|g: G| Command::<G, P, D>::Geometry(g))
    }

    pub open spec fn light_commands(ls: Seq<Light<P, D>>) -> Seq<Command<G, P, D>> {
        ls.map_values(|l: Light<P, D>| Command::<G, P, D>::Light(l))
    }
}

impl<G, P, D> Frame<G, P, D> {
    pub fn new() -> (f: Self)
        ensures
            f@ == FrameView::<G, P, D>::empty(),
    {
        let f = Frame { geometry: Vec::new(), lights: Vec::new() };
        assert(f@.geometry =~= Seq::<G>::empty());
        assert(f@.lights =~= Seq::<Light<P, D>>::empty());
        f
    }

    /// Flattens a finished frame into the command stream that is replayed
    /// into one command buffer.
    pub fn into_commands(self) -> (r: Vec<Command<G, P, D>>)
        ensures
            r@ == self@.commands(),
    {
        let ghost geometry = self.geometry@;
        let ghost lights = self.lights@;
        let mut out: Vec<Command<G, P, D>> = Vec::new();
        for g in it: self.geometry.into_iter()
            invariant
                it.seq() == geometry,
                out@ == FrameView::<G, P, D>::geometry_commands(geometry.take(it.index() as int)),
        {
            proof {
                assert(geometry.take(it.index() + 1) == geometry.take(it.index() as int).push(g));
            }
            out.push(Command::Geometry(g));
            assert(out@ =~= FrameView::<G, P, D>::geometry_commands(
                geometry.take(it.index() + 1),
            ));
        }
        assert(geometry.take(geometry.len() as int) =~= geometry);
        out.push(Command::Ambient);
        let ghost base = out@;
        for l in it: self.lights.into_iter()
            invariant
                it.seq() == lights,
                out@ == base + FrameView::<G, P, D>::light_commands(
                    lights.take(it.index() as int),
                ),
        {
            proof {
                assert(lights.take(it.index() + 1) == lights.take(it.index() as int).push(l));
            }
            out.push(Command::Light(l));
            assert(out@ =~= base + FrameView::<G, P, D>::light_commands(
                lights.take(it.index() + 1),
            ));
        }
        assert(lights.take(lights.len() as int) =~= lights);
        assert(out@ =~= self@.commands());
        out
    }
}

} // verus!
