//! The particle pool: short-lived decorative particles that drift, shrink
//! and vanish.

use vstd::prelude::*;
use crate::fixed::{minus, scaled, UNIT};
use crate::geometry::Vec2;
use crate::render::{Color, DrawCommand};

verus! {

/// The primitive that a pool draws its particles with.
#[derive(Clone, Copy, PartialEq, Eq, Debug, Structural)]
pub enum Shapes {
    Circle,
    Rectangle,
    Hexagon,
}

/// One particle: a point mass that moves at constant velocity and shrinks
/// at a constant rate. Its size doubles as its remaining life.
#[derive(Clone, Copy, PartialEq, Eq, Debug, Structural)]
pub struct Particle {
    pub pos: Vec2,
    pub vel: Vec2,
    pub size: i64,
    pub decrement: i64,
    pub color: Color,
}

impl Particle {
    pub open spec fn spec_launched(
        pos: Vec2,
        angle: i64,
        speed: i64,
        size: i64,
        decrement: i64,
        c: Color,
    ) -> Particle {
        Particle { pos, vel: Vec2::polar(angle, speed), size, decrement, color: c }
    }

    /// A particle at `pos` that leaves in the direction `angle`, in degrees,
    /// at the given speed.
    #[verifier::when_used_as_spec(spec_launched)]
    pub fn launched(pos: Vec2, angle: i64, speed: i64, size: i64, decrement: i64, c: Color) -> (p:
        Particle)
        ensures
            p == Particle::spec_launched(pos, angle, speed, size, decrement, c),
    {
        Particle { pos, vel: Vec2::polar(angle, speed), size, decrement, color: c }
    }

    pub open spec fn spec_advanced(self, dt: i64) -> Particle {
        Particle {
            pos: self.pos.translated(self.vel.scaled_by(dt)),
            size: minus(self.size, scaled(self.decrement, dt)),
            ..self
        }
    }

    /// This particle after the time `dt`: moved along its velocity and
    /// shrunk by its decay.
    #[verifier::when_used_as_spec(spec_advanced)]
    pub fn advanced(self, dt: i64) -> (p: Particle)
        ensures
            p == self.spec_advanced(dt),
    {
        Particle {
            pos: self.pos.translated(self.vel.scaled_by(dt)),
            vel: self.vel,
            size: minus(self.size, scaled(self.decrement, dt)),
            decrement: self.decrement,
            color: self.color,
        }
    }

    /// Whether this particle still has size left.
    pub open spec fn alive(self) -> bool {
        self.size > 0
    }

    pub open spec fn spec_drawn_as(self, shape: Shapes) -> DrawCommand {
        match shape {
            Shapes::Circle => DrawCommand::Circle {
                center: self.pos,
                radius: self.size,
                color: self.color,
            },
            Shapes::Rectangle => DrawCommand::Rectangle {
                corner: self.pos,
                width: self.size,
                height: self.size,
                color: self.color,
            },
            Shapes::Hexagon => DrawCommand::Hexagon {
                center: self.pos,
                size: self.size,
                color: self.color,
            },
        }
    }

    /// The request that draws this particle as the given primitive.
    #[verifier::when_used_as_spec(spec_drawn_as)]
    pub fn drawn_as(self, shape: Shapes) -> (c: DrawCommand)
        ensures
            c == self.spec_drawn_as(shape),
    {
        match shape {
            Shapes::Circle => DrawCommand::Circle {
                center: self.pos,
                radius: self.size,
                color: self.color,
            },
            Shapes::Rectangle => DrawCommand::Rectangle {
                corner: self.pos,
                width: self.size,
                height: self.size,
                color: self.color,
            },
            Shapes::Hexagon => DrawCommand::Hexagon {
                center: self.pos,
                size: self.size,
                color: self.color,
            },
        }
    }
}

/// The hook that leaves every particle as it is.
pub fn default_operation(x: Particle, _dt: i64) -> (r: Particle)
    ensures
        r == x,
{
    x
}

/// Whether `drawn` is what a pass over `before` may put on the screen:
/// particle for particle, the old one advanced by `dt` and then handed to
/// the hook.
pub open spec fn is_pass<F: Fn(Particle, i64) -> Particle>(
    operation: F,
    before: Seq<Particle>,
    dt: i64,
    drawn: Seq<Particle>,
) -> bool {
    &&& drawn.len() == before.len()
    &&& forall|i: int|
        0 <= i < before.len() ==> call_ensures(
            operation,
            (before[i].advanced(dt), dt),
            #[trigger] drawn[i],
        )
}

/// The particles of `drawn` that stay in the pool after a pass: those
/// whose counterpart in `before` still has size left once advanced by
/// `dt`, in their old order.
pub open spec fn survivors(before: Seq<Particle>, drawn: Seq<Particle>, dt: i64) -> Seq<Particle>
    decreases before.len(),
{
    if before.len() == 0 || drawn.len() != before.len() {
        Seq::empty()
    } else {
        let rest = survivors(before.drop_last(), drawn.drop_last(), dt);
        if before.last().advanced(dt).alive() {
            rest.push(drawn.last())
        } else {
            rest
        }
    }
}

/// The draw requests for the given particles, one each and in order.
pub open spec fn commands(shape: Shapes, drawn: Seq<Particle>) -> Seq<DrawCommand> {
    drawn.map_values(|p: Particle| p.drawn_as(shape))
}

/// Every particle of `before` advanced by `dt`.
pub open spec fn aged(before: Seq<Particle>, dt: i64) -> Seq<Particle> {
    before.map_values(|p: Particle| p.advanced(dt))
}

/// The particles that are left of `before` after the time `dt` when no hook
/// interferes: each advanced, and only those that still have size left.
pub open spec fn retained(before: Seq<Particle>, dt: i64) -> Seq<Particle> {
    aged(before, dt).filter(|p: Particle| p.alive())
}

/// Without a hook, a pass draws each particle advanced by `dt` and keeps
/// exactly those that still have size left.
pub proof fn lemma_plain_pass(before: Seq<Particle>, dt: i64, drawn: Seq<Particle>)
    requires
        is_pass(default_operation, before, dt, drawn),
    ensures
        drawn == aged(before, dt),
        survivors(before, drawn, dt) == retained(before, dt),
    decreases before.len(),
{
    assert(drawn =~= aged(before, dt));
    reveal(Seq::filter);
    if before.len() > 0 {
        let shorter = before.drop_last();
        assert(is_pass(default_operation, shorter, dt, drawn.drop_last()));
        lemma_plain_pass(shorter, dt, drawn.drop_last());
        assert(aged(before, dt).drop_last() =~= aged(shorter, dt));
    }
}

/// A pass draws every particle that was in the pool exactly once: the
/// frame has one request per particle, and the request at each place is
/// the one for the particle that stood at that place.
pub proof fn lemma_each_drawn_once<F: Fn(Particle, i64) -> Particle>(
    operation: F,
    shape: Shapes,
    before: Seq<Particle>,
    dt: i64,
    drawn: Seq<Particle>,
)
    requires
        is_pass(operation, before, dt, drawn),
    ensures
        commands(shape, drawn).len() == before.len(),
        forall|i: int|
            0 <= i < before.len() ==> {
                &&& call_ensures(operation, (before[i].advanced(dt), dt), drawn[i])
                &&& #[trigger] commands(shape, drawn)[i] == drawn[i].drawn_as(shape)
            },
{
}

/// A particle that decays shrinks with every pass that takes time: its
/// size after the pass is less than before, provided that the decay over
/// the pass amounts to a millionth at least and the size was not at the
/// bottom of its range already.
pub proof fn lemma_size_shrinks(p: Particle, dt: i64)
    requires
        p.decrement > 0,
        dt > 0,
        p.decrement * dt >= UNIT,
        p.size > i64::MIN,
    ensures
        p.advanced(dt).size < p.size,
        p.advanced(dt).decrement == p.decrement,
{
    let product = p.decrement * dt;
    assert(product / (UNIT as int) >= 1) by (nonlinear_arith)
        requires
            product >= UNIT,
            UNIT == 1_000_000,
    ;
}

/// After a pass without a hook every particle in the pool has size left:
/// one whose size ran out in the pass is gone.
pub proof fn lemma_only_the_living_stay(before: Seq<Particle>, dt: i64)
    ensures
        forall|k: int|
            0 <= k < retained(before, dt).len() ==> (#[trigger] retained(before, dt)[k]).alive(),
        forall|i: int|
            0 <= i < before.len() && !(#[trigger] before[i]).advanced(dt).alive()
                ==> !retained(before, dt).contains(before[i].advanced(dt)),
{
    let all = aged(before, dt);
    let live = |p: Particle| p.alive();
    assert forall|k: int| 0 <= k < retained(before, dt).len() implies (#[trigger] retained(
        before,
        dt,
    )[k]).alive() by {
        all.lemma_filter_pred(live, k);
    }
    assert forall|i: int|
        0 <= i < before.len() && !(#[trigger] before[i]).advanced(dt).alive() implies !retained(
        before,
        dt,
    ).contains(before[i].advanced(dt)) by {
        if retained(before, dt).contains(before[i].advanced(dt)) {
            let k = choose|k: int|
                0 <= k < retained(before, dt).len() && retained(before, dt)[k] == before[i].advanced(
                    dt,
                );
            assert(retained(before, dt)[k].alive());
        }
    }
}

/// A pool of particles and the way they are drawn.
#[derive(Debug)]
pub struct ShapeParticles {
    /// Reserved for a vertical pull; particles do not feel it.
    pub gravity: i64,
    /// The live particles, newest first.
    pub objects: Vec<Particle>,
    pub shape_type: Shapes,
}

/// What a pool holds.
pub struct PoolView {
    pub gravity: i64,
    pub shape_type: Shapes,
    pub objects: Seq<Particle>,
}

impl View for ShapeParticles {
    type V = PoolView;

    open spec fn view(&self) -> PoolView {
        PoolView { gravity: self.gravity, shape_type: self.shape_type, objects: self.objects@ }
    }
}

impl ShapeParticles {
    /// An empty pool.
    pub fn new(shape_type: Shapes, gravity: i64) -> (pool: Self)
        ensures
            pool@ == (PoolView { gravity, shape_type, objects: Seq::empty() }),
    {
        Self { gravity, shape_type, objects: Vec::new() }
    }

    /// Puts a new particle in front of all others.
    pub fn add(&mut self, pos: Vec2, angle: i64, speed: i64, size: i64, decrement: i64, c: Color)
        ensures
            final(self)@ == (PoolView {
                objects: seq![Particle::launched(pos, angle, speed, size, decrement, c)]
                    + old(self)@.objects,
                ..old(self)@
            }),
    {
        let fresh = Particle::launched(pos, angle, speed, size, decrement, c);
        self.objects.insert(0, fresh);
        assert(self.objects@ =~= seq![fresh] + old(self).objects@);
    }

    /// Advances every particle by `dt`, hands it to `operation`, and
    /// returns one draw request for each in pool order. A particle whose
    /// size has run out by this pass is still drawn, and then leaves the
    /// pool.
    pub fn draw<F: Fn(Particle, i64) -> Particle>(&mut self, dt: i64, operation: F) -> (frame: Vec<
        DrawCommand,
    >)
        requires
            forall|i: int|
                0 <= i < old(self).objects@.len() ==> call_requires(
                    operation,
                    (#[trigger] old(self).objects@[i].advanced(dt), dt),
                ),
        ensures
            final(self).gravity == old(self).gravity,
            final(self).shape_type == old(self).shape_type,
            frame@.len() == old(self).objects@.len(),
            exists|drawn: Seq<Particle>|
                {
                    &&& #[trigger] is_pass(operation, old(self).objects@, dt, drawn)
                    &&& frame@ == commands(old(self).shape_type, drawn)
                    &&& final(self).objects@ == survivors(old(self).objects@, drawn, dt)
                },
    {
        let shape = self.shape_type;
        let n = self.objects.len();
        let mut frame: Vec<DrawCommand> = Vec::new();
        let mut kept: Vec<Particle> = Vec::new();
        let mut drawn: Ghost<Seq<Particle>> = Ghost(Seq::empty());
        let mut i: usize = 0;
        while i < n
            invariant
                i <= n,
                n == self.objects@.len(),
                *self == *old(self),
                shape == self.shape_type,
                forall|j: int|
                    0 <= j < n ==> call_requires(
                        operation,
                        (#[trigger] self.objects@[j].advanced(dt), dt),
                    ),
                is_pass(operation, self.objects@.take(i as int), dt, drawn@),
                frame@ == commands(shape, drawn@),
                kept@ == survivors(self.objects@.take(i as int), drawn@, dt),
            decreases n - i,
        {
            let older = self.objects[i].advanced(dt);
            let newer = operation(older, dt);
            frame.push(newer.drawn_as(shape));
            if older.size > 0 {
                kept.push(newer);
            }
            proof {
                let before = self.objects@.take(i as int);
                let after = self.objects@.take(i + 1);
                assert(after.drop_last() =~= before);
                assert(after.last() == self.objects@[i as int]);
                assert(drawn@.push(newer).drop_last() =~= drawn@);
                drawn@ = drawn@.push(newer);
            }
            i += 1;
        }
        proof {
            assert(self.objects@.take(n as int) =~= self.objects@);
        }
        self.objects = kept;
        frame
    }
}

} // verus!
