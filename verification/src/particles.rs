//! Particles: how their size, colour and speed change over their lifetime.
//!
//! The age of a particle is given as `t`, the part of its lifetime that has
//! passed, from 0 to 1.

use vstd::prelude::*;
use vstd::std_specs::ops::{AddSpec, DivSpec, MulSpec, SubSpec};
use crate::graphics::Color;
use crate::number::{count, exact, from_count, from_wide_count, total, wide_count, Number};

verus! {

/// The speed of a particle at the start and at the end of its lifetime.
#[derive(Debug)]
pub struct ParticleVelocity<Q> {
    pub start: (Q, Q),
    pub end: (Q, Q),
}

/// The size of a particle at the start and at the end of its lifetime, and
/// by how much the sizes of two particles may differ.
#[derive(Debug)]
pub struct ParticleSize<Q> {
    pub start: Q,
    pub end: Q,
    pub variance: Q,
}

/// The colour of a particle at the start and at the end of its lifetime, and
/// the colour that it passes on the way, if any.
#[derive(Debug)]
pub struct ParticleColor<Q> {
    pub start: Color<Q>,
    pub mid: Option<Color<Q>>,
    pub end: Color<Q>,
}

/// What a spawner gives its particles.
#[derive(Debug)]
pub struct ParticleSpawner<Q> {
    /// Particles start within a square of this side around the spawner.
    pub particle_position_range: Q,
    pub particle_lifetime: Q,
    pub particle_size: Option<ParticleSize<Q>>,
    pub particle_velocity: Option<ParticleVelocity<Q>>,
    pub particle_color: Option<ParticleColor<Q>>,
}

/// A particle as it is spawned.
#[derive(Debug)]
pub struct Particle<Q> {
    pub translation: (Q, Q, Q),
    pub lifetime: Q,
    /// The size with which it is drawn at first, if it has one of its own.
    pub custom_size: Option<Q>,
    /// The colour with which it is drawn at first, if it has one of its own.
    pub color: Option<Color<Q>>,
    pub size: Option<ParticleSize<Q>>,
    pub velocity: Option<ParticleVelocity<Q>>,
    pub colors: Option<ParticleColor<Q>>,
}

impl<Q: Copy> Clone for ParticleVelocity<Q> {
    fn clone(&self) -> (copy: ParticleVelocity<Q>)
        ensures
            copy == *self,
    {
        *self
    }
}

impl<Q: Copy> Copy for ParticleVelocity<Q> {

}

impl<Q: Copy> Clone for ParticleSize<Q> {
    fn clone(&self) -> (copy: ParticleSize<Q>)
        ensures
            copy == *self,
    {
        *self
    }
}

impl<Q: Copy> Copy for ParticleSize<Q> {

}

impl<Q: Copy> Clone for ParticleColor<Q> {
    fn clone(&self) -> (copy: ParticleColor<Q>)
        ensures
            copy == *self,
    {
        *self
    }
}

impl<Q: Copy> Copy for ParticleColor<Q> {

}

impl<Q: Copy> Clone for ParticleSpawner<Q> {
    fn clone(&self) -> (copy: ParticleSpawner<Q>)
        ensures
            copy == *self,
    {
        *self
    }
}

impl<Q: Copy> Copy for ParticleSpawner<Q> {

}

impl<Q: Copy> Clone for Particle<Q> {
    fn clone(&self) -> (copy: Particle<Q>)
        ensures
            copy == *self,
    {
        *self
    }
}

impl<Q: Copy> Copy for Particle<Q> {

}

/// The point between `a` and `b` at `t`: a * (1 - t) + b * t.
pub open spec fn lerped<Q: Number>(a: Q, b: Q, t: Q) -> Q {
    a.mul_spec(count::<Q>(1).sub_spec(t)).add_spec(b.mul_spec(t))
}

/// The point between two pairs at `t`, coordinate by coordinate.
pub open spec fn lerped_pair<Q: Number>(a: (Q, Q), b: (Q, Q), t: Q) -> (Q, Q) {
    (lerped(a.0, b.0, t), lerped(a.1, b.1, t))
}

/// The colour between two colours at `t`, channel by channel.
pub open spec fn lerped_color<Q: Number>(a: Color<Q>, b: Color<Q>, t: Q) -> Color<Q> {
    Color {
        red: lerped(a.red, b.red, t),
        green: lerped(a.green, b.green, t),
        blue: lerped(a.blue, b.blue, t),
        alpha: lerped(a.alpha, b.alpha, t),
    }
}

/// `center` moved by the part `sample` - 1/2 of `spread`.
pub open spec fn scattered<Q: Number>(center: Q, spread: Q, sample: Q) -> Q {
    center.add_spec(sample.sub_spec(count::<Q>(1).div_spec(count::<Q>(2))).mul_spec(spread))
}

/// The point between `a` and `b` at `t`.
pub fn lerp<Q: Number>(a: Q, b: Q, t: Q) -> (point: Q)
    requires
        total::<Q>(),
    ensures
        exact::<Q>() ==> point == lerped(a, b, t),
{
    let one: Q = from_count(1);
    a * (one - t) + b * t
}

/// The point between two pairs at `t`.
pub fn lerp_vec2<Q: Number>(a: (Q, Q), b: (Q, Q), t: Q) -> (point: (Q, Q))
    requires
        total::<Q>(),
    ensures
        exact::<Q>() ==> point == lerped_pair(a, b, t),
{
    (lerp(a.0, b.0, t), lerp(a.1, b.1, t))
}

/// The colour between two colours at `t`.
pub fn lerp_color<Q: Number>(a: Color<Q>, b: Color<Q>, t: Q) -> (color: Color<Q>)
    requires
        total::<Q>(),
    ensures
        exact::<Q>() ==> color == lerped_color(a, b, t),
{
    Color {
        red: lerp(a.red, b.red, t),
        green: lerp(a.green, b.green, t),
        blue: lerp(a.blue, b.blue, t),
        alpha: lerp(a.alpha, b.alpha, t),
    }
}

impl<Q: Number> ParticleSize<Q> {
    /// The size at the age `t`.
    pub open spec fn spec_at(self, t: Q) -> Q {
        lerped(self.start, self.end, t)
    }

    /// The size at the age `t`.
    pub fn at(&self, t: Q) -> (size: Q)
        requires
            total::<Q>(),
        ensures
            exact::<Q>() ==> size == self.spec_at(t),
    {
        lerp(self.start, self.end, t)
    }
}

impl<Q: Number> ParticleVelocity<Q> {
    /// The speed at the age `t`.
    pub open spec fn spec_at(self, t: Q) -> (Q, Q) {
        lerped_pair(self.start, self.end, t)
    }

    /// How far a particle of the age `t` moves in the time `dt`.
    pub open spec fn spec_moved(self, t: Q, dt: Q) -> (Q, Q) {
        (self.spec_at(t).0.mul_spec(dt), self.spec_at(t).1.mul_spec(dt))
    }

    /// The speed at the age `t`.
    pub fn at(&self, t: Q) -> (speed: (Q, Q))
        requires
            total::<Q>(),
        ensures
            exact::<Q>() ==> speed == self.spec_at(t),
    {
        lerp_vec2(self.start, self.end, t)
    }

    /// How far a particle of the age `t` moves in the time `dt`.
    pub fn moved(&self, t: Q, dt: Q) -> (step: (Q, Q))
        requires
            total::<Q>(),
        ensures
            exact::<Q>() ==> step == self.spec_moved(t, dt),
    {
        let speed = self.at(t);
        (speed.0 * dt, speed.1 * dt)
    }
}

impl<Q: Number> ParticleColor<Q> {
    /// The colour at the age `t`. With a colour on the way, the colour is
    /// taken between the point on the way from the start to it and the point
    /// on the way from it to the end.
    pub open spec fn spec_at(self, t: Q) -> Color<Q> {
        match self.mid {
            Some(mid) => lerped_color(
                lerped_color(self.start, mid, t),
                lerped_color(mid, self.end, t),
                t,
            ),
            None => lerped_color(self.start, self.end, t),
        }
    }

    /// The colour at the age `t`.
    pub fn at(&self, t: Q) -> (color: Color<Q>)
        requires
            total::<Q>(),
        ensures
            exact::<Q>() ==> color == self.spec_at(t),
    {
        match self.mid {
            Some(mid) => lerp_color(
                lerp_color(self.start, mid, t),
                lerp_color(mid, self.end, t),
                t,
            ),
            None => lerp_color(self.start, self.end, t),
        }
    }
}

/// How a particle is drawn and moved in one tick.
#[derive(Debug)]
pub struct ParticleFrame<Q> {
    /// The size with which it is drawn, if it has a size of its own.
    pub custom_size: Option<Q>,
    /// The colour in which it is drawn, if it has colours of its own.
    pub color: Option<Color<Q>>,
    /// How far it moves, if it has a speed.
    pub step: Option<(Q, Q)>,
}

/// How a particle of the age `t` is drawn, and how far it moves in the time
/// `dt`.
pub open spec fn framed<Q: Number>(
    size: Option<ParticleSize<Q>>,
    color: Option<ParticleColor<Q>>,
    velocity: Option<ParticleVelocity<Q>>,
    t: Q,
    dt: Q,
) -> ParticleFrame<Q> {
    ParticleFrame {
        custom_size: match size {
            Some(size) => Some(size.spec_at(t)),
            None => None,
        },
        color: match color {
            Some(color) => Some(color.spec_at(t)),
            None => None,
        },
        step: match velocity {
            Some(velocity) => Some(velocity.spec_moved(t, dt)),
            None => None,
        },
    }
}

/// How a particle of the age `t` is drawn, and how far it moves in the time
/// `dt`.
pub fn update_particles<Q: Number>(
    size: Option<ParticleSize<Q>>,
    color: Option<ParticleColor<Q>>,
    velocity: Option<ParticleVelocity<Q>>,
    t: Q,
    dt: Q,
) -> (frame: ParticleFrame<Q>)
    requires
        total::<Q>(),
    ensures
        frame.custom_size is Some == size is Some,
        frame.color is Some == color is Some,
        frame.step is Some == velocity is Some,
        exact::<Q>() ==> frame == framed(size, color, velocity, t, dt),
{
    ParticleFrame {
        custom_size: match size {
            Some(size) => Some(size.at(t)),
            None => None,
        },
        color: match color {
            Some(color) => Some(color.at(t)),
            None => None,
        },
        step: match velocity {
            Some(velocity) => Some(velocity.moved(t, dt)),
            None => None,
        },
    }
}

/// The sample from 0 up to 1 that 32 random bits stand for: their upper 24
/// bits as a whole number, scaled by 1 / (256 * 256 * 256).
pub open spec fn unit_of<Q: Number>(bits: u32) -> Q {
    count::<Q>(1).div_spec(
        count::<Q>(256).mul_spec(count::<Q>(256)).mul_spec(count::<Q>(256)),
    ).mul_spec(wide_count::<Q>((bits >> 8) as u64))
}

/// The four samples that four draws of 32 random bits stand for.
pub open spec fn units_of<Q: Number>(bits: [u32; 4]) -> [Q; 4] {
    [unit_of::<Q>(bits[0]), unit_of::<Q>(bits[1]), unit_of::<Q>(bits[2]), unit_of::<Q>(bits[3])]
}

/// Draws 32 bits with `rand::random::<u32>()`, from the random number
/// generator of the running thread. Nothing is claimed of the bits: they are
/// whatever the generator hands out. The generator is seeded from the
/// system when a thread first draws from it, and stops the thread if the
/// system has no seed to give.
#[verifier::external_body]
fn random_bits() -> (bits: u32) {
    rand::random::<u32>()
}

/// The sample from 0 up to 1 that 32 random bits stand for.
pub fn unit_sample<Q: Number>(bits: u32) -> (sample: Q)
    requires
        total::<Q>(),
    ensures
        exact::<Q>() ==> sample == unit_of::<Q>(bits),
{
    let one: Q = from_count(1);
    let step: Q = from_count(256);
    let scale = one / (step * step * step);
    let upper: Q = from_wide_count((bits >> 8) as u64);
    scale * upper
}

/// A random sample from 0 up to 1: what one draw of 32 random bits stands for.
pub fn random_unit<Q: Number>() -> (sample: Q)
    requires
        total::<Q>(),
    ensures
        exact::<Q>() ==> exists|bits: u32| sample == #[trigger] unit_of::<Q>(bits),
{
    let bits = random_bits();
    unit_sample(bits)
}

/// The particle that `spawner` makes of four samples, each drawn from 0 up
/// to 1. The first two scatter its place around the spawner; the last two
/// scatter its sizes at the start and at the end of its lifetime, after
/// which nothing of the variance is left.
pub open spec fn spawned<Q: Number>(spawner: ParticleSpawner<Q>, samples: [Q; 4]) -> Particle<Q> {
    let zero = count::<Q>(0);
    let size = match spawner.particle_size {
        Some(size) => Some(
            ParticleSize {
                start: scattered(size.start, size.variance, samples[2]),
                end: scattered(size.end, size.variance, samples[3]),
                variance: zero,
            },
        ),
        None => None,
    };
    Particle {
        translation: (
            spawner.particle_position_range.mul_spec(
                samples[0].sub_spec(count::<Q>(1).div_spec(count::<Q>(2))),
            ),
            spawner.particle_position_range.mul_spec(
                samples[1].sub_spec(count::<Q>(1).div_spec(count::<Q>(2))),
            ),
            zero,
        ),
        lifetime: spawner.particle_lifetime,
        custom_size: match size {
            Some(size) => Some(size.start),
            None => None,
        },
        color: match spawner.particle_color {
            Some(colors) => Some(colors.start),
            None => None,
        },
        size,
        velocity: spawner.particle_velocity,
        colors: spawner.particle_color,
    }
}

/// The particle that `spawner` makes of four samples, each drawn from 0 up to 1.
pub fn spawn_particle<Q: Number>(spawner: &ParticleSpawner<Q>, samples: [Q; 4]) -> (particle:
    Particle<Q>)
    requires
        total::<Q>(),
    ensures
        particle.lifetime == spawner.particle_lifetime,
        particle.velocity == spawner.particle_velocity,
        particle.colors == spawner.particle_color,
        particle.size is Some == spawner.particle_size is Some,
        particle.custom_size is Some == spawner.particle_size is Some,
        particle.color == (match spawner.particle_color {
            Some(colors) => Some(colors.start),
            None => None,
        }),
        exact::<Q>() ==> particle == spawned(*spawner, samples),
{
    let zero: Q = from_count(0);
    let one: Q = from_count(1);
    let two: Q = from_count(2);
    let half = one / two;
    let size = match spawner.particle_size {
        Some(size) => Some(
            ParticleSize {
                start: size.start + (samples[2] - half) * size.variance,
                end: size.end + (samples[3] - half) * size.variance,
                variance: zero,
            },
        ),
        None => None,
    };
    Particle {
        translation: (
            spawner.particle_position_range * (samples[0] - half),
            spawner.particle_position_range * (samples[1] - half),
            zero,
        ),
        lifetime: spawner.particle_lifetime,
        custom_size: match size {
            Some(size) => Some(size.start),
            None => None,
        },
        color: match spawner.particle_color {
            Some(colors) => Some(colors.start),
            None => None,
        },
        size,
        velocity: spawner.particle_velocity,
        colors: spawner.particle_color,
    }
}

/// A particle of `spawner`, scattered by four random samples.
pub fn spawn_random_particle<Q: Number>(spawner: &ParticleSpawner<Q>) -> (particle: Particle<Q>)
    requires
        total::<Q>(),
    ensures
        particle.lifetime == spawner.particle_lifetime,
        particle.velocity == spawner.particle_velocity,
        particle.colors == spawner.particle_color,
        particle.size is Some == spawner.particle_size is Some,
        exact::<Q>() ==> exists|bits: [u32; 4]|
            particle == #[trigger] spawned(*spawner, units_of::<Q>(bits)),
{
    let bits = [random_bits(), random_bits(), random_bits(), random_bits()];
    let samples = [
        unit_sample(bits[0]),
        unit_sample(bits[1]),
        unit_sample(bits[2]),
        unit_sample(bits[3]),
    ];
    proof {
        if exact::<Q>() {
            assert(samples@ =~= units_of::<Q>(bits)@);
            assert(samples == units_of::<Q>(bits));
        }
    }
    spawn_particle(spawner, samples)
}

} // verus!
