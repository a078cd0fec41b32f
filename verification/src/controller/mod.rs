//! Controllers: what steers an object before the physics moves it.

use crate::entity::creature::Creature;
use crate::entity::{Object, Physics};
use crate::fixed::{Fixed, SCALE};
use crate::gmath::vectors::Vec2;
use rand::rngs::ThreadRng;
use rand::Rng;
use std::marker::PhantomData;
use vstd::prelude::*;

verus! {

/// The generator of random numbers of rand that belongs to the current
/// thread. Nothing is known of what is inside.
#[verifier::external_type_specification]
#[verifier::external_body]
pub struct ExThreadRng(ThreadRng);

/// `rand::thread_rng` hands out the generator of the current thread. Nothing
/// is claimed of it. It is seeded from the operating system when a thread
/// first asks for it, and gives up if the system has no randomness to give.
pub assume_specification[ rand::thread_rng ]() -> ThreadRng
;

/// `Rng::gen_range` of rand on a half-open range of `i64`: some number of
/// the range, which must not be empty. Which one is left open. The
/// generator takes fresh randomness from the operating system from time to
/// time, and gives up if the system has none to give.
#[verifier::external_body]
fn pick(rng: &mut ThreadRng, low: i64, high: i64) -> (r: i64)
    requires
        low < high,
    ensures
        low <= r < high,
{
    rng.gen_range(low..high)
}

/// Something that steers objects of kind `A`. It runs before the physics
/// and may change how an object moves, not where it is.
pub trait Controller<A: Object>: Sized {
    /// Whether an update of `secs` seconds may turn this controller into
    /// `next` and `object` into `steered`.
    spec fn steers(&self, next: &Self, object: A, steered: A, secs: Fixed) -> bool;

    /// A controller leaves an object where it is.
    proof fn lemma_steers(&self, next: &Self, object: A, steered: A, secs: Fixed)
        requires
            self.steers(next, object, steered, secs),
        ensures
            steered.position_spec() == object.position_spec(),
            steered.bounds_spec() == object.bounds_spec(),
    ;

    /// Update the controller, and through it the object, for `secs` seconds.
    fn update(&mut self, object: &mut A, secs: Fixed)
        ensures
            old(self).steers(final(self), *old(object), *final(object), secs),
    ;
}

/// A controller that leaves its object alone.
pub struct NoneController<A>(pub PhantomData<A>);

impl<A: Object> NoneController<A> {
    /// Creates the controller that does nothing.
    pub fn new() -> (c: NoneController<A>)
        ensures
            c == NoneController::<A>(PhantomData),
    {
        NoneController(PhantomData)
    }
}

impl<A: Object> Controller<A> for NoneController<A> {
    /// Nothing changes.
    open spec fn steers(&self, next: &Self, object: A, steered: A, secs: Fixed) -> bool {
        steered == object
    }

    proof fn lemma_steers(&self, next: &Self, object: A, steered: A, secs: Fixed) {
    }

    fn update(&mut self, object: &mut A, secs: Fixed) {
    }
}

/// The share of its walking acceleration that a creature has in the air, in
/// millionths.
pub const AIR_CONTROL: i64 = 600_000;

/// A creature steered by the keys that are held: it is pushed left or right,
/// with less force in the air, and jumps off the ground.
pub open spec fn steered(object: Creature, left: bool, right: bool, up: bool) -> Creature {
    let grip = if object.body.on_ground {
        Fixed::one()
    } else {
        Fixed { raw: AIR_CONTROL }
    };
    let x_accel = if left {
        object.move_accel.neg().mul(grip)
    } else if right {
        object.move_accel.mul(grip)
    } else {
        Fixed::zero()
    };
    let pushed = object.with_body(
        crate::entity::body::Body {
            acceleration: Vec2 { x: x_accel, y: object.body.acceleration.y },
            ..object.body
        },
    );
    if object.body.on_ground && up {
        pushed.with_body(
            crate::entity::body::Body {
                velocity: pushed.body.velocity.add(
                    &Vec2 { x: Fixed::zero(), y: object.jump_accel.neg() },
                ),
                ..pushed.body
            },
        )
    } else {
        pushed
    }
}

/// A controller that controls objects using the keyboard. It holds which of
/// its keys are down; whoever reads the keyboard sets them before an update.
#[derive(Clone, Copy, Debug)]
pub struct KeyboardController {
    pub left: bool,
    pub right: bool,
    pub up: bool,
}

impl KeyboardController {
    /// Creates a controller with no key down.
    pub fn new() -> (c: KeyboardController)
        ensures
            c == (KeyboardController { left: false, right: false, up: false }),
    {
        KeyboardController { left: false, right: false, up: false }
    }
}

impl Controller<Creature> for KeyboardController {
    /// The keys stay as they are, and push the creature.
    open spec fn steers(
        &self,
        next: &Self,
        object: Creature,
        steered: Creature,
        secs: Fixed,
    ) -> bool {
        *next == *self && steered == self::steered(object, self.left, self.right, self.up)
    }

    proof fn lemma_steers(
        &self,
        next: &Self,
        object: Creature,
        steered: Creature,
        secs: Fixed,
    ) {
    }

    fn update(&mut self, object: &mut Creature, secs: Fixed) {
        let move_accel = object.move_accel;
        let x_accel = if self.left {
            move_accel.neg().mul(
                if object.is_on_ground() {
                    Fixed::one()
                } else {
                    Fixed { raw: AIR_CONTROL }
                },
            )
        } else if self.right {
            move_accel.mul(
                if object.is_on_ground() {
                    Fixed::one()
                } else {
                    Fixed { raw: AIR_CONTROL }
                },
            )
        } else {
            Fixed::zero()
        };
        let new_accel = Vec2::new(x_accel, object.acceleration().y);
        object.set_acceleration(new_accel);

        let jump_accel = object.jump_accel;
        if object.is_on_ground() && self.up {
            let new_velocity = object.velocity().add(&Vec2::new(Fixed::zero(), jump_accel.neg()));
            object.set_velocity(new_velocity);
        }
    }
}

/// A creature that wanders as `roll`, a number from 0 up to 1, says: it
/// stands under a half, goes right under three quarters, and left above.
pub open spec fn wandered(object: Creature, roll: Fixed) -> Creature {
    let x_accel = if roll.raw < SCALE / 2 {
        Fixed::zero()
    } else if roll.raw < SCALE / 4 * 3 {
        object.move_accel
    } else {
        object.move_accel.neg()
    };
    object.with_body(
        crate::entity::body::Body {
            acceleration: Vec2 { x: x_accel, y: object.body.acceleration.y },
            ..object.body
        },
    )
}

/// Sets the horizontal acceleration of a creature as `roll` says.
pub fn wander(object: &mut Creature, roll: Fixed)
    ensures
        *final(object) == wandered(*old(object), roll),
{
    let move_accel = object.move_accel;
    let x_accel = if roll.raw < SCALE / 2 {
        Fixed::zero()
    } else if roll.raw < SCALE / 4 * 3 {
        move_accel
    } else {
        move_accel.neg()
    };
    let new_accel = Vec2::new(x_accel, object.acceleration().y);
    object.set_acceleration(new_accel);
}

/// A controller that controls objects using randomness.
pub struct RandomController {
    pub rng: ThreadRng,
    /// Seconds between two decisions.
    pub move_time: Fixed,
    /// Seconds since the last decision.
    pub wait_time: Fixed,
}

impl RandomController {
    /// The time of the next decision has come once `secs` more seconds have passed.
    pub open spec fn due(&self, secs: Fixed) -> bool {
        self.wait_time.add(secs).raw > self.move_time.raw
    }

    /// Creates a controller that decides every `move_time` seconds.
    pub fn new(move_time: Fixed) -> (c: RandomController)
        ensures
            c.move_time == move_time,
            c.wait_time == Fixed::zero(),
    {
        RandomController { rng: rand::thread_rng(), move_time, wait_time: Fixed::zero() }
    }
}

impl Controller<Creature> for RandomController {
    /// Once the time between two decisions has passed, a number from 0 up
    /// to 1 is drawn and the creature wanders as it says; one period is
    /// taken off the wait. Before that, only the wait grows.
    open spec fn steers(
        &self,
        next: &Self,
        object: Creature,
        steered: Creature,
        secs: Fixed,
    ) -> bool {
        &&& next.move_time == self.move_time
        &&& if self.due(secs) {
            &&& next.wait_time == self.wait_time.add(secs).sub(self.move_time)
            &&& exists|roll: Fixed|
                0 <= roll.raw < SCALE && steered == #[trigger] wandered(object, roll)
        } else {
            &&& next.wait_time == self.wait_time.add(secs)
            &&& steered == object
        }
    }

    proof fn lemma_steers(
        &self,
        next: &Self,
        object: Creature,
        steered: Creature,
        secs: Fixed,
    ) {
    }

    fn update(&mut self, object: &mut Creature, secs: Fixed) {
        self.wait_time = self.wait_time.add(secs);
        if self.wait_time.raw > self.move_time.raw {
            let roll = Fixed { raw: pick(&mut self.rng, 0, SCALE) };
            wander(object, roll);
            self.wait_time = self.wait_time.sub(self.move_time);
        }
    }
}

} // verus!
