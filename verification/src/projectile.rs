//! Thrown bottles: their flight, their removal once off the screen, and
//! their spin.

use vstd::prelude::*;
use crate::constants::{CHEMICAL_PROJECTILE_ROTATION_SPEED, GROUND_LEVEL, WINDOW_WIDTH};
use crate::geometry::{fits, scaled, storable, Image, Placement, Point, Sprite, Transform};
use crate::movement::{apply_velocity, can_apply_velocity, integrate, Velocity};

verus! {

/// A bottle in flight, over the integers.
pub struct Bottle {
    pub placement: Placement,
    pub sprite: Image,
    pub speed: Point,
}

/// A bottle thrown by the player.
#[derive(Clone, Copy, Debug, PartialEq, Eq)]
pub struct ChemicalProjectile {
    pub transform: Transform,
    pub sprite: Sprite,
    pub velocity: Velocity,
}

impl View for ChemicalProjectile {
    type V = Bottle;

    open spec fn view(&self) -> Bottle {
        Bottle { placement: self.transform@, sprite: self.sprite@, speed: self.velocity@ }
    }
}

/// Whether a horizontal position lies beyond the left or the right edge of
/// the window.
pub open spec fn off_screen(x: int) -> bool {
    x < -WINDOW_WIDTH / 2 || x > WINDOW_WIDTH / 2
}

/// The placement after spinning for `delta` milliseconds.
pub open spec fn spun(placement: Placement, delta: int) -> Placement {
    Placement {
        rotation: placement.rotation + CHEMICAL_PROJECTILE_ROTATION_SPEED * delta,
        ..placement
    }
}

impl Bottle {
    /// Whether the bottle has left the window sideways.
    pub open spec fn gone(self) -> bool {
        off_screen(self.placement.translation.x)
    }

    /// The bottle after flying for `delta` milliseconds at its speed.
    pub open spec fn fly(self, delta: int) -> Bottle {
        Bottle { placement: integrate(self.placement, self.speed, delta), ..self }
    }

    /// The bottle after spinning for `delta` milliseconds.
    pub open spec fn spin(self, delta: int) -> Bottle {
        Bottle { placement: spun(self.placement, delta), ..self }
    }

    /// Whether all that a frame of `delta` milliseconds stores of this bottle
    /// can be stored: its position after flying and, if it is then still in
    /// the window, its angle after spinning.
    pub open spec fn fits_frame(self, delta: int) -> bool {
        &&& self.fly(delta).placement.representable()
        &&& !self.fly(delta).gone() ==> fits(self.fly(delta).spin(delta).placement.rotation)
    }
}

impl ChemicalProjectile {
    /// Whether the bottle has left the window sideways and is to be removed.
    pub fn is_off_screen(&self) -> (gone: bool)
        ensures
            gone == self@.gone(),
    {
        let x: i64 = self.transform.translation.x;
        x < -WINDOW_WIDTH / 2 || x > WINDOW_WIDTH / 2
    }

    /// Tells whether [`ChemicalProjectile::rotate`] can run: whether the
    /// angle it would store can be stored.
    pub fn can_rotate(&self, delta: u32) -> (ok: bool)
        ensures
            ok == fits(spun(self@.placement, delta as int).rotation),
    {
        let spin: i128 = scaled(CHEMICAL_PROJECTILE_ROTATION_SPEED, delta);
        storable(self.transform.rotation as i128 + spin)
    }

    /// Turns the bottle by its spin over a frame of `delta` milliseconds.
    pub fn rotate(&mut self, delta: u32)
        requires
            fits(spun(old(self)@.placement, delta as int).rotation),
        ensures
            final(self)@ == old(self)@.spin(delta as int),
    {
        let spin: i128 = scaled(CHEMICAL_PROJECTILE_ROTATION_SPEED, delta);
        let angle: i128 = self.transform.rotation as i128 + spin;
        self.transform.rotation = angle as i64;
    }

    /// Tells whether a frame of `delta` milliseconds can store what it makes
    /// of this bottle.
    pub fn can_pass_frame(&self, delta: u32) -> (ok: bool)
        ensures
            ok == self@.fits_frame(delta as int),
    {
        if !can_apply_velocity(&self.velocity, &self.transform, delta) {
            return false;
        }
        let mut flown = *self;
        apply_velocity(&flown.velocity, &mut flown.transform, delta);
        flown.is_off_screen() || flown.can_rotate(delta)
    }
}

/// The bottles of a list of projectiles, in order.
pub open spec fn bottles(projectiles: Seq<ChemicalProjectile>) -> Seq<Bottle> {
    projectiles.map_values(|projectile: ChemicalProjectile| projectile@)
}

/// The bottles after all of them have flown for `delta` milliseconds.
pub open spec fn all_flown(flying: Seq<Bottle>, delta: int) -> Seq<Bottle> {
    flying.map_values(|bottle: Bottle| bottle.fly(delta))
}

/// Whether every bottle's position after flying for `delta` milliseconds can
/// be stored.
pub open spec fn all_can_fly(flying: Seq<Bottle>, delta: int) -> bool {
    forall|i: int|
        0 <= i < flying.len() ==> (#[trigger] flying[i].fly(delta)).placement.representable()
}

/// The bottles that a cleanup pass keeps: those that have not left the
/// window, in their order.
pub open spec fn remaining(flying: Seq<Bottle>) -> Seq<Bottle> {
    flying.filter(|bottle: Bottle| !bottle.gone())
}

/// The bottles after all of them have spun for `delta` milliseconds.
pub open spec fn all_spun(flying: Seq<Bottle>, delta: int) -> Seq<Bottle> {
    flying.map_values(|bottle: Bottle| bottle.spin(delta))
}

/// Whether every bottle's angle after spinning for `delta` milliseconds can
/// be stored.
pub open spec fn all_can_spin(flying: Seq<Bottle>, delta: int) -> bool {
    forall|i: int|
        0 <= i < flying.len() ==> fits(#[trigger] flying[i].spin(delta).placement.rotation)
}

/// Appending a projectile appends its bottle.
proof fn lemma_bottles_push(projectiles: Seq<ChemicalProjectile>, last: ChemicalProjectile)
    ensures
        bottles(projectiles.push(last)) == bottles(projectiles).push(last@),
{
}

/// A cleanup pass over a list with one more bottle keeps what it kept of the
/// list, and the new bottle if it is still in the window.
proof fn lemma_remaining_push(flying: Seq<Bottle>, last: Bottle)
    ensures
        remaining(flying.push(last)) == if last.gone() {
            remaining(flying)
        } else {
            remaining(flying).push(last)
        },
{
    reveal(Seq::filter);
    assert(flying.push(last).drop_last() =~= flying);
}

/// Moves every bottle by its velocity over a frame of `delta` milliseconds.
pub fn move_projectiles(projectiles: &mut Vec<ChemicalProjectile>, delta: u32)
    requires
        all_can_fly(bottles(old(projectiles)@), delta as int),
    ensures
        final(projectiles).len() == old(projectiles).len(),
        bottles(final(projectiles)@) == all_flown(bottles(old(projectiles)@), delta as int),
{
    let ghost before = bottles(projectiles@);
    let mut i: usize = 0;
    while i < projectiles.len()
        invariant
            i <= projectiles.len(),
            projectiles.len() == before.len(),
            all_can_fly(before, delta as int),
            forall|j: int|
                0 <= j < i ==> (#[trigger] projectiles@[j])@ == before[j].fly(delta as int),
            forall|j: int|
                i <= j < projectiles.len() ==> (#[trigger] projectiles@[j])@ == before[j],
        decreases projectiles.len() - i,
    {
        let mut projectile = projectiles[i];
        assert(before[i as int].fly(delta as int).placement.representable());
        apply_velocity(&projectile.velocity, &mut projectile.transform, delta);
        projectiles.set(i, projectile);
        i = i + 1;
    }
}

/// Removes every bottle that has left the window sideways; the others stay,
/// in their order.
pub fn cleanup_projectiles(projectiles: &mut Vec<ChemicalProjectile>)
    ensures
        bottles(final(projectiles)@) == remaining(bottles(old(projectiles)@)),
{
    let mut kept: Vec<ChemicalProjectile> = Vec::new();
    let mut i: usize = 0;
    proof {
        reveal(Seq::filter);
    }
    while i < projectiles.len()
        invariant
            i <= projectiles.len(),
            *projectiles == *old(projectiles),
            bottles(kept@) == remaining(bottles(projectiles@.take(i as int))),
        decreases projectiles.len() - i,
    {
        let projectile = projectiles[i];
        proof {
            let seen = projectiles@.take(i as int);
            assert(projectiles@.take(i + 1) =~= seen.push(projectile));
            lemma_bottles_push(seen, projectile);
            lemma_remaining_push(bottles(seen), projectile@);
            lemma_bottles_push(kept@, projectile);
        }
        if !projectile.is_off_screen() {
            kept.push(projectile);
        }
        i = i + 1;
    }
    assert(projectiles@.take(i as int) =~= projectiles@);
    *projectiles = kept;
}

/// Turns every bottle by its spin over a frame of `delta` milliseconds.
pub fn rotate_projectiles(projectiles: &mut Vec<ChemicalProjectile>, delta: u32)
    requires
        all_can_spin(bottles(old(projectiles)@), delta as int),
    ensures
        final(projectiles).len() == old(projectiles).len(),
        bottles(final(projectiles)@) == all_spun(bottles(old(projectiles)@), delta as int),
{
    let ghost before = bottles(projectiles@);
    let mut i: usize = 0;
    while i < projectiles.len()
        invariant
            i <= projectiles.len(),
            projectiles.len() == before.len(),
            all_can_spin(before, delta as int),
            forall|j: int|
                0 <= j < i ==> (#[trigger] projectiles@[j])@ == before[j].spin(delta as int),
            forall|j: int|
                i <= j < projectiles.len() ==> (#[trigger] projectiles@[j])@ == before[j],
        decreases projectiles.len() - i,
    {
        let mut projectile = projectiles[i];
        assert(fits(before[i as int].spin(delta as int).placement.rotation));
        projectile.rotate(delta);
        projectiles.set(i, projectile);
        i = i + 1;
    }
}

/// A bottle flies level at constant speed and spins evenly. With no vertical
/// speed and not below the ground, a frame moves it across by its speed times
/// the time and leaves its height and its speed; the spin adds the spin rate
/// times the time to its angle and leaves its position and its speed.
pub proof fn law_bottle_flies_level_and_spins(bottle: Bottle, delta: nat)
    requires
        bottle.speed.y == 0,
        bottle.placement.translation.y >= GROUND_LEVEL,
    ensures
        ({
            let at = bottle.placement;
            let flown = bottle.fly(delta as int);
            let turned = bottle.spin(delta as int);
            &&& flown.placement.translation.x == at.translation.x + bottle.speed.x * delta
            &&& flown.placement.translation.y == at.translation.y
            &&& flown.placement.rotation == at.rotation
            &&& flown.speed == bottle.speed
            &&& turned.placement.rotation == at.rotation + CHEMICAL_PROJECTILE_ROTATION_SPEED
                * delta
            &&& turned.placement.translation == at.translation
            &&& turned.speed == bottle.speed
        }),
{
}

/// What a cleanup pass removes is gone for good. After the pass no bottle in
/// the list lies beyond the left or the right edge of the window; every
/// bottle that was within them is still in the list; nothing is in the list
/// that was not there before; and a second pass changes nothing.
pub proof fn law_cleanup_removes_what_left(flying: Seq<Bottle>)
    ensures
        ({
            let kept = remaining(flying);
            &&& forall|i: int|
                0 <= i < kept.len() ==> !off_screen((#[trigger] kept[i]).placement.translation.x)
            &&& forall|i: int|
                0 <= i < flying.len() && !(#[trigger] flying[i]).gone() ==> kept.contains(
                    flying[i],
                )
            &&& forall|i: int| 0 <= i < kept.len() ==> flying.contains(#[trigger] kept[i])
            &&& remaining(kept) == kept
        }),
    decreases flying.len(),
{
    reveal(Seq::filter);
    if flying.len() > 0 {
        let before = flying.drop_last();
        let last = flying.last();
        law_cleanup_removes_what_left(before);
        lemma_remaining_push(before, last);
        if !last.gone() {
            lemma_remaining_push(remaining(before), last);
        }
    }
}

} // verus!
