//! The static backdrop of the level.

use vstd::prelude::*;
use crate::constants::{UNIT, VIRTUAL_HEIGHT, VIRTUAL_WIDTH};
use crate::geometry::{Image, Placement, Point, Sprite, Transform};

verus! {

/// The backdrop, over the integers.
pub struct Backdrop {
    pub placement: Placement,
    pub sprite: Image,
}

/// The static background image of the level.
#[derive(Clone, Copy, Debug, PartialEq, Eq)]
pub struct Background {
    pub transform: Transform,
    pub sprite: Sprite,
}

impl View for Background {
    type V = Backdrop;

    open spec fn view(&self) -> Backdrop {
        Backdrop { placement: self.transform@, sprite: self.sprite@ }
    }
}

/// The backdrop of a new game: centred, one layer behind everything else,
/// and as large as the virtual resolution.
pub open spec fn initial_backdrop() -> Backdrop {
    Backdrop {
        placement: Placement {
            translation: Point { x: 0, y: 0 },
            layer: -1,
            rotation: 0,
            mirrored: false,
        },
        sprite: Image {
            custom_size: Point { x: VIRTUAL_WIDTH * UNIT, y: VIRTUAL_HEIGHT * UNIT },
            flip_x: false,
        },
    }
}

/// Makes the background entity of a new game.
pub fn spawn_background() -> (background: Background)
    ensures
        background@ == initial_backdrop(),
{
    Background {
        transform: Transform::from_xyz(0, 0, -1),
        sprite: Sprite::sized(VIRTUAL_WIDTH as i64 * UNIT, VIRTUAL_HEIGHT as i64 * UNIT),
    }
}

} // verus!
