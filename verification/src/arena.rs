//! The arena: a fixed rectangle and the four walls that close it.

use vstd::prelude::*;
use crate::geometry::{Aabb, Vec2};
use crate::units::quotient;

verus! {

/// The y coordinate of the top wall's center line.
pub const WALL_TOP: i64 = 300_000_000;

/// The y coordinate of the bottom wall's center line.
pub const WALL_BOTTOM: i64 = -300_000_000;

/// The x coordinate of the left wall's center line.
pub const WALL_LEFT: i64 = -450_000_000;

/// The x coordinate of the right wall's center line.
pub const WALL_RIGHT: i64 = 450_000_000;

/// How thick each wall is.
pub const WALL_THICKNESS: i64 = 10_000_000;

/// The distance between the center lines of the bottom and the top wall.
pub open spec fn arena_height() -> int {
    WALL_TOP - WALL_BOTTOM
}

/// The distance between the center lines of the left and the right wall.
pub open spec fn arena_width() -> int {
    WALL_RIGHT - WALL_LEFT
}

/// Which of the four walls.
#[derive(Clone, Copy, Debug, PartialEq, Eq, Structural)]
pub enum WallLocation {
    Left,
    Right,
    Top,
    Bottom,
}

impl WallLocation {
    /// The center of the wall: on the arena's border, halfway along it.
    pub open spec fn spec_position(self) -> Vec2 {
        match self {
            WallLocation::Left => Vec2 { x: WALL_LEFT, y: 0 },
            WallLocation::Right => Vec2 { x: WALL_RIGHT, y: 0 },
            WallLocation::Top => Vec2 { x: 0, y: WALL_TOP },
            WallLocation::Bottom => Vec2 { x: 0, y: WALL_BOTTOM },
        }
    }

    /// The left and the right wall are as high as the arena and one wall thickness more,
    /// so that they cover the corners; the top and the bottom wall are as wide.
    pub open spec fn spec_size(self) -> Vec2 {
        match self {
            WallLocation::Left | WallLocation::Right => Vec2 {
                x: WALL_THICKNESS,
                y: (arena_height() + WALL_THICKNESS) as i64,
            },
            WallLocation::Top | WallLocation::Bottom => Vec2 {
                x: (arena_width() + WALL_THICKNESS) as i64,
                y: WALL_THICKNESS,
            },
        }
    }

    /// The center of the wall.
    pub fn position(&self) -> (p: Vec2)
        ensures
            p == self.spec_position(),
    {
        match self {
            WallLocation::Left => Vec2 { x: WALL_LEFT, y: 0 },
            WallLocation::Right => Vec2 { x: WALL_RIGHT, y: 0 },
            WallLocation::Top => Vec2 { x: 0, y: WALL_TOP },
            WallLocation::Bottom => Vec2 { x: 0, y: WALL_BOTTOM },
        }
    }

    /// The full width and height of the wall. The arena they are taken from is never
    /// empty: both of its dimensions are positive.
    pub fn size(&self) -> (s: Vec2)
        ensures
            s == self.spec_size(),
            arena_height() > 0,
            arena_width() > 0,
            s.x > 0,
            s.y > 0,
            self is Left || self is Right ==> s.x == WALL_THICKNESS && s.y == arena_height()
                + WALL_THICKNESS,
            self is Top || self is Bottom ==> s.x == arena_width() + WALL_THICKNESS && s.y
                == WALL_THICKNESS,
    {
        let arena_height: i64 = WALL_TOP - WALL_BOTTOM;
        let arena_width: i64 = WALL_RIGHT - WALL_LEFT;
        match self {
            WallLocation::Left | WallLocation::Right => Vec2 {
                x: WALL_THICKNESS,
                y: arena_height + WALL_THICKNESS,
            },
            WallLocation::Top | WallLocation::Bottom => Vec2 {
                x: arena_width + WALL_THICKNESS,
                y: WALL_THICKNESS,
            },
        }
    }
}

/// What a wall is created with: where it stands and how large it is.
#[derive(Clone, Copy, Debug, PartialEq, Eq, Structural)]
pub struct WallBundle {
    pub location: WallLocation,
    pub translation: Vec2,
    pub scale: Vec2,
}

impl WallBundle {
    /// What the wall at `location` is created with.
    pub open spec fn spec_new(location: WallLocation) -> WallBundle {
        WallBundle {
            location,
            translation: location.spec_position(),
            scale: location.spec_size(),
        }
    }

    /// Describes the wall at `location`.
    pub fn new(location: WallLocation) -> (bundle: WallBundle)
        ensures
            bundle == WallBundle::spec_new(location),
    {
        WallBundle { location, translation: location.position(), scale: location.size() }
    }
}

/// A wall of the arena. It never moves.
#[derive(Clone, Copy, Debug, PartialEq, Eq, Structural)]
pub struct Wall {
    pub location: WallLocation,
    pub position: Vec2,
    pub half_extent: Vec2,
}

impl Wall {
    /// A wall has no negative extent.
    pub open spec fn wf(self) -> bool {
        self.bounds().wf()
    }

    /// The box that the ball is tested against.
    pub open spec fn bounds(self) -> Aabb {
        Aabb { center: self.position, half_size: self.half_extent }
    }

    /// The wall that `bundle` describes: it stands where the bundle says and reaches half
    /// of the bundle's size to each side.
    pub open spec fn spec_spawn(bundle: WallBundle) -> Wall {
        Wall {
            location: bundle.location,
            position: bundle.translation,
            half_extent: Vec2 {
                x: quotient(bundle.scale.x as int, 2) as i64,
                y: quotient(bundle.scale.y as int, 2) as i64,
            },
        }
    }

    /// The wall that stands at `location` in the arena.
    pub open spec fn at(location: WallLocation) -> Wall {
        Wall::spec_spawn(WallBundle::spec_new(location))
    }

    /// Creates the wall that `bundle` describes. Half of an odd size is rounded toward
    /// zero.
    pub fn spawn(bundle: WallBundle) -> (wall: Wall)
        ensures
            wall == Wall::spec_spawn(bundle),
            bundle.scale.x >= 0 && bundle.scale.y >= 0 ==> wall.wf(),
    {
        Wall {
            location: bundle.location,
            position: bundle.translation,
            half_extent: Vec2 { x: bundle.scale.x / 2, y: bundle.scale.y / 2 },
        }
    }
}

/// The four walls in the order in which the ball is tested against them.
pub open spec fn arena_walls() -> Seq<Wall> {
    seq![
        Wall::at(WallLocation::Left),
        Wall::at(WallLocation::Right),
        Wall::at(WallLocation::Top),
        Wall::at(WallLocation::Bottom),
    ]
}

/// Creates the four walls of the arena.
pub fn spawn_walls() -> (walls: Vec<Wall>)
    ensures
        walls@ == arena_walls(),
        forall|i: int| 0 <= i < walls.len() ==> (#[trigger] walls[i]).wf(),
{
    let mut walls: Vec<Wall> = Vec::new();
    walls.push(Wall::spawn(WallBundle::new(WallLocation::Left)));
    walls.push(Wall::spawn(WallBundle::new(WallLocation::Right)));
    walls.push(Wall::spawn(WallBundle::new(WallLocation::Top)));
    walls.push(Wall::spawn(WallBundle::new(WallLocation::Bottom)));
    proof {
        assert(walls@ =~= arena_walls());
    }
    walls
}

} // verus!
