//! The initial conditions of the settle pass: the boundary polyline, the
//! grid of ball start positions, the material scalars, and the texture box
//! used for normalization — all in fixed-point milli-units.

use vstd::prelude::*;

use crate::geometry::Vec2Fix;

verus! {

/// Setup input of the physics simulation, as provided by the external
/// configuration collaborator.
pub struct InitialConditions {
    /// The boundary polyline the balls settle against.
    pub wall_vertices: Vec<Vec2Fix>,
    pub wall_friction_milli: i64,
    pub wall_restitution_milli: i64,
    /// Start position of the ball with id equal to the position's index.
    pub ball_positions: Vec<Vec2Fix>,
    /// Radius shared by all balls, in milli-units.
    pub ball_radius: i64,
    pub ball_friction_milli: i64,
    pub ball_restitution_milli: i64,
    /// Side length of the square texture box, in milli-units.
    pub box_size: i64,
    /// Lower-left corner of the texture box.
    pub box_lower_left: Vec2Fix,
}

/// The standard boundary: a funnel with a narrow well at the bottom.
pub open spec fn spec_wall_vertices() -> Seq<Vec2Fix> {
    seq![
        Vec2Fix { x: -30000i64, y: 17000i64 },
        Vec2Fix { x: -30000i64, y: 10000i64 },
        Vec2Fix { x: -5000i64, y: -7000i64 },
        Vec2Fix { x: -5000i64, y: -17000i64 },
        Vec2Fix { x: 5000i64, y: -17000i64 },
        Vec2Fix { x: 5000i64, y: -7000i64 },
        Vec2Fix { x: 30000i64, y: 10000i64 },
        Vec2Fix { x: 30000i64, y: 17000i64 },
    ]
}

/// Start position number `k` of the standard layout: the balls come in
/// pairs, one in the left grid and one in the right, the two grids
/// spreading mirror-image from their centers in steps of one ball
/// diameter.
pub open spec fn spec_ball_position(k: int) -> Vec2Fix {
    let pair = k / 2;
    let row = pair / 15 - 7;
    let col = pair % 15 - 7;
    if k % 2 == 0 {
        Vec2Fix { x: (-25000 - 480 * col) as i64, y: (14500 + 480 * row) as i64 }
    } else {
        Vec2Fix { x: (25000 + 480 * col) as i64, y: (14500 + 480 * row) as i64 }
    }
}

impl Default for InitialConditions {
    /// The standard setup: the funnel boundary with friction one half and
    /// restitution six tenths; 450 balls of radius 0.24 units in two
    /// 15-by-15 grids, with friction and restitution nine tenths; and a
    /// 10-unit texture box with its lower-left corner at the bottom of the
    /// well.
    fn default() -> (c: InitialConditions)
        ensures
            c.wall_vertices@ == spec_wall_vertices(),
            c.wall_friction_milli == 500,
            c.wall_restitution_milli == 600,
            c.ball_positions@.len() == 450,
            forall|k: int| 0 <= k < 450 ==> c.ball_positions@[k] == spec_ball_position(k),
            c.ball_radius == 240,
            c.ball_friction_milli == 900,
            c.ball_restitution_milli == 900,
            c.box_size == 10000,
            c.box_lower_left == (Vec2Fix { x: -5000i64, y: -17000i64 }),
    {
        let mut wall_vertices: Vec<Vec2Fix> = Vec::new();
        wall_vertices.push(Vec2Fix { x: -30000, y: 17000 });
        wall_vertices.push(Vec2Fix { x: -30000, y: 10000 });
        wall_vertices.push(Vec2Fix { x: -5000, y: -7000 });
        wall_vertices.push(Vec2Fix { x: -5000, y: -17000 });
        wall_vertices.push(Vec2Fix { x: 5000, y: -17000 });
        wall_vertices.push(Vec2Fix { x: 5000, y: -7000 });
        wall_vertices.push(Vec2Fix { x: 30000, y: 10000 });
        wall_vertices.push(Vec2Fix { x: 30000, y: 17000 });
        proof {
            assert(wall_vertices@ =~= spec_wall_vertices());
        }

        let mut ball_positions: Vec<Vec2Fix> = Vec::new();
        let mut a: i64 = 0;
        while a < 15
            invariant
                0 <= a <= 15,
                ball_positions@.len() == 30 * a,
                forall|k: int|
                    0 <= k < 30 * a ==> ball_positions@[k] == spec_ball_position(k),
            decreases 15 - a,
        {
            let mut b: i64 = 0;
            while b < 15
                invariant
                    0 <= a < 15,
                    0 <= b <= 15,
                    ball_positions@.len() == 30 * a + 2 * b,
                    forall|k: int|
                        0 <= k < 30 * a + 2 * b ==> ball_positions@[k]
                            == spec_ball_position(k),
                decreases 15 - b,
            {
                let row = a - 7;
                let col = b - 7;
                let left = Vec2Fix { x: -25000 - 480 * col, y: 14500 + 480 * row };
                let right = Vec2Fix { x: 25000 + 480 * col, y: 14500 + 480 * row };
                ball_positions.push(left);
                ball_positions.push(right);
                proof {
                    let pair: int = 15 * (a as int) + (b as int);
                    assert(pair / 15 == a as int && pair % 15 == b as int);
                    assert((2 * pair) / 2 == pair && (2 * pair) % 2 == 0);
                    assert((2 * pair + 1) / 2 == pair && (2 * pair + 1) % 2 == 1);
                    assert(ball_positions@.len() == 2 * pair + 2);
                    assert(ball_positions@[2 * pair] == left);
                    assert(ball_positions@[2 * pair + 1] == right);
                    assert(spec_ball_position(2 * pair).x == left.x);
                    assert(spec_ball_position(2 * pair).y == left.y);
                    assert(spec_ball_position(2 * pair + 1).x == right.x);
                    assert(spec_ball_position(2 * pair + 1).y == right.y);
                }
                b = b + 1;
            }
            a = a + 1;
        }

        InitialConditions {
            wall_vertices,
            wall_friction_milli: 500,
            wall_restitution_milli: 600,
            ball_positions,
            ball_radius: 240,
            ball_friction_milli: 900,
            ball_restitution_milli: 900,
            box_size: 10000,
            box_lower_left: Vec2Fix { x: -5000, y: -17000 },
        }
    }
}

} // verus!
