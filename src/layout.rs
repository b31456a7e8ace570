use vstd::prelude::*;

verus! {

/// Radius of a robot, in millimetres.
pub const ROBOT_RADIUS_MM: u64 = 200;

/// Radius of the ball, in millimetres.
pub const BALL_RADIUS_MM: u64 = 45;

/// Clearance kept on each side of a robot in the starting row, in millimetres.
pub const ROBOT_CLEARANCE_MM: u64 = 100;

/// Position units (screen pixels) per metre.
pub const PIXELS_PER_METER: u64 = 100;

/// x of the first robot of the starting row, in position units.
pub const ROW_START_X: u64 = 60;

/// Where the ball is placed at startup, in position units.
pub const BALL_SEED_X: u64 = 150;

pub const BALL_SEED_Y: u64 = 250;

/// Number of robots on the field.
pub const ROBOT_COUNT: u64 = 6;

/// The two kinds of dynamic body on the field; both are discs.
#[derive(Clone, Copy, Debug, PartialEq, Eq, Structural)]
pub enum BodyKind {
    Robot,
    Ball,
}

/// A body to create: its kind and its starting position, in position units.
#[derive(Clone, Copy, Debug, PartialEq, Eq, Structural)]
pub struct BodySeed {
    pub kind: BodyKind,
    pub x: u64,
    pub y: u64,
}

pub open spec fn spec_radius_mm(kind: BodyKind) -> u64 {
    match kind {
        BodyKind::Robot => ROBOT_RADIUS_MM,
        BodyKind::Ball => BALL_RADIUS_MM,
    }
}

/// Distance between the centres of neighbouring robots in the row: one robot
/// diameter plus clearance on both sides, in position units.
pub open spec fn row_spacing() -> int {
    2 * (ROBOT_RADIUS_MM + ROBOT_CLEARANCE_MM) * PIXELS_PER_METER / 1000
}

/// The y of every robot in the row: one robot diameter, in position units.
pub open spec fn row_y() -> int {
    PIXELS_PER_METER * 2 * ROBOT_RADIUS_MM / 1000
}

/// The x of the robot at index `i` of the row.
pub open spec fn row_x(i: int) -> int {
    ROW_START_X + i * row_spacing()
}

/// The seed of the robot at index `i` of the row.
pub open spec fn row_seed(i: int) -> BodySeed {
    BodySeed { kind: BodyKind::Robot, x: row_x(i) as u64, y: row_y() as u64 }
}

/// The seeds of a row of `n` robots, left to right.
pub open spec fn row_layout(n: nat) -> Seq<BodySeed> {
    Seq::new(n, |i: int| row_seed(i))
}

/// Whether a row of `n` robots has coordinates that fit in a `u64`.
pub open spec fn row_fits(n: nat) -> bool {
    row_x(n as int) <= u64::MAX
}

/// The seeds of the whole field: the ball, then a row of `n` robots.
pub open spec fn field_layout(n: nat) -> Seq<BodySeed> {
    seq![BodySeed { kind: BodyKind::Ball, x: BALL_SEED_X, y: BALL_SEED_Y }] + row_layout(n)
}

/// Radius of a body of the given kind, in millimetres.
pub fn radius_mm(kind: BodyKind) -> (r: u64)
    ensures
        r == spec_radius_mm(kind),
{
    match kind {
        BodyKind::Robot => ROBOT_RADIUS_MM,
        BodyKind::Ball => BALL_RADIUS_MM,
    }
}

/// Position units for a whole number of metres.
pub fn meters_to_pixels(meters: i32) -> (r: i32)
    requires
        i32::MIN <= meters * PIXELS_PER_METER <= i32::MAX,
    ensures
        r == meters * PIXELS_PER_METER,
{
    meters * (PIXELS_PER_METER as i32)
}

/// The seed of the robot at index `i` of the starting row.
pub fn row_slot(i: u64) -> (r: BodySeed)
    requires
        row_fits(i as nat),
    ensures
        r == row_seed(i as int),
{
    let spacing: u64 = 2 * (ROBOT_RADIUS_MM + ROBOT_CLEARANCE_MM) * PIXELS_PER_METER / 1000;
    let y: u64 = PIXELS_PER_METER * 2 * ROBOT_RADIUS_MM / 1000;
    BodySeed { kind: BodyKind::Robot, x: ROW_START_X + i * spacing, y }
}

/// The seeds of `n` robots placed evenly in a row, left to right.
pub fn arrange_row(n: u64) -> (r: Vec<BodySeed>)
    requires
        row_fits(n as nat),
    ensures
        r@ == row_layout(n as nat),
{
    let mut r: Vec<BodySeed> = Vec::new();
    let mut i: u64 = 0;
    while i < n
        invariant
            i <= n,
            row_fits(n as nat),
            r@ == row_layout(i as nat),
        decreases n - i,
    {
        assert(row_spacing() == 60);
        assert(row_x(i as int) <= row_x(n as int));
        r.push(row_slot(i));
        i = i + 1;
        assert(r@ =~= row_layout(i as nat));
    }
    r
}

/// The seeds of the whole field: the ball first, then a row of `n` robots.
pub fn field_seeds(n: u64) -> (r: Vec<BodySeed>)
    requires
        row_fits(n as nat),
    ensures
        r@ == field_layout(n as nat),
{
    let mut r: Vec<BodySeed> = Vec::new();
    r.push(BodySeed { kind: BodyKind::Ball, x: BALL_SEED_X, y: BALL_SEED_Y });
    let mut row = arrange_row(n);
    r.append(&mut row);
    assert(r@ =~= field_layout(n as nat));
    r
}

/// The robots of a row stand left to right with strictly increasing x, all at
/// the same y.
pub proof fn lemma_row_strictly_increasing(n: nat)
    requires
        row_fits(n),
    ensures
        row_layout(n).len() == n,
        forall|i: int, j: int|
            0 <= i < j < n ==> (#[trigger] row_layout(n)[i]).x < (#[trigger] row_layout(n)[j]).x
                && row_layout(n)[i].y == row_layout(n)[j].y,
{
    assert(row_spacing() == 60);
    assert forall|i: int, j: int| 0 <= i < j < n implies (#[trigger] row_layout(n)[i]).x < (
    #[trigger] row_layout(n)[j]).x && row_layout(n)[i].y == row_layout(n)[j].y by {
        assert(row_x(i) < row_x(j) <= row_x(n as int));
    }
}

} // verus!
