//! Quantizing a heading angle into one of eight compass directions.
//!
//! The angle is `atan2(y, x)` of the corrected magnetic field, so 0 points
//! East and the circle is split into eight 45-degree sectors, each centered
//! on one direction. The caller computes the angle in floating point and
//! hands it in as an integer number of microradians; the quantizer itself is
//! exact integer logic. A sector is half-open: a value exactly on an edge
//! belongs to the counter-clockwise-next sector, and everything at or beyond
//! the last positive edge (near plus or minus pi) is West.

use vstd::prelude::*;

verus! {

/// One eighth of a turn less half a sector: the edge between East and
/// NorthEast, `pi/8` radians in microradians.
pub const URAD_PI_8: i64 = 392699;
/// The edge between NorthEast and North: `3*pi/8` radians in microradians.
pub const URAD_3PI_8: i64 = 1178097;
/// The edge between North and NorthWest: `5*pi/8` radians in microradians.
pub const URAD_5PI_8: i64 = 1963495;
/// The edge between NorthWest and West: `7*pi/8` radians in microradians.
pub const URAD_7PI_8: i64 = 2748894;

/// The eight compass directions; no others are representable.
#[derive(Clone, Copy, Debug, PartialEq, Eq, Structural)]
pub enum Direction {
    North,
    NorthEast,
    East,
    SouthEast,
    South,
    SouthWest,
    West,
    NorthWest,
}

/// The direction whose sector contains the angle `theta` (microradians),
/// following the strict less-than chain from the most negative edge upward;
/// angles at or beyond the last positive edge fall to West.
pub open spec fn dir_of_theta(theta: int) -> Direction {
    if theta < -URAD_7PI_8 {
        Direction::West
    } else if theta < -URAD_5PI_8 {
        Direction::SouthWest
    } else if theta < -URAD_3PI_8 {
        Direction::South
    } else if theta < -URAD_PI_8 {
        Direction::SouthEast
    } else if theta < URAD_PI_8 {
        Direction::East
    } else if theta < URAD_3PI_8 {
        Direction::NorthEast
    } else if theta < URAD_5PI_8 {
        Direction::North
    } else if theta < URAD_7PI_8 {
        Direction::NorthWest
    } else {
        Direction::West
    }
}

/// Quantize a heading angle, given in microradians, to a compass direction.
/// Total over all inputs; angles outside (-pi, pi] still fall into the
/// nearest sector of the chain.
pub fn dir_from_theta(theta_urad: i64) -> (d: Direction)
    ensures
        d == dir_of_theta(theta_urad as int),
{
    if theta_urad < -URAD_7PI_8 {
        Direction::West
    } else if theta_urad < -URAD_5PI_8 {
        Direction::SouthWest
    } else if theta_urad < -URAD_3PI_8 {
        Direction::South
    } else if theta_urad < -URAD_PI_8 {
        Direction::SouthEast
    } else if theta_urad < URAD_PI_8 {
        Direction::East
    } else if theta_urad < URAD_3PI_8 {
        Direction::NorthEast
    } else if theta_urad < URAD_5PI_8 {
        Direction::North
    } else if theta_urad < URAD_7PI_8 {
        Direction::NorthWest
    } else {
        Direction::West
    }
}

/// Each of the eight half-open 45-degree sectors, centered on its direction,
/// maps to that direction, and both ends of the circle (at or beyond the
/// edge nearest plus or minus pi) map to West.
pub proof fn lemma_dir_sectors(theta: int)
    ensures
        -URAD_PI_8 <= theta < URAD_PI_8 ==> dir_of_theta(theta) == Direction::East,
        URAD_PI_8 <= theta < URAD_3PI_8 ==> dir_of_theta(theta) == Direction::NorthEast,
        URAD_3PI_8 <= theta < URAD_5PI_8 ==> dir_of_theta(theta) == Direction::North,
        URAD_5PI_8 <= theta < URAD_7PI_8 ==> dir_of_theta(theta) == Direction::NorthWest,
        theta >= URAD_7PI_8 ==> dir_of_theta(theta) == Direction::West,
        theta < -URAD_7PI_8 ==> dir_of_theta(theta) == Direction::West,
        -URAD_7PI_8 <= theta < -URAD_5PI_8 ==> dir_of_theta(theta) == Direction::SouthWest,
        -URAD_5PI_8 <= theta < -URAD_3PI_8 ==> dir_of_theta(theta) == Direction::South,
        -URAD_3PI_8 <= theta < -URAD_PI_8 ==> dir_of_theta(theta) == Direction::SouthEast,
{
}

} // verus!
