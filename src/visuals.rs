use vstd::prelude::*;

use crate::common::Direction;
use crate::map::{Corner, WallType};

verus! {

/// The index in the maze sprite sheet of each wall piece.
pub open spec fn wall_sprite(w: WallType) -> usize {
    match w {
        WallType::Straight(Direction::Up) => 20,
        WallType::Straight(Direction::Right) => 25,
        WallType::Straight(Direction::Down) => 14,
        WallType::Straight(Direction::Left) => 24,
        WallType::DoubleStraight(Direction::Up) => 10,
        WallType::DoubleStraight(Direction::Right) => 2,
        WallType::DoubleStraight(Direction::Down) => 12,
        WallType::DoubleStraight(Direction::Left) => 3,
        WallType::DoubleCorner(Corner::TopRight) => 0,
        WallType::DoubleCorner(Corner::BottomRight) => 4,
        WallType::DoubleCorner(Corner::BottomLeft) => 5,
        WallType::DoubleCorner(Corner::TopLeft) => 1,
        WallType::VerticalLineInnerCorner(Corner::TopRight) => 8,
        WallType::VerticalLineInnerCorner(Corner::BottomRight) => 6,
        WallType::VerticalLineInnerCorner(Corner::BottomLeft) => 7,
        WallType::VerticalLineInnerCorner(Corner::TopLeft) => 9,
        WallType::HorizontalLineInnerCornerTopRight => 43,
        WallType::HorizontalLineInnerCornerTopLeft => 42,
        WallType::OuterCorner(Corner::TopRight) => 27,
        WallType::OuterCorner(Corner::BottomRight) => 23,
        WallType::OuterCorner(Corner::BottomLeft) => 22,
        WallType::OuterCorner(Corner::TopLeft) => 26,
        WallType::InnerCorner(Corner::TopRight) => 35,
        WallType::InnerCorner(Corner::BottomRight) => 37,
        WallType::InnerCorner(Corner::BottomLeft) => 36,
        WallType::InnerCorner(Corner::TopLeft) => 34,
        WallType::NestCorner(Corner::TopRight) => 31,
        WallType::NestCorner(Corner::BottomRight) => 29,
        WallType::NestCorner(Corner::BottomLeft) => 28,
        WallType::NestCorner(Corner::TopLeft) => 30,
        WallType::Inner => 44,
    }
}

/// The maze sprite sheet index that draws `wall_type`.
pub fn sprite_index_for_wall_type(wall_type: &WallType) -> (r: usize)
    ensures
        r == wall_sprite(*wall_type),
{
    match wall_type {
        WallType::Straight(Direction::Up) => 20,
        WallType::Straight(Direction::Right) => 25,
        WallType::Straight(Direction::Down) => 14,
        WallType::Straight(Direction::Left) => 24,
        WallType::DoubleStraight(Direction::Up) => 10,
        WallType::DoubleStraight(Direction::Right) => 2,
        WallType::DoubleStraight(Direction::Down) => 12,
        WallType::DoubleStraight(Direction::Left) => 3,
        WallType::DoubleCorner(Corner::TopRight) => 0,
        WallType::DoubleCorner(Corner::BottomRight) => 4,
        WallType::DoubleCorner(Corner::BottomLeft) => 5,
        WallType::DoubleCorner(Corner::TopLeft) => 1,
        WallType::VerticalLineInnerCorner(Corner::TopRight) => 8,
        WallType::VerticalLineInnerCorner(Corner::BottomRight) => 6,
        WallType::VerticalLineInnerCorner(Corner::BottomLeft) => 7,
        WallType::VerticalLineInnerCorner(Corner::TopLeft) => 9,
        WallType::HorizontalLineInnerCornerTopRight => 43,
        WallType::HorizontalLineInnerCornerTopLeft => 42,
        WallType::OuterCorner(Corner::TopRight) => 27,
        WallType::OuterCorner(Corner::BottomRight) => 23,
        WallType::OuterCorner(Corner::BottomLeft) => 22,
        WallType::OuterCorner(Corner::TopLeft) => 26,
        WallType::InnerCorner(Corner::TopRight) => 35,
        WallType::InnerCorner(Corner::BottomRight) => 37,
        WallType::InnerCorner(Corner::BottomLeft) => 36,
        WallType::InnerCorner(Corner::TopLeft) => 34,
        WallType::NestCorner(Corner::TopRight) => 31,
        WallType::NestCorner(Corner::BottomRight) => 29,
        WallType::NestCorner(Corner::BottomLeft) => 28,
        WallType::NestCorner(Corner::TopLeft) => 30,
        WallType::Inner => 44,
    }
}

} // verus!
