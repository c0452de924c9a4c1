use pacman::common::Direction;
use pacman::map::{Corner, MapType, Maze, OutOfBounds, TilePos, WallType};
use pacman::visuals::sprite_index_for_wall_type;

fn maze_from(rows: &[&str]) -> Maze {
    let cells = rows
        .iter()
        .map(|row| {
            row.chars()
                .map(|c| match c {
                    '#' => MapType::Wall(WallType::Inner),
                    '-' => MapType::GhostOnlyBarrier,
                    _ => MapType::Empty,
                })
                .collect::<Vec<MapType>>()
        })
        .collect::<Vec<Vec<MapType>>>();
    Maze::new(cells)
}

fn tp(x: i32, y: i32) -> TilePos {
    TilePos { x, y }
}

#[test]
fn opposite_swaps_each_pair_and_is_an_involution() {
    assert_eq!(Direction::Up.opposite(), Direction::Down);
    assert_eq!(Direction::Down.opposite(), Direction::Up);
    assert_eq!(Direction::Left.opposite(), Direction::Right);
    assert_eq!(Direction::Right.opposite(), Direction::Left);
    for d in [Direction::Up, Direction::Down, Direction::Left, Direction::Right] {
        assert_eq!(d.opposite().opposite(), d);
    }
}

#[test]
fn translate_moves_one_step_with_y_growing_downwards() {
    let p = tp(5, 5);
    assert_eq!(p.translate(&Direction::Up), tp(5, 4));
    assert_eq!(p.translate(&Direction::Down), tp(5, 6));
    assert_eq!(p.translate(&Direction::Left), tp(4, 5));
    assert_eq!(p.translate(&Direction::Right), tp(6, 5));
}

#[test]
fn checked_translate_refuses_to_leave_the_i32_range() {
    assert_eq!(tp(i32::MAX, 0).checked_translate(&Direction::Right), None);
    assert_eq!(tp(0, i32::MIN).checked_translate(&Direction::Up), None);
    assert_eq!(tp(i32::MAX, 0).checked_translate(&Direction::Left), Some(tp(i32::MAX - 1, 0)));
}

#[test]
fn dist_to_is_squared_euclidean() {
    assert_eq!(tp(0, 0).dist_to(&tp(3, 4)), 25);
    assert_eq!(tp(4, 3).dist_to(&tp(3, 0)), 10);
    assert_eq!(tp(3, 4).dist_to(&tp(3, 0)), 16);
    assert_eq!(tp(2, 2).dist_to(&tp(2, 2)), 0);
    let span: u128 = (u32::MAX as u128) * (u32::MAX as u128);
    assert_eq!(tp(i32::MIN, i32::MIN).dist_to(&tp(i32::MAX, i32::MAX)), 2 * span);
}

#[test]
fn get_at_classifies_cells_and_reports_out_of_bounds() {
    let maze = maze_from(&["#.-", "..."]);
    assert_eq!(maze.height(), 2);
    assert_eq!(maze.get_at(&tp(0, 0)), Ok(MapType::Wall(WallType::Inner)));
    assert_eq!(maze.get_at(&tp(1, 0)), Ok(MapType::Empty));
    assert_eq!(maze.get_at(&tp(2, 0)), Ok(MapType::GhostOnlyBarrier));
    assert_eq!(maze.get_at(&tp(3, 0)), Err(OutOfBounds { pos: tp(3, 0) }));
    assert_eq!(maze.get_at(&tp(0, -1)), Err(OutOfBounds { pos: tp(0, -1) }));
    assert_eq!(maze.get_at(&tp(0, 2)), Err(OutOfBounds { pos: tp(0, 2) }));
}

#[test]
fn is_wall_counts_walls_and_outside_but_not_the_gate() {
    let maze = maze_from(&["#.-"]);
    assert!(maze.is_wall(&tp(0, 0)));
    assert!(!maze.is_wall(&tp(1, 0)));
    assert!(!maze.is_wall(&tp(2, 0)));
    assert!(maze.is_wall(&tp(3, 0)));
    assert!(maze.is_wall(&tp(-1, 0)));
}

#[test]
fn empty_neighbours_come_in_up_left_down_right_order() {
    let maze = maze_from(&["#.#", "...", "#.#"]);
    let ns = maze.get_empty_neighbours(&tp(1, 1));
    assert_eq!(
        ns,
        vec![
            (tp(1, 0), Direction::Up),
            (tp(0, 1), Direction::Left),
            (tp(1, 2), Direction::Down),
            (tp(2, 1), Direction::Right),
        ]
    );
}

#[test]
fn empty_neighbours_skip_walls_and_the_outside_and_keep_the_gate() {
    let maze = maze_from(&["#-#", "#.#", "###"]);
    let ns = maze.get_empty_neighbours(&tp(1, 1));
    assert_eq!(ns, vec![(tp(1, 0), Direction::Up)]);
    let corner = maze.get_empty_neighbours(&tp(0, 0));
    assert_eq!(corner, vec![(tp(1, 0), Direction::Right)]);
    let isolated = maze_from(&["."]).get_empty_neighbours(&tp(0, 0));
    assert!(isolated.is_empty());
}

#[test]
fn wall_sprites_follow_the_sheet() {
    assert_eq!(sprite_index_for_wall_type(&WallType::Straight(Direction::Up)), 20);
    assert_eq!(sprite_index_for_wall_type(&WallType::DoubleStraight(Direction::Right)), 2);
    assert_eq!(sprite_index_for_wall_type(&WallType::DoubleCorner(Corner::TopRight)), 0);
    assert_eq!(
        sprite_index_for_wall_type(&WallType::VerticalLineInnerCorner(Corner::BottomLeft)),
        7
    );
    assert_eq!(sprite_index_for_wall_type(&WallType::HorizontalLineInnerCornerTopRight), 43);
    assert_eq!(sprite_index_for_wall_type(&WallType::HorizontalLineInnerCornerTopLeft), 42);
    assert_eq!(sprite_index_for_wall_type(&WallType::OuterCorner(Corner::BottomRight)), 23);
    assert_eq!(sprite_index_for_wall_type(&WallType::InnerCorner(Corner::TopLeft)), 34);
    assert_eq!(sprite_index_for_wall_type(&WallType::NestCorner(Corner::BottomLeft)), 28);
    assert_eq!(sprite_index_for_wall_type(&WallType::Inner), 44);
}

#[test]
fn find_isolated_tile_reports_a_tile_with_no_way_out() {
    let good = maze_from(&["#####", "#...#", "#.#.#", "#...#", "#####"]);
    assert_eq!(good.find_isolated_tile(), None);
    let bad = maze_from(&["#####", "#..##", "###.#", "#####"]);
    assert_eq!(bad.find_isolated_tile(), Some(tp(3, 2)));
    let gate_only = maze_from(&["###", "#-#", "###"]);
    assert_eq!(gate_only.find_isolated_tile(), Some(tp(1, 1)));
    let walls = maze_from(&["##", "##"]);
    assert_eq!(walls.find_isolated_tile(), None);
    assert_eq!(maze_from(&[]).find_isolated_tile(), None);
}
