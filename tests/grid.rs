use pathfinding_playground::map::{is_passable, Grid, MapPos, MapSize, TileInfo, TileType};

const WHITE: (u8, u8, u8) = (255, 255, 255);

fn floor() -> TileInfo {
    TileInfo { tile_type: TileType::Floor, color: WHITE }
}

fn wall() -> TileInfo {
    TileInfo { tile_type: TileType::Wall, color: WHITE }
}

#[test]
fn default_tile_is_white_floor() {
    assert_eq!(TileInfo::default(), floor());
    assert_eq!(TileType::default(), TileType::Floor);
}

#[test]
fn tile_indices_in_the_tile_set() {
    assert_eq!(TileType::Floor.to_index(), 0);
    assert_eq!(TileType::Wall.to_index(), 1);
}

#[test]
fn new_grid_has_the_size_and_default_tiles() {
    let grid = Grid::new(&MapSize::new(3, 2));
    assert_eq!(grid.0.len(), 2);
    for row in &grid.0 {
        assert_eq!(row.len(), 3);
        assert!(row.iter().all(|t| *t == TileInfo::default()));
    }
}

#[test]
fn snapshot_flips_rows_and_marks_floor() {
    // y = 0 is the bottom row
    let grid = Grid(vec![
        vec![floor(), wall(), floor()],
        vec![wall(), wall(), floor()],
    ]);
    let snapshot = grid.to_pathfinding_map();
    assert_eq!(snapshot, vec![vec![false, false, true], vec![true, false, true]]);
}

#[test]
fn snapshot_read_back_gives_every_tiles_passability() {
    let size = MapSize::new(4, 3);
    let mut grid = Grid::new(&size);
    grid.0[0][1].tile_type = TileType::Wall;
    grid.0[2][3].tile_type = TileType::Wall;
    grid.0[1][0].tile_type = TileType::Wall;
    let snapshot = grid.to_pathfinding_map();
    for y in 0..3u32 {
        for x in 0..4u32 {
            let pos = MapPos { x, y };
            let floor = grid.get_tile(&pos).tile_type == TileType::Floor;
            assert_eq!(is_passable(&snapshot, &size, pos), floor);
        }
    }
}

#[test]
fn resize_there_and_back_keeps_the_shared_tiles() {
    let size = MapSize::new(4, 3);
    let mut grid = Grid::new(&size);
    for y in 0..3usize {
        for x in 0..4usize {
            grid.0[y][x].color = (x as u8, y as u8, 1);
            if (x + y) % 2 == 0 {
                grid.0[y][x].tile_type = TileType::Wall;
            }
        }
    }
    let other = MapSize::new(2, 5);
    let smaller = Grid::new_from_old(&grid, &size, &other);
    assert_eq!(smaller.0.len(), 5);
    assert!(smaller.0.iter().all(|row| row.len() == 2));
    assert_eq!(smaller.0[4][1], TileInfo::default());
    let back = Grid::new_from_old(&smaller, &other, &size);
    for y in 0..3usize {
        for x in 0..4usize {
            if x < 2 && y < 5 {
                assert_eq!(back.0[y][x], grid.0[y][x]);
            } else {
                assert_eq!(back.0[y][x], TileInfo::default());
            }
        }
    }
}

#[test]
fn clamp_is_idempotent_and_lands_in_the_grid() {
    let size = MapSize::new(15, 10);
    for pos in [
        MapPos { x: 0, y: 0 },
        MapPos { x: 14, y: 9 },
        MapPos { x: 15, y: 3 },
        MapPos { x: 2, y: 40 },
        MapPos { x: u32::MAX, y: u32::MAX },
    ] {
        let once = pos.clamp(&size);
        assert_eq!(once.clamp(&size), once);
        assert!(once.x < 15 && once.y < 10);
    }
    assert_eq!(MapPos { x: 20, y: 4 }.clamp(&size), MapPos { x: 14, y: 4 });
    assert_eq!(MapPos { x: 3, y: 10 }.clamp(&size), MapPos { x: 3, y: 9 });
}

#[test]
fn tile_index_counts_from_the_top_row() {
    let size = MapSize::new(15, 10);
    assert_eq!(MapPos { x: 0, y: 0 }.into_tile_index(&size), 135);
    assert_eq!(MapPos { x: 3, y: 9 }.into_tile_index(&size), 3);
    assert_eq!(MapPos { x: 14, y: 0 }.into_tile_index(&size), 149);
    assert_eq!(MapPos { x: 20, y: 20 }.into_tile_index(&size), 14);
}

#[test]
fn tile_index_round_trip() {
    let size = MapSize::new(5, 4);
    for y in 0..4u32 {
        for x in 0..5u32 {
            let pos = MapPos { x, y };
            assert_eq!(MapPos::from_tile_index(pos.into_tile_index(&size), &size), pos);
        }
    }
    assert_eq!(MapPos::from_tile_index(7, &size), MapPos { x: 2, y: 2 });
}

#[test]
fn plugin_coordinates_flip_the_rows() {
    let size = MapSize::new(5, 4);
    assert_eq!(MapPos { x: 1, y: 0 }.to_array(&size), (1, 3));
    assert_eq!(MapPos { x: 4, y: 3 }.to_array(&size), (4, 0));
    assert_eq!(MapPos::from_array((1, 3), &size), Some(MapPos { x: 1, y: 0 }));
    assert_eq!(MapPos::from_array((5, 0), &size), None);
    assert_eq!(MapPos::from_array((0, 4), &size), None);
}

#[test]
fn display_positions_use_the_sprite_size() {
    assert_eq!(MapPos { x: 3, y: 2 }.to_display(), (48, 32));
    assert_eq!(MapPos::from_display(47, 32), MapPos { x: 2, y: 2 });
    assert_eq!(MapPos::from_display(15, 16), MapPos { x: 0, y: 1 });
}

#[test]
fn tilemap_lists_the_top_row_first() {
    let grid = Grid(vec![
        vec![wall(), floor()],
        vec![TileInfo { tile_type: TileType::Floor, color: (1, 2, 3) }, wall()],
    ]);
    assert_eq!(
        grid.to_tilemap(),
        vec![(0, (1, 2, 3)), (1, WHITE), (1, WHITE), (0, WHITE)]
    );
}

#[test]
fn clear_colors_keeps_tile_kinds() {
    let mut grid = Grid(vec![vec![
        TileInfo { tile_type: TileType::Wall, color: (1, 2, 3) },
        TileInfo { tile_type: TileType::Floor, color: (4, 5, 6) },
    ]]);
    grid.clear_colors();
    assert_eq!(grid.0, vec![vec![wall(), floor()]]);
}

#[test]
fn place_tile_clamps_and_keeps_color() {
    let size = MapSize::new(3, 2);
    let mut grid = Grid::new(&size);
    grid.0[1][2].color = (5, 5, 5);
    grid.place_tile(&size, MapPos { x: 9, y: 9 }, TileType::Wall);
    assert_eq!(grid.0[1][2], TileInfo { tile_type: TileType::Wall, color: (5, 5, 5) });
    grid.place_tile(&size, MapPos { x: 0, y: 0 }, TileType::Wall);
    grid.place_tile(&size, MapPos { x: 0, y: 0 }, TileType::Floor);
    assert_eq!(grid.0[0][0], floor());
}

#[test]
fn goals_stand_on_floor() {
    let size = MapSize::new(3, 3);
    let mut grid = Grid::new(&size);
    grid.0[0][0] = TileInfo { tile_type: TileType::Wall, color: (7, 7, 7) };
    grid.0[2][2].tile_type = TileType::Wall;
    grid.0[1][1].tile_type = TileType::Wall;
    grid.fix_goals_floor(&vec![MapPos { x: 0, y: 0 }, MapPos { x: 2, y: 2 }]);
    assert_eq!(grid.0[0][0], TileInfo { tile_type: TileType::Floor, color: (7, 7, 7) });
    assert_eq!(grid.0[2][2], floor());
    assert_eq!(grid.0[1][1], wall());
}

#[test]
fn get_tile_mut_changes_one_tile() {
    let size = MapSize::new(2, 2);
    let mut grid = Grid::new(&size);
    grid.get_tile_mut(&MapPos { x: 1, y: 0 }).color = (1, 1, 1);
    assert_eq!(grid.get_tile(&MapPos { x: 1, y: 0 }).color, (1, 1, 1));
    assert_eq!(grid.get_tile(&MapPos { x: 0, y: 1 }).color, WHITE);
}

#[test]
fn has_size_checks_every_row() {
    let grid = Grid(vec![vec![floor(), floor()], vec![floor()]]);
    assert!(!grid.has_size(&MapSize::new(2, 2)));
    assert!(Grid::new(&MapSize::new(2, 3)).has_size(&MapSize::new(2, 3)));
    assert!(!Grid::new(&MapSize::new(2, 3)).has_size(&MapSize::new(3, 2)));
}

#[test]
fn dragged_goal_lands_clamped_unless_another_goal_is_there() {
    let size = MapSize::new(4, 4);
    let goals = vec![MapPos { x: 0, y: 0 }, MapPos { x: 3, y: 3 }];
    assert_eq!(
        pathfinding_playground::map::drag_goal(&goals, 0, MapPos { x: 3, y: 3 }, &size),
        None
    );
    assert_eq!(
        pathfinding_playground::map::drag_goal(&goals, 1, MapPos { x: 3, y: 3 }, &size),
        Some(MapPos { x: 3, y: 3 })
    );
    assert_eq!(
        pathfinding_playground::map::drag_goal(&goals, 0, MapPos { x: 9, y: 1 }, &size),
        Some(MapPos { x: 3, y: 1 })
    );
}

#[test]
fn resize_reads_only_the_overlap() {
    // rows of uneven length beyond the shared part are never read
    let old = Grid(vec![vec![wall(), floor(), floor()], vec![floor()]]);
    let resized = Grid::new_from_old(&old, &MapSize::new(3, 2), &MapSize::new(1, 3));
    assert_eq!(resized.0, vec![vec![wall()], vec![floor()], vec![floor()]]);
}
