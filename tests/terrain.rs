use hexgrid::components::{GameState, GridPosition, Selection};
use hexgrid::grid::{GridCoord, GridError, HexGrid};
use hexgrid::terrain::{terrain_buffer, terrain_texture, TerrainType};

fn c(x: i32, y: i32) -> GridCoord {
    GridCoord::new(x, y)
}

#[test]
fn terrain_codes() {
    assert_eq!(TerrainType::Land.texture_code(), 0);
    assert_eq!(TerrainType::Water.texture_code(), 1);
    assert!(TerrainType::Land.is_selectable());
    assert!(!TerrainType::Water.is_selectable());
}

#[test]
fn starting_terrain_has_water_border() {
    assert_eq!(TerrainType::starting(c(0, 5)), TerrainType::Water);
    assert_eq!(TerrainType::starting(c(5, 2)), TerrainType::Water);
    assert_eq!(TerrainType::starting(c(3, 3)), TerrainType::Land);
    assert_eq!(TerrainType::starting(c(7, 7)), TerrainType::Land);
}

#[test]
fn terrain_buffer_writes_codes_at_slots() {
    let g: HexGrid<u64> = HexGrid::new(4, 2).unwrap();
    let cells = vec![(c(2, 0), TerrainType::Water), (c(1, 1), TerrainType::Water)];
    let b = terrain_buffer(&g, &cells).unwrap();
    assert_eq!(b, vec![0, 0, 1, 0, 0, 1, 0, 0]);
}

#[test]
fn terrain_buffer_last_entry_wins() {
    let g: HexGrid<u64> = HexGrid::new(2, 2).unwrap();
    let cells = vec![(c(1, 1), TerrainType::Water), (c(1, 1), TerrainType::Land)];
    assert_eq!(terrain_buffer(&g, &cells).unwrap(), vec![0, 0, 0, 0]);
}

#[test]
fn terrain_buffer_refuses_outside_cell() {
    let g: HexGrid<u64> = HexGrid::new(2, 2).unwrap();
    let cells = vec![(c(0, 0), TerrainType::Water), (c(2, 0), TerrainType::Water)];
    assert_eq!(terrain_buffer(&g, &cells), Err(GridError::OutOfBounds));
    assert_eq!(terrain_texture(&g, &cells), Err(GridError::OutOfBounds));
}

#[test]
fn terrain_texture_bytes_in_machine_order() {
    let g: HexGrid<u64> = HexGrid::new(8, 8).unwrap();
    let mut cells = Vec::new();
    for y in 0..8 {
        for x in 0..8 {
            cells.push((c(x, y), TerrainType::starting(c(x, y))));
        }
    }
    let words = terrain_buffer(&g, &cells).unwrap();
    let bytes = terrain_texture(&g, &cells).unwrap();
    assert_eq!(bytes.len(), 4 * 64);
    for (i, w) in words.iter().enumerate() {
        let b = [bytes[4 * i], bytes[4 * i + 1], bytes[4 * i + 2], bytes[4 * i + 3]];
        assert_eq!(u32::from_ne_bytes(b), *w);
    }
    assert_eq!(words[0], 1);
    assert_eq!(words[3 * 8 + 3], 0);
    assert_eq!(words.iter().filter(|w| **w == 1).count(), 64 - 25);
}

#[test]
fn next_turn_counts_up() {
    let s = GameState::default();
    assert_eq!(s.turn, 0);
    assert_eq!(s.next_turn().turn, 1);
    assert_eq!(GameState { turn: 41 }.next_turn(), GameState { turn: 42 });
}

#[test]
fn selection_matches_position_cell() {
    let g: HexGrid<u8> = HexGrid::new(8, 8).unwrap();
    let sel = Selection { coords: c(2, 5) };
    let here = GridPosition { position: c(2, 5) };
    let there = GridPosition { position: c(5, 2) };
    assert!(g.same_cell(here.position, sel.coords));
    assert!(!g.same_cell(there.position, sel.coords));
    assert_eq!(Selection::default().coords, c(0, 0));
}
