use std::cell::RefCell;

use cubic_game::world::{Biome, BlockState, BlockType, Chunk, ChunkLayer, CHUNK_SIZE_16};

#[test]
fn only_air_is_empty() {
    assert!(BlockType::Air.is_empty());
    assert!(!BlockType::Dirt.is_empty());
    assert!(!BlockType::Grass.is_empty());
    assert!(!BlockType::Stone.is_empty());
    assert!(!BlockType::Sand.is_empty());
    assert!(BlockState::new(BlockType::Air).is_empty());
    assert!(!BlockState::new(BlockType::Sand).is_empty());
}

#[test]
fn defaults_are_air_and_plains() {
    assert_eq!(BlockType::default(), BlockType::Air);
    assert_eq!(BlockState::default(), BlockState::new(BlockType::Air));
    assert_eq!(Biome::default(), Biome::Plains);
    let chunk = Chunk::default();
    assert_eq!(chunk.biome, Biome::Plains);
    assert_eq!(*chunk.get(15, 15, 15), BlockState::new(BlockType::Air));
}

#[test]
fn empty_chunk_is_all_air() {
    let chunk = Chunk::empty();
    for y in 0..CHUNK_SIZE_16 {
        assert!(chunk.blocks[y].is_empty());
        for x in 0..CHUNK_SIZE_16 {
            for z in 0..CHUNK_SIZE_16 {
                assert!(chunk.get(x, y, z).is_empty());
            }
        }
    }
}

#[test]
fn chunk_from_fn_visits_y_then_x_then_z() {
    let calls: RefCell<Vec<(usize, usize, usize)>> = RefCell::new(Vec::new());
    let chunk = Chunk::from_fn(|x, y, z| {
        calls.borrow_mut().push((x, y, z));
        if y == 0 { BlockState::new(BlockType::Stone) } else { BlockState::new(BlockType::Air) }
    });
    let calls = calls.into_inner();
    assert_eq!(calls.len(), 4096);
    assert_eq!(calls[0], (0, 0, 0));
    assert_eq!(calls[1], (0, 0, 1));
    assert_eq!(calls[16], (1, 0, 0));
    assert_eq!(calls[256], (0, 1, 0));
    assert_eq!(calls[4095], (15, 15, 15));
    assert_eq!(chunk.get(7, 0, 9).block_type, BlockType::Stone);
    assert_eq!(chunk.get(7, 1, 9).block_type, BlockType::Air);
    assert_eq!(chunk.biome, Biome::Plains);
}

#[test]
fn chunk_fill_sets_every_cell() {
    let mut chunk = Chunk::empty();
    chunk.fill(BlockState::new(BlockType::Dirt));
    for y in 0..CHUNK_SIZE_16 {
        for x in 0..CHUNK_SIZE_16 {
            for z in 0..CHUNK_SIZE_16 {
                assert_eq!(chunk.get(x, y, z).block_type, BlockType::Dirt);
            }
        }
    }
}

#[test]
fn chunk_get_mut_changes_one_cell() {
    let mut chunk = Chunk::empty();
    *chunk.get_mut(1, 2, 3) = BlockState::new(BlockType::Grass);
    assert_eq!(chunk.get(1, 2, 3).block_type, BlockType::Grass);
    assert_eq!(chunk.blocks[2].get(1, 3).block_type, BlockType::Grass);
    assert_eq!(chunk.get(3, 2, 1).block_type, BlockType::Air);
    assert_eq!(chunk.get(1, 3, 3).block_type, BlockType::Air);
}

#[test]
fn layer_from_fn_and_fill() {
    let layer = ChunkLayer::from_fn(|x, z| {
        if x == z { BlockState::new(BlockType::Stone) } else { BlockState::new(BlockType::Air) }
    });
    assert_eq!(layer.get(4, 4).block_type, BlockType::Stone);
    assert_eq!(layer.get(4, 5).block_type, BlockType::Air);
    assert!(!layer.is_empty());
    let mut layer = layer;
    layer.fill(BlockState::new(BlockType::Air));
    assert!(layer.is_empty());
    *layer.get_mut(15, 0) = BlockState::new(BlockType::Sand);
    assert!(!layer.is_empty());
    assert_eq!(layer.0[15][0].block_type, BlockType::Sand);
}

#[test]
fn layer_new_keeps_cells() {
    let mut cells = [[BlockState::new(BlockType::Air); 16]; 16];
    cells[2][9] = BlockState::new(BlockType::Dirt);
    let layer = ChunkLayer::new(cells);
    assert_eq!(layer.get(2, 9).block_type, BlockType::Dirt);
    assert_eq!(layer.get(9, 2).block_type, BlockType::Air);
}
