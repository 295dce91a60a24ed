use cubic_game::grab::{Grabbed, GrabbedState};
use cubic_game::model::{build_chunk_model, classify_block, which_3_sides_of_block_are_visible, ThreeSides, ViewPoint};
use cubic_game::render::{
    my_texture, BlockModel, BlockPos, ChunkModel, ChunkPos, ConnectedBlocks, ConnectedChunks, ModelLayer,
    MyTexture, UvPoint, UvTexture, CELL_GRASS_SIDE, CELL_GRASS_TOP, CELL_SAND, CELL_STONE,
};
use cubic_game::world::{BlockState, BlockType, Chunk, ChunkLayer};

fn far_above() -> ViewPoint {
    ViewPoint { x: 100, y: 100, z: 100 }
}

fn far_below() -> ViewPoint {
    ViewPoint { x: -100, y: -100, z: -100 }
}

fn lone_block(block_type: BlockType, x: usize, y: usize, z: usize) -> Chunk {
    let mut chunk = Chunk::empty();
    *chunk.get_mut(x, y, z) = BlockState::new(block_type);
    chunk
}

fn model_of(chunk: &Chunk, view: ViewPoint) -> ChunkModel {
    let air = ChunkLayer::empty();
    let conn = ConnectedChunks::new(&air, &air, &air, &air, &air, &air);
    build_chunk_model(view, false, ChunkPos::new(0, 0, 0), chunk, &conn)
}

#[test]
fn enclosed_block_has_empty_model() {
    let mut chunk = Chunk::empty();
    chunk.fill(BlockState::new(BlockType::Stone));
    for view in [far_above(), far_below(), ViewPoint { x: 5, y: -3, z: 40 }] {
        let model = model_of(&chunk, view);
        assert_eq!(*model.get(5, 5, 5), BlockModel::Empty);
        assert_eq!(*model.get(1, 14, 1), BlockModel::Empty);
    }
}

#[test]
fn air_block_has_empty_model() {
    let mut chunk = Chunk::empty();
    chunk.fill(BlockState::new(BlockType::Stone));
    *chunk.get_mut(5, 5, 5) = BlockState::new(BlockType::Air);
    let model = model_of(&chunk, far_above());
    assert_eq!(*model.get(5, 5, 5), BlockModel::Empty);
    // the block below the hole shows its top face
    assert_eq!(*model.get(5, 4, 5), BlockModel::Top(UvTexture::from_n(CELL_STONE)));
    let empty = model_of(&Chunk::empty(), far_below());
    assert!(empty.is_empty());
}

#[test]
fn lone_stone_block_shows_three_faces() {
    let model = model_of(&lone_block(BlockType::Stone, 3, 3, 3), far_above());
    assert_eq!(*model.get(3, 3, 3), BlockModel::TopPxPz(UvTexture::from_n(CELL_STONE)));
    assert_eq!(*model.get(3, 4, 3), BlockModel::Empty);
    let below = model_of(&lone_block(BlockType::Stone, 3, 3, 3), far_below());
    assert_eq!(*below.get(3, 3, 3), BlockModel::BottomNxNz(UvTexture::from_n(CELL_STONE)));
}

#[test]
fn lone_grass_block_carries_side_texture() {
    let model = model_of(&lone_block(BlockType::Grass, 8, 2, 8), far_above());
    assert_eq!(*model.get(8, 2, 8), BlockModel::TopPxPz(UvTexture::from_n(CELL_GRASS_SIDE)));
    let air = BlockState::new(BlockType::Air);
    let conn = ConnectedBlocks::new(&air, &air, &air, &air, &air, &air);
    let texture = my_texture(&BlockState::new(BlockType::Grass), &conn);
    assert_eq!(texture.top(), Some(UvTexture::from_n(CELL_GRASS_TOP)));
    assert_eq!(texture.px(), Some(UvTexture::from_n(CELL_GRASS_SIDE)));
    assert_ne!(texture.top(), texture.px());
    assert_eq!(my_texture(&BlockState::new(BlockType::Sand), &conn), MyTexture::AllSides(UvTexture::from_n(CELL_SAND)));
    assert_eq!(my_texture(&air, &conn).nz(), None);
}

#[test]
fn classifier_is_deterministic() {
    let stone = BlockState::new(BlockType::Stone);
    let air = BlockState::new(BlockType::Air);
    let conn = ConnectedBlocks::new(&air, &stone, &stone, &air, &air, &stone);
    for sides in [ThreeSides::TopPxPz, ThreeSides::BottomNxNz, ThreeSides::TopNxNz] {
        let first = classify_block(&stone, &conn, sides);
        let second = classify_block(&stone, &conn, sides);
        assert_eq!(first, second);
    }
    assert_eq!(classify_block(&stone, &conn, ThreeSides::TopNxPz), BlockModel::TopNxPz(UvTexture::from_n(CELL_STONE)));
    assert_eq!(classify_block(&stone, &conn, ThreeSides::BottomPxNz), BlockModel::Empty);
    assert_eq!(classify_block(&stone, &conn, ThreeSides::TopPxNz), BlockModel::Top(UvTexture::from_n(CELL_STONE)));
    assert_eq!(classify_block(&air, &conn, ThreeSides::TopNxPz), BlockModel::Empty);
}

#[test]
fn chunk_out_of_view_gets_empty_model() {
    let mut chunk = Chunk::empty();
    chunk.fill(BlockState::new(BlockType::Dirt));
    let air = ChunkLayer::empty();
    let conn = ConnectedChunks::new(&air, &air, &air, &air, &air, &air);
    let model = build_chunk_model(far_above(), true, ChunkPos::new(9, 0, 9), &chunk, &conn);
    assert!(model.is_empty());
    assert!(model == ChunkModel::empty());
    assert_eq!(*model.get(15, 15, 15), BlockModel::Empty);
    let seen = build_chunk_model(far_above(), false, ChunkPos::new(0, 0, 0), &chunk, &conn);
    assert!(!seen.is_empty());
}

#[test]
fn edge_block_reads_px_neighbour_from_connected_layer() {
    let chunk = lone_block(BlockType::Stone, 15, 4, 6);
    let air = ChunkLayer::empty();
    let mut px = ChunkLayer::empty();
    *px.get_mut(15, 6) = BlockState::new(BlockType::Stone);
    let conn = ConnectedChunks::new(&air, &air, &px, &air, &air, &air);
    let model = build_chunk_model(far_above(), false, ChunkPos::new(0, 0, 0), &chunk, &conn);
    assert_eq!(*model.get(15, 4, 6), BlockModel::TopPz(UvTexture::from_n(CELL_STONE)));

    let mut other = ChunkLayer::empty();
    *other.get_mut(0, 6) = BlockState::new(BlockType::Stone);
    let conn = ConnectedChunks::new(&air, &air, &other, &air, &air, &air);
    let model = build_chunk_model(far_above(), false, ChunkPos::new(0, 0, 0), &chunk, &conn);
    assert_eq!(*model.get(15, 4, 6), BlockModel::TopPxPz(UvTexture::from_n(CELL_STONE)));
}

#[test]
fn edge_block_reads_top_neighbour_from_connected_layer() {
    let chunk = lone_block(BlockType::Sand, 2, 15, 3);
    let air = ChunkLayer::empty();
    let mut top = ChunkLayer::empty();
    *top.get_mut(2, 3) = BlockState::new(BlockType::Dirt);
    let conn = ConnectedChunks::new(&top, &air, &air, &air, &air, &air);
    let model = build_chunk_model(far_above(), false, ChunkPos::new(0, 0, 0), &chunk, &conn);
    assert_eq!(*model.get(2, 15, 3), BlockModel::PxPz(UvTexture::from_n(CELL_SAND)));
}

#[test]
fn octant_follows_camera_side() {
    assert_eq!(ThreeSides::from_logic(true, true, true), ThreeSides::TopPxPz);
    assert_eq!(ThreeSides::from_logic(true, false, true), ThreeSides::TopNxPz);
    assert_eq!(ThreeSides::from_logic(false, true, false), ThreeSides::BottomPxNz);
    assert_eq!(ThreeSides::from_logic(false, false, false), ThreeSides::BottomNxNz);
    let s = ThreeSides::BottomPxNz;
    assert!(!s.top_visible());
    assert!(s.bottom_visible());
    assert!(s.px_visible());
    assert!(!s.nx_visible());
    assert!(!s.pz_visible());
    assert!(s.is_nz_visible());
    let block = BlockPos { x: 16, y: 0, z: -4 };
    assert_eq!(which_3_sides_of_block_are_visible(block, ViewPoint { x: 16, y: -1, z: -5 }), ThreeSides::BottomPxNz);
    assert_eq!(which_3_sides_of_block_are_visible(block, ViewPoint { x: 15, y: 0, z: -4 }), ThreeSides::TopNxPz);
}

#[test]
fn world_position_decides_octant() {
    // the block (1, 1, 1) of chunk (1, 0, 0) sits at x = 17: a camera at x = 10 sees its -x face
    let chunk = lone_block(BlockType::Stone, 1, 1, 1);
    let air = ChunkLayer::empty();
    let conn = ConnectedChunks::new(&air, &air, &air, &air, &air, &air);
    let view = ViewPoint { x: 10, y: 10, z: 10 };
    let model = build_chunk_model(view, false, ChunkPos::new(1, 0, 0), &chunk, &conn);
    assert_eq!(*model.get(1, 1, 1), BlockModel::TopNxPz(UvTexture::from_n(CELL_STONE)));
}

#[test]
fn chunk_model_set_and_get() {
    let mut model = ChunkModel::empty();
    assert!(model.is_empty());
    assert_eq!(*model.get(0, 0, 0), BlockModel::Empty);
    model.set(1, 2, 3, BlockModel::Nz(UvTexture::from_n(2)));
    assert!(!model.is_empty());
    assert_eq!(*model.get(1, 2, 3), BlockModel::Nz(UvTexture::from_n(2)));
    assert_eq!(*model.get(3, 2, 1), BlockModel::Empty);
    model.set(1, 2, 3, BlockModel::Empty);
    assert!(model.is_empty());
    model.set(0, 0, 0, BlockModel::NonCube);
    assert!(!model.is_empty());
    assert!(ChunkModel::default().is_empty());
}

#[test]
fn model_layer_access() {
    let mut layer = ModelLayer::empty();
    assert!(layer.is_empty());
    *layer.get_mut(4, 7) = BlockModel::Px(UvTexture::default());
    assert_eq!(*layer.get(4, 7), BlockModel::Px(UvTexture::from_n(CELL_STONE)));
    assert!(!layer.is_empty());
}

#[test]
fn uv_texture_corners() {
    let t = UvTexture::from_n(4);
    assert_eq!(t.up_left(), UvPoint { u: 0, v: 4 });
    assert_eq!(t.up_right(), UvPoint { u: 100, v: 4 });
    assert_eq!(t.low_left(), UvPoint { u: 0, v: 5 });
    assert_eq!(t.low_right(), UvPoint { u: 100, v: 5 });
    let s = UvTexture::new(UvPoint { u: 100, v: 7 });
    assert_eq!(s.low_right(), UvPoint { u: 200, v: 8 });
}

#[test]
fn chunk_pos_scales_to_blocks() {
    let p = ChunkPos::new(-1, 2, 3).to_block_pos();
    assert_eq!(p, BlockPos { x: -16, y: 32, z: 48 });
    let q = p.plus(BlockPos { x: 15, y: 1, z: -8 });
    assert_eq!(q, BlockPos { x: -1, y: 33, z: 40 });
}

#[test]
fn grab_state_switches() {
    let mut g = Grabbed::default();
    assert!(g.0);
    g.switch();
    assert_eq!(g, Grabbed::new(false));
    g.switch();
    assert!(g.0);
    assert_eq!(GrabbedState::default(), GrabbedState::new(true));
}

#[test]
fn glyphs_mark_drawn_faces() {
    let t = UvTexture::from_n(0);
    let s = |m: BlockModel| m.glyph().iter().collect::<String>();
    assert_eq!(s(BlockModel::Empty), "[   ]");
    assert_eq!(s(BlockModel::Top(t)), "[+  ]");
    assert_eq!(s(BlockModel::BottomNx(t)), "[-- ]");
    assert_eq!(s(BlockModel::TopPxPz(t)), "[+++]");
    assert_eq!(s(BlockModel::BottomNxNzDouble(t, t)), "(---)");
}

#[test]
fn chunk_text_lists_layers_from_the_top() {
    let mut model = ChunkModel::empty();
    model.set(0, 15, 0, BlockModel::Top(UvTexture::from_n(0)));
    model.set(0, 0, 1, BlockModel::Nz(UvTexture::from_n(0)));
    let text: String = model.to_text().into_iter().collect();
    assert_eq!(text.len(), 16 * (16 * (16 * 5 + 1) + 2));
    assert!(text.starts_with("[+  ][   ]"));
    let last_layer = &text[15 * (16 * 81 + 2)..];
    assert!(last_layer.starts_with("[   ][  -][   ]"));
    assert!(text.ends_with("]\n\n\n"));
    assert_eq!(&text[80..81], "\n");
}
