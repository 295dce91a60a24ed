use cubic_game::mesh::{build_chunk_meshes, MeshVertex, Meshes, Normal, Rgba, IND_CAP, VERT_CAP};
use cubic_game::render::{BlockModel, BlockPos, ChunkModel, ChunkPos, Face, UvPoint, UvTexture};

fn pattern(t: usize) -> u16 {
    [0u16, 1, 2, 0, 3, 2][t % 6] + 4 * (t / 6) as u16
}

#[test]
fn single_top_face_gives_one_quad() {
    let tex = UvTexture::from_n(2);
    let mut model = ChunkModel::empty();
    model.set(1, 3, 2, BlockModel::Top(tex));
    let batches = build_chunk_meshes(vec![(ChunkPos::new(1, 0, -1), model)], None);
    assert_eq!(batches.len(), 1);
    let b = &batches[0];
    assert_eq!(b.vertices.len(), 4);
    assert_eq!(b.indices, vec![0, 1, 2, 0, 3, 2]);
    assert!(b.texture.is_none());
    for v in &b.vertices {
        assert_eq!(v.position.y, 4);
    }
    let up = Normal { x: 0, y: 1, z: 0 };
    let white = Rgba { r: 255, g: 255, b: 255, a: 255 };
    let v = |x: isize, z: isize, uv: UvPoint| MeshVertex { position: BlockPos { x, y: 4, z }, uv, normal: up, color: white };
    assert_eq!(b.vertices[0], v(17, -14, tex.low_left()));
    assert_eq!(b.vertices[1], v(18, -14, tex.low_right()));
    assert_eq!(b.vertices[2], v(18, -13, tex.up_right()));
    assert_eq!(b.vertices[3], v(17, -13, tex.up_left()));
    let mut uvs: Vec<(i32, i32)> = b.vertices.iter().map(|v| (v.uv.u, v.uv.v)).collect();
    uvs.sort();
    let mut corners: Vec<(i32, i32)> = [tex.up_left(), tex.up_right(), tex.low_left(), tex.low_right()]
        .iter()
        .map(|p| (p.u, p.v))
        .collect();
    corners.sort();
    assert_eq!(uvs, corners);
    assert_eq!(b.vertices[2].uv, UvPoint { u: 100, v: 2 });
}

#[test]
fn three_face_model_emits_faces_in_order() {
    let tex = UvTexture::from_n(0);
    let mut model = ChunkModel::empty();
    model.set(0, 0, 0, BlockModel::BottomNxPz(tex));
    let batches = build_chunk_meshes(vec![(ChunkPos::new(0, 0, 0), model)], None);
    assert_eq!(batches.len(), 1);
    let b = &batches[0];
    assert_eq!(b.vertices.len(), 12);
    assert_eq!(b.indices.len(), 18);
    for t in 0..18 {
        assert_eq!(b.indices[t], pattern(t));
    }
    // bottom face: y = 0 everywhere
    assert!(b.vertices[0..4].iter().all(|v| v.position.y == 0));
    // -x face: x = 0 everywhere
    assert!(b.vertices[4..8].iter().all(|v| v.position.x == 0));
    // +z face: z = 1 everywhere
    assert!(b.vertices[8..12].iter().all(|v| v.position.z == 1));
    assert_eq!(b.vertices[4].uv, tex.low_right());
    assert_eq!(b.vertices[3].uv, tex.up_left());
    assert!(b.vertices[0..4].iter().all(|v| v.normal == Normal { x: 0, y: -1, z: 0 }));
    assert!(b.vertices[4..8].iter().all(|v| v.normal == Normal { x: -1, y: 0, z: 0 }));
    assert!(b.vertices[8..12].iter().all(|v| v.normal == Normal { x: 0, y: 0, z: 1 }));
    assert!(b.vertices.iter().all(|v| v.color == Rgba { r: 255, g: 255, b: 255, a: 255 }));
}

#[test]
fn many_faces_split_into_whole_quad_batches() {
    let tex = UvTexture::from_n(4);
    let mut model = ChunkModel::empty();
    for y in 0..16 {
        for x in 0..16 {
            for z in 0..16 {
                model.set(x, y, z, BlockModel::Top(tex));
            }
        }
    }
    let batches = build_chunk_meshes(vec![(ChunkPos::new(0, 0, 0), model)], None);
    // 4096 quads: four full batches of 833 quads and one of 764
    assert_eq!(batches.len(), 5);
    let mut base: usize = 0;
    let mut all: Vec<MeshVertex> = Vec::new();
    let mut global_t: usize = 0;
    for b in &batches {
        assert!(b.vertices.len() <= VERT_CAP);
        assert!(b.indices.len() <= IND_CAP);
        assert_eq!(b.vertices.len() % 4, 0);
        assert_eq!(b.indices.len(), b.vertices.len() / 4 * 6);
        for &i in &b.indices {
            assert!((i as usize) < b.vertices.len());
            let whole = 4 * (global_t / 6) + [0usize, 1, 2, 0, 3, 2][global_t % 6];
            assert_eq!(i as usize + base, whole);
            global_t += 1;
        }
        base += b.vertices.len();
        all.extend_from_slice(&b.vertices);
    }
    assert_eq!(batches[0].vertices.len(), 3332);
    assert_eq!(batches[4].vertices.len(), 4096 * 4 - 4 * 3332);
    assert_eq!(all.len(), 4096 * 4);
    assert_eq!(global_t, 4096 * 6);
    // the last quad is the top of block (15, 15, 15)
    assert_eq!(all[all.len() - 2].position, BlockPos { x: 16, y: 16, z: 16 });
}

#[test]
fn empty_chunk_models_are_skipped() {
    let tex = UvTexture::from_n(1);
    let mut model = ChunkModel::empty();
    model.set(0, 0, 0, BlockModel::Px(tex));
    let batches = build_chunk_meshes(
        vec![(ChunkPos::new(0, 0, 0), ChunkModel::empty()), (ChunkPos::new(2, 0, 0), model)],
        None,
    );
    assert_eq!(batches.len(), 1);
    assert_eq!(batches[0].vertices.len(), 4);
    assert!(batches[0].vertices.iter().all(|v| v.position.x == 33));
    assert!(build_chunk_meshes(Vec::new(), None).is_empty());
    assert!(build_chunk_meshes(vec![(ChunkPos::new(0, 0, 0), ChunkModel::empty())], None).is_empty());
}

#[test]
fn extend_with_numbers_indices_from_vertex_count() {
    let tex = UvTexture::from_n(3);
    let mut meshes = Meshes::new(None);
    meshes.extend_with(BlockPos { x: 0, y: 0, z: 0 }, tex, &[Face::Px, Face::Nz]);
    meshes.extend_with(BlockPos { x: 5, y: 5, z: 5 }, tex, &[Face::Top]);
    let batches = meshes.into_iter();
    assert_eq!(batches.len(), 1);
    assert_eq!(batches[0].indices, vec![0, 1, 2, 0, 3, 2, 4, 5, 6, 4, 7, 6, 8, 9, 10, 8, 11, 10]);
    assert_eq!(batches[0].vertices[0].position, BlockPos { x: 1, y: 0, z: 0 });
    assert_eq!(batches[0].vertices[0].uv, tex.low_left());
    assert_eq!(batches[0].vertices[7].position, BlockPos { x: 0, y: 1, z: 0 });
    assert_eq!(batches[0].vertices[8].position, BlockPos { x: 5, y: 6, z: 5 });
}

#[test]
fn every_batch_carries_the_atlas() {
    let atlas = macroquad::texture::Texture2D::from_miniquad_texture(miniquad::TextureId::from_raw_id(
        miniquad::RawId::OpenGl(7),
    ));
    let other = macroquad::texture::Texture2D::from_miniquad_texture(miniquad::TextureId::from_raw_id(
        miniquad::RawId::OpenGl(8),
    ));
    let tex = UvTexture::from_n(0);
    let mut model = ChunkModel::empty();
    for x in 0..16 {
        for z in 0..16 {
            for y in 0..4 {
                model.set(x, y, z, BlockModel::TopPxPz(tex));
            }
        }
    }
    // 1024 blocks of three quads each: 3072 quads in four batches
    let batches = build_chunk_meshes(vec![(ChunkPos::new(0, 0, 0), model)], Some(atlas.clone()));
    assert_eq!(batches.len(), 4);
    for b in &batches {
        assert_eq!(b.texture, Some(atlas.clone()));
        assert_ne!(b.texture, Some(other.clone()));
    }
}
