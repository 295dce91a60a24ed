use vstd::prelude::*;

use crate::world::{in_chunk, in_layer, BlockState, BlockType, ChunkLayer, CHUNK_SIZE_16};

verus! {

/// One of the six faces of a block.
#[derive(Debug, Clone, Copy, PartialEq, Eq, Structural)]
pub enum Face {
    Top,
    Bottom,
    Px,
    Nx,
    Pz,
    Nz,
}

/// Which of the six faces of a block are drawn.
#[derive(Debug, Clone, Copy, PartialEq, Eq, Structural)]
pub struct FaceSet {
    pub top: bool,
    pub bottom: bool,
    pub px: bool,
    pub nx: bool,
    pub pz: bool,
    pub nz: bool,
}

pub open spec fn face_set(top: bool, bottom: bool, px: bool, nx: bool, pz: bool, nz: bool) -> FaceSet {
    FaceSet { top, bottom, px, nx, pz, nz }
}

pub open spec fn no_faces() -> FaceSet {
    face_set(false, false, false, false, false, false)
}

pub open spec fn opt_face(present: bool, f: Face) -> Seq<Face> {
    if present {
        seq![f]
    } else {
        Seq::empty()
    }
}

/// The faces of a set in drawing order: top, bottom, +x, -x, +z, -z.
pub open spec fn face_list(fs: FaceSet) -> Seq<Face> {
    opt_face(fs.top, Face::Top) + opt_face(fs.bottom, Face::Bottom) + opt_face(fs.px, Face::Px)
        + opt_face(fs.nx, Face::Nx) + opt_face(fs.pz, Face::Pz) + opt_face(fs.nz, Face::Nz)
}

/// A point of the texture atlas, in hundredths of an atlas unit.
#[derive(Debug, Clone, Copy, PartialEq, Eq, Structural)]
pub struct UvPoint {
    pub u: i32,
    pub v: i32,
}

/// Width of an atlas cell, in hundredths.
pub const CELL_WIDTH: i32 = 100;

/// Height of an atlas cell, in hundredths.
pub const CELL_HEIGHT: i32 = 1;

/// Atlas cells of the block materials.
pub const CELL_DIRT: usize = 0;
pub const CELL_GRASS_SIDE: usize = 1;
pub const CELL_GRASS_TOP: usize = 2;
pub const CELL_STONE: usize = 3;
pub const CELL_SAND: usize = 4;

/// The upper left corner of one cell of the texture atlas.
#[derive(Debug, Clone, Copy, PartialEq, Eq, Structural)]
pub struct UvTexture(UvPoint);

impl UvTexture {
    #[verifier::type_invariant]
    spec fn fits(self) -> bool {
        self.0.u <= i32::MAX - CELL_WIDTH && self.0.v <= i32::MAX - CELL_HEIGHT
    }

    pub closed spec fn origin(self) -> UvPoint {
        self.0
    }

    /// The texture of atlas cell `n`.
    pub closed spec fn cell(n: int) -> UvTexture {
        UvTexture(UvPoint { u: 0, v: n as i32 })
    }

    pub open spec fn spec_up_left(self) -> UvPoint {
        self.origin()
    }

    pub open spec fn spec_up_right(self) -> UvPoint {
        UvPoint { u: (self.origin().u + CELL_WIDTH) as i32, v: self.origin().v }
    }

    pub open spec fn spec_low_left(self) -> UvPoint {
        UvPoint { u: self.origin().u, v: (self.origin().v + CELL_HEIGHT) as i32 }
    }

    pub open spec fn spec_low_right(self) -> UvPoint {
        UvPoint {
            u: (self.origin().u + CELL_WIDTH) as i32,
            v: (self.origin().v + CELL_HEIGHT) as i32,
        }
    }

    /// Cells of the atlas are told apart by their textures.
    pub proof fn lemma_cell_injective(a: int, b: int)
        requires
            0 <= a < i32::MAX,
            0 <= b < i32::MAX,
            a != b,
        ensures
            UvTexture::cell(a) != UvTexture::cell(b),
    {
        assert(UvTexture::cell(a).0.v != UvTexture::cell(b).0.v);
    }

    pub fn from_n(n: usize) -> (r: UvTexture)
        requires
            n < i32::MAX,
        ensures
            r == UvTexture::cell(n as int),
            r.origin() == (UvPoint { u: 0, v: n as i32 }),
    {
        UvTexture(UvPoint { u: 0, v: n as i32 })
    }

    pub fn new(inner: UvPoint) -> (r: UvTexture)
        requires
            inner.u <= i32::MAX - CELL_WIDTH,
            inner.v <= i32::MAX - CELL_HEIGHT,
        ensures
            r.origin() == inner,
    {
        UvTexture(inner)
    }

    pub fn up_left(&self) -> (r: UvPoint)
        ensures
            r == self.spec_up_left(),
    {
        self.0
    }

    pub fn up_right(&self) -> (r: UvPoint)
        ensures
            r == self.spec_up_right(),
            r.u == self.origin().u + CELL_WIDTH,
    {
        proof {
            use_type_invariant(self);
        }
        UvPoint { u: self.0.u + CELL_WIDTH, v: self.0.v }
    }

    pub fn low_left(&self) -> (r: UvPoint)
        ensures
            r == self.spec_low_left(),
            r.v == self.origin().v + CELL_HEIGHT,
    {
        proof {
            use_type_invariant(self);
        }
        UvPoint { u: self.0.u, v: self.0.v + CELL_HEIGHT }
    }

    pub fn low_right(&self) -> (r: UvPoint)
        ensures
            r == self.spec_low_right(),
            r.u == self.origin().u + CELL_WIDTH,
            r.v == self.origin().v + CELL_HEIGHT,
    {
        proof {
            use_type_invariant(self);
        }
        UvPoint { u: self.0.u + CELL_WIDTH, v: self.0.v + CELL_HEIGHT }
    }
}

impl Default for UvTexture {
    fn default() -> (r: Self)
        ensures
            r == UvTexture::cell(CELL_STONE as int),
    {
        UvTexture::from_n(CELL_STONE)
    }
}

/// What is drawn of one block: which of its faces, and with which atlas
/// texture. The `Double` variants name faces that would carry two textures;
/// nothing produces them and emitting them is not supported.
#[derive(Debug, Clone, Copy, PartialEq, Eq, Structural)]
pub enum BlockModel {
    Empty,
    NonCube,
    // one texture on one visible side
    Top(UvTexture),
    Bottom(UvTexture),
    Px(UvTexture),
    Nx(UvTexture),
    Pz(UvTexture),
    Nz(UvTexture),
    // one texture on two visible sides
    TopPx(UvTexture),
    TopNx(UvTexture),
    TopPz(UvTexture),
    TopNz(UvTexture),
    BottomPx(UvTexture),
    BottomNx(UvTexture),
    BottomPz(UvTexture),
    BottomNz(UvTexture),
    PxPz(UvTexture),
    PxNz(UvTexture),
    NxPz(UvTexture),
    NxNz(UvTexture),
    // two textures on two visible sides
    TopPxDouble(UvTexture, UvTexture),
    TopNxDouble(UvTexture, UvTexture),
    TopPzDouble(UvTexture, UvTexture),
    TopNzDouble(UvTexture, UvTexture),
    BottomPxDouble(UvTexture, UvTexture),
    BottomNxDouble(UvTexture, UvTexture),
    BottomPzDouble(UvTexture, UvTexture),
    BottomNzDouble(UvTexture, UvTexture),
    // one texture on three visible sides
    TopPxPz(UvTexture),
    TopPxNz(UvTexture),
    TopNxPz(UvTexture),
    TopNxNz(UvTexture),
    BottomPxPz(UvTexture),
    BottomPxNz(UvTexture),
    BottomNxPz(UvTexture),
    BottomNxNz(UvTexture),
    // two textures on three visible sides
    TopPxPzDouble(UvTexture, UvTexture),
    TopPxNzDouble(UvTexture, UvTexture),
    TopNxPzDouble(UvTexture, UvTexture),
    TopNxNzDouble(UvTexture, UvTexture),
    BottomPxPzDouble(UvTexture, UvTexture),
    BottomPxNzDouble(UvTexture, UvTexture),
    BottomNxPzDouble(UvTexture, UvTexture),
    BottomNxNzDouble(UvTexture, UvTexture),
}

impl BlockModel {
    /// The faces that the model draws.
    pub open spec fn faces(self) -> FaceSet {
        match self {
            BlockModel::Empty | BlockModel::NonCube => no_faces(),
            BlockModel::Top(_) => face_set(true, false, false, false, false, false),
            BlockModel::Bottom(_) => face_set(false, true, false, false, false, false),
            BlockModel::Px(_) => face_set(false, false, true, false, false, false),
            BlockModel::Nx(_) => face_set(false, false, false, true, false, false),
            BlockModel::Pz(_) => face_set(false, false, false, false, true, false),
            BlockModel::Nz(_) => face_set(false, false, false, false, false, true),
            BlockModel::TopPx(_) => face_set(true, false, true, false, false, false),
            BlockModel::TopNx(_) => face_set(true, false, false, true, false, false),
            BlockModel::TopPz(_) => face_set(true, false, false, false, true, false),
            BlockModel::TopNz(_) => face_set(true, false, false, false, false, true),
            BlockModel::BottomPx(_) => face_set(false, true, true, false, false, false),
            BlockModel::BottomNx(_) => face_set(false, true, false, true, false, false),
            BlockModel::BottomPz(_) => face_set(false, true, false, false, true, false),
            BlockModel::BottomNz(_) => face_set(false, true, false, false, false, true),
            BlockModel::PxPz(_) => face_set(false, false, true, false, true, false),
            BlockModel::PxNz(_) => face_set(false, false, true, false, false, true),
            BlockModel::NxPz(_) => face_set(false, false, false, true, true, false),
            BlockModel::NxNz(_) => face_set(false, false, false, true, false, true),
            BlockModel::TopPxPz(_) => face_set(true, false, true, false, true, false),
            BlockModel::TopPxNz(_) => face_set(true, false, true, false, false, true),
            BlockModel::TopNxPz(_) => face_set(true, false, false, true, true, false),
            BlockModel::TopNxNz(_) => face_set(true, false, false, true, false, true),
            BlockModel::BottomPxPz(_) => face_set(false, true, true, false, true, false),
            BlockModel::BottomPxNz(_) => face_set(false, true, true, false, false, true),
            BlockModel::BottomNxPz(_) => face_set(false, true, false, true, true, false),
            BlockModel::BottomNxNz(_) => face_set(false, true, false, true, false, true),
            BlockModel::TopPxDouble(_, _) => face_set(true, false, true, false, false, false),
            BlockModel::TopNxDouble(_, _) => face_set(true, false, false, true, false, false),
            BlockModel::TopPzDouble(_, _) => face_set(true, false, false, false, true, false),
            BlockModel::TopNzDouble(_, _) => face_set(true, false, false, false, false, true),
            BlockModel::BottomPxDouble(_, _) => face_set(false, true, true, false, false, false),
            BlockModel::BottomNxDouble(_, _) => face_set(false, true, false, true, false, false),
            BlockModel::BottomPzDouble(_, _) => face_set(false, true, false, false, true, false),
            BlockModel::BottomNzDouble(_, _) => face_set(false, true, false, false, false, true),
            BlockModel::TopPxPzDouble(_, _) => face_set(true, false, true, false, true, false),
            BlockModel::TopPxNzDouble(_, _) => face_set(true, false, true, false, false, true),
            BlockModel::TopNxPzDouble(_, _) => face_set(true, false, false, true, true, false),
            BlockModel::TopNxNzDouble(_, _) => face_set(true, false, false, true, false, true),
            BlockModel::BottomPxPzDouble(_, _) => face_set(false, true, true, false, true, false),
            BlockModel::BottomPxNzDouble(_, _) => face_set(false, true, true, false, false, true),
            BlockModel::BottomNxPzDouble(_, _) => face_set(false, true, false, true, true, false),
            BlockModel::BottomNxNzDouble(_, _) => face_set(false, true, false, true, false, true),
        }
    }

    /// The texture of a model with one texture.
    pub open spec fn texture(self) -> Option<UvTexture> {
        match self {
            BlockModel::Top(t) => Some(t),
            BlockModel::Bottom(t) => Some(t),
            BlockModel::Px(t) => Some(t),
            BlockModel::Nx(t) => Some(t),
            BlockModel::Pz(t) => Some(t),
            BlockModel::Nz(t) => Some(t),
            BlockModel::TopPx(t) => Some(t),
            BlockModel::TopNx(t) => Some(t),
            BlockModel::TopPz(t) => Some(t),
            BlockModel::TopNz(t) => Some(t),
            BlockModel::BottomPx(t) => Some(t),
            BlockModel::BottomNx(t) => Some(t),
            BlockModel::BottomPz(t) => Some(t),
            BlockModel::BottomNz(t) => Some(t),
            BlockModel::PxPz(t) => Some(t),
            BlockModel::PxNz(t) => Some(t),
            BlockModel::NxPz(t) => Some(t),
            BlockModel::NxNz(t) => Some(t),
            BlockModel::TopPxPz(t) => Some(t),
            BlockModel::TopPxNz(t) => Some(t),
            BlockModel::TopNxPz(t) => Some(t),
            BlockModel::TopNxNz(t) => Some(t),
            BlockModel::BottomPxPz(t) => Some(t),
            BlockModel::BottomPxNz(t) => Some(t),
            BlockModel::BottomNxPz(t) => Some(t),
            BlockModel::BottomNxNz(t) => Some(t),
            _ => None,
        }
    }

    /// A model with two textures, which cannot be emitted.
    pub open spec fn is_double(self) -> bool {
        match self {
            BlockModel::TopPxDouble(_, _) => true,
            BlockModel::TopNxDouble(_, _) => true,
            BlockModel::TopPzDouble(_, _) => true,
            BlockModel::TopNzDouble(_, _) => true,
            BlockModel::BottomPxDouble(_, _) => true,
            BlockModel::BottomNxDouble(_, _) => true,
            BlockModel::BottomPzDouble(_, _) => true,
            BlockModel::BottomNzDouble(_, _) => true,
            BlockModel::TopPxPzDouble(_, _) => true,
            BlockModel::TopPxNzDouble(_, _) => true,
            BlockModel::TopNxPzDouble(_, _) => true,
            BlockModel::TopNxNzDouble(_, _) => true,
            BlockModel::BottomPxPzDouble(_, _) => true,
            BlockModel::BottomPxNzDouble(_, _) => true,
            BlockModel::BottomNxPzDouble(_, _) => true,
            BlockModel::BottomNxNzDouble(_, _) => true,
            _ => false,
        }
    }

}

/// `m` draws exactly the faces `fs`, with the texture `t` where it draws any,
/// and is neither `NonCube` nor a two-texture model.
pub open spec fn shows(m: BlockModel, fs: FaceSet, t: UvTexture) -> bool {
    &&& !m.is_double()
    &&& !(m is NonCube)
    &&& m.faces() == fs
    &&& fs != no_faces() ==> m.texture() == Some(t)
}

/// At most one model draws a given set of faces with a given texture.
pub proof fn lemma_shows_unique(m1: BlockModel, m2: BlockModel, fs: FaceSet, t: UvTexture)
    requires
        shows(m1, fs, t),
        shows(m2, fs, t),
    ensures
        m1 == m2,
{
}

/// The textures of a block material, face by face.
#[derive(Debug, Clone, Copy, PartialEq, Eq, Structural)]
pub enum MyTexture {
    Transparent,
    AllSides(UvTexture),
    Grass { top: UvTexture, side: UvTexture, bottom: UvTexture },
}

impl MyTexture {
    pub open spec fn spec_top(self) -> Option<UvTexture> {
        match self {
            MyTexture::Transparent => None,
            MyTexture::AllSides(t) => Some(t),
            MyTexture::Grass { top, .. } => Some(top),
        }
    }

    pub open spec fn spec_bottom(self) -> Option<UvTexture> {
        match self {
            MyTexture::Transparent => None,
            MyTexture::AllSides(t) => Some(t),
            MyTexture::Grass { bottom, .. } => Some(bottom),
        }
    }

    /// The texture of the four lateral faces.
    pub open spec fn spec_side(self) -> Option<UvTexture> {
        match self {
            MyTexture::Transparent => None,
            MyTexture::AllSides(t) => Some(t),
            MyTexture::Grass { side, .. } => Some(side),
        }
    }

    pub fn top(&self) -> (r: Option<UvTexture>)
        ensures
            r == self.spec_top(),
    {
        match self {
            MyTexture::Transparent => None,
            MyTexture::AllSides(t) => Some(*t),
            MyTexture::Grass { top, .. } => Some(*top),
        }
    }

    pub fn bottom(&self) -> (r: Option<UvTexture>)
        ensures
            r == self.spec_bottom(),
    {
        match self {
            MyTexture::Transparent => None,
            MyTexture::AllSides(t) => Some(*t),
            MyTexture::Grass { bottom, .. } => Some(*bottom),
        }
    }

    pub fn px(&self) -> (r: Option<UvTexture>)
        ensures
            r == self.spec_side(),
    {
        match self {
            MyTexture::Transparent => None,
            MyTexture::AllSides(t) => Some(*t),
            MyTexture::Grass { side, .. } => Some(*side),
        }
    }

    pub fn pz(&self) -> (r: Option<UvTexture>)
        ensures
            r == self.spec_side(),
    {
        self.px()
    }

    pub fn nx(&self) -> (r: Option<UvTexture>)
        ensures
            r == self.spec_side(),
    {
        self.px()
    }

    pub fn nz(&self) -> (r: Option<UvTexture>)
        ensures
            r == self.spec_side(),
    {
        self.px()
    }
}

/// The textures of each block material.
pub open spec fn texture_of(bt: BlockType) -> MyTexture {
    match bt {
        BlockType::Air => MyTexture::Transparent,
        BlockType::Dirt => MyTexture::AllSides(UvTexture::cell(CELL_DIRT as int)),
        BlockType::Grass => MyTexture::Grass {
            top: UvTexture::cell(CELL_GRASS_TOP as int),
            side: UvTexture::cell(CELL_GRASS_SIDE as int),
            bottom: UvTexture::cell(CELL_DIRT as int),
        },
        BlockType::Stone => MyTexture::AllSides(UvTexture::cell(CELL_STONE as int)),
        BlockType::Sand => MyTexture::AllSides(UvTexture::cell(CELL_SAND as int)),
    }
}

/// The textures of a block. The neighbours do not change them yet.
pub fn my_texture(bs: &BlockState, _conn: &ConnectedBlocks) -> (r: MyTexture)
    ensures
        r == texture_of(bs.block_type),
{
    match bs.block_type {
        BlockType::Air => MyTexture::Transparent,
        BlockType::Dirt => MyTexture::AllSides(UvTexture::from_n(CELL_DIRT)),
        BlockType::Grass => MyTexture::Grass {
            top: UvTexture::from_n(CELL_GRASS_TOP),
            side: UvTexture::from_n(CELL_GRASS_SIDE),
            bottom: UvTexture::from_n(CELL_DIRT),
        },
        BlockType::Stone => MyTexture::AllSides(UvTexture::from_n(CELL_STONE)),
        BlockType::Sand => MyTexture::AllSides(UvTexture::from_n(CELL_SAND)),
    }
}

/// The six blocks next to one block.
pub struct ConnectedBlocks<'a> {
    pub top: &'a BlockState,
    pub bottom: &'a BlockState,
    pub px: &'a BlockState,
    pub nx: &'a BlockState,
    pub pz: &'a BlockState,
    pub nz: &'a BlockState,
}

impl<'a> ConnectedBlocks<'a> {
    pub fn new(
        top: &'a BlockState,
        bottom: &'a BlockState,
        px: &'a BlockState,
        nx: &'a BlockState,
        pz: &'a BlockState,
        nz: &'a BlockState,
    ) -> (r: Self)
        ensures
            *r.top == *top,
            *r.bottom == *bottom,
            *r.px == *px,
            *r.nx == *nx,
            *r.pz == *pz,
            *r.nz == *nz,
    {
        Self { top, bottom, px, nx, pz, nz }
    }
}

/// The layers of the six neighbouring chunks that touch a chunk: the
/// boundary lookups of a block at the edge of the chunk read them.
pub struct ConnectedChunks<'a> {
    pub top: &'a ChunkLayer,
    pub bottom: &'a ChunkLayer,
    pub px: &'a ChunkLayer,
    pub nx: &'a ChunkLayer,
    pub pz: &'a ChunkLayer,
    pub nz: &'a ChunkLayer,
}

impl<'a> ConnectedChunks<'a> {
    pub fn new(
        top: &'a ChunkLayer,
        bottom: &'a ChunkLayer,
        px: &'a ChunkLayer,
        nx: &'a ChunkLayer,
        pz: &'a ChunkLayer,
        nz: &'a ChunkLayer,
    ) -> (r: Self)
        ensures
            *r.top == *top,
            *r.bottom == *bottom,
            *r.px == *px,
            *r.nx == *nx,
            *r.pz == *pz,
            *r.nz == *nz,
    {
        Self { top, bottom, px, nx, pz, nz }
    }
}

/// Position of a chunk on the chunk grid.
#[derive(Debug, Clone, Copy, PartialEq, Eq, Structural)]
pub struct ChunkPos {
    pub x: isize,
    pub y: isize,
    pub z: isize,
}

/// The blocks of a chunk at grid coordinate `c`, and the far corners of
/// their faces, have coordinates that fit in an `isize`.
pub open spec fn chunk_coord_fits(c: int) -> bool {
    isize::MIN <= 16 * c && 16 * c + 16 <= isize::MAX
}

impl ChunkPos {
    pub open spec fn fits(self) -> bool {
        chunk_coord_fits(self.x as int) && chunk_coord_fits(self.y as int) && chunk_coord_fits(
            self.z as int,
        )
    }

    pub fn new(x: isize, y: isize, z: isize) -> (r: Self)
        ensures
            r.x == x,
            r.y == y,
            r.z == z,
    {
        Self { x, y, z }
    }

    /// The block position of the chunk's corner with the least coordinates.
    pub fn to_block_pos(self) -> (r: BlockPos)
        requires
            self.fits(),
        ensures
            r.x == 16 * self.x,
            r.y == 16 * self.y,
            r.z == 16 * self.z,
    {
        BlockPos { x: self.x * 16, y: self.y * 16, z: self.z * 16 }
    }
}

/// Position of a block, in block units.
#[derive(Debug, Clone, Copy, PartialEq, Eq, Structural)]
pub struct BlockPos {
    pub x: isize,
    pub y: isize,
    pub z: isize,
}

impl BlockPos {
    /// Componentwise sum.
    pub fn plus(self, rhs: BlockPos) -> (r: BlockPos)
        requires
            isize::MIN <= self.x + rhs.x <= isize::MAX,
            isize::MIN <= self.y + rhs.y <= isize::MAX,
            isize::MIN <= self.z + rhs.z <= isize::MAX,
        ensures
            r.x == self.x + rhs.x,
            r.y == self.y + rhs.y,
            r.z == self.z + rhs.z,
    {
        BlockPos { x: self.x + rhs.x, y: self.y + rhs.y, z: self.z + rhs.z }
    }
}

/// The models of one horizontal layer of a chunk, indexed by `(x, z)`.
#[derive(Debug, Clone, Copy, PartialEq, Eq)]
pub struct ModelLayer(pub [[BlockModel; CHUNK_SIZE_16]; CHUNK_SIZE_16]);

impl ModelLayer {
    pub open spec fn at(&self, x: int, z: int) -> BlockModel {
        self.0[x][z]
    }

    pub open spec fn spec_is_empty(&self) -> bool {
        forall|x: int, z: int| in_layer(x, z) ==> #[trigger] self.at(x, z) == BlockModel::Empty
    }

    /// A layer where nothing is drawn.
    pub fn empty() -> (r: Self)
        ensures
            r.spec_is_empty(),
    {
        let row = [BlockModel::Empty; CHUNK_SIZE_16];
        let r = ModelLayer([row; CHUNK_SIZE_16]);
        assert forall|x: int, z: int| in_layer(x, z) implies #[trigger] r.at(x, z)
            == BlockModel::Empty by {
            assert(r.0[x] == row);
        }
        r
    }

    pub fn get(&self, x: usize, z: usize) -> (r: &BlockModel)
        requires
            x < 16,
            z < 16,
        ensures
            *r == self.at(x as int, z as int),
    {
        &self.0[x][z]
    }

    pub fn get_mut(&mut self, x: usize, z: usize) -> (r: &mut BlockModel)
        requires
            x < 16,
            z < 16,
        ensures
            *r == old(self).at(x as int, z as int),
            forall|i: int, k: int|
                in_layer(i, k) ==> #[trigger] final(self).at(i, k) == (if i == x && k == z {
                    *final(r)
                } else {
                    old(self).at(i, k)
                }),
    {
        &mut self.0[x][z]
    }

    /// Whether every model of the layer is `Empty`.
    pub fn is_empty(&self) -> (r: bool)
        ensures
            r == self.spec_is_empty(),
    {
        let mut x: usize = 0;
        while x < CHUNK_SIZE_16
            invariant
                x <= 16,
                forall|i: int, k: int| 0 <= i < x && 0 <= k < 16 ==> #[trigger] self.at(i, k) == BlockModel::Empty,
            decreases 16 - x,
        {
            let mut z: usize = 0;
            while z < CHUNK_SIZE_16
                invariant
                    x < 16,
                    z <= 16,
                    forall|i: int, k: int| 0 <= i < x && 0 <= k < 16 ==> #[trigger] self.at(i, k) == BlockModel::Empty,
                    forall|k: int| 0 <= k < z ==> #[trigger] self.at(x as int, k) == BlockModel::Empty,
                decreases 16 - z,
            {
                if !matches!(self.get(x, z), BlockModel::Empty) {
                    return false;
                }
                z += 1;
            }
            x += 1;
        }
        true
    }
}

/// The models of every block of a chunk. Storage is made on the first
/// `set`: a model without it draws nothing.
#[derive(Debug, Clone, Copy, PartialEq, Eq)]
pub struct ChunkModel(Option<[ModelLayer; CHUNK_SIZE_16]>);

impl ChunkModel {
    /// The model of the block at `(x, y, z)`.
    pub closed spec fn model_at(&self, x: int, y: int, z: int) -> BlockModel {
        match self.0 {
            Some(layers) => layers[y].at(x, z),
            None => BlockModel::Empty,
        }
    }

    /// The model without storage.
    pub closed spec fn spec_empty() -> ChunkModel {
        ChunkModel(None)
    }

    /// No storage has been made.
    pub closed spec fn is_unallocated(&self) -> bool {
        self.0 is None
    }

    pub open spec fn spec_is_empty(&self) -> bool {
        forall|x: int, y: int, z: int| in_chunk(x, y, z) ==> #[trigger] self.model_at(x, y, z)
            == BlockModel::Empty
    }

    /// A model that draws nothing and holds no storage.
    pub fn empty() -> (r: ChunkModel)
        ensures
            r == ChunkModel::spec_empty(),
            r.is_unallocated(),
            r.spec_is_empty(),
    {
        ChunkModel(None)
    }

    pub fn get(&self, x: usize, y: usize, z: usize) -> (r: &BlockModel)
        requires
            x < 16,
            y < 16,
            z < 16,
        ensures
            *r == self.model_at(x as int, y as int, z as int),
    {
        match &self.0 {
            Some(layers) => layers[y].get(x, z),
            None => &BlockModel::Empty,
        }
    }

    pub fn set(&mut self, x: usize, y: usize, z: usize, model: BlockModel)
        requires
            x < 16,
            y < 16,
            z < 16,
        ensures
            !final(self).is_unallocated(),
            forall|i: int, j: int, k: int|
                in_chunk(i, j, k) ==> #[trigger] final(self).model_at(i, j, k) == (if i == x && j
                    == y && k == z {
                    model
                } else {
                    old(self).model_at(i, j, k)
                }),
    {
        let mut layers = match self.0 {
            Some(layers) => layers,
            None => {
                let empty = ModelLayer::empty();
                [empty; CHUNK_SIZE_16]
            },
        };
        let ghost start = layers;
        assert forall|i: int, j: int, k: int| in_chunk(i, j, k) implies #[trigger] start[j].at(i, k)
            == old(self).model_at(i, j, k) by {
            if self.0 is None {
                assert(start[j].spec_is_empty());
            }
        }
        let mut layer = layers[y];
        *layer.get_mut(x, z) = model;
        layers[y] = layer;
        self.0 = Some(layers);
        assert forall|i: int, j: int, k: int| in_chunk(i, j, k) implies #[trigger] self.model_at(i, j, k)
            == (if i == x && j == y && k == z {
            model
        } else {
            old(self).model_at(i, j, k)
        }) by {
            if j != y {
                assert(layers[j] == start[j]);
            }
        }
    }

    /// Whether every model of the chunk is `Empty`.
    pub fn is_empty(&self) -> (r: bool)
        ensures
            r == self.spec_is_empty(),
    {
        match &self.0 {
            Some(layers) => {
                let mut y: usize = 0;
                while y < CHUNK_SIZE_16
                    invariant
                        y <= 16,
                        self.0 == Some(*layers),
                        forall|j: int| 0 <= j < y ==> #[trigger] layers[j].spec_is_empty(),
                    decreases 16 - y,
                {
                    if !layers[y].is_empty() {
                        proof {
                            let j = y as int;
                            let (i, k) = choose|i: int, k: int|
                                in_layer(i, k) && !(#[trigger] layers[j].at(i, k) == BlockModel::Empty);
                            assert(self.model_at(i, j, k) != BlockModel::Empty);
                        }
                        return false;
                    }
                    y += 1;
                }
                assert forall|i: int, j: int, k: int| in_chunk(i, j, k) implies #[trigger] self.model_at(
                    i,
                    j,
                    k,
                ) == BlockModel::Empty by {
                    assert(layers[j].spec_is_empty());
                }
                true
            },
            None => true,
        }
    }
}

impl Default for ChunkModel {
    fn default() -> (r: Self)
        ensures
            r == ChunkModel::spec_empty(),
            r.is_unallocated(),
            r.spec_is_empty(),
    {
        ChunkModel::empty()
    }
}

impl BlockModel {
    /// Whether the model carries two textures, which cannot be emitted.
    pub fn is_double_texture(&self) -> (r: bool)
        ensures
            r == self.is_double(),
    {
        match self {
            BlockModel::TopPxDouble(..)
            | BlockModel::TopNxDouble(..)
            | BlockModel::TopPzDouble(..)
            | BlockModel::TopNzDouble(..)
            | BlockModel::BottomPxDouble(..)
            | BlockModel::BottomNxDouble(..)
            | BlockModel::BottomPzDouble(..)
            | BlockModel::BottomNzDouble(..)
            | BlockModel::TopPxPzDouble(..)
            | BlockModel::TopPxNzDouble(..)
            | BlockModel::TopNxPzDouble(..)
            | BlockModel::TopNxNzDouble(..)
            | BlockModel::BottomPxPzDouble(..)
            | BlockModel::BottomPxNzDouble(..)
            | BlockModel::BottomNxPzDouble(..)
            | BlockModel::BottomNxNzDouble(..) => true,
            _ => false,
        }
    }
}

/// A chunk model that draws the top face of every block of layer 3 with
/// texture `tex`, and nothing else.
pub fn make_model(tex: UvTexture) -> (r: ChunkModel)
    ensures
        forall|x: int, y: int, z: int| in_chunk(x, y, z) ==> #[trigger] r.model_at(x, y, z) == (if y == 3 {
            BlockModel::Top(tex)
        } else {
            BlockModel::Empty
        }),
{
    let mut model = ChunkModel::empty();
    let mut x: usize = 0;
    while x < CHUNK_SIZE_16
        invariant
            x <= 16,
            forall|i: int, j: int, k: int| in_chunk(i, j, k) ==> #[trigger] model.model_at(i, j, k) == (if j == 3 && i < x {
                BlockModel::Top(tex)
            } else {
                BlockModel::Empty
            }),
        decreases 16 - x,
    {
        let mut z: usize = 0;
        while z < CHUNK_SIZE_16
            invariant
                x < 16,
                z <= 16,
                forall|i: int, j: int, k: int| in_chunk(i, j, k) ==> #[trigger] model.model_at(i, j, k) == (if j == 3 && (i < x || (i == x && k < z)) {
                    BlockModel::Top(tex)
                } else {
                    BlockModel::Empty
                }),
            decreases 16 - z,
        {
            model.set(x, 3, z, BlockModel::Top(tex));
            z += 1;
        }
        x += 1;
    }
    model
}

/// The five characters that stand for a model in a text picture of a chunk:
/// `+` and `-` mark faces on the positive and negative sides; square
/// brackets enclose one texture, round brackets two.
pub open spec fn glyph_of(m: BlockModel) -> Seq<char> {
    match m {
        BlockModel::Empty => seq!['[', ' ', ' ', ' ', ']'],
        BlockModel::NonCube => seq!['[', ' ', ' ', ' ', ']'],
        BlockModel::Top(..) => seq!['[', '+', ' ', ' ', ']'],
        BlockModel::Bottom(..) => seq!['[', '-', ' ', ' ', ']'],
        BlockModel::Px(..) => seq!['[', ' ', '+', ' ', ']'],
        BlockModel::Nx(..) => seq!['[', ' ', '-', ' ', ']'],
        BlockModel::Pz(..) => seq!['[', ' ', ' ', '+', ']'],
        BlockModel::Nz(..) => seq!['[', ' ', ' ', '-', ']'],
        BlockModel::TopPx(..) => seq!['[', '+', '+', ' ', ']'],
        BlockModel::TopNx(..) => seq!['[', '+', '-', ' ', ']'],
        BlockModel::TopPz(..) => seq!['[', '+', ' ', '+', ']'],
        BlockModel::TopNz(..) => seq!['[', '+', ' ', '-', ']'],
        BlockModel::PxPz(..) => seq!['[', '+', ' ', '+', ']'],
        BlockModel::PxNz(..) => seq!['[', '+', ' ', '-', ']'],
        BlockModel::NxPz(..) => seq!['[', '-', ' ', '+', ']'],
        BlockModel::NxNz(..) => seq!['[', '-', ' ', '-', ']'],
        BlockModel::BottomPx(..) => seq!['[', '-', '+', ' ', ']'],
        BlockModel::BottomNx(..) => seq!['[', '-', '-', ' ', ']'],
        BlockModel::BottomPz(..) => seq!['[', '-', ' ', '+', ']'],
        BlockModel::BottomNz(..) => seq!['[', '-', ' ', '-', ']'],
        BlockModel::TopPxDouble(..) => seq!['(', '+', '+', ' ', ')'],
        BlockModel::TopNxDouble(..) => seq!['(', '+', '-', ' ', ')'],
        BlockModel::TopPzDouble(..) => seq!['(', '+', ' ', '+', ')'],
        BlockModel::TopNzDouble(..) => seq!['(', '+', ' ', '-', ')'],
        BlockModel::BottomPxDouble(..) => seq!['(', '-', '+', ' ', ')'],
        BlockModel::BottomNxDouble(..) => seq!['(', '-', '-', ' ', ')'],
        BlockModel::BottomPzDouble(..) => seq!['(', '-', ' ', '+', ')'],
        BlockModel::BottomNzDouble(..) => seq!['(', '-', ' ', '-', ')'],
        BlockModel::TopPxPz(..) => seq!['[', '+', '+', '+', ']'],
        BlockModel::TopPxNz(..) => seq!['[', '+', '+', '-', ']'],
        BlockModel::TopNxPz(..) => seq!['[', '+', '-', '+', ']'],
        BlockModel::TopNxNz(..) => seq!['[', '+', '-', '-', ']'],
        BlockModel::BottomPxPz(..) => seq!['[', '-', '+', '+', ']'],
        BlockModel::BottomPxNz(..) => seq!['[', '-', '+', '-', ']'],
        BlockModel::BottomNxPz(..) => seq!['[', '-', '-', '+', ']'],
        BlockModel::BottomNxNz(..) => seq!['[', '-', '-', '-', ']'],
        BlockModel::TopPxPzDouble(..) => seq!['(', '+', '+', '+', ')'],
        BlockModel::TopPxNzDouble(..) => seq!['(', '+', '+', '-', ')'],
        BlockModel::TopNxPzDouble(..) => seq!['(', '+', '-', '+', ')'],
        BlockModel::TopNxNzDouble(..) => seq!['(', '+', '-', '-', ')'],
        BlockModel::BottomPxPzDouble(..) => seq!['(', '-', '+', '+', ')'],
        BlockModel::BottomPxNzDouble(..) => seq!['(', '-', '+', '-', ')'],
        BlockModel::BottomNxPzDouble(..) => seq!['(', '-', '-', '+', ')'],
        BlockModel::BottomNxNzDouble(..) => seq!['(', '-', '-', '-', ')'],
    }
}

impl BlockModel {
    pub fn glyph(&self) -> (r: [char; 5])
        ensures
            r@ == glyph_of(*self),
    {
        let r = match self {
            BlockModel::Empty => ['[', ' ', ' ', ' ', ']'],
            BlockModel::NonCube => ['[', ' ', ' ', ' ', ']'],
            BlockModel::Top(..) => ['[', '+', ' ', ' ', ']'],
            BlockModel::Bottom(..) => ['[', '-', ' ', ' ', ']'],
            BlockModel::Px(..) => ['[', ' ', '+', ' ', ']'],
            BlockModel::Nx(..) => ['[', ' ', '-', ' ', ']'],
            BlockModel::Pz(..) => ['[', ' ', ' ', '+', ']'],
            BlockModel::Nz(..) => ['[', ' ', ' ', '-', ']'],
            BlockModel::TopPx(..) => ['[', '+', '+', ' ', ']'],
            BlockModel::TopNx(..) => ['[', '+', '-', ' ', ']'],
            BlockModel::TopPz(..) => ['[', '+', ' ', '+', ']'],
            BlockModel::TopNz(..) => ['[', '+', ' ', '-', ']'],
            BlockModel::PxPz(..) => ['[', '+', ' ', '+', ']'],
            BlockModel::PxNz(..) => ['[', '+', ' ', '-', ']'],
            BlockModel::NxPz(..) => ['[', '-', ' ', '+', ']'],
            BlockModel::NxNz(..) => ['[', '-', ' ', '-', ']'],
            BlockModel::BottomPx(..) => ['[', '-', '+', ' ', ']'],
            BlockModel::BottomNx(..) => ['[', '-', '-', ' ', ']'],
            BlockModel::BottomPz(..) => ['[', '-', ' ', '+', ']'],
            BlockModel::BottomNz(..) => ['[', '-', ' ', '-', ']'],
            BlockModel::TopPxDouble(..) => ['(', '+', '+', ' ', ')'],
            BlockModel::TopNxDouble(..) => ['(', '+', '-', ' ', ')'],
            BlockModel::TopPzDouble(..) => ['(', '+', ' ', '+', ')'],
            BlockModel::TopNzDouble(..) => ['(', '+', ' ', '-', ')'],
            BlockModel::BottomPxDouble(..) => ['(', '-', '+', ' ', ')'],
            BlockModel::BottomNxDouble(..) => ['(', '-', '-', ' ', ')'],
            BlockModel::BottomPzDouble(..) => ['(', '-', ' ', '+', ')'],
            BlockModel::BottomNzDouble(..) => ['(', '-', ' ', '-', ')'],
            BlockModel::TopPxPz(..) => ['[', '+', '+', '+', ']'],
            BlockModel::TopPxNz(..) => ['[', '+', '+', '-', ']'],
            BlockModel::TopNxPz(..) => ['[', '+', '-', '+', ']'],
            BlockModel::TopNxNz(..) => ['[', '+', '-', '-', ']'],
            BlockModel::BottomPxPz(..) => ['[', '-', '+', '+', ']'],
            BlockModel::BottomPxNz(..) => ['[', '-', '+', '-', ']'],
            BlockModel::BottomNxPz(..) => ['[', '-', '-', '+', ']'],
            BlockModel::BottomNxNz(..) => ['[', '-', '-', '-', ']'],
            BlockModel::TopPxPzDouble(..) => ['(', '+', '+', '+', ')'],
            BlockModel::TopPxNzDouble(..) => ['(', '+', '+', '-', ')'],
            BlockModel::TopNxPzDouble(..) => ['(', '+', '-', '+', ')'],
            BlockModel::TopNxNzDouble(..) => ['(', '+', '-', '-', ')'],
            BlockModel::BottomPxPzDouble(..) => ['(', '-', '+', '+', ')'],
            BlockModel::BottomPxNzDouble(..) => ['(', '-', '+', '-', ')'],
            BlockModel::BottomNxPzDouble(..) => ['(', '-', '-', '+', ')'],
            BlockModel::BottomNxNzDouble(..) => ['(', '-', '-', '-', ')'],
        };
        assert(r@ =~= glyph_of(*self));
        r
    }
}

/// The glyphs of the first `n` blocks of row `x` of layer `y`.
pub open spec fn row_text(model: ChunkModel, y: int, x: int, n: int) -> Seq<char>
    decreases n,
{
    if n <= 0 {
        Seq::empty()
    } else {
        row_text(model, y, x, n - 1) + glyph_of(model.model_at(x, y, n - 1))
    }
}

/// The first `n` rows of layer `y`, each ended by a line break.
pub open spec fn layer_text(model: ChunkModel, y: int, n: int) -> Seq<char>
    decreases n,
{
    if n <= 0 {
        Seq::empty()
    } else {
        layer_text(model, y, n - 1) + row_text(model, y, n - 1, 16) + seq!['\n']
    }
}

/// The top `n` layers, from the highest down, each followed by two line
/// breaks.
pub open spec fn chunk_text(model: ChunkModel, n: int) -> Seq<char>
    decreases n,
{
    if n <= 0 {
        Seq::empty()
    } else {
        chunk_text(model, n - 1) + layer_text(model, 16 - n, 16) + seq!['\n', '\n']
    }
}

impl ChunkModel {
    /// A text picture of the model: its layers from the highest down, one
    /// line per row.
    pub fn to_text(&self) -> (r: Vec<char>)
        ensures
            r@ == chunk_text(*self, 16),
    {
        let mut out: Vec<char> = Vec::new();
        let mut n: usize = 0;
        while n < CHUNK_SIZE_16
            invariant
                n <= 16,
                out@ == chunk_text(*self, n as int),
            decreases 16 - n,
        {
            let y = CHUNK_SIZE_16 - 1 - n;
            let ghost layer_start = out@;
            let mut x: usize = 0;
            while x < CHUNK_SIZE_16
                invariant
                    n < 16,
                    y == 15 - n,
                    x <= 16,
                    out@ == layer_start + layer_text(*self, y as int, x as int),
                decreases 16 - x,
            {
                let ghost row_start = out@;
                let mut z: usize = 0;
                while z < CHUNK_SIZE_16
                    invariant
                        y < 16,
                        x < 16,
                        z <= 16,
                        out@ == row_start + row_text(*self, y as int, x as int, z as int),
                    decreases 16 - z,
                {
                    let g = self.get(x, y, z).glyph();
                    let ghost before = out@;
                    let mut k: usize = 0;
                    while k < 5
                        invariant
                            k <= 5,
                            out@ == before + g@.take(k as int),
                        decreases 5 - k,
                    {
                        out.push(g[k]);
                        assert(g@.take(k + 1) =~= g@.take(k as int).push(g@[k as int]));
                        k += 1;
                    }
                    assert(g@.take(5) =~= g@);
                    assert(out@ =~= row_start + row_text(*self, y as int, x as int, z + 1));
                    z += 1;
                }
                out.push('\n');
                assert(out@ =~= layer_start + layer_text(*self, y as int, x + 1));
                x += 1;
            }
            out.push('\n');
            out.push('\n');
            assert(out@ =~= chunk_text(*self, n + 1));
            n += 1;
        }
        out
    }
}

} // verus!
