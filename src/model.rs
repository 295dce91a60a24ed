use vstd::prelude::*;

use crate::render::{
    face_set, my_texture, no_faces, shows, texture_of, BlockModel, BlockPos, ChunkModel,
    ChunkPos, ConnectedBlocks, ConnectedChunks, Face, FaceSet, MyTexture, UvTexture, CELL_GRASS_SIDE,
    CELL_GRASS_TOP, CELL_STONE,
};
use crate::world::{in_chunk, BlockState, BlockType, Chunk, ChunkLayer, CHUNK_SIZE_16};

verus! {

/// Where the camera stands relative to the block grid: on each axis, the
/// greatest integer strictly less than the camera's coordinate. The camera
/// is on the positive side of a block at coordinate `b` on an axis exactly
/// when `b` is at most this integer.
#[derive(Debug, Clone, Copy, PartialEq, Eq, Structural)]
pub struct ViewPoint {
    pub x: isize,
    pub y: isize,
    pub z: isize,
}

/// The three faces of a block that can face the camera: one of top and
/// bottom, one of +x and -x, one of +z and -z.
#[derive(Debug, Clone, Copy, PartialEq, Eq, Structural)]
pub enum ThreeSides {
    TopPxPz,
    TopPxNz,
    TopNxPz,
    TopNxNz,
    BottomPxPz,
    BottomPxNz,
    BottomNxPz,
    BottomNxNz,
}

impl ThreeSides {
    pub open spec fn spec_top_visible(self) -> bool {
        self is TopPxPz || self is TopPxNz || self is TopNxPz || self is TopNxNz
    }

    pub open spec fn spec_px_visible(self) -> bool {
        self is TopPxPz || self is TopPxNz || self is BottomPxPz || self is BottomPxNz
    }

    pub open spec fn spec_pz_visible(self) -> bool {
        self is TopPxPz || self is TopNxPz || self is BottomPxPz || self is BottomNxPz
    }

    /// The octant whose top, +x and +z faces are the visible ones exactly
    /// where `player_above`, `player_px` and `player_pz` hold.
    pub open spec fn spec_from_logic(player_above: bool, player_px: bool, player_pz: bool) -> ThreeSides {
        if player_above {
            if player_px {
                if player_pz { ThreeSides::TopPxPz } else { ThreeSides::TopPxNz }
            } else {
                if player_pz { ThreeSides::TopNxPz } else { ThreeSides::TopNxNz }
            }
        } else {
            if player_px {
                if player_pz { ThreeSides::BottomPxPz } else { ThreeSides::BottomPxNz }
            } else {
                if player_pz { ThreeSides::BottomNxPz } else { ThreeSides::BottomNxNz }
            }
        }
    }

    pub fn from_logic(player_above: bool, player_px: bool, player_pz: bool) -> (r: Self)
        ensures
            r == ThreeSides::spec_from_logic(player_above, player_px, player_pz),
            r.spec_top_visible() == player_above,
            r.spec_px_visible() == player_px,
            r.spec_pz_visible() == player_pz,
    {
        match (player_above, player_px, player_pz) {
            (true, true, true) => ThreeSides::TopPxPz,
            (true, false, true) => ThreeSides::TopNxPz,
            (true, true, false) => ThreeSides::TopPxNz,
            (true, false, false) => ThreeSides::TopNxNz,
            (false, true, true) => ThreeSides::BottomPxPz,
            (false, false, true) => ThreeSides::BottomNxPz,
            (false, true, false) => ThreeSides::BottomPxNz,
            (false, false, false) => ThreeSides::BottomNxNz,
        }
    }

    pub fn top_visible(&self) -> (r: bool)
        ensures
            r == self.spec_top_visible(),
    {
        match self {
            ThreeSides::TopPxPz | ThreeSides::TopPxNz | ThreeSides::TopNxPz | ThreeSides::TopNxNz => true,
            _ => false,
        }
    }

    pub fn bottom_visible(&self) -> (r: bool)
        ensures
            r == !self.spec_top_visible(),
    {
        !self.top_visible()
    }

    pub fn px_visible(&self) -> (r: bool)
        ensures
            r == self.spec_px_visible(),
    {
        match self {
            ThreeSides::TopPxPz | ThreeSides::TopPxNz | ThreeSides::BottomPxPz
            | ThreeSides::BottomPxNz => true,
            _ => false,
        }
    }

    pub fn nx_visible(&self) -> (r: bool)
        ensures
            r == !self.spec_px_visible(),
    {
        !self.px_visible()
    }

    pub fn pz_visible(&self) -> (r: bool)
        ensures
            r == self.spec_pz_visible(),
    {
        match self {
            ThreeSides::TopNxPz | ThreeSides::TopPxPz | ThreeSides::BottomPxPz
            | ThreeSides::BottomNxPz => true,
            _ => false,
        }
    }

    pub fn is_nz_visible(&self) -> (r: bool)
        ensures
            r == !self.spec_pz_visible(),
    {
        !self.pz_visible()
    }
}

/// The octant of faces that a block at `(bx, by, bz)` shows to the camera.
pub open spec fn octant_of(bx: int, by: int, bz: int, view: ViewPoint) -> ThreeSides {
    ThreeSides::spec_from_logic(by <= view.y, bx <= view.x, bz <= view.z)
}

pub fn which_3_sides_of_block_are_visible(block_pos: BlockPos, view: ViewPoint) -> (r: ThreeSides)
    ensures
        r == octant_of(block_pos.x as int, block_pos.y as int, block_pos.z as int, view),
{
    let (player_above, player_px, player_pz) = (
        block_pos.y <= view.y,
        block_pos.x <= view.x,
        block_pos.z <= view.z,
    );
    ThreeSides::from_logic(player_above, player_px, player_pz)
}

/// Which neighbours of a block are air.
pub struct Openings {
    pub top: bool,
    pub bottom: bool,
    pub px: bool,
    pub nx: bool,
    pub pz: bool,
    pub nz: bool,
}

pub open spec fn openings_of(conn: ConnectedBlocks) -> Openings {
    Openings {
        top: conn.top.spec_is_empty(),
        bottom: conn.bottom.spec_is_empty(),
        px: conn.px.spec_is_empty(),
        nx: conn.nx.spec_is_empty(),
        pz: conn.pz.spec_is_empty(),
        nz: conn.nz.spec_is_empty(),
    }
}

/// The faces of a block that are drawn: those that can face the camera and
/// whose neighbour is air. An air block draws none.
pub open spec fn visible_faces(bs: BlockState, openings: Openings, sides: ThreeSides) -> FaceSet {
    if bs.spec_is_empty() {
        no_faces()
    } else {
        face_set(
            sides.spec_top_visible() && openings.top,
            !sides.spec_top_visible() && openings.bottom,
            sides.spec_px_visible() && openings.px,
            !sides.spec_px_visible() && openings.nx,
            sides.spec_pz_visible() && openings.pz,
            !sides.spec_pz_visible() && openings.nz,
        )
    }
}

/// The texture that a block's model carries: that of its lateral faces.
pub open spec fn model_texture(bt: BlockType) -> UvTexture {
    texture_of(bt).spec_side().unwrap()
}

/// The model that draws `fs` with texture `t`.
pub open spec fn model_showing(fs: FaceSet, t: UvTexture) -> BlockModel {
    choose|m: BlockModel| shows(m, fs, t)
}

/// The model of a block, given which neighbours are air and the octant that
/// faces the camera.
pub open spec fn block_model_spec(bs: BlockState, openings: Openings, sides: ThreeSides) -> BlockModel {
    model_showing(visible_faces(bs, openings, sides), model_texture(bs.block_type))
}

/// Classifies one block: keeps those of the three faces turned to the camera
/// whose neighbour is air, with the block's lateral texture.
pub fn classify_block(block_state: &BlockState, conn: &ConnectedBlocks, sides: ThreeSides) -> (r: BlockModel)
    ensures
        shows(r, visible_faces(*block_state, openings_of(*conn), sides), model_texture(block_state.block_type)),
        r == block_model_spec(*block_state, openings_of(*conn), sides),
{
    if block_state.is_empty() {
        let r = BlockModel::Empty;
        assert(shows(r, no_faces(), model_texture(block_state.block_type)));
        return r;
    }
    let textures = my_texture(block_state, conn);
    let texture = textures.px().unwrap();
    let block_model = match sides {
        ThreeSides::TopPxPz => {
            match (conn.top.is_empty(), conn.px.is_empty(), conn.pz.is_empty()) {
                (true, true, true) => BlockModel::TopPxPz(texture),
                (true, false, true) => BlockModel::TopPz(texture),
                (true, true, false) => BlockModel::TopPx(texture),
                (false, true, true) => BlockModel::PxPz(texture),
                (true, false, false) => BlockModel::Top(texture),
                (false, true, false) => BlockModel::Px(texture),
                (false, false, true) => BlockModel::Pz(texture),
                (false, false, false) => BlockModel::Empty,
            }
        },
        ThreeSides::TopPxNz => {
            match (conn.top.is_empty(), conn.px.is_empty(), conn.nz.is_empty()) {
                (true, true, true) => BlockModel::TopPxNz(texture),
                (true, false, true) => BlockModel::TopNz(texture),
                (true, true, false) => BlockModel::TopPx(texture),
                (false, true, true) => BlockModel::PxNz(texture),
                (true, false, false) => BlockModel::Top(texture),
                (false, true, false) => BlockModel::Px(texture),
                (false, false, true) => BlockModel::Nz(texture),
                (false, false, false) => BlockModel::Empty,
            }
        },
        ThreeSides::TopNxPz => {
            match (conn.top.is_empty(), conn.nx.is_empty(), conn.pz.is_empty()) {
                (true, true, true) => BlockModel::TopNxPz(texture),
                (true, false, true) => BlockModel::TopPz(texture),
                (true, true, false) => BlockModel::TopNx(texture),
                (false, true, true) => BlockModel::NxPz(texture),
                (true, false, false) => BlockModel::Top(texture),
                (false, true, false) => BlockModel::Nx(texture),
                (false, false, true) => BlockModel::Pz(texture),
                (false, false, false) => BlockModel::Empty,
            }
        },
        ThreeSides::TopNxNz => {
            match (conn.top.is_empty(), conn.nx.is_empty(), conn.nz.is_empty()) {
                (true, true, true) => BlockModel::TopNxNz(texture),
                (true, false, true) => BlockModel::TopNz(texture),
                (true, true, false) => BlockModel::TopNx(texture),
                (false, true, true) => BlockModel::NxNz(texture),
                (true, false, false) => BlockModel::Top(texture),
                (false, true, false) => BlockModel::Nx(texture),
                (false, false, true) => BlockModel::Nz(texture),
                (false, false, false) => BlockModel::Empty,
            }
        },
        ThreeSides::BottomPxPz => {
            match (conn.bottom.is_empty(), conn.px.is_empty(), conn.pz.is_empty()) {
                (true, true, true) => BlockModel::BottomPxPz(texture),
                (true, false, true) => BlockModel::BottomPz(texture),
                (true, true, false) => BlockModel::BottomPx(texture),
                (false, true, true) => BlockModel::PxPz(texture),
                (true, false, false) => BlockModel::Bottom(texture),
                (false, true, false) => BlockModel::Px(texture),
                (false, false, true) => BlockModel::Pz(texture),
                (false, false, false) => BlockModel::Empty,
            }
        },
        ThreeSides::BottomPxNz => {
            match (conn.bottom.is_empty(), conn.px.is_empty(), conn.nz.is_empty()) {
                (true, true, true) => BlockModel::BottomPxNz(texture),
                (true, false, true) => BlockModel::BottomNz(texture),
                (true, true, false) => BlockModel::BottomPx(texture),
                (false, true, true) => BlockModel::PxNz(texture),
                (true, false, false) => BlockModel::Bottom(texture),
                (false, true, false) => BlockModel::Px(texture),
                (false, false, true) => BlockModel::Nz(texture),
                (false, false, false) => BlockModel::Empty,
            }
        },
        ThreeSides::BottomNxPz => {
            match (conn.bottom.is_empty(), conn.nx.is_empty(), conn.pz.is_empty()) {
                (true, true, true) => BlockModel::BottomNxPz(texture),
                (true, false, true) => BlockModel::BottomPz(texture),
                (true, true, false) => BlockModel::BottomNx(texture),
                (false, true, true) => BlockModel::NxPz(texture),
                (true, false, false) => BlockModel::Bottom(texture),
                (false, true, false) => BlockModel::Nx(texture),
                (false, false, true) => BlockModel::Pz(texture),
                (false, false, false) => BlockModel::Empty,
            }
        },
        ThreeSides::BottomNxNz => {
            match (conn.bottom.is_empty(), conn.nx.is_empty(), conn.nz.is_empty()) {
                (true, true, true) => BlockModel::BottomNxNz(texture),
                (true, false, true) => BlockModel::BottomNz(texture),
                (true, true, false) => BlockModel::BottomNx(texture),
                (false, true, true) => BlockModel::NxNz(texture),
                (true, false, false) => BlockModel::Bottom(texture),
                (false, true, false) => BlockModel::Nx(texture),
                (false, false, true) => BlockModel::Nz(texture),
                (false, false, false) => BlockModel::Empty,
            }
        },
    };
    proof {
        let fs = visible_faces(*block_state, openings_of(*conn), sides);
        let t = model_texture(block_state.block_type);
        assert(shows(block_model, fs, t));
        let m = model_showing(fs, t);
        assert(shows(m, fs, t));
        crate::render::lemma_shows_unique(m, block_model, fs, t);
    }
    block_model
}

/// A model that draws no face is `Empty`.
pub proof fn lemma_no_faces_is_empty(t: UvTexture)
    ensures
        model_showing(no_faces(), t) == BlockModel::Empty,
{
    let m = model_showing(no_faces(), t);
    assert(shows(BlockModel::Empty, no_faces(), t));
    crate::render::lemma_shows_unique(m, BlockModel::Empty, no_faces(), t);
}

/// The block next to `(x, y, z)` across face `f`. At the edge of the chunk
/// it is read from the touching layer of the neighbouring chunk, at the same
/// `(x, z)`.
pub open spec fn neighbour(chunk: Chunk, conn: ConnectedChunks, x: int, y: int, z: int, f: Face) -> BlockState {
    match f {
        Face::Top => if y == 15 { conn.top.at(x, z) } else { chunk.block(x, y + 1, z) },
        Face::Bottom => if y == 0 { conn.bottom.at(x, z) } else { chunk.block(x, y - 1, z) },
        Face::Px => if x == 15 { conn.px.at(x, z) } else { chunk.block(x + 1, y, z) },
        Face::Nx => if x == 0 { conn.nx.at(x, z) } else { chunk.block(x - 1, y, z) },
        Face::Pz => if z == 15 { conn.pz.at(x, z) } else { chunk.block(x, y, z + 1) },
        Face::Nz => if z == 0 { conn.nz.at(x, z) } else { chunk.block(x, y, z - 1) },
    }
}

/// Which neighbours of the block at `(x, y, z)` are air.
pub open spec fn neighbour_openings(chunk: Chunk, conn: ConnectedChunks, x: int, y: int, z: int) -> Openings {
    Openings {
        top: neighbour(chunk, conn, x, y, z, Face::Top).spec_is_empty(),
        bottom: neighbour(chunk, conn, x, y, z, Face::Bottom).spec_is_empty(),
        px: neighbour(chunk, conn, x, y, z, Face::Px).spec_is_empty(),
        nx: neighbour(chunk, conn, x, y, z, Face::Nx).spec_is_empty(),
        pz: neighbour(chunk, conn, x, y, z, Face::Pz).spec_is_empty(),
        nz: neighbour(chunk, conn, x, y, z, Face::Nz).spec_is_empty(),
    }
}

/// The model of the block at `(x, y, z)` of the chunk at `chunk_pos`, seen
/// from `view`.
pub open spec fn expected_model(
    view: ViewPoint,
    chunk_pos: ChunkPos,
    chunk: Chunk,
    conn: ConnectedChunks,
    x: int,
    y: int,
    z: int,
) -> BlockModel {
    block_model_spec(
        chunk.block(x, y, z),
        neighbour_openings(chunk, conn, x, y, z),
        octant_of(16 * chunk_pos.x + x, 16 * chunk_pos.y + y, 16 * chunk_pos.z + z, view),
    )
}

/// A chunk together with the touching layers of its six neighbours.
struct ChunkPlusConnected<'a> {
    chunk: &'a Chunk,
    top: &'a ChunkLayer,
    bottom: &'a ChunkLayer,
    px: &'a ChunkLayer,
    nx: &'a ChunkLayer,
    pz: &'a ChunkLayer,
    nz: &'a ChunkLayer,
}

impl<'a> ChunkPlusConnected<'a> {
    spec fn conn(&self) -> ConnectedChunks<'a> {
        ConnectedChunks {
            top: self.top,
            bottom: self.bottom,
            px: self.px,
            nx: self.nx,
            pz: self.pz,
            nz: self.nz,
        }
    }

    /// The six neighbours of the block at `(x, y, z)`.
    fn connected_blocks(&self, x: usize, y: usize, z: usize) -> (r: ConnectedBlocks<'a>)
        requires
            x < 16,
            y < 16,
            z < 16,
        ensures
            *r.top == neighbour(*self.chunk, self.conn(), x as int, y as int, z as int, Face::Top),
            *r.bottom == neighbour(*self.chunk, self.conn(), x as int, y as int, z as int, Face::Bottom),
            *r.px == neighbour(*self.chunk, self.conn(), x as int, y as int, z as int, Face::Px),
            *r.nx == neighbour(*self.chunk, self.conn(), x as int, y as int, z as int, Face::Nx),
            *r.pz == neighbour(*self.chunk, self.conn(), x as int, y as int, z as int, Face::Pz),
            *r.nz == neighbour(*self.chunk, self.conn(), x as int, y as int, z as int, Face::Nz),
            x == 15 ==> *r.px == self.px.at(15, z as int),
            x < 15 ==> *r.px == self.chunk.block(x + 1, y as int, z as int),
            x == 0 ==> *r.nx == self.nx.at(0, z as int),
            x > 0 ==> *r.nx == self.chunk.block(x - 1, y as int, z as int),
            y == 15 ==> *r.top == self.top.at(x as int, z as int),
            y < 15 ==> *r.top == self.chunk.block(x as int, y + 1, z as int),
            y == 0 ==> *r.bottom == self.bottom.at(x as int, z as int),
            y > 0 ==> *r.bottom == self.chunk.block(x as int, y - 1, z as int),
            z == 15 ==> *r.pz == self.pz.at(x as int, 15),
            z < 15 ==> *r.pz == self.chunk.block(x as int, y as int, z + 1),
            z == 0 ==> *r.nz == self.nz.at(x as int, 0),
            z > 0 ==> *r.nz == self.chunk.block(x as int, y as int, z - 1),
    {
        let top = if y == 15 { self.top.get(x, z) } else { self.chunk.get(x, y + 1, z) };
        let bottom = if y == 0 { self.bottom.get(x, z) } else { self.chunk.get(x, y - 1, z) };
        let px = if x == 15 { self.px.get(x, z) } else { self.chunk.get(x + 1, y, z) };
        let nx = if x == 0 { self.nx.get(x, z) } else { self.chunk.get(x - 1, y, z) };
        let pz = if z == 15 { self.pz.get(x, z) } else { self.chunk.get(x, y, z + 1) };
        let nz = if z == 0 { self.nz.get(x, z) } else { self.chunk.get(x, y, z - 1) };
        ConnectedBlocks::new(top, bottom, px, nx, pz, nz)
    }
}

/// Block `(i, j, k)` comes before block `(x, y, z)` when a chunk is walked
/// by `y`, then `x`, then `z`.
pub open spec fn walked_before(x: int, y: int, z: int, i: int, j: int, k: int) -> bool {
    j < y || (j == y && (i < x || (i == x && k < z)))
}

/// Builds the model of one chunk as seen from `view`.
///
/// `out_of_view` tells that the chunk's centre lies more than 65 degrees off
/// the camera's forward direction and more than two chunk lengths away; the
/// caller measures this on the camera's floating-point state. Such a chunk
/// gets the empty model and none of its blocks is read.
pub fn build_chunk_model(
    view: ViewPoint,
    out_of_view: bool,
    chunk_pos: ChunkPos,
    chunk: &Chunk,
    conn: &ConnectedChunks,
) -> (r: ChunkModel)
    requires
        chunk_pos.fits(),
    ensures
        out_of_view ==> r == ChunkModel::spec_empty() && r.is_unallocated() && r.spec_is_empty(),
        !out_of_view ==> forall|x: int, y: int, z: int|
            in_chunk(x, y, z) ==> #[trigger] r.model_at(x, y, z) == expected_model(
                view,
                chunk_pos,
                *chunk,
                *conn,
                x,
                y,
                z,
            ),
{
    if out_of_view {
        return ChunkModel::empty();
    }
    let chunk_plus_connected = ChunkPlusConnected {
        chunk,
        top: conn.top,
        bottom: conn.bottom,
        px: conn.px,
        nx: conn.nx,
        pz: conn.pz,
        nz: conn.nz,
    };
    assert(chunk_plus_connected.conn() == *conn);
    let origin = chunk_pos.to_block_pos();
    let mut this_chunk_model = ChunkModel::default();
    let mut y: usize = 0;
    while y < CHUNK_SIZE_16
        invariant
            y <= 16,
            chunk_pos.fits(),
            origin.x == 16 * chunk_pos.x,
            origin.y == 16 * chunk_pos.y,
            origin.z == 16 * chunk_pos.z,
            chunk_plus_connected.conn() == *conn,
            *chunk_plus_connected.chunk == *chunk,
            forall|i: int, j: int, k: int|
                in_chunk(i, j, k) ==> #[trigger] this_chunk_model.model_at(i, j, k) == (if walked_before(
                    0,
                    y as int,
                    0,
                    i,
                    j,
                    k,
                ) {
                    expected_model(view, chunk_pos, *chunk, *conn, i, j, k)
                } else {
                    BlockModel::Empty
                }),
        decreases 16 - y,
    {
        let mut x: usize = 0;
        while x < CHUNK_SIZE_16
            invariant
                y < 16,
                x <= 16,
                chunk_pos.fits(),
                origin.x == 16 * chunk_pos.x,
                origin.y == 16 * chunk_pos.y,
                origin.z == 16 * chunk_pos.z,
                chunk_plus_connected.conn() == *conn,
                *chunk_plus_connected.chunk == *chunk,
                forall|i: int, j: int, k: int|
                    in_chunk(i, j, k) ==> #[trigger] this_chunk_model.model_at(i, j, k) == (if walked_before(
                        x as int,
                        y as int,
                        0,
                        i,
                        j,
                        k,
                    ) {
                        expected_model(view, chunk_pos, *chunk, *conn, i, j, k)
                    } else {
                        BlockModel::Empty
                    }),
            decreases 16 - x,
        {
            let mut z: usize = 0;
            while z < CHUNK_SIZE_16
                invariant
                    y < 16,
                    x < 16,
                    z <= 16,
                    chunk_pos.fits(),
                    origin.x == 16 * chunk_pos.x,
                    origin.y == 16 * chunk_pos.y,
                    origin.z == 16 * chunk_pos.z,
                    chunk_plus_connected.conn() == *conn,
                    *chunk_plus_connected.chunk == *chunk,
                    forall|i: int, j: int, k: int|
                        in_chunk(i, j, k) ==> #[trigger] this_chunk_model.model_at(i, j, k) == (if walked_before(
                            x as int,
                            y as int,
                            z as int,
                            i,
                            j,
                            k,
                        ) {
                            expected_model(view, chunk_pos, *chunk, *conn, i, j, k)
                        } else {
                            BlockModel::Empty
                        }),
                decreases 16 - z,
            {
                let block_state: &BlockState = chunk.get(x, y, z);
                if block_state.block_type == BlockType::Air {
                    proof {
                        lemma_no_faces_is_empty(model_texture(block_state.block_type));
                    }
                } else {
                    let conn_blocks = chunk_plus_connected.connected_blocks(x, y, z);
                    let block_pos = origin.plus(BlockPos { x: x as isize, y: y as isize, z: z as isize });
                    let sides = which_3_sides_of_block_are_visible(block_pos, view);
                    let block_model = classify_block(block_state, &conn_blocks, sides);
                    assert(openings_of(conn_blocks) == neighbour_openings(
                        *chunk,
                        *conn,
                        x as int,
                        y as int,
                        z as int,
                    ));
                    this_chunk_model.set(x, y, z, block_model);
                }
                z += 1;
            }
            x += 1;
        }
        y += 1;
    }
    this_chunk_model
}

/// A block whose six neighbours are all solid draws nothing, whichever
/// octant faces the camera.
pub proof fn enclosed_block_draws_nothing(
    view: ViewPoint,
    chunk_pos: ChunkPos,
    chunk: Chunk,
    conn: ConnectedChunks,
    x: int,
    y: int,
    z: int,
)
    requires
        in_chunk(x, y, z),
        forall|f: Face| !(#[trigger] neighbour(chunk, conn, x, y, z, f)).spec_is_empty(),
    ensures
        expected_model(view, chunk_pos, chunk, conn, x, y, z) == BlockModel::Empty,
{
    assert(!neighbour(chunk, conn, x, y, z, Face::Top).spec_is_empty());
    assert(!neighbour(chunk, conn, x, y, z, Face::Bottom).spec_is_empty());
    assert(!neighbour(chunk, conn, x, y, z, Face::Px).spec_is_empty());
    assert(!neighbour(chunk, conn, x, y, z, Face::Nx).spec_is_empty());
    assert(!neighbour(chunk, conn, x, y, z, Face::Pz).spec_is_empty());
    assert(!neighbour(chunk, conn, x, y, z, Face::Nz).spec_is_empty());
    let bs = chunk.block(x, y, z);
    let sides = octant_of(16 * chunk_pos.x + x, 16 * chunk_pos.y + y, 16 * chunk_pos.z + z, view);
    assert(visible_faces(bs, neighbour_openings(chunk, conn, x, y, z), sides) == no_faces());
    lemma_no_faces_is_empty(model_texture(bs.block_type));
}

/// An air block draws nothing, whatever its neighbours and the camera.
pub proof fn air_block_draws_nothing(
    view: ViewPoint,
    chunk_pos: ChunkPos,
    chunk: Chunk,
    conn: ConnectedChunks,
    x: int,
    y: int,
    z: int,
)
    requires
        chunk.block(x, y, z).spec_is_empty(),
    ensures
        expected_model(view, chunk_pos, chunk, conn, x, y, z) == BlockModel::Empty,
{
    lemma_no_faces_is_empty(model_texture(chunk.block(x, y, z).block_type));
}

/// A solid block with air all around, seen from above and from the +x and
/// +z sides, draws its top, +x and +z faces with its lateral texture.
pub proof fn lone_block_seen_from_top_px_pz(
    view: ViewPoint,
    chunk_pos: ChunkPos,
    chunk: Chunk,
    conn: ConnectedChunks,
    x: int,
    y: int,
    z: int,
)
    requires
        in_chunk(x, y, z),
        !chunk.block(x, y, z).spec_is_empty(),
        forall|f: Face| (#[trigger] neighbour(chunk, conn, x, y, z, f)).spec_is_empty(),
        octant_of(16 * chunk_pos.x + x, 16 * chunk_pos.y + y, 16 * chunk_pos.z + z, view)
            == ThreeSides::TopPxPz,
    ensures
        expected_model(view, chunk_pos, chunk, conn, x, y, z) == BlockModel::TopPxPz(
            model_texture(chunk.block(x, y, z).block_type),
        ),
{
    assert(neighbour(chunk, conn, x, y, z, Face::Top).spec_is_empty());
    assert(neighbour(chunk, conn, x, y, z, Face::Px).spec_is_empty());
    assert(neighbour(chunk, conn, x, y, z, Face::Pz).spec_is_empty());
    let bs = chunk.block(x, y, z);
    let t = model_texture(bs.block_type);
    let fs = visible_faces(bs, neighbour_openings(chunk, conn, x, y, z), ThreeSides::TopPxPz);
    assert(shows(BlockModel::TopPxPz(t), fs, t));
    let m = model_showing(fs, t);
    assert(shows(m, fs, t));
    crate::render::lemma_shows_unique(m, BlockModel::TopPxPz(t), fs, t);
}

/// Stone carries one texture on every face; grass has a top texture that
/// differs from its lateral one, and its model carries the lateral one.
pub proof fn material_textures()
    ensures
        texture_of(BlockType::Stone) == MyTexture::AllSides(UvTexture::cell(CELL_STONE as int)),
        model_texture(BlockType::Stone) == UvTexture::cell(CELL_STONE as int),
        texture_of(BlockType::Grass).spec_top() != texture_of(BlockType::Grass).spec_side(),
        model_texture(BlockType::Grass) == UvTexture::cell(CELL_GRASS_SIDE as int),
{
    UvTexture::lemma_cell_injective(CELL_GRASS_TOP as int, CELL_GRASS_SIDE as int);
}

/// At the edges of a chunk the neighbour across the edge is read from the
/// touching layer of the neighbouring chunk, at the block's own `(x, z)`;
/// inside the chunk it is read from the chunk.
pub proof fn edge_neighbours_come_from_connected_layers(
    chunk: Chunk,
    conn: ConnectedChunks,
    x: int,
    y: int,
    z: int,
)
    requires
        in_chunk(x, y, z),
    ensures
        x == 15 ==> neighbour(chunk, conn, x, y, z, Face::Px) == conn.px.at(15, z),
        x < 15 ==> neighbour(chunk, conn, x, y, z, Face::Px) == chunk.block(x + 1, y, z),
        x == 0 ==> neighbour(chunk, conn, x, y, z, Face::Nx) == conn.nx.at(0, z),
        y == 15 ==> neighbour(chunk, conn, x, y, z, Face::Top) == conn.top.at(x, z),
        y == 0 ==> neighbour(chunk, conn, x, y, z, Face::Bottom) == conn.bottom.at(x, z),
        z == 15 ==> neighbour(chunk, conn, x, y, z, Face::Pz) == conn.pz.at(x, 15),
        z == 0 ==> neighbour(chunk, conn, x, y, z, Face::Nz) == conn.nz.at(x, 0),
{
}

} // verus!
