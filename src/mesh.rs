use vstd::prelude::*;

use crate::render::{
    face_list, BlockModel, BlockPos, ChunkModel, ChunkPos, Face, UvPoint, UvTexture,
};
use crate::world::{in_chunk, CHUNK_SIZE_16};

verus! {

/// macroquad's texture handle: batches carry it through unopened.
#[verifier::external_type_specification]
#[verifier::external_body]
pub struct ExTexture2D(macroquad::texture::Texture2D);

/// Relies on the derived `Clone` of macroquad's `Texture2D`: the copy refers
/// to the same texture.
pub assume_specification[ <macroquad::texture::Texture2D as Clone>::clone ](
    t: &macroquad::texture::Texture2D,
) -> (r: macroquad::texture::Texture2D)
    ensures
        r == *t,
;

/// A unit vector along one axis of the block grid.
#[derive(Debug, Clone, Copy, PartialEq, Eq, Structural)]
pub struct Normal {
    pub x: i8,
    pub y: i8,
    pub z: i8,
}

/// A colour, one byte per channel.
#[derive(Debug, Clone, Copy, PartialEq, Eq, Structural)]
pub struct Rgba {
    pub r: u8,
    pub g: u8,
    pub b: u8,
    pub a: u8,
}

/// The colour of every emitted vertex: opaque white, so that the texture
/// shows unchanged.
pub open spec fn white() -> Rgba {
    Rgba { r: 255, g: 255, b: 255, a: 255 }
}

/// The outward unit normal of face `f`.
pub open spec fn face_normal(f: Face) -> Normal {
    match f {
        Face::Top => Normal { x: 0, y: 1, z: 0 },
        Face::Bottom => Normal { x: 0, y: -1i8, z: 0 },
        Face::Px => Normal { x: 1, y: 0, z: 0 },
        Face::Nx => Normal { x: -1i8, y: 0, z: 0 },
        Face::Pz => Normal { x: 0, y: 0, z: 1 },
        Face::Nz => Normal { x: 0, y: 0, z: -1i8 },
    }
}

fn normal_of(f: Face) -> (r: Normal)
    ensures
        r == face_normal(f),
{
    match f {
        Face::Top => Normal { x: 0, y: 1, z: 0 },
        Face::Bottom => Normal { x: 0, y: -1, z: 0 },
        Face::Px => Normal { x: 1, y: 0, z: 0 },
        Face::Nx => Normal { x: -1, y: 0, z: 0 },
        Face::Pz => Normal { x: 0, y: 0, z: 1 },
        Face::Nz => Normal { x: 0, y: 0, z: -1 },
    }
}

/// A vertex of an emitted quad: a corner of the block grid, a point of the
/// texture atlas, the outward normal of its face and its colour.
#[derive(Debug, Clone, Copy, PartialEq, Eq, Structural)]
pub struct MeshVertex {
    pub position: BlockPos,
    pub uv: UvPoint,
    pub normal: Normal,
    pub color: Rgba,
}

/// Quads in one batch.
pub const QUADS_PER_BATCH: usize = 833;

/// Vertices in one batch: four for each of `QUADS_PER_BATCH` quads.
pub const VERT_CAP: usize = 3332;

/// Indices in one batch: six for each of `QUADS_PER_BATCH` quads.
pub const IND_CAP: usize = 4998;

/// Number of distinct values of a 16-bit index.
pub const INDEX_RANGE: usize = 65536;

/// The far corners of the faces of the block at `pos` have coordinates that
/// fit in an `isize`.
pub open spec fn corner_fits(pos: BlockPos) -> bool {
    pos.x < isize::MAX && pos.y < isize::MAX && pos.z < isize::MAX
}

/// The corner at offset `(dx, dy, dz)` from `pos` of face `f`, with atlas
/// point `uv`, white.
pub open spec fn corner(f: Face, pos: BlockPos, dx: int, dy: int, dz: int, uv: UvPoint) -> MeshVertex {
    MeshVertex {
        position: BlockPos {
            x: (pos.x + dx) as isize,
            y: (pos.y + dy) as isize,
            z: (pos.z + dz) as isize,
        },
        uv,
        normal: face_normal(f),
        color: white(),
    }
}

fn vertex(f: Face, pos: BlockPos, dx: isize, dy: isize, dz: isize, uv: UvPoint) -> (r: MeshVertex)
    requires
        corner_fits(pos),
        0 <= dx <= 1,
        0 <= dy <= 1,
        0 <= dz <= 1,
    ensures
        r == corner(f, pos, dx as int, dy as int, dz as int, uv),
{
    MeshVertex {
        position: BlockPos { x: pos.x + dx, y: pos.y + dy, z: pos.z + dz },
        uv,
        normal: normal_of(f),
        color: Rgba { r: 255, g: 255, b: 255, a: 255 },
    }
}

/// The four vertices of face `f` of the block at `pos`, textured with `t`.
pub open spec fn face_quad(f: Face, pos: BlockPos, t: UvTexture) -> Seq<MeshVertex> {
    match f {
        Face::Top => seq![corner(Face::Top, pos, 0, 1, 0, t.spec_low_left()), corner(Face::Top, pos, 1, 1, 0, t.spec_low_right()), corner(Face::Top, pos, 1, 1, 1, t.spec_up_right()), corner(Face::Top, pos, 0, 1, 1, t.spec_up_left())],
        Face::Bottom => seq![corner(Face::Bottom, pos, 0, 0, 0, t.spec_low_left()), corner(Face::Bottom, pos, 1, 0, 0, t.spec_low_right()), corner(Face::Bottom, pos, 1, 0, 1, t.spec_up_right()), corner(Face::Bottom, pos, 0, 0, 1, t.spec_up_left())],
        Face::Px => seq![corner(Face::Px, pos, 1, 0, 0, t.spec_low_left()), corner(Face::Px, pos, 1, 0, 1, t.spec_low_right()), corner(Face::Px, pos, 1, 1, 1, t.spec_up_right()), corner(Face::Px, pos, 1, 1, 0, t.spec_up_left())],
        Face::Nx => seq![corner(Face::Nx, pos, 0, 0, 0, t.spec_low_right()), corner(Face::Nx, pos, 0, 0, 1, t.spec_low_left()), corner(Face::Nx, pos, 0, 1, 1, t.spec_up_left()), corner(Face::Nx, pos, 0, 1, 0, t.spec_up_right())],
        Face::Pz => seq![corner(Face::Pz, pos, 0, 0, 1, t.spec_low_right()), corner(Face::Pz, pos, 1, 0, 1, t.spec_low_left()), corner(Face::Pz, pos, 1, 1, 1, t.spec_up_left()), corner(Face::Pz, pos, 0, 1, 1, t.spec_up_right())],
        Face::Nz => seq![corner(Face::Nz, pos, 0, 0, 0, t.spec_low_right()), corner(Face::Nz, pos, 1, 0, 0, t.spec_low_left()), corner(Face::Nz, pos, 1, 1, 0, t.spec_up_left()), corner(Face::Nz, pos, 0, 1, 0, t.spec_up_right())],
    }
}

fn top_vert(pos: BlockPos, texture: UvTexture) -> (r: [MeshVertex; 4])
    requires
        corner_fits(pos),
    ensures
        r@ == face_quad(Face::Top, pos, texture),
{
    let r = [
        vertex(Face::Top, pos, 0, 1, 0, texture.low_left()),
        vertex(Face::Top, pos, 1, 1, 0, texture.low_right()),
        vertex(Face::Top, pos, 1, 1, 1, texture.up_right()),
        vertex(Face::Top, pos, 0, 1, 1, texture.up_left()),
    ];
    assert(r@ =~= face_quad(Face::Top, pos, texture));
    r
}

fn bottom_vert(pos: BlockPos, texture: UvTexture) -> (r: [MeshVertex; 4])
    requires
        corner_fits(pos),
    ensures
        r@ == face_quad(Face::Bottom, pos, texture),
{
    let r = [
        vertex(Face::Bottom, pos, 0, 0, 0, texture.low_left()),
        vertex(Face::Bottom, pos, 1, 0, 0, texture.low_right()),
        vertex(Face::Bottom, pos, 1, 0, 1, texture.up_right()),
        vertex(Face::Bottom, pos, 0, 0, 1, texture.up_left()),
    ];
    assert(r@ =~= face_quad(Face::Bottom, pos, texture));
    r
}

fn px_vert(pos: BlockPos, texture: UvTexture) -> (r: [MeshVertex; 4])
    requires
        corner_fits(pos),
    ensures
        r@ == face_quad(Face::Px, pos, texture),
{
    let r = [
        vertex(Face::Px, pos, 1, 0, 0, texture.low_left()),
        vertex(Face::Px, pos, 1, 0, 1, texture.low_right()),
        vertex(Face::Px, pos, 1, 1, 1, texture.up_right()),
        vertex(Face::Px, pos, 1, 1, 0, texture.up_left()),
    ];
    assert(r@ =~= face_quad(Face::Px, pos, texture));
    r
}

fn nx_vert(pos: BlockPos, texture: UvTexture) -> (r: [MeshVertex; 4])
    requires
        corner_fits(pos),
    ensures
        r@ == face_quad(Face::Nx, pos, texture),
{
    let r = [
        vertex(Face::Nx, pos, 0, 0, 0, texture.low_right()),
        vertex(Face::Nx, pos, 0, 0, 1, texture.low_left()),
        vertex(Face::Nx, pos, 0, 1, 1, texture.up_left()),
        vertex(Face::Nx, pos, 0, 1, 0, texture.up_right()),
    ];
    assert(r@ =~= face_quad(Face::Nx, pos, texture));
    r
}

fn pz_vert(pos: BlockPos, texture: UvTexture) -> (r: [MeshVertex; 4])
    requires
        corner_fits(pos),
    ensures
        r@ == face_quad(Face::Pz, pos, texture),
{
    let r = [
        vertex(Face::Pz, pos, 0, 0, 1, texture.low_right()),
        vertex(Face::Pz, pos, 1, 0, 1, texture.low_left()),
        vertex(Face::Pz, pos, 1, 1, 1, texture.up_left()),
        vertex(Face::Pz, pos, 0, 1, 1, texture.up_right()),
    ];
    assert(r@ =~= face_quad(Face::Pz, pos, texture));
    r
}

fn nz_vert(pos: BlockPos, texture: UvTexture) -> (r: [MeshVertex; 4])
    requires
        corner_fits(pos),
    ensures
        r@ == face_quad(Face::Nz, pos, texture),
{
    let r = [
        vertex(Face::Nz, pos, 0, 0, 0, texture.low_right()),
        vertex(Face::Nz, pos, 1, 0, 0, texture.low_left()),
        vertex(Face::Nz, pos, 1, 1, 0, texture.up_left()),
        vertex(Face::Nz, pos, 0, 1, 0, texture.up_right()),
    ];
    assert(r@ =~= face_quad(Face::Nz, pos, texture));
    r
}

/// The vertices of face `f` of the block at `pos`.
fn face_vert(f: Face, pos: BlockPos, texture: UvTexture) -> (r: [MeshVertex; 4])
    requires
        corner_fits(pos),
    ensures
        r@ == face_quad(f, pos, texture),
{
    match f {
        Face::Top => top_vert(pos, texture),
        Face::Bottom => bottom_vert(pos, texture),
        Face::Px => px_vert(pos, texture),
        Face::Nx => nx_vert(pos, texture),
        Face::Pz => pz_vert(pos, texture),
        Face::Nz => nz_vert(pos, texture),
    }
}

/// The vertices of the faces `faces` of the block at `pos`, in order.
pub open spec fn quads_of(faces: Seq<Face>, pos: BlockPos, t: UvTexture) -> Seq<MeshVertex>
    decreases faces.len(),
{
    if faces.len() == 0 {
        Seq::empty()
    } else {
        quads_of(faces.drop_last(), pos, t) + face_quad(faces.last(), pos, t)
    }
}

/// Offset of the `j`-th index of a quad from the quad's first vertex: the
/// quad is cut into the triangles `0, 1, 2` and `0, 3, 2`.
pub open spec fn plane_offset(j: int) -> int {
    if j == 0 {
        0
    } else if j == 1 {
        1
    } else if j == 2 {
        2
    } else if j == 3 {
        0
    } else if j == 4 {
        3
    } else {
        2
    }
}

/// The index at position `t` of the index list of quads whose vertices are
/// numbered from zero.
pub open spec fn quad_index(t: int) -> int {
    4 * (t / 6) + plane_offset(t % 6)
}

pub proof fn lemma_quad_index(q: int, j: int)
    requires
        0 <= q,
        0 <= j < 6,
    ensures
        quad_index(6 * q + j) == 4 * q + plane_offset(j),
{
    vstd::arithmetic::div_mod::lemma_fundamental_div_mod_converse(6 * q + j, 6, q, j);
}

fn plane_ind(j: usize) -> (r: u16)
    requires
        j < 6,
    ensures
        r == plane_offset(j as int),
{
    if j == 0 {
        0
    } else if j == 1 {
        1
    } else if j == 2 {
        2
    } else if j == 3 {
        0
    } else if j == 4 {
        3
    } else {
        2
    }
}

/// One draw call's worth of geometry: whole quads, with indices numbered
/// from the batch's first vertex.
pub struct MeshBatch {
    pub vertices: Vec<MeshVertex>,
    pub indices: Vec<u16>,
    pub texture: Option<macroquad::texture::Texture2D>,
}

/// Number of batches that `n` vertices are cut into.
pub open spec fn batch_count(n: int) -> int {
    (n + VERT_CAP - 1) / (VERT_CAP as int)
}

/// End of the vertices of batch `b` among `n` vertices.
pub open spec fn batch_end(n: int, b: int) -> int {
    if VERT_CAP * (b + 1) < n {
        VERT_CAP * (b + 1)
    } else {
        n
    }
}

/// The index list of `q` quads whose vertices are numbered from zero.
pub open spec fn local_indices(q: int) -> Seq<u16> {
    Seq::new((6 * q) as nat, |t: int| quad_index(t) as u16)
}

/// Batch `b` holds the vertices of `vs` from `VERT_CAP * b` on, at most
/// `VERT_CAP` of them, the index list of their quads, and `texture`.
pub open spec fn batch_matches(
    vs: Seq<MeshVertex>,
    texture: Option<macroquad::texture::Texture2D>,
    batch: MeshBatch,
    b: int,
) -> bool {
    let start = VERT_CAP * b;
    let end = batch_end(vs.len() as int, b);
    &&& batch.vertices@ == vs.subrange(start, end)
    &&& batch.indices@ == local_indices((end - start) / 4)
    &&& batch.texture == texture
}

/// `batches` cut the vertices `vs` into consecutive batches of `VERT_CAP`
/// vertices, the last one possibly shorter.
pub open spec fn batched(
    vs: Seq<MeshVertex>,
    texture: Option<macroquad::texture::Texture2D>,
    batches: Seq<MeshBatch>,
) -> bool {
    &&& batches.len() == batch_count(vs.len() as int)
    &&& forall|b: int| 0 <= b < batches.len() ==> batch_matches(vs, texture, #[trigger] batches[b], b)
}

/// The index list of quads numbered from `4 * a` is that of quads numbered
/// from zero, shifted by `4 * a`.
pub proof fn lemma_quad_index_shift(a: int, u: int)
    requires
        0 <= a,
        0 <= u,
    ensures
        quad_index(6 * a + u) == 4 * a + quad_index(u),
{
    vstd::arithmetic::div_mod::lemma_fundamental_div_mod(u, 6);
    vstd::arithmetic::div_mod::lemma_fundamental_div_mod_converse(6 * a + u, 6, a + u / 6, u % 6);
}

/// Subtracting the wrapped offset of a batch from a wrapped index gives the
/// index within the batch.
pub proof fn lemma_unwrap_index(g: int, s: int, l: int)
    requires
        0 <= s,
        g == s + l,
        0 <= l < INDEX_RANGE,
    ensures
        vstd::wrapping::u16_specs::wrapping_sub((g % 65536) as u16, (s % 65536) as u16) == l,
{
    let x = g % 65536;
    let y = s % 65536;
    vstd::arithmetic::div_mod::lemma_sub_mod_noop(g, s, 65536);
    vstd::arithmetic::div_mod::lemma_small_mod(l as nat, 65536);
    if x - y < 0 {
        vstd::arithmetic::div_mod::lemma_fundamental_div_mod_converse(x - y, 65536, -1, x - y + 65536);
    } else {
        vstd::arithmetic::div_mod::lemma_small_mod((x - y) as nat, 65536);
    }
}

fn clone_texture(t: &Option<macroquad::texture::Texture2D>) -> (r: Option<macroquad::texture::Texture2D>)
    ensures
        r == *t,
{
    match t {
        Some(tex) => Some(tex.clone()),
        None => None,
    }
}

/// The batch of the vertices `start..end` and of the indices of their
/// quads, renumbered from `start`.
fn cut_batch(
    vertices: &Vec<MeshVertex>,
    indices: &Vec<u16>,
    texture: &Option<macroquad::texture::Texture2D>,
    start: usize,
    end: usize,
) -> (r: MeshBatch)
    requires
        vertices.len() % 4 == 0,
        indices.len() == vertices.len() / 4 * 6,
        forall|t: int| 0 <= t < indices.len() ==> #[trigger] indices[t] == quad_index(t) % 65536,
        start <= end <= vertices.len(),
        end - start <= VERT_CAP,
        start % 4 == 0,
        end % 4 == 0,
    ensures
        r.vertices@ == vertices@.subrange(start as int, end as int),
        r.indices@ == local_indices((end - start) / 4),
        r.texture == *texture,
{
    let n = vertices.len();
    let mut batch_vertices: Vec<MeshVertex> = Vec::with_capacity(end - start);
    let mut i: usize = start;
    while i < end
        invariant
            start <= i <= end <= n,
            n == vertices.len(),
            batch_vertices@ == vertices@.subrange(start as int, i as int),
        decreases end - i,
    {
        batch_vertices.push(vertices[i]);
        assert(vertices@.subrange(start as int, i + 1) =~= vertices@.subrange(start as int, i as int).push(vertices@[i as int]));
        i += 1;
    }
    let offset = (start % INDEX_RANGE) as u16;
    let first = start / 4 * 6;
    let last = end / 4 * 6;
    let mut batch_indices: Vec<u16> = Vec::with_capacity(last - first);
    let mut t: usize = first;
    while t < last
        invariant
            first <= t <= last <= indices.len(),
            last - first <= IND_CAP,
            first == start / 4 * 6,
            start % 4 == 0,
            offset == start % 65536,
            forall|t: int| 0 <= t < indices.len() ==> #[trigger] indices[t] == quad_index(t) % 65536,
            batch_indices.len() == t - first,
            forall|u: int|
                0 <= u < batch_indices.len() ==> #[trigger] batch_indices[u] == quad_index(u) as u16,
        decreases last - t,
    {
        let ghost u = t - first;
        proof {
            lemma_quad_index_shift(start as int / 4, u);
            assert(quad_index(u) <= 4 * (u / 6) + 3);
            lemma_unwrap_index(quad_index(t as int), start as int, quad_index(u));
        }
        batch_indices.push(indices[t].wrapping_sub(offset));
        t += 1;
    }
    let batch = MeshBatch {
        vertices: batch_vertices,
        indices: batch_indices,
        texture: clone_texture(texture),
    };
    assert(batch.indices@ =~= local_indices((end - start) / 4));
    batch
}

/// Growable vertex and index buffers that quads are appended to, and the
/// texture that every batch cut from them carries.
pub struct Meshes {
    vertices: Vec<MeshVertex>,
    indices: Vec<u16>,
    texture: Option<macroquad::texture::Texture2D>,
}

impl Meshes {
    /// The vertices appended so far.
    pub closed spec fn vertex_seq(&self) -> Seq<MeshVertex> {
        self.vertices@
    }

    pub closed spec fn texture_handle(&self) -> Option<macroquad::texture::Texture2D> {
        self.texture
    }

    /// The vertices come in quads, and the indices hold the fixed pattern of
    /// each quad offset by the quad's first vertex, taken modulo the 16-bit
    /// range.
    pub closed spec fn wf(&self) -> bool {
        &&& self.vertices.len() % 4 == 0
        &&& self.indices.len() == self.vertices.len() / 4 * 6
        &&& forall|t: int|
            0 <= t < self.indices.len() ==> #[trigger] self.indices[t] == quad_index(t) % (
            INDEX_RANGE as int)
    }

    pub fn new(texture: Option<macroquad::texture::Texture2D>) -> (r: Self)
        ensures
            r.wf(),
            r.vertex_seq() == Seq::<MeshVertex>::empty(),
            r.vertex_seq().len() % 4 == 0,
            r.texture_handle() == texture,
    {
        Self {
            vertices: Vec::with_capacity(CHUNK_SIZE_16 * CHUNK_SIZE_16),
            indices: Vec::with_capacity(CHUNK_SIZE_16 * CHUNK_SIZE_16 * 3 / 2),
            texture,
        }
    }

    /// Appends the quad of one face: its six indices, then its four vertices.
    fn push_quad(&mut self, face: Face, block_pos: BlockPos, texture: UvTexture)
        requires
            old(self).wf(),
            corner_fits(block_pos),
        ensures
            final(self).wf(),
            final(self).vertex_seq() == old(self).vertex_seq() + face_quad(face, block_pos, texture),
            final(self).texture_handle() == old(self).texture_handle(),
    {
        let ghost before = self.vertices@;
        let ghost q = self.vertices.len() / 4;
        let base = (self.vertices.len() % INDEX_RANGE) as u16;
        assert(base + 3 <= 65535);
        let mut j: usize = 0;
        while j < 6
            invariant
                j <= 6,
                self.vertices@ == before,
                q == self.vertices.len() / 4,
                self.vertices.len() % 4 == 0,
                base == self.vertices.len() % 65536,
                self.texture == old(self).texture,
                self.indices.len() == self.vertices.len() / 4 * 6 + j,
                forall|t: int|
                    0 <= t < self.indices.len() ==> #[trigger] self.indices[t] == quad_index(t) % 65536,
            decreases 6 - j,
        {
            let ghost t = self.indices.len() as int;
            proof {
                lemma_quad_index(q as int, j as int);
                assert(4 * q == self.vertices.len());
            }
            self.indices.push(base + plane_ind(j));
            assert(self.indices[t] == quad_index(t) % 65536);
            j += 1;
        }
        let quad = face_vert(face, block_pos, texture);
        let mut k: usize = 0;
        while k < 4
            invariant
                k <= 4,
                self.vertices@ == before + quad@.take(k as int),
                self.indices.len() == (before.len() / 4 + 1) * 6,
                before.len() % 4 == 0,
                self.texture == old(self).texture,
                forall|t: int|
                    0 <= t < self.indices.len() ==> #[trigger] self.indices[t] == quad_index(t) % 65536,
            decreases 4 - k,
        {
            self.vertices.push(quad[k]);
            assert(quad@.take(k + 1) =~= quad@.take(k as int).push(quad@[k as int]));
            k += 1;
        }
        assert(quad@.take(4) =~= quad@);
    }

    /// Appends one quad for each face of `faces`, in order: first its six
    /// indices, numbered from the current vertex count, then its four
    /// vertices.
    pub fn extend_with(&mut self, block_pos: BlockPos, texture: UvTexture, faces: &[Face])
        requires
            old(self).wf(),
            corner_fits(block_pos),
        ensures
            final(self).wf(),
            final(self).vertex_seq() == old(self).vertex_seq() + quads_of(faces@, block_pos, texture),
            final(self).vertex_seq().len() % 4 == 0,
            final(self).texture_handle() == old(self).texture_handle(),
    {
        let mut f: usize = 0;
        while f < faces.len()
            invariant
                f <= faces.len(),
                corner_fits(block_pos),
                self.wf(),
                self.vertex_seq() == old(self).vertex_seq() + quads_of(faces@.take(f as int), block_pos, texture),
                self.texture_handle() == old(self).texture_handle(),
            decreases faces.len() - f,
        {
            self.push_quad(faces[f], block_pos, texture);
            assert(faces@.take(f + 1).drop_last() =~= faces@.take(f as int));
            assert(self.vertices@ =~= old(self).vertex_seq() + quads_of(faces@.take(f + 1), block_pos, texture));
            f += 1;
        }
        assert(faces@.take(faces.len() as int) =~= faces@);
    }

    /// Cuts the buffers into batches of at most `VERT_CAP` vertices and
    /// `IND_CAP` indices, each made of whole quads, and renumbers the indices
    /// of each batch from its first vertex.
    #[verifier::rlimit(50)]
    pub fn into_iter(self) -> (r: Vec<MeshBatch>)
        requires
            self.wf(),
        ensures
            batched(self.vertex_seq(), self.texture_handle(), r@),
    {
        let Meshes { vertices, indices, texture } = self;
        let n = vertices.len();
        let mut meshes: Vec<MeshBatch> = Vec::with_capacity(n / VERT_CAP);
        let mut start: usize = 0;
        while start < n
            invariant
                n == vertices.len(),
                n % 4 == 0,
                indices.len() == n / 4 * 6,
                forall|t: int| 0 <= t < indices.len() ==> #[trigger] indices[t] == quad_index(t) % 65536,
                start <= n,
                start == (if VERT_CAP * meshes.len() < n { VERT_CAP * meshes.len() } else { n as int }),
                meshes.len() == 0 || VERT_CAP * (meshes.len() - 1) < n,
                forall|b: int|
                    0 <= b < meshes.len() ==> batch_matches(vertices@, texture, #[trigger] meshes[b], b),
            decreases n - start,
        {
            let end = if n - start > VERT_CAP {
                start + VERT_CAP
            } else {
                n
            };
            let batch = cut_batch(&vertices, &indices, &texture, start, end);
            let ghost b = meshes.len() as int;
            assert(start == VERT_CAP * b);
            assert(end == batch_end(n as int, b));
            assert(batch_matches(vertices@, texture, batch, b));
            let ghost before_push = meshes@;
            meshes.push(batch);
            assert forall|c: int| 0 <= c < meshes.len() implies batch_matches(
                vertices@,
                texture,
                #[trigger] meshes[c],
                c,
            ) by {
                if c < b {
                    assert(meshes[c] == before_push[c]);
                } else {
                    assert(meshes[c] == batch);
                }
            }
            start = end;
        }
        proof {
            if n > 0 {
                vstd::arithmetic::div_mod::lemma_fundamental_div_mod_converse(
                    n + VERT_CAP - 1,
                    VERT_CAP as int,
                    meshes.len() as int,
                    n + VERT_CAP - 1 - VERT_CAP * meshes.len(),
                );
            }
        }
        meshes
    }
}

/// Position of block `(x, y, z)` of the chunk at `cp`.
pub open spec fn world_block_pos(cp: ChunkPos, x: int, y: int, z: int) -> BlockPos {
    BlockPos {
        x: (16 * cp.x + x) as isize,
        y: (16 * cp.y + y) as isize,
        z: (16 * cp.z + z) as isize,
    }
}

/// The vertices that model `m` emits at `pos`: one quad per drawn face.
pub open spec fn block_vertices(m: BlockModel, pos: BlockPos) -> Seq<MeshVertex> {
    match m.texture() {
        Some(t) => quads_of(face_list(m.faces()), pos, t),
        None => Seq::empty(),
    }
}

/// The block that comes `l`-th when a chunk is walked by `y`, then `x`,
/// then `z`.
pub open spec fn walk_x(l: int) -> int {
    (l / 16) % 16
}

pub open spec fn walk_y(l: int) -> int {
    l / 256
}

pub open spec fn walk_z(l: int) -> int {
    l % 16
}

/// The vertices of the first `l` blocks of the chunk at `cp`.
pub open spec fn chunk_vertices_upto(cp: ChunkPos, model: ChunkModel, l: int) -> Seq<MeshVertex>
    decreases l,
{
    if l <= 0 {
        Seq::empty()
    } else {
        let i = l - 1;
        chunk_vertices_upto(cp, model, i) + block_vertices(
            model.model_at(walk_x(i), walk_y(i), walk_z(i)),
            world_block_pos(cp, walk_x(i), walk_y(i), walk_z(i)),
        )
    }
}

/// The vertices that the model of the chunk at `cp` emits.
pub open spec fn chunk_vertices(cp: ChunkPos, model: ChunkModel) -> Seq<MeshVertex> {
    chunk_vertices_upto(cp, model, 4096)
}

/// The vertices that a sequence of chunk models emits, chunk after chunk.
pub open spec fn all_vertices(chunks: Seq<(ChunkPos, ChunkModel)>) -> Seq<MeshVertex>
    decreases chunks.len(),
{
    if chunks.len() == 0 {
        Seq::empty()
    } else {
        all_vertices(chunks.drop_last()) + chunk_vertices(chunks.last().0, chunks.last().1)
    }
}

/// Every model of the chunk can be emitted.
pub open spec fn drawable(model: ChunkModel) -> bool {
    forall|x: int, y: int, z: int| in_chunk(x, y, z) ==> !(#[trigger] model.model_at(x, y, z)).is_double()
}

pub proof fn lemma_walk_index(x: int, y: int, z: int)
    requires
        in_chunk(x, y, z),
    ensures
        walk_x(256 * y + 16 * x + z) == x,
        walk_y(256 * y + 16 * x + z) == y,
        walk_z(256 * y + 16 * x + z) == z,
{
    let l = 256 * y + 16 * x + z;
    vstd::arithmetic::div_mod::lemma_fundamental_div_mod_converse(l, 256, y, 16 * x + z);
    vstd::arithmetic::div_mod::lemma_fundamental_div_mod_converse(l, 16, 16 * y + x, z);
    vstd::arithmetic::div_mod::lemma_fundamental_div_mod_converse(16 * y + x, 16, y, x);
}

/// A chunk model that draws nothing emits no vertex.
#[verifier::rlimit(50)]
pub proof fn lemma_empty_chunk_vertices(cp: ChunkPos, model: ChunkModel, l: int)
    requires
        model.spec_is_empty(),
        l <= 4096,
    ensures
        chunk_vertices_upto(cp, model, l) == Seq::<MeshVertex>::empty(),
    decreases l,
{
    if l > 0 {
        let i = l - 1;
        lemma_empty_chunk_vertices(cp, model, i);
        vstd::arithmetic::div_mod::lemma_fundamental_div_mod(i, 256);
        vstd::arithmetic::div_mod::lemma_fundamental_div_mod(i, 16);
        vstd::arithmetic::div_mod::lemma_fundamental_div_mod(i / 16, 16);
        assert(in_chunk(walk_x(i), walk_y(i), walk_z(i)));
        assert(model.model_at(walk_x(i), walk_y(i), walk_z(i)) == BlockModel::Empty);
        assert(chunk_vertices_upto(cp, model, l) =~= Seq::<MeshVertex>::empty());
    }
}

/// Appends the quads of one block model at `block_pos`.
fn emit_block(meshes: &mut Meshes, block_pos: BlockPos, block_model: &BlockModel)
    requires
        old(meshes).wf(),
        corner_fits(block_pos),
        !block_model.is_double(),
    ensures
        final(meshes).wf(),
        final(meshes).vertex_seq() == old(meshes).vertex_seq() + block_vertices(*block_model, block_pos),
        final(meshes).texture_handle() == old(meshes).texture_handle(),
{
    match *block_model {
        BlockModel::Empty | BlockModel::NonCube => {
            assert(old(meshes).vertex_seq() + block_vertices(*block_model, block_pos) =~= old(meshes).vertex_seq());
        },
        BlockModel::Top(texture) => {
            let faces = [Face::Top];
            assert(faces@ =~= face_list(block_model.faces()));
            meshes.extend_with(block_pos, texture, &faces);
        },
        BlockModel::Bottom(texture) => {
            let faces = [Face::Bottom];
            assert(faces@ =~= face_list(block_model.faces()));
            meshes.extend_with(block_pos, texture, &faces);
        },
        BlockModel::Px(texture) => {
            let faces = [Face::Px];
            assert(faces@ =~= face_list(block_model.faces()));
            meshes.extend_with(block_pos, texture, &faces);
        },
        BlockModel::Nx(texture) => {
            let faces = [Face::Nx];
            assert(faces@ =~= face_list(block_model.faces()));
            meshes.extend_with(block_pos, texture, &faces);
        },
        BlockModel::Pz(texture) => {
            let faces = [Face::Pz];
            assert(faces@ =~= face_list(block_model.faces()));
            meshes.extend_with(block_pos, texture, &faces);
        },
        BlockModel::Nz(texture) => {
            let faces = [Face::Nz];
            assert(faces@ =~= face_list(block_model.faces()));
            meshes.extend_with(block_pos, texture, &faces);
        },
        BlockModel::TopPx(texture) => {
            let faces = [Face::Top, Face::Px];
            assert(faces@ =~= face_list(block_model.faces()));
            meshes.extend_with(block_pos, texture, &faces);
        },
        BlockModel::TopNx(texture) => {
            let faces = [Face::Top, Face::Nx];
            assert(faces@ =~= face_list(block_model.faces()));
            meshes.extend_with(block_pos, texture, &faces);
        },
        BlockModel::TopPz(texture) => {
            let faces = [Face::Top, Face::Pz];
            assert(faces@ =~= face_list(block_model.faces()));
            meshes.extend_with(block_pos, texture, &faces);
        },
        BlockModel::TopNz(texture) => {
            let faces = [Face::Top, Face::Nz];
            assert(faces@ =~= face_list(block_model.faces()));
            meshes.extend_with(block_pos, texture, &faces);
        },
        BlockModel::BottomPx(texture) => {
            let faces = [Face::Bottom, Face::Px];
            assert(faces@ =~= face_list(block_model.faces()));
            meshes.extend_with(block_pos, texture, &faces);
        },
        BlockModel::BottomNx(texture) => {
            let faces = [Face::Bottom, Face::Nx];
            assert(faces@ =~= face_list(block_model.faces()));
            meshes.extend_with(block_pos, texture, &faces);
        },
        BlockModel::BottomPz(texture) => {
            let faces = [Face::Bottom, Face::Pz];
            assert(faces@ =~= face_list(block_model.faces()));
            meshes.extend_with(block_pos, texture, &faces);
        },
        BlockModel::BottomNz(texture) => {
            let faces = [Face::Bottom, Face::Nz];
            assert(faces@ =~= face_list(block_model.faces()));
            meshes.extend_with(block_pos, texture, &faces);
        },
        BlockModel::PxPz(texture) => {
            let faces = [Face::Px, Face::Pz];
            assert(faces@ =~= face_list(block_model.faces()));
            meshes.extend_with(block_pos, texture, &faces);
        },
        BlockModel::PxNz(texture) => {
            let faces = [Face::Px, Face::Nz];
            assert(faces@ =~= face_list(block_model.faces()));
            meshes.extend_with(block_pos, texture, &faces);
        },
        BlockModel::NxPz(texture) => {
            let faces = [Face::Nx, Face::Pz];
            assert(faces@ =~= face_list(block_model.faces()));
            meshes.extend_with(block_pos, texture, &faces);
        },
        BlockModel::NxNz(texture) => {
            let faces = [Face::Nx, Face::Nz];
            assert(faces@ =~= face_list(block_model.faces()));
            meshes.extend_with(block_pos, texture, &faces);
        },
        BlockModel::TopPxPz(texture) => {
            let faces = [Face::Top, Face::Px, Face::Pz];
            assert(faces@ =~= face_list(block_model.faces()));
            meshes.extend_with(block_pos, texture, &faces);
        },
        BlockModel::TopNxPz(texture) => {
            let faces = [Face::Top, Face::Nx, Face::Pz];
            assert(faces@ =~= face_list(block_model.faces()));
            meshes.extend_with(block_pos, texture, &faces);
        },
        BlockModel::TopPxNz(texture) => {
            let faces = [Face::Top, Face::Px, Face::Nz];
            assert(faces@ =~= face_list(block_model.faces()));
            meshes.extend_with(block_pos, texture, &faces);
        },
        BlockModel::TopNxNz(texture) => {
            let faces = [Face::Top, Face::Nx, Face::Nz];
            assert(faces@ =~= face_list(block_model.faces()));
            meshes.extend_with(block_pos, texture, &faces);
        },
        BlockModel::BottomPxPz(texture) => {
            let faces = [Face::Bottom, Face::Px, Face::Pz];
            assert(faces@ =~= face_list(block_model.faces()));
            meshes.extend_with(block_pos, texture, &faces);
        },
        BlockModel::BottomNxPz(texture) => {
            let faces = [Face::Bottom, Face::Nx, Face::Pz];
            assert(faces@ =~= face_list(block_model.faces()));
            meshes.extend_with(block_pos, texture, &faces);
        },
        BlockModel::BottomPxNz(texture) => {
            let faces = [Face::Bottom, Face::Px, Face::Nz];
            assert(faces@ =~= face_list(block_model.faces()));
            meshes.extend_with(block_pos, texture, &faces);
        },
        BlockModel::BottomNxNz(texture) => {
            let faces = [Face::Bottom, Face::Nx, Face::Nz];
            assert(faces@ =~= face_list(block_model.faces()));
            meshes.extend_with(block_pos, texture, &faces);
        },
        BlockModel::TopPxDouble(..)
        | BlockModel::TopNxDouble(..)
        | BlockModel::TopPzDouble(..)
        | BlockModel::TopNzDouble(..)
        | BlockModel::BottomPxDouble(..)
        | BlockModel::BottomNxDouble(..)
        | BlockModel::BottomPzDouble(..)
        | BlockModel::BottomNzDouble(..)
        | BlockModel::TopPxPzDouble(..)
        | BlockModel::TopPxNzDouble(..)
        | BlockModel::TopNxPzDouble(..)
        | BlockModel::TopNxNzDouble(..)
        | BlockModel::BottomPxPzDouble(..)
        | BlockModel::BottomPxNzDouble(..)
        | BlockModel::BottomNxPzDouble(..)
        | BlockModel::BottomNxNzDouble(..) => {},
    }
}

/// Appends the quads of every block of one chunk model, walking the chunk by
/// `y`, then `x`, then `z`.
fn emit_chunk_model(meshes: &mut Meshes, chunk_pos: ChunkPos, chunk_model: &ChunkModel)
    requires
        old(meshes).wf(),
        chunk_pos.fits(),
        drawable(*chunk_model),
    ensures
        final(meshes).wf(),
        final(meshes).vertex_seq() == old(meshes).vertex_seq() + chunk_vertices(chunk_pos, *chunk_model),
        final(meshes).texture_handle() == old(meshes).texture_handle(),
{
    let world_pos = chunk_pos.to_block_pos();
    let mut y: usize = 0;
    while y < CHUNK_SIZE_16
        invariant
            y <= 16,
            chunk_pos.fits(),
            drawable(*chunk_model),
            world_pos.x == 16 * chunk_pos.x,
            world_pos.y == 16 * chunk_pos.y,
            world_pos.z == 16 * chunk_pos.z,
            meshes.wf(),
            meshes.texture_handle() == old(meshes).texture_handle(),
            meshes.vertex_seq() == old(meshes).vertex_seq() + chunk_vertices_upto(chunk_pos, *chunk_model, 256 * y),
        decreases 16 - y,
    {
        let mut x: usize = 0;
        while x < CHUNK_SIZE_16
            invariant
                y < 16,
                x <= 16,
                chunk_pos.fits(),
                drawable(*chunk_model),
                world_pos.x == 16 * chunk_pos.x,
                world_pos.y == 16 * chunk_pos.y,
                world_pos.z == 16 * chunk_pos.z,
                meshes.wf(),
                meshes.texture_handle() == old(meshes).texture_handle(),
                meshes.vertex_seq() == old(meshes).vertex_seq() + chunk_vertices_upto(
                    chunk_pos,
                    *chunk_model,
                    256 * y + 16 * x,
                ),
            decreases 16 - x,
        {
            let mut z: usize = 0;
            while z < CHUNK_SIZE_16
                invariant
                    y < 16,
                    x < 16,
                    z <= 16,
                    chunk_pos.fits(),
                    drawable(*chunk_model),
                    world_pos.x == 16 * chunk_pos.x,
                    world_pos.y == 16 * chunk_pos.y,
                    world_pos.z == 16 * chunk_pos.z,
                    meshes.wf(),
                    meshes.texture_handle() == old(meshes).texture_handle(),
                    meshes.vertex_seq() == old(meshes).vertex_seq() + chunk_vertices_upto(
                        chunk_pos,
                        *chunk_model,
                        256 * y + 16 * x + z,
                    ),
                decreases 16 - z,
            {
                let block_model: &BlockModel = chunk_model.get(x, y, z);
                let block_pos = BlockPos {
                    x: x as isize + world_pos.x,
                    y: y as isize + world_pos.y,
                    z: z as isize + world_pos.z,
                };
                proof {
                    lemma_walk_index(x as int, y as int, z as int);
                }
                emit_block(meshes, block_pos, block_model);
                assert(meshes.vertex_seq() =~= old(meshes).vertex_seq() + chunk_vertices_upto(
                    chunk_pos,
                    *chunk_model,
                    256 * y + 16 * x + z + 1,
                ));
                z += 1;
            }
            x += 1;
        }
        y += 1;
    }
}

/// Emits the quads of a sequence of chunk models into one pass of buffers
/// and cuts them into batches that all carry `atlas`. A chunk model that
/// draws nothing is passed over.
pub fn build_chunk_meshes(chunks: Vec<(ChunkPos, ChunkModel)>, atlas: Option<macroquad::texture::Texture2D>) -> (r: Vec<MeshBatch>)
    requires
        forall|i: int| 0 <= i < chunks.len() ==> (#[trigger] chunks[i]).0.fits() && drawable(chunks[i].1),
    ensures
        batched(all_vertices(chunks@), atlas, r@),
{
    let mut meshes = Meshes::new(atlas);
    let mut c: usize = 0;
    while c < chunks.len()
        invariant
            c <= chunks.len(),
            forall|i: int| 0 <= i < chunks.len() ==> (#[trigger] chunks[i]).0.fits() && drawable(chunks[i].1),
            meshes.wf(),
            meshes.texture_handle() == atlas,
            meshes.vertex_seq() == all_vertices(chunks@.take(c as int)),
        decreases chunks.len() - c,
    {
        let chunk_pos = chunks[c].0;
        let chunk_model = &chunks[c].1;
        if chunk_model.is_empty() {
            proof {
                lemma_empty_chunk_vertices(chunk_pos, *chunk_model, 4096);
            }
        } else {
            emit_chunk_model(&mut meshes, chunk_pos, chunk_model);
        }
        assert(chunks@.take(c + 1).drop_last() =~= chunks@.take(c as int));
        assert(meshes.vertex_seq() =~= all_vertices(chunks@.take(c + 1)));
        c += 1;
    }
    assert(chunks@.take(chunks.len() as int) =~= chunks@);
    meshes.into_iter()
}

/// The vertices of all batches, batch after batch.
pub open spec fn joined_vertices(batches: Seq<MeshBatch>) -> Seq<MeshVertex>
    decreases batches.len(),
{
    if batches.len() == 0 {
        Seq::empty()
    } else {
        joined_vertices(batches.drop_last()) + batches.last().vertices@
    }
}

/// The indices of all batches, each shifted by the number of vertices in
/// the batches before it.
pub open spec fn reassembled_indices(batches: Seq<MeshBatch>) -> Seq<int>
    decreases batches.len(),
{
    if batches.len() == 0 {
        Seq::empty()
    } else {
        let base = joined_vertices(batches.drop_last()).len();
        reassembled_indices(batches.drop_last()) + batches.last().indices@.map_values(
            |i: u16| i + base,
        )
    }
}

/// The index list of `q` quads held in one batch without a bound.
pub open spec fn unbounded_indices(q: int) -> Seq<int> {
    Seq::new((6 * q) as nat, |t: int| quad_index(t))
}

proof fn lemma_batch_starts_inside(n: int, k: int)
    requires
        0 <= n,
        0 <= k < batch_count(n),
    ensures
        VERT_CAP * k < n,
{
    vstd::arithmetic::div_mod::lemma_fundamental_div_mod(n + VERT_CAP - 1, VERT_CAP as int);
}

proof fn lemma_batches_cover(n: int)
    requires
        0 <= n,
    ensures
        VERT_CAP * batch_count(n) >= n,
        n > VERT_CAP ==> batch_count(n) >= 2,
{
    vstd::arithmetic::div_mod::lemma_fundamental_div_mod(n + VERT_CAP - 1, VERT_CAP as int);
}

/// The index list of the quads of vertices `s..e`, numbered from `s`, and
/// shifted back by `s`, continues the index list of the quads before `s`.
proof fn lemma_shifted_batch_indices(s: int, e: int)
    requires
        0 <= s <= e,
        e - s <= VERT_CAP,
        s % 4 == 0,
        e % 4 == 0,
    ensures
        unbounded_indices(s / 4) + local_indices((e - s) / 4).map_values(|i: u16| i + s)
            =~= unbounded_indices(e / 4),
{
    let shifted = local_indices((e - s) / 4).map_values(|i: u16| i + s);
    let whole = unbounded_indices(e / 4);
    assert forall|t: int| 0 <= t < whole.len() implies #[trigger] (unbounded_indices(s / 4)
        + shifted)[t] == whole[t] by {
        if t >= 6 * (s / 4) {
            let u = t - 6 * (s / 4);
            lemma_quad_index_shift(s / 4, u);
            assert(quad_index(u) <= 4 * (u / 6) + 3);
            assert(shifted[u] == (quad_index(u) as u16) + s);
        }
    }
}

#[verifier::rlimit(50)]
proof fn lemma_reassemble_prefix(
    vs: Seq<MeshVertex>,
    texture: Option<macroquad::texture::Texture2D>,
    batches: Seq<MeshBatch>,
    k: int,
)
    requires
        vs.len() % 4 == 0,
        batched(vs, texture, batches),
        0 <= k <= batches.len(),
    ensures
        joined_vertices(batches.take(k)) == vs.take(
            if VERT_CAP * k < vs.len() { VERT_CAP * k } else { vs.len() as int },
        ),
        reassembled_indices(batches.take(k)) == unbounded_indices(
            (if VERT_CAP * k < vs.len() { VERT_CAP * k } else { vs.len() as int }) / 4,
        ),
    decreases k,
{
    let n = vs.len() as int;
    if k == 0 {
        assert(joined_vertices(batches.take(0)) =~= vs.take(0));
        assert(reassembled_indices(batches.take(0)) =~= unbounded_indices(0));
    } else {
        let j = k - 1;
        lemma_reassemble_prefix(vs, texture, batches, j);
        lemma_batch_starts_inside(n, j);
        let s = VERT_CAP * j;
        let e = batch_end(n, j);
        let batch = batches[j];
        assert(batch_matches(vs, texture, batch, j));
        assert(batches.take(k).drop_last() =~= batches.take(j));
        assert(batches.take(k).last() == batch);
        assert(joined_vertices(batches.take(j)).len() == s);
        assert(joined_vertices(batches.take(k)) =~= vs.take(e));
        let shifted = batch.indices@.map_values(|i: u16| i + s);
        let whole = unbounded_indices(e / 4);
        assert(s % 4 == 0);
        assert(e % 4 == 0);
        assert(reassembled_indices(batches.take(k)) == unbounded_indices(s / 4) + shifted);
        lemma_shifted_batch_indices(s, e);
        assert(reassembled_indices(batches.take(k)) =~= whole);
    }
}

/// Cutting into batches keeps every batch under both caps, makes at least
/// two batches of more vertices than one batch holds, and loses nothing:
/// the batches' vertices put back together are the vertices that were cut, and
/// their indices, each shifted by the vertices of the batches before it,
/// are the index list of a single unbounded batch.
pub proof fn batches_reassemble(
    vs: Seq<MeshVertex>,
    texture: Option<macroquad::texture::Texture2D>,
    batches: Seq<MeshBatch>,
)
    requires
        vs.len() % 4 == 0,
        batched(vs, texture, batches),
    ensures
        forall|b: int|
            0 <= b < batches.len() ==> (#[trigger] batches[b]).vertices.len() <= VERT_CAP
                && batches[b].indices.len() <= IND_CAP,
        vs.len() > VERT_CAP ==> batches.len() >= 2,
        joined_vertices(batches) == vs,
        reassembled_indices(batches) == unbounded_indices(vs.len() as int / 4),
{
    let n = vs.len() as int;
    lemma_batches_cover(n);
    lemma_reassemble_prefix(vs, texture, batches, batches.len() as int);
    assert(batches.take(batches.len() as int) =~= batches);
    assert(vs.take(n) =~= vs);
    assert forall|b: int| 0 <= b < batches.len() implies (#[trigger] batches[b]).vertices.len()
        <= VERT_CAP && batches[b].indices.len() <= IND_CAP by {
        assert(batch_matches(vs, texture, batches[b], b));
    }
}

/// Only the block `(x, y, z)` of `model` may draw anything.
pub open spec fn only_block_drawn(model: ChunkModel, x: int, y: int, z: int) -> bool {
    forall|i: int, j: int, k: int|
        in_chunk(i, j, k) && !(i == x && j == y && k == z) ==> #[trigger] model.model_at(i, j, k)
            == BlockModel::Empty
}

#[verifier::rlimit(50)]
proof fn lemma_lone_block_prefix(cp: ChunkPos, model: ChunkModel, x: int, y: int, z: int, l: int)
    requires
        in_chunk(x, y, z),
        only_block_drawn(model, x, y, z),
        0 <= l <= 4096,
    ensures
        chunk_vertices_upto(cp, model, l) == (if l > 256 * y + 16 * x + z {
            block_vertices(model.model_at(x, y, z), world_block_pos(cp, x, y, z))
        } else {
            Seq::empty()
        }),
    decreases l,
{
    if l > 0 {
        let i = l - 1;
        lemma_lone_block_prefix(cp, model, x, y, z, i);
        vstd::arithmetic::div_mod::lemma_fundamental_div_mod(i, 256);
        vstd::arithmetic::div_mod::lemma_fundamental_div_mod(i, 16);
        vstd::arithmetic::div_mod::lemma_fundamental_div_mod(i / 16, 16);
        assert(in_chunk(walk_x(i), walk_y(i), walk_z(i)));
        assert(i == 256 * walk_y(i) + 16 * walk_x(i) + walk_z(i));
        lemma_walk_index(x, y, z);
        if i == 256 * y + 16 * x + z {
            assert(chunk_vertices_upto(cp, model, i) =~= Seq::<MeshVertex>::empty());
            assert(chunk_vertices_upto(cp, model, l) =~= block_vertices(
                model.model_at(x, y, z),
                world_block_pos(cp, x, y, z),
            ));
        } else {
            assert(model.model_at(walk_x(i), walk_y(i), walk_z(i)) == BlockModel::Empty);
            assert(chunk_vertices_upto(cp, model, l) =~= chunk_vertices_upto(cp, model, i));
        }
    }
}

/// A chunk model that draws a single `Top` face emits one batch of four
/// vertices and six indices. The four vertices lie in the plane one above
/// the block, at the corners of its top face; each carries a different
/// corner of the face's texture, the upward normal and white.
pub proof fn lone_top_face_batch(
    cp: ChunkPos,
    model: ChunkModel,
    x: int,
    y: int,
    z: int,
    t: UvTexture,
    atlas: Option<macroquad::texture::Texture2D>,
    batches: Seq<MeshBatch>,
)
    requires
        cp.fits(),
        in_chunk(x, y, z),
        model.model_at(x, y, z) == BlockModel::Top(t),
        only_block_drawn(model, x, y, z),
        batched(all_vertices(seq![(cp, model)]), atlas, batches),
    ensures
        batches.len() == 1,
        batches[0].vertices@ == face_quad(Face::Top, world_block_pos(cp, x, y, z), t),
        batches[0].indices@ == seq![0u16, 1, 2, 0, 3, 2],
        forall|v: int| 0 <= v < 4 ==> (#[trigger] batches[0].vertices@[v]).position.y == 16 * cp.y + y + 1,
        batches[0].vertices@[0].uv == t.spec_low_left(),
        batches[0].vertices@[1].uv == t.spec_low_right(),
        batches[0].vertices@[2].uv == t.spec_up_right(),
        batches[0].vertices@[3].uv == t.spec_up_left(),
        forall|v: int| 0 <= v < 4 ==> (#[trigger] batches[0].vertices@[v]).normal == (Normal { x: 0, y: 1, z: 0 }),
        forall|v: int| 0 <= v < 4 ==> (#[trigger] batches[0].vertices@[v]).color == white(),
{
    let pos = world_block_pos(cp, x, y, z);
    lemma_lone_block_prefix(cp, model, x, y, z, 4096);
    let faces = face_list(BlockModel::Top(t).faces());
    assert(faces =~= seq![Face::Top]);
    assert(faces.drop_last() =~= Seq::<Face>::empty());
    assert(faces.last() == Face::Top);
    assert(quads_of(faces.drop_last(), pos, t) =~= Seq::<MeshVertex>::empty());
    assert(quads_of(faces, pos, t) =~= face_quad(Face::Top, pos, t));
    let chunks = seq![(cp, model)];
    assert(chunks.drop_last() =~= Seq::<(ChunkPos, ChunkModel)>::empty());
    let vs = all_vertices(chunks);
    assert(all_vertices(chunks.drop_last()) =~= Seq::<MeshVertex>::empty());
    assert(chunks.last() == (cp, model));
    assert(block_vertices(model.model_at(x, y, z), pos) == quads_of(faces, pos, t));
    assert(vs =~= face_quad(Face::Top, pos, t));
    assert(batch_count(4) == 1);
    assert(batch_matches(vs, atlas, batches[0], 0));
    assert(vs.subrange(0, 4) =~= vs);
    lemma_quad_index(0, 0);
    lemma_quad_index(0, 1);
    lemma_quad_index(0, 2);
    lemma_quad_index(0, 3);
    lemma_quad_index(0, 4);
    lemma_quad_index(0, 5);
    assert(batches[0].indices@ =~= seq![0u16, 1, 2, 0, 3, 2]);
}

} // verus!
