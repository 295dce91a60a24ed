use vstd::prelude::*;

verus! {

/// Edge length of a chunk, in blocks.
pub const CHUNK_SIZE_16: usize = 16;

/// The material of one block. Only `Air` is transparent.
#[derive(Debug, Clone, Copy, PartialEq, Eq, Structural)]
pub enum BlockType {
    Air,
    Dirt,
    Grass,
    Stone,
    Sand,
}

impl BlockType {
    pub fn is_empty(&self) -> (r: bool)
        ensures
            r == (*self == BlockType::Air),
    {
        matches!(self, BlockType::Air)
    }
}

impl Default for BlockType {
    fn default() -> (r: Self)
        ensures
            r == BlockType::Air,
    {
        BlockType::Air
    }
}

/// The content of one cell of a chunk.
#[derive(Debug, Clone, Copy, PartialEq, Eq, Structural)]
pub struct BlockState {
    pub block_type: BlockType,
}

impl BlockState {
    pub fn new(block_type: BlockType) -> (r: Self)
        ensures
            r.block_type == block_type,
    {
        Self { block_type }
    }

    pub open spec fn spec_is_empty(&self) -> bool {
        self.block_type == BlockType::Air
    }

    pub fn is_empty(&self) -> (r: bool)
        ensures
            r == self.spec_is_empty(),
    {
        self.block_type.is_empty()
    }
}

impl Default for BlockState {
    fn default() -> (r: Self)
        ensures
            r.block_type == BlockType::Air,
    {
        BlockState::new(BlockType::Air)
    }
}

/// The air block.
pub open spec fn air() -> BlockState {
    BlockState { block_type: BlockType::Air }
}

/// Biome tag of a chunk; rendering does not read it.
#[derive(Debug, Clone, Copy, PartialEq, Eq, Structural)]
pub enum Biome {
    Plains,
    Desert,
    Forest,
    Jungle,
}

impl Default for Biome {
    fn default() -> (r: Self)
        ensures
            r == Biome::Plains,
    {
        Biome::Plains
    }
}

/// One horizontal layer of a chunk, indexed by `(x, z)`.
#[derive(Debug, Clone, Copy, PartialEq, Eq)]
pub struct ChunkLayer(pub [[BlockState; CHUNK_SIZE_16]; CHUNK_SIZE_16]);

/// Both coordinates lie inside a layer.
pub open spec fn in_layer(x: int, z: int) -> bool {
    0 <= x < 16 && 0 <= z < 16
}

/// All three coordinates lie inside a chunk.
pub open spec fn in_chunk(x: int, y: int, z: int) -> bool {
    0 <= x < 16 && 0 <= y < 16 && 0 <= z < 16
}

impl ChunkLayer {
    /// The block at `(x, z)`.
    pub open spec fn at(&self, x: int, z: int) -> BlockState {
        self.0[x][z]
    }

    pub open spec fn spec_is_empty(&self) -> bool {
        forall|x: int, z: int| in_layer(x, z) ==> #[trigger] self.at(x, z).spec_is_empty()
    }

    pub fn new(inner: [[BlockState; CHUNK_SIZE_16]; CHUNK_SIZE_16]) -> (r: Self)
        ensures
            r.0 == inner,
    {
        Self(inner)
    }

    /// A layer of air.
    pub fn empty() -> (r: Self)
        ensures
            forall|x: int, z: int| in_layer(x, z) ==> #[trigger] r.at(x, z) == air(),
    {
        let air_state = BlockState::new(BlockType::Air);
        let row = [air_state; CHUNK_SIZE_16];
        let r = ChunkLayer([row; CHUNK_SIZE_16]);
        assert forall|x: int, z: int| in_layer(x, z) implies #[trigger] r.at(x, z)
            == air() by {
            assert(r.0[x] == row);
        }
        r
    }

    /// Builds a layer by calling `func(x, z)` for every cell, `x` outer and `z` inner.
    pub fn from_fn(func: impl Fn(usize, usize) -> BlockState) -> (r: Self)
        requires
            forall|x: usize, z: usize| x < 16 && z < 16 ==> func.requires((x, z)),
        ensures
            forall|x: usize, z: usize|
                x < 16 && z < 16 ==> func.ensures((x, z), #[trigger] r.at(x as int, z as int)),
    {
        let mut layer = ChunkLayer::empty();
        let mut x: usize = 0;
        while x < CHUNK_SIZE_16
            invariant
                x <= 16,
                forall|x: usize, z: usize| x < 16 && z < 16 ==> func.requires((x, z)),
                forall|i: usize, k: usize|
                    i < x && k < 16 ==> func.ensures((i, k), #[trigger] layer.at(i as int, k as int)),
            decreases 16 - x,
        {
            let mut z: usize = 0;
            while z < CHUNK_SIZE_16
                invariant
                    x < 16,
                    z <= 16,
                    forall|x: usize, z: usize| x < 16 && z < 16 ==> func.requires((x, z)),
                    forall|i: usize, k: usize|
                        i < x && k < 16 ==> func.ensures((i, k), #[trigger] layer.at(i as int, k as int)),
                    forall|k: usize| k < z ==> func.ensures((x, k), #[trigger] layer.at(x as int, k as int)),
                decreases 16 - z,
            {
                let b = func(x, z);
                *layer.get_mut(x, z) = b;
                z += 1;
            }
            x += 1;
        }
        layer
    }

    /// Sets every cell to `state`.
    pub fn fill(&mut self, state: BlockState)
        ensures
            forall|x: int, z: int| in_layer(x, z) ==> #[trigger] final(self).at(x, z) == state,
    {
        let mut x: usize = 0;
        while x < CHUNK_SIZE_16
            invariant
                x <= 16,
                forall|i: int, k: int| 0 <= i < x && 0 <= k < 16 ==> #[trigger] self.at(i, k) == state,
            decreases 16 - x,
        {
            let mut z: usize = 0;
            while z < CHUNK_SIZE_16
                invariant
                    x < 16,
                    z <= 16,
                    forall|i: int, k: int| 0 <= i < x && 0 <= k < 16 ==> #[trigger] self.at(i, k) == state,
                    forall|k: int| 0 <= k < z ==> #[trigger] self.at(x as int, k) == state,
                decreases 16 - z,
            {
                *self.get_mut(x, z) = state;
                z += 1;
            }
            x += 1;
        }
    }

    pub fn get(&self, x: usize, z: usize) -> (r: &BlockState)
        requires
            x < 16,
            z < 16,
        ensures
            *r == self.at(x as int, z as int),
    {
        &self.0[x][z]
    }

    pub fn get_mut(&mut self, x: usize, z: usize) -> (r: &mut BlockState)
        requires
            x < 16,
            z < 16,
        ensures
            *r == old(self).at(x as int, z as int),
            forall|i: int, k: int|
                in_layer(i, k) ==> #[trigger] final(self).at(i, k) == (if i == x && k == z {
                    *final(r)
                } else {
                    old(self).at(i, k)
                }),
    {
        &mut self.0[x][z]
    }

    /// Whether every cell is air.
    pub fn is_empty(&self) -> (r: bool)
        ensures
            r == self.spec_is_empty(),
    {
        let mut x: usize = 0;
        while x < CHUNK_SIZE_16
            invariant
                x <= 16,
                forall|i: int, k: int| 0 <= i < x && 0 <= k < 16 ==> #[trigger] self.at(i, k).spec_is_empty(),
            decreases 16 - x,
        {
            let mut z: usize = 0;
            while z < CHUNK_SIZE_16
                invariant
                    x < 16,
                    z <= 16,
                    forall|i: int, k: int| 0 <= i < x && 0 <= k < 16 ==> #[trigger] self.at(i, k).spec_is_empty(),
                    forall|k: int| 0 <= k < z ==> #[trigger] self.at(x as int, k).spec_is_empty(),
                decreases 16 - z,
            {
                if !self.get(x, z).is_empty() {
                    return false;
                }
                z += 1;
            }
            x += 1;
        }
        true
    }
}

/// A 16 x 16 x 16 cube of blocks, stored as layers by height.
#[derive(Debug, Clone, Copy, PartialEq, Eq)]
pub struct Chunk {
    pub biome: Biome,
    pub blocks: [ChunkLayer; CHUNK_SIZE_16],
}

impl Chunk {
    /// The block at `(x, y, z)`.
    pub open spec fn block(&self, x: int, y: int, z: int) -> BlockState {
        self.blocks[y].at(x, z)
    }

    /// A chunk of air.
    pub fn empty() -> (r: Chunk)
        ensures
            r.biome == Biome::Plains,
            forall|x: int, y: int, z: int| in_chunk(x, y, z) ==> #[trigger] r.block(x, y, z)
                == air(),
    {
        let layer = ChunkLayer::empty();
        let r = Chunk { biome: Biome::Plains, blocks: [layer; CHUNK_SIZE_16] };
        assert forall|x: int, y: int, z: int| in_chunk(x, y, z) implies #[trigger] r.block(x, y, z)
            == air() by {
            assert(r.blocks[y] == layer);
        }
        r
    }

    /// Builds a chunk by calling `func(x, y, z)` for every cell, `y` outer, then `x`, then `z`.
    pub fn from_fn(func: impl Fn(usize, usize, usize) -> BlockState) -> (r: Chunk)
        requires
            forall|x: usize, y: usize, z: usize| x < 16 && y < 16 && z < 16 ==> func.requires((x, y, z)),
        ensures
            r.biome == Biome::Plains,
            forall|x: usize, y: usize, z: usize|
                x < 16 && y < 16 && z < 16 ==> func.ensures(
                    (x, y, z),
                    #[trigger] r.block(x as int, y as int, z as int),
                ),
    {
        let mut chunk = Chunk::empty();
        let mut y: usize = 0;
        while y < CHUNK_SIZE_16
            invariant
                y <= 16,
                chunk.biome == Biome::Plains,
                forall|x: usize, y: usize, z: usize| x < 16 && y < 16 && z < 16 ==> func.requires((x, y, z)),
                forall|i: usize, j: usize, k: usize|
                    i < 16 && j < y && k < 16 ==> func.ensures(
                        (i, j, k),
                        #[trigger] chunk.block(i as int, j as int, k as int),
                    ),
            decreases 16 - y,
        {
            let mut x: usize = 0;
            while x < CHUNK_SIZE_16
                invariant
                    y < 16,
                    x <= 16,
                    chunk.biome == Biome::Plains,
                    forall|x: usize, y: usize, z: usize| x < 16 && y < 16 && z < 16 ==> func.requires((x, y, z)),
                    forall|i: usize, j: usize, k: usize|
                        i < 16 && j < y && k < 16 ==> func.ensures(
                            (i, j, k),
                            #[trigger] chunk.block(i as int, j as int, k as int),
                        ),
                    forall|i: usize, k: usize|
                        i < x && k < 16 ==> func.ensures(
                            (i, y, k),
                            #[trigger] chunk.block(i as int, y as int, k as int),
                        ),
                decreases 16 - x,
            {
                let mut z: usize = 0;
                while z < CHUNK_SIZE_16
                    invariant
                        y < 16,
                        x < 16,
                        z <= 16,
                        chunk.biome == Biome::Plains,
                        forall|x: usize, y: usize, z: usize|
                            x < 16 && y < 16 && z < 16 ==> func.requires((x, y, z)),
                        forall|i: usize, j: usize, k: usize|
                            i < 16 && j < y && k < 16 ==> func.ensures(
                                (i, j, k),
                                #[trigger] chunk.block(i as int, j as int, k as int),
                            ),
                        forall|i: usize, k: usize|
                            i < x && k < 16 ==> func.ensures(
                                (i, y, k),
                                #[trigger] chunk.block(i as int, y as int, k as int),
                            ),
                        forall|k: usize|
                            k < z ==> func.ensures(
                                (x, y, k),
                                #[trigger] chunk.block(x as int, y as int, k as int),
                            ),
                    decreases 16 - z,
                {
                    let b = func(x, y, z);
                    *chunk.get_mut(x, y, z) = b;
                    z += 1;
                }
                x += 1;
            }
            y += 1;
        }
        chunk
    }

    /// Sets every cell to `state`.
    pub fn fill(&mut self, state: BlockState)
        ensures
            final(self).biome == old(self).biome,
            forall|x: int, y: int, z: int| in_chunk(x, y, z) ==> #[trigger] final(self).block(x, y, z)
                == state,
    {
        let mut y: usize = 0;
        while y < CHUNK_SIZE_16
            invariant
                y <= 16,
                self.biome == old(self).biome,
                forall|i: int, j: int, k: int| 0 <= i < 16 && 0 <= j < y && 0 <= k < 16 ==> #[trigger] self.block(i, j, k) == state,
            decreases 16 - y,
        {
            let mut layer = self.blocks[y];
            layer.fill(state);
            let ghost before = *self;
            self.blocks[y] = layer;
            assert forall|i: int, j: int, k: int|
                0 <= i < 16 && 0 <= j <= y && 0 <= k < 16 implies #[trigger] self.block(i, j, k) == state by {
                if j < y {
                    assert(self.blocks[j] == before.blocks[j]);
                    assert(before.block(i, j, k) == state);
                } else {
                    assert(self.blocks[j] == layer);
                    assert(layer.at(i, k) == state);
                }
            }
            y += 1;
        }
    }

    pub fn get(&self, x: usize, y: usize, z: usize) -> (r: &BlockState)
        requires
            x < 16,
            y < 16,
            z < 16,
        ensures
            *r == self.block(x as int, y as int, z as int),
    {
        self.blocks[y].get(x, z)
    }

    pub fn get_mut(&mut self, x: usize, y: usize, z: usize) -> (r: &mut BlockState)
        requires
            x < 16,
            y < 16,
            z < 16,
        ensures
            *r == old(self).block(x as int, y as int, z as int),
            final(self).biome == old(self).biome,
            forall|i: int, j: int, k: int|
                in_chunk(i, j, k) ==> #[trigger] final(self).block(i, j, k) == (if i == x && j == y
                    && k == z {
                    *final(r)
                } else {
                    old(self).block(i, j, k)
                }),
    {
        self.blocks[y].get_mut(x, z)
    }
}

impl Default for Chunk {
    fn default() -> (r: Self)
        ensures
            r.biome == Biome::Plains,
            forall|x: int, y: int, z: int| in_chunk(x, y, z) ==> #[trigger] r.block(x, y, z)
                == air(),
    {
        Chunk::empty()
    }
}

} // verus!
