//! Voxels, the chunk that stores them, and coordinates inside a chunk.

use vstd::prelude::*;

verus! {

/// Size of chunk in x-direction.
pub const CHUNK_SIZE_X: i32 = 16;

/// Size of chunk in y-direction.
pub const CHUNK_SIZE_Y: i32 = 16;

/// Size of chunk in z-direction.
pub const CHUNK_SIZE_Z: i32 = 16;

/// Total voxel volume of a chunk.
pub const CHUNK_VOLUME: usize = 4096;

/// A position in voxel units, inside a chunk or of a chunk itself.
#[derive(Copy, Clone, Debug, PartialEq, Eq, Structural)]
pub struct Coordinate {
    pub x: i32,
    pub y: i32,
    pub z: i32,
}

impl Coordinate {
    /// The coordinate lies inside a chunk.
    pub open spec fn is_local(&self) -> bool {
        &&& 0 <= self.x < CHUNK_SIZE_X
        &&& 0 <= self.y < CHUNK_SIZE_Y
        &&& 0 <= self.z < CHUNK_SIZE_Z
    }

    /// The storage index of the coordinate: x runs fastest, then z, then y.
    pub open spec fn spec_index(&self) -> int {
        self.x + self.z * CHUNK_SIZE_X + self.y * CHUNK_SIZE_X * CHUNK_SIZE_Z
    }

    /// The storage index can be computed in 32 bits and is not negative.
    pub open spec fn index_fits(&self) -> bool {
        &&& i32::MIN <= self.z * CHUNK_SIZE_X <= i32::MAX
        &&& i32::MIN <= self.x + self.z * CHUNK_SIZE_X <= i32::MAX
        &&& i32::MIN <= self.y * CHUNK_SIZE_X * CHUNK_SIZE_Z <= i32::MAX
        &&& 0 <= self.spec_index() <= i32::MAX
    }

    /// The local coordinate that is stored at `index`.
    pub open spec fn at_index(index: int) -> Coordinate {
        Coordinate {
            x: (index % 16) as i32,
            y: (index / 256) as i32,
            z: ((index / 16) % 16) as i32,
        }
    }

    /// The coordinate after this one in storage order, if that is still
    /// inside the chunk.
    pub open spec fn spec_next(&self) -> Option<Coordinate> {
        if self.x + 1 < CHUNK_SIZE_X {
            Some(Coordinate { x: (self.x + 1) as i32, y: self.y, z: self.z })
        } else if self.z + 1 < CHUNK_SIZE_Z {
            Some(
                Coordinate {
                    x: (self.x + 1 - CHUNK_SIZE_X) as i32,
                    y: self.y,
                    z: (self.z + 1) as i32,
                },
            )
        } else if self.y + 1 < CHUNK_SIZE_Y {
            Some(
                Coordinate {
                    x: (self.x + 1 - CHUNK_SIZE_X) as i32,
                    y: (self.y + 1) as i32,
                    z: (self.z + 1 - CHUNK_SIZE_Z) as i32,
                },
            )
        } else {
            None
        }
    }

    /// The steps that `get_next_local_voxel_coord` takes stay within 32 bits.
    pub open spec fn next_fits(&self) -> bool {
        &&& self.x < i32::MAX
        &&& self.x + 1 >= CHUNK_SIZE_X ==> self.z < i32::MAX
        &&& self.x + 1 >= CHUNK_SIZE_X && self.z + 1 >= CHUNK_SIZE_Z ==> self.y < i32::MAX
    }

    /// The storage index of the coordinate.
    pub fn as_index(&self) -> (index: usize)
        requires
            self.index_fits(),
        ensures
            index == self.spec_index(),
            self.is_local() ==> index < CHUNK_VOLUME,
    {
        let row: i32 = self.z * CHUNK_SIZE_X;
        let layer: i32 = self.y * CHUNK_SIZE_X * CHUNK_SIZE_Z;
        let index: i32 = self.x + row + layer;
        index as usize
    }

    /// The origin.
    pub fn zero() -> (origin: Self)
        ensures
            origin == (Coordinate { x: 0, y: 0, z: 0 }),
    {
        Coordinate { x: 0, y: 0, z: 0 }
    }

    /// The coordinate that follows this one in storage order, or `None`
    /// after the last one of the chunk.
    pub fn get_next_local_voxel_coord(&self) -> (next: Option<Coordinate>)
        requires
            self.next_fits(),
        ensures
            next == self.spec_next(),
    {
        let mut x: i32 = self.x;
        let mut y: i32 = self.y;
        let mut z: i32 = self.z;
        x += 1;
        if x >= CHUNK_SIZE_X {
            x -= CHUNK_SIZE_X;
            z += 1;
            if z >= CHUNK_SIZE_Z {
                z -= CHUNK_SIZE_Z;
                y += 1;
                if y >= CHUNK_SIZE_Y {
                    return None;
                }
            }
        }
        Some(Self { x, y, z })
    }

    /// The coordinate moved by a displacement.
    pub fn displaced(&self, by: &Displacement) -> (moved: Coordinate)
        requires
            i32::MIN <= self.x + by.x <= i32::MAX,
            i32::MIN <= self.y + by.y <= i32::MAX,
            i32::MIN <= self.z + by.z <= i32::MAX,
        ensures
            moved.x == self.x + by.x,
            moved.y == self.y + by.y,
            moved.z == self.z + by.z,
    {
        Coordinate { x: self.x + by.x, y: self.y + by.y, z: self.z + by.z }
    }

    /// A local coordinate has a storage index inside the chunk, and is the
    /// coordinate stored at that index.
    pub proof fn lemma_local_index(&self)
        requires
            self.is_local(),
        ensures
            self.index_fits(),
            self.next_fits(),
            0 <= self.spec_index() < CHUNK_VOLUME,
            Self::at_index(self.spec_index()) == *self,
    {
    }

    /// Inside a chunk the next coordinate is the one stored at the next index.
    pub proof fn lemma_next_is_next_index(&self)
        requires
            self.is_local(),
        ensures
            match self.spec_next() {
                Some(next) => next.is_local() && next.spec_index() == self.spec_index() + 1,
                None => self.spec_index() + 1 == CHUNK_VOLUME,
            },
    {
    }
}

/// The material of one voxel.
#[derive(Clone, Copy, Debug, PartialEq, Eq, Structural)]
pub enum Voxel {
    Air,
    Grass,
    Dirt,
}

impl Voxel {
    /// Whether the voxel is empty space.
    pub fn is_air(&self) -> (air: bool)
        ensures
            air == (*self == Voxel::Air),
    {
        matches!(*self, Voxel::Air)
    }
}

/// A cube of voxels at a chunk coordinate.
pub struct Chunk {
    pub coord: Coordinate,
    voxels: Vec<Voxel>,
}

impl View for Chunk {
    type V = Seq<Voxel>;

    /// The voxels in storage order.
    closed spec fn view(&self) -> Seq<Voxel> {
        self.voxels@
    }
}

impl Chunk {
    /// The chunk coordinate, as the field `coord` holds it.
    pub closed spec fn position(&self) -> Coordinate {
        self.coord
    }

    /// The chunk stores exactly [`CHUNK_VOLUME`] voxels.
    pub open spec fn wf(&self) -> bool {
        self@.len() == CHUNK_VOLUME
    }

    /// The voxel at a coordinate, if the coordinate lies inside the chunk.
    pub open spec fn voxel_at(&self, coord: Coordinate) -> Option<Voxel> {
        if coord.is_local() {
            Some(self@[coord.spec_index()])
        } else {
            None
        }
    }

    /// A chunk of air at the chunk coordinate `(x, y, z)`.
    pub fn new(x: i32, y: i32, z: i32) -> (chunk: Self)
        ensures
            chunk.wf(),
            chunk.position() == (Coordinate { x, y, z }),
            forall|i: int| 0 <= i < CHUNK_VOLUME ==> chunk@[i] == Voxel::Air,
    {
        let mut voxels: Vec<Voxel> = Vec::new();
        while voxels.len() < CHUNK_VOLUME
            invariant
                voxels@.len() <= CHUNK_VOLUME,
                forall|i: int| 0 <= i < voxels@.len() ==> voxels@[i] == Voxel::Air,
            decreases CHUNK_VOLUME - voxels@.len(),
        {
            voxels.push(Voxel::Air);
        }
        Chunk { coord: Coordinate { x, y, z }, voxels }
    }

    /// Cursor over all voxels with their local coordinates, in storage order.
    pub fn iter(&self) -> (iter: ChunkIter<'_>)
        requires
            self.wf(),
        ensures
            iter.wf(),
            iter.voxels() == self@,
            iter.position() == 0,
    {
        ChunkIter { chunk: self, coord: Some(Coordinate::zero()) }
    }

    /// The voxel at a local coordinate, or `None` outside the chunk.
    pub fn get_voxel(&self, coord: Coordinate) -> (voxel: Option<&Voxel>)
        requires
            self.wf(),
        ensures
            match voxel {
                Some(v) => self.voxel_at(coord) == Some(*v),
                None => self.voxel_at(coord).is_none(),
            },
    {
        if coord.x < 0 || coord.x >= CHUNK_SIZE_X || coord.y < 0 || coord.y >= CHUNK_SIZE_Y
            || coord.z < 0 || coord.z >= CHUNK_SIZE_Z {
            None
        } else {
            proof {
                coord.lemma_local_index();
            }
            Some(&self.voxels[coord.as_index()])
        }
    }

    /// Store a voxel at a local coordinate. Returns `false`, and changes
    /// nothing, outside the chunk.
    pub fn set_voxel(&mut self, coord: Coordinate, voxel: Voxel) -> (stored: bool)
        requires
            old(self).wf(),
        ensures
            final(self).wf(),
            final(self).position() == old(self).position(),
            stored == coord.is_local(),
            stored ==> final(self)@ == old(self)@.update(coord.spec_index(), voxel),
            !stored ==> final(self)@ == old(self)@,
    {
        if coord.x < 0 || coord.x >= CHUNK_SIZE_X || coord.y < 0 || coord.y >= CHUNK_SIZE_Y
            || coord.z < 0 || coord.z >= CHUNK_SIZE_Z {
            false
        } else {
            proof {
                coord.lemma_local_index();
            }
            let index: usize = coord.as_index();
            self.voxels.set(index, voxel);
            true
        }
    }

    /// Whether the face of the voxel at `coord` that looks along `axis` is
    /// exposed: the voxel is solid and its neighbour on that side is air or
    /// lies outside the chunk.
    pub open spec fn face_exposed(&self, coord: Coordinate, axis: Axis) -> bool {
        let step = axis.spec_displacement();
        let neighbour = Coordinate {
            x: (coord.x + step.x) as i32,
            y: (coord.y + step.y) as i32,
            z: (coord.z + step.z) as i32,
        };
        &&& coord.is_local()
        &&& self.voxel_at(coord) != Some(Voxel::Air)
        &&& (self.voxel_at(neighbour) == Some(Voxel::Air) || self.voxel_at(neighbour).is_none())
    }

    /// Whether the face of the voxel at the local coordinate `coord` that
    /// looks along `axis` is exposed.
    pub fn is_face_exposed(&self, coord: Coordinate, axis: Axis) -> (exposed: bool)
        requires
            self.wf(),
            coord.is_local(),
        ensures
            exposed == self.face_exposed(coord, axis),
    {
        let solid: bool = match self.get_voxel(coord) {
            Some(voxel) => !voxel.is_air(),
            None => false,
        };
        if !solid {
            return false;
        }
        let step = axis.as_displacement();
        let neighbour = coord.displaced(&step);
        match self.get_voxel(neighbour) {
            Some(voxel) => voxel.is_air(),
            None => true,
        }
    }
}

/// All local coordinates in storage order.
pub open spec fn local_coordinates() -> Seq<Coordinate> {
    Seq::new(CHUNK_VOLUME as nat, |index: int| Coordinate::at_index(index))
}

impl Chunk {
    /// The local coordinates, in storage order, of the voxels whose face
    /// along `axis` is exposed.
    pub open spec fn spec_exposed_faces(&self, axis: Axis) -> Seq<Coordinate> {
        local_coordinates().filter(|coord: Coordinate| self.face_exposed(coord, axis))
    }

    /// The local coordinates, in storage order, of the voxels whose face
    /// along `axis` is exposed: these are the faces that a mesh of the
    /// chunk shows on that side.
    pub fn exposed_faces(&self, axis: Axis) -> (faces: Vec<Coordinate>)
        requires
            self.wf(),
        ensures
            faces@ == self.spec_exposed_faces(axis),
    {
        let mut faces: Vec<Coordinate> = Vec::new();
        let mut iter = self.iter();
        let mut next = iter.next();
        let ghost mut count: int = 0;
        let ghost exposed = |coord: Coordinate| self.face_exposed(coord, axis);
        proof {
            assert(local_coordinates().take(0) =~= Seq::<Coordinate>::empty());
            assert(Seq::<Coordinate>::empty().filter(exposed) =~= Seq::<Coordinate>::empty())
                by {
                reveal(Seq::filter);
            }
        }
        while next.is_some()
            invariant
                self.wf(),
                iter.wf(),
                iter.voxels() == self@,
                0 <= count <= CHUNK_VOLUME,
                exposed == |coord: Coordinate| self.face_exposed(coord, axis),
                match next {
                    Some((coord, _)) => count < CHUNK_VOLUME && coord == Coordinate::at_index(count)
                        && coord.is_local() && iter.position() == count + 1,
                    None => count == CHUNK_VOLUME,
                },
                faces@ == local_coordinates().take(count).filter(exposed),
            decreases CHUNK_VOLUME - count,
        {
            let (coord, _) = next.unwrap();
            let shows: bool = self.is_face_exposed(coord, axis);
            if shows {
                faces.push(coord);
            }
            proof {
                let before = local_coordinates().take(count);
                let longer = local_coordinates().take(count + 1);
                assert(longer.drop_last() =~= before);
                assert(longer.last() == coord);
                assert(longer.filter(exposed) == if exposed(coord) {
                    before.filter(exposed).push(coord)
                } else {
                    before.filter(exposed)
                }) by {
                    reveal(Seq::filter);
                }
                count = count + 1;
            }
            next = iter.next();
        }
        proof {
            assert(local_coordinates().take(count) =~= local_coordinates());
        }
        faces
    }
}

/// The six corner indices of quad number `face`, as two triangles: the
/// four corners of a quad are numbered from four times its own number.
pub open spec fn spec_quad_corner(face: int, corner: int) -> int {
    4 * face + (if corner == 0 || corner == 3 {
        0int
    } else if corner == 1 || corner == 5 {
        2int
    } else if corner == 2 {
        1int
    } else {
        3int
    })
}

/// The index buffer of a mesh of `faces` quads, six indices for each.
pub fn quad_indices(faces: usize) -> (indices: Vec<u32>)
    requires
        4 * faces <= u32::MAX,
    ensures
        indices@.len() == 6 * faces,
        forall|face: int, corner: int|
            0 <= face < faces && 0 <= corner < 6 ==> #[trigger] indices@[6 * face + corner]
                == spec_quad_corner(face, corner),
{
    let mut indices: Vec<u32> = Vec::new();
    let mut index: u32 = 0;
    let mut face: usize = 0;
    while face < faces
        invariant
            face <= faces,
            4 * faces <= u32::MAX,
            index == 4 * face,
            indices@.len() == 6 * face,
            forall|done: int, corner: int|
                0 <= done < face && 0 <= corner < 6 ==> #[trigger] indices@[6 * done + corner]
                    == spec_quad_corner(done, corner),
        decreases faces - face,
    {
        let ghost before = indices@;
        indices.push(index);
        indices.push(index + 2);
        indices.push(index + 1);
        indices.push(index);
        indices.push(index + 3);
        indices.push(index + 2);
        proof {
            assert forall|done: int, corner: int|
                0 <= done < face + 1 && 0 <= corner < 6 implies #[trigger] indices@[6 * done
                + corner] == spec_quad_corner(done, corner) by {
                if done < face {
                    assert(indices@[6 * done + corner] == before[6 * done + corner]);
                }
            }
        }
        index += 4;
        face += 1;
    }
    indices
}

/// A cursor over the voxels of a chunk.
pub struct ChunkIter<'chunk> {
    chunk: &'chunk Chunk,
    coord: Option<Coordinate>,
}

impl<'chunk> ChunkIter<'chunk> {
    /// The voxels of the chunk that the cursor walks, in storage order.
    pub closed spec fn voxels(&self) -> Seq<Voxel> {
        self.chunk@
    }

    /// How many voxels the cursor has produced.
    pub closed spec fn position(&self) -> int {
        match self.coord {
            Some(coord) => coord.spec_index(),
            None => CHUNK_VOLUME as int,
        }
    }

    /// The cursor walks a well-formed chunk and stands inside it or at its end.
    pub closed spec fn wf(&self) -> bool {
        &&& self.chunk.wf()
        &&& match self.coord {
            Some(coord) => coord.is_local(),
            None => true,
        }
    }

    /// The next voxel with its local coordinate, or `None` once every voxel
    /// has been produced.
    pub fn next(&mut self) -> (item: Option<(Coordinate, &'chunk Voxel)>)
        requires
            old(self).wf(),
        ensures
            final(self).wf(),
            final(self).voxels() == old(self).voxels(),
            0 <= old(self).position() <= CHUNK_VOLUME,
            old(self).position() < CHUNK_VOLUME ==> {
                &&& final(self).position() == old(self).position() + 1
                &&& item.is_some()
                &&& item.unwrap().0 == Coordinate::at_index(old(self).position())
                &&& item.unwrap().0.is_local()
                &&& *item.unwrap().1 == old(self).voxels()[old(self).position()]
            },
            old(self).position() >= CHUNK_VOLUME ==> {
                &&& final(self).position() == old(self).position()
                &&& item.is_none()
            },
    {
        match self.coord {
            None => None,
            Some(coord) => {
                proof {
                    coord.lemma_local_index();
                    coord.lemma_next_is_next_index();
                }
                let voxel = &self.chunk.voxels[coord.as_index()];
                self.coord = coord.get_next_local_voxel_coord();
                Some((coord, voxel))
            },
        }
    }
}

/// One of the six directions along the axes.
#[derive(Clone, Copy, Debug, PartialEq, Eq, Structural)]
pub enum Axis {
    Xpos,
    Xneg,
    Ypos,
    Yneg,
    Zpos,
    Zneg,
}

/// A step in voxel units.
#[derive(Debug, PartialEq, Eq, Structural)]
pub struct Displacement {
    pub x: i32,
    pub y: i32,
    pub z: i32,
}

impl Displacement {
    /// The step `(x, y, z)`.
    pub fn new(x: i32, y: i32, z: i32) -> (step: Self)
        ensures
            step == (Displacement { x, y, z }),
    {
        Displacement { x, y, z }
    }
}

impl Axis {
    /// The unit step along the axis.
    pub open spec fn spec_displacement(&self) -> Displacement {
        match self {
            Axis::Xpos => Displacement { x: 1, y: 0, z: 0 },
            Axis::Xneg => Displacement { x: -1i32, y: 0, z: 0 },
            Axis::Ypos => Displacement { x: 0, y: 1, z: 0 },
            Axis::Yneg => Displacement { x: 0, y: -1i32, z: 0 },
            Axis::Zpos => Displacement { x: 0, y: 0, z: 1 },
            Axis::Zneg => Displacement { x: 0, y: 0, z: -1i32 },
        }
    }

    /// The unit step along the axis.
    pub fn as_displacement(&self) -> (step: Displacement)
        ensures
            step == self.spec_displacement(),
    {
        match self {
            Axis::Xpos => Displacement { x: 1, y: 0, z: 0 },
            Axis::Xneg => Displacement { x: -1, y: 0, z: 0 },
            Axis::Ypos => Displacement { x: 0, y: 1, z: 0 },
            Axis::Yneg => Displacement { x: 0, y: -1, z: 0 },
            Axis::Zpos => Displacement { x: 0, y: 0, z: 1 },
            Axis::Zneg => Displacement { x: 0, y: 0, z: -1 },
        }
    }
}

/// The coordinate with the components of an array, in order.
impl From<[i32; 3]> for Coordinate {
    fn from(array: [i32; 3]) -> (converted: Self) {
        Coordinate { x: array[0], y: array[1], z: array[2] }
    }
}

impl vstd::std_specs::convert::FromSpecImpl<[i32; 3]> for Coordinate {
    open spec fn obeys_from_spec() -> bool {
        true
    }

    open spec fn from_spec(array: [i32; 3]) -> Self {
        Coordinate { x: array[0], y: array[1], z: array[2] }
    }
}

/// A coordinate moved by a displacement, componentwise.
impl core::ops::Add<&Displacement> for &Coordinate {
    type Output = Coordinate;

    fn add(self, rhs: &Displacement) -> (moved: Coordinate) {
        self.displaced(rhs)
    }
}

impl vstd::std_specs::ops::AddSpecImpl<&Displacement> for &Coordinate {
    open spec fn obeys_add_spec() -> bool {
        true
    }

    open spec fn add_req(self, rhs: &Displacement) -> bool {
        &&& i32::MIN <= self.x + rhs.x <= i32::MAX
        &&& i32::MIN <= self.y + rhs.y <= i32::MAX
        &&& i32::MIN <= self.z + rhs.z <= i32::MAX
    }

    open spec fn add_spec(self, rhs: &Displacement) -> Coordinate {
        Coordinate {
            x: (self.x + rhs.x) as i32,
            y: (self.y + rhs.y) as i32,
            z: (self.z + rhs.z) as i32,
        }
    }
}

} // verus!
