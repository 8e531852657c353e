use voxel_planet::voxel::{
    quad_indices, Axis, Chunk, Coordinate, Displacement, Voxel, CHUNK_SIZE_X, CHUNK_SIZE_Y,
    CHUNK_SIZE_Z, CHUNK_VOLUME,
};

fn coord(x: i32, y: i32, z: i32) -> Coordinate {
    Coordinate { x, y, z }
}

#[test]
fn chunk_sizes() {
    assert_eq!(CHUNK_SIZE_X, 16);
    assert_eq!(CHUNK_SIZE_Y, 16);
    assert_eq!(CHUNK_SIZE_Z, 16);
    assert_eq!(CHUNK_VOLUME, 4096);
}

#[test]
fn as_index_runs_x_then_z_then_y() {
    assert_eq!(Coordinate::zero().as_index(), 0);
    assert_eq!(coord(1, 0, 0).as_index(), 1);
    assert_eq!(coord(0, 0, 1).as_index(), 16);
    assert_eq!(coord(0, 1, 0).as_index(), 256);
    assert_eq!(coord(3, 2, 5).as_index(), 3 + 5 * 16 + 2 * 256);
    assert_eq!(coord(15, 15, 15).as_index(), 4095);
}

#[test]
fn next_local_coord_steps_and_carries() {
    assert_eq!(Coordinate::zero().get_next_local_voxel_coord(), Some(coord(1, 0, 0)));
    assert_eq!(coord(15, 0, 0).get_next_local_voxel_coord(), Some(coord(0, 0, 1)));
    assert_eq!(coord(15, 0, 15).get_next_local_voxel_coord(), Some(coord(0, 1, 0)));
    assert_eq!(coord(15, 7, 15).get_next_local_voxel_coord(), Some(coord(0, 8, 0)));
    assert_eq!(coord(14, 15, 15).get_next_local_voxel_coord(), Some(coord(15, 15, 15)));
    assert_eq!(coord(15, 15, 15).get_next_local_voxel_coord(), None);
}

#[test]
fn voxel_is_air() {
    assert!(Voxel::Air.is_air());
    assert!(!Voxel::Grass.is_air());
    assert!(!Voxel::Dirt.is_air());
}

#[test]
fn new_chunk_is_all_air() {
    let chunk = Chunk::new(1, -2, 3);
    assert_eq!(chunk.coord, coord(1, -2, 3));
    assert_eq!(chunk.get_voxel(Coordinate::zero()), Some(&Voxel::Air));
    assert_eq!(chunk.get_voxel(coord(15, 15, 15)), Some(&Voxel::Air));
    let mut iter = chunk.iter();
    let mut count = 0usize;
    while let Some((at, voxel)) = iter.next() {
        assert_eq!(at.as_index(), count);
        assert!(voxel.is_air());
        count += 1;
    }
    assert_eq!(count, CHUNK_VOLUME);
    assert!(iter.next().is_none());
}

#[test]
fn get_voxel_outside_chunk_is_none() {
    let chunk = Chunk::new(0, 0, 0);
    assert_eq!(chunk.get_voxel(coord(-1, 0, 0)), None);
    assert_eq!(chunk.get_voxel(coord(16, 0, 0)), None);
    assert_eq!(chunk.get_voxel(coord(0, -1, 0)), None);
    assert_eq!(chunk.get_voxel(coord(0, 16, 0)), None);
    assert_eq!(chunk.get_voxel(coord(0, 0, -1)), None);
    assert_eq!(chunk.get_voxel(coord(0, 0, 16)), None);
    assert_eq!(chunk.get_voxel(coord(i32::MAX, i32::MIN, 0)), None);
}

#[test]
fn set_voxel_stores_inside_and_refuses_outside() {
    let mut chunk = Chunk::new(0, 0, 0);
    assert!(chunk.set_voxel(coord(3, 2, 5), Voxel::Dirt));
    assert!(!chunk.set_voxel(coord(3, 16, 5), Voxel::Grass));
    assert_eq!(chunk.get_voxel(coord(3, 2, 5)), Some(&Voxel::Dirt));
    assert_eq!(chunk.get_voxel(coord(4, 2, 5)), Some(&Voxel::Air));
    let mut iter = chunk.iter();
    let mut solid = vec![];
    while let Some((at, voxel)) = iter.next() {
        if !voxel.is_air() {
            solid.push((at, *voxel));
        }
    }
    assert_eq!(solid, vec![(coord(3, 2, 5), Voxel::Dirt)]);
}

#[test]
fn chunk_iter_visits_coordinates_in_storage_order() {
    let chunk = Chunk::new(0, 0, 0);
    let mut iter = chunk.iter();
    assert_eq!(iter.next().map(|(at, _)| at), Some(coord(0, 0, 0)));
    assert_eq!(iter.next().map(|(at, _)| at), Some(coord(1, 0, 0)));
    for _ in 2..16 {
        iter.next();
    }
    assert_eq!(iter.next().map(|(at, _)| at), Some(coord(0, 0, 1)));
}

#[test]
fn axis_displacements() {
    assert_eq!(Axis::Xpos.as_displacement(), Displacement::new(1, 0, 0));
    assert_eq!(Axis::Xneg.as_displacement(), Displacement::new(-1, 0, 0));
    assert_eq!(Axis::Ypos.as_displacement(), Displacement::new(0, 1, 0));
    assert_eq!(Axis::Yneg.as_displacement(), Displacement::new(0, -1, 0));
    assert_eq!(Axis::Zpos.as_displacement(), Displacement::new(0, 0, 1));
    assert_eq!(Axis::Zneg.as_displacement(), Displacement::new(0, 0, -1));
    let step = Displacement::new(4, -5, 6);
    assert_eq!((step.x, step.y, step.z), (4, -5, 6));
}

#[test]
fn displaced_adds_componentwise() {
    let moved = coord(1, 2, 3).displaced(&Displacement::new(10, -20, 30));
    assert_eq!(moved, coord(11, -18, 33));
    assert_eq!(coord(0, 0, 0).displaced(&Axis::Xneg.as_displacement()), coord(-1, 0, 0));
}

#[test]
fn faces_are_exposed_towards_air_and_chunk_border() {
    let mut chunk = Chunk::new(0, 0, 0);
    chunk.set_voxel(coord(0, 0, 0), Voxel::Dirt);
    chunk.set_voxel(coord(1, 0, 0), Voxel::Grass);
    assert!(!chunk.is_face_exposed(coord(0, 0, 0), Axis::Xpos));
    assert!(chunk.is_face_exposed(coord(0, 0, 0), Axis::Xneg));
    assert!(chunk.is_face_exposed(coord(0, 0, 0), Axis::Ypos));
    assert!(chunk.is_face_exposed(coord(0, 0, 0), Axis::Yneg));
    assert!(chunk.is_face_exposed(coord(1, 0, 0), Axis::Xpos));
    assert!(!chunk.is_face_exposed(coord(1, 0, 0), Axis::Xneg));
    assert!(!chunk.is_face_exposed(coord(2, 0, 0), Axis::Xneg));
    assert!(!chunk.is_face_exposed(coord(5, 5, 5), Axis::Zpos));
}

#[test]
fn exposed_faces_lists_visible_sides_in_storage_order() {
    let mut chunk = Chunk::new(0, 0, 0);
    assert_eq!(chunk.exposed_faces(Axis::Ypos), vec![]);
    chunk.set_voxel(coord(1, 0, 0), Voxel::Grass);
    chunk.set_voxel(coord(0, 0, 0), Voxel::Dirt);
    chunk.set_voxel(coord(0, 1, 0), Voxel::Dirt);
    chunk.set_voxel(coord(15, 15, 15), Voxel::Grass);
    assert_eq!(
        chunk.exposed_faces(Axis::Ypos),
        vec![coord(1, 0, 0), coord(0, 1, 0), coord(15, 15, 15)]
    );
    assert_eq!(
        chunk.exposed_faces(Axis::Yneg),
        vec![coord(0, 0, 0), coord(1, 0, 0), coord(15, 15, 15)]
    );
    assert_eq!(
        chunk.exposed_faces(Axis::Xpos),
        vec![coord(1, 0, 0), coord(0, 1, 0), coord(15, 15, 15)]
    );
    assert_eq!(
        chunk.exposed_faces(Axis::Xneg),
        vec![coord(0, 0, 0), coord(0, 1, 0), coord(15, 15, 15)]
    );
    assert_eq!(chunk.exposed_faces(Axis::Zpos).len(), 4);
    assert_eq!(chunk.exposed_faces(Axis::Zneg).len(), 4);
}

#[test]
fn quad_indices_make_two_triangles_per_face() {
    assert_eq!(quad_indices(0), Vec::<u32>::new());
    assert_eq!(quad_indices(1), vec![0, 2, 1, 0, 3, 2]);
    assert_eq!(quad_indices(3), vec![0, 2, 1, 0, 3, 2, 4, 6, 5, 4, 7, 6, 8, 10, 9, 8, 11, 10]);
}

#[test]
fn coordinate_from_array_and_sum_with_displacement() {
    assert_eq!(Coordinate::from([7, -8, 9]), coord(7, -8, 9));
    let moved = &coord(1, 2, 3) + &Displacement::new(1, 0, -3);
    assert_eq!(moved, coord(2, 2, 0));
    assert_eq!(&coord(0, 0, 0) + &Axis::Zneg.as_displacement(), coord(0, 0, -1));
}
