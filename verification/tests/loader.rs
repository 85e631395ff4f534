use glam::Vec3;
use obj_mesh::error::ObjError;
use obj_mesh::geometry::RawGeometry;
use obj_mesh::loader::{load_obj, load_obj_pnt, set_mesh_indices, ObjLoader};
use obj_mesh::mesh::{Mesh, PrimitiveTopology};

fn bits(v: Vec3) -> [u32; 3] {
    [v.x.to_bits(), v.y.to_bits(), v.z.to_bits()]
}

fn square() -> Vec<Vec3> {
    vec![
        Vec3::new(0.0, 0.0, 0.0),
        Vec3::new(1.0, 0.0, 0.0),
        Vec3::new(0.0, 1.0, 0.0),
        Vec3::new(1.0, 1.0, 0.0),
    ]
}

#[test]
fn loaded_mesh_has_one_entry_per_vertex() {
    let geometry = RawGeometry { positions: square(), indices: vec![0, 1, 2, 2, 1, 3] };
    let mesh = load_obj(Ok(geometry)).unwrap();
    assert_eq!(mesh.primitive_topology(), PrimitiveTopology::TriangleList);
    assert_eq!(mesh.positions().len(), 4);
    assert_eq!(mesh.normals().len(), 4);
    assert_eq!(mesh.uvs().len(), 4);
    assert_eq!(mesh.indices().len(), 6);
}

#[test]
fn loaded_positions_are_the_input() {
    let positions = vec![
        Vec3::new(0.3, -1.7, 2.9),
        Vec3::new(-0.0, 0.2, f32::MAX),
        Vec3::new(f32::MIN_POSITIVE, 3.3, 1.1),
    ];
    let geometry = RawGeometry { positions: positions.clone(), indices: vec![2, 0, 1] };
    let mesh = load_obj(Ok(geometry)).unwrap();
    assert_eq!(mesh.positions().len(), positions.len());
    for (out, input) in mesh.positions().iter().zip(positions.iter()) {
        assert_eq!(bits(*out), bits(*input));
    }
}

#[test]
fn loaded_indices_are_the_input() {
    let geometry = RawGeometry { positions: square(), indices: vec![3, 1, 0, 2, 2, 1, 0] };
    let mesh = load_obj(Ok(geometry)).unwrap();
    assert_eq!(mesh.indices(), &vec![3, 1, 0, 2, 2, 1, 0]);
}

#[test]
fn loaded_uvs_are_zero() {
    let geometry = RawGeometry { positions: square(), indices: vec![0, 1, 2, 2, 1, 3] };
    let mesh = load_obj(Ok(geometry)).unwrap();
    for uv in mesh.uvs() {
        assert_eq!(bits(*uv), [0, 0, 0]);
    }
}

#[test]
fn loaded_normals_are_the_window_sums() {
    // Windows: (0,1,2), (1,2,2), (2,2,1), (2,1,3).
    let geometry = RawGeometry { positions: square(), indices: vec![0, 1, 2, 2, 1, 3] };
    let mesh = load_obj(Ok(geometry)).unwrap();
    let normals = mesh.normals();
    assert_eq!(normals[0], Vec3::new(0.0, 0.0, -1.0));
    assert!(normals[1].is_nan());
    assert!(normals[2].is_nan());
    assert_eq!(bits(normals[3]), [0, 0, 0]);
}

#[test]
fn triangle_scenario_loads() {
    let geometry = RawGeometry {
        positions: vec![
            Vec3::new(0.0, 0.0, 0.0),
            Vec3::new(1.0, 0.0, 0.0),
            Vec3::new(0.0, 1.0, 0.0),
        ],
        indices: vec![0, 1, 2],
    };
    let mesh = ObjLoader::default().load(Ok(geometry)).unwrap();
    assert_eq!(mesh.normals()[0], Vec3::new(0.0, 0.0, -1.0));
    assert_eq!(bits(mesh.normals()[1]), [0, 0, 0]);
    assert_eq!(bits(mesh.normals()[2]), [0, 0, 0]);
    assert_eq!(mesh.indices(), &vec![0, 1, 2]);
}

#[test]
fn load_without_windows_gives_zero_normals() {
    let geometry = RawGeometry { positions: square(), indices: vec![1, 0] };
    let mesh = load_obj(Ok(geometry)).unwrap();
    assert_eq!(mesh.normals().len(), 4);
    for normal in mesh.normals() {
        assert_eq!(bits(*normal), [0, 0, 0]);
    }
    assert_eq!(mesh.indices(), &vec![1, 0]);
}

#[test]
fn load_with_index_out_of_range_gives_no_mesh() {
    let geometry = RawGeometry { positions: square(), indices: vec![0, 1, 4] };
    match load_obj(Ok(geometry)) {
        Err(ObjError::IndexOutOfRange { position, index, vertex_count }) => {
            assert_eq!(position, 2);
            assert_eq!(index, 4);
            assert_eq!(vertex_count, 4);
        }
        other => panic!("expected an index out of range, got {:?}", other),
    }
}

#[test]
fn load_of_a_parse_failure_is_a_format_error() {
    match load_obj(Err(String::from("Met unexpected statement"))) {
        Err(ObjError::Gltf(description)) => assert_eq!(description, "Met unexpected statement"),
        other => panic!("expected a format error, got {:?}", other),
    }
    match ObjLoader.load(Err(String::new())) {
        Err(ObjError::Gltf(description)) => assert_eq!(description, ""),
        other => panic!("expected a format error, got {:?}", other),
    }
}

#[test]
fn load_obj_pnt_fills_the_mesh_and_keeps_its_topology() {
    let geometry = RawGeometry { positions: square(), indices: vec![0, 1, 2] };
    let mut mesh = Mesh::new(PrimitiveTopology::TriangleStrip);
    load_obj_pnt(&geometry, &mut mesh).unwrap();
    assert_eq!(mesh.primitive_topology(), PrimitiveTopology::TriangleStrip);
    assert_eq!(mesh.positions(), &square());
    assert_eq!(mesh.normals()[0], Vec3::new(0.0, 0.0, -1.0));
    assert_eq!(mesh.uvs().len(), 4);
    assert_eq!(mesh.indices(), &vec![0, 1, 2]);
}

#[test]
fn failed_load_obj_pnt_leaves_the_mesh() {
    let mut mesh = Mesh::assemble(square(), square(), square(), vec![3, 2, 1]).unwrap();
    let geometry = RawGeometry {
        positions: vec![Vec3::new(9.0, 9.0, 9.0)],
        indices: vec![0, 0, 1],
    };
    match load_obj_pnt(&geometry, &mut mesh) {
        Err(ObjError::IndexOutOfRange { position, index, vertex_count }) => {
            assert_eq!((position, index, vertex_count), (2, 1, 1));
        }
        other => panic!("expected an index out of range, got {:?}", other),
    }
    assert_eq!(mesh.positions(), &square());
    assert_eq!(mesh.normals(), &square());
    assert_eq!(mesh.uvs(), &square());
    assert_eq!(mesh.indices(), &vec![3, 2, 1]);
}

#[test]
fn set_mesh_indices_copies_the_indices() {
    let geometry = RawGeometry { positions: vec![], indices: vec![5, 4, 3] };
    let mut mesh = Mesh::assemble(square(), square(), square(), vec![0]).unwrap();
    set_mesh_indices(&mut mesh, &geometry);
    assert_eq!(mesh.indices(), &vec![5, 4, 3]);
    assert_eq!(mesh.positions(), &square());
    assert_eq!(geometry.indices, vec![5, 4, 3]);
}

#[test]
fn loading_twice_gives_the_same_mesh() {
    let positions = vec![
        Vec3::new(0.3, -1.7, 2.9),
        Vec3::new(4.1, 0.2, -0.6),
        Vec3::new(-2.2, 3.3, 1.1),
    ];
    let indices = vec![0, 1, 2, 1, 0, 2];
    let first = load_obj(Ok(RawGeometry { positions: positions.clone(), indices: indices.clone() }))
        .unwrap();
    let second = load_obj(Ok(RawGeometry { positions, indices })).unwrap();
    assert_eq!(first.indices(), second.indices());
    for (a, b) in first.normals().iter().zip(second.normals().iter()) {
        assert_eq!(bits(*a), bits(*b));
    }
    for (a, b) in first.positions().iter().zip(second.positions().iter()) {
        assert_eq!(bits(*a), bits(*b));
    }
}

#[test]
fn loader_reads_obj_files() {
    assert_eq!(ObjLoader::default().extensions(), vec!["obj"]);
}

fn parse(bytes: &[u8]) -> Result<RawGeometry, String> {
    match obj::load_obj::<obj::Position, &[u8], u32>(bytes) {
        Ok(parsed) => Ok(RawGeometry {
            positions: parsed.vertices.iter().map(|v| Vec3::from(v.position)).collect(),
            indices: parsed.indices,
        }),
        Err(e) => Err(e.to_string()),
    }
}

#[test]
fn parsed_document_loads() {
    let document = b"v 0 0 0\nv 1 0 0\nv 0 1 0\nv 1 1 0\nf 1 2 3\nf 3 2 4\n";
    let mesh = ObjLoader::default().load(parse(document)).unwrap();
    assert_eq!(mesh.positions(), &square());
    assert_eq!(mesh.indices(), &vec![0, 1, 2, 2, 1, 3]);
    assert_eq!(mesh.normals().len(), 4);
    assert_eq!(mesh.normals()[0], Vec3::new(0.0, 0.0, -1.0));
    assert_eq!(mesh.uvs().len(), 4);
    assert_eq!(mesh.primitive_topology(), PrimitiveTopology::TriangleList);
}

#[test]
fn unparsable_document_is_a_format_error() {
    let document = b"v 0 0 0\nnonsense 1 2 3\n";
    match ObjLoader::default().load(parse(document)) {
        Err(ObjError::Gltf(description)) => assert!(!description.is_empty()),
        other => panic!("expected a format error, got {:?}", other),
    }
}
