use rw_rs::bsf::geo::{
    num_tex_sets, RpGeometry, RpTriangle, RwSphere, RwV3d, RP_GEOMETRYNATIVE, RP_GEOMETRYPRELIT,
    RP_GEOMETRYTEXTURED, RP_GEOMETRYTEXTURED2, RP_GEOMETRYTRISTRIP,
};
use rw_rs::bsf::tex::{RwRGBA, RwTexCoords};
use rw_rs::wire::{ParseError, Record};

struct Blob(Vec<u8>);

impl Blob {
    fn new() -> Blob {
        Blob(Vec::new())
    }

    fn u16(mut self, v: u16) -> Blob {
        self.0.extend_from_slice(&v.to_le_bytes());
        self
    }

    fn u32(mut self, v: u32) -> Blob {
        self.0.extend_from_slice(&v.to_le_bytes());
        self
    }

    fn f32(mut self, v: f32) -> Blob {
        self.0.extend_from_slice(&v.to_le_bytes());
        self
    }

    fn raw(mut self, v: &[u8]) -> Blob {
        self.0.extend_from_slice(v);
        self
    }
}

fn header(format: u32, triangles: u32, vertices: u32, morphs: u32) -> Blob {
    Blob::new().u32(format).u32(triangles).u32(vertices).u32(morphs)
}

fn sphere(b: Blob) -> Blob {
    b.f32(1.0).f32(2.0).f32(3.0).f32(9.5)
}

fn floats(v: &RwV3d) -> [f32; 3] {
    let bits = v.as_arr();
    [f32::from_bits(bits[0]), f32::from_bits(bits[1]), f32::from_bits(bits[2])]
}

const MODERN: u32 = 0x36003;

#[test]
fn smallest_geometry() {
    let bytes = sphere(header(0, 0, 0, 1)).u32(0).u32(0).0;
    assert_eq!(bytes.len(), 40);
    let (rest, g) = RpGeometry::parse(&bytes, MODERN).unwrap();
    assert!(rest.is_empty());
    assert_eq!(g.format, 0);
    assert_eq!(g.num_triangles, 0);
    assert_eq!(g.num_vertices, 0);
    assert_eq!(g.num_morphs, 1);
    assert!(g.surface_prop.is_none());
    assert!(g.prelit.is_empty());
    assert!(g.tex_coords.is_empty());
    assert!(g.triangles.is_empty());
    assert!(g.vertices.is_empty());
    assert!(g.normals.is_empty());
    assert!(!g.is_tristrip());
}

#[test]
fn full_geometry_is_decoded_in_section_order() {
    let format = RP_GEOMETRYTRISTRIP | RP_GEOMETRYPRELIT | RP_GEOMETRYTEXTURED;
    let bytes = sphere(
        header(format, 1, 2, 1)
            .raw(&[1, 2, 3, 4, 5, 6, 7, 8])
            .f32(0.0)
            .f32(0.25)
            .f32(0.5)
            .f32(0.75)
            .u16(1)
            .u16(0)
            .u16(7)
            .u16(2),
    )
    .u32(1)
    .u32(1)
    .f32(1.0)
    .f32(2.0)
    .f32(3.0)
    .f32(4.0)
    .f32(5.0)
    .f32(6.0)
    .f32(0.0)
    .f32(0.0)
    .f32(1.0)
    .f32(0.0)
    .f32(1.0)
    .f32(0.0)
    .raw(&[0xEE])
    .0;
    let (rest, g) = RpGeometry::parse(&bytes, MODERN).unwrap();
    assert_eq!(rest, &[0xEE]);
    assert!(g.is_tristrip());
    assert!(g.surface_prop.is_none());
    assert_eq!(g.prelit, vec![RwRGBA { r: 1, g: 2, b: 3, a: 4 }, RwRGBA { r: 5, g: 6, b: 7, a: 8 }]);
    assert_eq!(g.tex_coords.len(), 1);
    assert_eq!(
        g.tex_coords[0],
        vec![
            RwTexCoords { u: 0.0f32.to_bits(), v: 0.25f32.to_bits() },
            RwTexCoords { u: 0.5f32.to_bits(), v: 0.75f32.to_bits() },
        ]
    );
    assert_eq!(g.tex_coords[0][1].as_arr(), [0.5f32.to_bits(), 0.75f32.to_bits()]);
    assert_eq!(
        g.triangles,
        vec![RpTriangle { vertex2: 1, vertex1: 0, material_id: 7, vertex3: 2 }]
    );
    assert_eq!(g.triangles[0].as_arr(), [0, 1, 2]);
    assert_eq!(g.vertices.len(), 2);
    assert_eq!(floats(&g.vertices[0]), [1.0, 2.0, 3.0]);
    assert_eq!(floats(&g.vertices[1]), [4.0, 5.0, 6.0]);
    assert_eq!(g.normals.len(), 2);
    assert_eq!(floats(&g.normals[0]), [0.0, 0.0, 1.0]);
    assert_eq!(floats(&g.normals[1]), [0.0, 1.0, 0.0]);
}

#[test]
fn triangle_corners_are_reassembled() {
    let t = RpTriangle::read_at(&[0x0B, 0, 0x0A, 0, 0x63, 0, 0x0C, 0], 0).unwrap();
    assert_eq!(t.vertex2, 0x0B);
    assert_eq!(t.vertex1, 0x0A);
    assert_eq!(t.material_id, 0x63);
    assert_eq!(t.vertex3, 0x0C);
    assert_eq!(t.as_arr(), [0x0A, 0x0B, 0x0C]);
}

#[test]
fn no_colors_without_the_prelit_bit() {
    let bytes = sphere(header(0, 0, 3, 1)).u32(0).u32(0).0;
    let (rest, g) = RpGeometry::parse(&bytes, MODERN).unwrap();
    assert!(rest.is_empty());
    assert_eq!(g.num_vertices, 3);
    assert!(g.prelit.is_empty());
    let bytes = sphere(header(RP_GEOMETRYPRELIT, 0, 3, 1).raw(&[9; 12])).u32(0).u32(0).0;
    let (rest, g) = RpGeometry::parse(&bytes, MODERN).unwrap();
    assert!(rest.is_empty());
    assert_eq!(g.prelit.len(), 3);
    assert_eq!(g.prelit[2], RwRGBA { r: 9, g: 9, b: 9, a: 9 });
}

#[test]
fn native_geometry_skips_the_arrays_but_not_the_vertices() {
    let format = RP_GEOMETRYNATIVE | RP_GEOMETRYPRELIT | RP_GEOMETRYTEXTURED2 | (3 << 16);
    let bytes = sphere(header(format, 5, 2, 1))
        .u32(1)
        .u32(7)
        .f32(1.0)
        .f32(2.0)
        .f32(3.0)
        .f32(4.0)
        .f32(5.0)
        .f32(6.0)
        .f32(-1.0)
        .f32(0.0)
        .f32(0.0)
        .f32(0.0)
        .f32(-1.0)
        .f32(0.0)
        .0;
    let (rest, g) = RpGeometry::parse(&bytes, MODERN).unwrap();
    assert!(rest.is_empty());
    assert_eq!(g.num_triangles, 5);
    assert!(g.prelit.is_empty());
    assert!(g.tex_coords.is_empty());
    assert!(g.triangles.is_empty());
    assert_eq!(g.vertices.len(), 2);
    assert_eq!(floats(&g.vertices[1]), [4.0, 5.0, 6.0]);
    assert_eq!(g.normals.len(), 2);
    assert_eq!(floats(&g.normals[0]), [-1.0, 0.0, 0.0]);
}

#[test]
fn native_geometry_still_needs_its_sphere() {
    let bytes = header(RP_GEOMETRYNATIVE, 0, 0, 1).raw(&[0; 23]).0;
    assert_eq!(RpGeometry::parse(&bytes, MODERN).err(), Some(ParseError::TruncatedInput));
    let bytes = header(RP_GEOMETRYNATIVE, 0, 0, 1).raw(&[0; 24]).0;
    assert!(RpGeometry::parse(&bytes, MODERN).is_ok());
}

#[test]
fn presence_flags_gate_vertices_and_normals() {
    let bytes = sphere(header(0, 0, 1, 1)).u32(0).u32(1).f32(7.0).f32(8.0).f32(9.0).0;
    let (rest, g) = RpGeometry::parse(&bytes, MODERN).unwrap();
    assert!(rest.is_empty());
    assert!(g.vertices.is_empty());
    assert_eq!(g.normals.len(), 1);
    assert_eq!(floats(&g.normals[0]), [7.0, 8.0, 9.0]);
    let bytes = sphere(header(0, 0, 1, 1)).u32(0xFFFF_FFFF).u32(0).f32(7.0).f32(8.0).f32(9.0).0;
    let (rest, g) = RpGeometry::parse(&bytes, MODERN).unwrap();
    assert!(rest.is_empty());
    assert_eq!(g.vertices.len(), 1);
    assert!(g.normals.is_empty());
}

#[test]
fn old_versions_store_surface_properties() {
    let body = Blob::new().f32(0.5).f32(0.25).f32(0.125);
    let bytes = sphere(header(0, 0, 0, 1).raw(&body.0)).u32(0).u32(0).0;
    assert_eq!(bytes.len(), 52);
    let (rest, g) = RpGeometry::parse(&bytes, 0x33FFF).unwrap();
    assert!(rest.is_empty());
    let prop = g.surface_prop.unwrap();
    assert_eq!(f32::from_bits(prop.ambient), 0.5);
    assert_eq!(f32::from_bits(prop.specular), 0.25);
    assert_eq!(f32::from_bits(prop.diffuse), 0.125);
    let (rest, g) = RpGeometry::parse(&bytes, 0x34000).unwrap();
    assert_eq!(rest.len(), 12);
    assert!(g.surface_prop.is_none());
    let short = sphere(header(0, 0, 0, 1)).u32(0).u32(0).0;
    assert_eq!(RpGeometry::parse(&short, 0x33FFF).err(), Some(ParseError::TruncatedInput));
}

#[test]
fn texture_sets_come_from_the_format() {
    assert_eq!(num_tex_sets(0), 0);
    assert_eq!(num_tex_sets(RP_GEOMETRYTEXTURED), 1);
    assert_eq!(num_tex_sets(RP_GEOMETRYTEXTURED2), 2);
    assert_eq!(num_tex_sets(RP_GEOMETRYTEXTURED | RP_GEOMETRYTEXTURED2), 2);
    assert_eq!(num_tex_sets(0x0003_0000), 3);
    assert_eq!(num_tex_sets(0x0001_0000 | RP_GEOMETRYTEXTURED2), 1);
    assert_eq!(num_tex_sets(0x00FF_0000), 255);
    assert_eq!(num_tex_sets(0xFF00_FF7B), 0);
}

#[test]
fn each_texture_set_has_one_pair_per_vertex() {
    let mut b = header(0x0003_0000, 0, 2, 1);
    for n in 0..6 {
        b = b.f32(n as f32).f32(n as f32 + 0.5);
    }
    let bytes = sphere(b).u32(0).u32(0).0;
    let (rest, g) = RpGeometry::parse(&bytes, MODERN).unwrap();
    assert!(rest.is_empty());
    assert_eq!(g.tex_coords.len(), 3);
    for set in &g.tex_coords {
        assert_eq!(set.len(), 2);
    }
    assert_eq!(f32::from_bits(g.tex_coords[0][0].u), 0.0);
    assert_eq!(f32::from_bits(g.tex_coords[1][0].u), 2.0);
    assert_eq!(f32::from_bits(g.tex_coords[2][1].v), 5.5);
}

#[test]
fn two_texture_sets_without_a_declared_count() {
    let mut b = header(RP_GEOMETRYTEXTURED2, 0, 1, 1);
    b = b.f32(1.0).f32(2.0).f32(3.0).f32(4.0);
    let bytes = sphere(b).u32(0).u32(0).0;
    let (_, g) = RpGeometry::parse(&bytes, MODERN).unwrap();
    assert_eq!(g.tex_coords.len(), 2);
    assert_eq!(f32::from_bits(g.tex_coords[1][0].v), 4.0);
}

#[test]
fn truncated_geometry_is_refused() {
    let whole = sphere(
        header(RP_GEOMETRYPRELIT | RP_GEOMETRYTEXTURED, 1, 1, 1)
            .raw(&[1, 2, 3, 4])
            .f32(0.0)
            .f32(0.0)
            .raw(&[0; 8]),
    )
    .u32(1)
    .u32(1)
    .raw(&[0; 24])
    .0;
    assert!(RpGeometry::parse(&whole, MODERN).is_ok());
    for cut in 0..whole.len() {
        assert_eq!(
            RpGeometry::parse(&whole[..cut], MODERN).err(),
            Some(ParseError::TruncatedInput)
        );
    }
}

#[test]
fn huge_counts_are_refused_without_reading() {
    let bytes = sphere(header(RP_GEOMETRYPRELIT | 0x00FF_0000, 0xFFFF_FFFF, 0xFFFF_FFFF, 1))
        .u32(1)
        .u32(1)
        .0;
    assert_eq!(RpGeometry::parse(&bytes, MODERN).err(), Some(ParseError::TruncatedInput));
}

#[test]
fn sphere_and_vector_records() {
    let bytes = Blob::new().f32(1.5).f32(-2.0).f32(0.0).f32(10.0).0;
    let s = RwSphere::read_at(&bytes, 0).unwrap();
    assert_eq!(floats(&s.pos), [1.5, -2.0, 0.0]);
    assert_eq!(f32::from_bits(s.radius), 10.0);
    assert_eq!(RwSphere::size(), 16);
    assert_eq!(RwV3d::size(), 12);
    assert_eq!(RpTriangle::size(), 8);
    assert_eq!(RwSphere::read_at(&bytes, 1).err(), Some(ParseError::TruncatedInput));
    let v = RwV3d::read_at(&bytes, 4).unwrap();
    assert_eq!(floats(&v), [-2.0, 0.0, 10.0]);
}
