//! Geometry: triangles, vertices and the arrays that go with them.
//!
//! Floating-point fields are kept as their IEEE-754 single-precision bit
//! patterns, read as little-endian words; `f32::from_bits` gives the number.

use crate::bsf::tex::{RpSurfProp, RwRGBA, RwTexCoords};
use crate::wire::{
    le_u16_at, le_u32_at, read_le_u16, read_le_u32, read_records, spec_records_at, tail_from,
    ParseError, Record,
};
use vstd::prelude::*;

verus! {

/// One triangle, its fields in the order in which they are stored: the
/// second corner comes first, then the first corner, the material, and the
/// third corner.
#[derive(Clone, Copy, Debug, PartialEq, Eq, Structural)]
pub struct RpTriangle {
    pub vertex2: u16,
    pub vertex1: u16,
    pub material_id: u16,
    pub vertex3: u16,
}

impl Record for RpTriangle {
    open spec fn spec_size() -> nat {
        8
    }

    /// Four 16-bit fields in storage order.
    open spec fn spec_at(s: Seq<u8>, at: int) -> RpTriangle {
        RpTriangle {
            vertex2: le_u16_at(s, at),
            vertex1: le_u16_at(s, at + 2),
            material_id: le_u16_at(s, at + 4),
            vertex3: le_u16_at(s, at + 6),
        }
    }

    fn size() -> (n: usize) {
        8
    }

    fn read_at(i: &[u8], at: usize) -> (r: Result<RpTriangle, ParseError>) {
        if at > i.len() || i.len() - at < 8 {
            return Err(ParseError::TruncatedInput);
        }
        let vertex2: u16 = read_le_u16(i, at)?;
        let vertex1: u16 = read_le_u16(i, at + 2)?;
        let material_id: u16 = read_le_u16(i, at + 4)?;
        let vertex3: u16 = read_le_u16(i, at + 6)?;
        Ok(RpTriangle { vertex2, vertex1, material_id, vertex3 })
    }
}

impl RpTriangle {
    /// The three corners in their logical order.
    pub fn as_arr(self) -> (arr: [u16; 3])
        ensures
            arr@ == seq![self.vertex1, self.vertex2, self.vertex3],
    {
        [self.vertex1, self.vertex2, self.vertex3]
    }
}

/// A point or direction in space; the fields are `f32` bit patterns.
#[derive(Clone, Copy, Debug, PartialEq, Eq, Structural)]
pub struct RwV3d {
    pub x: u32,
    pub y: u32,
    pub z: u32,
}

impl Record for RwV3d {
    open spec fn spec_size() -> nat {
        12
    }

    /// Three words: `x`, `y`, `z`.
    open spec fn spec_at(s: Seq<u8>, at: int) -> RwV3d {
        RwV3d { x: le_u32_at(s, at), y: le_u32_at(s, at + 4), z: le_u32_at(s, at + 8) }
    }

    fn size() -> (n: usize) {
        12
    }

    fn read_at(i: &[u8], at: usize) -> (r: Result<RwV3d, ParseError>) {
        if at > i.len() || i.len() - at < 12 {
            return Err(ParseError::TruncatedInput);
        }
        let x: u32 = read_le_u32(i, at)?;
        let y: u32 = read_le_u32(i, at + 4)?;
        let z: u32 = read_le_u32(i, at + 8)?;
        Ok(RwV3d { x, y, z })
    }
}

impl RwV3d {
    /// The three coordinates, `x` first, as bit patterns.
    pub fn as_arr(&self) -> (arr: [u32; 3])
        ensures
            arr@ == seq![self.x, self.y, self.z],
    {
        [self.x, self.y, self.z]
    }
}

/// A bounding sphere; the radius is an `f32` bit pattern.
#[derive(Clone, Copy, Debug, PartialEq, Eq, Structural)]
pub struct RwSphere {
    pub pos: RwV3d,
    pub radius: u32,
}

impl Record for RwSphere {
    open spec fn spec_size() -> nat {
        16
    }

    /// The center, then the radius.
    open spec fn spec_at(s: Seq<u8>, at: int) -> RwSphere {
        RwSphere { pos: RwV3d::spec_at(s, at), radius: le_u32_at(s, at + 12) }
    }

    fn size() -> (n: usize) {
        16
    }

    fn read_at(i: &[u8], at: usize) -> (r: Result<RwSphere, ParseError>) {
        if at > i.len() || i.len() - at < 16 {
            return Err(ParseError::TruncatedInput);
        }
        let pos: RwV3d = RwV3d::read_at(i, at)?;
        let radius: u32 = read_le_u32(i, at + 12)?;
        Ok(RwSphere { pos, radius })
    }
}

/// Format bit: the triangles form a strip.
pub const RP_GEOMETRYTRISTRIP: u32 = 0x00000001;

/// Format bit: one set of texture coordinates.
pub const RP_GEOMETRYTEXTURED: u32 = 0x00000004;

/// Format bit: per-vertex colors are stored.
pub const RP_GEOMETRYPRELIT: u32 = 0x00000008;

/// Format bit: two sets of texture coordinates.
pub const RP_GEOMETRYTEXTURED2: u32 = 0x00000080;

/// Format bit: colors, texture coordinates and triangles live in a
/// platform-specific blob and are absent here.
pub const RP_GEOMETRYNATIVE: u32 = 0x01000000;

/// Shift that brings the declared number of texture coordinate sets to the
/// low byte of the format.
pub const RP_GEOMETRY_TEX_SETS_SHIFT: u32 = 16;

/// Geometries written before this version store surface properties.
pub const GEOMETRY_SURFACE_PROP_BEFORE: u32 = 0x34000;

/// Number of texture coordinate sets that a format asks for: the count in
/// bits 16 to 23 where it is not zero, else two or one according to the
/// textured bits, else none.
pub open spec fn spec_num_tex_sets(format: u32) -> u32 {
    let declared = (format >> RP_GEOMETRY_TEX_SETS_SHIFT) & 0xFF;
    if declared != 0 {
        declared
    } else if format & RP_GEOMETRYTEXTURED2 != 0 {
        2
    } else if format & RP_GEOMETRYTEXTURED != 0 {
        1
    } else {
        0
    }
}

/// Number of texture coordinate sets that a format asks for.
pub fn num_tex_sets(format: u32) -> (n: u32)
    ensures
        n == spec_num_tex_sets(format),
        n <= 255,
{
    let declared: u32 = (format >> RP_GEOMETRY_TEX_SETS_SHIFT) & 0xFF;
    assert(declared <= 255) by (bit_vector)
        requires
            declared == (format >> 16u32) & 0xFF,
    ;
    if declared != 0 {
        declared
    } else if format & RP_GEOMETRYTEXTURED2 != 0 {
        2
    } else if format & RP_GEOMETRYTEXTURED != 0 {
        1
    } else {
        0
    }
}

/// A decoded geometry.
#[derive(Debug)]
pub struct RpGeometry {
    pub format: u32,
    pub num_triangles: u32,
    pub num_vertices: u32,
    pub num_morphs: u32,
    pub surface_prop: Option<RpSurfProp>,
    pub prelit: Vec<RwRGBA>,
    pub tex_coords: Vec<Vec<RwTexCoords>>,
    pub triangles: Vec<RpTriangle>,
    pub vertices: Vec<RwV3d>,
    pub normals: Vec<RwV3d>,
}

/// What a geometry holds, as plain values.
pub struct GeometryModel {
    pub format: u32,
    pub num_triangles: u32,
    pub num_vertices: u32,
    pub num_morphs: u32,
    pub surface_prop: Option<RpSurfProp>,
    pub prelit: Seq<RwRGBA>,
    pub tex_coords: Seq<Seq<RwTexCoords>>,
    pub triangles: Seq<RpTriangle>,
    pub vertices: Seq<RwV3d>,
    pub normals: Seq<RwV3d>,
}

impl View for RpGeometry {
    type V = GeometryModel;

    open spec fn view(&self) -> GeometryModel {
        GeometryModel {
            format: self.format,
            num_triangles: self.num_triangles,
            num_vertices: self.num_vertices,
            num_morphs: self.num_morphs,
            surface_prop: self.surface_prop,
            prelit: self.prelit@,
            tex_coords: Seq::new(self.tex_coords@.len(), |c: int| self.tex_coords@[c]@),
            triangles: self.triangles@,
            vertices: self.vertices@,
            normals: self.normals@,
        }
    }
}

impl Clone for RpGeometry {
    fn clone(&self) -> (copy: Self)
        ensures
            copy@ == self@,
    {
        let prelit: Vec<RwRGBA> = self.prelit.clone();
        let triangles: Vec<RpTriangle> = self.triangles.clone();
        let vertices: Vec<RwV3d> = self.vertices.clone();
        let normals: Vec<RwV3d> = self.normals.clone();
        let mut tex_coords: Vec<Vec<RwTexCoords>> = Vec::with_capacity(self.tex_coords.len());
        let mut c: usize = 0;
        while c < self.tex_coords.len()
            invariant
                c <= self.tex_coords@.len(),
                tex_coords@.len() == c,
                forall|j: int| 0 <= j < c ==> (#[trigger] tex_coords@[j])@ == self.tex_coords@[j]@,
            decreases self.tex_coords@.len() - c,
        {
            let set: Vec<RwTexCoords> = self.tex_coords[c].clone();
            assert(set@ =~= self.tex_coords@[c as int]@);
            tex_coords.push(set);
            c = c + 1;
        }
        let copy = RpGeometry {
            format: self.format,
            num_triangles: self.num_triangles,
            num_vertices: self.num_vertices,
            num_morphs: self.num_morphs,
            surface_prop: self.surface_prop,
            prelit,
            tex_coords,
            triangles,
            vertices,
            normals,
        };
        assert(copy@.prelit =~= self@.prelit);
        assert(copy@.tex_coords =~= self@.tex_coords);
        assert(copy@.triangles =~= self@.triangles);
        assert(copy@.vertices =~= self@.vertices);
        assert(copy@.normals =~= self@.normals);
        copy
    }
}

/// Where the sections of a geometry start, as offsets into its bytes.
pub struct GeometryLayout {
    /// Per-vertex colors.
    pub prelit: int,
    /// The first set of texture coordinates.
    pub tex_coords: int,
    pub triangles: int,
    /// The bounding sphere.
    pub sphere: int,
    /// The two presence flags: vertices, then normals.
    pub presence: int,
    /// The vertex positions, or whatever follows the presence flags.
    pub vertices: int,
}

impl RpGeometry {
    /// Whether a format keeps its colors, texture coordinates and
    /// triangles in a platform-specific blob.
    pub open spec fn spec_is_native(format: u32) -> bool {
        format & RP_GEOMETRYNATIVE != 0
    }

    /// Whether per-vertex colors are stored.
    pub open spec fn spec_has_prelit(format: u32) -> bool {
        !Self::spec_is_native(format) && format & RP_GEOMETRYPRELIT != 0
    }

    /// The layout that the four header words and the version fix. After
    /// the header come, in this order: surface properties in old
    /// versions; unless the format is native, the colors where the
    /// prelit bit asks for them, the texture coordinate sets and the
    /// triangles; the bounding sphere; the presence flags.
    pub open spec fn spec_layout(
        format: u32,
        num_triangles: u32,
        num_vertices: u32,
        version: u32,
    ) -> GeometryLayout {
        let prelit: int = if version < GEOMETRY_SURFACE_PROP_BEFORE {
            28
        } else {
            16
        };
        let tex_coords = prelit + if Self::spec_has_prelit(format) {
            4 * num_vertices
        } else {
            0
        };
        let triangles = tex_coords + if Self::spec_is_native(format) {
            0
        } else {
            spec_num_tex_sets(format) * (8 * num_vertices)
        };
        let sphere = triangles + if Self::spec_is_native(format) {
            0
        } else {
            8 * num_triangles
        };
        GeometryLayout {
            prelit,
            tex_coords,
            triangles,
            sphere,
            presence: sphere + 16,
            vertices: sphere + 24,
        }
    }

    /// The layout of the geometry at the front of `s`.
    pub open spec fn spec_layout_of(s: Seq<u8>, version: u32) -> GeometryLayout {
        Self::spec_layout(le_u32_at(s, 0), le_u32_at(s, 4), le_u32_at(s, 8), version)
    }

    /// Whether the geometry at the front of `s` stores vertex positions.
    pub open spec fn spec_has_vertices(s: Seq<u8>, version: u32) -> bool {
        le_u32_at(s, Self::spec_layout_of(s, version).presence) != 0
    }

    /// Whether the geometry at the front of `s` stores normals.
    pub open spec fn spec_has_normals(s: Seq<u8>, version: u32) -> bool {
        le_u32_at(s, Self::spec_layout_of(s, version).presence + 4) != 0
    }

    /// Where the normals of the geometry at the front of `s` start.
    pub open spec fn spec_normals_at(s: Seq<u8>, version: u32) -> int {
        Self::spec_layout_of(s, version).vertices + if Self::spec_has_vertices(s, version) {
            12 * le_u32_at(s, 8)
        } else {
            0
        }
    }

    /// Bytes taken by the geometry at the front of `s`.
    pub open spec fn spec_len(s: Seq<u8>, version: u32) -> int {
        Self::spec_normals_at(s, version) + if Self::spec_has_normals(s, version) {
            12 * le_u32_at(s, 8)
        } else {
            0
        }
    }

    /// The geometry stored at the front of `s`, which holds all of it.
    pub open spec fn spec_model(s: Seq<u8>, version: u32) -> GeometryModel {
        let format = le_u32_at(s, 0);
        let num_triangles = le_u32_at(s, 4);
        let num_vertices = le_u32_at(s, 8);
        let l = Self::spec_layout_of(s, version);
        GeometryModel {
            format,
            num_triangles,
            num_vertices,
            num_morphs: le_u32_at(s, 12),
            surface_prop: if version < GEOMETRY_SURFACE_PROP_BEFORE {
                Some(RpSurfProp::spec_at(s, 16))
            } else {
                None
            },
            prelit: if Self::spec_has_prelit(format) {
                spec_records_at::<RwRGBA>(s, l.prelit, num_vertices as nat)
            } else {
                Seq::empty()
            },
            tex_coords: if Self::spec_is_native(format) {
                Seq::empty()
            } else {
                Seq::new(
                    spec_num_tex_sets(format) as nat,
                    |c: int|
                        spec_records_at::<RwTexCoords>(
                            s,
                            l.tex_coords + c * (8 * num_vertices),
                            num_vertices as nat,
                        ),
                )
            },
            triangles: if Self::spec_is_native(format) {
                Seq::empty()
            } else {
                spec_records_at::<RpTriangle>(s, l.triangles, num_triangles as nat)
            },
            vertices: if Self::spec_has_vertices(s, version) {
                spec_records_at::<RwV3d>(s, l.vertices, num_vertices as nat)
            } else {
                Seq::empty()
            },
            normals: if Self::spec_has_normals(s, version) {
                spec_records_at::<RwV3d>(s, Self::spec_normals_at(s, version), num_vertices as nat)
            } else {
                Seq::empty()
            },
        }
    }

    /// What decoding `s` as a geometry of `version` gives. The input is
    /// truncated when it ends before the presence flags do, or before
    /// the arrays that those flags announce.
    pub open spec fn spec_parse(s: Seq<u8>, version: u32) -> Result<GeometryModel, ParseError> {
        if s.len() < 16 || s.len() < Self::spec_layout_of(s, version).vertices || s.len()
            < Self::spec_len(s, version) {
            Err(ParseError::TruncatedInput)
        } else {
            Ok(Self::spec_model(s, version))
        }
    }

    /// Decodes a geometry of the given format version from the front of
    /// `i` and hands back what follows it.
    pub fn parse<'a>(i: &'a [u8], version: u32) -> (r: Result<(&'a [u8], RpGeometry), ParseError>)
        ensures
            match r {
                Ok((rest, geometry)) => Self::spec_parse(i@, version) == Ok::<
                    GeometryModel,
                    ParseError,
                >(geometry@) && rest@ == i@.skip(Self::spec_len(i@, version)),
                Err(e) => Self::spec_parse(i@, version) == Err::<GeometryModel, ParseError>(e),
            },
    {
        let len: usize = i.len();
        let format: u32 = read_le_u32(i, 0)?;
        let num_triangles: u32 = read_le_u32(i, 4)?;
        let num_vertices: u32 = read_le_u32(i, 8)?;
        let num_morphs: u32 = read_le_u32(i, 12)?;
        let sets: u32 = num_tex_sets(format);
        let native: bool = format & RP_GEOMETRYNATIVE != 0;
        let ghost l = Self::spec_layout(format, num_triangles, num_vertices, version);
        let ghost stride: int = 8 * num_vertices;
        proof {
            assert(0 <= sets * stride) by (nonlinear_arith)
                requires
                    0 <= sets,
                    0 <= stride,
            ;
        }

        let mut at: usize = 16;
        let mut surface_prop: Option<RpSurfProp> = None;
        if version < GEOMETRY_SURFACE_PROP_BEFORE {
            surface_prop = Some(RpSurfProp::read_at(i, 16)?);
            at = 28;
        }
        let mut prelit: Vec<RwRGBA> = Vec::new();
        let mut tex_coords: Vec<Vec<RwTexCoords>> = Vec::new();
        let mut triangles: Vec<RpTriangle> = Vec::new();
        if !native {
            if format & RP_GEOMETRYPRELIT != 0 {
                prelit = read_records::<RwRGBA>(i, at, num_vertices)?;
                at = at + 4 * (num_vertices as usize);
            }
            let mut c: u32 = 0;
            while c < sets
                invariant
                    c <= sets,
                    stride == 8 * num_vertices,
                    at == l.tex_coords + c * stride,
                    at <= i@.len() <= usize::MAX,
                    l.triangles == l.tex_coords + sets * stride,
                    l.vertices >= l.triangles,
                    i@.len() >= 16,
                    l == Self::spec_layout_of(i@, version),
                    tex_coords@.len() == c,
                    forall|j: int|
                        0 <= j < c ==> (#[trigger] tex_coords@[j])@ == spec_records_at::<
                            RwTexCoords,
                        >(i@, l.tex_coords + j * stride, num_vertices as nat),
                decreases sets - c,
            {
                proof {
                    assert((c + 1) * stride == c * stride + stride) by (nonlinear_arith);
                    assert((c + 1) * stride <= sets * stride) by (nonlinear_arith)
                        requires
                            c + 1 <= sets,
                            0 <= stride,
                    ;
                }
                let set: Vec<RwTexCoords> = read_records::<RwTexCoords>(i, at, num_vertices)?;
                tex_coords.push(set);
                at = at + 8 * (num_vertices as usize);
                c = c + 1;
            }
            triangles = read_records::<RpTriangle>(i, at, num_triangles)?;
            at = at + 8 * (num_triangles as usize);
        }
        assert(at == l.sphere);
        let _sphere: RwSphere = RwSphere::read_at(i, at)?;
        let has_vertices: u32 = read_le_u32(i, at + 16)?;
        let has_normals: u32 = read_le_u32(i, at + 20)?;
        at = at + 24;
        let mut vertices: Vec<RwV3d> = Vec::new();
        if has_vertices != 0 {
            vertices = read_records::<RwV3d>(i, at, num_vertices)?;
            at = at + 12 * (num_vertices as usize);
        }
        let mut normals: Vec<RwV3d> = Vec::new();
        if has_normals != 0 {
            normals = read_records::<RwV3d>(i, at, num_vertices)?;
            at = at + 12 * (num_vertices as usize);
        }
        let geometry = RpGeometry {
            format,
            num_triangles,
            num_vertices,
            num_morphs,
            surface_prop,
            prelit,
            tex_coords,
            triangles,
            vertices,
            normals,
        };
        proof {
            let m = Self::spec_model(i@, version);
            assert(geometry@.prelit =~= m.prelit);
            assert(geometry@.tex_coords =~~= m.tex_coords);
            assert(geometry@.triangles =~= m.triangles);
            assert(geometry@.vertices =~= m.vertices);
            assert(geometry@.normals =~= m.normals);
        }
        Ok((tail_from(i, at), geometry))
    }

    /// Whether the triangles form a strip rather than a list.
    pub fn is_tristrip(&self) -> (strip: bool)
        ensures
            strip == (self.format & RP_GEOMETRYTRISTRIP != 0),
    {
        self.format & RP_GEOMETRYTRISTRIP != 0
    }
}

/// Without the prelit bit no colors are decoded, whatever the number of
/// vertices.
pub proof fn lemma_no_colors_without_prelit(s: Seq<u8>, version: u32)
    requires
        le_u32_at(s, 0) & RP_GEOMETRYPRELIT == 0,
    ensures
        RpGeometry::spec_parse(s, version) matches Ok(geometry) ==> geometry.prelit
            == Seq::<RwRGBA>::empty(),
{
}

/// A native geometry has no colors, no texture coordinates and no
/// triangles. Its bounding sphere follows the header, with the surface
/// properties of old versions in between, and its vertex positions and
/// normals are decoded after the presence flags as in any other geometry.
pub proof fn lemma_native_keeps_sphere_and_vertices(s: Seq<u8>, version: u32)
    requires
        le_u32_at(s, 0) & RP_GEOMETRYNATIVE != 0,
    ensures
        RpGeometry::spec_layout_of(s, version).sphere == RpGeometry::spec_layout_of(
            s,
            version,
        ).prelit,
        RpGeometry::spec_parse(s, version) matches Ok(geometry) ==> {
            let n = le_u32_at(s, 8);
            let vertices_at = RpGeometry::spec_layout_of(s, version).prelit + 24;
            let has_vertices = le_u32_at(s, vertices_at - 8) != 0;
            let has_normals = le_u32_at(s, vertices_at - 4) != 0;
            let normals_at = vertices_at + if has_vertices {
                12 * n
            } else {
                0
            };
            &&& geometry.prelit == Seq::<RwRGBA>::empty()
            &&& geometry.tex_coords == Seq::<Seq<RwTexCoords>>::empty()
            &&& geometry.triangles == Seq::<RpTriangle>::empty()
            &&& geometry.vertices == if has_vertices {
                spec_records_at::<RwV3d>(s, vertices_at, n as nat)
            } else {
                Seq::<RwV3d>::empty()
            }
            &&& geometry.normals == if has_normals {
                spec_records_at::<RwV3d>(s, normals_at, n as nat)
            } else {
                Seq::<RwV3d>::empty()
            }
            &&& s.len() >= normals_at + if has_normals {
                12 * n
            } else {
                0
            }
        },
{
}

/// Every array of a decoded geometry has the length that the header and
/// the flags announce: one color, position and normal per vertex where
/// the array is present, one coordinate pair per vertex in each of the
/// texture coordinate sets, one record per triangle.
pub proof fn lemma_geometry_array_lengths(s: Seq<u8>, version: u32)
    ensures
        RpGeometry::spec_parse(s, version) matches Ok(geometry) ==> {
            let format = geometry.format;
            let native = RpGeometry::spec_is_native(format);
            &&& geometry.prelit.len() == if RpGeometry::spec_has_prelit(format) {
                geometry.num_vertices as int
            } else {
                0
            }
            &&& geometry.tex_coords.len() == if native {
                0
            } else {
                spec_num_tex_sets(format) as int
            }
            &&& forall|c: int|
                0 <= c < geometry.tex_coords.len() ==> (#[trigger] geometry.tex_coords[c]).len()
                    == geometry.num_vertices
            &&& geometry.triangles.len() == if native {
                0
            } else {
                geometry.num_triangles as int
            }
            &&& geometry.vertices.len() == 0 || geometry.vertices.len() == geometry.num_vertices
            &&& geometry.normals.len() == 0 || geometry.normals.len() == geometry.num_vertices
        },
{
}

} // verus!
