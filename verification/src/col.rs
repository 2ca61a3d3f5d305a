//! Collision models, version 1: a flat record file with a bounding volume
//! and arrays of spheres, boxes, vertices and faces.
//!
//! Floating-point fields are kept as their IEEE-754 single-precision bit
//! patterns, read as little-endian words; `f32::from_bits` gives the number.

use crate::bsf::geo::RwV3d;
use crate::wire::{
    le_u16_at, le_u32_at, read_le_u16, read_le_u32, read_records, read_u8, spec_records_at,
    strip_tag, tail_from, take_at, Record,
};
use crate::wire::ParseError;
use vstd::prelude::*;

verus! {

/// Why a collision file was refused.
#[derive(Clone, Copy, Debug, PartialEq, Eq, Structural)]
pub enum CollError {
    /// The file does not start with the four bytes `COLL`.
    BadMagic,
    /// The file ends before a field or an array does.
    TruncatedInput,
    /// The count between the spheres and the boxes is not zero: the file
    /// holds a section that version 1 does not define.
    UnknownSection,
}

/// The bounding volume of a model: a sphere and a box.
#[derive(Clone, Copy, Debug, PartialEq, Eq, Structural)]
pub struct TBounds {
    /// An `f32` bit pattern.
    pub radius: u32,
    pub center: RwV3d,
    pub min: RwV3d,
    pub max: RwV3d,
}

impl Record for TBounds {
    open spec fn spec_size() -> nat {
        40
    }

    /// The radius, then center, minimum and maximum.
    open spec fn spec_at(s: Seq<u8>, at: int) -> TBounds {
        TBounds {
            radius: le_u32_at(s, at),
            center: RwV3d::spec_at(s, at + 4),
            min: RwV3d::spec_at(s, at + 16),
            max: RwV3d::spec_at(s, at + 28),
        }
    }

    fn size() -> (n: usize) {
        40
    }

    fn read_at(i: &[u8], at: usize) -> (r: Result<TBounds, ParseError>) {
        if at > i.len() || i.len() - at < 40 {
            return Err(ParseError::TruncatedInput);
        }
        let radius: u32 = read_le_u32(i, at)?;
        let center: RwV3d = RwV3d::read_at(i, at + 4)?;
        let min: RwV3d = RwV3d::read_at(i, at + 16)?;
        let max: RwV3d = RwV3d::read_at(i, at + 28)?;
        Ok(TBounds { radius, center, min, max })
    }
}

/// What a surface is made of and how it is lit.
#[derive(Clone, Copy, Debug, PartialEq, Eq, Structural)]
pub struct TSurface {
    pub material: u8,
    pub flag: u8,
    pub brightness: u8,
    pub light: u8,
}

impl Record for TSurface {
    open spec fn spec_size() -> nat {
        4
    }

    /// Material, flag, brightness, light: one byte each.
    open spec fn spec_at(s: Seq<u8>, at: int) -> TSurface {
        TSurface { material: s[at], flag: s[at + 1], brightness: s[at + 2], light: s[at + 3] }
    }

    fn size() -> (n: usize) {
        4
    }

    fn read_at(i: &[u8], at: usize) -> (r: Result<TSurface, ParseError>) {
        if at > i.len() || i.len() - at < 4 {
            return Err(ParseError::TruncatedInput);
        }
        let material: u8 = read_u8(i, at)?;
        let flag: u8 = read_u8(i, at + 1)?;
        let brightness: u8 = read_u8(i, at + 2)?;
        let light: u8 = read_u8(i, at + 3)?;
        Ok(TSurface { material, flag, brightness, light })
    }
}

/// A collision sphere.
#[derive(Clone, Copy, Debug, PartialEq, Eq, Structural)]
pub struct TSphere {
    /// An `f32` bit pattern.
    pub radius: u32,
    pub center: RwV3d,
    pub surface: TSurface,
}

impl Record for TSphere {
    open spec fn spec_size() -> nat {
        20
    }

    /// The radius, the center, the surface.
    open spec fn spec_at(s: Seq<u8>, at: int) -> TSphere {
        TSphere {
            radius: le_u32_at(s, at),
            center: RwV3d::spec_at(s, at + 4),
            surface: TSurface::spec_at(s, at + 16),
        }
    }

    fn size() -> (n: usize) {
        20
    }

    fn read_at(i: &[u8], at: usize) -> (r: Result<TSphere, ParseError>) {
        if at > i.len() || i.len() - at < 20 {
            return Err(ParseError::TruncatedInput);
        }
        let radius: u32 = read_le_u32(i, at)?;
        let center: RwV3d = RwV3d::read_at(i, at + 4)?;
        let surface: TSurface = TSurface::read_at(i, at + 16)?;
        Ok(TSphere { radius, center, surface })
    }
}

/// A collision box.
#[derive(Clone, Copy, Debug, PartialEq, Eq, Structural)]
pub struct TBox {
    pub min: RwV3d,
    pub max: RwV3d,
    pub surface: TSurface,
}

impl Record for TBox {
    open spec fn spec_size() -> nat {
        28
    }

    /// Minimum, maximum, surface.
    open spec fn spec_at(s: Seq<u8>, at: int) -> TBox {
        TBox {
            min: RwV3d::spec_at(s, at),
            max: RwV3d::spec_at(s, at + 12),
            surface: TSurface::spec_at(s, at + 24),
        }
    }

    fn size() -> (n: usize) {
        28
    }

    fn read_at(i: &[u8], at: usize) -> (r: Result<TBox, ParseError>) {
        if at > i.len() || i.len() - at < 28 {
            return Err(ParseError::TruncatedInput);
        }
        let min: RwV3d = RwV3d::read_at(i, at)?;
        let max: RwV3d = RwV3d::read_at(i, at + 12)?;
        let surface: TSurface = TSurface::read_at(i, at + 24)?;
        Ok(TBox { min, max, surface })
    }
}

/// A vertex of the collision mesh: three `f32` bit patterns.
#[derive(Clone, Copy, Debug)]
pub struct TVertex(pub [u32; 3]);

impl Record for TVertex {
    open spec fn spec_size() -> nat {
        12
    }

    /// Three words.
    open spec fn spec_at(s: Seq<u8>, at: int) -> TVertex {
        TVertex([le_u32_at(s, at), le_u32_at(s, at + 4), le_u32_at(s, at + 8)])
    }

    fn size() -> (n: usize) {
        12
    }

    fn read_at(i: &[u8], at: usize) -> (r: Result<TVertex, ParseError>) {
        if at > i.len() || i.len() - at < 12 {
            return Err(ParseError::TruncatedInput);
        }
        let x: u32 = read_le_u32(i, at)?;
        let y: u32 = read_le_u32(i, at + 4)?;
        let z: u32 = read_le_u32(i, at + 8)?;
        Ok(TVertex([x, y, z]))
    }
}

/// A triangle of the collision mesh: three vertex indices and a surface.
#[derive(Clone, Copy, Debug, PartialEq, Eq, Structural)]
pub struct TFace {
    pub a: u32,
    pub b: u32,
    pub c: u32,
    pub surface: TSurface,
}

impl Record for TFace {
    open spec fn spec_size() -> nat {
        16
    }

    /// The three indices, then the surface.
    open spec fn spec_at(s: Seq<u8>, at: int) -> TFace {
        TFace {
            a: le_u32_at(s, at),
            b: le_u32_at(s, at + 4),
            c: le_u32_at(s, at + 8),
            surface: TSurface::spec_at(s, at + 12),
        }
    }

    fn size() -> (n: usize) {
        16
    }

    fn read_at(i: &[u8], at: usize) -> (r: Result<TFace, ParseError>) {
        if at > i.len() || i.len() - at < 16 {
            return Err(ParseError::TruncatedInput);
        }
        let a: u32 = read_le_u32(i, at)?;
        let b: u32 = read_le_u32(i, at + 4)?;
        let c: u32 = read_le_u32(i, at + 8)?;
        let surface: TSurface = TSurface::read_at(i, at + 12)?;
        Ok(TFace { a, b, c, surface })
    }
}

/// Bytes of the model name.
pub const COLL_NAME_LEN: usize = 22;

/// The four bytes that every version 1 model starts with.
pub open spec fn spec_fourcc_v1() -> Seq<u8> {
    seq![0x43u8, 0x4Fu8, 0x4Cu8, 0x4Cu8]
}

/// One collision model.
#[derive(Debug)]
pub struct CollV1 {
    pub model_name: [u8; 22],
    pub model_id: u16,
    pub bounds: TBounds,
    pub spheres: Vec<TSphere>,
    pub boxes: Vec<TBox>,
    pub vertices: Vec<TVertex>,
    pub faces: Vec<TFace>,
}

/// What a collision model holds, as plain values.
pub struct CollModel {
    pub model_name: Seq<u8>,
    pub model_id: u16,
    pub bounds: TBounds,
    pub spheres: Seq<TSphere>,
    pub boxes: Seq<TBox>,
    pub vertices: Seq<TVertex>,
    pub faces: Seq<TFace>,
}

impl View for CollV1 {
    type V = CollModel;

    open spec fn view(&self) -> CollModel {
        CollModel {
            model_name: self.model_name@,
            model_id: self.model_id,
            bounds: self.bounds,
            spheres: self.spheres@,
            boxes: self.boxes@,
            vertices: self.vertices@,
            faces: self.faces@,
        }
    }
}

impl Clone for CollV1 {
    fn clone(&self) -> (copy: Self)
        ensures
            copy@ == self@,
    {
        let spheres: Vec<TSphere> = self.spheres.clone();
        let boxes: Vec<TBox> = self.boxes.clone();
        let vertices: Vec<TVertex> = self.vertices.clone();
        let faces: Vec<TFace> = self.faces.clone();
        assert(spheres@ =~= self.spheres@);
        assert(boxes@ =~= self.boxes@);
        assert(vertices@ =~= self.vertices@);
        assert(faces@ =~= self.faces@);
        CollV1 {
            model_name: self.model_name,
            model_id: self.model_id,
            bounds: self.bounds,
            spheres,
            boxes,
            vertices,
            faces,
        }
    }
}

impl CollV1 {
    /// Number of spheres of the model at the front of `s`.
    pub open spec fn spec_num_spheres(s: Seq<u8>) -> u32 {
        le_u32_at(s, 72)
    }

    /// Where the count that must be zero stands: after the spheres.
    pub open spec fn spec_unknown_at(s: Seq<u8>) -> int {
        76 + 20 * Self::spec_num_spheres(s)
    }

    /// Where the boxes start: after the zero count and their own count.
    pub open spec fn spec_boxes_at(s: Seq<u8>) -> int {
        Self::spec_unknown_at(s) + 8
    }

    pub open spec fn spec_num_boxes(s: Seq<u8>) -> u32 {
        le_u32_at(s, Self::spec_boxes_at(s) - 4)
    }

    /// Where the vertices start: after the boxes and the vertex count.
    pub open spec fn spec_vertices_at(s: Seq<u8>) -> int {
        Self::spec_boxes_at(s) + 28 * Self::spec_num_boxes(s) + 4
    }

    pub open spec fn spec_num_vertices(s: Seq<u8>) -> u32 {
        le_u32_at(s, Self::spec_vertices_at(s) - 4)
    }

    /// Where the faces start: after the vertices and the face count.
    pub open spec fn spec_faces_at(s: Seq<u8>) -> int {
        Self::spec_vertices_at(s) + 12 * Self::spec_num_vertices(s) + 4
    }

    pub open spec fn spec_num_faces(s: Seq<u8>) -> u32 {
        le_u32_at(s, Self::spec_faces_at(s) - 4)
    }

    /// Bytes taken by the model at the front of `s`.
    pub open spec fn spec_len(s: Seq<u8>) -> int {
        Self::spec_faces_at(s) + 16 * Self::spec_num_faces(s)
    }

    /// The model stored at the front of `s`, which holds all of it.
    pub open spec fn spec_model(s: Seq<u8>) -> CollModel {
        CollModel {
            model_name: s.subrange(8, 30),
            model_id: le_u16_at(s, 30),
            bounds: TBounds::spec_at(s, 32),
            spheres: spec_records_at::<TSphere>(s, 76, Self::spec_num_spheres(s) as nat),
            boxes: spec_records_at::<TBox>(
                s,
                Self::spec_boxes_at(s),
                Self::spec_num_boxes(s) as nat,
            ),
            vertices: spec_records_at::<TVertex>(
                s,
                Self::spec_vertices_at(s),
                Self::spec_num_vertices(s) as nat,
            ),
            faces: spec_records_at::<TFace>(
                s,
                Self::spec_faces_at(s),
                Self::spec_num_faces(s) as nat,
            ),
        }
    }

    /// What decoding `s` as a collision model gives. After the magic
    /// come a size word that is skipped, the name, the id and the
    /// bounds, then four counted arrays; between the first and the second
    /// stands one more count, which must be zero. The fields are taken
    /// in order and the first that cannot be had decides the error.
    pub open spec fn spec_parse(s: Seq<u8>) -> Result<CollModel, CollError> {
        if !spec_fourcc_v1().is_prefix_of(s) {
            Err(CollError::BadMagic)
        } else if s.len() < 76 || s.len() < Self::spec_unknown_at(s) + 4 {
            Err(CollError::TruncatedInput)
        } else if le_u32_at(s, Self::spec_unknown_at(s)) != 0 {
            Err(CollError::UnknownSection)
        } else if s.len() < Self::spec_boxes_at(s) || s.len() < Self::spec_vertices_at(s)
            || s.len() < Self::spec_faces_at(s) || s.len() < Self::spec_len(s) {
            Err(CollError::TruncatedInput)
        } else {
            Ok(Self::spec_model(s))
        }
    }

    /// Decodes the collision model at the front of `i` and hands back
    /// what follows it.
    pub fn parse<'a>(i: &'a [u8]) -> (r: Result<(&'a [u8], CollV1), CollError>)
        ensures
            match r {
                Ok((rest, model)) => Self::spec_parse(i@) == Ok::<CollModel, CollError>(model@)
                    && rest@ == i@.skip(Self::spec_len(i@)),
                Err(e) => Self::spec_parse(i@) == Err::<CollModel, CollError>(e),
            },
    {
        let len: usize = i.len();
        let fourcc: [u8; 4] = [0x43, 0x4F, 0x4C, 0x4C];
        assert(fourcc@ =~= spec_fourcc_v1());
        if strip_tag(i, fourcc.as_slice()).is_none() {
            return Err(CollError::BadMagic);
        }
        let _file_size: u32 = truncated(read_le_u32(i, 4))?;
        let name: &[u8] = match take_at(i, 8, COLL_NAME_LEN) {
            Some(n) => n,
            None => return Err(CollError::TruncatedInput),
        };
        let mut model_name: [u8; 22] = [0u8; 22];
        let mut k: usize = 0;
        while k < 22
            invariant
                k <= 22,
                name@.len() == 22,
                forall|j: int| 0 <= j < k ==> model_name@[j] == name@[j],
            decreases 22 - k,
        {
            model_name[k] = name[k];
            k = k + 1;
        }
        assert(model_name@ =~= i@.subrange(8, 30));
        let model_id: u16 = truncated(read_le_u16(i, 30))?;
        let bounds: TBounds = truncated(TBounds::read_at(i, 32))?;
        let num_spheres: u32 = truncated(read_le_u32(i, 72))?;
        let spheres: Vec<TSphere> = truncated(read_records::<TSphere>(i, 76, num_spheres))?;
        let mut at: usize = 76 + 20 * (num_spheres as usize);
        let num_unknown: u32 = truncated(read_le_u32(i, at))?;
        if num_unknown != 0 {
            return Err(CollError::UnknownSection);
        }
        let num_boxes: u32 = truncated(read_le_u32(i, at + 4))?;
        at = at + 8;
        let boxes: Vec<TBox> = truncated(read_records::<TBox>(i, at, num_boxes))?;
        at = at + 28 * (num_boxes as usize);
        let num_vertices: u32 = truncated(read_le_u32(i, at))?;
        at = at + 4;
        let vertices: Vec<TVertex> = truncated(read_records::<TVertex>(i, at, num_vertices))?;
        at = at + 12 * (num_vertices as usize);
        let num_faces: u32 = truncated(read_le_u32(i, at))?;
        at = at + 4;
        let faces: Vec<TFace> = truncated(read_records::<TFace>(i, at, num_faces))?;
        at = at + 16 * (num_faces as usize);
        Ok(
            (
                tail_from(i, at),
                CollV1 { model_name, model_id, bounds, spheres, boxes, vertices, faces },
            ),
        )
    }
}

/// Carries a read of a fixed-size field or a counted array over to the
/// errors of a collision file. Such a read fails in one way only.
fn truncated<T>(r: Result<T, ParseError>) -> (out: Result<T, CollError>)
    ensures
        match r {
            Ok(v) => out == Ok::<T, CollError>(v),
            Err(_) => out == Err::<T, CollError>(CollError::TruncatedInput),
        },
{
    match r {
        Ok(v) => Ok(v),
        Err(_) => Err(CollError::TruncatedInput),
    }
}

} // verus!
