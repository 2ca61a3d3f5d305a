//! The chunk tree: headers, the version codec, the content dispatcher and
//! the tree builder.
//!
//! A stream is one chunk. A chunk is a twelve-byte header followed by as
//! many payload bytes as the header declares. The payload of a container
//! is a sequence of chunks that fills it exactly; the payload of any other
//! chunk is decoded by the grammar that its type tag selects.

pub mod geo;
pub mod tex;

use crate::bsf::geo::{GeometryModel, RpGeometry};
use crate::bsf::tex::{RasterModel, RpMaterial, RpRasterPC, RpTexture};
use crate::wire::{le_u32_at, read_le_u32, tail_from, take_at, utf8_text, ParseError, Record};
use vstd::prelude::*;
use vstd::slice::slice_to_vec;
use vstd::utf8::{decode_utf8, valid_utf8};

verus! {

/// Mask of the half of a library id that tells the two packings apart.
pub const LIB_ID_MODERN_MASK: u32 = 0xFFFF0000;

/// The format version packed into a library id.
pub open spec fn spec_chunk_version(lib_id: u32) -> u32 {
    if lib_id & LIB_ID_MODERN_MASK != 0 {
        ((((lib_id >> 14) & 0x3FF00) + 0x30000) as u32) | ((lib_id >> 16) & 0x3F)
    } else {
        lib_id << 8
    }
}

/// The build number packed into a library id.
pub open spec fn spec_chunk_build(lib_id: u32) -> u32 {
    if lib_id & LIB_ID_MODERN_MASK != 0 {
        lib_id & 0xFFFF
    } else {
        0
    }
}

/// Unpacks the format version of a library id. Ids with a nonzero upper half
/// use the modern packing, the others the legacy one.
pub fn get_chunk_version(lib_id: u32) -> (version: u32)
    ensures
        version == spec_chunk_version(lib_id),
{
    if lib_id & LIB_ID_MODERN_MASK != 0 {
        let hi: u32 = (lib_id >> 14) & 0x3FF00;
        assert(hi <= 0x3FF00) by (bit_vector)
            requires
                hi == (lib_id >> 14) & 0x3FF00,
        ;
        return (hi + 0x30000) | ((lib_id >> 16) & 0x3F);
    }
    lib_id << 8
}

/// Unpacks the build number of a library id; legacy ids carry none.
pub fn get_chunk_build(lib_id: u32) -> (build: u32)
    ensures
        build == spec_chunk_build(lib_id),
{
    if lib_id & LIB_ID_MODERN_MASK != 0 {
        return lib_id & 0xFFFF;
    }
    0
}

/// The type tags that this decoder knows by name.
#[derive(Clone, Copy, Debug, PartialEq, Eq, Structural)]
pub enum ChunkType {
    Struct,
    String,
    Extension,
    Camera,
    Texture,
    Material,
    MaterialList,
    FrameList,
    Geometry,
    Clump,
    Atomic,
    Raster,
    TextureDictionary,
    GeometryList,
    MaterialEffectsPLG,
    BinMeshPLG,
    Frame,
}

impl ChunkType {
    /// The tag that stands for this type in a header.
    pub open spec fn spec_code(self) -> u32 {
        match self {
            ChunkType::Struct => 0x00000001,
            ChunkType::String => 0x00000002,
            ChunkType::Extension => 0x00000003,
            ChunkType::Camera => 0x00000005,
            ChunkType::Texture => 0x00000006,
            ChunkType::Material => 0x00000007,
            ChunkType::MaterialList => 0x00000008,
            ChunkType::FrameList => 0x0000000E,
            ChunkType::Geometry => 0x0000000F,
            ChunkType::Clump => 0x00000010,
            ChunkType::Atomic => 0x00000014,
            ChunkType::Raster => 0x00000015,
            ChunkType::TextureDictionary => 0x00000016,
            ChunkType::GeometryList => 0x0000001A,
            ChunkType::MaterialEffectsPLG => 0x00000120,
            ChunkType::BinMeshPLG => 0x0000050E,
            ChunkType::Frame => 0x0253F2FE,
        }
    }

    /// The type that a tag names, if it names one.
    pub open spec fn spec_from_u32(tag: u32) -> Option<ChunkType> {
        if tag == 0x00000001 {
            Some(ChunkType::Struct)
        } else if tag == 0x00000002 {
            Some(ChunkType::String)
        } else if tag == 0x00000003 {
            Some(ChunkType::Extension)
        } else if tag == 0x00000005 {
            Some(ChunkType::Camera)
        } else if tag == 0x00000006 {
            Some(ChunkType::Texture)
        } else if tag == 0x00000007 {
            Some(ChunkType::Material)
        } else if tag == 0x00000008 {
            Some(ChunkType::MaterialList)
        } else if tag == 0x0000000E {
            Some(ChunkType::FrameList)
        } else if tag == 0x0000000F {
            Some(ChunkType::Geometry)
        } else if tag == 0x00000010 {
            Some(ChunkType::Clump)
        } else if tag == 0x00000014 {
            Some(ChunkType::Atomic)
        } else if tag == 0x00000015 {
            Some(ChunkType::Raster)
        } else if tag == 0x00000016 {
            Some(ChunkType::TextureDictionary)
        } else if tag == 0x0000001A {
            Some(ChunkType::GeometryList)
        } else if tag == 0x00000120 {
            Some(ChunkType::MaterialEffectsPLG)
        } else if tag == 0x0000050E {
            Some(ChunkType::BinMeshPLG)
        } else if tag == 0x0253F2FE {
            Some(ChunkType::Frame)
        } else {
            None
        }
    }

    /// Whether chunks of this type hold child chunks rather than data of
    /// their own.
    pub open spec fn spec_has_children(self) -> bool {
        !(self is Struct || self is String || self is Frame || self is BinMeshPLG
            || self is MaterialEffectsPLG)
    }

    /// The tag that stands for this type in a header.
    pub fn to_u32(self) -> (tag: u32)
        ensures
            tag == self.spec_code(),
            Self::spec_from_u32(tag) == Some(self),
    {
        match self {
            ChunkType::Struct => 0x00000001,
            ChunkType::String => 0x00000002,
            ChunkType::Extension => 0x00000003,
            ChunkType::Camera => 0x00000005,
            ChunkType::Texture => 0x00000006,
            ChunkType::Material => 0x00000007,
            ChunkType::MaterialList => 0x00000008,
            ChunkType::FrameList => 0x0000000E,
            ChunkType::Geometry => 0x0000000F,
            ChunkType::Clump => 0x00000010,
            ChunkType::Atomic => 0x00000014,
            ChunkType::Raster => 0x00000015,
            ChunkType::TextureDictionary => 0x00000016,
            ChunkType::GeometryList => 0x0000001A,
            ChunkType::MaterialEffectsPLG => 0x00000120,
            ChunkType::BinMeshPLG => 0x0000050E,
            ChunkType::Frame => 0x0253F2FE,
        }
    }

    /// The type that a tag names. Any tag is legal in a file; most name
    /// no type known here.
    pub fn from_u32(tag: u32) -> (r: Option<ChunkType>)
        ensures
            r == Self::spec_from_u32(tag),
            match r {
                Some(t) => t.spec_code() == tag,
                None => forall|t: ChunkType| t.spec_code() != tag,
            },
    {
        match tag {
            0x00000001 => Some(ChunkType::Struct),
            0x00000002 => Some(ChunkType::String),
            0x00000003 => Some(ChunkType::Extension),
            0x00000005 => Some(ChunkType::Camera),
            0x00000006 => Some(ChunkType::Texture),
            0x00000007 => Some(ChunkType::Material),
            0x00000008 => Some(ChunkType::MaterialList),
            0x0000000E => Some(ChunkType::FrameList),
            0x0000000F => Some(ChunkType::Geometry),
            0x00000010 => Some(ChunkType::Clump),
            0x00000014 => Some(ChunkType::Atomic),
            0x00000015 => Some(ChunkType::Raster),
            0x00000016 => Some(ChunkType::TextureDictionary),
            0x0000001A => Some(ChunkType::GeometryList),
            0x00000120 => Some(ChunkType::MaterialEffectsPLG),
            0x0000050E => Some(ChunkType::BinMeshPLG),
            0x0253F2FE => Some(ChunkType::Frame),
            _ => None,
        }
    }

    /// Whether chunks of this type hold child chunks rather than data of
    /// their own.
    pub fn has_children(&self) -> (b: bool)
        ensures
            b == self.spec_has_children(),
    {
        match self {
            ChunkType::Struct
            | ChunkType::String
            | ChunkType::Frame
            | ChunkType::BinMeshPLG
            | ChunkType::MaterialEffectsPLG => false,
            _ => true,
        }
    }
}

/// Whether a tag marks a container. Only known tags do; a tag that names
/// no known type marks a leaf.
pub open spec fn spec_is_container(tag: u32) -> bool {
    match ChunkType::spec_from_u32(tag) {
        Some(t) => t.spec_has_children(),
        None => false,
    }
}

/// Whether a tag marks a container.
pub fn is_container(tag: u32) -> (b: bool)
    ensures
        b == spec_is_container(tag),
{
    match ChunkType::from_u32(tag) {
        Some(t) => t.has_children(),
        None => false,
    }
}

/// Bytes of a chunk header.
pub const CHUNK_HEADER_LEN: usize = 12;

/// The header of a chunk, with the version and build that its library id
/// unpacks to.
#[derive(Clone, Copy, Debug, PartialEq, Eq, Structural)]
pub struct ChunkHeader {
    /// The type tag. Any value is legal.
    pub ty: u32,
    /// Bytes of payload that follow the header.
    pub size: u32,
    /// The packed library id as stored.
    pub lib_id: u32,
    pub version: u32,
    pub build: u32,
}

impl Record for ChunkHeader {
    open spec fn spec_size() -> nat {
        12
    }

    /// Three words: type tag, payload size, library id.
    open spec fn spec_at(s: Seq<u8>, at: int) -> ChunkHeader {
        let lib_id = le_u32_at(s, at + 8);
        ChunkHeader {
            ty: le_u32_at(s, at),
            size: le_u32_at(s, at + 4),
            lib_id,
            version: spec_chunk_version(lib_id),
            build: spec_chunk_build(lib_id),
        }
    }

    fn size() -> (n: usize) {
        CHUNK_HEADER_LEN
    }

    fn read_at(i: &[u8], at: usize) -> (r: Result<ChunkHeader, ParseError>) {
        if at > i.len() || i.len() - at < 12 {
            return Err(ParseError::TruncatedInput);
        }
        let ty: u32 = read_le_u32(i, at)?;
        let size: u32 = read_le_u32(i, at + 4)?;
        let lib_id: u32 = read_le_u32(i, at + 8)?;
        Ok(
            ChunkHeader {
                ty,
                size,
                lib_id,
                version: get_chunk_version(lib_id),
                build: get_chunk_build(lib_id),
            },
        )
    }
}

impl ChunkHeader {
    /// Bytes of the whole chunk: header and payload.
    pub open spec fn spec_framed_len(self) -> int {
        12 + self.size
    }

    /// Reads the header at the front of `i` and hands back what follows
    /// it. Whether the payload fits is not looked at.
    pub fn parse<'a>(i: &'a [u8]) -> (r: Result<(&'a [u8], ChunkHeader), ParseError>)
        ensures
            match r {
                Ok((rest, header)) => i@.len() >= 12 && header == Self::spec_at(i@, 0) && rest@
                    == i@.skip(12),
                Err(e) => i@.len() < 12 && e == ParseError::TruncatedInput,
            },
    {
        let header: ChunkHeader = Self::read_at(i, 0)?;
        Ok((tail_from(i, CHUNK_HEADER_LEN), header))
    }
}

/// What a chunk holds besides its children.
#[derive(Debug)]
pub enum ChunkContent {
    /// The tag and the untouched payload of a leaf that has no grammar
    /// here: a tag unknown to this decoder, or a known one that is left
    /// unparsed.
    Section(u32, Vec<u8>),
    /// The untouched payload of a struct chunk. A container that starts
    /// with such a child has its own content decoded from these bytes.
    Struct(Vec<u8>),
    String(String),
    Extension,
    Camera,
    Texture(RpTexture),
    Material(RpMaterial),
    MaterialList,
    FrameList,
    Geometry(RpGeometry),
    Clump,
    Atomic,
    Raster(RpRasterPC),
    TextureDictionary,
    GeometryList,
    /// A texture, material, geometry or raster container that does not
    /// start with a struct child, and so has nothing to decode.
    Empty,
}

/// What a chunk holds besides its children, as plain values.
pub enum ContentModel {
    Section(u32, Seq<u8>),
    Struct(Seq<u8>),
    String(Seq<char>),
    Extension,
    Camera,
    Texture(RpTexture),
    Material(RpMaterial),
    MaterialList,
    FrameList,
    Geometry(GeometryModel),
    Clump,
    Atomic,
    Raster(RasterModel),
    TextureDictionary,
    GeometryList,
    Empty,
}

impl View for ChunkContent {
    type V = ContentModel;

    open spec fn view(&self) -> ContentModel {
        match self {
            ChunkContent::Section(tag, bytes) => ContentModel::Section(*tag, bytes@),
            ChunkContent::Struct(bytes) => ContentModel::Struct(bytes@),
            ChunkContent::String(text) => ContentModel::String(text@),
            ChunkContent::Extension => ContentModel::Extension,
            ChunkContent::Camera => ContentModel::Camera,
            ChunkContent::Texture(t) => ContentModel::Texture(*t),
            ChunkContent::Material(m) => ContentModel::Material(*m),
            ChunkContent::MaterialList => ContentModel::MaterialList,
            ChunkContent::FrameList => ContentModel::FrameList,
            ChunkContent::Geometry(g) => ContentModel::Geometry(g@),
            ChunkContent::Clump => ContentModel::Clump,
            ChunkContent::Atomic => ContentModel::Atomic,
            ChunkContent::Raster(r) => ContentModel::Raster(r@),
            ChunkContent::TextureDictionary => ContentModel::TextureDictionary,
            ChunkContent::GeometryList => ContentModel::GeometryList,
            ChunkContent::Empty => ContentModel::Empty,
        }
    }
}

impl Clone for ChunkContent {
    fn clone(&self) -> (copy: Self)
        ensures
            copy@ == self@,
    {
        match self {
            ChunkContent::Section(tag, bytes) => {
                let data: Vec<u8> = bytes.clone();
                assert(data@ =~= bytes@);
                ChunkContent::Section(*tag, data)
            },
            ChunkContent::Struct(bytes) => {
                let data: Vec<u8> = bytes.clone();
                assert(data@ =~= bytes@);
                ChunkContent::Struct(data)
            },
            ChunkContent::String(text) => ChunkContent::String(text.clone()),
            ChunkContent::Extension => ChunkContent::Extension,
            ChunkContent::Camera => ChunkContent::Camera,
            ChunkContent::Texture(t) => ChunkContent::Texture(*t),
            ChunkContent::Material(m) => ChunkContent::Material(*m),
            ChunkContent::MaterialList => ChunkContent::MaterialList,
            ChunkContent::FrameList => ChunkContent::FrameList,
            ChunkContent::Geometry(g) => ChunkContent::Geometry(g.clone()),
            ChunkContent::Clump => ChunkContent::Clump,
            ChunkContent::Atomic => ChunkContent::Atomic,
            ChunkContent::Raster(r) => ChunkContent::Raster(r.clone()),
            ChunkContent::TextureDictionary => ChunkContent::TextureDictionary,
            ChunkContent::GeometryList => ChunkContent::GeometryList,
            ChunkContent::Empty => ChunkContent::Empty,
        }
    }
}

/// One node of the tree.
#[derive(Debug)]
pub struct Chunk {
    pub header: ChunkHeader,
    pub content: ChunkContent,
    /// The children of a container, in stream order; `None` for a leaf.
    pub children: Option<Vec<Chunk>>,
}

/// One node of the tree, as plain values.
pub struct ChunkModel {
    pub header: ChunkHeader,
    pub content: ContentModel,
    pub children: Option<Seq<ChunkModel>>,
}

impl Chunk {
    /// This chunk and everything below it, as plain values.
    pub open spec fn spec_model(&self) -> ChunkModel
        decreases self,
    {
        ChunkModel {
            header: self.header,
            content: self.content@,
            children: match self.children {
                Some(v) => Some(
                    Seq::new(
                        v@.len(),
                        |k: int|
                            if 0 <= k < v@.len() {
                                v@[k].spec_model()
                            } else {
                                arbitrary()
                            },
                    ),
                ),
                None => None,
            },
        }
    }
}

impl View for Chunk {
    type V = ChunkModel;

    open spec fn view(&self) -> ChunkModel {
        self.spec_model()
    }
}

impl Clone for Chunk {
    /// A copy of the whole subtree.
    fn clone(&self) -> (copy: Self)
        ensures
            copy@ == self@,
        decreases self, 0int,
    {
        let children: Option<Vec<Chunk>> = match &self.children {
            Some(v) => Some(clone_chunks(v)),
            None => None,
        };
        let copy = Chunk { header: self.header, content: self.content.clone(), children };
        proof {
            if self.children is Some {
                assert(copy.spec_model().children->Some_0 =~= self.spec_model().children->Some_0);
            }
        }
        copy
    }
}

/// A copy of each of the given subtrees.
fn clone_chunks(chunks: &Vec<Chunk>) -> (copy: Vec<Chunk>)
    ensures
        copy@.len() == chunks@.len(),
        forall|j: int| 0 <= j < chunks@.len() ==> (#[trigger] copy@[j])@ == chunks@[j]@,
    decreases chunks, 1int,
{
    let mut out: Vec<Chunk> = Vec::with_capacity(chunks.len());
    let mut k: usize = 0;
    while k < chunks.len()
        invariant
            k <= chunks.len(),
            out@.len() == k,
            forall|j: int| 0 <= j < k ==> (#[trigger] out@[j])@ == chunks@[j]@,
        decreases chunks.len() - k,
    {
        out.push(chunks[k].clone());
        k = k + 1;
    }
    out
}

/// The models of a sequence of chunks.
pub open spec fn spec_models(chunks: Seq<Chunk>) -> Seq<ChunkModel> {
    Seq::new(chunks.len(), |k: int| chunks[k]@)
}

/// `s` without the characters equal to `c` at its front.
pub open spec fn spec_trim_start(s: Seq<char>, c: char) -> Seq<char>
    decreases s.len(),
{
    if s.len() > 0 && s.first() == c {
        spec_trim_start(s.drop_first(), c)
    } else {
        s
    }
}

/// `s` without the characters equal to `c` at its end.
pub open spec fn spec_trim_end(s: Seq<char>, c: char) -> Seq<char>
    decreases s.len(),
{
    if s.len() > 0 && s.last() == c {
        spec_trim_end(s.drop_last(), c)
    } else {
        s
    }
}

/// `s` without the characters equal to `c` at either end.
pub open spec fn spec_trim(s: Seq<char>, c: char) -> Seq<char> {
    spec_trim_end(spec_trim_start(s, c), c)
}

/// The text of a string chunk: its payload read as UTF-8, or nothing if
/// it is not well-formed, without the NUL characters at either end.
pub open spec fn spec_text(bytes: Seq<u8>) -> Seq<char> {
    spec_trim(
        if valid_utf8(bytes) {
            decode_utf8(bytes)
        } else {
            Seq::empty()
        },
        '\0',
    )
}

/// `str::trim_matches` with a character as the pattern. Not proved: the
/// result is the text without the characters equal to `c` at either end.
#[verifier::external_body]
fn str_trim_matches<'a>(text: &'a str, c: char) -> (r: &'a str)
    ensures
        r@ == spec_trim(text@, c),
{
    text.trim_matches(c)
}

/// Decodes the payload of a string chunk. Bytes that are not UTF-8 give
/// the empty string; it is not an error.
pub fn text_of(bytes: &[u8]) -> (text: String)
    ensures
        text@ == spec_text(bytes@),
{
    let decoded: &str = match utf8_text(bytes) {
        Some(t) => t,
        None => {
            proof {
                reveal_strlit("");
            }
            ""
        },
    };
    str_trim_matches(decoded, '\0').to_owned()
}

/// The content of a container of type `t` that has nothing to decode: the
/// marker of its type, or `Empty` for the types that have a grammar.
pub open spec fn spec_marker(t: ChunkType) -> ContentModel {
    match t {
        ChunkType::Extension => ContentModel::Extension,
        ChunkType::Camera => ContentModel::Camera,
        ChunkType::MaterialList => ContentModel::MaterialList,
        ChunkType::FrameList => ContentModel::FrameList,
        ChunkType::Clump => ContentModel::Clump,
        ChunkType::Atomic => ContentModel::Atomic,
        ChunkType::TextureDictionary => ContentModel::TextureDictionary,
        ChunkType::GeometryList => ContentModel::GeometryList,
        _ => ContentModel::Empty,
    }
}

/// The content of a container of type `t` that has nothing to decode.
pub fn marker(t: ChunkType) -> (content: ChunkContent)
    ensures
        content@ == spec_marker(t),
{
    match t {
        ChunkType::Extension => ChunkContent::Extension,
        ChunkType::Camera => ChunkContent::Camera,
        ChunkType::MaterialList => ChunkContent::MaterialList,
        ChunkType::FrameList => ChunkContent::FrameList,
        ChunkType::Clump => ChunkContent::Clump,
        ChunkType::Atomic => ChunkContent::Atomic,
        ChunkType::TextureDictionary => ChunkContent::TextureDictionary,
        ChunkType::GeometryList => ChunkContent::GeometryList,
        _ => ChunkContent::Empty,
    }
}

/// What the bytes of a chunk of the given tag and version decode to.
///
/// A struct chunk keeps its bytes and a string chunk its text. Texture,
/// material, geometry and raster have grammars of their own, and only
/// these can fail. The other containers are markers. Everything else,
/// any unknown tag included, keeps its tag and its bytes.
pub open spec fn spec_chunk_content(ty: u32, version: u32, bytes: Seq<u8>) -> Result<
    ContentModel,
    ParseError,
> {
    match ChunkType::spec_from_u32(ty) {
        Some(ChunkType::Struct) => Ok(ContentModel::Struct(bytes)),
        Some(ChunkType::String) => Ok(ContentModel::String(spec_text(bytes))),
        Some(ChunkType::Texture) => match RpTexture::spec_parse(bytes) {
            Ok(t) => Ok(ContentModel::Texture(t)),
            Err(e) => Err(e),
        },
        Some(ChunkType::Material) => match RpMaterial::spec_parse(bytes, version) {
            Ok(m) => Ok(ContentModel::Material(m)),
            Err(e) => Err(e),
        },
        Some(ChunkType::Geometry) => match RpGeometry::spec_parse(bytes, version) {
            Ok(g) => Ok(ContentModel::Geometry(g)),
            Err(e) => Err(e),
        },
        Some(ChunkType::Raster) => match RpRasterPC::spec_parse(bytes, version) {
            Ok(r) => Ok(ContentModel::Raster(r)),
            Err(e) => Err(e),
        },
        Some(t) => if t.spec_has_children() {
            Ok(spec_marker(t))
        } else {
            Ok(ContentModel::Section(ty, bytes))
        },
        None => Ok(ContentModel::Section(ty, bytes)),
    }
}

/// Decodes the bytes of a chunk of the given tag and version. No tag is
/// refused: one without a grammar here keeps its bytes as they are.
pub fn parse_chunk_content(ty: u32, version: u32, i: &[u8]) -> (r: Result<ChunkContent, ParseError>)
    ensures
        match r {
            Ok(content) => spec_chunk_content(ty, version, i@) == Ok::<ContentModel, ParseError>(
                content@,
            ),
            Err(e) => spec_chunk_content(ty, version, i@) == Err::<ContentModel, ParseError>(e),
        },
        !spec_is_container(ty) ==> r is Ok,
{
    match ChunkType::from_u32(ty) {
        Some(ChunkType::Struct) => Ok(ChunkContent::Struct(slice_to_vec(i))),
        Some(ChunkType::String) => Ok(ChunkContent::String(text_of(i))),
        Some(ChunkType::Texture) => {
            let (_, texture) = RpTexture::parse(i)?;
            Ok(ChunkContent::Texture(texture))
        },
        Some(ChunkType::Material) => {
            let (_, material) = RpMaterial::parse(i, version)?;
            Ok(ChunkContent::Material(material))
        },
        Some(ChunkType::Geometry) => {
            let (_, geometry) = RpGeometry::parse(i, version)?;
            Ok(ChunkContent::Geometry(geometry))
        },
        Some(ChunkType::Raster) => {
            let (_, raster) = RpRasterPC::parse(i, version)?;
            Ok(ChunkContent::Raster(raster))
        },
        Some(t) => if t.has_children() {
            Ok(marker(t))
        } else {
            Ok(ChunkContent::Section(ty, slice_to_vec(i)))
        },
        None => Ok(ChunkContent::Section(ty, slice_to_vec(i))),
    }
}

/// The content of a container, given its decoded children. Where the
/// first child is a struct chunk, the bytes of that child are decoded by
/// the grammar of the container's own tag; the child stays in the list.
pub open spec fn spec_container_content(
    ty: u32,
    version: u32,
    children: Seq<ChunkModel>,
) -> Result<ContentModel, ParseError> {
    if children.len() > 0 && children[0].content is Struct {
        spec_chunk_content(ty, version, children[0].content->Struct_0)
    } else {
        match ChunkType::spec_from_u32(ty) {
            Some(t) => Ok(spec_marker(t)),
            None => Ok(ContentModel::Empty),
        }
    }
}

/// What follows the chunk at the front of `s`; nothing where `s` ends
/// before that chunk does.
pub open spec fn spec_after_chunk(s: Seq<u8>) -> Seq<u8> {
    if s.len() >= 12 + le_u32_at(s, 4) {
        s.skip(12 + le_u32_at(s, 4))
    } else {
        Seq::empty()
    }
}

/// What decoding the chunk at the front of `s` gives.
///
/// The header needs twelve bytes, and the payload it declares must lie
/// within `s`. A container's payload is decoded as its children, a leaf's
/// by the grammar of its tag. Any error inside ends the whole decode.
pub open spec fn spec_parse_chunk(s: Seq<u8>) -> Result<ChunkModel, ParseError>
    decreases s.len(), 0int,
{
    if s.len() < 12 {
        Err(ParseError::TruncatedInput)
    } else {
        let header = ChunkHeader::spec_at(s, 0);
        if header.size > s.len() - 12 {
            Err(ParseError::BoundsError)
        } else {
            match spec_parse_payload(s.subrange(12, 12 + header.size), header.ty, header.version) {
                Ok((content, children)) => Ok(ChunkModel { header, content, children }),
                Err(e) => Err(e),
            }
        }
    }
}

/// What decoding the payload `s` of a chunk of the given tag and version
/// gives: its content and, for a container, its children.
pub open spec fn spec_parse_payload(s: Seq<u8>, ty: u32, version: u32) -> Result<
    (ContentModel, Option<Seq<ChunkModel>>),
    ParseError,
>
    decreases s.len(), 2int,
{
    if spec_is_container(ty) {
        match spec_parse_children(s) {
            Ok(children) => match spec_container_content(ty, version, children) {
                Ok(content) => Ok((content, Some(children))),
                Err(e) => Err(e),
            },
            Err(e) => Err(e),
        }
    } else {
        match spec_chunk_content(ty, version, s) {
            Ok(content) => Ok((content, None)),
            Err(e) => Err(e),
        }
    }
}

/// What decoding `s` as a run of sibling chunks gives: chunk after chunk
/// until nothing is left.
pub open spec fn spec_parse_children(s: Seq<u8>) -> Result<Seq<ChunkModel>, ParseError>
    decreases s.len(), 1int,
{
    if s.len() == 0 {
        Ok(Seq::empty())
    } else {
        match spec_parse_chunk(s) {
            Ok(first) => match spec_parse_children(spec_after_chunk(s)) {
                Ok(others) => Ok(seq![first] + others),
                Err(e) => Err(e),
            },
            Err(e) => Err(e),
        }
    }
}

/// The siblings decoded so far, followed by what the rest of the run
/// decodes to.
pub open spec fn spec_siblings(
    done: Seq<ChunkModel>,
    rest: Result<Seq<ChunkModel>, ParseError>,
) -> Result<Seq<ChunkModel>, ParseError> {
    match rest {
        Ok(others) => Ok(done + others),
        Err(e) => Err(e),
    }
}

impl ChunkContent {
    /// Decodes the payload of a chunk of the given tag and version: the
    /// children and the content of a container, the content of a leaf.
    pub fn parse(i: &[u8], ty: u32, version: u32) -> (r: Result<
        (ChunkContent, Option<Vec<Chunk>>),
        ParseError,
    >)
        ensures
            match r {
                Ok((content, children)) => spec_parse_payload(i@, ty, version) == Ok::<
                    (ContentModel, Option<Seq<ChunkModel>>),
                    ParseError,
                >(
                    (
                        content@,
                        match children {
                            Some(v) => Some(spec_models(v@)),
                            None => None,
                        },
                    ),
                ),
                Err(e) => spec_parse_payload(i@, ty, version) == Err::<
                    (ContentModel, Option<Seq<ChunkModel>>),
                    ParseError,
                >(e),
            },
        decreases i@.len(), 1int,
    {
        let t: ChunkType = match ChunkType::from_u32(ty) {
            Some(t) => t,
            None => {
                return Ok((parse_chunk_content(ty, version, i)?, None));
            },
        };
        if !t.has_children() {
            return Ok((parse_chunk_content(ty, version, i)?, None));
        }
        let mut children: Vec<Chunk> = Vec::new();
        let mut rest: &[u8] = i;
        assert(Seq::<ChunkModel>::empty() + spec_parse_children(i@)->Ok_0 =~= spec_parse_children(
            i@,
        )->Ok_0);
        while rest.len() > 0
            invariant
                rest@.len() <= i@.len(),
                spec_is_container(ty),
                spec_parse_children(i@) == spec_siblings(
                    spec_models(children@),
                    spec_parse_children(rest@),
                ),
            decreases rest@.len(),
        {
            let ghost done = spec_models(children@);
            let ghost before = rest@;
            let (after, child) = Chunk::parse(rest)?;
            proof {
                let others = spec_parse_children(spec_after_chunk(before));
                assert(after@ == spec_after_chunk(before));
                assert(spec_models(children@.push(child)) =~= done.push(child@));
                if others is Ok {
                    assert(done + (seq![child@] + others->Ok_0) =~= done.push(child@)
                        + others->Ok_0);
                }
            }
            children.push(child);
            rest = after;
        }
        proof {
            assert(spec_models(children@) + Seq::<ChunkModel>::empty() =~= spec_models(children@));
        }
        let content: ChunkContent = if children.len() > 0 {
            match &children[0].content {
                ChunkContent::Struct(bytes) => parse_chunk_content(ty, version, bytes.as_slice())?,
                _ => marker(t),
            }
        } else {
            marker(t)
        };
        Ok((content, Some(children)))
    }
}

impl Chunk {
    /// Decodes the chunk at the front of `i` and hands back what follows
    /// it. The chunk takes its header and exactly the payload that the
    /// header declares.
    pub fn parse<'a>(i: &'a [u8]) -> (r: Result<(&'a [u8], Chunk), ParseError>)
        ensures
            match r {
                Ok((rest, chunk)) => spec_parse_chunk(i@) == Ok::<ChunkModel, ParseError>(chunk@)
                    && i@.len() >= 12 + chunk.header.size && rest@ == i@.skip(
                    12 + chunk.header.size,
                ),
                Err(e) => spec_parse_chunk(i@) == Err::<ChunkModel, ParseError>(e),
            },
            i@.len() < 12 ==> r matches Err(ParseError::TruncatedInput),
            i@.len() >= 12 && le_u32_at(i@, 4) > i@.len() - 12 ==> r matches Err(
                ParseError::BoundsError,
            ),
        decreases i@.len(), 0int,
    {
        let len: usize = i.len();
        let (_, header) = ChunkHeader::parse(i)?;
        let data: &[u8] = match take_at(i, CHUNK_HEADER_LEN, header.size as usize) {
            Some(d) => d,
            None => return Err(ParseError::BoundsError),
        };
        let (content, children) = ChunkContent::parse(data, header.ty, header.version)?;
        let chunk = Chunk { header, content, children };
        proof {
            if chunk.children is Some {
                assert(chunk@.children->Some_0 =~= spec_models(chunk.children->Some_0@));
            }
        }
        Ok((tail_from(i, CHUNK_HEADER_LEN + header.size as usize), chunk))
    }

    /// The children of this chunk; a leaf has none.
    pub fn get_children(&self) -> (children: &[Chunk])
        ensures
            children@ == self.spec_children(),
    {
        match &self.children {
            Some(children) => children.as_slice(),
            None => &[],
        }
    }

    /// The children of this chunk; a leaf has none.
    pub open spec fn spec_children(&self) -> Seq<Chunk> {
        match self.children {
            Some(v) => v@,
            None => Seq::empty(),
        }
    }
}

/// Bytes taken by a run of sibling chunks: the header and the payload of
/// each.
pub open spec fn spec_framed_total(chunks: Seq<ChunkModel>) -> int
    decreases chunks.len(),
{
    if chunks.len() == 0 {
        0
    } else {
        chunks[0].header.spec_framed_len() + spec_framed_total(chunks.drop_first())
    }
}

/// A chunk whose header declares more payload than the buffer holds after
/// the header is refused with a bounds error, whatever its tag.
pub proof fn lemma_oversized_payload_is_bounds_error(s: Seq<u8>)
    requires
        s.len() >= 12,
        le_u32_at(s, 4) > s.len() - 12,
    ensures
        spec_parse_chunk(s) == Err::<ChunkModel, ParseError>(ParseError::BoundsError),
{
}

/// A buffer that ends before the header does is truncated input.
pub proof fn lemma_short_header_is_truncated(s: Seq<u8>)
    requires
        s.len() < 12,
    ensures
        spec_parse_chunk(s) == Err::<ChunkModel, ParseError>(ParseError::TruncatedInput),
{
}

/// A chunk that decodes carries the header at the front of the buffer and
/// takes exactly that header and the payload it declares. It has a list of
/// children exactly if its tag marks a container, and those children take
/// the payload to its last byte.
pub proof fn lemma_chunk_takes_its_frame(s: Seq<u8>)
    ensures
        spec_parse_chunk(s) matches Ok(chunk) ==> {
            &&& chunk.header == ChunkHeader::spec_at(s, 0)
            &&& chunk.header.spec_framed_len() <= s.len()
            &&& chunk.children is Some <==> spec_is_container(chunk.header.ty)
            &&& chunk.children matches Some(children) ==> spec_framed_total(children)
                == chunk.header.size
        },
{
    if s.len() >= 12 {
        let header = ChunkHeader::spec_at(s, 0);
        if header.size <= s.len() - 12 {
            lemma_siblings_fill_their_run(s.subrange(12, 12 + header.size));
        }
    }
}

/// A run of sibling chunks that decodes is used up to its last byte: the
/// headers and payloads of the siblings together are as long as the run.
pub proof fn lemma_siblings_fill_their_run(s: Seq<u8>)
    ensures
        spec_parse_children(s) matches Ok(children) ==> spec_framed_total(children) == s.len(),
    decreases s.len(),
{
    if s.len() > 0 {
        if let Ok(first) = spec_parse_chunk(s) {
            lemma_siblings_fill_their_run(spec_after_chunk(s));
            if let Ok(others) = spec_parse_children(spec_after_chunk(s)) {
                assert((seq![first] + others).drop_first() =~= others);
            }
        }
    }
}

/// What a chunk decodes to depends on its own bytes alone: whatever
/// follows its frame in the buffer changes nothing.
pub proof fn lemma_chunk_ignores_what_follows(s: Seq<u8>)
    requires
        s.len() >= 12 + le_u32_at(s, 4),
    ensures
        spec_parse_chunk(s) == spec_parse_chunk(s.take(12 + le_u32_at(s, 4))),
{
    let n = 12 + le_u32_at(s, 4);
    let t = s.take(n);
    assert(ChunkHeader::spec_at(t, 0) == ChunkHeader::spec_at(s, 0));
    assert(t.subrange(12, n) =~= s.subrange(12, n));
}

/// A tag that names no known type never fails a decode: the chunk is a
/// leaf that keeps its tag and its payload as they are.
pub proof fn lemma_unknown_tag_is_kept(s: Seq<u8>)
    requires
        s.len() >= 12 + le_u32_at(s, 4),
        ChunkType::spec_from_u32(le_u32_at(s, 0)) is None,
    ensures
        spec_parse_chunk(s) == Ok::<ChunkModel, ParseError>(
            ChunkModel {
                header: ChunkHeader::spec_at(s, 0),
                content: ContentModel::Section(
                    le_u32_at(s, 0),
                    s.subrange(12, 12 + le_u32_at(s, 4)),
                ),
                children: None,
            },
        ),
{
}

/// A leaf decodes whenever its frame lies within the buffer: struct,
/// string and opaque payloads accept any bytes.
pub proof fn lemma_whole_leaf_decodes(s: Seq<u8>)
    requires
        s.len() >= 12 + le_u32_at(s, 4),
        !spec_is_container(le_u32_at(s, 0)),
    ensures
        spec_parse_chunk(s) is Ok,
{
}

} // verus!
