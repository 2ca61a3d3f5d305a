//! Decoder for RenderWare binary stream files: a self-describing tree of
//! framed chunks holding geometry, materials and textures.
//!
//! Every decoder is a total function of its input bytes. What it returns is
//! stated over `Seq<u8>` by the spec functions that stand beside it.

pub mod wire;
pub mod bsf;
pub mod col;
pub mod img;
