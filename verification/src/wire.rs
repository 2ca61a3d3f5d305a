//! Little-endian primitives and the error type shared by all decoders.
//!
//! The byte-level reads are made by `nom`; the functions here place them at
//! an offset of a buffer and say exactly which value comes back.

use vstd::prelude::*;
use vstd::slice::slice_subrange;
use vstd::utf8::{decode_utf8, valid_utf8};

verus! {

/// Why a decode call gave up.
#[derive(Clone, Copy, Debug, PartialEq, Eq, Structural)]
pub enum ParseError {
    /// Fewer bytes remain than a fixed-size field or a counted array needs.
    TruncatedInput,
    /// A chunk declares a payload longer than what remains of the buffer.
    BoundsError,
    /// A byte or nibble names no enumerator.
    InvalidEnumValue,
}

/// The 16-bit little-endian value stored at `at`.
pub open spec fn le_u16_at(s: Seq<u8>, at: int) -> u16 {
    (s[at] as int + s[at + 1] as int * 0x100) as u16
}

/// The 32-bit little-endian value stored at `at`.
pub open spec fn le_u32_at(s: Seq<u8>, at: int) -> u32 {
    (s[at] as int + s[at + 1] as int * 0x100 + s[at + 2] as int * 0x1_0000 + s[at + 3] as int
        * 0x100_0000) as u32
}

/// `nom::number::complete::le_u8` on a byte slice. Not proved: the call
/// fails exactly on empty input, and otherwise hands back the first byte
/// and the input without it.
#[verifier::external_body]
fn nom_le_u8<'a>(i: &'a [u8]) -> (r: Option<(&'a [u8], u8)>)
    ensures
        match r {
            Some((rest, v)) => i@.len() >= 1 && rest@ == i@.skip(1) && v == i@[0],
            None => i@.len() < 1,
        },
{
    nom::number::complete::le_u8::<&[u8], nom::error::Error<&[u8]>>(i).ok()
}

/// `nom::number::complete::le_u16` on a byte slice. Not proved: the call
/// fails exactly when fewer than two bytes are given, and otherwise hands
/// back the first two bytes read least significant first, and the input
/// without them.
#[verifier::external_body]
fn nom_le_u16<'a>(i: &'a [u8]) -> (r: Option<(&'a [u8], u16)>)
    ensures
        match r {
            Some((rest, v)) => i@.len() >= 2 && rest@ == i@.skip(2) && v == le_u16_at(i@, 0),
            None => i@.len() < 2,
        },
{
    nom::number::complete::le_u16::<&[u8], nom::error::Error<&[u8]>>(i).ok()
}

/// `nom::number::complete::le_u32` on a byte slice. Not proved: the call
/// fails exactly when fewer than four bytes are given, and otherwise hands
/// back the first four bytes read least significant first, and the input
/// without them.
#[verifier::external_body]
fn nom_le_u32<'a>(i: &'a [u8]) -> (r: Option<(&'a [u8], u32)>)
    ensures
        match r {
            Some((rest, v)) => i@.len() >= 4 && rest@ == i@.skip(4) && v == le_u32_at(i@, 0),
            None => i@.len() < 4,
        },
{
    nom::number::complete::le_u32::<&[u8], nom::error::Error<&[u8]>>(i).ok()
}

/// `nom::bytes::complete::take` on a byte slice. Not proved: the call fails
/// exactly when the input is shorter than `n`, and otherwise splits the
/// input after its first `n` bytes, handing back the tail and the head.
#[verifier::external_body]
fn nom_take<'a>(i: &'a [u8], n: usize) -> (r: Option<(&'a [u8], &'a [u8])>)
    ensures
        match r {
            Some((rest, head)) => n <= i@.len() && rest@ == i@.skip(n as int) && head@
                == i@.take(n as int),
            None => n > i@.len(),
        },
{
    nom::bytes::complete::take::<usize, &[u8], nom::error::Error<&[u8]>>(n)(i).ok()
}

/// `nom::bytes::complete::tag` on byte slices. Not proved: the call
/// succeeds exactly when the input starts with `tag`, and then splits the
/// input after it, handing back the tail and the head.
#[verifier::external_body]
fn nom_tag<'a>(i: &'a [u8], tag: &[u8]) -> (r: Option<(&'a [u8], &'a [u8])>)
    ensures
        match r {
            Some((rest, head)) => tag@.is_prefix_of(i@) && rest@ == i@.skip(tag@.len() as int)
                && head@ == tag@,
            None => !tag@.is_prefix_of(i@),
        },
{
    nom::bytes::complete::tag::<&[u8], &[u8], nom::error::Error<&[u8]>>(tag)(i).ok()
}

/// Whether `i` starts with the bytes of `tag`; if it does, what follows
/// them.
pub fn strip_tag<'a>(i: &'a [u8], tag: &[u8]) -> (r: Option<&'a [u8]>)
    ensures
        match r {
            Some(rest) => tag@.is_prefix_of(i@) && rest@ == i@.skip(tag@.len() as int),
            None => !tag@.is_prefix_of(i@),
        },
{
    match nom_tag(i, tag) {
        Some((rest, _)) => Some(rest),
        None => None,
    }
}

/// `std::str::from_utf8`. Not proved: the call succeeds exactly on
/// well-formed UTF-8, and the text it gives is the one those bytes encode.
#[verifier::external_body]
fn str_from_utf8<'a>(bytes: &'a [u8]) -> (r: Option<&'a str>)
    ensures
        match r {
            Some(text) => valid_utf8(bytes@) && text@ == decode_utf8(bytes@),
            None => !valid_utf8(bytes@),
        },
{
    std::str::from_utf8(bytes).ok()
}

/// Reads `bytes` as UTF-8 text; `None` where they are not well-formed.
pub fn utf8_text<'a>(bytes: &'a [u8]) -> (r: Option<&'a str>)
    ensures
        match r {
            Some(text) => valid_utf8(bytes@) && text@ == decode_utf8(bytes@),
            None => !valid_utf8(bytes@),
        },
{
    str_from_utf8(bytes)
}

/// Reads the byte at offset `at`.
pub fn read_u8(i: &[u8], at: usize) -> (r: Result<u8, ParseError>)
    ensures
        r == (if at + 1 <= i@.len() {
            Ok::<u8, ParseError>(i@[at as int])
        } else {
            Err(ParseError::TruncatedInput)
        }),
{
    if at > i.len() {
        return Err(ParseError::TruncatedInput);
    }
    match nom_le_u8(slice_subrange(i, at, i.len())) {
        Some((_, v)) => Ok(v),
        None => Err(ParseError::TruncatedInput),
    }
}

/// Reads the little-endian `u16` at offset `at`.
pub fn read_le_u16(i: &[u8], at: usize) -> (r: Result<u16, ParseError>)
    ensures
        r == (if at + 2 <= i@.len() {
            Ok::<u16, ParseError>(le_u16_at(i@, at as int))
        } else {
            Err(ParseError::TruncatedInput)
        }),
{
    if at > i.len() {
        return Err(ParseError::TruncatedInput);
    }
    match nom_le_u16(slice_subrange(i, at, i.len())) {
        Some((_, v)) => Ok(v),
        None => Err(ParseError::TruncatedInput),
    }
}

/// Reads the little-endian `u32` at offset `at`.
pub fn read_le_u32(i: &[u8], at: usize) -> (r: Result<u32, ParseError>)
    ensures
        r == (if at + 4 <= i@.len() {
            Ok::<u32, ParseError>(le_u32_at(i@, at as int))
        } else {
            Err(ParseError::TruncatedInput)
        }),
{
    if at > i.len() {
        return Err(ParseError::TruncatedInput);
    }
    match nom_le_u32(slice_subrange(i, at, i.len())) {
        Some((_, v)) => Ok(v),
        None => Err(ParseError::TruncatedInput),
    }
}

/// Borrows the `n` bytes that start at offset `at`, or nothing when the
/// buffer ends before them.
pub fn take_at<'a>(i: &'a [u8], at: usize, n: usize) -> (r: Option<&'a [u8]>)
    ensures
        match r {
            Some(head) => at + n <= i@.len() && head@ == i@.subrange(at as int, at + n),
            None => at + n > i@.len(),
        },
{
    if at > i.len() {
        return None;
    }
    match nom_take(slice_subrange(i, at, i.len()), n) {
        Some((_, head)) => Some(head),
        None => None,
    }
}

/// A value with a fixed-size encoding.
pub trait Record: Sized {
    /// Bytes taken by one value.
    spec fn spec_size() -> nat;

    /// The value stored at `at`.
    spec fn spec_at(s: Seq<u8>, at: int) -> Self;

    /// Bytes taken by one value.
    fn size() -> (n: usize)
        ensures
            n == Self::spec_size(),
            1 <= n <= 0xFFFF,
    ;

    /// Reads the value stored at offset `at`.
    fn read_at(i: &[u8], at: usize) -> (r: Result<Self, ParseError>)
        ensures
            r == (if at + Self::spec_size() <= i@.len() {
                Ok::<Self, ParseError>(Self::spec_at(i@, at as int))
            } else {
                Err(ParseError::TruncatedInput)
            }),
    ;
}

/// The `n` values stored back to back from `at` on.
pub open spec fn spec_records_at<T: Record>(s: Seq<u8>, at: int, n: nat) -> Seq<T> {
    Seq::new(n, |k: int| T::spec_at(s, at + k * T::spec_size()))
}

/// Reads `n` values stored back to back from offset `at` on. Nothing is
/// read, and nothing allocated, unless the buffer holds all of them.
pub fn read_records<T: Record>(i: &[u8], at: usize, n: u32) -> (r: Result<Vec<T>, ParseError>)
    ensures
        match r {
            Ok(v) => at + n * T::spec_size() <= i@.len() && v@ == spec_records_at::<T>(
                i@,
                at as int,
                n as nat,
            ),
            Err(e) => e == ParseError::TruncatedInput && at + n * T::spec_size() > i@.len(),
        },
{
    let size: usize = T::size();
    assert(n * size <= 0xFFFF_FFFF * 0xFFFF) by (nonlinear_arith)
        requires
            0 <= n <= 0xFFFF_FFFF,
            0 <= size <= 0xFFFF,
    ;
    let total: u64 = (n as u64) * (size as u64);
    if at > i.len() || ((i.len() - at) as u64) < total {
        return Err(ParseError::TruncatedInput);
    }
    let count: usize = n as usize;
    let mut v: Vec<T> = Vec::with_capacity(count);
    let mut k: usize = 0;
    let mut pos: usize = at;
    while k < count
        invariant
            size == T::spec_size(),
            1 <= size <= 0xFFFF,
            count == n,
            k <= count,
            at + count * size <= i@.len() <= usize::MAX,
            pos == at + k * size,
            v@ == spec_records_at::<T>(i@, at as int, k as nat),
        decreases count - k,
    {
        assert((k + 1) * size == k * size + size) by (nonlinear_arith);
        assert((k + 1) * size <= count * size) by (nonlinear_arith)
            requires
                k + 1 <= count,
                0 <= size,
        ;
        let item: T = T::read_at(i, pos)?;
        v.push(item);
        assert(v@ =~= spec_records_at::<T>(i@, at as int, (k + 1) as nat));
        k = k + 1;
        pos = pos + size;
    }
    Ok(v)
}

/// Borrows everything from offset `at` on; `at` past the end gives the
/// empty tail.
pub fn tail_from<'a>(i: &'a [u8], at: usize) -> (r: &'a [u8])
    ensures
        r@ == (if at <= i@.len() {
            i@.skip(at as int)
        } else {
            Seq::<u8>::empty()
        }),
{
    if at <= i.len() {
        slice_subrange(i, at, i.len())
    } else {
        slice_subrange(i, 0, 0)
    }
}

} // verus!
