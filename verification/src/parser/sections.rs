//! Replay sections.
//!
//! A section is a `u32` checksum, a `u32` chunk count, then that many chunks,
//! each a `u32` length followed by that many bytes.  A chunk holds at most
//! [`CHUNK_SIZE`] bytes of section data.  A chunk that starts with the zlib
//! header byte `0x78` and inflates to exactly the amount of data it should hold
//! is a zlib stream; otherwise a chunk whose length is that amount is stored as
//! is; any other chunk cannot be read.
use crate::bytes::{le32, read_u32_le};
use std::io::Read;
use vstd::prelude::*;

verus! {

/// The largest amount of section data held by one chunk.
pub const CHUNK_SIZE: usize = 8192;

/// Why a section could not be read.
#[derive(Clone, Copy, Debug, PartialEq, Eq, Structural)]
pub enum SectionError {
    /// The data ends inside the section.
    Truncated,
    /// A chunk is neither a zlib stream of the expected data nor stored data of
    /// the expected length.
    Decompress,
    /// The chunks do not add up to the section's size.
    SizeMismatch,
}

/// The bytes that the zlib stream at the start of `data` inflates to, or `None`
/// where `data` does not start with a valid zlib stream.
pub uninterp spec fn zlib_inflate(data: Seq<u8>) -> Option<Seq<u8>>;

/// Inflates a zlib stream with `flate2::read::ZlibDecoder` and `read_to_end`.
/// Claimed: the result is `zlib_inflate(data)`, a function of the input bytes alone;
/// the error the decoder reports is not kept.
#[verifier::external_body]
fn inflate(data: &[u8]) -> (r: Option<Vec<u8>>)
    ensures
        match r {
            Some(v) => zlib_inflate(data@) == Some(v@),
            None => zlib_inflate(data@) == None::<Seq<u8>>,
        },
{
    let mut decoder = flate2::read::ZlibDecoder::new(data);
    let mut out = Vec::new();
    match decoder.read_to_end(&mut out) {
        Ok(_) => Some(out),
        Err(_) => None,
    }
}

/// How many bytes of section data the next chunk holds when `done` of `size`
/// bytes have been read.
pub open spec fn chunk_want(size: int, done: int) -> int {
    if done >= size {
        0
    } else if size - done < CHUNK_SIZE {
        size - done
    } else {
        CHUNK_SIZE as int
    }
}

/// The data a chunk holds when it should hold `want` bytes, given what the chunk
/// inflates to as a zlib stream (`None` when it does not start with the zlib header
/// byte or is no valid stream): the inflated data when it is `want` bytes long,
/// else the chunk itself when it is `want` bytes long, else nothing.
pub open spec fn chunk_decoded(chunk: Seq<u8>, inflated: Option<Seq<u8>>, want: int) -> Option<
    Seq<u8>,
> {
    match inflated {
        Some(d) if d.len() == want => Some(d),
        _ => if chunk.len() == want {
            Some(chunk)
        } else {
            None
        },
    }
}

/// The data a chunk holds when it should hold `want` bytes, given what it inflates to.
pub fn chunk_data(chunk: &[u8], inflated: Option<Vec<u8>>, want: usize) -> (r: Option<Vec<u8>>)
    ensures
        match r {
            Some(v) => chunk_decoded(
                chunk@,
                match inflated {
                    Some(d) => Some(d@),
                    None => None,
                },
                want as int,
            ) == Some(v@),
            None => chunk_decoded(
                chunk@,
                match inflated {
                    Some(d) => Some(d@),
                    None => None,
                },
                want as int,
            ) == None::<Seq<u8>>,
        },
{
    match inflated {
        Some(d) => {
            if d.len() == want {
                return Some(d);
            }
        },
        None => {},
    }
    if chunk.len() == want {
        Some(copy_bytes(chunk, 0, chunk.len()))
    } else {
        None
    }
}

/// Reads `count` chunks of a section of `size` bytes starting at `pos`, with
/// `acc` read so far: the section's data and the offset just past its last chunk.
pub open spec fn read_chunks(s: Seq<u8>, pos: int, count: nat, size: int, acc: Seq<u8>) -> Result<
    (Seq<u8>, int),
    SectionError,
>
    decreases count,
{
    if count == 0 {
        if acc.len() == size {
            Ok((acc, pos))
        } else {
            Err(SectionError::SizeMismatch)
        }
    } else if pos + 4 > s.len() {
        Err(SectionError::Truncated)
    } else {
        let len = le32(s, pos) as int;
        if pos + 4 + len > s.len() {
            Err(SectionError::Truncated)
        } else {
            let chunk = s.subrange(pos + 4, pos + 4 + len);
            let inflated = if len > 0 && chunk[0] == 0x78 {
                zlib_inflate(chunk)
            } else {
                None
            };
            match chunk_decoded(chunk, inflated, chunk_want(size, acc.len() as int)) {
                None => Err(SectionError::Decompress),
                Some(d) => read_chunks(s, pos + 4 + len, (count - 1) as nat, size, acc + d),
            }
        }
    }
}

/// Reads the section of `size` bytes that starts at `pos` in `s`: its data and
/// the offset just past it.
pub open spec fn read_section(s: Seq<u8>, pos: int, size: int) -> Result<(Seq<u8>, int), SectionError> {
    if pos + 8 > s.len() {
        Err(SectionError::Truncated)
    } else {
        read_chunks(s, pos + 8, le32(s, pos + 4) as nat, size, seq![])
    }
}

fn copy_bytes(data: &[u8], from: usize, to: usize) -> (r: Vec<u8>)
    requires
        from <= to <= data@.len(),
    ensures
        r@ == data@.subrange(from as int, to as int),
{
    let mut out: Vec<u8> = Vec::new();
    let mut i = from;
    while i < to
        invariant
            from <= i <= to <= data@.len(),
            out@ == data@.subrange(from as int, i as int),
        decreases to - i,
    {
        out.push(data[i]);
        i = i + 1;
        assert(out@ =~= data@.subrange(from as int, i as int));
    }
    out
}

/// Reads the section of `size` bytes that starts at `pos`.
pub fn read_section_at(data: &[u8], pos: usize, size: usize) -> (r: Result<
    (Vec<u8>, usize),
    SectionError,
>)
    ensures
        match r {
            Ok((v, next)) => read_section(data@, pos as int, size as int) == Ok::<
                (Seq<u8>, int),
                SectionError,
            >((v@, next as int)) && v@.len() == size,
            Err(e) => read_section(data@, pos as int, size as int) == Err::<
                (Seq<u8>, int),
                SectionError,
            >(e),
        },
{
    let len = data.len();
    if pos > len || len - pos < 8 {
        return Err(SectionError::Truncated);
    }
    let count = read_u32_le(data, pos + 4);
    let ghost s = data@;
    let mut remaining: u32 = count;
    let mut at: usize = pos + 8;
    let mut acc: Vec<u8> = Vec::new();
    while remaining > 0
        invariant
            s == data@,
            len == s.len(),
            at <= len,
            read_chunks(s, at as int, remaining as nat, size as int, acc@) == read_section(
                s,
                pos as int,
                size as int,
            ),
        decreases remaining,
    {
        if len - at < 4 {
            return Err(SectionError::Truncated);
        }
        let chunk_len = read_u32_le(data, at) as usize;
        if chunk_len > len - at - 4 {
            return Err(SectionError::Truncated);
        }
        let start = at + 4;
        let stop = start + chunk_len;
        let want: usize = if acc.len() >= size {
            0
        } else if size - acc.len() < CHUNK_SIZE {
            size - acc.len()
        } else {
            CHUNK_SIZE
        };
        let chunk = &data[start..stop];
        assert(chunk@ == s.subrange(start as int, stop as int));
        let inflated: Option<Vec<u8>> = if chunk_len > 0 && chunk[0] == 0x78 {
            inflate(chunk)
        } else {
            None
        };
        let mut decoded: Vec<u8> = match chunk_data(chunk, inflated, want) {
            Some(d) => d,
            None => {
                return Err(SectionError::Decompress);
            },
        };
        acc.append(&mut decoded);
        at = stop;
        remaining = remaining - 1;
    }
    if acc.len() == size {
        Ok((acc, at))
    } else {
        Err(SectionError::SizeMismatch)
    }
}

} // verus!
