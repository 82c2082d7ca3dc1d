//! The scanner's native tag block: grammar and parser.
//!
//! A tag block holds the metadata of one media file:
//!
//! ```text
//! magic   4 bytes   "MTAG"
//! title   2-byte big-endian length, then that many ASCII bytes
//! duration  4-byte big-endian count of whole seconds
//! artist  2-byte big-endian length, then that many ASCII bytes
//! art     1 flag byte (0 = no art, 1 = art follows),
//!         then, when the flag is 1, a 4-byte big-endian length and
//!         that many bytes of cover-art payload
//! ```
//!
//! Anything after the block is ignored. The fast extraction pass accepts
//! a block only at the very start of the file; the thorough pass scans
//! the whole stream for the first occurrence of the magic and parses
//! there, so it also recovers files with junk prepended.

use vstd::prelude::*;

use crate::model::ExtractionError;
use crate::split::{ascii_bytes, first_match_from, lemma_first_match_from, match_at, matches_at,
    copy_range};

verus! {

/// The four magic bytes "MTAG" that open a tag block.
pub open spec fn tag_magic() -> Seq<u8> {
    seq![77u8, 84u8, 65u8, 71u8]
}

/// A tag block begins at position `i` of `d`.
pub open spec fn magic_at(d: Seq<u8>, i: int) -> bool {
    match_at(d, tag_magic(), i)
}

/// Big-endian 16-bit value.
pub open spec fn be16(b0: u8, b1: u8) -> int {
    b0 * 256 + b1
}

/// Big-endian 32-bit value.
pub open spec fn be32(b0: u8, b1: u8, b2: u8, b3: u8) -> int {
    ((b0 * 256 + b1) * 256 + b2) * 256 + b3
}

/// The fields of one tag block, at the specification level.
pub struct RawTag {
    pub title: Seq<u8>,
    pub duration: int,
    pub artist: Seq<u8>,
    pub art: Option<Seq<u8>>,
}

/// The tag block starting at position `i` of `d`, or `None` when no
/// well-formed block starts there (no magic, truncated fields, a string
/// field that is not ASCII, or an unknown art flag).
pub open spec fn parse_tag(d: Seq<u8>, i: int) -> Option<RawTag> {
    let n = d.len() as int;
    if !magic_at(d, i) {
        None
    } else {
        let p0 = i + 4;
        if p0 + 2 > n {
            None
        } else {
            let tlen = be16(d[p0], d[p0 + 1]);
            let t0 = p0 + 2;
            if t0 + tlen > n {
                None
            } else {
                let title = d.subrange(t0, t0 + tlen);
                if !ascii_bytes(title) {
                    None
                } else {
                    let u0 = t0 + tlen;
                    if u0 + 4 > n {
                        None
                    } else {
                        let duration = be32(d[u0], d[u0 + 1], d[u0 + 2], d[u0 + 3]);
                        let a0 = u0 + 4;
                        if a0 + 2 > n {
                            None
                        } else {
                            let alen = be16(d[a0], d[a0 + 1]);
                            let s0 = a0 + 2;
                            if s0 + alen > n {
                                None
                            } else {
                                let artist = d.subrange(s0, s0 + alen);
                                if !ascii_bytes(artist) {
                                    None
                                } else {
                                    parse_art(d, s0 + alen, title, duration, artist)
                                }
                            }
                        }
                    }
                }
            }
        }
    }
}

/// The art section starting at position `f0`, combined with the fields
/// parsed before it.
pub open spec fn parse_art(
    d: Seq<u8>,
    f0: int,
    title: Seq<u8>,
    duration: int,
    artist: Seq<u8>,
) -> Option<RawTag> {
    let n = d.len() as int;
    if f0 + 1 > n {
        None
    } else if d[f0] == 0 {
        Some(RawTag { title, duration, artist, art: None })
    } else if d[f0] != 1 {
        None
    } else {
        let l0 = f0 + 1;
        if l0 + 4 > n {
            None
        } else {
            let artlen = be32(d[l0], d[l0 + 1], d[l0 + 2], d[l0 + 3]);
            let r0 = l0 + 4;
            if r0 + artlen > n {
                None
            } else {
                Some(
                    RawTag {
                        title,
                        duration,
                        artist,
                        art: Some(d.subrange(r0, r0 + artlen)),
                    },
                )
            }
        }
    }
}

/// Outcome of the fast pass: it reads the tag block only at the start of
/// the file. A file that does not begin with the magic is unsupported; a
/// file that does, but whose block is malformed, is corrupt.
pub open spec fn fast_parse(d: Seq<u8>) -> Result<RawTag, ExtractionError> {
    if !magic_at(d, 0) {
        Err(ExtractionError::UnsupportedFormat)
    } else {
        match parse_tag(d, 0) {
            Some(t) => Ok(t),
            None => Err(ExtractionError::CorruptFile),
        }
    }
}

/// Outcome of the thorough pass: it scans the whole stream and parses at
/// the first occurrence of the magic. A stream without the magic is
/// unsupported; one whose first block is malformed is corrupt.
pub open spec fn forced_parse(d: Seq<u8>) -> Result<RawTag, ExtractionError> {
    match first_match_from(d, tag_magic(), 0) {
        None => Err(ExtractionError::UnsupportedFormat),
        Some(i) => match parse_tag(d, i) {
            Some(t) => Ok(t),
            None => Err(ExtractionError::CorruptFile),
        },
    }
}

/// Whatever the fast pass extracts, the thorough pass extracts as well.
pub proof fn lemma_forced_covers_fast(d: Seq<u8>)
    requires
        fast_parse(d) is Ok,
    ensures
        forced_parse(d) == fast_parse(d),
{
    lemma_first_match_from(d, tag_magic(), 0);
}

/// The fields of one tag block, as extracted.
pub struct ParsedTag {
    pub title: Vec<u8>,
    pub duration: u32,
    pub artist: Vec<u8>,
    pub art: Option<Vec<u8>>,
}

impl View for ParsedTag {
    type V = RawTag;

    open spec fn view(&self) -> RawTag {
        RawTag {
            title: self.title@,
            duration: self.duration as int,
            artist: self.artist@,
            art: match self.art {
                Some(a) => Some(a@),
                None => None,
            },
        }
    }
}

/// All bytes of `v` are ASCII.
pub fn all_ascii(v: &Vec<u8>) -> (r: bool)
    ensures
        r == ascii_bytes(v@),
{
    let mut i: usize = 0;
    while i < v.len()
        invariant
            0 <= i <= v@.len(),
            forall|k: int| 0 <= k < i ==> v@[k] < 128,
        decreases v@.len() - i,
    {
        if v[i] >= 128 {
            return false;
        }
        i += 1;
    }
    true
}

/// The four magic bytes as a vector, for searching.
pub fn magic_bytes() -> (v: Vec<u8>)
    ensures
        v@ == tag_magic(),
{
    let mut v: Vec<u8> = Vec::new();
    v.push(77);
    v.push(84);
    v.push(65);
    v.push(71);
    proof {
        assert(v@ =~= tag_magic());
    }
    v
}

/// Parses the tag block starting at position `i` of `d`.
pub fn parse_tag_at(d: &Vec<u8>, i: usize) -> (r: Option<ParsedTag>)
    ensures
        r is Some <==> parse_tag(d@, i as int) is Some,
        r matches Some(t) ==> t@ == parse_tag(d@, i as int).unwrap(),
{
    let n = d.len();
    if i > n || n - i < 4 {
        proof {
            assert(tag_magic().len() == 4);
            assert(!magic_at(d@, i as int));
        }
        return None;
    }
    let magic = magic_bytes();
    if !matches_at(d, &magic, i) {
        return None;
    }
    let p0 = i + 4;
    if n - p0 < 2 {
        return None;
    }
    let tlen: usize = (d[p0] as usize) * 256 + (d[p0 + 1] as usize);
    let t0 = p0 + 2;
    if n - t0 < tlen {
        return None;
    }
    let title = copy_range(d, t0, t0 + tlen);
    if !all_ascii(&title) {
        return None;
    }
    let u0 = t0 + tlen;
    if n - u0 < 4 {
        return None;
    }
    let duration: u32 = ((d[u0] as u32) * 256 + (d[u0 + 1] as u32)) * 65536 + (d[u0 + 2] as u32)
        * 256 + (d[u0 + 3] as u32);
    proof {
        assert(duration as int == be32(d@[u0 as int], d@[u0 + 1], d@[u0 + 2], d@[u0 + 3]));
    }
    let a0 = u0 + 4;
    if n - a0 < 2 {
        return None;
    }
    let alen: usize = (d[a0] as usize) * 256 + (d[a0 + 1] as usize);
    let s0 = a0 + 2;
    if n - s0 < alen {
        return None;
    }
    let artist = copy_range(d, s0, s0 + alen);
    if !all_ascii(&artist) {
        return None;
    }
    let f0 = s0 + alen;
    if n - f0 < 1 {
        return None;
    }
    let flag = d[f0];
    if flag == 0 {
        return Some(ParsedTag { title, duration, artist, art: None });
    }
    if flag != 1 {
        return None;
    }
    let l0 = f0 + 1;
    if n - l0 < 4 {
        return None;
    }
    let artlen32: u32 = ((d[l0] as u32) * 256 + (d[l0 + 1] as u32)) * 65536 + (d[l0 + 2] as u32)
        * 256 + (d[l0 + 3] as u32);
    proof {
        assert(artlen32 as int == be32(d@[l0 as int], d@[l0 + 1], d@[l0 + 2], d@[l0 + 3]));
    }
    let artlen: usize = artlen32 as usize;
    let r0 = l0 + 4;
    if n - r0 < artlen {
        return None;
    }
    let art = copy_range(d, r0, r0 + artlen);
    Some(ParsedTag { title, duration, artist, art: Some(art) })
}

} // verus!
