//! Metadata extraction for one file: the two-tier fast/thorough strategy,
//! artist-name splitting, and derivation of the cover-art destination.

use vstd::prelude::*;
use vstd::utf8::{decode_utf8, encode_utf8};

use crate::model::{ExtractedSong, ExtractionError, SongModel};
use crate::split::{ascii_bytes, lemma_split_ascii, split_bytes, split_by_delim};
use crate::tags::{fast_parse, forced_parse, magic_at, parse_tag, parse_tag_at, tag_magic,
    ParsedTag, RawTag};

verus! {

/// The characters an all-ASCII byte sequence decodes to.
pub open spec fn ascii_chars(s: Seq<u8>) -> Seq<char> {
    Seq::new(s.len(), |i: int| s[i] as char)
}

/// Relies on `String::from_utf8`: ASCII bytes are valid UTF-8 and decode
/// to one character per byte.
#[verifier::external_body]
fn ascii_to_string(v: &Vec<u8>) -> (r: String)
    requires
        ascii_bytes(v@),
    ensures
        r@ == ascii_chars(v@),
{
    match String::from_utf8(v.clone()) {
        Ok(s) => s,
        Err(_) => String::new(),
    }
}

/// An ASCII letter or digit: kept as itself in a thumbnail file name.
pub open spec fn is_plain_byte(b: u8) -> bool {
    (97 <= b <= 122) || (65 <= b <= 90) || (48 <= b <= 57)
}

/// The lower-case hex digit for a value below 16.
pub open spec fn hex_digit(n: u8) -> u8
    recommends
        n < 16,
{
    if n < 10 {
        (48 + n) as u8
    } else {
        (87 + n) as u8
    }
}

/// A byte of the source path, as it appears in the thumbnail file name:
/// an ASCII letter or digit is kept, and every other byte becomes `_`
/// followed by its two hex digits. Letters, digits and `_` never open an
/// escape, so the encoding is a prefix code and two distinct paths never
/// share a name.
pub open spec fn sanitize_byte(b: u8) -> Seq<u8> {
    if is_plain_byte(b) {
        seq![b]
    } else {
        seq![95u8, hex_digit(b / 16), hex_digit(b % 16)]
    }
}

/// The whole path, sanitized byte for byte.
pub open spec fn sanitize_bytes(s: Seq<u8>) -> Seq<u8>
    decreases s.len(),
{
    if s.len() == 0 {
        Seq::empty()
    } else {
        sanitize_byte(s[0]) + sanitize_bytes(s.drop_first())
    }
}

/// The thumbnail file name derived from the source path's UTF-8 bytes:
/// the sanitized path with a `.png` suffix. The derivation is a pure
/// function of the path, so re-extracting the same file always aims at
/// the same destination and overwrites rather than duplicates.
pub open spec fn thumb_name_bytes(path_bytes: Seq<u8>) -> Seq<u8> {
    sanitize_bytes(path_bytes) + seq![46u8, 112u8, 110u8, 103u8]
}

/// The full destination path of a cover art file: the thumbnail
/// directory, a separator, and the derived file name.
pub open spec fn thumb_path_chars(dir: Seq<char>, path: Seq<char>) -> Seq<char> {
    dir + seq!['/'] + ascii_chars(thumb_name_bytes(encode_utf8(path)))
}

/// A sanitized path is all-ASCII.
proof fn lemma_sanitize_ascii(s: Seq<u8>)
    ensures
        ascii_bytes(sanitize_bytes(s)),
    decreases s.len(),
{
    if s.len() > 0 {
        lemma_sanitize_ascii(s.drop_first());
        assert(ascii_bytes(sanitize_byte(s[0])));
        assert forall|k: int| 0 <= k < sanitize_bytes(s).len() implies sanitize_bytes(s)[k]
            < 128 by {
            if k < sanitize_byte(s[0]).len() {
                assert(sanitize_bytes(s)[k] == sanitize_byte(s[0])[k]);
            } else {
                assert(sanitize_bytes(s)[k] == sanitize_bytes(s.drop_first())[k - sanitize_byte(
                    s[0],
                ).len()]);
            }
        }
    }
}

/// The hex digits of two values below 16 agree only when the values do.
proof fn lemma_hex_digit_injective(a: u8, b: u8)
    requires
        a < 16,
        b < 16,
        hex_digit(a) == hex_digit(b),
    ensures
        a == b,
{
}

/// Sanitizing is injective: two paths with the same sanitized form are
/// the same path.
pub proof fn lemma_sanitize_injective(s1: Seq<u8>, s2: Seq<u8>)
    requires
        sanitize_bytes(s1) == sanitize_bytes(s2),
    ensures
        s1 == s2,
    decreases s1.len(),
{
    if s1.len() == 0 {
        if s2.len() > 0 {
            assert(sanitize_bytes(s2).len() >= sanitize_byte(s2[0]).len());
            assert(sanitize_byte(s2[0]).len() >= 1);
            assert(false);
        }
        assert(s1 =~= s2);
    } else if s2.len() == 0 {
        assert(sanitize_bytes(s1).len() >= sanitize_byte(s1[0]).len());
        assert(false);
    } else {
        let o = sanitize_bytes(s1);
        let h1 = sanitize_byte(s1[0]);
        let h2 = sanitize_byte(s2[0]);
        let r1 = sanitize_bytes(s1.drop_first());
        let r2 = sanitize_bytes(s2.drop_first());
        assert(o == h1 + r1 && o == h2 + r2);
        if is_plain_byte(s1[0]) != is_plain_byte(s2[0]) {
            // A plain head is a letter or digit; an escape head is `_`.
            assert(o[0] == h1[0] && o[0] == h2[0]);
            assert(false);
        } else if is_plain_byte(s1[0]) {
            assert(o[0] == h1[0] && o[0] == h2[0]);
            assert(s1[0] == s2[0]);
            assert(r1 =~= o.subrange(1, o.len() as int));
            assert(r2 =~= o.subrange(1, o.len() as int));
            lemma_sanitize_injective(s1.drop_first(), s2.drop_first());
            assert(s1.len() == s2.len());
            assert forall|k: int| 0 <= k < s1.len() implies s1[k] == s2[k] by {
                if k > 0 {
                    assert(s1[k] == s1.drop_first()[k - 1]);
                    assert(s2[k] == s2.drop_first()[k - 1]);
                }
            }
            assert(s1 =~= s2);
        } else {
            assert(o[1] == h1[1] && o[1] == h2[1]);
            assert(o[2] == h1[2] && o[2] == h2[2]);
            assert(s1[0] / 16 < 16 && s2[0] / 16 < 16);
            lemma_hex_digit_injective(s1[0] / 16, s2[0] / 16);
            lemma_hex_digit_injective(s1[0] % 16, s2[0] % 16);
            assert(s1[0] == 16 * (s1[0] / 16) + (s1[0] % 16));
            assert(s2[0] == 16 * (s2[0] / 16) + (s2[0] % 16));
            assert(s1[0] == s2[0]);
            assert(r1 =~= o.subrange(3, o.len() as int));
            assert(r2 =~= o.subrange(3, o.len() as int));
            lemma_sanitize_injective(s1.drop_first(), s2.drop_first());
            assert(s1.len() == s2.len());
            assert forall|k: int| 0 <= k < s1.len() implies s1[k] == s2[k] by {
                if k > 0 {
                    assert(s1[k] == s1.drop_first()[k - 1]);
                    assert(s2[k] == s2.drop_first()[k - 1]);
                }
            }
            assert(s1 =~= s2);
        }
    }
}

/// Distinct source paths get distinct cover-art destinations, so
/// concurrent jobs never write the same thumbnail file.
pub proof fn lemma_thumb_destination_distinct(dir: Seq<char>, p1: Seq<char>, p2: Seq<char>)
    requires
        p1 != p2,
    ensures
        thumb_path_chars(dir, p1) != thumb_path_chars(dir, p2),
{
    broadcast use vstd::utf8::encode_utf8_decode_utf8;
    broadcast use vstd::utf8::encode_utf8_valid_utf8;

    let e1 = encode_utf8(p1);
    let e2 = encode_utf8(p2);
    if thumb_path_chars(dir, p1) == thumb_path_chars(dir, p2) {
        let c1 = ascii_chars(thumb_name_bytes(e1));
        let c2 = ascii_chars(thumb_name_bytes(e2));
        assert(thumb_path_chars(dir, p1).len() == dir.len() + 1 + c1.len());
        assert(thumb_path_chars(dir, p2).len() == dir.len() + 1 + c2.len());
        assert(c1.len() == c2.len());
        assert forall|k: int| 0 <= k < c1.len() implies c1[k] == c2[k] by {
            assert(thumb_path_chars(dir, p1)[dir.len() + 1 + k] == c1[k]);
            assert(thumb_path_chars(dir, p2)[dir.len() + 1 + k] == c2[k]);
        }
        assert forall|k: int| 0 <= k < thumb_name_bytes(e1).len() implies thumb_name_bytes(
            e1,
        )[k] == thumb_name_bytes(e2)[k] by {
            assert(c1[k] == thumb_name_bytes(e1)[k] as char);
            assert(c2[k] == thumb_name_bytes(e2)[k] as char);
        }
        assert(thumb_name_bytes(e1) =~= thumb_name_bytes(e2));
        assert(sanitize_bytes(e1) =~= thumb_name_bytes(e1).subrange(
            0,
            thumb_name_bytes(e1).len() - 4,
        ));
        assert(sanitize_bytes(e2) =~= thumb_name_bytes(e2).subrange(
            0,
            thumb_name_bytes(e2).len() - 4,
        ));
        lemma_sanitize_injective(e1, e2);
        assert(decode_utf8(e1) == decode_utf8(e2));
        assert(false);
    }
}

/// The lower-case hex digit for a value below 16.
fn hex_digit_of(n: u8) -> (r: u8)
    requires
        n < 16,
    ensures
        r == hex_digit(n),
{
    if n < 10 {
        48 + n
    } else {
        87 + n
    }
}

/// Builds the thumbnail destination for a source path.
pub fn thumbnail_destination(thumbnail_dir: &String, path: &String) -> (r: String)
    ensures
        r@ == thumb_path_chars(thumbnail_dir@, path@),
{
    let path_bytes = path.as_str().as_bytes_vec();
    let ghost orig = path_bytes@;
    let mut rest = path_bytes;
    let mut name: Vec<u8> = Vec::new();
    proof {
        assert(name@ + sanitize_bytes(rest@) =~= sanitize_bytes(orig));
    }
    while rest.len() > 0
        invariant
            sanitize_bytes(orig) =~= name@ + sanitize_bytes(rest@),
        decreases rest@.len(),
    {
        let ghost rest0 = rest@;
        let ghost name0 = name@;
        let b = rest.remove(0);
        proof {
            assert(rest@ =~= rest0.drop_first());
            assert(sanitize_bytes(rest0) == sanitize_byte(rest0[0]) + sanitize_bytes(rest@));
        }
        if (97 <= b && b <= 122) || (65 <= b && b <= 90) || (48 <= b && b <= 57) {
            name.push(b);
        } else {
            name.push(95);
            name.push(hex_digit_of(b / 16));
            name.push(hex_digit_of(b % 16));
        }
        proof {
            assert(name@ =~= name0 + sanitize_byte(b));
            assert(sanitize_bytes(orig) =~= name@ + sanitize_bytes(rest@));
        }
    }
    proof {
        assert(sanitize_bytes(rest@) =~= Seq::<u8>::empty());
        assert(name@ =~= sanitize_bytes(orig));
        lemma_sanitize_ascii(orig);
    }
    let ghost plain = name@;
    name.push(46);
    name.push(112);
    name.push(110);
    name.push(103);
    proof {
        assert(name@ =~= thumb_name_bytes(orig));
        assert forall|k: int| 0 <= k < name@.len() implies name@[k] < 128 by {
            if k < plain.len() {
                assert(name@[k] == plain[k]);
            }
        }
    }
    let file_name = ascii_to_string(&name);
    let mut r = thumbnail_dir.clone();
    r.append("/");
    r.append(file_name.as_str());
    proof {
        reveal_strlit("/");
        assert(r@ =~= thumb_path_chars(thumbnail_dir@, path@));
    }
    r
}

/// The artist names carried by one tag value, split on the delimiter.
pub open spec fn artist_names(artist: Seq<u8>, delim: Seq<u8>) -> Seq<Seq<char>> {
    split_bytes(artist, delim).map_values(|s: Seq<u8>| ascii_chars(s))
}

/// Splits a tag value into the artist names it lists, in order.
pub fn split_artists(artist: &Vec<u8>, delim: &Vec<u8>) -> (r: Vec<String>)
    requires
        ascii_bytes(artist@),
    ensures
        r@.map_values(|s: String| s@) == artist_names(artist@, delim@),
{
    proof {
        lemma_split_ascii(artist@, delim@);
    }
    let parts = split_by_delim(artist, delim);
    let mut r: Vec<String> = Vec::new();
    let mut i: usize = 0;
    while i < parts.len()
        invariant
            0 <= i <= parts@.len(),
            parts@.map_values(|v: Vec<u8>| v@) == split_bytes(artist@, delim@),
            forall|n: int|
                0 <= n < split_bytes(artist@, delim@).len() ==> ascii_bytes(
                    #[trigger] split_bytes(artist@, delim@)[n],
                ),
            r@.map_values(|s: String| s@) =~= artist_names(artist@, delim@).subrange(
                0,
                i as int,
            ),
        decreases parts@.len() - i,
    {
        proof {
            assert(parts@[i as int]@ == split_bytes(artist@, delim@)[i as int]);
        }
        let name = ascii_to_string(&parts[i]);
        let ghost r0 = r@;
        r.push(name);
        proof {
            let names = artist_names(artist@, delim@);
            assert(names.len() == parts@.len());
            assert(name@ == names[i as int]);
            assert(r0.map_values(|s: String| s@).len() == r0.len());
            assert(r0.len() == i as int);
            assert(r@ == r0.push(name));
            assert(r@.len() == i + 1);
            assert forall|k: int| 0 <= k < i + 1 implies r@.map_values(|s: String| s@)[k]
                == #[trigger] names.subrange(0, i + 1 as int)[k] by {
                if k < i {
                    assert(r0.push(name)[k] == r0[k]);
                    assert(r0.map_values(|s: String| s@)[k] == names.subrange(0, i as int)[k]);
                } else {
                    assert(r0.push(name)[k] == name);
                }
            }
            assert(r@.map_values(|s: String| s@) =~= names.subrange(0, i + 1 as int));
        }
        i += 1;
    }
    proof {
        assert(artist_names(artist@, delim@).subrange(
            0,
            artist_names(artist@, delim@).len() as int,
        ) =~= artist_names(artist@, delim@));
    }
    r
}

/// A tag value in which the delimiter does not occur yields exactly one
/// artist: the value itself. (Splitting is a pure function of the value
/// and the delimiter, so the names are deterministic and keep the order
/// in which they appear in the tag.)
pub proof fn lemma_single_artist(artist: Seq<u8>, delim: Seq<u8>)
    requires
        forall|k: int| !crate::split::match_at(artist, delim, k),
    ensures
        artist_names(artist, delim) == seq![ascii_chars(artist)],
{
    crate::split::lemma_split_single(artist, delim);
    assert(artist_names(artist, delim) =~= seq![ascii_chars(artist)]);
}

/// The song record that a parsed tag yields for a given file.
pub open spec fn song_of_tag(
    t: RawTag,
    path: Seq<char>,
    size: u64,
    dir: Seq<char>,
    delim: Seq<u8>,
    forced: bool,
) -> SongModel {
    SongModel {
        path: path,
        size: size,
        title: ascii_chars(t.title),
        duration: t.duration,
        artists: artist_names(t.artist, delim),
        thumbnail: match t.art {
            Some(_) => Some(thumb_path_chars(dir, path)),
            None => None,
        },
        art: t.art,
        forced: forced,
    }
}

/// Assembles the song record for one successfully parsed tag.
fn build_song(
    tag: ParsedTag,
    path: &String,
    size: u64,
    thumbnail_dir: &String,
    delim: &Vec<u8>,
    forced: bool,
) -> (r: ExtractedSong)
    requires
        ascii_bytes(tag@.title),
        ascii_bytes(tag@.artist),
    ensures
        r@ == song_of_tag(tag@, path@, size, thumbnail_dir@, delim@, forced),
{
    let title = ascii_to_string(&tag.title);
    let artists = split_artists(&tag.artist, delim);
    let thumbnail = match &tag.art {
        Some(_) => Some(thumbnail_destination(thumbnail_dir, path)),
        None => None,
    };
    let r = ExtractedSong {
        path: path.clone(),
        size,
        title,
        duration: tag.duration,
        artists,
        thumbnail,
        art: tag.art,
        forced,
    };
    proof {
        assert(r@ =~~= song_of_tag(tag@, path@, size, thumbnail_dir@, delim@, forced));
    }
    r
}

/// What one extraction pass reports for a file: the parsed tag enriched
/// into a song record, or the pass's error.
pub open spec fn scan_model(
    path: Seq<char>,
    dir: Seq<char>,
    size: u64,
    d: Seq<u8>,
    forced: bool,
    delim: Seq<u8>,
) -> Result<SongModel, ExtractionError> {
    let parsed = if forced {
        forced_parse(d)
    } else {
        fast_parse(d)
    };
    match parsed {
        Ok(t) => Ok(song_of_tag(t, path, size, dir, delim, forced)),
        Err(e) => Err(e),
    }
}

/// Extracts the metadata of one file from its contents. The fast pass
/// (`forced` false) reads a tag block only at the start of the file; the
/// thorough pass (`forced` true) scans the whole stream for one.
pub fn scan_file(
    path: &String,
    thumbnail_dir: &String,
    size: u64,
    data: &Vec<u8>,
    forced: bool,
    artist_split: &String,
) -> (r: Result<ExtractedSong, ExtractionError>)
    ensures
        ({
            let m = scan_model(
                path@,
                thumbnail_dir@,
                size,
                data@,
                forced,
                encode_utf8(artist_split@),
            );
            &&& (r is Ok <==> m is Ok)
            &&& (r matches Ok(s) ==> s@ == m->Ok_0)
            &&& (r matches Err(e) ==> e == m->Err_0)
        }),
{
    let delim = artist_split.as_str().as_bytes_vec();
    let start: usize = if forced {
        let magic = crate::tags::magic_bytes();
        match crate::split::find_first(data, &magic, 0) {
            None => {
                return Err(ExtractionError::UnsupportedFormat);
            },
            Some(i) => i,
        }
    } else {
        0
    };
    proof {
        if !forced {
            assert(parse_tag(data@, 0) is Some ==> magic_at(data@, 0));
        }
    }
    match parse_tag_at(data, start) {
        Some(tag) => {
            proof {
                assert(ascii_bytes(tag@.title) && ascii_bytes(tag@.artist)) by {
                    lemma_parse_tag_ascii(data@, start as int);
                }
            }
            Ok(build_song(tag, path, size, thumbnail_dir, &delim, forced))
        },
        None => {
            if forced {
                Err(ExtractionError::CorruptFile)
            } else {
                let magic = crate::tags::magic_bytes();
                if data.len() >= 4 && crate::split::matches_at(data, &magic, 0) {
                    Err(ExtractionError::CorruptFile)
                } else {
                    proof {
                        assert(tag_magic().len() == 4);
                        assert(!magic_at(data@, 0));
                    }
                    Err(ExtractionError::UnsupportedFormat)
                }
            }
        },
    }
}

/// The string fields of a well-formed tag block are ASCII.
proof fn lemma_parse_tag_ascii(d: Seq<u8>, i: int)
    requires
        parse_tag(d, i) is Some,
    ensures
        ascii_bytes(parse_tag(d, i)->Some_0.title),
        ascii_bytes(parse_tag(d, i)->Some_0.artist),
{
}

/// The reported outcome for one unit of work: an unreadable file is an
/// I/O failure; otherwise the fast pass runs, and on its failure the
/// thorough pass runs and its result, success or failure, is
/// authoritative.
pub open spec fn two_tier_model(
    path: Seq<char>,
    dir: Seq<char>,
    size: u64,
    contents: Option<Seq<u8>>,
    delim: Seq<u8>,
) -> Result<SongModel, ExtractionError> {
    match contents {
        None => Err(ExtractionError::IOError),
        Some(d) => match fast_parse(d) {
            Ok(t) => Ok(song_of_tag(t, path, size, dir, delim, false)),
            Err(_) => match forced_parse(d) {
                Ok(t) => Ok(song_of_tag(t, path, size, dir, delim, true)),
                Err(e) => Err(e),
            },
        },
    }
}

/// Extracts the metadata of one file, trying the fast pass first and
/// falling back to the thorough pass when it fails.
pub fn extract_with_fallback(
    path: &String,
    thumbnail_dir: &String,
    size: u64,
    contents: &Option<Vec<u8>>,
    artist_split: &String,
) -> (r: Result<ExtractedSong, ExtractionError>)
    ensures
        ({
            let m = two_tier_model(
                path@,
                thumbnail_dir@,
                size,
                match contents {
                    Some(d) => Some(d@),
                    None => None,
                },
                encode_utf8(artist_split@),
            );
            &&& (r is Ok <==> m is Ok)
            &&& (r matches Ok(s) ==> s@ == m->Ok_0)
            &&& (r matches Err(e) ==> e == m->Err_0)
        }),
{
    match contents {
        None => Err(ExtractionError::IOError),
        Some(data) => {
            let first = scan_file(path, thumbnail_dir, size, data, false, artist_split);
            match first {
                Ok(s) => Ok(s),
                Err(_) => scan_file(path, thumbnail_dir, size, data, true, artist_split),
            }
        },
    }
}

/// A file whose fast extraction fails but whose thorough extraction
/// succeeds is reported as a success carrying the forced provenance flag.
pub proof fn lemma_fallback_success(
    path: Seq<char>,
    dir: Seq<char>,
    size: u64,
    d: Seq<u8>,
    delim: Seq<u8>,
)
    requires
        fast_parse(d) is Err,
        forced_parse(d) is Ok,
    ensures
        two_tier_model(path, dir, size, Some(d), delim) matches Ok(m) && m.forced,
{
}

/// A file that fails both passes is reported as a typed failure: the
/// thorough pass's error.
pub proof fn lemma_both_passes_fail(
    path: Seq<char>,
    dir: Seq<char>,
    size: u64,
    d: Seq<u8>,
    delim: Seq<u8>,
)
    requires
        fast_parse(d) is Err,
        forced_parse(d) is Err,
    ensures
        two_tier_model(path, dir, size, Some(d), delim) == Result::<
            SongModel,
            ExtractionError,
        >::Err(forced_parse(d)->Err_0),
{
}

/// A file accepted by the fast pass is reported without the forced flag.
pub proof fn lemma_fast_success(
    path: Seq<char>,
    dir: Seq<char>,
    size: u64,
    d: Seq<u8>,
    delim: Seq<u8>,
)
    requires
        fast_parse(d) is Ok,
    ensures
        two_tier_model(path, dir, size, Some(d), delim) matches Ok(m) && !m.forced,
{
}

/// Folds the consumer's attempt to write the cover art into the outcome:
/// a song whose art could not be written becomes a thumbnail failure;
/// everything else is unchanged.
pub fn apply_thumbnail_write(
    outcome: Result<ExtractedSong, ExtractionError>,
    write_ok: bool,
) -> (r: Result<ExtractedSong, ExtractionError>)
    ensures
        match outcome {
            Ok(s) => {
                if s.thumbnail is Some && !write_ok {
                    r == Result::<ExtractedSong, ExtractionError>::Err(
                        ExtractionError::ThumbnailWriteError,
                    )
                } else {
                    r == outcome
                }
            },
            Err(_) => r == outcome,
        },
{
    match outcome {
        Ok(s) => {
            if s.thumbnail.is_some() && !write_ok {
                Err(ExtractionError::ThumbnailWriteError)
            } else {
                Ok(s)
            }
        },
        Err(e) => Err(e),
    }
}

} // verus!
