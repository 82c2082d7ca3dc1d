//! Identity payloads and id conventions of the remote-provider
//! integration. The provider's network client lives outside this
//! library; what is modelled here is the pure part: the extra-info
//! payload attached to an artist, the provider's id prefixes, and how
//! an id is recognised.

use vstd::prelude::*;
use vstd::string::StringExecFns;
use vstd::string::StrSliceExecFns;

verus! {

/// The provider-side identity of an artist.
pub struct ArtistExtraInfo {
    pub artist_id: String,
}

/// The extra-info payload stored with an artist: the provider's own
/// identity record, under the provider's key.
pub struct YoutubeExtraInfo {
    pub youtube: ArtistExtraInfo,
}

impl Default for ArtistExtraInfo {
    /// An empty identity.
    fn default() -> (r: Self)
        ensures
            r.artist_id@ == Seq::<char>::empty(),
    {
        ArtistExtraInfo { artist_id: String::new() }
    }
}

impl Default for YoutubeExtraInfo {
    /// An empty payload.
    fn default() -> (r: Self)
        ensures
            r.youtube.artist_id@ == Seq::<char>::empty(),
    {
        YoutubeExtraInfo { youtube: ArtistExtraInfo { artist_id: String::new() } }
    }
}

/// `p` is a prefix of `s`.
pub open spec fn spec_has_prefix(s: Seq<char>, p: Seq<char>) -> bool {
    p.len() <= s.len() && s.subrange(0, p.len() as int) == p
}

/// True when `p` is a prefix of `s`.
pub fn str_has_prefix(s: &str, p: &str) -> (r: bool)
    ensures
        r == spec_has_prefix(s@, p@),
{
    let sl = s.unicode_len();
    let pl = p.unicode_len();
    if pl > sl {
        return false;
    }
    let mut i: usize = 0;
    while i < pl
        invariant
            0 <= i <= pl,
            pl == p@.len(),
            sl == s@.len(),
            pl <= sl,
            forall|k: int| 0 <= k < i ==> s@[k] == p@[k],
        decreases pl - i,
    {
        if s.get_char(i) != p.get_char(i) {
            proof {
                assert(s@.subrange(0, pl as int)[i as int] == s@[i as int]);
            }
            return false;
        }
        i += 1;
    }
    proof {
        assert(s@.subrange(0, pl as int) =~= p@);
    }
    true
}

/// An id minted by this provider for an artist: the artist prefix
/// followed by the provider's channel id.
pub fn youtube_artist_id(channel_id: &str) -> (r: String)
    ensures
        r@ == "youtube-artist:"@ + channel_id@,
{
    let mut r = String::from_str("youtube-artist:");
    r.append(channel_id);
    r
}

/// Whether an id was minted by this provider: it starts with one of the
/// provider's prefixes, for a playlist, an artist, an album or a song.
pub fn match_id(id: &String) -> (r: bool)
    ensures
        r == (spec_has_prefix(id@, "youtube-playlist:"@) || spec_has_prefix(
            id@,
            "youtube-artist:"@,
        ) || spec_has_prefix(id@, "youtube-album:"@) || spec_has_prefix(id@, "youtube:"@)),
{
    str_has_prefix(id.as_str(), "youtube-playlist:") || str_has_prefix(
        id.as_str(),
        "youtube-artist:",
    ) || str_has_prefix(id.as_str(), "youtube-album:") || str_has_prefix(
        id.as_str(),
        "youtube:",
    )
}

} // verus!
