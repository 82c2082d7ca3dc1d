//! Provider id conventions and identity payloads.

use file_scanner::providers::{match_id, youtube_artist_id, ArtistExtraInfo, YoutubeExtraInfo};

#[test]
fn provider_ids_are_recognised_by_prefix() {
    assert!(match_id(&"youtube-playlist:PL123".to_string()));
    assert!(match_id(&"youtube-artist:UC9".to_string()));
    assert!(match_id(&"youtube-album:AL1".to_string()));
    assert!(match_id(&"youtube:dQw4".to_string()));
}

#[test]
fn foreign_ids_are_rejected() {
    assert!(!match_id(&"spotify:track:1".to_string()));
    assert!(!match_id(&"youtub".to_string()));
    assert!(!match_id(&"".to_string()));
}

#[test]
fn artist_ids_carry_the_artist_prefix() {
    let id = youtube_artist_id("UCabc");
    assert_eq!(id, "youtube-artist:UCabc");
    assert!(match_id(&id));
}

#[test]
fn default_payload_is_empty() {
    let info = YoutubeExtraInfo::default();
    assert_eq!(info.youtube.artist_id, "");
    let artist = ArtistExtraInfo::default();
    assert_eq!(artist.artist_id, "");
}
