use warped_tour_discord_bot::data::Song;
use warped_tour_discord_bot::spotify::{get_spotify_id, playlist_uri, track_uri};

#[test]
fn id_from_playlist_link_with_query() {
    let url = "https://open.spotify.com/playlist/37i9dQZF1DXcBWIGoYBM5M?si=abc123";
    assert_eq!(get_spotify_id(url), "37i9dQZF1DXcBWIGoYBM5M");
}

#[test]
fn id_from_track_link_without_query() {
    let url = "https://open.spotify.com/track/11dFghVXANMlKmJXsNCbNl";
    assert_eq!(get_spotify_id(url), "11dFghVXANMlKmJXsNCbNl");
}

#[test]
fn id_from_string_without_slashes() {
    assert_eq!(get_spotify_id("justanid"), "justanid");
    assert_eq!(get_spotify_id("justanid?si=1"), "justanid");
}

#[test]
fn id_from_link_with_trailing_slash_is_empty() {
    assert_eq!(get_spotify_id("https://open.spotify.com/playlist/"), "");
}

#[test]
fn id_from_empty_string_is_empty() {
    assert_eq!(get_spotify_id(""), "");
}

#[test]
fn id_stops_at_first_question_mark() {
    assert_eq!(get_spotify_id("a/b/c?x=1?y=2"), "c");
}

#[test]
fn canonical_uris() {
    assert_eq!(playlist_uri("37i9dQZF1DXcBWIGoYBM5M"), "spotify:playlist:37i9dQZF1DXcBWIGoYBM5M");
    assert_eq!(track_uri("11dFghVXANMlKmJXsNCbNl"), "spotify:track:11dFghVXANMlKmJXsNCbNl");
    assert_eq!(playlist_uri(""), "spotify:playlist:");
}

#[test]
fn song_new_keeps_all_fields() {
    let song = Song::new(
        "Teenagers".to_string(),
        "My Chemical Romance".to_string(),
        "https://open.spotify.com/track/7j31rVgGX9Q2blT92VBEA0".to_string(),
        "https://i.scdn.co/image/ab67616d0000b273c4f1d9e8f4d6b7f4c3b5e8a1".to_string(),
    );
    assert_eq!(song.song_name, "Teenagers");
    assert_eq!(song.artist_name, "My Chemical Romance");
    assert_eq!(song.song_url, "https://open.spotify.com/track/7j31rVgGX9Q2blT92VBEA0");
    assert_eq!(song.album_cover_url, "https://i.scdn.co/image/ab67616d0000b273c4f1d9e8f4d6b7f4c3b5e8a1");
}

#[test]
fn search_query_convention() {
    let song = Song::new(
        "Teenagers".to_string(),
        "My Chemical Romance".to_string(),
        "url".to_string(),
        "cover".to_string(),
    );
    assert_eq!(song.search_query(), "Teenagers by My Chemical Romance audio");
}

#[test]
fn search_query_with_empty_fields() {
    let song = Song::new(String::new(), String::new(), String::new(), String::new());
    assert_eq!(song.search_query(), " by  audio");
}
