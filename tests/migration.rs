use playlist_migrate::auth::basic_auth_header;
use playlist_migrate::auth::basic_auth_value;
use playlist_migrate::auth::bearer_value;
use playlist_migrate::auth::deezer_auth_url;
use playlist_migrate::auth::deezer_token_url;
use playlist_migrate::auth::search_url;
use playlist_migrate::auth::spotify_auth_url;
use playlist_migrate::auth::spotify_token_url;
use playlist_migrate::logger::bracketed;
use playlist_migrate::playlist::assemble_playlist;
use playlist_migrate::playlist::found_tracks;
use playlist_migrate::playlist::is_own_playlist;
use playlist_migrate::playlist::select_own_playlists;
use playlist_migrate::playlist::track_uris;
use playlist_migrate::playlist::DeezerTrack;
use playlist_migrate::playlist::PlaylistEntry;
use playlist_migrate::playlist::SearchItem;

fn item(kind: &str, id: &str) -> SearchItem {
    SearchItem {
        kind: kind.to_string(),
        id: id.to_string(),
        name: format!("name-{id}"),
        artist_name: format!("artist-{id}"),
    }
}

fn entry(id: i64, kind: &str, loved: bool, creator: i64) -> PlaylistEntry {
    PlaylistEntry {
        id,
        title: format!("p{id}"),
        kind: kind.to_string(),
        is_loved_track: loved,
        creator_id: creator,
    }
}

#[test]
fn unmatched_track_is_skipped() {
    let n = 5;
    let k = 2;
    let results: Vec<Option<Vec<SearchItem>>> = (0..n)
        .map(|j| {
            if j == k {
                Some(Vec::new())
            } else {
                Some(vec![item("track", &format!("t{j}"))])
            }
        })
        .collect();
    let p = assemble_playlist(&"Road trip".to_string(), &results);
    assert_eq!(p.title, "Road trip");
    assert_eq!(p.tracks.len(), n - 1);
    let ids: Vec<&str> = p.tracks.iter().map(|t| t.id.as_str()).collect();
    assert_eq!(ids, vec!["t0", "t1", "t3", "t4"]);
}

#[test]
fn search_without_items_is_skipped() {
    let results = vec![None, Some(vec![item("track", "a")])];
    let p = assemble_playlist(&"x".to_string(), &results);
    assert_eq!(p.tracks.len(), 1);
    assert_eq!(p.tracks[0].id, "a");
    assert_eq!(p.tracks[0].title, "name-a");
    assert_eq!(p.tracks[0].artist_name, "artist-a");
}

#[test]
fn only_track_items_match() {
    let found = found_tracks(&Some(vec![
        item("album", "x"),
        item("track", "y"),
        item("", "z"),
        item("track", "w"),
    ]));
    let ids: Vec<&str> = found.iter().map(|t| t.id.as_str()).collect();
    assert_eq!(ids, vec!["y", "w"]);
    assert!(found_tracks(&None).is_empty());
}

#[test]
fn own_playlists_are_selected() {
    let entries = vec![
        entry(1, "playlist", false, 7),
        entry(2, "playlist", true, 7),
        entry(3, "playlist", false, 8),
        entry(4, "album", false, 7),
        entry(5, "playlist", false, 7),
    ];
    assert_eq!(select_own_playlists(&entries, 7), vec![0, 4]);
    assert!(is_own_playlist(&entries[0], 7));
    assert!(!is_own_playlist(&entries[1], 7));
    assert!(!is_own_playlist(&entries[2], 7));
    assert!(!is_own_playlist(&entries[3], 7));
}

#[test]
fn uris_of_tracks() {
    let p = assemble_playlist(
        &"u".to_string(),
        &vec![Some(vec![item("track", "abc")]), Some(vec![item("track", "def")])],
    );
    assert_eq!(track_uris(&p), vec!["spotify:track:abc", "spotify:track:def"]);
}

#[test]
fn deezer_authorization_page() {
    assert_eq!(
        deezer_auth_url("123"),
        "https://connect.deezer.com/oauth/auth.php?app_id=123&redirect_uri=http://localhost:8080/Deezer&perms=basic_access,manage_library"
    );
}

#[test]
fn spotify_authorization_page() {
    assert_eq!(
        spotify_auth_url("cid"),
        "https://accounts.spotify.com/authorize?client_id=cid&response_type=code&show_dialog=true&redirect_uri=http://localhost:8080/Spotify&scope=user-read-email%20user-read-private%20playlist-modify-private%20playlist-modify-public"
    );
}

#[test]
fn token_endpoints() {
    assert_eq!(
        deezer_token_url("1", "s", "c"),
        "https://connect.deezer.com/oauth/access_token.php?app_id=1&secret=s&code=c&output=json"
    );
    assert_eq!(
        spotify_token_url("c", "id", "s"),
        "https://accounts.spotify.com/api/token?grant_type=authorization_code&code=c&client_id=id&client_secret=s&redirect_uri=http://localhost:8080/Spotify"
    );
}

#[test]
fn basic_auth_is_base64_of_credentials() {
    assert_eq!(basic_auth_header("id", "secret"), "Basic aWQ6c2VjcmV0");
    assert_eq!(basic_auth_header("", ""), "Basic Og==");
    assert_eq!(basic_auth_value("xyz"), "Basic xyz");
}

#[test]
fn bearer_header() {
    assert_eq!(bearer_value("tok"), "Bearer tok");
}

#[test]
fn search_escapes_artist_spaces() {
    let t = DeezerTrack {
        title: "Hello".to_string(),
        artist_name: "The Big Band".to_string(),
    };
    assert_eq!(
        search_url(&t),
        "https://api.spotify.com/v1/search?q=Hello%20artist:The%20Big%20Band&type=track&limit=1"
    );
}

#[test]
fn log_title() {
    assert_eq!(bracketed("Spotify"), "[Spotify]");
}
