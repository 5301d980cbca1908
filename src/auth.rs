use vstd::prelude::*;
use vstd::string::StringExecFns;
use vstd::utf8::encode_utf8;
use base64::Engine;

use crate::playlist::DeezerTrack;

verus! {

/// Where Deezer sends the browser back after the user grants access.
pub open spec fn deezer_redirect() -> Seq<char> {
    "http://localhost:8080/Deezer"@
}

/// Where Spotify sends the browser back after the user grants access.
pub open spec fn spotify_redirect() -> Seq<char> {
    "http://localhost:8080/Spotify"@
}

/// The Deezer permissions asked for, comma-separated.
pub open spec fn deezer_perms() -> Seq<char> {
    "basic_access,manage_library"@
}

/// The Spotify scopes asked for, separated by encoded spaces.
pub open spec fn spotify_scopes() -> Seq<char> {
    "user-read-email%20user-read-private%20playlist-modify-private%20playlist-modify-public"@
}

pub open spec fn deezer_auth_text(app_id: Seq<char>) -> Seq<char> {
    "https://connect.deezer.com/oauth/auth.php?app_id="@ + app_id + "&redirect_uri="@
        + deezer_redirect() + "&perms="@ + deezer_perms()
}

pub open spec fn spotify_auth_text(client_id: Seq<char>) -> Seq<char> {
    "https://accounts.spotify.com/authorize?client_id="@ + client_id
        + "&response_type=code&show_dialog=true&redirect_uri="@ + spotify_redirect() + "&scope="@
        + spotify_scopes()
}

pub open spec fn deezer_token_text(app_id: Seq<char>, secret: Seq<char>, code: Seq<char>) -> Seq<
    char,
> {
    "https://connect.deezer.com/oauth/access_token.php?app_id="@ + app_id + "&secret="@ + secret
        + "&code="@ + code + "&output=json"@
}

pub open spec fn spotify_token_text(code: Seq<char>, client_id: Seq<char>, secret: Seq<char>) -> Seq<
    char,
> {
    "https://accounts.spotify.com/api/token?grant_type=authorization_code&code="@ + code
        + "&client_id="@ + client_id + "&client_secret="@ + secret + "&redirect_uri="@
        + spotify_redirect()
}

/// The page where the user grants this application access to a Deezer account.
pub fn deezer_auth_url(app_id: &str) -> (r: String)
    ensures
        r@ == deezer_auth_text(app_id@),
{
    let mut r = String::from_str("https://connect.deezer.com/oauth/auth.php?app_id=");
    r.append(app_id);
    r.append("&redirect_uri=");
    r.append("http://localhost:8080/Deezer");
    r.append("&perms=");
    r.append("basic_access,manage_library");
    r
}

/// The page where the user grants this application access to a Spotify account.
pub fn spotify_auth_url(client_id: &str) -> (r: String)
    ensures
        r@ == spotify_auth_text(client_id@),
{
    let mut r = String::from_str("https://accounts.spotify.com/authorize?client_id=");
    r.append(client_id);
    r.append("&response_type=code&show_dialog=true&redirect_uri=");
    r.append("http://localhost:8080/Spotify");
    r.append("&scope=");
    r.append(
        "user-read-email%20user-read-private%20playlist-modify-private%20playlist-modify-public",
    );
    r
}

/// The Deezer token endpoint, asked to exchange `code` for an access token.
pub fn deezer_token_url(app_id: &str, secret: &str, code: &str) -> (r: String)
    ensures
        r@ == deezer_token_text(app_id@, secret@, code@),
{
    let mut r = String::from_str("https://connect.deezer.com/oauth/access_token.php?app_id=");
    r.append(app_id);
    r.append("&secret=");
    r.append(secret);
    r.append("&code=");
    r.append(code);
    r.append("&output=json");
    r
}

/// The Spotify token endpoint, asked to exchange `code` for an access token.
pub fn spotify_token_url(code: &str, client_id: &str, secret: &str) -> (r: String)
    ensures
        r@ == spotify_token_text(code@, client_id@, secret@),
{
    let mut r = String::from_str(
        "https://accounts.spotify.com/api/token?grant_type=authorization_code&code=",
    );
    r.append(code);
    r.append("&client_id=");
    r.append(client_id);
    r.append("&client_secret=");
    r.append(secret);
    r.append("&redirect_uri=");
    r.append("http://localhost:8080/Spotify");
    r
}

/// The base64 text (standard alphabet, padded) of some bytes.
pub uninterp spec fn base64_standard(b: Seq<u8>) -> Seq<char>;

/// Relies on `base64::engine::general_purpose::STANDARD.encode`: the padded
/// standard-alphabet encoding of the bytes. It panics only when the encoded
/// length overflows `usize`, which the bound on the input rules out.
#[verifier::external_body]
fn encode_base64(b: &[u8]) -> (r: String)
    requires
        b@.len() <= isize::MAX,
    ensures
        r@ == base64_standard(b@),
{
    base64::engine::general_purpose::STANDARD.encode(b)
}

/// The credentials that a basic authorization header carries: `id:secret`.
pub open spec fn credentials(client_id: Seq<char>, secret: Seq<char>) -> Seq<u8> {
    encode_utf8(client_id + ":"@ + secret)
}

/// `Basic <encoded>`: the value of an authorization header from encoded credentials.
pub fn basic_auth_value(encoded: &str) -> (r: String)
    ensures
        r@ == "Basic "@ + encoded@,
{
    let mut r = String::from_str("Basic ");
    r.append(encoded);
    r
}

/// The basic authorization header of the Spotify token request:
/// `Basic base64(id:secret)`.
pub fn basic_auth_header(client_id: &str, secret: &str) -> (r: String)
    requires
        credentials(client_id@, secret@).len() <= isize::MAX,
    ensures
        r@ == "Basic "@ + base64_standard(credentials(client_id@, secret@)),
{
    let mut creds = String::from_str(client_id);
    creds.append(":");
    creds.append(secret);
    let bytes = creds.as_str().as_bytes();
    let encoded = encode_base64(bytes);
    basic_auth_value(encoded.as_str())
}

/// `s` with each space written as `%20`.
pub open spec fn spaces_escaped(s: Seq<char>) -> Seq<char>
    decreases s.len(),
{
    if s.len() == 0 {
        Seq::empty()
    } else if s.last() == ' ' {
        spaces_escaped(s.drop_last()) + "%20"@
    } else {
        spaces_escaped(s.drop_last()).push(s.last())
    }
}

/// Relies on `str::replace`: every space replaced by `%20`, the rest kept.
#[verifier::external_body]
fn escape_spaces(s: &str) -> (r: String)
    ensures
        r@ == spaces_escaped(s@),
{
    s.replace(' ', "%20")
}

pub open spec fn search_text(title: Seq<char>, artist: Seq<char>) -> Seq<char> {
    "https://api.spotify.com/v1/search?q="@ + title + "%20artist:"@ + spaces_escaped(artist)
        + "&type=track&limit=1"@
}

/// The catalog search that looks for a source track on Spotify: the title,
/// and the artist with its spaces encoded, asking for one track.
pub fn search_url(track: &DeezerTrack) -> (r: String)
    ensures
        r@ == search_text(track.title@, track.artist_name@),
{
    let artist = escape_spaces(track.artist_name.as_str());
    let mut r = String::from_str("https://api.spotify.com/v1/search?q=");
    r.append(track.title.as_str());
    r.append("%20artist:");
    r.append(artist.as_str());
    r.append("&type=track&limit=1");
    r
}

/// The value of a bearer authorization header.
pub fn bearer_value(token: &str) -> (r: String)
    ensures
        r@ == "Bearer "@ + token@,
{
    let mut r = String::from_str("Bearer ");
    r.append(token);
    r
}

} // verus!
