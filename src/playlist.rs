use vstd::prelude::*;
use vstd::string::StringExecFns;

verus! {

/// A track of a source (Deezer) playlist.
pub struct DeezerTrack {
    pub title: String,
    pub artist_name: String,
}

/// A source (Deezer) playlist with its tracks.
pub struct DeezerPlaylist {
    pub title: String,
    pub tracks: Vec<DeezerTrack>,
}

/// A track found in the destination (Spotify) catalog.
pub struct SpotifyTrack {
    pub id: String,
    pub title: String,
    pub artist_name: String,
}

/// A playlist to be created on the destination (Spotify) account.
pub struct SpotifyPlaylist {
    pub title: String,
    pub tracks: Vec<SpotifyTrack>,
}

/// One entry of a destination search result: its `type`, and for a track its
/// id, name and first artist's name.
pub struct SearchItem {
    pub kind: String,
    pub id: String,
    pub name: String,
    pub artist_name: String,
}

/// One entry of the source account's playlist listing.
pub struct PlaylistEntry {
    pub id: i64,
    pub title: String,
    pub kind: String,
    pub is_loved_track: bool,
    pub creator_id: i64,
}

pub struct TrackView {
    pub id: Seq<char>,
    pub title: Seq<char>,
    pub artist_name: Seq<char>,
}

impl SpotifyTrack {
    pub open spec fn view(&self) -> TrackView {
        TrackView { id: self.id@, title: self.title@, artist_name: self.artist_name@ }
    }

    pub fn new(id: String, title: String, artist_name: String) -> (r: SpotifyTrack)
        ensures
            r.id == id,
            r.title == title,
            r.artist_name == artist_name,
    {
        SpotifyTrack { id, title, artist_name }
    }
}

pub open spec fn tracks_view(ts: Seq<SpotifyTrack>) -> Seq<TrackView> {
    ts.map_values(|t: SpotifyTrack| t.view())
}

/// A search entry counts as a match when its type is `track`.
pub open spec fn is_track_item(i: SearchItem) -> bool {
    i.kind@ == "track"@
}

pub open spec fn item_track(i: SearchItem) -> TrackView {
    TrackView { id: i.id@, title: i.name@, artist_name: i.artist_name@ }
}

/// The tracks that a list of search entries yields, in order.
pub open spec fn matches_in(items: Seq<SearchItem>) -> Seq<TrackView>
    decreases items.len(),
{
    if items.len() == 0 {
        Seq::empty()
    } else if is_track_item(items.last()) {
        matches_in(items.drop_last()).push(item_track(items.last()))
    } else {
        matches_in(items.drop_last())
    }
}

/// The tracks that one search yields: none when it listed no items at all.
pub open spec fn matches_of(result: Option<Vec<SearchItem>>) -> Seq<TrackView> {
    match result {
        Some(items) => matches_in(items@),
        None => Seq::empty(),
    }
}

/// The tracks of a destination playlist built from one search per source
/// track, in the order of the source tracks.
pub open spec fn playlist_matches(results: Seq<Option<Vec<SearchItem>>>) -> Seq<TrackView>
    decreases results.len(),
{
    if results.len() == 0 {
        Seq::empty()
    } else {
        playlist_matches(results.drop_last()) + matches_of(results.last())
    }
}

fn copy_string(s: &String) -> (r: String)
    ensures
        r@ == s@,
{
    s.clone()
}

/// Whether a search entry is a track.
pub fn is_track(item: &SearchItem) -> (r: bool)
    ensures
        r == is_track_item(*item),
{
    let track = String::from_str("track");
    item.kind == track
}

/// The destination tracks that one search found, in the order listed.
pub fn found_tracks(result: &Option<Vec<SearchItem>>) -> (r: Vec<SpotifyTrack>)
    ensures
        tracks_view(r@) == matches_of(*result),
{
    let mut r: Vec<SpotifyTrack> = Vec::new();
    match result {
        None => {
            assert(tracks_view(r@) =~= Seq::<TrackView>::empty());
        },
        Some(items) => {
            let mut i: usize = 0;
            assert(items@.take(0) =~= Seq::<SearchItem>::empty());
            assert(tracks_view(r@) =~= Seq::<TrackView>::empty());
            while i < items.len()
                invariant
                    i <= items@.len(),
                    tracks_view(r@) == matches_in(items@.take(i as int)),
                decreases items@.len() - i,
            {
                let item = &items[i];
                assert(items@.take(i + 1).drop_last() =~= items@.take(i as int));
                assert(items@.take(i + 1).last() == items@[i as int]);
                if is_track(item) {
                    let t = SpotifyTrack {
                        id: copy_string(&item.id),
                        title: copy_string(&item.name),
                        artist_name: copy_string(&item.artist_name),
                    };
                    let ghost before = r@;
                    r.push(t);
                    assert(tracks_view(r@) =~= tracks_view(before).push(t.view()));
                }
                i = i + 1;
            }
            assert(items@.take(items@.len() as int) =~= items@);
        },
    }
    r
}

/// Builds the destination playlist titled `title` from the searches made for
/// its source tracks, one result per track in order. A track whose search
/// found nothing is skipped; the others keep their order.
pub fn assemble_playlist(title: &String, results: &Vec<Option<Vec<SearchItem>>>) -> (r:
    SpotifyPlaylist)
    ensures
        r.title@ == title@,
        tracks_view(r.tracks@) == playlist_matches(results@),
{
    let mut tracks: Vec<SpotifyTrack> = Vec::new();
    let mut i: usize = 0;
    assert(results@.take(0) =~= Seq::<Option<Vec<SearchItem>>>::empty());
    assert(tracks_view(tracks@) =~= Seq::<TrackView>::empty());
    while i < results.len()
        invariant
            i <= results@.len(),
            tracks_view(tracks@) == playlist_matches(results@.take(i as int)),
        decreases results@.len() - i,
    {
        assert(results@.take(i + 1).drop_last() =~= results@.take(i as int));
        assert(results@.take(i + 1).last() == results@[i as int]);
        let mut found = found_tracks(&results[i]);
        let ghost before = tracks@;
        let ghost added = found@;
        tracks.append(&mut found);
        assert(tracks_view(tracks@) =~= tracks_view(before) + tracks_view(added));
        i = i + 1;
    }
    assert(results@.take(results@.len() as int) =~= results@);
    SpotifyPlaylist { title: copy_string(title), tracks }
}

/// One search per source track; the tracks that found exactly one match each
/// and a track `k` that found none give a playlist one track shorter than the
/// source: the unmatched track is skipped and nothing else is lost.
pub proof fn lemma_unmatched_track_skipped(results: Seq<Option<Vec<SearchItem>>>, k: int)
    requires
        0 <= k < results.len(),
        matches_of(results[k]).len() == 0,
        forall|j: int| 0 <= j < results.len() && j != k ==> #[trigger] matches_of(results[j]).len() == 1,
    ensures
        playlist_matches(results).len() == results.len() - 1,
    decreases results.len(),
{
    let n = results.len();
    if k == n - 1 {
        lemma_each_single_match(results.drop_last());
    } else {
        lemma_unmatched_track_skipped(results.drop_last(), k);
        assert(matches_of(results[n - 1]).len() == 1);
    }
}

/// One match per search gives one track per source track.
pub proof fn lemma_each_single_match(results: Seq<Option<Vec<SearchItem>>>)
    requires
        forall|j: int| 0 <= j < results.len() ==> #[trigger] matches_of(results[j]).len() == 1,
    ensures
        playlist_matches(results).len() == results.len(),
    decreases results.len(),
{
    if results.len() > 0 {
        lemma_each_single_match(results.drop_last());
        assert(matches_of(results[results.len() - 1]).len() == 1);
    }
}

/// A listing entry is kept for migration when it is a plain playlist, not
/// the loved-tracks list, and was created by the account's owner.
pub open spec fn own_playlist(e: PlaylistEntry, owner_id: i64) -> bool {
    e.kind@ == "playlist"@ && !e.is_loved_track && e.creator_id == owner_id
}

/// Whether a listed playlist belongs in the migration.
pub fn is_own_playlist(entry: &PlaylistEntry, owner_id: i64) -> (r: bool)
    ensures
        r == own_playlist(*entry, owner_id),
{
    let playlist = String::from_str("playlist");
    entry.kind == playlist && !entry.is_loved_track && entry.creator_id == owner_id
}

/// The positions, in order, of the listed playlists that belong in the migration.
pub open spec fn own_positions(entries: Seq<PlaylistEntry>, owner_id: i64) -> Seq<int>
    decreases entries.len(),
{
    if entries.len() == 0 {
        Seq::empty()
    } else if own_playlist(entries.last(), owner_id) {
        own_positions(entries.drop_last(), owner_id).push(entries.len() - 1)
    } else {
        own_positions(entries.drop_last(), owner_id)
    }
}

/// Picks, in order, the listed playlists that belong in the migration.
pub fn select_own_playlists(entries: &Vec<PlaylistEntry>, owner_id: i64) -> (r: Vec<usize>)
    ensures
        r@.map_values(|i: usize| i as int) == own_positions(entries@, owner_id),
{
    let mut r: Vec<usize> = Vec::new();
    let mut i: usize = 0;
    assert(entries@.take(0) =~= Seq::<PlaylistEntry>::empty());
    assert(r@.map_values(|i: usize| i as int) =~= Seq::<int>::empty());
    while i < entries.len()
        invariant
            i <= entries@.len(),
            r@.map_values(|i: usize| i as int) == own_positions(entries@.take(i as int), owner_id),
        decreases entries@.len() - i,
    {
        assert(entries@.take(i + 1).drop_last() =~= entries@.take(i as int));
        assert(entries@.take(i + 1).last() == entries@[i as int]);
        if is_own_playlist(&entries[i], owner_id) {
            let ghost before = r@;
            r.push(i);
            assert(r@.map_values(|i: usize| i as int) =~= before.map_values(|i: usize| i as int).push(
                i as int,
            ));
        }
        i = i + 1;
    }
    assert(entries@.take(entries@.len() as int) =~= entries@);
    r
}

/// The URI under which the destination API knows a track: `spotify:track:<id>`.
pub fn track_uri(track: &SpotifyTrack) -> (r: String)
    ensures
        r@ == "spotify:track:"@ + track.id@,
{
    let mut r = String::from_str("spotify:track:");
    r.append(track.id.as_str());
    r
}

/// The URIs of a playlist's tracks, in order.
pub fn track_uris(playlist: &SpotifyPlaylist) -> (r: Vec<String>)
    ensures
        r@.len() == playlist.tracks@.len(),
        forall|i: int|
            0 <= i < r@.len() ==> #[trigger] r@[i]@ == "spotify:track:"@ + playlist.tracks@[i].id@,
{
    let mut r: Vec<String> = Vec::new();
    let mut i: usize = 0;
    while i < playlist.tracks.len()
        invariant
            i <= playlist.tracks@.len(),
            r@.len() == i,
            forall|j: int|
                0 <= j < i ==> #[trigger] r@[j]@ == "spotify:track:"@ + playlist.tracks@[j].id@,
        decreases playlist.tracks@.len() - i,
    {
        let u = track_uri(&playlist.tracks[i]);
        r.push(u);
        i = i + 1;
    }
    r
}

} // verus!
