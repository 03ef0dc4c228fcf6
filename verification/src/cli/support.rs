//! Decisions of the command-line commands: recognising ids, finding playlists by name,
//! filtering songs for smart playlists, reading `.m3u` files, and the lines the commands print.
use vstd::prelude::*;

use crate::api::types::{Playlist, Song};
use crate::player::queue::RepeatMode;
use crate::player::state::TrackInfo;
use crate::playback::{audio_seconds, display_title, format_duration, minutes_seconds, tag_album, tag_artist};
use crate::text::{
    contains_text, eq_ignore_ascii_case, lowercase_of, occurs_in, push_str, same_ignoring_ascii_case,
    starts_with, str_equal, to_lowercase, trim, trimmed,
};
use crate::tui::handler::{cat, cat3};
use crate::util::push_char;

verus! {

/// Whether `s` begins with `prefix`.
pub open spec fn begins_with(s: Seq<char>, prefix: Seq<char>) -> bool {
    prefix.len() <= s.len() && s.subrange(0, prefix.len() as int) == prefix
}

/// Whether a play target is a song id rather than a name to search for.
pub fn is_song_id(target: &str) -> (b: bool)
    ensures
        b == begins_with(target@, "music_"@),
{
    starts_with(target, "music_")
}

/// Whether a playlist reference is an id rather than a name.
pub fn is_playlist_id(name_or_id: &str) -> (b: bool)
    ensures
        b == begins_with(name_or_id@, "playlist_"@),
{
    starts_with(name_or_id, "playlist_")
}

/// The position of the first playlist named `name`, ignoring ASCII case.
pub open spec fn first_named(playlists: Seq<Playlist>, name: Seq<char>) -> Option<int> {
    if exists|k: int| 0 <= k < playlists.len() && same_ignoring_ascii_case(#[trigger] playlists[k].name@, name) {
        Some(
            choose|k: int|
                0 <= k < playlists.len() && same_ignoring_ascii_case(#[trigger] playlists[k].name@, name)
                    && forall|j: int| 0 <= j < k ==> !same_ignoring_ascii_case(#[trigger] playlists[j].name@, name),
        )
    } else {
        None
    }
}

/// The id of the first playlist named `name` (ASCII case ignored), searching the personal
/// playlists and then the shared ones, as given in order.
pub fn find_playlist_id(playlists: &Vec<Playlist>, name: &str) -> (r: Option<String>)
    ensures
        match r {
            Some(id) => (first_named(playlists@, name@) matches Some(k) && id == playlists@[k].id),
            None => first_named(playlists@, name@) is None,
        },
{
    let mut i: usize = 0;
    while i < playlists.len()
        invariant
            i <= playlists@.len(),
            forall|j: int| 0 <= j < i ==> !same_ignoring_ascii_case(#[trigger] playlists@[j].name@, name@),
        decreases playlists.len() - i,
    {
        if eq_ignore_ascii_case(playlists[i].name.as_str(), name) {
            proof {
                let k = choose|k: int|
                    0 <= k < playlists@.len() && same_ignoring_ascii_case(#[trigger] playlists@[k].name@, name@)
                        && forall|j: int| 0 <= j < k ==> !same_ignoring_ascii_case(#[trigger] playlists@[j].name@, name@);
                if k < i {
                } else if k > i {
                    assert(!same_ignoring_ascii_case(playlists@[i as int].name@, name@));
                }
            }
            return Some(playlists[i].id.clone());
        }
        i = i + 1;
    }
    None
}

/// A playlist id from a reference: an id as it is, a name looked up among the playlists.
pub fn resolve_playlist_id(name_or_id: &str, playlists: &Vec<Playlist>) -> (r: Result<String, String>)
    ensures
        begins_with(name_or_id@, "playlist_"@) ==> (r matches Ok(id) && id@ == name_or_id@),
        !begins_with(name_or_id@, "playlist_"@) ==> match first_named(playlists@, name_or_id@) {
            Some(k) => r == Ok::<String, String>(playlists@[k].id),
            None => (r matches Err(m) && m@ == "Playlist not found: "@ + name_or_id@),
        },
{
    if is_playlist_id(name_or_id) {
        return Ok(name_or_id.to_string());
    }
    match find_playlist_id(playlists, name_or_id) {
        Some(id) => Ok(id),
        None => Err(cat("Playlist not found: ", name_or_id)),
    }
}

/// The tag genre of a song, empty without a tag.
pub open spec fn tag_genre(song: Song) -> Seq<char> {
    match song.additional {
        Some(add) => match add.song_tag {
            Some(t) => t.genre@,
            None => Seq::empty(),
        },
        None => Seq::empty(),
    }
}

/// The rating of a song, zero without one.
pub open spec fn song_rating(song: Song) -> i32 {
    match song.additional {
        Some(add) => match add.song_rating {
            Some(r) => r.rating,
            None => 0,
        },
        None => 0,
    }
}

/// The tag year of a song, zero without a tag.
pub open spec fn tag_year(song: Song) -> i32 {
    match song.additional {
        Some(add) => match add.song_tag {
            Some(t) => t.year,
            None => 0,
        },
        None => 0,
    }
}

/// Whether a song matches the rules of a smart playlist. A song without extra information
/// matches only when there are no rules; otherwise the genre and artist must contain the
/// wanted text (case ignored), the rating reach the minimum, and the year be the wanted one.
pub open spec fn smart_match(song: Song, genre: Option<Seq<char>>, artist: Option<Seq<char>>, min_rating: Option<i32>, year: Option<i32>) -> bool {
    if song.additional is None {
        genre is None && artist is None && min_rating is None && year is None
    } else {
        &&& (genre matches Some(g) ==> occurs_in(lowercase_of(tag_genre(song)), lowercase_of(g)))
        &&& (artist matches Some(a) ==> occurs_in(lowercase_of(tag_artist(song)), lowercase_of(a)))
        &&& (min_rating matches Some(m) ==> song_rating(song) >= m)
        &&& (year matches Some(y) ==> tag_year(song) == y)
    }
}

/// The minimum rating is inclusive: for a song with extra information and no rule but a
/// minimum rating `m`, the song passes exactly when its rating (zero when it has none) is at
/// least `m`; in particular a song rated exactly `m` passes.
pub proof fn lemma_min_rating_inclusive(song: Song, m: i32)
    requires
        song.additional is Some,
    ensures
        smart_match(song, None, None, Some(m), None) == (match song.additional.unwrap().song_rating {
            Some(r) => r.rating >= m,
            None => 0 >= m,
        }),
        (song.additional.unwrap().song_rating matches Some(r) && r.rating == m) ==> smart_match(
            song,
            None,
            None,
            Some(m),
            None,
        ),
{
}

/// The view of an optional text.
pub open spec fn opt_view(o: Option<&str>) -> Option<Seq<char>> {
    match o {
        Some(s) => Some(s@),
        None => None,
    }
}

/// Check if a song matches smart playlist filter criteria.
pub fn check_smart_filter(song: &Song, genre: Option<&str>, artist: Option<&str>, min_rating: Option<i32>, year: Option<i32>) -> (b: bool)
    ensures
        b == smart_match(*song, opt_view(genre), opt_view(artist), min_rating, year),
{
    let add = match &song.additional {
        Some(a) => a,
        None => {
            return genre.is_none() && artist.is_none() && min_rating.is_none() && year.is_none();
        },
    };
    match genre {
        Some(g) => {
            let song_genre = match &add.song_tag {
                Some(t) => to_lowercase(t.genre.as_str()),
                None => to_lowercase(""),
            };
            proof {
                reveal_strlit("");
                assert(""@ =~= Seq::<char>::empty());
            }
            assert(song_genre@ == lowercase_of(tag_genre(*song)));
            if !contains_text(song_genre.as_str(), to_lowercase(g).as_str()) {
                return false;
            }
        },
        None => {},
    }
    match artist {
        Some(a) => {
            let song_artist = match &add.song_tag {
                Some(t) => to_lowercase(t.artist.as_str()),
                None => to_lowercase(""),
            };
            proof {
                reveal_strlit("");
                assert(""@ =~= Seq::<char>::empty());
            }
            assert(song_artist@ == lowercase_of(tag_artist(*song)));
            if !contains_text(song_artist.as_str(), to_lowercase(a).as_str()) {
                return false;
            }
        },
        None => {},
    }
    match min_rating {
        Some(m) => {
            let rating = match &add.song_rating {
                Some(r) => r.rating,
                None => 0,
            };
            if rating < m {
                return false;
            }
        },
        None => {},
    }
    match year {
        Some(y) => {
            let song_year = match &add.song_tag {
                Some(t) => t.year,
                None => 0,
            };
            if song_year != y {
                return false;
            }
        },
        None => {},
    }
    true
}

/// A text cut at each `sep`, the pieces in order (a text without `sep` is one piece).
pub open spec fn split_on(p: Seq<char>, sep: char) -> Seq<Seq<char>>
    decreases p.len(),
{
    if p.len() == 0 {
        seq![Seq::empty()]
    } else {
        let segs = split_on(p.drop_last(), sep);
        if p.last() == sep {
            segs.push(Seq::empty())
        } else {
            segs.update(segs.len() - 1, segs.last().push(p.last()))
        }
    }
}

/// The last piece that is neither empty nor `.`, if any.
pub open spec fn last_kept(segs: Seq<Seq<char>>) -> Option<Seq<char>>
    decreases segs.len(),
{
    if segs.len() == 0 {
        None
    } else if segs.last().len() == 0 || segs.last() == seq!['.'] {
        last_kept(segs.drop_last())
    } else {
        Some(segs.last())
    }
}

/// The position of the last occurrence of a character, if any.
pub open spec fn last_index(s: Seq<char>, c: char) -> Option<int>
    decreases s.len(),
{
    if s.len() == 0 {
        None
    } else if s.last() == c {
        Some(s.len() - 1)
    } else {
        last_index(s.drop_last(), c)
    }
}

/// The stem of a file name: the text before the last dot, unless that dot comes first or
/// there is none.
pub open spec fn stem_of(name: Seq<char>) -> Seq<char> {
    match last_index(name, '.') {
        Some(p) => if p == 0 {
            name
        } else {
            name.take(p)
        },
        None => name,
    }
}

/// The stem of the file a path names, as `Path::file_stem` gives it: the last component that
/// is neither empty nor `.`, without its extension; none for a path without one or ending in
/// `..`.
pub open spec fn path_stem(path: Seq<char>) -> Option<Seq<char>> {
    match last_kept(split_on(path, '/')) {
        Some(name) => if name == seq!['.', '.'] {
            None
        } else {
            Some(stem_of(name))
        },
        None => None,
    }
}

proof fn lemma_split_nonempty(p: Seq<char>, sep: char)
    ensures
        split_on(p, sep).len() > 0,
    decreases p.len(),
{
    if p.len() > 0 {
        lemma_split_nonempty(p.drop_last(), sep);
    }
}

/// The pieces of a text cut at each `sep`.
fn pieces(path: &str, sep: char) -> (segs: Vec<String>)
    ensures
        segs@.len() == split_on(path@, sep).len(),
        forall|k: int| 0 <= k < segs@.len() ==> (#[trigger] segs@[k])@ == split_on(path@, sep)[k],
{
    let n = path.unicode_len();
    let mut segs: Vec<String> = Vec::new();
    segs.push(String::new());
    let mut i: usize = 0;
    proof {
        assert(path@.take(0) =~= Seq::<char>::empty());
    }
    while i < n
        invariant
            n == path@.len(),
            i <= n,
            segs@.len() == split_on(path@.take(i as int), sep).len(),
            segs@.len() > 0,
            forall|k: int| 0 <= k < segs@.len() ==> (#[trigger] segs@[k])@ == split_on(path@.take(i as int), sep)[k],
        decreases n - i,
    {
        let c = path.get_char(i);
        proof {
            assert(path@.take(i + 1).drop_last() =~= path@.take(i as int));
            lemma_split_nonempty(path@.take(i as int), sep);
        }
        if c == sep {
            segs.push(String::new());
        } else {
            let last = segs.len() - 1;
            let mut cur = segs.remove(last);
            push_char(&mut cur, c);
            segs.push(cur);
        }
        proof {
            let prev = split_on(path@.take(i as int), sep);
            let next = split_on(path@.take(i + 1), sep);
            assert forall|k: int| 0 <= k < segs@.len() implies (#[trigger] segs@[k])@ == next[k] by {
                if k < segs@.len() - 1 {
                    assert(segs@[k]@ == prev[k]);
                }
            }
        }
        i = i + 1;
    }
    assert(path@.take(n as int) =~= path@);
    segs
}

fn skippable(piece: &str) -> (b: bool)
    ensures
        b == (piece@.len() == 0 || piece@ == seq!['.']),
{
    proof {
        reveal_strlit(".");
        assert("."@ =~= seq!['.']);
    }
    piece.is_empty() || str_equal(piece, ".")
}

/// The stem of the file a path names, as `Path::file_stem` gives it.
pub fn file_stem(path: &str) -> (r: Option<String>)
    ensures
        match r {
            Some(s) => path_stem(path@) == Some(s@),
            None => path_stem(path@) is None,
        },
{
    let segs = pieces(path, '/');
    let ghost all = split_on(path@, '/');
    let mut k: usize = segs.len();
    assert(all.take(k as int) =~= all);
    let mut skip = k > 0 && skippable(segs[k - 1].as_str());
    while skip
        invariant
            k <= segs@.len(),
            segs@.len() == all.len(),
            forall|j: int| 0 <= j < segs@.len() ==> (#[trigger] segs@[j])@ == all[j],
            last_kept(all) == last_kept(all.take(k as int)),
            skip == (k > 0 && (all[k - 1].len() == 0 || all[k - 1] == seq!['.'])),
        decreases k,
    {
        proof {
            assert(all.take(k as int).drop_last() =~= all.take(k - 1));
            assert(all.take(k as int).last() == all[k - 1]);
        }
        k = k - 1;
        skip = k > 0 && skippable(segs[k - 1].as_str());
    }
    if k == 0 {
        assert(all.take(0) =~= Seq::<Seq<char>>::empty());
        return None;
    }
    proof {
        assert(all.take(k as int).last() == all[k - 1]);
        assert(last_kept(all) == Some(all[k - 1]));
    }
    let name = &segs[k - 1];
    if str_equal(name.as_str(), "..") {
        proof {
            reveal_strlit("..");
            assert(".."@ =~= seq!['.', '.']);
        }
        return None;
    }
    proof {
        reveal_strlit("..");
        assert(".."@ =~= seq!['.', '.']);
    }
    let m = name.unicode_len();
    let mut p: usize = m;
    assert(name@.take(m as int) =~= name@);
    while p > 0 && name.get_char(p - 1) != '.'
        invariant
            p <= m,
            m == name@.len(),
            last_index(name@, '.') == last_index(name@.take(p as int), '.'),
        decreases p,
    {
        assert(name@.take(p as int).drop_last() =~= name@.take(p - 1));
        p = p - 1;
    }
    if p == 0 {
        assert(name@.take(0) =~= Seq::<char>::empty());
        return Some(name.clone());
    }
    assert(name@.take(p as int).drop_last() =~= name@.take(p - 1));
    assert(name@.take(p as int).last() == '.');
    assert(last_index(name@, '.') == Some(p - 1));
    if p - 1 == 0 {
        Some(name.clone())
    } else {
        Some(crate::text::substring(name.as_str(), 0, p - 1))
    }
}

/// The name of a playlist imported from a `.m3u` file: the given name, else the file's stem,
/// else `Imported`.
pub fn m3u_playlist_name(path: &str, name: Option<&str>) -> (r: String)
    ensures
        r@ == match opt_view(name) {
            Some(n) => n,
            None => match path_stem(path@) {
                Some(s) => s,
                None => "Imported"@,
            },
        },
{
    match name {
        Some(n) => n.to_string(),
        None => match file_stem(path) {
            Some(s) => s,
            None => "Imported".to_string(),
        },
    }
}

/// The text to search for a `.m3u` entry: the stem of the file it names, else the entry.
pub fn entry_search_key(entry: &str) -> (r: String)
    ensures
        r@ == match path_stem(entry@) {
            Some(s) => s,
            None => entry@,
        },
{
    match file_stem(entry) {
        Some(s) => s,
        None => entry.to_string(),
    }
}

/// The entries of a `.m3u` file: its lines trimmed, without empty lines and `#` comments.
pub open spec fn m3u_entries_of(lines: Seq<Seq<char>>) -> Seq<Seq<char>>
    decreases lines.len(),
{
    if lines.len() == 0 {
        Seq::empty()
    } else {
        let rest = m3u_entries_of(lines.drop_last());
        let t = trimmed(lines.last());
        if t.len() == 0 || t[0] == '#' {
            rest
        } else {
            rest.push(t)
        }
    }
}

/// Parse the text of a `.m3u` file: its lines, trimmed, without empty lines and `#`
/// comments. Lines are cut at newlines; a carriage return before a newline is white space and
/// goes with the trimming, and the empty piece after a final newline is an empty line.
pub fn parse_m3u(content: &str) -> (entries: Vec<String>)
    ensures
        entries@.len() == m3u_entries_of(split_on(content@, '\n')).len(),
        forall|k: int| 0 <= k < entries@.len() ==> (#[trigger] entries@[k])@ == m3u_entries_of(split_on(content@, '\n'))[k],
{
    let lines = pieces(content, '\n');
    let ghost all = split_on(content@, '\n');
    let mut entries: Vec<String> = Vec::new();
    let mut k: usize = 0;
    while k < lines.len()
        invariant
            k <= lines@.len(),
            lines@.len() == all.len(),
            forall|j: int| 0 <= j < lines@.len() ==> (#[trigger] lines@[j])@ == all[j],
            entries@.len() == m3u_entries_of(all.take(k as int)).len(),
            forall|j: int| 0 <= j < entries@.len() ==> (#[trigger] entries@[j])@ == m3u_entries_of(all.take(k as int))[j],
        decreases lines.len() - k,
    {
        proof {
            assert(all.take(k + 1).drop_last() =~= all.take(k as int));
        }
        let t = trim(lines[k].as_str());
        if !t.as_str().is_empty() && t.as_str().get_char(0) != '#' {
            entries.push(t);
        }
        k = k + 1;
    }
    assert(all.take(all.len() as int) =~= all);
    entries
}


/// The entries of a `.m3u` file to import, or why there are none: the file could not be read
/// (`None`), or it lists no entry.
pub fn import_entries(path: &str, content: Option<&str>) -> (r: Result<Vec<String>, String>)
    ensures
        content is None ==> (r matches Err(m) && m@ == "Cannot read '"@ + path@
            + "' — file not accessible locally.\nRun this command on the NAS itself, or copy the .m3u file locally."@),
        content matches Some(c) ==> {
            let e = m3u_entries_of(split_on(c@, '\n'));
            &&& e.len() == 0 ==> (r matches Err(m) && m@ == "No entries found in '"@ + path@ + "'."@)
            &&& e.len() > 0 ==> (r matches Ok(v) && v@.len() == e.len() && forall|k: int|
                0 <= k < e.len() ==> (#[trigger] v@[k])@ == e[k])
        },
{
    match content {
        None => Err(cat3(
            "Cannot read '",
            path,
            "' — file not accessible locally.\nRun this command on the NAS itself, or copy the .m3u file locally.",
        )),
        Some(c) => {
            let entries = parse_m3u(c);
            if entries.len() == 0 {
                Err(cat3("No entries found in '", path, "'."))
            } else {
                Ok(entries)
            }
        },
    }
}

/// The ids an import collects from its searches, one search per entry in order: the id of
/// the first song each search found, skipping searches that found none.
pub open spec fn first_hits(searches: Seq<Seq<Song>>) -> Seq<Seq<char>>
    decreases searches.len(),
{
    if searches.len() == 0 {
        Seq::empty()
    } else {
        let rest = first_hits(searches.drop_last());
        if searches.last().len() > 0 {
            rest.push(searches.last()[0].id@)
        } else {
            rest
        }
    }
}

/// How many of the searches found nothing.
pub open spec fn misses(searches: Seq<Seq<Song>>) -> nat
    decreases searches.len(),
{
    if searches.len() == 0 {
        0
    } else {
        misses(searches.drop_last()) + if searches.last().len() == 0 {
            1nat
        } else {
            0
        }
    }
}

/// The progress of an import: the ids found so far and the number of entries not found, over
/// the searches made so far.
pub struct ImportTally {
    pub found: Vec<String>,
    pub missing: usize,
    pub searches: Ghost<Seq<Seq<Song>>>,
}

impl ImportTally {
    /// Well-formed: what was found and missed is what the searches so far give.
    pub open spec fn wf(&self) -> bool {
        &&& self.found@.map_values(|s: String| s@) == first_hits(self.searches@)
        &&& self.missing == misses(self.searches@)
    }

    /// No search made yet.
    pub fn new() -> (t: Self)
        ensures
            t.wf(),
            t.searches@.len() == 0,
            t.found@.len() == 0,
            t.missing == 0,
    {
        let t = ImportTally { found: Vec::new(), missing: 0, searches: Ghost(Seq::empty()) };
        assert(t.found@.map_values(|s: String| s@) =~= Seq::<Seq<char>>::empty());
        t
    }

    /// Take in the songs one entry's search found: the first one's id joins the ids found,
    /// else the entry counts as missing.
    pub fn add(&mut self, songs: &Vec<Song>)
        requires
            old(self).wf(),
            old(self).missing < usize::MAX,
        ensures
            final(self).wf(),
            final(self).searches@ == old(self).searches@.push(songs@),
            songs@.len() > 0 ==> final(self).found@.len() == old(self).found@.len() + 1
                && final(self).found@.last()@ == songs@[0].id@ && final(self).missing == old(self).missing,
            songs@.len() == 0 ==> final(self).found@ == old(self).found@ && final(self).missing
                == old(self).missing + 1,
    {
        let ghost before = self.searches@;
        let ghost after = before.push(songs@);
        assert(after.drop_last() =~= before);
        if songs.len() > 0 {
            let ghost f0 = self.found@;
            self.found.push(songs[0].id.clone());
            assert(self.found@.map_values(|s: String| s@) =~= f0.map_values(|s: String| s@).push(songs@[0].id@));
        } else {
            self.missing = self.missing + 1;
        }
        self.searches = Ghost(after);
    }

    /// How the import ends: the playlist to create, named `name`, with the ids found, or the
    /// error when no entry was found (then no playlist is created).
    pub fn result(self, name: String) -> (r: Result<(String, Vec<String>), String>)
        ensures
            self.found@.len() == 0 ==> (r matches Err(m) && m@ == "No matching songs found in Audio Station."@),
            self.found@.len() > 0 ==> (r matches Ok((n, ids)) && n == name && ids@ == self.found@),
    {
        if self.found.len() == 0 {
            Err("No matching songs found in Audio Station.".to_string())
        } else {
            Ok((name, self.found))
        }
    }
}

/// An import over the searches of its entries, in order, collects the id of each entry's
/// first hit, in entry order, and counts the rest as missing; it finds nothing (and so
/// creates no playlist) exactly when no search found a song.
pub proof fn lemma_import_collects_first_hits(searches: Seq<Seq<Song>>)
    ensures
        first_hits(searches).len() + misses(searches) == searches.len(),
        first_hits(searches).len() == 0 <==> forall|i: int| 0 <= i < searches.len() ==> (#[trigger] searches[i]).len() == 0,
    decreases searches.len(),
{
    if searches.len() > 0 {
        let rest = searches.drop_last();
        lemma_import_collects_first_hits(rest);
        if first_hits(searches).len() == 0 {
            assert forall|i: int| 0 <= i < searches.len() implies (#[trigger] searches[i]).len() == 0 by {
                if i < rest.len() {
                    assert(rest[i] == searches[i]);
                }
            }
        } else {
            if searches.last().len() == 0 {
                let i = choose|i: int| 0 <= i < rest.len() && (#[trigger] rest[i]).len() != 0;
                assert(searches[i] == rest[i]);
            }
        }
    }
}

/// A run of `n` stars.
pub open spec fn stars(n: nat) -> Seq<char> {
    Seq::new(n, |i: int| '*')
}

fn star_text(n: u32) -> (s: String)
    ensures
        s@ == stars(n as nat),
{
    let mut s = String::new();
    let mut i: u32 = 0;
    while i < n
        invariant
            i <= n,
            s@ == stars(i as nat),
        decreases n - i,
    {
        push_char(&mut s, '*');
        assert(s@ =~= stars((i + 1) as nat));
        i = i + 1;
    }
    s
}

/// Whether a rating is one the rate command accepts: 0 (to clear) to 5.
pub fn rating_in_range(rating: i32) -> (b: bool)
    ensures
        b == (0 <= rating <= 5),
{
    0 <= rating && rating <= 5
}

/// What the rate command reports for a rating it accepted.
pub fn rating_report(song_id: &str, rating: i32) -> (s: String)
    requires
        0 <= rating <= 5,
    ensures
        rating == 0 ==> s@ == "Rating cleared for "@ + song_id@ + "."@,
        rating > 0 ==> s@ == "Rating set to "@ + stars(rating as nat) + " ("@ + crate::text::decimal(
            rating as nat,
        ) + "/5) for "@ + song_id@ + "."@,
{
    if rating == 0 {
        let s = cat3("Rating cleared for ", song_id, ".");
        return s;
    }
    let mut s = cat("Rating set to ", star_text(rating as u32).as_str());
    push_str(&mut s, " (");
    crate::text::push_decimal(&mut s, rating as u64);
    push_str(&mut s, "/5) for ");
    push_str(&mut s, song_id);
    push_str(&mut s, ".");
    s
}

/// The order a playlist plays in: as listed, or shuffled (every song kept) when asked.
pub fn playlist_order(shuffle: bool, queue: &mut Vec<Song>)
    ensures
        !shuffle ==> final(queue)@ == old(queue)@,
        shuffle ==> final(queue)@.len() == old(queue)@.len() && final(queue)@.to_multiset()
            == old(queue)@.to_multiset(),
{
    if shuffle {
        crate::tui::handler::shuffle_from(queue, 0);
        proof {
            assert(old(queue)@.skip(0) =~= old(queue)@);
            assert(queue@.skip(0) =~= queue@);
        }
    }
}

/// The line that lists a song: id, artist, title, album, length and rating stars.
pub open spec fn song_line_of(song: Song) -> Seq<char> {
    "  ["@ + song.id@ + "] "@ + tag_artist(song) + " - "@ + display_title(song) + " ("@ + tag_album(song) + ") ["@
        + minutes_seconds(audio_seconds(song) as nat) + "] "@ + stars(song_rating(song) as nat)
}

/// The line that lists a song. Ratings are not negative.
pub fn song_line(song: &Song) -> (line: String)
    requires
        song_rating(*song) >= 0,
    ensures
        line@ == song_line_of(*song),
{
    let (artist, title, album, dur) = crate::tui::view::extract_song_display(song);
    let rating: i32 = match &song.additional {
        Some(add) => match &add.song_rating {
            Some(r) => r.rating,
            None => 0,
        },
        None => 0,
    };
    let mut line = cat3("  [", song.id.as_str(), "] ");
    push_str(&mut line, artist.as_str());
    push_str(&mut line, " - ");
    push_str(&mut line, title.as_str());
    push_str(&mut line, " (");
    push_str(&mut line, album.as_str());
    push_str(&mut line, ") [");
    push_str(&mut line, dur.as_str());
    push_str(&mut line, "] ");
    push_str(&mut line, star_text(rating as u32).as_str());
    line
}

/// The repeat mode a command-line word names, its case ignored: `one`, `all`, else off.
pub fn repeat_mode_named(word: &str) -> (m: RepeatMode)
    ensures
        m == if lowercase_of(word@) == "one"@ {
            RepeatMode::One
        } else if lowercase_of(word@) == "all"@ {
            RepeatMode::All
        } else {
            RepeatMode::Off
        },
{
    let w = to_lowercase(word);
    if str_equal(w.as_str(), "one") {
        RepeatMode::One
    } else if str_equal(w.as_str(), "all") {
        RepeatMode::All
    } else {
        RepeatMode::Off
    }
}

/// Where playing a playlist of `len` songs starts: at the first when shuffled, else at track
/// `from` (counted from 1), at most the last.
pub fn playlist_start(from: usize, shuffle: bool, len: usize) -> (start: usize)
    requires
        len > 0,
    ensures
        start == if shuffle {
            0
        } else if from == 0 {
            0
        } else if from - 1 <= len - 1 {
            (from - 1) as usize
        } else {
            (len - 1) as usize
        },
{
    if shuffle {
        return 0;
    }
    let f = if from > 0 {
        from - 1
    } else {
        0
    };
    if f <= len - 1 {
        f
    } else {
        len - 1
    }
}

/// The track after one finished when playing a playlist: the same with repeat-one, the next
/// wrapping around with repeat-all, the next or the end without repeat.
pub fn next_playlist_index(idx: usize, len: usize, mode: RepeatMode) -> (r: Option<usize>)
    requires
        idx < len,
    ensures
        r == match mode {
            RepeatMode::One => Some(idx),
            RepeatMode::All => Some(((idx + 1) % (len as int)) as usize),
            RepeatMode::Off => if idx + 1 < len {
                Some((idx + 1) as usize)
            } else {
                None
            },
        },
{
    match mode {
        RepeatMode::One => Some(idx),
        RepeatMode::All => Some((idx + 1) % len),
        RepeatMode::Off => if idx + 1 < len {
            Some(idx + 1)
        } else {
            None
        },
    }
}

/// The value of ASCII decimal digits.
pub open spec fn digits_value(d: Seq<char>) -> nat
    decreases d.len(),
{
    if d.len() == 0 {
        0
    } else {
        digits_value(d.drop_last()) * 10 + (d.last() as nat - 48) as nat
    }
}

/// Whether every character is an ASCII digit.
pub open spec fn all_digits(d: Seq<char>) -> bool {
    forall|i: int| 0 <= i < d.len() ==> '0' <= #[trigger] d[i] && d[i] <= '9'
}

/// What `str::parse::<u32>` reads: an optional `+` and at least one ASCII digit, of a value
/// that fits in 32 bits.
pub open spec fn u32_text(s: Seq<char>) -> Option<u32> {
    let d = if s.len() > 0 && s[0] == '+' {
        s.skip(1)
    } else {
        s
    };
    if d.len() > 0 && all_digits(d) && digits_value(d) <= u32::MAX {
        Some(digits_value(d) as u32)
    } else {
        None
    }
}

proof fn lemma_digits_value_grows(d: Seq<char>, k: int)
    requires
        0 <= k <= d.len(),
        all_digits(d),
    ensures
        digits_value(d.take(k)) <= digits_value(d),
    decreases d.len() - k,
{
    if k < d.len() {
        lemma_digits_value_grows(d, k + 1);
        assert(d.take(k + 1).drop_last() =~= d.take(k));
        assert('0' <= d[k]);
    } else {
        assert(d.take(k) =~= d);
    }
}

proof fn lemma_digits_step(d: Seq<char>, k: int)
    requires
        0 <= k < d.len(),
    ensures
        digits_value(d.take(k + 1)) == digits_value(d.take(k)) * 10 + (d[k] as nat - 48) as nat,
{
    assert(d.take(k + 1).drop_last() =~= d.take(k));
    assert(d.take(k + 1).last() == d[k]);
}

/// A number of days as the command line writes it: a count as `str::parse::<u32>` reads it,
/// optionally followed by `d` (`30` or `30d`).
pub open spec fn days_text(s: Seq<char>) -> Option<u32> {
    if s.len() > 0 && s.last() == 'd' {
        u32_text(s.drop_last())
    } else {
        u32_text(s)
    }
}

/// Read a number of days such as `30` or `30d`; `None` where the text is no such number.
pub fn parse_days(text: &str) -> (r: Option<u32>)
    ensures
        r == days_text(text@),
{
    let n = text.unicode_len();
    if n > 0 && text.get_char(n - 1) == 'd' {
        let head = crate::text::substring(text, 0, n - 1);
        assert(head@ =~= text@.drop_last());
        parse_u32(head.as_str())
    } else {
        parse_u32(text)
    }
}

/// Read a count as `str::parse::<u32>` does; `None` where it fails.
fn parse_u32(text: &str) -> (r: Option<u32>)
    ensures
        r == u32_text(text@),
{
    let n = text.unicode_len();
    let start: usize = if n > 0 && text.get_char(0) == '+' {
        1
    } else {
        0
    };
    let ghost d = if text@.len() > 0 && text@[0] == '+' {
        text@.skip(1)
    } else {
        text@
    };
    assert(d =~= text@.subrange(start as int, n as int));
    if start >= n {
        return None;
    }
    let mut value: u64 = 0;
    let mut i: usize = start;
    assert(d.take(0) =~= Seq::<char>::empty());
    while i < n
        invariant
            n == text@.len(),
            start <= i <= n,
            d == text@.subrange(start as int, n as int),
            d == (if text@.len() > 0 && text@[0] == '+' {
                text@.skip(1)
            } else {
                text@
            }),
            d.len() > 0,
            all_digits(d.take(i - start)),
            value == digits_value(d.take(i - start)),
            value <= u32::MAX,
        decreases n - i,
    {
        let ghost k: int = i - start;
        let c = text.get_char(i);
        assert(d[k] == c);
        if c < '0' || c > '9' {
            assert(!all_digits(d)) by {
                assert(!('0' <= d[k] && d[k] <= '9'));
            }
            return None;
        }
        let digit: u64 = (c as u32 - 48) as u64;
        let next = value * 10 + digit;
        proof {
            lemma_digits_step(d, k);
            assert(all_digits(d.take(k + 1))) by {
                assert forall|j: int| 0 <= j < k + 1 implies '0' <= #[trigger] d.take(k + 1)[j] && d.take(k + 1)[j] <= '9' by {
                    if j < k {
                        assert(d.take(k + 1)[j] == d.take(k)[j]);
                    }
                }
            }
        }
        if next > 4294967295u64 {
            proof {
                if all_digits(d) {
                    lemma_digits_value_grows(d, k + 1);
                }
            }
            return None;
        }
        value = next;
        i = i + 1;
    }
    assert(d.take(n - start) =~= d);
    Some(value as u32)
}

/// The file a download is saved to by default: `<artist> - <title>.mp3`, with `Unknown` for a
/// missing artist.
pub fn download_file_name(track: &TrackInfo) -> (name: String)
    ensures
        name@ == (if track.artist@.len() == 0 {
            "Unknown"@
        } else {
            track.artist@
        }) + " - "@ + track.title@ + ".mp3"@,
{
    let artist: &str = if track.artist.as_str().is_empty() {
        "Unknown"
    } else {
        track.artist.as_str()
    };
    let mut name = cat3(artist, " - ", track.title.as_str());
    push_str(&mut name, ".mp3");
    name
}

/// The label of a favourite's kind: `Song`, `Album`, `Artist`, `Playlist`, else the kind.
pub fn favorite_type_label(item_type: &str) -> (label: String)
    ensures
        label@ == if item_type@ == "song"@ {
            "Song"@
        } else if item_type@ == "album"@ {
            "Album"@
        } else if item_type@ == "artist"@ {
            "Artist"@
        } else if item_type@ == "playlist"@ {
            "Playlist"@
        } else {
            item_type@
        },
{
    if str_equal(item_type, "song") {
        "Song".to_string()
    } else if str_equal(item_type, "album") {
        "Album".to_string()
    } else if str_equal(item_type, "artist") {
        "Artist".to_string()
    } else if str_equal(item_type, "playlist") {
        "Playlist".to_string()
    } else {
        item_type.to_string()
    }
}


proof fn lemma_decimal_reads_back(n: nat)
    ensures
        all_digits(crate::text::decimal(n)),
        digits_value(crate::text::decimal(n)) == n,
        crate::text::decimal(n).len() > 0,
        crate::text::decimal(n)[0] != '+',
    decreases n,
{
    let d = crate::text::decimal(n);
    if n < 10 {
        assert(d == seq![crate::text::digit_char(n)]);
        assert(d.drop_last() =~= Seq::<char>::empty());
        assert(crate::text::digit_char(n) as nat == 48 + n);
        assert(digits_value(d) == digits_value(d.drop_last()) * 10 + (d.last() as nat - 48) as nat);
    } else {
        lemma_decimal_reads_back(n / 10);
        let prev = crate::text::decimal(n / 10);
        assert(d == prev.push(crate::text::digit_char(n % 10)));
        assert(d.drop_last() =~= prev);
        assert(d[0] == prev[0]);
        assert(crate::text::digit_char(n % 10) as nat == 48 + n % 10);
        assert(d.last() == crate::text::digit_char(n % 10));
        assert(digits_value(d) == digits_value(prev) * 10 + (n % 10));
        assert(digits_value(prev) == n / 10);
        vstd::arithmetic::div_mod::lemma_fundamental_div_mod(n as int, 10);
        assert(n == 10 * (n / 10) + n % 10);
    }
}

/// A number of days printed in decimal, with or without the `d` suffix, reads back as the same
/// number.
pub proof fn lemma_days_round_trip(n: u32)
    ensures
        days_text(crate::text::decimal(n as nat)) == Some(n),
        days_text(crate::text::decimal(n as nat).push('d')) == Some(n),
{
    let d = crate::text::decimal(n as nat);
    lemma_decimal_reads_back(n as nat);
    assert(d.push('d').drop_last() =~= d);
    let k = d.len() - 1;
    assert('0' <= d[k] && d[k] <= '9');
    assert(d.last() != 'd');
}

} // verus!
