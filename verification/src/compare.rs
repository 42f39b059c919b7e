//! The comparator: pure scoring of pairs of canonical entities, with
//! diagnostic notes explaining each decision.
//!
//! Scores are unsigned sums over a fixed table of rule weights; no rule
//! contributes a negative value. Rules are evaluated in a fixed order
//! (name, duration, album, artists) so that the note list is
//! deterministic; the order matters only for diagnostics, not scoring.

use vstd::prelude::*;

use crate::model::{Album, AlbumV, Artist, ArtistV, Note, NoteV, Song, SongV, dup_artists};

verus! {

/// Weight contributed by an exact, case-sensitive song-name match.
pub const EXACT_NAME_WEIGHT: u32 = 100;

/// Weight contributed by an exact, case-sensitive album-name match.
pub const ALBUM_NAME_WEIGHT: u32 = 100;

/// Two durations whose absolute difference is strictly below this many
/// seconds are considered close enough to pass without a note.
pub const TIME_DIFF_TOLERANCE: u32 = 10;

/// Score contributed by the album rules: the album-name weight on an
/// exact name match, nothing otherwise.
pub open spec fn album_score(a: AlbumV, b: AlbumV) -> int {
    if a.name == b.name {
        ALBUM_NAME_WEIGHT as int
    } else {
        0
    }
}

/// Score contributed by all song rules: the song-name weight on an
/// exact name match, plus the album score. Duration and artist rules
/// are advisory: they produce notes, never points.
pub open spec fn song_score(a: SongV, b: SongV) -> int {
    (if a.name == b.name {
        EXACT_NAME_WEIGHT as int
    } else {
        0
    }) + album_score(a.album, b.album)
}

/// Every artist of `xs` also appears (by name) in `ys`.
pub open spec fn roster_within(xs: Seq<ArtistV>, ys: Seq<ArtistV>) -> bool {
    forall|i: int| 0 <= i < xs.len() ==> ys.contains(#[trigger] xs[i])
}

/// The artists of `ys` that `xs` lacks, in `ys` order.
pub open spec fn roster_extras(xs: Seq<ArtistV>, ys: Seq<ArtistV>) -> Seq<ArtistV> {
    ys.filter(|a: ArtistV| !xs.contains(a))
}

/// Notes produced by the song-level artist-roster rule: nothing when
/// the rosters agree exactly; the surplus artists when one roster
/// strictly extends the other; both rosters when neither contains the
/// other (or they hold the same names in a different arrangement).
pub open spec fn artist_notes(xs: Seq<ArtistV>, ys: Seq<ArtistV>) -> Seq<NoteV> {
    if xs == ys {
        Seq::<NoteV>::empty()
    } else if roster_within(xs, ys) && !roster_within(ys, xs) {
        seq![NoteV::ExtraArtists(roster_extras(xs, ys))]
    } else if roster_within(ys, xs) && !roster_within(xs, ys) {
        seq![NoteV::ExtraArtists(roster_extras(ys, xs))]
    } else {
        seq![NoteV::MismatchArtists(xs, ys)]
    }
}

/// The album-scoped counterpart of [`artist_notes`].
pub open spec fn album_artist_notes(xs: Seq<ArtistV>, ys: Seq<ArtistV>) -> Seq<NoteV> {
    if xs == ys {
        Seq::<NoteV>::empty()
    } else if roster_within(xs, ys) && !roster_within(ys, xs) {
        seq![NoteV::AlbumExtraArtists(roster_extras(xs, ys))]
    } else if roster_within(ys, xs) && !roster_within(xs, ys) {
        seq![NoteV::AlbumExtraArtists(roster_extras(ys, xs))]
    } else {
        seq![NoteV::AlbumMismatchArtists(xs, ys)]
    }
}

/// Notes produced by the album-name rule.
pub open spec fn album_name_notes(a: AlbumV, b: AlbumV) -> Seq<NoteV> {
    if a.name == b.name {
        Seq::<NoteV>::empty()
    } else {
        seq![NoteV::AlbumDifferentName]
    }
}

/// Notes produced by the album-type rule.
pub open spec fn album_type_notes(a: AlbumV, b: AlbumV) -> Seq<NoteV> {
    if a.album_type == b.album_type {
        Seq::<NoteV>::empty()
    } else {
        seq![NoteV::AlbumTypeDiff]
    }
}

/// Notes produced by the release-year rule: a note only when both
/// albums carry a year and the years differ. A missing year is a
/// missing report, not a mismatch.
pub open spec fn album_year_notes(a: AlbumV, b: AlbumV) -> Seq<NoteV> {
    match (a.release_year, b.release_year) {
        (Some(x), Some(y)) => if x == y {
            Seq::<NoteV>::empty()
        } else {
            seq![NoteV::AlbumYearDiff]
        },
        _ => Seq::<NoteV>::empty(),
    }
}

/// All notes of an album comparison, in rule order: name, type, year,
/// artists.
pub open spec fn album_notes(a: AlbumV, b: AlbumV) -> Seq<NoteV> {
    album_name_notes(a, b) + album_type_notes(a, b) + album_year_notes(a, b)
        + album_artist_notes(a.artists, b.artists)
}

/// Notes produced by the duration rule. With both durations reported
/// and at least the tolerance apart, a `LargeTimeDiff` carrying the
/// absolute difference, the smaller duration (the pair is the exact
/// percentage difference) and the origin of the longer track. With
/// exactly one duration reported, a `LacksDuration` naming the silent
/// side. With none, nothing.
pub open spec fn duration_notes(a: SongV, b: SongV) -> Seq<NoteV> {
    match (a.duration, b.duration) {
        (Some(d1), Some(d2)) => {
            let diff = if d1 >= d2 {
                (d1 - d2) as u32
            } else {
                (d2 - d1) as u32
            };
            if diff < TIME_DIFF_TOLERANCE {
                Seq::<NoteV>::empty()
            } else {
                seq![
                    NoteV::LargeTimeDiff {
                        diff_seconds: diff,
                        smaller_duration: if d1 <= d2 {
                            d1
                        } else {
                            d2
                        },
                        longer: if d1 > d2 {
                            a.source
                        } else {
                            b.source
                        },
                    },
                ]
            }
        },
        (Some(d1), None) => seq![NoteV::LacksDuration(b.source)],
        (None, Some(d2)) => seq![NoteV::LacksDuration(a.source)],
        (None, None) => Seq::<NoteV>::empty(),
    }
}

/// All notes of a song comparison, in rule order: name (never a note),
/// duration, album, artists.
pub open spec fn song_notes(a: SongV, b: SongV) -> Seq<NoteV> {
    duration_notes(a, b) + album_notes(a.album, b.album) + artist_notes(a.artists, b.artists)
}

/// Whether `roster` holds an artist of the same name as `a`.
fn roster_contains(roster: &Vec<Artist>, a: &Artist) -> (r: bool)
    ensures
        r == roster.deep_view().contains(a.deep_view()),
{
    for i in 0..roster.len()
        invariant
            forall|k: int| 0 <= k < i as int ==> roster.deep_view()[k] != a.deep_view(),
    {
        if roster[i].name == a.name {
            assert(roster.deep_view()[i as int] == a.deep_view());
            return true;
        }
        assert(roster.deep_view()[i as int] != a.deep_view());
    }
    proof {
        if roster.deep_view().contains(a.deep_view()) {
            let k = choose|k: int|
                0 <= k < roster.deep_view().len() && roster.deep_view()[k] == a.deep_view();
            assert(roster.deep_view()[k] != a.deep_view());
        }
    }
    false
}

/// Whether the two rosters hold the same names in the same order.
fn rosters_equal(xs: &Vec<Artist>, ys: &Vec<Artist>) -> (r: bool)
    ensures
        r == (xs.deep_view() == ys.deep_view()),
{
    if xs.len() != ys.len() {
        assert(xs.deep_view().len() != ys.deep_view().len());
        return false;
    }
    for i in 0..xs.len()
        invariant
            xs@.len() == ys@.len(),
            forall|k: int| 0 <= k < i as int ==> xs.deep_view()[k] == ys.deep_view()[k],
    {
        if xs[i].name != ys[i].name {
            assert(xs.deep_view()[i as int] != ys.deep_view()[i as int]);
            return false;
        }
        assert(xs.deep_view()[i as int] == ys.deep_view()[i as int]);
    }
    assert(xs.deep_view() =~= ys.deep_view());
    true
}

/// Executable form of [`roster_within`].
fn roster_within_exec(xs: &Vec<Artist>, ys: &Vec<Artist>) -> (r: bool)
    ensures
        r == roster_within(xs.deep_view(), ys.deep_view()),
{
    for i in 0..xs.len()
        invariant
            forall|k: int|
                0 <= k < i as int ==> ys.deep_view().contains(#[trigger] xs.deep_view()[k]),
    {
        if !roster_contains(ys, &xs[i]) {
            assert(!ys.deep_view().contains(xs.deep_view()[i as int]));
            return false;
        }
    }
    true
}

/// Executable form of [`roster_extras`]: the artists of `ys` missing
/// from `xs`, as fresh values in `ys` order.
fn roster_extras_exec(xs: &Vec<Artist>, ys: &Vec<Artist>) -> (r: Vec<Artist>)
    ensures
        r.deep_view() == roster_extras(xs.deep_view(), ys.deep_view()),
{
    let mut r: Vec<Artist> = Vec::new();
    for i in 0..ys.len()
        invariant
            r.deep_view() =~= roster_extras(xs.deep_view(), ys.deep_view().take(i as int)),
    {
        let ghost pre = ys.deep_view().take(i as int);
        let ghost cur = ys.deep_view().take(i as int + 1);
        proof {
            reveal(Seq::filter);
            assert(cur.drop_last() =~= pre);
            assert(cur.last() == ys.deep_view()[i as int]);
        }
        if !roster_contains(xs, &ys[i]) {
            r.push(ys[i].dup());
        }
        assert(r.deep_view() =~= roster_extras(xs.deep_view(), cur));
    }
    proof {
        assert(ys.deep_view().take(ys@.len() as int) =~= ys.deep_view());
    }
    r
}

/// The song-level artist-roster rule: appends the notes of
/// [`artist_notes`] (or, album-scoped, [`album_artist_notes`]) for the
/// two rosters.
fn push_roster_notes(notes: &mut Vec<Note>, xs: &Vec<Artist>, ys: &Vec<Artist>, album_scoped: bool)
    ensures
        final(notes).deep_view() == old(notes).deep_view() + (if album_scoped {
            album_artist_notes(xs.deep_view(), ys.deep_view())
        } else {
            artist_notes(xs.deep_view(), ys.deep_view())
        }),
{
    if rosters_equal(xs, ys) {
        assert(notes.deep_view() =~= notes.deep_view() + Seq::<NoteV>::empty());
        return ;
    }
    let within_ab = roster_within_exec(xs, ys);
    let within_ba = roster_within_exec(ys, xs);
    if within_ab && !within_ba {
        let extras = roster_extras_exec(xs, ys);
        if album_scoped {
            notes.push(Note::AlbumExtraArtists(extras));
        } else {
            notes.push(Note::ExtraArtists(extras));
        }
    } else if within_ba && !within_ab {
        let extras = roster_extras_exec(ys, xs);
        if album_scoped {
            notes.push(Note::AlbumExtraArtists(extras));
        } else {
            notes.push(Note::ExtraArtists(extras));
        }
    } else {
        if album_scoped {
            notes.push(Note::AlbumMismatchArtists(dup_artists(xs), dup_artists(ys)));
        } else {
            notes.push(Note::MismatchArtists(dup_artists(xs), dup_artists(ys)));
        }
    }
    assert(notes.deep_view() =~= old(notes).deep_view() + (if album_scoped {
        album_artist_notes(xs.deep_view(), ys.deep_view())
    } else {
        artist_notes(xs.deep_view(), ys.deep_view())
    }));
}

impl Album {
    /// Compare two canonical albums: the summed rule score and the
    /// full, ordered diagnostic note list.
    pub fn compare(&self, other: &Album) -> (r: (u32, Vec<Note>))
        ensures
            r.0 == album_score(self.deep_view(), other.deep_view()),
            r.1.deep_view() == album_notes(self.deep_view(), other.deep_view()),
    {
        let ghost a = self.deep_view();
        let ghost b = other.deep_view();
        let mut score: u32 = 0;
        let mut notes: Vec<Note> = Vec::new();

        if self.name == other.name {
            score = ALBUM_NAME_WEIGHT;
        } else {
            notes.push(Note::AlbumDifferentName);
        }
        assert(notes.deep_view() =~= album_name_notes(a, b));

        if !self.album_type.same_as(&other.album_type) {
            notes.push(Note::AlbumTypeDiff);
        }
        assert(notes.deep_view() =~= album_name_notes(a, b) + album_type_notes(a, b));

        match (self.release_year, other.release_year) {
            (Some(x), Some(y)) => {
                if x != y {
                    notes.push(Note::AlbumYearDiff);
                }
            },
            _ => {},
        }
        assert(notes.deep_view() =~= album_name_notes(a, b) + album_type_notes(a, b)
            + album_year_notes(a, b));

        push_roster_notes(&mut notes, &self.artists, &other.artists, true);
        assert(notes.deep_view() =~= album_notes(a, b));

        (score, notes)
    }
}

impl Song {
    /// Compare two canonical songs: the summed rule score and the
    /// full, ordered diagnostic note list (duration, album and artist
    /// rules in that order; the name rule scores but never notes).
    ///
    /// The score is symmetric in its arguments; only the `longer`
    /// attribution inside a `LargeTimeDiff` note depends on argument
    /// order.
    pub fn compare(&self, other: &Song) -> (r: (u32, Vec<Note>))
        ensures
            r.0 == song_score(self.deep_view(), other.deep_view()),
            r.1.deep_view() == song_notes(self.deep_view(), other.deep_view()),
    {
        let ghost a = self.deep_view();
        let ghost b = other.deep_view();
        let mut score: u32 = 0;
        let mut notes: Vec<Note> = Vec::new();

        if self.name == other.name {
            score = EXACT_NAME_WEIGHT;
        }

        match (self.duration, other.duration) {
            (Some(d1), Some(d2)) => {
                let diff = if d1 >= d2 {
                    d1 - d2
                } else {
                    d2 - d1
                };
                if diff >= TIME_DIFF_TOLERANCE {
                    let smaller = if d1 <= d2 {
                        d1
                    } else {
                        d2
                    };
                    let longer = if d1 > d2 {
                        self.source.dup()
                    } else {
                        other.source.dup()
                    };
                    notes.push(
                        Note::LargeTimeDiff {
                            diff_seconds: diff,
                            smaller_duration: smaller,
                            longer,
                        },
                    );
                }
            },
            (Some(_), None) => notes.push(Note::LacksDuration(other.source.dup())),
            (None, Some(_)) => notes.push(Note::LacksDuration(self.source.dup())),
            (None, None) => {},
        }
        assert(notes.deep_view() =~= duration_notes(a, b));

        let (album_pts, mut album_note_list) = self.album.compare(&other.album);
        assert(album_score(a.album, b.album) <= ALBUM_NAME_WEIGHT as int);
        score = score + album_pts;
        notes.append(&mut album_note_list);
        assert(notes.deep_view() =~= duration_notes(a, b) + album_notes(a.album, b.album));

        push_roster_notes(&mut notes, &self.artists, &other.artists, false);
        assert(notes.deep_view() =~= song_notes(a, b));

        (score, notes)
    }
}

/// Determinism of the song comparator: its contract admits exactly one
/// result for a given pair, so repeated comparisons of the same
/// entities return identical scores and notes.
pub proof fn lemma_compare_song_deterministic(
    a: SongV,
    b: SongV,
    s1: u32,
    n1: Seq<NoteV>,
    s2: u32,
    n2: Seq<NoteV>,
)
    requires
        s1 == song_score(a, b),
        n1 == song_notes(a, b),
        s2 == song_score(a, b),
        n2 == song_notes(a, b),
    ensures
        s1 == s2,
        n1 == n2,
{
}

/// Determinism of the album comparator, as for the song comparator.
pub proof fn lemma_compare_album_deterministic(
    a: AlbumV,
    b: AlbumV,
    s1: u32,
    n1: Seq<NoteV>,
    s2: u32,
    n2: Seq<NoteV>,
)
    requires
        s1 == album_score(a, b),
        n1 == album_notes(a, b),
        s2 == album_score(a, b),
        n2 == album_notes(a, b),
    ensures
        s1 == s2,
        n1 == n2,
{
}

/// The numeric song score is symmetric in its arguments, even though
/// the notes need not be (the `longer` attribution in `LargeTimeDiff`
/// follows argument order).
pub proof fn lemma_song_score_symmetric(a: SongV, b: SongV)
    ensures
        song_score(a, b) == song_score(b, a),
{
}

/// The numeric album score is symmetric in its arguments.
pub proof fn lemma_album_score_symmetric(a: AlbumV, b: AlbumV)
    ensures
        album_score(a, b) == album_score(b, a),
{
}

} // verus!
