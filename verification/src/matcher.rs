//! The matcher: adapt each raw candidate in catalog-returned order,
//! score it against the source song, and keep the best.
//!
//! A candidate whose adaptation fails is skipped outright — it is
//! excluded from consideration, never scored as zero. A later
//! candidate replaces the running best only when its score is strictly
//! greater, so among equal scores the earliest-seen candidate wins.

use vstd::prelude::*;

use crate::adapt::{adapt_target_track_spec, YtCandidate, YtCandidateV};
use crate::compare::song_score;
use crate::model::{Note, Song, SongV};

verus! {

/// The canonical songs that the candidates adapt to, in candidate
/// order, with failed adaptations left out.
pub open spec fn adapted_songs(cs: Seq<YtCandidateV>) -> Seq<SongV>
    decreases cs.len(),
{
    if cs.len() == 0 {
        Seq::<SongV>::empty()
    } else {
        let rest = adapted_songs(cs.drop_last());
        match adapt_target_track_spec(cs.last()) {
            Ok(s) => rest.push(s),
            Err(_) => rest,
        }
    }
}

/// The fold that the matcher performs: start with no best, and let
/// each song in turn replace the running best exactly when its score
/// against `src` is strictly greater.
pub open spec fn running_best(src: SongV, songs: Seq<SongV>) -> Option<SongV>
    decreases songs.len(),
{
    if songs.len() == 0 {
        None::<SongV>
    } else {
        match running_best(src, songs.drop_last()) {
            None => Some(songs.last()),
            Some(p) => if song_score(src, songs.last()) > song_score(src, p) {
                Some(songs.last())
            } else {
                Some(p)
            },
        }
    }
}

/// The index that [`running_best`] settles on for a non-empty list:
/// the earliest position whose score no other position beats.
pub open spec fn winner_index(src: SongV, songs: Seq<SongV>) -> int
    decreases songs.len(),
{
    if songs.len() <= 1 {
        0
    } else {
        let p = winner_index(src, songs.drop_last());
        if song_score(src, songs.last()) > song_score(src, songs[p]) {
            songs.len() - 1
        } else {
            p
        }
    }
}

/// The matcher yields a winner exactly when at least one candidate
/// adapted: no-match is the empty-list outcome, not an error.
pub proof fn lemma_running_best_none_iff_empty(src: SongV, songs: Seq<SongV>)
    ensures
        (running_best(src, songs) is None) <==> songs.len() == 0,
{
}

/// Monotonic selection and tie-break stability: for a non-empty list,
/// the fold picks the song at [`winner_index`]; its score is greater
/// than or equal to every song's score (monotonic selection), and
/// strictly greater than every earlier song's score, so among equal
/// scores the earliest-seen song wins (tie-break stability).
pub proof fn lemma_running_best_picks_first_max(src: SongV, songs: Seq<SongV>)
    requires
        songs.len() > 0,
    ensures
        0 <= winner_index(src, songs) < songs.len(),
        running_best(src, songs) == Some(songs[winner_index(src, songs)]),
        forall|i: int|
            0 <= i < songs.len() ==> song_score(src, #[trigger] songs[i]) <= song_score(
                src,
                songs[winner_index(src, songs)],
            ),
        forall|i: int|
            0 <= i < winner_index(src, songs) ==> song_score(src, #[trigger] songs[i])
                < song_score(src, songs[winner_index(src, songs)]),
    decreases songs.len(),
{
    if songs.len() == 1 {
        assert(running_best(src, songs) == Some(songs.last()));
    } else {
        let prefix = songs.drop_last();
        lemma_running_best_picks_first_max(src, prefix);
        let p = winner_index(src, prefix);
        assert(prefix[p] == songs[p]);
        assert(forall|i: int| 0 <= i < prefix.len() ==> prefix[i] == songs[i]);
        if song_score(src, songs.last()) > song_score(src, songs[p]) {
            assert(winner_index(src, songs) == songs.len() - 1);
            assert(songs[songs.len() - 1] == songs.last());
        } else {
            assert(winner_index(src, songs) == p);
        }
    }
}

/// Monotonic selection, stated against the matcher's contract: a song
/// that [`Song::best_match`] returns scores at least as high as every
/// successfully adapted candidate.
pub proof fn lemma_best_match_monotonic(src: SongV, cs: Seq<YtCandidateV>, b: SongV)
    requires
        running_best(src, adapted_songs(cs)) == Some(b),
    ensures
        forall|i: int|
            0 <= i < adapted_songs(cs).len() ==> song_score(
                src,
                #[trigger] adapted_songs(cs)[i],
            ) <= song_score(src, b),
{
    let songs = adapted_songs(cs);
    lemma_running_best_none_iff_empty(src, songs);
    lemma_running_best_picks_first_max(src, songs);
}

impl Song {
    /// The best-matching candidate for this song: adapt each raw
    /// candidate in order (skipping the ones that fail), score it with
    /// [`Song::compare`], and keep the candidate whose score is
    /// strictly greater than the running best's. Returns `None` when
    /// the list is empty or no candidate adapted.
    pub fn best_match(&self, candidates: &Vec<YtCandidate>) -> (r: Option<Song>)
        ensures
            r.deep_view() == running_best(
                self.deep_view(),
                adapted_songs(candidates.deep_view()),
            ),
    {
        let ghost srcv = self.deep_view();
        let ghost cdv = candidates.deep_view();
        let mut best: Option<(u32, Vec<Note>, Song)> = None;
        for i in 0..candidates.len()
            invariant
                cdv == candidates.deep_view(),
                srcv == self.deep_view(),
                match best {
                    None => running_best(srcv, adapted_songs(cdv.take(i as int))) is None,
                    Some(t) => {
                        &&& running_best(srcv, adapted_songs(cdv.take(i as int))) == Some(
                            t.2.deep_view(),
                        )
                        &&& t.0 == song_score(srcv, t.2.deep_view())
                    },
                },
        {
            proof {
                assert(cdv.take(i + 1).drop_last() =~= cdv.take(i as int));
                assert(cdv.take(i + 1).last() == cdv[i as int]);
            }
            let ghost prev = adapted_songs(cdv.take(i as int));
            match Song::from_youtube(&candidates[i]) {
                Ok(song) => {
                    proof {
                        assert(adapted_songs(cdv.take(i + 1)) == prev.push(song.deep_view()));
                        assert(prev.push(song.deep_view()).drop_last() =~= prev);
                        assert(prev.push(song.deep_view()).last() == song.deep_view());
                    }
                    let (score, notes) = self.compare(&song);
                    let replace = match &best {
                        None => true,
                        Some(t) => score > t.0,
                    };
                    if replace {
                        best = Some((score, notes, song));
                    }
                },
                Err(_) => {
                    assert(adapted_songs(cdv.take(i + 1)) == prev);
                },
            }
        }
        proof {
            assert(cdv.take(candidates@.len() as int) =~= cdv);
        }
        match best {
            None => None,
            Some(t) => Some(t.2),
        }
    }
}

} // verus!
