use songmatch::compare::{ALBUM_NAME_WEIGHT, EXACT_NAME_WEIGHT};
use songmatch::model::{Album, AlbumType, Artist, CatalogId, Note, Song};

fn artists(names: &[&str]) -> Vec<Artist> {
    names.iter().map(|n| Artist { name: n.to_string() }).collect()
}

fn album(name: &str, roster: &[&str]) -> Album {
    Album {
        name: name.to_string(),
        album_type: AlbumType::Album,
        release_year: Some(1971),
        artists: artists(roster),
    }
}

fn song(name: &str, id: &str, duration: Option<u32>, album_name: &str) -> Song {
    Song {
        name: name.to_string(),
        source: CatalogId::Spotify(id.to_string()),
        album: album(album_name, &["Joni Mitchell"]),
        artists: artists(&["Joni Mitchell"]),
        duration,
    }
}

#[test]
fn scenario_close_durations_no_note() {
    let a = song("Blue", "a", Some(200), "X");
    let b = song("Blue", "b", Some(205), "Y");
    let (score, notes) = a.compare(&b);
    assert_eq!(score, EXACT_NAME_WEIGHT);
    assert_eq!(notes, vec![Note::AlbumDifferentName]);
}

#[test]
fn scenario_large_time_diff_note_only() {
    let a = song("Blue", "a", Some(200), "X");
    let b = song("Blue", "b", Some(230), "Y");
    let (score, notes) = a.compare(&b);
    assert_eq!(score, 100);
    assert_eq!(notes.len(), 2);
    match &notes[0] {
        Note::LargeTimeDiff { diff_seconds, smaller_duration, longer } => {
            assert_eq!(*diff_seconds, 30);
            assert_eq!(*smaller_duration, 200);
            assert_eq!(*diff_seconds as f64 / *smaller_duration as f64, 0.15);
            assert_eq!(*longer, CatalogId::Spotify("b".to_string()));
        }
        other => panic!("expected a LargeTimeDiff, got {:?}", other),
    }
    assert_eq!(notes[1], Note::AlbumDifferentName);
}

#[test]
fn longer_attribution_follows_argument_order() {
    let a = song("Blue", "a", Some(230), "X");
    let b = song("Blue", "b", Some(200), "X");
    let (_, notes) = a.compare(&b);
    match &notes[0] {
        Note::LargeTimeDiff { longer, .. } => {
            assert_eq!(*longer, CatalogId::Spotify("a".to_string()));
        }
        other => panic!("expected a LargeTimeDiff, got {:?}", other),
    }
}

#[test]
fn compare_song_is_deterministic() {
    let a = song("Blue", "a", Some(200), "X");
    let b = song("California", "b", Some(230), "Y");
    let first = a.compare(&b);
    let second = a.compare(&b);
    assert_eq!(first, second);
}

#[test]
fn score_is_symmetric() {
    let a = song("Blue", "a", Some(200), "X");
    let b = song("Blue", "b", Some(230), "Y");
    assert_eq!(a.compare(&b).0, b.compare(&a).0);
}

#[test]
fn full_match_scores_name_and_album() {
    let a = song("Blue", "a", Some(200), "Blue");
    let b = song("Blue", "b", Some(200), "Blue");
    let (score, notes) = a.compare(&b);
    assert_eq!(score, EXACT_NAME_WEIGHT + ALBUM_NAME_WEIGHT);
    assert_eq!(notes, vec![]);
}

#[test]
fn name_mismatch_scores_zero_without_note() {
    let a = song("Blue", "a", None, "Blue");
    let b = song("California", "b", None, "Blue");
    let (score, notes) = a.compare(&b);
    assert_eq!(score, ALBUM_NAME_WEIGHT);
    assert_eq!(notes, vec![]);
}

#[test]
fn lacks_duration_names_the_silent_side() {
    let a = song("Blue", "a", Some(200), "X");
    let mut b = song("Blue", "b", None, "X");
    b.source = CatalogId::Youtube("b".to_string());
    let (_, notes) = a.compare(&b);
    assert_eq!(notes, vec![Note::LacksDuration(CatalogId::Youtube("b".to_string()))]);
    let (_, notes) = b.compare(&a);
    assert_eq!(notes, vec![Note::LacksDuration(CatalogId::Youtube("b".to_string()))]);
}

#[test]
fn both_durations_missing_no_note() {
    let a = song("Blue", "a", None, "X");
    let b = song("Blue", "b", None, "X");
    let (_, notes) = a.compare(&b);
    assert_eq!(notes, vec![]);
}

#[test]
fn album_compare_name_match() {
    let a = album("Blue", &["Joni Mitchell"]);
    let b = album("Blue", &["Joni Mitchell"]);
    let (score, notes) = a.compare(&b);
    assert_eq!(score, ALBUM_NAME_WEIGHT);
    assert_eq!(notes, vec![]);
}

#[test]
fn album_compare_is_deterministic() {
    let a = album("Blue", &["Joni Mitchell"]);
    let b = album("Hejira", &["Joni Mitchell", "Jaco Pastorius"]);
    assert_eq!(a.compare(&b), a.compare(&b));
}

#[test]
fn album_type_diff_notes() {
    let a = album("Blue", &["Joni Mitchell"]);
    let mut b = album("Blue", &["Joni Mitchell"]);
    b.album_type = AlbumType::Single;
    let (score, notes) = a.compare(&b);
    assert_eq!(score, ALBUM_NAME_WEIGHT);
    assert_eq!(notes, vec![Note::AlbumTypeDiff]);
}

#[test]
fn album_other_labels_compare_by_label() {
    let mut a = album("Blue", &[]);
    let mut b = album("Blue", &[]);
    a.album_type = AlbumType::Other("Ep".to_string());
    b.album_type = AlbumType::Other("Show".to_string());
    let (_, notes) = a.compare(&b);
    assert_eq!(notes, vec![Note::AlbumTypeDiff]);
    b.album_type = AlbumType::Other("Ep".to_string());
    let (_, notes) = a.compare(&b);
    assert_eq!(notes, vec![]);
}

#[test]
fn album_year_diff_only_when_both_reported() {
    let a = album("Blue", &["Joni Mitchell"]);
    let mut b = album("Blue", &["Joni Mitchell"]);
    b.release_year = Some(1974);
    let (_, notes) = a.compare(&b);
    assert_eq!(notes, vec![Note::AlbumYearDiff]);
    b.release_year = None;
    let (_, notes) = a.compare(&b);
    assert_eq!(notes, vec![]);
}

#[test]
fn extra_artists_lists_the_surplus() {
    let mut a = song("Blue", "a", None, "X");
    let mut b = song("Blue", "b", None, "X");
    a.artists = artists(&["Joni Mitchell"]);
    b.artists = artists(&["Joni Mitchell", "James Taylor"]);
    let (_, notes) = a.compare(&b);
    assert_eq!(notes, vec![Note::ExtraArtists(artists(&["James Taylor"]))]);
    let (_, notes) = b.compare(&a);
    assert_eq!(notes, vec![Note::ExtraArtists(artists(&["James Taylor"]))]);
}

#[test]
fn mismatch_artists_lists_both_rosters() {
    let mut a = song("Blue", "a", None, "X");
    let mut b = song("Blue", "b", None, "X");
    a.artists = artists(&["Joni Mitchell"]);
    b.artists = artists(&["James Taylor"]);
    let (_, notes) = a.compare(&b);
    assert_eq!(
        notes,
        vec![Note::MismatchArtists(
            artists(&["Joni Mitchell"]),
            artists(&["James Taylor"]),
        )]
    );
}

#[test]
fn album_scoped_artist_notes() {
    let mut a = album("Blue", &["Joni Mitchell"]);
    let mut b = album("Blue", &["Joni Mitchell", "James Taylor"]);
    let (_, notes) = a.compare(&b);
    assert_eq!(notes, vec![Note::AlbumExtraArtists(artists(&["James Taylor"]))]);
    a.artists = artists(&["Carole King"]);
    b.artists = artists(&["James Taylor"]);
    let (_, notes) = a.compare(&b);
    assert_eq!(
        notes,
        vec![Note::AlbumMismatchArtists(
            artists(&["Carole King"]),
            artists(&["James Taylor"]),
        )]
    );
}
