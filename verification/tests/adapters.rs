use songmatch::adapt::{
    parse_year, AdaptError, SpotifyAlbum, SpotifyTrack, YtAlbum, YtAlbumKind, YtCandidate,
    YtTrack,
};
use songmatch::model::{AlbumType, CatalogId};

fn names(list: &[&str]) -> Vec<String> {
    list.iter().map(|n| n.to_string()).collect()
}

fn sp_album(album_type: Option<&str>, release_date: Option<&str>) -> SpotifyAlbum {
    SpotifyAlbum {
        name: "Blue".to_string(),
        album_type: album_type.map(|t| t.to_string()),
        release_date: release_date.map(|d| d.to_string()),
        artists: names(&["Joni Mitchell"]),
    }
}

fn sp_track(album: SpotifyAlbum) -> SpotifyTrack {
    SpotifyTrack {
        name: "All I Want".to_string(),
        id: Some("track-1".to_string()),
        duration_seconds: 214,
        album,
        artists: names(&["Joni Mitchell"]),
    }
}

fn yt_candidate(kind: YtAlbumKind) -> YtCandidate {
    YtCandidate {
        track: YtTrack {
            name: "All I Want".to_string(),
            id: "yt-1".to_string(),
            duration: Some(214),
            artists: names(&["Joni Mitchell"]),
        },
        album: Some(YtAlbum {
            name: "Blue".to_string(),
            album_type: kind,
            year: Some(1971),
            artists: names(&["Joni Mitchell"]),
        }),
    }
}

#[test]
fn parse_year_reads_leading_digits() {
    assert_eq!(parse_year(&"1971-06-22".to_string()), Some(1971));
    assert_eq!(parse_year(&"2020".to_string()), Some(2020));
    assert_eq!(parse_year(&"0009-01-01".to_string()), Some(9));
}

#[test]
fn parse_year_rejects_malformed_dates() {
    assert_eq!(parse_year(&"197".to_string()), None);
    assert_eq!(parse_year(&"19x1-06-22".to_string()), None);
    assert_eq!(parse_year(&"".to_string()), None);
    assert_eq!(parse_year(&"-971".to_string()), None);
}

#[test]
fn scenario_misspelled_type_adapts_to_other() {
    let album = songmatch::model::Album::from_spotify(&sp_album(Some("complilation"), None))
        .expect("a non-empty unrecognized label must adapt");
    assert_eq!(album.album_type, AlbumType::Other("complilation".to_string()));
}

#[test]
fn known_source_labels_map_to_first_class_kinds() {
    let a = songmatch::model::Album::from_spotify(&sp_album(Some("album"), None)).unwrap();
    assert_eq!(a.album_type, AlbumType::Album);
    let s = songmatch::model::Album::from_spotify(&sp_album(Some("single"), None)).unwrap();
    assert_eq!(s.album_type, AlbumType::Single);
}

#[test]
fn missing_or_empty_source_label_is_a_defect() {
    assert_eq!(
        songmatch::model::Album::from_spotify(&sp_album(None, None)),
        Err(AdaptError::MissingAlbumType)
    );
    assert_eq!(
        songmatch::model::Album::from_spotify(&sp_album(Some(""), None)),
        Err(AdaptError::MissingAlbumType)
    );
}

#[test]
fn release_year_narrows_or_fails_loudly() {
    let a = songmatch::model::Album::from_spotify(&sp_album(Some("album"), Some("1971-06-22")))
        .unwrap();
    assert_eq!(a.release_year, Some(1971));
    let none = songmatch::model::Album::from_spotify(&sp_album(Some("album"), None)).unwrap();
    assert_eq!(none.release_year, None);
    assert_eq!(
        songmatch::model::Album::from_spotify(&sp_album(Some("album"), Some("soon"))),
        Err(AdaptError::MalformedDate)
    );
}

#[test]
fn spotify_track_adapts_with_provenance() {
    let song = songmatch::model::Song::from_spotify(&sp_track(sp_album(
        Some("album"),
        Some("1971-06-22"),
    )))
    .unwrap();
    assert_eq!(song.name, "All I Want");
    assert_eq!(song.source, CatalogId::Spotify("track-1".to_string()));
    assert_eq!(song.duration, Some(214));
    assert_eq!(song.album.name, "Blue");
    assert_eq!(song.artists.len(), 1);
    assert_eq!(song.artists[0].name, "Joni Mitchell");
}

#[test]
fn missing_track_id_is_a_defect() {
    let mut track = sp_track(sp_album(Some("album"), None));
    track.id = None;
    assert_eq!(
        songmatch::model::Song::from_spotify(&track),
        Err(AdaptError::MissingTrackId)
    );
}

#[test]
fn youtube_kinds_classify() {
    let ep = yt_candidate(YtAlbumKind::Ep);
    let song = songmatch::model::Song::from_youtube(&ep).unwrap();
    assert_eq!(song.album.album_type, AlbumType::Other("Ep".to_string()));
    assert_eq!(song.source, CatalogId::Youtube("yt-1".to_string()));

    let show = songmatch::model::Song::from_youtube(&yt_candidate(YtAlbumKind::Show)).unwrap();
    assert_eq!(show.album.album_type, AlbumType::Other("Show".to_string()));

    let plain = songmatch::model::Song::from_youtube(&yt_candidate(YtAlbumKind::Album)).unwrap();
    assert_eq!(plain.album.album_type, AlbumType::Album);
}

#[test]
fn unmapped_youtube_kind_is_a_defect() {
    assert_eq!(
        songmatch::model::Song::from_youtube(&yt_candidate(YtAlbumKind::Unrecognized)),
        Err(AdaptError::UnmappedAlbumType)
    );
}

#[test]
fn unavailable_album_is_a_defect() {
    let mut candidate = yt_candidate(YtAlbumKind::Album);
    candidate.album = None;
    assert_eq!(
        songmatch::model::Song::from_youtube(&candidate),
        Err(AdaptError::AlbumUnavailable)
    );
}

#[test]
fn absent_duration_stays_absent() {
    let mut candidate = yt_candidate(YtAlbumKind::Album);
    candidate.track.duration = None;
    let song = songmatch::model::Song::from_youtube(&candidate).unwrap();
    assert_eq!(song.duration, None);
}

#[test]
fn artist_constructors_keep_the_reported_name() {
    let sp = songmatch::model::Artist::from_spotify("Joni Mitchell".to_string());
    let yt = songmatch::model::Artist::from_youtube("Joni Mitchell".to_string());
    assert_eq!(sp.name, "Joni Mitchell");
    assert_eq!(sp, yt);
}
