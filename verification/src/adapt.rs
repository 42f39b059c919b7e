//! Adapters: conversion of catalog-native records, reduced to plain
//! values, into the canonical model.
//!
//! Each adapter is one-directional (catalog record to canonical
//! entity) and total: every defect in a record is reported as an
//! [`AdaptError`], never papered over with a default. Supplementary
//! lookups (fetching the full album a search result only references)
//! are performed by the surrounding application; a candidate arrives
//! here with the looked-up album attached, or with none when the
//! lookup failed.

use vstd::prelude::*;

use crate::model::{
    Album, AlbumType, AlbumTypeV, AlbumV, Artist, ArtistV, CatalogId, CatalogIdV, Song, SongV,
};

verus! {

/// Why a catalog record could not be adapted. The matcher skips such a
/// candidate; it is never scored with partial data.
#[derive(Debug, PartialEq, Eq, Structural, Clone, Copy)]
pub enum AdaptError {
    /// The source catalog record carries no track identifier, which
    /// that catalog guarantees to provide.
    MissingTrackId,
    /// The record carries no usable album-type label where the catalog
    /// guarantees one.
    MissingAlbumType,
    /// The release date does not begin with four decimal digits.
    MalformedDate,
    /// The target catalog reports an album kind that the
    /// classification does not cover.
    UnmappedAlbumType,
    /// The candidate references no album, or the supplementary album
    /// lookup failed.
    AlbumUnavailable,
}

/// A track record from the source catalog, reduced to plain values.
#[derive(Debug, PartialEq)]
pub struct SpotifyTrack {
    pub name: String,
    /// The catalog's stable track identifier; the catalog guarantees
    /// one for genuine tracks, so absence is a defect.
    pub id: Option<String>,
    /// Whole seconds; the source catalog always reports a duration.
    pub duration_seconds: u32,
    pub album: SpotifyAlbum,
    /// Artist names in catalog-reported order.
    pub artists: Vec<String>,
}

/// Mathematical view of a [`SpotifyTrack`].
pub struct SpotifyTrackV {
    pub name: Seq<char>,
    pub id: Option<Seq<char>>,
    pub duration_seconds: u32,
    pub album: SpotifyAlbumV,
    pub artists: Seq<Seq<char>>,
}

impl DeepView for SpotifyTrack {
    type V = SpotifyTrackV;

    open spec fn deep_view(&self) -> SpotifyTrackV {
        SpotifyTrackV {
            name: self.name.deep_view(),
            id: self.id.deep_view(),
            duration_seconds: self.duration_seconds,
            album: self.album.deep_view(),
            artists: self.artists.deep_view(),
        }
    }
}

/// An album record from the source catalog, reduced to plain values.
#[derive(Debug, PartialEq)]
pub struct SpotifyAlbum {
    pub name: String,
    /// The catalog's album-type label (`"album"`, `"single"`, ...);
    /// the catalog guarantees one, so absence is a defect.
    pub album_type: Option<String>,
    /// A date string whose first four characters are the year; absence
    /// means the catalog reported no date at all.
    pub release_date: Option<String>,
    /// Artist names in catalog-reported order.
    pub artists: Vec<String>,
}

/// Mathematical view of a [`SpotifyAlbum`].
pub struct SpotifyAlbumV {
    pub name: Seq<char>,
    pub album_type: Option<Seq<char>>,
    pub release_date: Option<Seq<char>>,
    pub artists: Seq<Seq<char>>,
}

impl DeepView for SpotifyAlbum {
    type V = SpotifyAlbumV;

    open spec fn deep_view(&self) -> SpotifyAlbumV {
        SpotifyAlbumV {
            name: self.name.deep_view(),
            album_type: self.album_type.deep_view(),
            release_date: self.release_date.deep_view(),
            artists: self.artists.deep_view(),
        }
    }
}

/// The album kinds the target catalog reports. `Unrecognized` stands
/// for any kind outside the known set; classifying it is a defect, not
/// a silent default.
#[derive(Debug, PartialEq, Eq, Structural, Clone, Copy)]
pub enum YtAlbumKind {
    Album,
    Ep,
    Single,
    Audiobook,
    Show,
    Unrecognized,
}

impl DeepView for YtAlbumKind {
    type V = YtAlbumKind;

    open spec fn deep_view(&self) -> YtAlbumKind {
        *self
    }
}

/// A track record from the target catalog's search results, reduced to
/// plain values.
#[derive(Debug, PartialEq)]
pub struct YtTrack {
    pub name: String,
    /// The catalog's opaque track identifier.
    pub id: String,
    /// Whole seconds, when the catalog reports one.
    pub duration: Option<u32>,
    /// Artist names in catalog-reported order.
    pub artists: Vec<String>,
}

/// Mathematical view of a [`YtTrack`].
pub struct YtTrackV {
    pub name: Seq<char>,
    pub id: Seq<char>,
    pub duration: Option<u32>,
    pub artists: Seq<Seq<char>>,
}

impl DeepView for YtTrack {
    type V = YtTrackV;

    open spec fn deep_view(&self) -> YtTrackV {
        YtTrackV {
            name: self.name.deep_view(),
            id: self.id.deep_view(),
            duration: self.duration,
            artists: self.artists.deep_view(),
        }
    }
}

/// A full album record from the target catalog, reduced to plain
/// values.
#[derive(Debug, PartialEq)]
pub struct YtAlbum {
    pub name: String,
    pub album_type: YtAlbumKind,
    pub year: Option<u16>,
    /// Artist names in catalog-reported order.
    pub artists: Vec<String>,
}

/// Mathematical view of a [`YtAlbum`].
pub struct YtAlbumV {
    pub name: Seq<char>,
    pub album_type: YtAlbumKind,
    pub year: Option<u16>,
    pub artists: Seq<Seq<char>>,
}

impl DeepView for YtAlbum {
    type V = YtAlbumV;

    open spec fn deep_view(&self) -> YtAlbumV {
        YtAlbumV {
            name: self.name.deep_view(),
            album_type: self.album_type,
            year: self.year,
            artists: self.artists.deep_view(),
        }
    }
}

/// A search-result candidate from the target catalog: the track record
/// together with its looked-up album, or `None` when the track carried
/// no album reference or the supplementary lookup failed.
#[derive(Debug, PartialEq)]
pub struct YtCandidate {
    pub track: YtTrack,
    pub album: Option<YtAlbum>,
}

/// Mathematical view of a [`YtCandidate`].
pub struct YtCandidateV {
    pub track: YtTrackV,
    pub album: Option<YtAlbumV>,
}

impl DeepView for YtCandidate {
    type V = YtCandidateV;

    open spec fn deep_view(&self) -> YtCandidateV {
        YtCandidateV { track: self.track.deep_view(), album: self.album.deep_view() }
    }
}

/// A `Result` of adapting, at the level of views.
pub open spec fn res_view<T: DeepView>(r: Result<T, AdaptError>) -> Result<T::V, AdaptError> {
    match r {
        Ok(t) => Ok(t.deep_view()),
        Err(e) => Err(e),
    }
}

/// Artist names, each as a canonical artist.
pub open spec fn artist_views(names: Seq<Seq<char>>) -> Seq<ArtistV> {
    names.map_values(|n: Seq<char>| (ArtistV { name: n }))
}

/// Whether `c` is a decimal digit.
pub open spec fn is_decimal_digit(c: char) -> bool {
    48 <= c as int <= 57
}

/// The numeric value of a decimal digit.
pub open spec fn digit_value(c: char) -> int {
    c as int - 48
}

/// The year encoded by the first four characters of a date string:
/// present exactly when the string begins with four decimal digits.
pub open spec fn parse_year_spec(s: Seq<char>) -> Option<u16> {
    if s.len() >= 4 && is_decimal_digit(s[0]) && is_decimal_digit(s[1]) && is_decimal_digit(s[2])
        && is_decimal_digit(s[3]) {
        Some(
            (digit_value(s[0]) * 1000 + digit_value(s[1]) * 100 + digit_value(s[2]) * 10
                + digit_value(s[3])) as u16,
        )
    } else {
        None
    }
}

/// Narrow a catalog date string to its year: the value of its first
/// four characters as decimal digits, or `None` when the string is
/// malformed (shorter than four characters, or non-digits among them).
pub fn parse_year(date: &String) -> (r: Option<u16>)
    ensures
        r == parse_year_spec(date.deep_view()),
{
    let s = date.as_str();
    let n = s.unicode_len();
    if n < 4 {
        return None;
    }
    let v0 = s.get_char(0) as u32;
    if v0 < 48 || v0 > 57 {
        return None;
    }
    let v1 = s.get_char(1) as u32;
    if v1 < 48 || v1 > 57 {
        return None;
    }
    let v2 = s.get_char(2) as u32;
    if v2 < 48 || v2 > 57 {
        return None;
    }
    let v3 = s.get_char(3) as u32;
    if v3 < 48 || v3 > 57 {
        return None;
    }
    let year: u32 = (v0 - 48) * 1000 + (v1 - 48) * 100 + (v2 - 48) * 10 + (v3 - 48);
    Some(year as u16)
}

/// The classification of a source-catalog album-type label: the two
/// first-class kinds by their catalog spelling, any other non-empty
/// label carried through as `Other`, and a missing or empty label
/// reported as a defect (the catalog guarantees a label).
pub open spec fn classify_source_label_spec(t: Option<Seq<char>>) -> Result<
    AlbumTypeV,
    AdaptError,
> {
    match t {
        None => Err(AdaptError::MissingAlbumType),
        Some(s) => if s == "album"@ {
            Ok(AlbumTypeV::Album)
        } else if s == "single"@ {
            Ok(AlbumTypeV::Single)
        } else if s.len() > 0 {
            Ok(AlbumTypeV::Other(s))
        } else {
            Err(AdaptError::MissingAlbumType)
        },
    }
}

/// The classification of a target-catalog album kind: the first-class
/// kinds mapped directly, the remaining known kinds carried as `Other`
/// with their conventional label, and an unrecognized kind reported as
/// a defect.
pub open spec fn classify_target_kind_spec(k: YtAlbumKind) -> Result<AlbumTypeV, AdaptError> {
    match k {
        YtAlbumKind::Album => Ok(AlbumTypeV::Album),
        YtAlbumKind::Ep => Ok(AlbumTypeV::Other("Ep"@)),
        YtAlbumKind::Single => Ok(AlbumTypeV::Single),
        YtAlbumKind::Audiobook => Ok(AlbumTypeV::Other("Audiobook"@)),
        YtAlbumKind::Show => Ok(AlbumTypeV::Other("Show"@)),
        YtAlbumKind::Unrecognized => Err(AdaptError::UnmappedAlbumType),
    }
}

/// Whether `s` equals the literal `lit`, by characters.
fn str_lit_eq(s: &String, lit: &str) -> (r: bool)
    ensures
        r == (s.deep_view() == lit@),
{
    let owned = lit.to_owned();
    *s == owned
}

impl AlbumType {
    /// Classify a source-catalog album-type label, per
    /// [`classify_source_label_spec`].
    pub fn from_spotify(label: &Option<String>) -> (r: Result<AlbumType, AdaptError>)
        ensures
            res_view(r) == classify_source_label_spec(label.deep_view()),
    {
        match label {
            None => Err(AdaptError::MissingAlbumType),
            Some(s) => {
                if str_lit_eq(s, "album") {
                    Ok(AlbumType::Album)
                } else if str_lit_eq(s, "single") {
                    Ok(AlbumType::Single)
                } else if !s.as_str().is_empty() {
                    Ok(AlbumType::Other(s.clone()))
                } else {
                    Err(AdaptError::MissingAlbumType)
                }
            },
        }
    }

    /// Classify a target-catalog album kind, per
    /// [`classify_target_kind_spec`].
    pub fn from_youtube(kind: YtAlbumKind) -> (r: Result<AlbumType, AdaptError>)
        ensures
            res_view(r) == classify_target_kind_spec(kind),
    {
        match kind {
            YtAlbumKind::Album => Ok(AlbumType::Album),
            YtAlbumKind::Ep => Ok(AlbumType::Other(String::from_str("Ep"))),
            YtAlbumKind::Single => Ok(AlbumType::Single),
            YtAlbumKind::Audiobook => Ok(AlbumType::Other(String::from_str("Audiobook"))),
            YtAlbumKind::Show => Ok(AlbumType::Other(String::from_str("Show"))),
            YtAlbumKind::Unrecognized => Err(AdaptError::UnmappedAlbumType),
        }
    }
}

/// Canonical artists from a list of reported names, order kept.
pub fn artists_from_names(names: &Vec<String>) -> (r: Vec<Artist>)
    ensures
        r.deep_view() == artist_views(names.deep_view()),
{
    let mut r: Vec<Artist> = Vec::new();
    for i in 0..names.len()
        invariant
            r@.len() == i,
            forall|k: int|
                0 <= k < i as int ==> (#[trigger] r@[k].deep_view()) == (ArtistV {
                    name: names@[k].deep_view(),
                }),
    {
        r.push(Artist { name: names[i].clone() });
    }
    assert(r.deep_view() =~= artist_views(names.deep_view()));
    r
}

impl Artist {
    /// A canonical artist from a name the source catalog reported.
    pub fn from_spotify(name: String) -> (r: Artist)
        ensures
            r.deep_view() == (ArtistV { name: name.deep_view() }),
    {
        Artist { name }
    }

    /// A canonical artist from a name the target catalog reported.
    pub fn from_youtube(name: String) -> (r: Artist)
        ensures
            r.deep_view() == (ArtistV { name: name.deep_view() }),
    {
        Artist { name }
    }
}

/// The canonical album a source-catalog album record adapts to, or the
/// defect that stops it: a malformed date first (mirroring the order
/// the record is read in), then a missing album-type label.
pub open spec fn adapt_source_album_spec(a: SpotifyAlbumV) -> Result<AlbumV, AdaptError> {
    let year = match a.release_date {
        None => Ok(None::<u16>),
        Some(d) => match parse_year_spec(d) {
            None => Err(AdaptError::MalformedDate),
            Some(y) => Ok(Some(y)),
        },
    };
    match year {
        Err(e) => Err(e),
        Ok(release_year) => match classify_source_label_spec(a.album_type) {
            Err(e) => Err(e),
            Ok(album_type) => Ok(
                AlbumV {
                    name: a.name,
                    album_type,
                    release_year,
                    artists: artist_views(a.artists),
                },
            ),
        },
    }
}

/// The canonical album a target-catalog album record adapts to, or the
/// defect that stops it (an unmapped album kind).
pub open spec fn adapt_target_album_spec(a: YtAlbumV) -> Result<AlbumV, AdaptError> {
    match classify_target_kind_spec(a.album_type) {
        Err(e) => Err(e),
        Ok(album_type) => Ok(
            AlbumV {
                name: a.name,
                album_type,
                release_year: a.year,
                artists: artist_views(a.artists),
            },
        ),
    }
}

/// The canonical song a source-catalog track record adapts to, or the
/// defect that stops it: a missing track identifier first, then
/// whatever stops its album.
pub open spec fn adapt_source_track_spec(t: SpotifyTrackV) -> Result<SongV, AdaptError> {
    match t.id {
        None => Err(AdaptError::MissingTrackId),
        Some(id) => match adapt_source_album_spec(t.album) {
            Err(e) => Err(e),
            Ok(album) => Ok(
                SongV {
                    name: t.name,
                    source: CatalogIdV::Spotify(id),
                    album,
                    artists: artist_views(t.artists),
                    duration: Some(t.duration_seconds),
                },
            ),
        },
    }
}

/// The canonical song a target-catalog candidate adapts to, or the
/// defect that stops it: an unavailable album first (no reference, or
/// the lookup failed), then whatever stops the album record.
pub open spec fn adapt_target_track_spec(c: YtCandidateV) -> Result<SongV, AdaptError> {
    match c.album {
        None => Err(AdaptError::AlbumUnavailable),
        Some(a) => match adapt_target_album_spec(a) {
            Err(e) => Err(e),
            Ok(album) => Ok(
                SongV {
                    name: c.track.name,
                    source: CatalogIdV::Youtube(c.track.id),
                    album,
                    artists: artist_views(c.track.artists),
                    duration: c.track.duration,
                },
            ),
        },
    }
}

impl Album {
    /// Adapt a source-catalog album record, per
    /// [`adapt_source_album_spec`].
    pub fn from_spotify(a: &SpotifyAlbum) -> (r: Result<Album, AdaptError>)
        ensures
            res_view(r) == adapt_source_album_spec(a.deep_view()),
    {
        let release_year = match &a.release_date {
            None => None,
            Some(d) => match parse_year(d) {
                None => {
                    return Err(AdaptError::MalformedDate);
                },
                Some(y) => Some(y),
            },
        };
        let album_type = match AlbumType::from_spotify(&a.album_type) {
            Err(e) => {
                return Err(e);
            },
            Ok(t) => t,
        };
        let artists = artists_from_names(&a.artists);
        Ok(Album { name: a.name.clone(), album_type, release_year, artists })
    }

    /// Adapt a target-catalog album record, per
    /// [`adapt_target_album_spec`].
    pub fn from_youtube(a: &YtAlbum) -> (r: Result<Album, AdaptError>)
        ensures
            res_view(r) == adapt_target_album_spec(a.deep_view()),
    {
        let album_type = match AlbumType::from_youtube(a.album_type) {
            Err(e) => {
                return Err(e);
            },
            Ok(t) => t,
        };
        let artists = artists_from_names(&a.artists);
        Ok(Album { name: a.name.clone(), album_type, release_year: a.year, artists })
    }
}

impl Song {
    /// Adapt a source-catalog track record, per
    /// [`adapt_source_track_spec`].
    pub fn from_spotify(t: &SpotifyTrack) -> (r: Result<Song, AdaptError>)
        ensures
            res_view(r) == adapt_source_track_spec(t.deep_view()),
    {
        let id = match &t.id {
            None => {
                return Err(AdaptError::MissingTrackId);
            },
            Some(id) => id.clone(),
        };
        let album = match Album::from_spotify(&t.album) {
            Err(e) => {
                return Err(e);
            },
            Ok(album) => album,
        };
        let artists = artists_from_names(&t.artists);
        Ok(
            Song {
                name: t.name.clone(),
                source: CatalogId::Spotify(id),
                album,
                artists,
                duration: Some(t.duration_seconds),
            },
        )
    }

    /// Adapt a target-catalog search candidate, per
    /// [`adapt_target_track_spec`].
    pub fn from_youtube(c: &YtCandidate) -> (r: Result<Song, AdaptError>)
        ensures
            res_view(r) == adapt_target_track_spec(c.deep_view()),
    {
        let album_record = match &c.album {
            None => {
                return Err(AdaptError::AlbumUnavailable);
            },
            Some(a) => a,
        };
        let album = match Album::from_youtube(album_record) {
            Err(e) => {
                return Err(e);
            },
            Ok(album) => album,
        };
        let artists = artists_from_names(&c.track.artists);
        Ok(
            Song {
                name: c.track.name.clone(),
                source: CatalogId::Youtube(c.track.id.clone()),
                album,
                artists,
                duration: c.track.duration,
            },
        )
    }
}

} // verus!
