//! The canonical data model: entities in the engine's own shape,
//! independent of which catalog they came from, plus the mathematical
//! views that the contracts are stated over.

use vstd::prelude::*;

verus! {

/// A performing artist. Identity for comparison purposes is name
/// equality; no catalog-specific identifier is retained.
#[derive(Debug, PartialEq)]
pub struct Artist {
    pub name: String,
}

/// Mathematical view of an [`Artist`].
pub struct ArtistV {
    pub name: Seq<char>,
}

impl DeepView for Artist {
    type V = ArtistV;

    open spec fn deep_view(&self) -> ArtistV {
        ArtistV { name: self.name.deep_view() }
    }
}

impl Artist {
    /// A fresh `Artist` holding the same name.
    pub fn dup(&self) -> (r: Artist)
        ensures
            r.deep_view() == self.deep_view(),
    {
        Artist { name: self.name.clone() }
    }
}

/// The closed classification of album kinds. Catalog-specific kinds
/// with no first-class equivalent (EP, audiobook, show, compilation,
/// ...) are carried as `Other` with the catalog's original label.
#[derive(Debug, PartialEq)]
pub enum AlbumType {
    Album,
    Single,
    Other(String),
}

/// Mathematical view of an [`AlbumType`].
pub enum AlbumTypeV {
    Album,
    Single,
    Other(Seq<char>),
}

impl DeepView for AlbumType {
    type V = AlbumTypeV;

    open spec fn deep_view(&self) -> AlbumTypeV {
        match self {
            AlbumType::Album => AlbumTypeV::Album,
            AlbumType::Single => AlbumTypeV::Single,
            AlbumType::Other(label) => AlbumTypeV::Other(label.deep_view()),
        }
    }
}

impl AlbumType {
    /// Whether two album classifications agree, labels included.
    pub fn same_as(&self, other: &AlbumType) -> (r: bool)
        ensures
            r == (self.deep_view() == other.deep_view()),
    {
        match (self, other) {
            (AlbumType::Album, AlbumType::Album) => true,
            (AlbumType::Single, AlbumType::Single) => true,
            (AlbumType::Other(x), AlbumType::Other(y)) => *x == *y,
            _ => false,
        }
    }
}

/// An album in canonical form. `release_year`, when present, was
/// narrowed from the leading four characters of a catalog-provided date
/// string during adaptation; absence means the catalog reported no
/// usable date. `artists` keeps the catalog-reported order.
#[derive(Debug, PartialEq)]
pub struct Album {
    pub name: String,
    pub album_type: AlbumType,
    pub release_year: Option<u16>,
    pub artists: Vec<Artist>,
}

/// Mathematical view of an [`Album`].
pub struct AlbumV {
    pub name: Seq<char>,
    pub album_type: AlbumTypeV,
    pub release_year: Option<u16>,
    pub artists: Seq<ArtistV>,
}

impl DeepView for Album {
    type V = AlbumV;

    open spec fn deep_view(&self) -> AlbumV {
        AlbumV {
            name: self.name.deep_view(),
            album_type: self.album_type.deep_view(),
            release_year: self.release_year,
            artists: self.artists.deep_view(),
        }
    }
}

/// Catalog origin of a song, together with the catalog-native
/// identifier. Used only for provenance in diagnostics, never for
/// equality comparisons.
#[derive(Debug, PartialEq)]
pub enum CatalogId {
    Spotify(String),
    Youtube(String),
}

/// Mathematical view of a [`CatalogId`].
pub enum CatalogIdV {
    Spotify(Seq<char>),
    Youtube(Seq<char>),
}

impl DeepView for CatalogId {
    type V = CatalogIdV;

    open spec fn deep_view(&self) -> CatalogIdV {
        match self {
            CatalogId::Spotify(id) => CatalogIdV::Spotify(id.deep_view()),
            CatalogId::Youtube(id) => CatalogIdV::Youtube(id.deep_view()),
        }
    }
}

impl CatalogId {
    /// A fresh `CatalogId` holding the same origin and identifier.
    pub fn dup(&self) -> (r: CatalogId)
        ensures
            r.deep_view() == self.deep_view(),
    {
        match self {
            CatalogId::Spotify(id) => CatalogId::Spotify(id.clone()),
            CatalogId::Youtube(id) => CatalogId::Youtube(id.clone()),
        }
    }
}

/// A song in canonical form. It exclusively owns its album and artist
/// list. `duration` is whole seconds; absence means the catalog did not
/// report one.
#[derive(Debug, PartialEq)]
pub struct Song {
    pub name: String,
    pub source: CatalogId,
    pub album: Album,
    pub artists: Vec<Artist>,
    pub duration: Option<u32>,
}

/// Mathematical view of a [`Song`].
pub struct SongV {
    pub name: Seq<char>,
    pub source: CatalogIdV,
    pub album: AlbumV,
    pub artists: Seq<ArtistV>,
    pub duration: Option<u32>,
}

impl DeepView for Song {
    type V = SongV;

    open spec fn deep_view(&self) -> SongV {
        SongV {
            name: self.name.deep_view(),
            source: self.source.deep_view(),
            album: self.album.deep_view(),
            artists: self.artists.deep_view(),
            duration: self.duration,
        }
    }
}

/// A diagnostic explaining why a pair of entities scored as it did.
/// Notes are produced by the comparator, never mutated, and carry
/// enough data to be rendered without re-deriving anything.
#[derive(Debug, PartialEq)]
pub enum Note {
    /// The two durations differ by at least the tolerance. The
    /// percentage difference is carried exactly as the pair
    /// `diff_seconds / smaller_duration`; `longer` is the origin of the
    /// longer track.
    LargeTimeDiff { diff_seconds: u32, smaller_duration: u32, longer: CatalogId },
    /// The album names differ.
    AlbumDifferentName,
    /// The album classifications differ.
    AlbumTypeDiff,
    /// Both albums carry a release year and the years differ.
    AlbumYearDiff,
    /// One song's artist roster strictly extends the other's; the
    /// payload is the artists only the larger roster has.
    ExtraArtists(Vec<Artist>),
    /// The artist rosters differ and neither contains the other; the
    /// payload is the two rosters as given.
    MismatchArtists(Vec<Artist>, Vec<Artist>),
    /// `ExtraArtists`, scoped to the album rosters.
    AlbumExtraArtists(Vec<Artist>),
    /// `MismatchArtists`, scoped to the album rosters.
    AlbumMismatchArtists(Vec<Artist>, Vec<Artist>),
    /// Exactly one side reports a duration; the payload is the origin
    /// of the side without one.
    LacksDuration(CatalogId),
}

/// Mathematical view of a [`Note`].
pub enum NoteV {
    LargeTimeDiff { diff_seconds: u32, smaller_duration: u32, longer: CatalogIdV },
    AlbumDifferentName,
    AlbumTypeDiff,
    AlbumYearDiff,
    ExtraArtists(Seq<ArtistV>),
    MismatchArtists(Seq<ArtistV>, Seq<ArtistV>),
    AlbumExtraArtists(Seq<ArtistV>),
    AlbumMismatchArtists(Seq<ArtistV>, Seq<ArtistV>),
    LacksDuration(CatalogIdV),
}

impl DeepView for Note {
    type V = NoteV;

    open spec fn deep_view(&self) -> NoteV {
        match self {
            Note::LargeTimeDiff { diff_seconds, smaller_duration, longer } => {
                NoteV::LargeTimeDiff {
                    diff_seconds: *diff_seconds,
                    smaller_duration: *smaller_duration,
                    longer: longer.deep_view(),
                }
            },
            Note::AlbumDifferentName => NoteV::AlbumDifferentName,
            Note::AlbumTypeDiff => NoteV::AlbumTypeDiff,
            Note::AlbumYearDiff => NoteV::AlbumYearDiff,
            Note::ExtraArtists(extra) => NoteV::ExtraArtists(extra.deep_view()),
            Note::MismatchArtists(a, b) => NoteV::MismatchArtists(a.deep_view(), b.deep_view()),
            Note::AlbumExtraArtists(extra) => NoteV::AlbumExtraArtists(extra.deep_view()),
            Note::AlbumMismatchArtists(a, b) => {
                NoteV::AlbumMismatchArtists(a.deep_view(), b.deep_view())
            },
            Note::LacksDuration(source) => NoteV::LacksDuration(source.deep_view()),
        }
    }
}

/// A fresh artist list holding the same names in the same order.
pub fn dup_artists(artists: &Vec<Artist>) -> (r: Vec<Artist>)
    ensures
        r.deep_view() == artists.deep_view(),
{
    let mut r: Vec<Artist> = Vec::new();
    for i in 0..artists.len()
        invariant
            r@.len() == i,
            forall|k: int|
                0 <= k < i as int ==> (#[trigger] r@[k].deep_view()) == artists@[k].deep_view(),
    {
        r.push(artists[i].dup());
    }
    assert(r.deep_view() =~= artists.deep_view());
    r
}

} // verus!
