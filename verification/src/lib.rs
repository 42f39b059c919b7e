//! Cross-catalog music entity resolution.
//!
//! A canonical data model for music entities (songs, albums, artists),
//! adapters that normalise catalog-native records into that model, a
//! comparator that scores pairs of canonical entities and explains the
//! score with diagnostic notes, and a matcher that picks the best-scoring
//! candidate for a source song.

pub mod adapt;
pub mod compare;
pub mod matcher;
pub mod model;
