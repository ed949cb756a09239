//! The image metadata records: styles, age ranges and affiliations, as the
//! metadata endpoints return them.

use vstd::prelude::*;

verus! {

/// A moment in UTC: seconds since the Unix epoch, and nanoseconds into that
/// second.
#[derive(Clone, Copy, Debug, PartialEq, Eq, Structural)]
pub struct UtcTime {
    pub secs: i64,
    pub nanos: u32,
}

/// The id of a style.
#[derive(Clone, Copy, Debug, PartialEq, Eq, Structural)]
pub struct StyleId(pub u128);

/// The id of an age range.
#[derive(Clone, Copy, Debug, PartialEq, Eq, Structural)]
pub struct AgeRangeId(pub u128);

/// The id of an affiliation.
#[derive(Clone, Copy, Debug, PartialEq, Eq, Structural)]
pub struct AffilitionId(pub u128);

/// A style an image can have.
#[derive(Clone, Copy, Debug, PartialEq, Eq, Structural)]
pub struct Style {
    pub id: StyleId,
    pub created_at: UtcTime,
    pub updated_at: Option<UtcTime>,
}

/// An age range an image is meant for.
#[derive(Clone, Copy, Debug, PartialEq, Eq, Structural)]
pub struct AgeRange {
    pub id: AgeRangeId,
    pub created_at: UtcTime,
    pub updated_at: Option<UtcTime>,
}

/// An affiliation an image belongs to.
#[derive(Clone, Copy, Debug, PartialEq, Eq, Structural)]
pub struct Affiliation {
    pub id: AffilitionId,
    pub created_at: UtcTime,
    pub updated_at: Option<UtcTime>,
}

/// All styles.
#[derive(Debug)]
pub struct StyleResponse {
    pub styles: Vec<Style>,
}

/// All age ranges.
#[derive(Debug)]
pub struct AgeRangeResponse {
    pub age_ranges: Vec<AgeRange>,
}

/// All affiliations.
#[derive(Debug)]
pub struct AffiliationResponse {
    pub affiliations: Vec<Affiliation>,
}

} // verus!
