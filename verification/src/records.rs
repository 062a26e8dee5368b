//! The three record shapes the service stores. Every numeric field is
//! persisted and echoed verbatim, never computed with, so the library
//! carries each 32-bit real number by its bit pattern alone; the boundary
//! converts to and from the machine representation.

use vstd::prelude::*;

verus! {

/// A 32-bit real number, held as its bit pattern.
#[derive(Clone, Copy, PartialEq, Eq, Structural, Debug)]
pub struct Real32 {
    pub bits: u32,
}

/// A city record: a business id, a name, coordinates as free text,
/// a population count and the id of its country.
#[derive(Clone, PartialEq, Debug)]
pub struct City {
    pub id: Real32,
    pub name: String,
    pub coordinates: String,
    pub population: Real32,
    pub country: Real32,
}

/// A country record: a business id, a name, a form-of-government flag,
/// a population count, the id of its capital city and the ids of its
/// rivers. The river list is inert: nothing checks it against the
/// river records.
#[derive(Clone, PartialEq, Debug)]
pub struct Country {
    pub id: Real32,
    pub name: String,
    pub is_democratic: bool,
    pub population: Real32,
    pub capital: Real32,
    pub rivers: Vec<Real32>,
}

/// A river record: a business id, a length, a name and the ids of the
/// countries it crosses. The country list is inert too.
#[derive(Clone, PartialEq, Debug)]
pub struct River {
    pub id: Real32,
    pub length: Real32,
    pub name: String,
    pub countries: Vec<Real32>,
}

/// One stored record of any of the three collections.
#[derive(Clone, PartialEq, Debug)]
pub enum Document {
    City(City),
    Country(Country),
    River(River),
}

} // verus!
