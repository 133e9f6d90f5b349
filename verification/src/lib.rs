//! ISO 3166-1 country codes, with verified lookups.
//!
//! The crate holds the table of countries, dependent territories and special
//! areas that ISO 3166-1 defines: for each one its two-letter code, its
//! three-letter code, its English short name and its three-digit numeric code.
//! [`all`] returns the whole table; [`alpha2`], [`alpha3`], [`name`] and [`num`]
//! find the record with a given value in one column; [`num_range`] selects the
//! records whose numeric code lies within optional bounds.
//!
//! Every function carries a contract over [`codes::table`], the table as a
//! mathematical sequence, and Verus proves each body against its contract.

pub mod codes;
pub mod laws;
pub mod literals;
pub mod lookup;
pub mod range;
pub mod record;
pub mod text;

pub use codes::all;
pub use lookup::{alpha2, alpha3, name, num};
pub use range::num_range;
pub use record::{CountryCode, Field, Record};
