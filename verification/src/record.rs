//! The record type, its mathematical view and the shape of a valid record.

use vstd::prelude::*;

verus! {

/// Container for the data of each country code defined by ISO 3166-1.
#[derive(Clone, Debug)]
pub struct CountryCode<'a> {
    /// Two-character alpha-2 code.
    pub alpha2: &'a str,
    /// Three-character alpha-3 code.
    pub alpha3: &'a str,
    /// English short name of the country.
    pub name: &'a str,
    /// Numeric code of the country, as three decimal digits.
    pub num: &'a str,
}

/// What a [`CountryCode`] says: its four fields as sequences of characters.
pub struct Record {
    pub alpha2: Seq<char>,
    pub alpha3: Seq<char>,
    pub name: Seq<char>,
    pub num: Seq<char>,
}

/// One of the four columns of the table.
#[derive(Clone, Copy, Debug)]
pub enum Field {
    Alpha2,
    Alpha3,
    Name,
    Num,
}

impl<'a> View for CountryCode<'a> {
    type V = Record;

    open spec fn view(&self) -> Record {
        Record { alpha2: self.alpha2@, alpha3: self.alpha3@, name: self.name@, num: self.num@ }
    }
}

impl<'a> DeepView for CountryCode<'a> {
    type V = Record;

    open spec fn deep_view(&self) -> Record {
        self.view()
    }
}

/// An upper-case ASCII letter.
pub open spec fn is_upper(c: char) -> bool {
    'A' <= c <= 'Z'
}

/// An ASCII decimal digit.
pub open spec fn is_digit(c: char) -> bool {
    '0' <= c <= '9'
}

/// Every character of `s` is an upper-case ASCII letter.
pub open spec fn all_upper(s: Seq<char>) -> bool {
    forall|i: int| 0 <= i < s.len() ==> is_upper(#[trigger] s[i])
}

/// Every character of `s` is an ASCII decimal digit.
pub open spec fn all_digits(s: Seq<char>) -> bool {
    forall|i: int| 0 <= i < s.len() ==> is_digit(#[trigger] s[i])
}

/// The shape of a two-letter code: two upper-case ASCII letters.
pub open spec fn is_alpha2(s: Seq<char>) -> bool {
    s.len() == 2 && all_upper(s)
}

/// The shape of a three-letter code: three upper-case ASCII letters.
pub open spec fn is_alpha3(s: Seq<char>) -> bool {
    s.len() == 3 && all_upper(s)
}

/// The shape of a name: it is not empty.
pub open spec fn is_name(s: Seq<char>) -> bool {
    s.len() > 0
}

/// The shape of a numeric code: three ASCII decimal digits.
pub open spec fn is_num(s: Seq<char>) -> bool {
    s.len() == 3 && all_digits(s)
}

impl Record {
    /// The value of this record in column `field`.
    pub open spec fn get(self, field: Field) -> Seq<char> {
        match field {
            Field::Alpha2 => self.alpha2,
            Field::Alpha3 => self.alpha3,
            Field::Name => self.name,
            Field::Num => self.num,
        }
    }

    /// The shape of a valid record: each column has its own.
    pub open spec fn well_formed(self) -> bool {
        &&& is_alpha2(self.alpha2)
        &&& is_alpha3(self.alpha3)
        &&& is_name(self.name)
        &&& is_num(self.num)
    }

    /// No column of `self` has the value that `other` has in it.
    pub open spec fn differs_everywhere(self, other: Record) -> bool {
        forall|field: Field| self.get(field) != other.get(field)
    }
}

/// Every record of `s` is well formed.
pub open spec fn all_well_formed(s: Seq<Record>) -> bool {
    forall|i: int| 0 <= i < s.len() ==> (#[trigger] s[i]).well_formed()
}

/// No two records of `s` agree in any column.
pub open spec fn all_distinct(s: Seq<Record>) -> bool {
    forall|i: int, j: int|
        0 <= i < s.len() && 0 <= j < s.len() && i != j ==> (#[trigger] s[i]).differs_everywhere(
            #[trigger] s[j],
        )
}

impl<'a> CountryCode<'a> {
    /// The value of this record in column `field`.
    pub fn get(&self, field: Field) -> (r: &'a str)
        ensures
            r@ == self@.get(field),
    {
        match field {
            Field::Alpha2 => self.alpha2,
            Field::Alpha3 => self.alpha3,
            Field::Name => self.name,
            Field::Num => self.num,
        }
    }
}

} // verus!
