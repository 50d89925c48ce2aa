//! The properties that a song is read from, and what can be wrong with
//! them.

use crate::property::PropertyValue;
use vstd::prelude::*;

verus! {

/// The properties that the record is built from, in the order in which they
/// are read.
#[derive(Clone, Copy, Debug, PartialEq, Eq, Structural)]
pub enum Field {
    ArtUrl,
    TrackNumber,
    DiscNumber,
    TrackId,
    Url,
    Album,
    AutoRating,
    Length,
    Title,
    AlbumArtist,
    Artist,
}

impl Field {
    /// The name under which the player exposes the property.
    pub open spec fn spec_key(self) -> Seq<char> {
        match self {
            Field::ArtUrl => "mpris:artUrl"@,
            Field::TrackNumber => "xesam:trackNumber"@,
            Field::DiscNumber => "xesam:discNumber"@,
            Field::TrackId => "mpris:trackid"@,
            Field::Url => "xesam:url"@,
            Field::Album => "xesam:album"@,
            Field::AutoRating => "xesam:autoRating"@,
            Field::Length => "mpris:length"@,
            Field::Title => "xesam:title"@,
            Field::AlbumArtist => "xesam:albumArtist"@,
            Field::Artist => "xesam:artist"@,
        }
    }

    /// The place of the field in the reading order, counted from zero.
    pub open spec fn spec_position(self) -> nat {
        match self {
            Field::ArtUrl => 0,
            Field::TrackNumber => 1,
            Field::DiscNumber => 2,
            Field::TrackId => 3,
            Field::Url => 4,
            Field::Album => 5,
            Field::AutoRating => 6,
            Field::Length => 7,
            Field::Title => 8,
            Field::AlbumArtist => 9,
            Field::Artist => 10,
        }
    }

    /// The name under which the player exposes the property.
    pub fn key(self) -> (name: &'static str)
        ensures
            name@ == self.spec_key(),
    {
        match self {
            Field::ArtUrl => "mpris:artUrl",
            Field::TrackNumber => "xesam:trackNumber",
            Field::DiscNumber => "xesam:discNumber",
            Field::TrackId => "mpris:trackid",
            Field::Url => "xesam:url",
            Field::Album => "xesam:album",
            Field::AutoRating => "xesam:autoRating",
            Field::Length => "mpris:length",
            Field::Title => "xesam:title",
            Field::AlbumArtist => "xesam:albumArtist",
            Field::Artist => "xesam:artist",
        }
    }
}

/// Why a property bag cannot be read as a song: the named property is not
/// in the bag, or its value is not of a type that the field can be read
/// from.
#[derive(Clone, Copy, Debug, PartialEq, Eq, Structural)]
pub enum SchemaViolation {
    Missing(Field),
    Mismatched(Field),
}

impl SchemaViolation {
    /// The property at fault.
    pub open spec fn spec_field(self) -> Field {
        match self {
            SchemaViolation::Missing(field) => field,
            SchemaViolation::Mismatched(field) => field,
        }
    }

    /// The property at fault.
    pub fn field(&self) -> (field: Field)
        ensures
            field == self.spec_field(),
    {
        match self {
            SchemaViolation::Missing(field) => *field,
            SchemaViolation::Mismatched(field) => *field,
        }
    }
}

/// Whether `value` is of a type that `field` can be read from: a text for
/// the fields that hold text, a signed number for the track and disc
/// numbers, a double for the rating, an unsigned number for the duration,
/// and groups of names for the two lists of artists.
pub open spec fn readable(field: Field, value: PropertyValue) -> bool {
    match field {
        Field::ArtUrl | Field::TrackId | Field::Url | Field::Album | Field::Title => {
            value.spec_as_str() is Some
        },
        Field::TrackNumber | Field::DiscNumber => value.spec_as_i64() is Some,
        Field::AutoRating => value.spec_as_double() is Some,
        Field::Length => value.spec_as_u64() is Some,
        Field::AlbumArtist | Field::Artist => value.spec_as_names() is Some,
    }
}

/// What is wrong with `field` in `bag`, if anything.
pub open spec fn violation(bag: Map<Seq<char>, PropertyValue>, field: Field) -> Option<
    SchemaViolation,
> {
    if !bag.contains_key(field.spec_key()) {
        Some(SchemaViolation::Missing(field))
    } else if !readable(field, bag[field.spec_key()]) {
        Some(SchemaViolation::Mismatched(field))
    } else {
        None
    }
}

/// The violation of the first field, in reading order, that has one.
pub open spec fn first_violation(bag: Map<Seq<char>, PropertyValue>) -> Option<SchemaViolation> {
    if violation(bag, Field::ArtUrl) is Some {
        violation(bag, Field::ArtUrl)
    } else if violation(bag, Field::TrackNumber) is Some {
        violation(bag, Field::TrackNumber)
    } else if violation(bag, Field::DiscNumber) is Some {
        violation(bag, Field::DiscNumber)
    } else if violation(bag, Field::TrackId) is Some {
        violation(bag, Field::TrackId)
    } else if violation(bag, Field::Url) is Some {
        violation(bag, Field::Url)
    } else if violation(bag, Field::Album) is Some {
        violation(bag, Field::Album)
    } else if violation(bag, Field::AutoRating) is Some {
        violation(bag, Field::AutoRating)
    } else if violation(bag, Field::Length) is Some {
        violation(bag, Field::Length)
    } else if violation(bag, Field::Title) is Some {
        violation(bag, Field::Title)
    } else if violation(bag, Field::AlbumArtist) is Some {
        violation(bag, Field::AlbumArtist)
    } else {
        violation(bag, Field::Artist)
    }
}

/// There is no first violation exactly when no field has one. Where there
/// is one, it is the violation of the field that it names, and no field
/// that is read before that one has a violation.
pub proof fn lemma_first_violation(bag: Map<Seq<char>, PropertyValue>)
    ensures
        first_violation(bag) is None <==> forall|field: Field| violation(bag, field) is None,
        first_violation(bag) is Some ==> {
            let at_fault = first_violation(bag).unwrap().spec_field();
            &&& first_violation(bag) == violation(bag, at_fault)
            &&& forall|field: Field|
                field.spec_position() < at_fault.spec_position() ==> violation(bag, field) is None
        },
{
    if forall|field: Field| violation(bag, field) is None {
        assert(violation(bag, Field::ArtUrl) is None);
        assert(violation(bag, Field::TrackNumber) is None);
        assert(violation(bag, Field::DiscNumber) is None);
        assert(violation(bag, Field::TrackId) is None);
        assert(violation(bag, Field::Url) is None);
        assert(violation(bag, Field::Album) is None);
        assert(violation(bag, Field::AutoRating) is None);
        assert(violation(bag, Field::Length) is None);
        assert(violation(bag, Field::Title) is None);
        assert(violation(bag, Field::AlbumArtist) is None);
        assert(violation(bag, Field::Artist) is None);
    }
}

} // verus!
