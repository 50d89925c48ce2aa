//! The typed record of what is playing, and how it is read out of the
//! player's property bag.

use crate::duration::{clock_text, milliseconds_to_time};
use crate::property::{Double, PropertyMap, PropertyValue};
use crate::schema::{
    first_violation, lemma_first_violation, readable, violation, Field, SchemaViolation,
};
use crate::text::string_views;
use vstd::prelude::*;

verus! {

/// What is playing.
#[derive(Debug)]
pub struct SongInfos {
    pub artist_image_url: String,
    pub track_number: i64,
    pub disc_number: i64,
    pub track_id: String,
    pub url: String,
    pub album: String,
    pub auto_rating: Double,
    pub total_duration_microseconds: u64,
    pub total_duration_formatted: String,
    pub title: String,
    pub album_artists: Vec<String>,
    pub artists: Vec<String>,
    pub playback_status: String,
}

/// A song as the contracts see it: texts in place of strings.
pub struct SongInfosView {
    pub artist_image_url: Seq<char>,
    pub track_number: i64,
    pub disc_number: i64,
    pub track_id: Seq<char>,
    pub url: Seq<char>,
    pub album: Seq<char>,
    pub auto_rating: Seq<char>,
    pub total_duration_microseconds: u64,
    pub total_duration_formatted: Seq<char>,
    pub title: Seq<char>,
    pub album_artists: Seq<Seq<char>>,
    pub artists: Seq<Seq<char>>,
    pub playback_status: Seq<char>,
}

impl SongInfosView {
    /// The written duration is the clock text of the duration in
    /// microseconds, taken in whole milliseconds.
    pub open spec fn well_formed(self) -> bool {
        self.total_duration_formatted == clock_text(
            (self.total_duration_microseconds / 1000) as nat,
        )
    }
}

impl View for SongInfos {
    type V = SongInfosView;

    open spec fn view(&self) -> SongInfosView {
        SongInfosView {
            artist_image_url: self.artist_image_url@,
            track_number: self.track_number,
            disc_number: self.disc_number,
            track_id: self.track_id@,
            url: self.url@,
            album: self.album@,
            auto_rating: self.auto_rating@,
            total_duration_microseconds: self.total_duration_microseconds,
            total_duration_formatted: self.total_duration_formatted@,
            title: self.title@,
            album_artists: string_views(self.album_artists@),
            artists: string_views(self.artists@),
            playback_status: self.playback_status@,
        }
    }
}

/// The song that a property bag and a playback status describe, or the
/// first violation that keeps the bag from being read.
pub open spec fn spec_extract(bag: Map<Seq<char>, PropertyValue>, playback_status: Seq<char>)
    -> Result<SongInfosView, SchemaViolation> {
    match first_violation(bag) {
        Some(found) => Err(found),
        None => {
            let length = bag[Field::Length.spec_key()].spec_as_u64().unwrap();
            Ok(
                SongInfosView {
                    artist_image_url: bag[Field::ArtUrl.spec_key()].spec_as_str().unwrap(),
                    track_number: bag[Field::TrackNumber.spec_key()].spec_as_i64().unwrap(),
                    disc_number: bag[Field::DiscNumber.spec_key()].spec_as_i64().unwrap(),
                    track_id: bag[Field::TrackId.spec_key()].spec_as_str().unwrap(),
                    url: bag[Field::Url.spec_key()].spec_as_str().unwrap(),
                    album: bag[Field::Album.spec_key()].spec_as_str().unwrap(),
                    auto_rating: bag[Field::AutoRating.spec_key()].spec_as_double().unwrap(),
                    total_duration_microseconds: length,
                    total_duration_formatted: clock_text((length / 1000) as nat),
                    title: bag[Field::Title.spec_key()].spec_as_str().unwrap(),
                    album_artists: bag[Field::AlbumArtist.spec_key()].spec_as_names().unwrap(),
                    artists: bag[Field::Artist.spec_key()].spec_as_names().unwrap(),
                    playback_status,
                },
            )
        },
    }
}

/// The fault of a field that could not be read: missing where the bag does
/// not have it, mismatched where it does.
pub open spec fn fault_of(bag: Map<Seq<char>, PropertyValue>, field: Field) -> SchemaViolation {
    if bag.contains_key(field.spec_key()) {
        SchemaViolation::Mismatched(field)
    } else {
        SchemaViolation::Missing(field)
    }
}

impl SongInfos {
    /// Looks a property up in the bag.
    pub fn extract_field(metadata: &PropertyMap, field: Field) -> (found: Result<
        &PropertyValue,
        SchemaViolation,
    >)
        ensures
            match found {
                Ok(value) => metadata@.contains_key(field.spec_key()) && *value
                    == metadata@[field.spec_key()],
                Err(fault) => !metadata@.contains_key(field.spec_key()) && fault
                    == SchemaViolation::Missing(field),
            },
    {
        match metadata.get(field.key()) {
            Some(value) => Ok(value),
            None => Err(SchemaViolation::Missing(field)),
        }
    }

    /// Reads a property as text.
    fn text_field(metadata: &PropertyMap, field: Field) -> (read: Result<String, SchemaViolation>)
        ensures
            match read {
                Ok(text) => metadata@.contains_key(field.spec_key())
                    && metadata@[field.spec_key()].spec_as_str() == Some(text@),
                Err(fault) => fault == fault_of(metadata@, field) && (metadata@.contains_key(
                    field.spec_key(),
                ) ==> metadata@[field.spec_key()].spec_as_str() is None),
            },
    {
        let value = SongInfos::extract_field(metadata, field)?;
        match value.as_str() {
            Some(text) => Ok(String::from_str(text)),
            None => Err(SchemaViolation::Mismatched(field)),
        }
    }

    /// Reads a property as a signed number.
    fn signed_field(metadata: &PropertyMap, field: Field) -> (read: Result<i64, SchemaViolation>)
        ensures
            match read {
                Ok(number) => metadata@.contains_key(field.spec_key())
                    && metadata@[field.spec_key()].spec_as_i64() == Some(number),
                Err(fault) => fault == fault_of(metadata@, field) && (metadata@.contains_key(
                    field.spec_key(),
                ) ==> metadata@[field.spec_key()].spec_as_i64() is None),
            },
    {
        let value = SongInfos::extract_field(metadata, field)?;
        match value.as_i64() {
            Some(number) => Ok(number),
            None => Err(SchemaViolation::Mismatched(field)),
        }
    }

    /// Reads a property as an unsigned number.
    fn unsigned_field(metadata: &PropertyMap, field: Field) -> (read: Result<u64, SchemaViolation>)
        ensures
            match read {
                Ok(number) => metadata@.contains_key(field.spec_key())
                    && metadata@[field.spec_key()].spec_as_u64() == Some(number),
                Err(fault) => fault == fault_of(metadata@, field) && (metadata@.contains_key(
                    field.spec_key(),
                ) ==> metadata@[field.spec_key()].spec_as_u64() is None),
            },
    {
        let value = SongInfos::extract_field(metadata, field)?;
        match value.as_u64() {
            Some(number) => Ok(number),
            None => Err(SchemaViolation::Mismatched(field)),
        }
    }

    /// Reads a property as a double.
    fn double_field(metadata: &PropertyMap, field: Field) -> (read: Result<Double, SchemaViolation>)
        ensures
            match read {
                Ok(number) => metadata@.contains_key(field.spec_key())
                    && metadata@[field.spec_key()].spec_as_double() == Some(number@),
                Err(fault) => fault == fault_of(metadata@, field) && (metadata@.contains_key(
                    field.spec_key(),
                ) ==> metadata@[field.spec_key()].spec_as_double() is None),
            },
    {
        let value = SongInfos::extract_field(metadata, field)?;
        match value.as_double() {
            Some(number) => Ok(number),
            None => Err(SchemaViolation::Mismatched(field)),
        }
    }

    /// Reads a property as a list of names.
    fn names_field(metadata: &PropertyMap, field: Field) -> (read: Result<
        Vec<String>,
        SchemaViolation,
    >)
        ensures
            match read {
                Ok(names) => metadata@.contains_key(field.spec_key())
                    && metadata@[field.spec_key()].spec_as_names() == Some(string_views(names@)),
                Err(fault) => fault == fault_of(metadata@, field) && (metadata@.contains_key(
                    field.spec_key(),
                ) ==> metadata@[field.spec_key()].spec_as_names() is None),
            },
    {
        let value = SongInfos::extract_field(metadata, field)?;
        match value.as_names() {
            Some(names) => Ok(names),
            None => Err(SchemaViolation::Mismatched(field)),
        }
    }

    /// Reads the song out of the player's property bag. Every property of
    /// the schema has to be there, with a value of a type that its field
    /// can be read from; the properties are read in the order of the
    /// schema, and the first one at fault is reported.
    pub fn new(metadata: PropertyMap, playback_status: String) -> (song: Result<
        SongInfos,
        SchemaViolation,
    >)
        ensures
            match (song, spec_extract(metadata@, playback_status@)) {
                (Ok(infos), Ok(expected)) => infos@ == expected && infos@.well_formed(),
                (Err(fault), Err(expected)) => fault == expected,
                _ => false,
            },
    {
        let artist_image_url = SongInfos::text_field(&metadata, Field::ArtUrl)?;
        let track_number = SongInfos::signed_field(&metadata, Field::TrackNumber)?;
        let disc_number = SongInfos::signed_field(&metadata, Field::DiscNumber)?;
        let track_id = SongInfos::text_field(&metadata, Field::TrackId)?;
        let url = SongInfos::text_field(&metadata, Field::Url)?;
        let album = SongInfos::text_field(&metadata, Field::Album)?;
        let auto_rating = SongInfos::double_field(&metadata, Field::AutoRating)?;
        let total_duration_microseconds = SongInfos::unsigned_field(&metadata, Field::Length)?;
        let title = SongInfos::text_field(&metadata, Field::Title)?;
        let album_artists = SongInfos::names_field(&metadata, Field::AlbumArtist)?;
        let artists = SongInfos::names_field(&metadata, Field::Artist)?;

        Ok(
            SongInfos {
                playback_status,
                artist_image_url,
                track_number,
                disc_number,
                track_id,
                url,
                album,
                auto_rating,
                total_duration_microseconds,
                total_duration_formatted: milliseconds_to_time(total_duration_microseconds / 1000),
                title,
                album_artists,
                artists,
            },
        )
    }
}

/// A bag can be read as a song exactly when no property of the schema is
/// missing from it or has a value of the wrong type.
pub proof fn lemma_extract_succeeds_iff(
    bag: Map<Seq<char>, PropertyValue>,
    playback_status: Seq<char>,
)
    ensures
        spec_extract(bag, playback_status) is Ok <==> forall|field: Field|
            violation(bag, field) is None,
{
    lemma_first_violation(bag);
}

/// A bag from which a property of the schema is missing cannot be read as
/// a song, whatever else it holds.
pub proof fn lemma_missing_property_fails(
    bag: Map<Seq<char>, PropertyValue>,
    playback_status: Seq<char>,
    field: Field,
)
    requires
        !bag.contains_key(field.spec_key()),
    ensures
        spec_extract(bag, playback_status) is Err,
{
    lemma_extract_succeeds_iff(bag, playback_status);
    assert(violation(bag, field) is Some);
}

/// A bag in which a property of the schema has a value of the wrong type
/// cannot be read as a song either.
pub proof fn lemma_mismatched_property_fails(
    bag: Map<Seq<char>, PropertyValue>,
    playback_status: Seq<char>,
    field: Field,
)
    requires
        bag.contains_key(field.spec_key()),
        !readable(field, bag[field.spec_key()]),
    ensures
        spec_extract(bag, playback_status) is Err,
{
    lemma_extract_succeeds_iff(bag, playback_status);
    assert(violation(bag, field) is Some);
}

/// What is read is what the bag holds: every field of the song is its
/// property read as the field's type, the written duration is the clock
/// text of the duration, and the playback status is the one given.
pub proof fn lemma_extracted_fields(bag: Map<Seq<char>, PropertyValue>, playback_status: Seq<char>)
    requires
        spec_extract(bag, playback_status) is Ok,
    ensures
        ({
            let song = spec_extract(bag, playback_status).unwrap();
            &&& song.well_formed()
            &&& song.playback_status == playback_status
            &&& bag[Field::Title.spec_key()].spec_as_str() == Some(song.title)
            &&& bag[Field::Album.spec_key()].spec_as_str() == Some(song.album)
            &&& bag[Field::Url.spec_key()].spec_as_str() == Some(song.url)
            &&& bag[Field::TrackId.spec_key()].spec_as_str() == Some(song.track_id)
            &&& bag[Field::ArtUrl.spec_key()].spec_as_str() == Some(song.artist_image_url)
            &&& bag[Field::TrackNumber.spec_key()].spec_as_i64() == Some(song.track_number)
            &&& bag[Field::DiscNumber.spec_key()].spec_as_i64() == Some(song.disc_number)
            &&& bag[Field::AutoRating.spec_key()].spec_as_double() == Some(song.auto_rating)
            &&& bag[Field::Length.spec_key()].spec_as_u64() == Some(
                song.total_duration_microseconds,
            )
            &&& bag[Field::AlbumArtist.spec_key()].spec_as_names() == Some(song.album_artists)
            &&& bag[Field::Artist.spec_key()].spec_as_names() == Some(song.artists)
        }),
{
    lemma_extract_succeeds_iff(bag, playback_status);
    assert(violation(bag, Field::ArtUrl) is None);
    assert(violation(bag, Field::TrackNumber) is None);
    assert(violation(bag, Field::DiscNumber) is None);
    assert(violation(bag, Field::TrackId) is None);
    assert(violation(bag, Field::Url) is None);
    assert(violation(bag, Field::Album) is None);
    assert(violation(bag, Field::AutoRating) is None);
    assert(violation(bag, Field::Length) is None);
    assert(violation(bag, Field::Title) is None);
    assert(violation(bag, Field::AlbumArtist) is None);
    assert(violation(bag, Field::Artist) is None);
}

} // verus!
