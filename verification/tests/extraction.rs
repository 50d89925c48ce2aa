use spotify_infos::property::{Double, PropertyMap, PropertyValue};
use spotify_infos::schema::{Field, SchemaViolation};
use spotify_infos::{render, SongInfos};

const ALL_FIELDS: [Field; 11] = [
    Field::ArtUrl,
    Field::TrackNumber,
    Field::DiscNumber,
    Field::TrackId,
    Field::Url,
    Field::Album,
    Field::AutoRating,
    Field::Length,
    Field::Title,
    Field::AlbumArtist,
    Field::Artist,
];

fn text(value: &str) -> PropertyValue {
    PropertyValue::Text(value.to_string())
}

fn variant(value: PropertyValue) -> PropertyValue {
    PropertyValue::Variant(Box::new(value))
}

fn names(values: &[&str]) -> PropertyValue {
    PropertyValue::List(values.iter().map(|name| text(name)).collect())
}

/// A value of the type that a player sends for the field.
fn sample(field: Field) -> PropertyValue {
    match field {
        Field::ArtUrl => variant(text("https://i.scdn.co/image/cover")),
        Field::TrackNumber => variant(PropertyValue::Int32(7)),
        Field::DiscNumber => variant(PropertyValue::Int32(1)),
        Field::TrackId => variant(text("spotify:track:42")),
        Field::Url => variant(text("https://open.spotify.com/track/42")),
        Field::Album => variant(text("Album")),
        Field::AutoRating => variant(PropertyValue::Double(Double { text: 0.5f64.to_string() })),
        Field::Length => variant(PropertyValue::UInt64(61_000_000)),
        Field::Title => variant(text("Song")),
        Field::AlbumArtist => variant(names(&["Various"])),
        Field::Artist => variant(names(&["A", "B"])),
    }
}

fn bag_without(left_out: &[Field]) -> PropertyMap {
    let mut bag = PropertyMap::new();
    for field in ALL_FIELDS {
        if !left_out.contains(&field) {
            bag.insert(field.key().to_string(), sample(field));
        }
    }
    bag
}

fn bag_with(field: Field, value: PropertyValue) -> PropertyMap {
    let mut bag = bag_without(&[]);
    bag.insert(field.key().to_string(), value);
    bag
}

fn song_with(field: Field, value: PropertyValue) -> SongInfos {
    SongInfos::new(bag_with(field, value), "Playing".to_string()).unwrap()
}

fn fault_with(field: Field, value: PropertyValue) -> SchemaViolation {
    SongInfos::new(bag_with(field, value), "Playing".to_string()).unwrap_err()
}

#[test]
fn keys_are_the_names_of_the_schema() {
    assert_eq!(Field::ArtUrl.key(), "mpris:artUrl");
    assert_eq!(Field::TrackNumber.key(), "xesam:trackNumber");
    assert_eq!(Field::DiscNumber.key(), "xesam:discNumber");
    assert_eq!(Field::TrackId.key(), "mpris:trackid");
    assert_eq!(Field::Url.key(), "xesam:url");
    assert_eq!(Field::Album.key(), "xesam:album");
    assert_eq!(Field::AutoRating.key(), "xesam:autoRating");
    assert_eq!(Field::Length.key(), "mpris:length");
    assert_eq!(Field::Title.key(), "xesam:title");
    assert_eq!(Field::AlbumArtist.key(), "xesam:albumArtist");
    assert_eq!(Field::Artist.key(), "xesam:artist");
}

#[test]
fn full_bag_is_read_field_by_field() {
    let song = SongInfos::new(bag_without(&[]), "Paused".to_string()).unwrap();
    assert_eq!(song.artist_image_url, "https://i.scdn.co/image/cover");
    assert_eq!(song.track_number, 7);
    assert_eq!(song.disc_number, 1);
    assert_eq!(song.track_id, "spotify:track:42");
    assert_eq!(song.url, "https://open.spotify.com/track/42");
    assert_eq!(song.album, "Album");
    assert_eq!(song.auto_rating.text, "0.5");
    assert_eq!(song.total_duration_microseconds, 61_000_000);
    assert_eq!(song.total_duration_formatted, "00:01:01:00");
    assert_eq!(song.title, "Song");
    assert_eq!(song.album_artists, vec!["Various".to_string()]);
    assert_eq!(song.artists, vec!["A".to_string(), "B".to_string()]);
    assert_eq!(song.playback_status, "Paused");
}

#[test]
fn end_to_end_from_bag_to_rendered_text() {
    let mut bag = bag_without(&[Field::Title, Field::Artist, Field::Length]);
    bag.insert("xesam:title".to_string(), text("Song"));
    bag.insert(
        "xesam:artist".to_string(),
        PropertyValue::List(vec![names(&["A", "B"])]),
    );
    bag.insert("mpris:length".to_string(), PropertyValue::UInt64(61_000_000));
    let song = SongInfos::new(bag, "Playing".to_string()).unwrap();
    assert_eq!(song.total_duration_formatted, "00:01:01:00");
    assert_eq!(render(&song, "%artists% - %title%").unwrap(), "A feat. B - Song");
}

#[test]
fn each_missing_key_fails_the_extraction() {
    for field in ALL_FIELDS {
        let outcome = SongInfos::new(bag_without(&[field]), "Playing".to_string());
        assert_eq!(outcome.unwrap_err(), SchemaViolation::Missing(field));
    }
}

#[test]
fn empty_bag_reports_the_first_field() {
    let outcome = SongInfos::new(PropertyMap::new(), "Playing".to_string());
    assert_eq!(outcome.unwrap_err(), SchemaViolation::Missing(Field::ArtUrl));
}

#[test]
fn first_fault_in_reading_order_is_reported() {
    let outcome = SongInfos::new(
        bag_without(&[Field::Artist, Field::Album, Field::Title]),
        "Playing".to_string(),
    );
    assert_eq!(outcome.unwrap_err(), SchemaViolation::Missing(Field::Album));

    let mut bag = bag_without(&[Field::Title]);
    bag.insert("xesam:discNumber".to_string(), text("one"));
    let outcome = SongInfos::new(bag, "Playing".to_string());
    assert_eq!(outcome.unwrap_err(), SchemaViolation::Mismatched(Field::DiscNumber));

    let mut bag = bag_without(&[Field::TrackNumber]);
    bag.insert("xesam:discNumber".to_string(), text("one"));
    let outcome = SongInfos::new(bag, "Playing".to_string());
    assert_eq!(outcome.unwrap_err(), SchemaViolation::Missing(Field::TrackNumber));
}

#[test]
fn fault_names_its_field() {
    assert_eq!(SchemaViolation::Missing(Field::Url).field(), Field::Url);
    assert_eq!(SchemaViolation::Mismatched(Field::Length).field(), Field::Length);
    assert_eq!(SchemaViolation::Missing(Field::Url).field().key(), "xesam:url");
}

#[test]
fn text_field_of_another_type_is_a_mismatch() {
    for field in [Field::ArtUrl, Field::TrackId, Field::Url, Field::Album, Field::Title] {
        assert_eq!(
            fault_with(field, PropertyValue::Int64(3)),
            SchemaViolation::Mismatched(field)
        );
        assert_eq!(
            fault_with(field, names(&["a"])),
            SchemaViolation::Mismatched(field)
        );
        assert_eq!(
            fault_with(field, PropertyValue::Opaque),
            SchemaViolation::Mismatched(field)
        );
    }
}

#[test]
fn signed_field_takes_every_integer_but_unsigned_64() {
    assert_eq!(song_with(Field::TrackNumber, PropertyValue::Int64(12)).track_number, 12);
    assert_eq!(song_with(Field::TrackNumber, PropertyValue::UInt32(12)).track_number, 12);
    assert_eq!(song_with(Field::DiscNumber, PropertyValue::Byte(2)).disc_number, 2);
    assert_eq!(
        fault_with(Field::TrackNumber, PropertyValue::UInt64(12)),
        SchemaViolation::Mismatched(Field::TrackNumber)
    );
    assert_eq!(
        fault_with(Field::DiscNumber, text("2")),
        SchemaViolation::Mismatched(Field::DiscNumber)
    );
}

#[test]
fn negative_numbers_pass_through() {
    let song = song_with(Field::TrackNumber, PropertyValue::Int32(-4));
    assert_eq!(song.track_number, -4);
    let song = song_with(Field::DiscNumber, PropertyValue::Int64(i64::MIN));
    assert_eq!(song.disc_number, i64::MIN);
    assert_eq!(render(&song, "%disc_number%").unwrap(), "-9223372036854775808");
}

#[test]
fn duration_has_to_be_unsigned() {
    assert_eq!(
        fault_with(Field::Length, PropertyValue::Int64(61_000_000)),
        SchemaViolation::Mismatched(Field::Length)
    );
    assert_eq!(
        fault_with(Field::Length, text("61000000")),
        SchemaViolation::Mismatched(Field::Length)
    );
    let song = song_with(Field::Length, PropertyValue::UInt32(1_500_000));
    assert_eq!(song.total_duration_microseconds, 1_500_000);
    assert_eq!(song.total_duration_formatted, "00:00:01:05");
}

#[test]
fn written_duration_follows_the_microseconds() {
    let samples: [(u64, &str); 6] = [
        (0, "00:00:00:00"),
        (999, "00:00:00:00"),
        (1_500_999, "00:00:01:05"),
        (3_661_000_000, "01:01:01:00"),
        (86_400_000_000, "00:00:00:00"),
        (u64::MAX, "08:01:49:05"),
    ];
    for (microseconds, written) in samples {
        let song = song_with(Field::Length, PropertyValue::UInt64(microseconds));
        assert_eq!(song.total_duration_microseconds, microseconds);
        assert_eq!(song.total_duration_formatted, written);
    }
}

#[test]
fn rating_is_a_double_or_a_small_integer() {
    let rating = PropertyValue::Double(Double { text: 0.75f64.to_string() });
    assert_eq!(song_with(Field::AutoRating, rating).auto_rating.text, "0.75");
    assert_eq!(song_with(Field::AutoRating, PropertyValue::Int32(1)).auto_rating.text, "1");
    assert_eq!(
        fault_with(Field::AutoRating, PropertyValue::Int64(1)),
        SchemaViolation::Mismatched(Field::AutoRating)
    );
    assert_eq!(
        fault_with(Field::AutoRating, text("0.75")),
        SchemaViolation::Mismatched(Field::AutoRating)
    );
}

#[test]
fn names_are_flattened_in_order() {
    let groups = PropertyValue::List(vec![
        names(&["A", "B"]),
        names(&[]),
        names(&["C"]),
        variant(text("D")),
    ]);
    let song = song_with(Field::Artist, groups);
    assert_eq!(
        song.artists,
        vec!["A".to_string(), "B".to_string(), "C".to_string(), "D".to_string()]
    );
}

#[test]
fn no_group_gives_no_name() {
    let song = song_with(Field::AlbumArtist, PropertyValue::List(Vec::new()));
    assert!(song.album_artists.is_empty());
    let song = song_with(Field::AlbumArtist, variant(names(&[])));
    assert!(song.album_artists.is_empty());
}

#[test]
fn names_that_are_not_a_list_of_lists_are_a_mismatch() {
    assert_eq!(
        fault_with(Field::Artist, text("A")),
        SchemaViolation::Mismatched(Field::Artist)
    );
    // A plain list of texts has texts where groups are expected.
    assert_eq!(
        fault_with(Field::Artist, names(&["A", "B"])),
        SchemaViolation::Mismatched(Field::Artist)
    );
    let with_number = PropertyValue::List(vec![PropertyValue::List(vec![
        text("A"),
        PropertyValue::Int64(2),
    ])]);
    assert_eq!(
        fault_with(Field::AlbumArtist, with_number),
        SchemaViolation::Mismatched(Field::AlbumArtist)
    );
    let late_fault = PropertyValue::List(vec![names(&["A"]), names(&["B"]), text("C")]);
    assert_eq!(
        fault_with(Field::Artist, late_fault),
        SchemaViolation::Mismatched(Field::Artist)
    );
}

#[test]
fn extract_field_finds_what_is_there() {
    let bag = bag_without(&[Field::Album]);
    let found = SongInfos::extract_field(&bag, Field::Title).unwrap();
    assert_eq!(found.as_str(), Some("Song"));
    let fault = SongInfos::extract_field(&bag, Field::Album).unwrap_err();
    assert_eq!(fault, SchemaViolation::Missing(Field::Album));
}

#[test]
fn properties_outside_the_schema_are_ignored() {
    let mut bag = bag_without(&[]);
    bag.insert("xesam:genre".to_string(), names(&["Jazz"]));
    bag.insert("title".to_string(), text("Other"));
    let song = SongInfos::new(bag, "Stopped".to_string()).unwrap();
    assert_eq!(song.title, "Song");
    assert_eq!(song.playback_status, "Stopped");
}
