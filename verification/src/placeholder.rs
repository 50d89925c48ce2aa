//! The fields of a song by the names that templates use for them.

use crate::decimal::{decimal_int, decimal_nat, i64_to_decimal, u64_to_decimal};
use crate::song::{SongInfos, SongInfosView};
use crate::text::{join, joined, same_text};
use vstd::prelude::*;

verus! {

/// The fields that a template can name.
#[derive(Clone, Copy, Debug, PartialEq, Eq, Structural)]
pub enum Placeholder {
    ArtImageUrl,
    TrackNumber,
    DiscNumber,
    TrackId,
    Url,
    Album,
    AutoRating,
    TotalDurationMicroseconds,
    TotalDurationFormatted,
    Title,
    AlbumArtists,
    Artists,
    PlaybackStatus,
}

/// What stands between the names of a list-valued field.
pub open spec fn names_separator() -> Seq<char> {
    " feat. "@
}

impl Placeholder {
    /// The name by which a template refers to the field.
    pub open spec fn spec_name(self) -> Seq<char> {
        match self {
            Placeholder::ArtImageUrl => "art_image_url"@,
            Placeholder::TrackNumber => "track_number"@,
            Placeholder::DiscNumber => "disc_number"@,
            Placeholder::TrackId => "track_id"@,
            Placeholder::Url => "url"@,
            Placeholder::Album => "album"@,
            Placeholder::AutoRating => "auto_rating"@,
            Placeholder::TotalDurationMicroseconds => "total_duration_microseconds"@,
            Placeholder::TotalDurationFormatted => "total_duration_formatted"@,
            Placeholder::Title => "title"@,
            Placeholder::AlbumArtists => "album_artists"@,
            Placeholder::Artists => "artists"@,
            Placeholder::PlaybackStatus => "playback_status"@,
        }
    }

    /// The field that `name` refers to, if it is the name of one.
    pub open spec fn spec_parse(name: Seq<char>) -> Option<Placeholder> {
        if name == Placeholder::ArtImageUrl.spec_name() {
            Some(Placeholder::ArtImageUrl)
        } else if name == Placeholder::TrackNumber.spec_name() {
            Some(Placeholder::TrackNumber)
        } else if name == Placeholder::DiscNumber.spec_name() {
            Some(Placeholder::DiscNumber)
        } else if name == Placeholder::TrackId.spec_name() {
            Some(Placeholder::TrackId)
        } else if name == Placeholder::Url.spec_name() {
            Some(Placeholder::Url)
        } else if name == Placeholder::Album.spec_name() {
            Some(Placeholder::Album)
        } else if name == Placeholder::AutoRating.spec_name() {
            Some(Placeholder::AutoRating)
        } else if name == Placeholder::TotalDurationMicroseconds.spec_name() {
            Some(Placeholder::TotalDurationMicroseconds)
        } else if name == Placeholder::TotalDurationFormatted.spec_name() {
            Some(Placeholder::TotalDurationFormatted)
        } else if name == Placeholder::Title.spec_name() {
            Some(Placeholder::Title)
        } else if name == Placeholder::AlbumArtists.spec_name() {
            Some(Placeholder::AlbumArtists)
        } else if name == Placeholder::Artists.spec_name() {
            Some(Placeholder::Artists)
        } else if name == Placeholder::PlaybackStatus.spec_name() {
            Some(Placeholder::PlaybackStatus)
        } else {
            None
        }
    }

    /// The text that the field has in `song`: a text as it is, a number in
    /// base 10, a list of names joined by " feat. ".
    pub open spec fn spec_value(self, song: SongInfosView) -> Seq<char> {
        match self {
            Placeholder::ArtImageUrl => song.artist_image_url,
            Placeholder::TrackNumber => decimal_int(song.track_number as int),
            Placeholder::DiscNumber => decimal_int(song.disc_number as int),
            Placeholder::TrackId => song.track_id,
            Placeholder::Url => song.url,
            Placeholder::Album => song.album,
            Placeholder::AutoRating => song.auto_rating,
            Placeholder::TotalDurationMicroseconds => decimal_nat(
                song.total_duration_microseconds as nat,
            ),
            Placeholder::TotalDurationFormatted => song.total_duration_formatted,
            Placeholder::Title => song.title,
            Placeholder::AlbumArtists => joined(song.album_artists, names_separator()),
            Placeholder::Artists => joined(song.artists, names_separator()),
            Placeholder::PlaybackStatus => song.playback_status,
        }
    }

    /// The name by which a template refers to the field.
    pub fn name(self) -> (name: &'static str)
        ensures
            name@ == self.spec_name(),
    {
        match self {
            Placeholder::ArtImageUrl => "art_image_url",
            Placeholder::TrackNumber => "track_number",
            Placeholder::DiscNumber => "disc_number",
            Placeholder::TrackId => "track_id",
            Placeholder::Url => "url",
            Placeholder::Album => "album",
            Placeholder::AutoRating => "auto_rating",
            Placeholder::TotalDurationMicroseconds => "total_duration_microseconds",
            Placeholder::TotalDurationFormatted => "total_duration_formatted",
            Placeholder::Title => "title",
            Placeholder::AlbumArtists => "album_artists",
            Placeholder::Artists => "artists",
            Placeholder::PlaybackStatus => "playback_status",
        }
    }

    /// Looks `name` up among the names of the fields.
    pub fn parse(name: &str) -> (field: Option<Placeholder>)
        ensures
            field == Placeholder::spec_parse(name@),
    {
        if same_text(name, "art_image_url") {
            Some(Placeholder::ArtImageUrl)
        } else if same_text(name, "track_number") {
            Some(Placeholder::TrackNumber)
        } else if same_text(name, "disc_number") {
            Some(Placeholder::DiscNumber)
        } else if same_text(name, "track_id") {
            Some(Placeholder::TrackId)
        } else if same_text(name, "url") {
            Some(Placeholder::Url)
        } else if same_text(name, "album") {
            Some(Placeholder::Album)
        } else if same_text(name, "auto_rating") {
            Some(Placeholder::AutoRating)
        } else if same_text(name, "total_duration_microseconds") {
            Some(Placeholder::TotalDurationMicroseconds)
        } else if same_text(name, "total_duration_formatted") {
            Some(Placeholder::TotalDurationFormatted)
        } else if same_text(name, "title") {
            Some(Placeholder::Title)
        } else if same_text(name, "album_artists") {
            Some(Placeholder::AlbumArtists)
        } else if same_text(name, "artists") {
            Some(Placeholder::Artists)
        } else if same_text(name, "playback_status") {
            Some(Placeholder::PlaybackStatus)
        } else {
            None
        }
    }

    /// Writes the field of `song` out as text.
    pub fn value(self, song: &SongInfos) -> (text: String)
        ensures
            text@ == self.spec_value(song@),
    {
        match self {
            Placeholder::ArtImageUrl => song.artist_image_url.clone(),
            Placeholder::TrackNumber => i64_to_decimal(song.track_number),
            Placeholder::DiscNumber => i64_to_decimal(song.disc_number),
            Placeholder::TrackId => song.track_id.clone(),
            Placeholder::Url => song.url.clone(),
            Placeholder::Album => song.album.clone(),
            Placeholder::AutoRating => song.auto_rating.text.clone(),
            Placeholder::TotalDurationMicroseconds => u64_to_decimal(
                song.total_duration_microseconds,
            ),
            Placeholder::TotalDurationFormatted => song.total_duration_formatted.clone(),
            Placeholder::Title => song.title.clone(),
            Placeholder::AlbumArtists => join(&song.album_artists, " feat. "),
            Placeholder::Artists => join(&song.artists, " feat. "),
            Placeholder::PlaybackStatus => song.playback_status.clone(),
        }
    }
}

/// The text of the field of `song` that `field` names, if it names one.
pub open spec fn spec_access(song: SongInfosView, field: Seq<char>) -> Option<Seq<char>> {
    match Placeholder::spec_parse(field) {
        Some(placeholder) => Some(placeholder.spec_value(song)),
        None => None,
    }
}

/// Looks a field of the song up by the name that templates use for it, and
/// writes it out as text.
pub fn access_song_infos(song_infos: &SongInfos, field: &str) -> (text: Option<String>)
    ensures
        match text {
            Some(value) => spec_access(song_infos@, field@) == Some(value@),
            None => spec_access(song_infos@, field@) is None,
        },
{
    match Placeholder::parse(field) {
        Some(placeholder) => Some(placeholder.value(song_infos)),
        None => None,
    }
}

/// The name of a field is not empty and holds no `%`, so that it can
/// stand in a placeholder.
pub proof fn lemma_name_is_plain(field: Placeholder)
    ensures
        field.spec_name().len() > 0,
        forall|k: int| 0 <= k < field.spec_name().len() ==> field.spec_name()[k] != '%',
{
    reveal_strlit("art_image_url");
    reveal_strlit("track_number");
    reveal_strlit("disc_number");
    reveal_strlit("track_id");
    reveal_strlit("url");
    reveal_strlit("album");
    reveal_strlit("auto_rating");
    reveal_strlit("total_duration_microseconds");
    reveal_strlit("total_duration_formatted");
    reveal_strlit("title");
    reveal_strlit("album_artists");
    reveal_strlit("artists");
    reveal_strlit("playback_status");
}

/// No two fields share a name: each field is found under its own.
pub proof fn lemma_parse_name(field: Placeholder)
    ensures
        Placeholder::spec_parse(field.spec_name()) == Some(field),
{
    reveal_strlit("art_image_url");
    reveal_strlit("track_number");
    reveal_strlit("disc_number");
    reveal_strlit("track_id");
    reveal_strlit("url");
    reveal_strlit("album");
    reveal_strlit("auto_rating");
    reveal_strlit("total_duration_microseconds");
    reveal_strlit("total_duration_formatted");
    reveal_strlit("title");
    reveal_strlit("album_artists");
    reveal_strlit("artists");
    reveal_strlit("playback_status");
    assert("art_image_url"@.len() == 13 && "album_artists"@.len() == 13);
    assert("track_number"@.len() == 12);
    assert("disc_number"@.len() == 11 && "auto_rating"@.len() == 11);
    assert("track_id"@.len() == 8);
    assert("url"@.len() == 3);
    assert("album"@.len() == 5 && "title"@.len() == 5);
    assert("total_duration_microseconds"@.len() == 27);
    assert("total_duration_formatted"@.len() == 24);
    assert("artists"@.len() == 7);
    assert("playback_status"@.len() == 15);
    assert("art_image_url"@[1] != "album_artists"@[1]);
    assert("disc_number"@[0] != "auto_rating"@[0]);
    assert("album"@[0] != "title"@[0]);
}

} // verus!
