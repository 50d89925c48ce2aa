use spotify_infos::property::Double;
use spotify_infos::placeholder::Placeholder;
use spotify_infos::template::UnknownPlaceholder;
use spotify_infos::{access_song_infos, render, SongInfos};

fn song() -> SongInfos {
    SongInfos {
        artist_image_url: "https://i.scdn.co/image/cover".to_string(),
        track_number: 7,
        disc_number: -1,
        track_id: "spotify:track:42".to_string(),
        url: "https://open.spotify.com/track/42".to_string(),
        album: "Album".to_string(),
        auto_rating: Double { text: 0.25f64.to_string() },
        total_duration_microseconds: 61_000_000,
        total_duration_formatted: "00:01:01:00".to_string(),
        title: "Song".to_string(),
        album_artists: Vec::new(),
        artists: vec!["A".to_string(), "B".to_string()],
        playback_status: "Playing".to_string(),
    }
}

fn unknown(tag: &str) -> UnknownPlaceholder {
    UnknownPlaceholder { tag: tag.to_string() }
}

#[test]
fn title_placeholder_gives_the_title() {
    let titles = ["Song", "", "100% live", "Ünïcødé ♫", "a\nb", "%title%"];
    for title in titles {
        let mut infos = song();
        infos.title = title.to_string();
        assert_eq!(render(&infos, "%title%").unwrap(), title);
    }
}

#[test]
fn album_artists_of_an_empty_list_is_empty() {
    assert_eq!(render(&song(), "%album_artists%").unwrap(), "");
}

#[test]
fn album_artists_are_joined_by_feat() {
    let mut infos = song();
    infos.album_artists = vec!["A".to_string(), "B".to_string()];
    assert_eq!(render(&infos, "%album_artists%").unwrap(), "A feat. B");
    infos.album_artists = vec!["A".to_string()];
    assert_eq!(render(&infos, "%album_artists%").unwrap(), "A");
    infos.album_artists = vec!["A".to_string(), "B".to_string(), "C".to_string()];
    assert_eq!(render(&infos, "%album_artists%").unwrap(), "A feat. B feat. C");
}

#[test]
fn unmatched_percent_is_left_as_it_is() {
    assert_eq!(render(&song(), "100% done").unwrap(), "100% done");
    assert_eq!(render(&song(), "%").unwrap(), "%");
    assert_eq!(render(&song(), "%title").unwrap(), "%title");
    assert_eq!(render(&song(), "title%").unwrap(), "title%");
    assert_eq!(render(&song(), "%title% at 100%").unwrap(), "Song at 100%");
    assert_eq!(render(&song(), "%title%%album").unwrap(), "Song%album");
}

#[test]
fn doubled_percent_opens_nothing() {
    assert_eq!(render(&song(), "%%").unwrap(), "%%");
    assert_eq!(render(&song(), "%%%").unwrap(), "%%%");
    assert_eq!(render(&song(), "%%%%").unwrap(), "%%%%");
    assert_eq!(render(&song(), "%%title%").unwrap(), "%Song");
    assert_eq!(render(&song(), "%title%%").unwrap(), "Song%");
    assert_eq!(render(&song(), "%%title%%").unwrap(), "%Song%");
}

#[test]
fn text_without_percent_is_kept() {
    assert_eq!(render(&song(), "").unwrap(), "");
    assert_eq!(render(&song(), "now playing").unwrap(), "now playing");
    assert_eq!(render(&song(), "♫ été ♫").unwrap(), "♫ été ♫");
}

#[test]
fn placeholders_and_text_in_turn() {
    assert_eq!(render(&song(), "%artists% - %title%").unwrap(), "A feat. B - Song");
    assert_eq!(
        render(&song(), "[%playback_status%] %title% (%album%)").unwrap(),
        "[Playing] Song (Album)"
    );
    assert_eq!(render(&song(), "%title%%title%").unwrap(), "SongSong");
    assert_eq!(render(&song(), "♫ %title% ♫ %album% ♫").unwrap(), "♫ Song ♫ Album ♫");
}

#[test]
fn text_between_two_placeholders_is_not_a_name() {
    // The second `%` closes the first placeholder, so ` - ` is never taken
    // for a name.
    assert_eq!(render(&song(), "%title% - %album%").unwrap(), "Song - Album");
}

#[test]
fn value_is_not_scanned_again() {
    let mut infos = song();
    infos.title = "%album%".to_string();
    assert_eq!(render(&infos, "%title% %album%").unwrap(), "%album% Album");
}

#[test]
fn every_placeholder_has_its_value() {
    let infos = song();
    assert_eq!(render(&infos, "%art_image_url%").unwrap(), "https://i.scdn.co/image/cover");
    assert_eq!(render(&infos, "%track_number%").unwrap(), "7");
    assert_eq!(render(&infos, "%disc_number%").unwrap(), "-1");
    assert_eq!(render(&infos, "%track_id%").unwrap(), "spotify:track:42");
    assert_eq!(render(&infos, "%url%").unwrap(), "https://open.spotify.com/track/42");
    assert_eq!(render(&infos, "%album%").unwrap(), "Album");
    assert_eq!(render(&infos, "%auto_rating%").unwrap(), "0.25");
    assert_eq!(render(&infos, "%total_duration_microseconds%").unwrap(), "61000000");
    assert_eq!(render(&infos, "%total_duration_formatted%").unwrap(), "00:01:01:00");
    assert_eq!(render(&infos, "%title%").unwrap(), "Song");
    assert_eq!(render(&infos, "%album_artists%").unwrap(), "");
    assert_eq!(render(&infos, "%artists%").unwrap(), "A feat. B");
    assert_eq!(render(&infos, "%playback_status%").unwrap(), "Playing");
}

#[test]
fn unknown_placeholder_is_an_error_that_names_the_tag() {
    assert_eq!(render(&song(), "%genre%").unwrap_err(), unknown("genre"));
    assert_eq!(render(&song(), "%artist_image_url%").unwrap_err(), unknown("artist_image_url"));
    assert_eq!(render(&song(), "%Title%").unwrap_err(), unknown("Title"));
    assert_eq!(render(&song(), "% title%").unwrap_err(), unknown(" title"));
    assert_eq!(render(&song(), "%title %").unwrap_err(), unknown("title "));
    assert_eq!(render(&song(), "50% off, 20% more").unwrap_err(), unknown(" off, 20"));
}

#[test]
fn first_unknown_placeholder_is_reported() {
    assert_eq!(render(&song(), "%title% %one% %two%").unwrap_err(), unknown("one"));
    assert_eq!(render(&song(), "%two%%one%").unwrap_err(), unknown("two"));
}

#[test]
fn access_by_name() {
    let infos = song();
    assert_eq!(access_song_infos(&infos, "title"), Some("Song".to_string()));
    assert_eq!(access_song_infos(&infos, "artists"), Some("A feat. B".to_string()));
    assert_eq!(access_song_infos(&infos, "track_number"), Some("7".to_string()));
    assert_eq!(access_song_infos(&infos, "auto_rating"), Some("0.25".to_string()));
    assert_eq!(
        access_song_infos(&infos, "total_duration_microseconds"),
        Some("61000000".to_string())
    );
    assert_eq!(access_song_infos(&infos, ""), None);
    assert_eq!(access_song_infos(&infos, "titles"), None);
    assert_eq!(access_song_infos(&infos, "%title%"), None);
    assert_eq!(access_song_infos(&infos, "artist_image_url"), None);
}

#[test]
fn names_and_placeholders_match() {
    let all = [
        (Placeholder::ArtImageUrl, "art_image_url"),
        (Placeholder::TrackNumber, "track_number"),
        (Placeholder::DiscNumber, "disc_number"),
        (Placeholder::TrackId, "track_id"),
        (Placeholder::Url, "url"),
        (Placeholder::Album, "album"),
        (Placeholder::AutoRating, "auto_rating"),
        (Placeholder::TotalDurationMicroseconds, "total_duration_microseconds"),
        (Placeholder::TotalDurationFormatted, "total_duration_formatted"),
        (Placeholder::Title, "title"),
        (Placeholder::AlbumArtists, "album_artists"),
        (Placeholder::Artists, "artists"),
        (Placeholder::PlaybackStatus, "playback_status"),
    ];
    for (placeholder, name) in all {
        assert_eq!(placeholder.name(), name);
        assert_eq!(Placeholder::parse(name), Some(placeholder));
    }
    assert_eq!(Placeholder::parse("length"), None);
    assert_eq!(Placeholder::parse("TITLE"), None);
}

#[test]
fn value_of_a_placeholder() {
    let infos = song();
    assert_eq!(Placeholder::Title.value(&infos), "Song");
    assert_eq!(Placeholder::DiscNumber.value(&infos), "-1");
    assert_eq!(Placeholder::Artists.value(&infos), "A feat. B");
    assert_eq!(Placeholder::AlbumArtists.value(&infos), "");
}
