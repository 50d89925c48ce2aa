//! Templates: text in which `%name%` stands for a field of the song.

use crate::placeholder::{
    access_song_infos, lemma_name_is_plain, lemma_parse_name, spec_access, Placeholder,
};
use crate::scan::{
    find_placeholder, is_placeholder, lemma_find_placeholder_bounds,
    lemma_find_placeholder_leftmost, lemma_find_placeholder_shift, lemma_next_percent,
    lemma_next_percent_is, next_percent, scan_placeholder,
};
use crate::song::{SongInfos, SongInfosView};
use crate::text::{chars_of, joined, lemma_joined_few};
use vstd::prelude::*;

verus! {

/// A template names a field that the song does not have.
#[derive(Debug, PartialEq, Eq)]
pub struct UnknownPlaceholder {
    /// The name as the template gives it, without the `%` around it.
    pub tag: String,
}

/// What a template gives: the text that it stands for, or the first name in
/// it that is not the name of a field.
pub enum Rendering {
    Text(Seq<char>),
    Unknown(Seq<char>),
}

impl Rendering {
    /// The same outcome behind the text `done`.
    pub open spec fn after(self, done: Seq<char>) -> Rendering {
        match self {
            Rendering::Text(text) => Rendering::Text(done + text),
            Rendering::Unknown(tag) => Rendering::Unknown(tag),
        }
    }
}

/// What a template gives from `from` on: the text up to the first
/// placeholder, the value of the field that it names, and what the rest of
/// the template gives behind its closing `%`; the rest of the text as it is
/// where no placeholder is left. The first name that is not the name of a
/// field is the outcome where there is one.
pub open spec fn spec_render_from(song: SongInfosView, template: Seq<char>, from: int) -> Rendering
    decreases template.len() - from,
    when 0 <= from <= template.len()
{
    match find_placeholder(template, from) {
        None => Rendering::Text(template.subrange(from, template.len() as int)),
        Some((open, close)) => {
            let name = template.subrange(open + 1, close);
            match spec_access(song, name) {
                None => Rendering::Unknown(name),
                Some(value) => {
                    proof {
                        lemma_find_placeholder_bounds(template, from);
                    }
                    spec_render_from(song, template, close + 1).after(
                        template.subrange(from, open) + value,
                    )
                },
            }
        },
    }
}

/// What a template gives for a song.
pub open spec fn spec_render(song: SongInfosView, template: Seq<char>) -> Rendering {
    spec_render_from(song, template, 0)
}

/// Writes `template` out with every placeholder replaced by the field of
/// `song_infos` that it names. Text outside placeholders is kept as it is.
/// A placeholder whose name is not the name of a field is an error, and no
/// text comes back then.
pub fn render(song_infos: &SongInfos, template: &str) -> (output: Result<
    String,
    UnknownPlaceholder,
>)
    ensures
        match output {
            Ok(text) => spec_render(song_infos@, template@) == Rendering::Text(text@),
            Err(unknown) => spec_render(song_infos@, template@) == Rendering::Unknown(
                unknown.tag@,
            ),
        },
{
    let chars = chars_of(template);
    let mut output = String::new();
    let mut from: usize = 0;
    proof {
        lemma_after_nothing(spec_render(song_infos@, template@));
    }
    loop
        invariant
            chars@ == template@,
            from <= chars.len(),
            spec_render(song_infos@, template@) == spec_render_from(
                song_infos@,
                template@,
                from as int,
            ).after(output@),
        decreases chars.len() - from,
    {
        match scan_placeholder(&chars, from) {
            None => {
                let rest = template.substring_char(from, chars.len());
                output.append(rest);
                return Ok(output);
            },
            Some((open, close)) => {
                let before = template.substring_char(from, open);
                let name = template.substring_char(open + 1, close);
                match access_song_infos(song_infos, name) {
                    None => {
                        return Err(UnknownPlaceholder { tag: String::from_str(name) });
                    },
                    Some(value) => {
                        proof {
                            lemma_after_after(
                                spec_render_from(song_infos@, template@, close + 1),
                                before@ + value@,
                                output@,
                            );
                            assert(output@ + (before@ + value@) =~= output@ + before@ + value@);
                        }
                        output.append(before);
                        output.append(value.as_str());
                        from = close + 1;
                    },
                }
            },
        }
    }
}

/// Behind no text at all, an outcome is what it is.
pub proof fn lemma_after_nothing(outcome: Rendering)
    ensures
        outcome.after(Seq::empty()) == outcome,
{
    match outcome {
        Rendering::Text(text) => {
            assert(Seq::<char>::empty() + text =~= text);
        },
        Rendering::Unknown(_) => {},
    }
}

/// Putting an outcome behind one text and then behind another puts it
/// behind the two texts in a row.
pub proof fn lemma_after_after(outcome: Rendering, inner: Seq<char>, outer: Seq<char>)
    ensures
        outcome.after(inner).after(outer) == outcome.after(outer + inner),
{
    match outcome {
        Rendering::Text(text) => {
            assert(outer + (inner + text) =~= (outer + inner) + text);
        },
        Rendering::Unknown(_) => {},
    }
}

/// What a template gives behind a prefix does not depend on the prefix.
pub proof fn lemma_render_shift(
    song: SongInfosView,
    prefix: Seq<char>,
    rest: Seq<char>,
    from: int,
)
    requires
        0 <= from <= rest.len(),
    ensures
        spec_render_from(song, prefix + rest, prefix.len() + from) == spec_render_from(
            song,
            rest,
            from,
        ),
    decreases rest.len() - from,
{
    let whole = prefix + rest;
    let shift = prefix.len() as int;
    lemma_find_placeholder_shift(prefix, rest, from);
    lemma_find_placeholder_bounds(rest, from);
    match find_placeholder(rest, from) {
        Some((open, close)) => {
            assert(whole.subrange(shift + open + 1, shift + close) =~= rest.subrange(
                open + 1,
                close,
            ));
            assert(whole.subrange(shift + from, shift + open) =~= rest.subrange(from, open));
            lemma_render_shift(song, prefix, rest, close + 1);
        },
        None => {
            assert(whole.subrange(shift + from, whole.len() as int) =~= rest.subrange(
                from,
                rest.len() as int,
            ));
        },
    }
}

/// Text without a `%` is passed over: what the template gives from `from`
/// on is that text and then what it gives from `to` on.
pub proof fn lemma_render_skips_plain(song: SongInfosView, template: Seq<char>, from: int, to: int)
    requires
        0 <= from <= to <= template.len(),
        forall|k: int| from <= k < to ==> template[k] != '%',
    ensures
        spec_render_from(song, template, from) == spec_render_from(song, template, to).after(
            template.subrange(from, to),
        ),
{
    lemma_next_percent(template, to);
    lemma_next_percent_is(template, from, next_percent(template, to));
    assert(find_placeholder(template, from) == find_placeholder(template, to));
    lemma_find_placeholder_bounds(template, to);
    match find_placeholder(template, to) {
        Some((open, close)) => {
            let name = template.subrange(open + 1, close);
            match spec_access(song, name) {
                Some(value) => {
                    lemma_after_after(
                        spec_render_from(song, template, close + 1),
                        template.subrange(to, open) + value,
                        template.subrange(from, to),
                    );
                    assert(template.subrange(from, to) + (template.subrange(to, open) + value)
                        =~= template.subrange(from, open) + value);
                },
                None => {},
            }
        },
        None => {
            assert(template.subrange(from, template.len() as int) =~= template.subrange(from, to)
                + template.subrange(to, template.len() as int));
        },
    }
}

/// Text without a `%` in front of a template comes out in front of what
/// the template gives.
pub proof fn lemma_render_literal_first(song: SongInfosView, literal: Seq<char>, rest: Seq<char>)
    requires
        forall|k: int| 0 <= k < literal.len() ==> literal[k] != '%',
    ensures
        spec_render(song, literal + rest) == spec_render(song, rest).after(literal),
{
    let template = literal + rest;
    lemma_render_skips_plain(song, template, 0, literal.len() as int);
    lemma_render_shift(song, literal, rest, 0);
    assert(template.subrange(0, literal.len() as int) =~= literal);
}

/// A placeholder in front of a template is replaced by the text of the
/// field that it names, and what the rest of the template gives follows.
/// Where the name is not the name of a field, the name is the outcome.
pub proof fn lemma_render_placeholder_first(song: SongInfosView, name: Seq<char>, rest: Seq<char>)
    requires
        name.len() > 0,
        forall|k: int| 0 <= k < name.len() ==> name[k] != '%',
    ensures
        spec_render(song, seq!['%'] + name + seq!['%'] + rest) == match spec_access(song, name) {
            Some(value) => spec_render(song, rest).after(value),
            None => Rendering::Unknown(name),
        },
{
    let head = seq!['%'] + name + seq!['%'];
    let template = head + rest;
    let end = head.len() as int;
    lemma_next_percent_is(template, 0, 0);
    lemma_next_percent_is(template, 1, end - 1);
    assert(find_placeholder(template, 0) == Some((0int, end - 1)));
    assert(template.subrange(1, end - 1) =~= name);
    lemma_render_shift(song, head, rest, 0);
    match spec_access(song, name) {
        Some(value) => {
            assert(template.subrange(0, 0) + value =~= value);
        },
        None => {},
    }
}

/// A template that is one placeholder and nothing else gives the text of
/// the field that the placeholder names, and fails on a name that is not
/// the name of a field.
pub proof fn lemma_render_placeholder_alone(song: SongInfosView, name: Seq<char>)
    requires
        name.len() > 0,
        forall|k: int| 0 <= k < name.len() ==> name[k] != '%',
    ensures
        spec_render(song, seq!['%'] + name + seq!['%']) == match spec_access(song, name) {
            Some(value) => Rendering::Text(value),
            None => Rendering::Unknown(name),
        },
{
    let nothing = Seq::<char>::empty();
    lemma_render_placeholder_first(song, name, nothing);
    assert(seq!['%'] + name + seq!['%'] + nothing =~= seq!['%'] + name + seq!['%']);
    assert(find_placeholder(nothing, 0) is None);
    assert(spec_render(song, nothing) == Rendering::Text(nothing.subrange(0, 0)));
    match spec_access(song, name) {
        Some(value) => {
            assert(value + nothing.subrange(0, 0) =~= value);
        },
        None => {},
    }
}

/// A template that is the placeholder of a field and nothing else gives
/// the text of that field.
pub proof fn lemma_render_field(song: SongInfosView, field: Placeholder)
    ensures
        spec_render(song, seq!['%'] + field.spec_name() + seq!['%']) == Rendering::Text(
            field.spec_value(song),
        ),
{
    lemma_name_is_plain(field);
    lemma_parse_name(field);
    lemma_render_placeholder_alone(song, field.spec_name());
}

/// The template `%title%` gives the title of the song, whatever the song.
pub proof fn lemma_render_title(song: SongInfosView)
    ensures
        spec_render(song, "%title%"@) == Rendering::Text(song.title),
{
    reveal_strlit("%title%");
    reveal_strlit("title");
    assert("%title%"@ =~= seq!['%'] + "title"@ + seq!['%']);
    lemma_render_field(song, Placeholder::Title);
}

/// The template `%album_artists%` gives the album's artists joined by
/// " feat. ": the empty text where there is none, the artist alone where
/// there is one, and the first, " feat. " and the second where there are
/// two.
pub proof fn lemma_render_album_artists(song: SongInfosView, first: Seq<char>, second: Seq<char>)
    ensures
        spec_render(song, "%album_artists%"@) == Rendering::Text(
            joined(song.album_artists, " feat. "@),
        ),
        song.album_artists.len() == 0 ==> spec_render(song, "%album_artists%"@)
            == Rendering::Text(Seq::empty()),
        song.album_artists == seq![first] ==> spec_render(song, "%album_artists%"@)
            == Rendering::Text(first),
        song.album_artists == seq![first, second] ==> spec_render(song, "%album_artists%"@)
            == Rendering::Text(first + " feat. "@ + second),
{
    reveal_strlit("%album_artists%");
    reveal_strlit("album_artists");
    assert("%album_artists%"@ =~= seq!['%'] + "album_artists"@ + seq!['%']);
    lemma_render_field(song, Placeholder::AlbumArtists);
    lemma_joined_few(first, second, " feat. "@);
    if song.album_artists.len() == 0 {
        assert(song.album_artists =~= Seq::<Seq<char>>::empty());
    }
}

/// Text in which no placeholder opens comes out as it is: a `%` that
/// nothing closes, or that another `%` follows at once, is ordinary text.
pub proof fn lemma_render_without_placeholder(song: SongInfosView, template: Seq<char>, from: int)
    requires
        0 <= from <= template.len(),
        forall|open: int, close: int| from <= open ==> !is_placeholder(template, open, close),
    ensures
        spec_render_from(song, template, from) == Rendering::Text(
            template.subrange(from, template.len() as int),
        ),
{
    lemma_find_placeholder_leftmost(template, from);
    match find_placeholder(template, from) {
        Some((open, close)) => {
            assert(is_placeholder(template, open, close));
        },
        None => {},
    }
}

/// A template with a single `%` in it has no placeholder: it comes out as
/// it is, the `%` included.
pub proof fn lemma_render_unclosed(song: SongInfosView, before: Seq<char>, after: Seq<char>)
    requires
        forall|k: int| 0 <= k < before.len() ==> before[k] != '%',
        forall|k: int| 0 <= k < after.len() ==> after[k] != '%',
    ensures
        spec_render(song, before + seq!['%'] + after) == Rendering::Text(
            before + seq!['%'] + after,
        ),
{
    let template = before + seq!['%'] + after;
    assert forall|open: int, close: int| 0 <= open implies !is_placeholder(
        template,
        open,
        close,
    ) by {
        if is_placeholder(template, open, close) {
            assert(open == before.len());
            assert(close == before.len());
        }
    }
    lemma_render_without_placeholder(song, template, 0);
    assert(template.subrange(0, template.len() as int) =~= template);
}

} // verus!
