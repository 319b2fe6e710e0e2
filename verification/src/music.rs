//! The music commands' decisions and what they show: which voice channel to
//! join, whether a query can be searched, how a queued track is presented,
//! and the selection menu of search results.

use vstd::prelude::*;
use rand::Rng;
use rand::SeedableRng;
use crate::error::Error;
use crate::text::{
    all_digits, dec, decimal, digits_value, lemma_dec_digits, lemma_pad2_digits, pad2, parsed_index,
    push_decimal, push_pad2, starts_with,
};

verus! {

/// What the bot reads of a track that Lavalink found.
#[derive(Debug)]
pub struct TrackInfo {
    pub title: String,
    pub author: String,
    pub identifier: String,
    pub uri: String,
    /// Length in milliseconds.
    pub length: u64,
}

/// The reply that announces a queued track: an embed and a message text.
#[derive(Debug)]
pub struct TrackReply {
    pub title: String,
    pub colour: u32,
    pub thumbnail: String,
    pub url: String,
    pub footer_text: String,
    pub footer_icon: String,
    pub description: String,
    pub content: String,
}

/// One entry of the search results menu.
#[derive(Debug)]
pub struct MenuOption {
    pub label: String,
    pub description: String,
    pub value: String,
}

/// The menu that lets the author pick one of the search results.
#[derive(Debug)]
pub struct SelectMenu {
    pub custom_id: String,
    pub min_values: u64,
    pub max_values: u64,
    pub options: Vec<MenuOption>,
}

/// A channel that the author named in a command.
#[derive(Debug, Clone, Copy, PartialEq, Eq, Structural)]
pub struct RequestedChannel {
    pub id: u64,
    pub is_voice: bool,
}

/// What `play` does once the search has answered.
#[derive(Debug, Clone, Copy, PartialEq, Eq, Structural)]
pub enum PlayPlan {
    /// Nothing was found: say so, and play nothing.
    NoResults,
    /// Queue the first result; `playlist_hint` asks to first tell the author
    /// that a URL gave several tracks and `playlist` plays them all.
    PlayFirst { playlist_hint: bool },
}

/// The most results that the menu offers.
pub const MAX_MENU_OPTIONS: usize = 25;

// ----------------------------------------------------------------------------
// Track length

/// The whole seconds of a length in milliseconds.
pub open spec fn length_seconds(length_ms: nat) -> nat {
    length_ms / 1000
}

/// The length as shown: `h:mm:ss` from one hour on, else `mm:ss`.
pub open spec fn length_text(length_ms: nat) -> Seq<char> {
    let secs = length_seconds(length_ms);
    let minutes = secs % 3600 / 60;
    let seconds = secs % 3600 % 60;
    if secs >= 3600 {
        dec(secs / 3600) + seq![':'] + pad2(minutes) + seq![':'] + pad2(seconds)
    } else {
        pad2(minutes) + seq![':'] + pad2(seconds)
    }
}

/// The length of a track as the reply shows it.
pub fn track_length_text(length_ms: u64) -> (s: String)
    ensures
        s@ == length_text(length_ms as nat),
        reads_as_clock(s@, length_ms as nat / 1000),
{
    let length = length_ms / 1000;
    let minutes = length % 3600 / 60;
    let seconds = length % 3600 % 60;
    let mut s = String::new();
    if length >= 3600 {
        push_decimal(&mut s, length / 3600);
        s.push(':');
    }
    push_pad2(&mut s, minutes);
    s.push(':');
    push_pad2(&mut s, seconds);
    proof {
        let secs = length_seconds(length_ms as nat);
        assert(secs == length);
        if length >= 3600 {
            assert(s@ =~= dec(secs / 3600) + seq![':'] + pad2(minutes as nat) + seq![':'] + pad2(seconds as nat));
        } else {
            assert(s@ =~= pad2(minutes as nat) + seq![':'] + pad2(seconds as nat));
        }
        lemma_length_text_reads_as_clock(length_ms as nat);
    }
    s
}

/// The hours, minutes and seconds that the length text shows add up to the
/// track's whole seconds, and minutes and seconds stay below sixty.
pub proof fn lemma_length_parts(length_ms: nat)
    ensures
        ({
            let secs = length_seconds(length_ms);
            &&& (secs / 3600) * 3600 + (secs % 3600 / 60) * 60 + secs % 3600 % 60 == secs
            &&& secs % 3600 / 60 < 60
            &&& secs % 3600 % 60 < 60
        }),
{
    let secs = length_seconds(length_ms);
    let r = secs % 3600;
    assert(secs == (secs / 3600) * 3600 + r);
    assert(r == (r / 60) * 60 + r % 60);
    assert(r % 60 == secs % 3600 % 60);
}

/// Whether `t` reads as a clock showing `secs` seconds: it ends in two
/// two-digit fields `mm:ss` below sixty; below an hour that is all, and
/// `mm * 60 + ss == secs`; from an hour on an hours field and `:` come before
/// them, and `hh * 3600 + mm * 60 + ss == secs`.
pub open spec fn reads_as_clock(t: Seq<char>, secs: nat) -> bool {
    let n = t.len() as int;
    let mm = t.subrange(n - 5, n - 3);
    let ss = t.subrange(n - 2, n);
    &&& n >= 5
    &&& t[n - 3] == ':'
    &&& all_digits(mm)
    &&& all_digits(ss)
    &&& digits_value(mm) < 60
    &&& digits_value(ss) < 60
    &&& (n == 5) == (secs < 3600)
    &&& if n == 5 {
        digits_value(mm) * 60 + digits_value(ss) == secs
    } else {
        let hh = t.take(n - 6);
        &&& n >= 7
        &&& t[n - 6] == ':'
        &&& all_digits(hh)
        &&& digits_value(hh) * 3600 + digits_value(mm) * 60 + digits_value(ss) == secs
    }
}

/// The length text of a track reads, field by field, as the track's whole
/// seconds: minutes before seconds, both below sixty, hours only from an
/// hour on.
pub proof fn lemma_length_text_reads_as_clock(length_ms: nat)
    ensures
        reads_as_clock(length_text(length_ms), length_seconds(length_ms)),
{
    let secs = length_seconds(length_ms);
    let minutes = secs % 3600 / 60;
    let seconds = secs % 3600 % 60;
    lemma_length_parts(length_ms);
    lemma_pad2_digits(minutes);
    lemma_pad2_digits(seconds);
    let p = pad2(minutes);
    let q = pad2(seconds);
    let t = length_text(length_ms);
    let n = t.len() as int;
    if secs >= 3600 {
        let d = dec(secs / 3600);
        lemma_dec_digits(secs / 3600);
        assert(t == d + seq![':'] + p + seq![':'] + q);
        assert(n == d.len() + 6);
        assert(t.subrange(n - 5, n - 3) =~= p);
        assert(t.subrange(n - 2, n) =~= q);
        assert(t.take(n - 6) =~= d);
        assert(t[n - 3] == ':');
        assert(t[n - 6] == ':');
    } else {
        assert(t == p + seq![':'] + q);
        assert(n == 5);
        assert(t.subrange(n - 5, n - 3) =~= p);
        assert(t.subrange(n - 2, n) =~= q);
        assert(t[n - 3] == ':');
    }
}

// ----------------------------------------------------------------------------
// Queued track reply

/// The footer icon: the author's avatar, or Discord's default one.
pub open spec fn icon_of(avatar_url: Option<String>, default_avatar_url: String) -> Seq<char> {
    match avatar_url {
        Some(u) => u@,
        None => default_avatar_url@,
    }
}

/// `r` is the reply that announces `info`, queued at `position` by the author
/// with tag `author_tag`, in colour `colour`.
pub open spec fn is_track_reply(
    r: TrackReply,
    info: TrackInfo,
    colour: u32,
    position: nat,
    author_tag: Seq<char>,
    avatar_url: Option<String>,
    default_avatar_url: String,
) -> bool {
    &&& r.title@ == info.title@
    &&& r.colour == colour
    &&& r.thumbnail@ == "https://i.ytimg.com/vi/"@ + info.identifier@ + "/default.jpg"@
    &&& r.url@ == info.uri@
    &&& r.footer_text@ == "Submitted by "@ + author_tag
    &&& r.footer_icon@ == icon_of(avatar_url, default_avatar_url)
    &&& r.description@ == "• **Uploader**: "@ + info.author@ + "\n• **Length**:   "@ + length_text(info.length as nat)
    &&& r.content@ == "Added to queue, with position "@ + dec(position)
}

/// Builds `a` followed by `b` and `c`.
fn concat3(a: &str, b: &str, c: &str) -> (s: String)
    ensures
        s@ == a@ + b@ + c@,
{
    let mut s = String::from_str(a);
    s.append(b);
    s.append(c);
    s
}

/// The reply for a track queued at `position`, in the given colour.
pub fn track_reply(
    info: &TrackInfo,
    colour: u32,
    position: usize,
    author_tag: &str,
    avatar_url: Option<String>,
    default_avatar_url: String,
) -> (r: TrackReply)
    ensures
        is_track_reply(r, *info, colour, position as nat, author_tag@, avatar_url, default_avatar_url),
        r.colour == colour,
        r.title@ == info.title@,
        r.url@ == info.uri@,
        r.footer_text@ == "Submitted by "@ + author_tag@,
        r.content@.take(30) == "Added to queue, with position "@,
        parsed_index(r.content@.skip(30)) == Some(position),
{
    let ghost avatar = avatar_url;
    let ghost default_url = default_avatar_url;
    let thumbnail = concat3("https://i.ytimg.com/vi/", info.identifier.as_str(), "/default.jpg");
    let mut footer_text = String::from_str("Submitted by ");
    footer_text.append(author_tag);
    let footer_icon = match avatar_url {
        Some(u) => u,
        None => default_avatar_url,
    };
    let length = track_length_text(info.length);
    let mut description = concat3("• **Uploader**: ", info.author.as_str(), "\n• **Length**:   ");
    description.append(length.as_str());
    let mut content = String::from_str("Added to queue, with position ");
    push_decimal(&mut content, position as u64);
    let r = TrackReply {
        title: info.title.clone(),
        colour,
        thumbnail,
        url: info.uri.clone(),
        footer_text,
        footer_icon,
        description,
        content,
    };
    proof {
        lemma_track_reply_shows_the_track(r, *info, colour, position, author_tag@, avatar, default_url);
    }
    r
}

/// The reply for a track queued at `position`, in the colour that a
/// generator seeded with the track's length draws.
pub fn queued_track_reply(
    info: &TrackInfo,
    position: usize,
    author_tag: &str,
    avatar_url: Option<String>,
    default_avatar_url: String,
) -> (r: TrackReply)
    ensures
        r.colour == seeded_colour(info.length),
        r.colour < 0xFFFFFF,
        is_track_reply(r, *info, r.colour, position as nat, author_tag@, avatar_url, default_avatar_url),
        r.title@ == info.title@,
        r.url@ == info.uri@,
        r.footer_text@ == "Submitted by "@ + author_tag@,
        r.content@.take(30) == "Added to queue, with position "@,
        parsed_index(r.content@.skip(30)) == Some(position),
{
    let colour = track_colour(info.length);
    track_reply(info, colour, position, author_tag, avatar_url, default_avatar_url)
}

/// The reply shows the track as it is: the embed's title is the track's title
/// and its link the track's URI, unchanged; the colour is the one given; the
/// footer names the author's tag; and the message ends in the queue position,
/// which reads back as that position.
pub proof fn lemma_track_reply_shows_the_track(
    r: TrackReply,
    info: TrackInfo,
    colour: u32,
    position: usize,
    author_tag: Seq<char>,
    avatar_url: Option<String>,
    default_avatar_url: String,
)
    requires
        is_track_reply(r, info, colour, position as nat, author_tag, avatar_url, default_avatar_url),
    ensures
        r.title@ == info.title@,
        r.url@ == info.uri@,
        r.colour == colour,
        r.footer_text@ == "Submitted by "@ + author_tag,
        r.content@.take(30) == "Added to queue, with position "@,
        parsed_index(r.content@.skip(30)) == Some(position),
{
    reveal_strlit("Added to queue, with position ");
    let prefix = "Added to queue, with position "@;
    assert(prefix.len() == 30);
    assert(r.content@.take(30) =~= prefix);
    assert(r.content@.skip(30) =~= dec(position as nat));
    crate::text::lemma_parse_decimal_round_trip(position);
}

/// The colour that `rand`'s `StdRng`, seeded by `seed_from_u64(seed)`, draws
/// first with `gen_range(0..0xFFFFFF)`.
pub uninterp spec fn seeded_colour(seed: u64) -> u32;

/// The colour of a track's embed: the number below `0xFFFFFF` that a
/// generator seeded with `seed` draws first.
pub fn track_colour(seed: u64) -> (c: u32)
    ensures
        c == seeded_colour(seed),
        c < 0xFFFFFF,
{
    draw_seeded_colour(seed)
}

/// `StdRng::seed_from_u64(seed)` followed by `gen_range(0..0xFFFFFF)` (rand).
/// rand documents `StdRng` as deterministic, so the result is a function of
/// `seed` (named `seeded_colour`), and `gen_range` as returning a value of the
/// half-open range. Which number that is, is not stated.
#[verifier::external_body]
fn draw_seeded_colour(seed: u64) -> (c: u32)
    ensures
        c == seeded_colour(seed),
        c < 0xFFFFFF,
{
    rand::rngs::StdRng::seed_from_u64(seed).gen_range(0x0u32..0xFFFFFFu32)
}

/// The queue position shown for a newly queued track: the last place of the
/// guild's queue where Lavalink has a node for the guild, else 1.
pub fn queue_position(queue_len: Option<usize>) -> (p: usize)
    requires
        queue_len matches Some(n) ==> n >= 1,
    ensures
        p == match queue_len {
            Some(n) => (n - 1) as usize,
            None => 1,
        },
{
    match queue_len {
        Some(n) => n - 1,
        None => 1,
    }
}

// ----------------------------------------------------------------------------
// Search results menu

/// `o` is the menu entry for result `i`, whose track is `info`.
pub open spec fn is_menu_option(o: MenuOption, i: nat, info: TrackInfo) -> bool {
    &&& o.label@ == info.title@
    &&& o.description@ == dec(i) + ". "@ + info.author@
    &&& o.value@ == dec(i)
}

/// How many results the menu offers of `n`.
pub open spec fn menu_len(n: nat) -> nat {
    if n < 25 { n } else { 25 }
}

/// `opts` are the menu entries for `infos`: the first 25 results, in order.
pub open spec fn are_menu_options(opts: Seq<MenuOption>, infos: Seq<TrackInfo>) -> bool {
    &&& opts.len() == menu_len(infos.len())
    &&& forall|i: int| 0 <= i < opts.len() ==> is_menu_option(#[trigger] opts[i], i as nat, infos[i])
}

/// The menu entries for the search results: at most the first 25, each with
/// the track's title, its number and author, and its number as value.
pub fn menu_options(infos: &Vec<TrackInfo>) -> (opts: Vec<MenuOption>)
    ensures
        are_menu_options(opts@, infos@),
        opts@.len() == if infos@.len() < 25 { infos@.len() } else { 25 },
        forall|i: int| 0 <= i < opts@.len() ==> (#[trigger] opts@[i]).label@ == infos@[i].title@,
        forall|i: int| 0 <= i < opts@.len() ==> parsed_index((#[trigger] opts@[i]).value@) == Some(i as usize),
        forall|i: int| 0 <= i < opts@.len() ==> (#[trigger] opts@[i]).description@
            == opts@[i].value@ + ". "@ + infos@[i].author@,
{
    let mut opts: Vec<MenuOption> = Vec::new();
    let n = infos.len();
    let mut i: usize = 0;
    while i < n && i < MAX_MENU_OPTIONS
        invariant
            n == infos@.len(),
            i <= n,
            i <= 25,
            opts@.len() == i,
            forall|j: int| 0 <= j < i ==> is_menu_option(#[trigger] opts@[j], j as nat, infos@[j]),
        decreases n - i,
    {
        let info = &infos[i];
        let value = decimal(i as u64);
        let mut description = decimal(i as u64);
        description.append(". ");
        description.append(info.author.as_str());
        let opt = MenuOption { label: info.title.clone(), description, value };
        opts.push(opt);
        i = i + 1;
    }
    proof {
        lemma_menu_entries_show_their_tracks(opts@, infos@);
    }
    opts
}

/// Whether `s` is the text of a random (version 4) UUID, as `Uuid`'s
/// `Display` writes it: 36 characters, lower-case hex digits in groups of
/// 8-4-4-4-12 joined by `-`, with version digit `4` and variant digit
/// `8`, `9`, `a` or `b`.
pub open spec fn is_uuid_v4_text(s: Seq<char>) -> bool {
    &&& s.len() == 36
    &&& forall|i: int| 0 <= i < 36 ==> {
        if i == 8 || i == 13 || i == 18 || i == 23 {
            #[trigger] s[i] == '-'
        } else {
            ('0' <= s[i] <= '9') || ('a' <= s[i] <= 'f')
        }
    }
    &&& s[14] == '4'
    &&& (s[19] == '8' || s[19] == '9' || s[19] == 'a' || s[19] == 'b')
}

/// `Uuid::new_v4` (uuid), rendered with `to_string`: a random version 4 UUID
/// in its hyphenated lower-case form. Which UUID comes is not stated; the
/// call panics only where the system's random source fails.
#[verifier::external_body]
fn new_menu_id() -> (s: String)
    ensures
        is_uuid_v4_text(s@),
{
    uuid::Uuid::new_v4().to_string()
}

/// The menu offering the search results, under a fresh random id, from which
/// exactly one entry is to be picked.
pub fn search_menu(infos: &Vec<TrackInfo>) -> (m: SelectMenu)
    ensures
        is_uuid_v4_text(m.custom_id@),
        m.min_values == 1,
        m.max_values == 1,
        are_menu_options(m.options@, infos@),
        m.options@.len() == if infos@.len() < 25 { infos@.len() } else { 25 },
        forall|i: int| 0 <= i < m.options@.len() ==> (#[trigger] m.options@[i]).label@ == infos@[i].title@,
        forall|i: int| 0 <= i < m.options@.len() ==> parsed_index((#[trigger] m.options@[i]).value@) == Some(i as usize),
{
    let custom_id = new_menu_id();
    SelectMenu { custom_id, min_values: 1, max_values: 1, options: menu_options(infos) }
}

/// The menu shows the first results, at most 25: each entry is labelled with
/// its track's title, unchanged; its value reads back as its own index; and its
/// description is that value, `. ` and the track's author.
pub proof fn lemma_menu_entries_show_their_tracks(opts: Seq<MenuOption>, infos: Seq<TrackInfo>)
    requires
        are_menu_options(opts, infos),
    ensures
        opts.len() == if infos.len() < 25 { infos.len() } else { 25 },
        forall|i: int| 0 <= i < opts.len() ==> (#[trigger] opts[i]).label@ == infos[i].title@,
        forall|i: int| 0 <= i < opts.len() ==> parsed_index((#[trigger] opts[i]).value@) == Some(i as usize),
        forall|i: int| 0 <= i < opts.len() ==> (#[trigger] opts[i]).description@
            == opts[i].value@ + ". "@ + infos[i].author@,
{
    assert forall|i: int| 0 <= i < opts.len() implies parsed_index((#[trigger] opts[i]).value@) == Some(i as usize) by {
        lemma_menu_values_select_their_track(opts, infos, i);
    }
    assert forall|i: int| 0 <= i < opts.len() implies (#[trigger] opts[i]).label@ == infos[i].title@ by {
        assert(is_menu_option(opts[i], i as nat, infos[i]));
    }
    assert forall|i: int| 0 <= i < opts.len() implies (#[trigger] opts[i]).description@
        == opts[i].value@ + ". "@ + infos[i].author@ by {
        assert(is_menu_option(opts[i], i as nat, infos[i]));
    }
}

/// The value of each menu entry reads back, as the interaction returns it, as
/// the index of that entry's track.
pub proof fn lemma_menu_values_select_their_track(opts: Seq<MenuOption>, infos: Seq<TrackInfo>, i: int)
    requires
        are_menu_options(opts, infos),
        0 <= i < opts.len(),
    ensures
        i < infos.len(),
        parsed_index(opts[i].value@) == Some(i as usize),
{
    assert(is_menu_option(opts[i], i as nat, infos[i]));
    assert(i <= 25);
    crate::text::lemma_parse_decimal_round_trip(i as usize);
}

// ----------------------------------------------------------------------------
// Command decisions and texts

/// A query must not be empty.
pub fn check_query(query: &str) -> (r: Result<(), Error>)
    ensures
        r is Ok <==> query@.len() > 0,
        r matches Err(e) ==> (e matches Error::RequiredArgument(why) && why@ == "Missing the search query or URL"@),
{
    if query.unicode_len() == 0 {
        Err(Error::RequiredArgument(String::from_str("Missing the search query or URL")))
    } else {
        Ok(())
    }
}

/// What `play` does with `track_count` results for `query`.
pub open spec fn plan_for(query: Seq<char>, track_count: nat) -> PlayPlan {
    if track_count == 0 {
        PlayPlan::NoResults
    } else {
        PlayPlan::PlayFirst {
            playlist_hint: query.len() >= 4 && query.take(4) == "http"@ && track_count > 1,
        }
    }
}

/// Decides what `play` does once the search for `query` gave `track_count`
/// tracks: nothing found; or queue the first, telling the author of
/// `playlist` first where a URL gave several tracks.
pub fn play_plan(query: &str, track_count: usize) -> (p: PlayPlan)
    ensures
        p == plan_for(query@, track_count as nat),
        (p == PlayPlan::NoResults) == (track_count == 0),
        begins_with_http(query@) && track_count > 1 ==> p == (PlayPlan::PlayFirst { playlist_hint: true }),
        p == (PlayPlan::PlayFirst { playlist_hint: true }) ==> begins_with_http(query@) && track_count > 1,
        track_count > 0 && !(begins_with_http(query@) && track_count > 1)
            ==> p == (PlayPlan::PlayFirst { playlist_hint: false }),
{
    if track_count == 0 {
        return PlayPlan::NoResults;
    }
    let is_url = starts_with(query, "http");
    proof {
        reveal_strlit("http");
    }
    let p = PlayPlan::PlayFirst { playlist_hint: is_url && track_count > 1 };
    proof {
        lemma_playlist_hint_for_http_queries(query@, track_count as nat);
    }
    p
}

/// Whether `q` begins with the four letters `h`, `t`, `t`, `p`.
pub open spec fn begins_with_http(q: Seq<char>) -> bool {
    q.len() >= 4 && q[0] == 'h' && q[1] == 't' && q[2] == 't' && q[3] == 'p'
}

/// `play` finds nothing exactly when the search gave no track; otherwise it
/// plays the first, and hints at `playlist` exactly when the query begins with
/// `http` and gave more than one track.
pub proof fn lemma_playlist_hint_for_http_queries(query: Seq<char>, track_count: nat)
    ensures
        (plan_for(query, track_count) == PlayPlan::NoResults) == (track_count == 0),
        begins_with_http(query) && track_count > 1
            ==> plan_for(query, track_count) == (PlayPlan::PlayFirst { playlist_hint: true }),
        plan_for(query, track_count) == (PlayPlan::PlayFirst { playlist_hint: true })
            ==> begins_with_http(query) && track_count > 1,
        track_count > 0 && !(begins_with_http(query) && track_count > 1)
            ==> plan_for(query, track_count) == (PlayPlan::PlayFirst { playlist_hint: false }),
{
    reveal_strlit("http");
    if query.len() >= 4 {
        assert((query.take(4) == "http"@) == begins_with_http(query)) by {
            if begins_with_http(query) {
                assert(query.take(4) =~= "http"@);
            }
            if query.take(4) == "http"@ {
                assert(query.take(4)[0] == 'h');
                assert(query.take(4)[1] == 't');
                assert(query.take(4)[2] == 't');
                assert(query.take(4)[3] == 'p');
            }
        }
    }
}

/// The voice channel that `join` connects to: the named channel where it is a
/// voice channel, else the one the author is in; none is an error.
pub open spec fn channel_to_join(requested: Option<RequestedChannel>, author_channel: Option<u64>) -> Option<u64> {
    match requested {
        Some(c) if c.is_voice => Some(c.id),
        _ => author_channel,
    }
}

/// Picks the voice channel to join.
pub fn voice_channel_to_join(requested: Option<RequestedChannel>, author_channel: Option<u64>) -> (r: Result<u64, Error>)
    ensures
        r matches Ok(id) ==> channel_to_join(requested, author_channel) == Some(id),
        r is Err <==> channel_to_join(requested, author_channel) is None,
        r matches Err(e) ==> (e matches Error::Join(why) && why@ == "You are not in a voice channel"@),
{
    let chosen = match requested {
        Some(c) => if c.is_voice { Some(c.id) } else { author_channel },
        None => author_channel,
    };
    match chosen {
        Some(id) => Ok(id),
        None => Err(Error::Join(String::from_str("You are not in a voice channel"))),
    }
}

/// The result of asking the voice gateway to join `channel`: the channel where
/// it joined, else an error.
pub fn gateway_join_result(joined: bool, channel: u64) -> (r: Result<u64, Error>)
    ensures
        joined ==> r == Ok::<u64, Error>(channel),
        !joined ==> (r matches Err(Error::Join(why)) && why@ == "Error joining the channel"@),
{
    if joined {
        Ok(channel)
    } else {
        Err(Error::Join(String::from_str("Error joining the channel")))
    }
}

/// Builds `prefix` followed by `rest`.
fn text_with(prefix: &str, rest: &str) -> (s: String)
    ensures
        s@ == prefix@ + rest@,
{
    let mut s = String::from_str(prefix);
    s.append(rest);
    s
}

/// The reply while a query is searched.
pub fn searching_message(query: &str) -> (s: String)
    ensures
        s@ == "Searching for "@ + query@,
{
    text_with("Searching for ", query)
}

/// The reply when a query found nothing.
pub fn not_found_message(query: &str) -> (s: String)
    ensures
        s@ == "Could not find any results for query or url "@ + query@,
{
    text_with("Could not find any results for query or url ", query)
}

/// The hint given when a URL found several tracks.
pub fn playlist_hint() -> (s: String)
    ensures
        s@ == "If you would like to play the entire playlist, use `playlist` instead."@,
{
    String::from_str("If you would like to play the entire playlist, use `playlist` instead.")
}

/// The text above the search results menu.
pub fn select_prompt() -> (s: String)
    ensures
        s@ == "Please select a track to play."@,
{
    String::from_str("Please select a track to play.")
}

/// The reply when the bot is not in a voice channel of the guild.
pub fn not_connected_message() -> (s: String)
    ensures
        s@ == "Please connect the bot to the voice channel you are currently in using the `join` command."@,
{
    String::from_str("Please connect the bot to the voice channel you are currently in using the `join` command.")
}

/// The reply after joining a channel: a mention of it.
pub fn joined_message(channel_id: u64) -> (s: String)
    ensures
        s@ == "Joined <#"@ + dec(channel_id as nat) + ">"@,
{
    let mut s = String::from_str("Joined <#");
    push_decimal(&mut s, channel_id);
    s.append(">");
    s
}

} // verus!
