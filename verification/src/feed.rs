//! Watching the channel's feed for new uploads.
//!
//! The caller fetches the feed document. This module reads the video
//! identifiers out of it, remembers the ones it saw last, and says which
//! ones are new.

use crate::text::{chars_of, copy_texts, decimal, matches_at, push_decimal, texts};
use vstd::prelude::*;

verus! {

/// `quick_xml::Reader`, a pull parser over a source of type `R`.
#[verifier::external_type_specification]
#[verifier::external_body]
#[verifier::reject_recursive_types(R)]
pub struct ExReader<R>(quick_xml::Reader<R>);

/// One event of a feed document, as far as the identifiers depend on it.
pub enum FeedToken {
    /// A start tag with its qualified name.
    Start(Seq<char>),
    /// An end tag with its qualified name.
    End(Seq<char>),
    /// Character data between tags.
    Text(Seq<char>),
    /// Any other event.
    Other,
    /// The document is ill-formed here.
    Fault,
}

/// What `read_event` will return on this reader from now on, call by call,
/// up to the end of the input or, if that comes first, up to and with the
/// first error.
pub uninterp spec fn reader_events(reader: quick_xml::Reader<&[u8]>) -> Seq<FeedToken>;

/// What `read_event` returns, call by call, on a reader that
/// `quick_xml::Reader::from_str` made of this text and that was set to trim
/// text, up to the end of the input or up to and with the first error.
pub uninterp spec fn feed_tokens(xml: Seq<char>) -> Seq<FeedToken>;

/// One event of a feed document.
#[derive(Debug, PartialEq, Eq)]
pub enum FeedEvent {
    Start(String),
    End(String),
    Text(String),
    Other,
    Fault,
    /// The input has ended.
    Eof,
}

/// Why a feed could not be used.
#[derive(Clone, Copy, Debug, PartialEq, Eq, Structural)]
pub enum FeedError {
    /// The server answered with this status instead of 200.
    Status(u16),
    /// The document is ill-formed.
    Malformed,
}

/// The token an event stands for. The end of the input is no token.
pub open spec fn token_of(event: FeedEvent) -> FeedToken {
    match event {
        FeedEvent::Start(name) => FeedToken::Start(name@),
        FeedEvent::End(name) => FeedToken::End(name@),
        FeedEvent::Text(text) => FeedToken::Text(text@),
        FeedEvent::Fault => FeedToken::Fault,
        _ => FeedToken::Other,
    }
}

/// Makes the reader of a feed document: calls
/// `quick_xml::Reader::from_str` on `xml` and, before anything is read,
/// switches on `trim_text` in the configuration of that reader. The
/// contract gives what this reader will yield its name; it claims nothing
/// else.
#[verifier::external_body]
fn trimming_reader<'a>(xml: &'a str) -> (reader: quick_xml::Reader<&'a [u8]>)
    ensures
        reader_events(reader) == feed_tokens(xml@),
{
    let mut reader = quick_xml::Reader::from_str(xml);
    reader.config_mut().trim_text(true);
    reader
}

/// Calls `read_event` on the reader and hands out the event as a value of
/// this library: the qualified name of a start or end tag, the content of a
/// text event, and of any other event only its kind. The contract says that
/// the event is the first of those still to come and that the rest remain;
/// an error is the last event of a reader, and at the end of the input none
/// is left.
#[verifier::external_body]
fn read_feed_event<'a>(reader: &mut quick_xml::Reader<&'a [u8]>) -> (event: FeedEvent)
    ensures
        match event {
            FeedEvent::Eof => reader_events(*old(reader)).len() == 0,
            FeedEvent::Fault => reader_events(*old(reader)) == seq![FeedToken::Fault],
            _ => {
                &&& reader_events(*old(reader)).len() > 0
                &&& reader_events(*old(reader))[0] == token_of(event)
                &&& reader_events(*final(reader)) == reader_events(*old(reader)).drop_first()
            },
        },
{
    match reader.read_event() {
        Ok(quick_xml::events::Event::Start(e)) => FeedEvent::Start(e.name().into_inner().to_string()),
        Ok(quick_xml::events::Event::End(e)) => FeedEvent::End(e.name().into_inner().to_string()),
        Ok(quick_xml::events::Event::Text(t)) => FeedEvent::Text(t.into_inner().into_owned()),
        Ok(quick_xml::events::Event::Eof) => FeedEvent::Eof,
        Ok(_) => FeedEvent::Other,
        Err(_) => FeedEvent::Fault,
    }
}

/// Whether `name` ends in `videoId`.
pub open spec fn names_video_id(name: Seq<char>) -> bool {
    let suffix = "videoId"@;
    name.len() >= suffix.len() && name.subrange(name.len() - suffix.len(), name.len() as int)
        =~= suffix
}

/// The state of a pass over a feed document, as plain values.
pub struct ScanView {
    /// Whether the pass is inside a `videoId` element.
    pub in_id: bool,
    /// The identifiers found so far.
    pub ids: Seq<Seq<char>>,
}

/// The state of a pass that has read nothing.
pub open spec fn scan_start() -> ScanView {
    ScanView { in_id: false, ids: Seq::empty() }
}

/// The state after one more token: a `videoId` start tag opens the element,
/// a `videoId` end tag closes it, and text inside it is an identifier.
pub open spec fn scan_step(state: ScanView, token: FeedToken) -> ScanView {
    match token {
        FeedToken::Start(name) => if names_video_id(name) {
            ScanView { in_id: true, ..state }
        } else {
            state
        },
        FeedToken::End(name) => if names_video_id(name) {
            ScanView { in_id: false, ..state }
        } else {
            state
        },
        FeedToken::Text(text) => if state.in_id {
            ScanView { ids: state.ids.push(text), ..state }
        } else {
            state
        },
        _ => state,
    }
}

/// The identifiers found by a pass that goes on from `state` over `tokens`;
/// `None` if the document is ill-formed.
pub open spec fn scan(state: ScanView, tokens: Seq<FeedToken>) -> Option<Seq<Seq<char>>>
    decreases tokens.len(),
{
    if tokens.len() == 0 {
        Some(state.ids)
    } else if tokens[0] is Fault {
        None
    } else {
        scan(scan_step(state, tokens[0]), tokens.drop_first())
    }
}

/// The identifiers of the videos of a feed, newest first as the feed lists
/// them; `None` if the feed is ill-formed.
pub open spec fn video_ids(tokens: Seq<FeedToken>) -> Option<Seq<Seq<char>>> {
    scan(scan_start(), tokens)
}

/// The state of a pass over a feed document.
#[derive(Debug, PartialEq, Eq)]
pub struct IdScan {
    pub in_id: bool,
    pub ids: Vec<String>,
}

impl View for IdScan {
    type V = ScanView;

    open spec fn view(&self) -> ScanView {
        ScanView { in_id: self.in_id, ids: texts(self.ids@) }
    }
}

/// Whether `name` ends in `videoId`.
pub fn is_video_id_name(name: &str) -> (b: bool)
    ensures
        b == names_video_id(name@),
{
    let chars = chars_of(name);
    let suffix = chars_of("videoId");
    if chars.len() < suffix.len() {
        return false;
    }
    matches_at(&chars, &suffix, chars.len() - suffix.len())
}

impl IdScan {
    /// A pass that has read nothing.
    pub fn new() -> (state: IdScan)
        ensures
            state@ == scan_start(),
    {
        let state = IdScan { in_id: false, ids: Vec::new() };
        assert(state@.ids =~= Seq::<Seq<char>>::empty());
        state
    }

    /// Takes one more event of the document.
    pub fn apply(&mut self, event: FeedEvent)
        ensures
            final(self)@ == scan_step(old(self)@, token_of(event)),
    {
        match event {
            FeedEvent::Start(name) => {
                if is_video_id_name(name.as_str()) {
                    self.in_id = true;
                }
            },
            FeedEvent::End(name) => {
                if is_video_id_name(name.as_str()) {
                    self.in_id = false;
                }
            },
            FeedEvent::Text(text) => {
                if self.in_id {
                    self.ids.push(text);
                    assert(self@.ids =~= old(self)@.ids.push(text@));
                }
            },
            _ => {},
        }
    }
}

/// Reads the video identifiers out of a feed document.
pub fn get_video_ids(xml: &str) -> (ids: Result<Vec<String>, FeedError>)
    ensures
        match ids {
            Ok(found) => video_ids(feed_tokens(xml@)) == Some(texts(found@)),
            Err(e) => e is Malformed && video_ids(feed_tokens(xml@)) is None,
        },
{
    let mut reader = trimming_reader(xml);
    let mut state = IdScan::new();
    loop
        invariant
            video_ids(feed_tokens(xml@)) == scan(state@, reader_events(reader)),
        decreases reader_events(reader).len(),
    {
        let event = read_feed_event(&mut reader);
        match event {
            FeedEvent::Eof => {
                return Ok(state.ids);
            },
            FeedEvent::Fault => {
                return Err(FeedError::Malformed);
            },
            _ => {
                state.apply(event);
            },
        }
    }
}

/// The address of the feed of a channel.
pub open spec fn feed_address(channel_id: Seq<char>) -> Seq<char> {
    "https://www.youtube.com/feeds/videos.xml?channel_id="@ + channel_id
}

/// The message that announces a new upload.
pub open spec fn announcement_of(video_id: Seq<char>) -> Seq<char> {
    "A new score has been uploaded!\nhttps://youtu.be/"@ + video_id
}

/// The identifiers at the start of `current` that come before the first
/// one that is among `known`.
pub open spec fn fresh(known: Seq<Seq<char>>, current: Seq<Seq<char>>) -> Seq<Seq<char>>
    decreases current.len(),
{
    if current.len() == 0 || known.contains(current[0]) {
        Seq::empty()
    } else {
        seq![current[0]] + fresh(known, current.drop_first())
    }
}

/// What is remembered after the feed listed `current`: the first listing
/// is remembered as it is; a later one replaces what is remembered if it
/// starts with an identifier that is not among the remembered ones.
pub open spec fn remembered(before: Option<Seq<Seq<char>>>, current: Seq<Seq<char>>) -> Seq<
    Seq<char>,
> {
    match before {
        None => current,
        Some(known) => if fresh(known, current).len() > 0 {
            current
        } else {
            known
        },
    }
}

/// The uploads to announce after the feed listed `current`: none for the
/// first listing, and afterwards the identifiers that come before the
/// first remembered one.
pub open spec fn to_announce(before: Option<Seq<Seq<char>>>, current: Seq<Seq<char>>) -> Seq<
    Seq<char>,
> {
    match before {
        None => Seq::empty(),
        Some(known) => fresh(known, current),
    }
}

/// The identifiers the feed listed last.
#[derive(Debug, PartialEq, Eq)]
pub struct FeedMemory {
    pub last: Option<Vec<String>>,
}

/// The identifiers of a listing that may be absent.
pub open spec fn listing(last: Option<Vec<String>>) -> Option<Seq<Seq<char>>> {
    match last {
        Some(ids) => Some(texts(ids@)),
        None => None,
    }
}

impl FeedMemory {
    /// A memory that has seen no listing yet.
    pub fn new() -> (memory: FeedMemory)
        ensures
            memory.last is None,
    {
        FeedMemory { last: None }
    }
}

/// What is remembered.
pub fn value(memory: &FeedMemory) -> (last: &Option<Vec<String>>)
    ensures
        *last == memory.last,
{
    &memory.last
}

/// Remembers `s` in place of what was remembered.
pub fn set(memory: &mut FeedMemory, s: Vec<String>)
    ensures
        final(memory).last == Some(s),
{
    memory.last = Some(s);
}

/// A copy of what is remembered.
pub fn get_clone(memory: &FeedMemory) -> (last: Option<Vec<String>>)
    ensures
        listing(last) == listing(memory.last),
{
    match value(memory) {
        Some(ids) => Some(copy_texts(ids)),
        None => None,
    }
}

/// Whether the identifier `id` is among `known`.
pub fn is_known(known: &Vec<String>, id: &String) -> (b: bool)
    ensures
        b == texts(known@).contains(id@),
{
    let mut i: usize = 0;
    while i < known.len()
        invariant
            i <= known.len(),
            forall|j: int| 0 <= j < i ==> texts(known@)[j] != id@,
        decreases known.len() - i,
    {
        if known[i] == *id {
            assert(texts(known@)[i as int] == id@);
            return true;
        }
        i += 1;
    }
    false
}

/// Whether the status of the reply to a request for the feed allows the
/// body to be read.
pub fn check_feed_status(status: u16) -> (checked: Result<(), FeedError>)
    ensures
        status == 200 ==> checked is Ok,
        status != 200 ==> checked == Err::<(), FeedError>(FeedError::Status(status)),
{
    if status == 200 {
        Ok(())
    } else {
        Err(FeedError::Status(status))
    }
}

/// The address of the feed of a channel.
pub fn feed_url(channel_id: &str) -> (url: String)
    ensures
        url@ == feed_address(channel_id@),
{
    let mut url = String::from_str("https://www.youtube.com/feeds/videos.xml?channel_id=");
    url.append(channel_id);
    url
}

/// The message that announces a new upload.
pub fn announcement(video_id: &str) -> (message: String)
    ensures
        message@ == announcement_of(video_id@),
{
    let mut message = String::from_str("A new score has been uploaded!\nhttps://youtu.be/");
    message.append(video_id);
    message
}

/// Takes the listing `video_ids` of the feed, newest first, and hands back
/// the identifiers to announce, in the order of the listing.
pub fn refresh_feed(memory: &mut FeedMemory, video_ids: Vec<String>) -> (new: Vec<String>)
    ensures
        texts(new@) == to_announce(listing(old(memory).last), texts(video_ids@)),
        listing(final(memory).last) == Some(
            remembered(listing(old(memory).last), texts(video_ids@)),
        ),
{
    let known = match get_clone(memory) {
        Some(known) => known,
        None => {
            set(memory, video_ids);
            let new: Vec<String> = Vec::new();
            assert(texts(new@) =~= Seq::<Seq<char>>::empty());
            return new;
        },
    };
    let ghost all = texts(video_ids@);
    let ghost known_texts = texts(known@);
    let mut new: Vec<String> = Vec::new();
    let mut i: usize = 0;
    assert(all.subrange(0, all.len() as int) =~= all);
    while i < video_ids.len()
        invariant
            i <= video_ids.len(),
            all == texts(video_ids@),
            known_texts == texts(known@),
            fresh(known_texts, all) == texts(new@) + fresh(
                known_texts,
                all.subrange(i as int, all.len() as int),
            ),
            new@.len() == i,
        ensures
            fresh(known_texts, all) == texts(new@),
        decreases video_ids.len() - i,
    {
        let ghost rest = all.subrange(i as int, all.len() as int);
        assert(rest[0] == video_ids@[i as int]@);
        if is_known(&known, &video_ids[i]) {
            assert(fresh(known_texts, rest) =~= Seq::<Seq<char>>::empty());
            break ;
        }
        assert(rest.drop_first() =~= all.subrange(i + 1, all.len() as int));
        let ghost found = texts(new@);
        new.push(video_ids[i].clone());
        assert(texts(new@) =~= found.push(video_ids@[i as int]@));
        assert(found + (seq![rest[0]] + fresh(known_texts, rest.drop_first())) =~= found.push(
            rest[0],
        ) + fresh(known_texts, rest.drop_first()));
        i += 1;
    }
    if new.len() > 0 {
        set(memory, video_ids);
    }
    new
}

} // verus!
