//! The NDJSON stream of a Grok reply: how bytes are cut into lines, what each decoded
//! line means, and how a whole reply is gathered.
use vstd::prelude::*;
use crate::error::{GrokError, RequestFailure};
use crate::text::{trim, trim_string};
use crate::types::ConversationId;

verus! {

/// A web search result reported in the stream; members other than the three known ones
/// are kept as JSON text by name.
#[derive(Debug, Clone, Default)]
pub struct WebSearchResult {
    pub title: Option<String>,
    pub url: Option<String>,
    pub snippet: Option<String>,
    pub extra: Vec<(String, String)>,
}

/// One event of a reply stream. `raw` holds the JSON text of the line it came from.
#[derive(Debug, Clone)]
pub enum StreamChunk {
    ConversationCreated { conversation_id: ConversationId },
    Token { text: String, is_soft_stop: bool },
    ThinkingToken { text: String },
    WebSearch { query: Option<String>, results: Vec<WebSearchResult>, raw: String },
    ImageGenerated { url: Option<String>, raw: String },
    Error { message: String },
    Done,
    Unknown(String),
}

/// The `conversation` member of a line.
#[derive(Debug, Clone, Default)]
pub struct RawConversation {
    pub conversation_id: Option<String>,
}

/// The `response` member of a line's result.
#[derive(Debug, Clone, Default)]
pub struct RawResponse {
    pub token: Option<String>,
    pub is_thinking: bool,
    pub is_soft_stop: bool,
    pub web_search_results: Option<Vec<WebSearchResult>>,
    pub query: Option<String>,
    pub generated_image_url: Option<String>,
}

/// The `result` member of a line.
#[derive(Debug, Clone, Default)]
pub struct RawResult {
    pub conversation: Option<RawConversation>,
    pub response: Option<RawResponse>,
    pub token: Option<String>,
    pub is_thinking: bool,
    pub is_soft_stop: bool,
    pub web_search_results: Option<Vec<WebSearchResult>>,
    pub query: Option<String>,
    pub generated_image_url: Option<String>,
}

/// The `error` member of a line.
#[derive(Debug, Clone, Default)]
pub struct RawError {
    pub message: Option<String>,
}

/// One line of the stream, read into its known members.
#[derive(Debug, Clone, Default)]
pub struct RawLine {
    pub result: Option<RawResult>,
    pub error: Option<RawError>,
}

/// The members a token line is read from: those of `response` when the result has one,
/// else the result's own.
pub open spec fn token_fields(r: RawResult) -> (
    Option<String>,
    bool,
    bool,
    Option<Vec<WebSearchResult>>,
    Option<String>,
    Option<String>,
) {
    match r.response {
        Some(p) => (
            p.token,
            p.is_thinking,
            p.is_soft_stop,
            p.web_search_results,
            p.query,
            p.generated_image_url,
        ),
        None => (
            r.token,
            r.is_thinking,
            r.is_soft_stop,
            r.web_search_results,
            r.query,
            r.generated_image_url,
        ),
    }
}

/// What a line of the stream means. An error message comes first; a line without a
/// result means nothing; a new conversation's id comes next; then a token (an empty one
/// with the soft-stop flag ends the reply, a thinking one is kept apart); then search
/// results, then a generated image; anything else is unknown.
pub open spec fn chunk_of_line(l: RawLine, raw: String) -> Option<StreamChunk> {
    if l.error matches Some(e) && e.message is Some {
        Some(StreamChunk::Error { message: l.error.unwrap().message.unwrap() })
    } else {
        match l.result {
            None => None,
            Some(r) => if r.conversation matches Some(c) && c.conversation_id is Some {
                Some(
                    StreamChunk::ConversationCreated {
                        conversation_id: ConversationId(
                            r.conversation.unwrap().conversation_id.unwrap(),
                        ),
                    },
                )
            } else {
                let f = token_fields(r);
                match f.0 {
                    Some(tok) => if f.2 && tok@.len() == 0 {
                        Some(StreamChunk::Done)
                    } else if f.1 {
                        Some(StreamChunk::ThinkingToken { text: tok })
                    } else {
                        Some(StreamChunk::Token { text: tok, is_soft_stop: f.2 })
                    },
                    None => match f.3 {
                        Some(results) => Some(
                            StreamChunk::WebSearch { query: f.4, results, raw },
                        ),
                        None => match f.5 {
                            Some(url) => Some(
                                StreamChunk::ImageGenerated { url: Some(url), raw },
                            ),
                            None => Some(StreamChunk::Unknown(raw)),
                        },
                    },
                }
            },
        }
    }
}

/// The event a line of the stream stands for (see [`chunk_of_line`]); `raw` is the
/// line's JSON text. `None` for a line that means nothing.
pub fn classify_line(line: RawLine, raw: String) -> (r: Option<StreamChunk>)
    ensures
        r == chunk_of_line(line, raw),
{
    let ghost l = line;
    let RawLine { result, error } = line;
    if let Some(RawError { message: Some(m) }) = error {
        return Some(StreamChunk::Error { message: m });
    }
    let r = match result {
        None => {
            return None;
        },
        Some(r) => r,
    };
    let RawResult {
        conversation,
        response,
        token,
        is_thinking,
        is_soft_stop,
        web_search_results,
        query,
        generated_image_url,
    } = r;
    if let Some(RawConversation { conversation_id: Some(id) }) = conversation {
        return Some(StreamChunk::ConversationCreated { conversation_id: ConversationId(id) });
    }
    let (tok, thinking, soft, search, q, image) = match response {
        Some(p) => (
            p.token,
            p.is_thinking,
            p.is_soft_stop,
            p.web_search_results,
            p.query,
            p.generated_image_url,
        ),
        None => (token, is_thinking, is_soft_stop, web_search_results, query, generated_image_url),
    };
    if let Some(t) = tok {
        if soft && t.as_str().is_empty() {
            return Some(StreamChunk::Done);
        }
        if thinking {
            return Some(StreamChunk::ThinkingToken { text: t });
        }
        return Some(StreamChunk::Token { text: t, is_soft_stop: soft });
    }
    if let Some(results) = search {
        return Some(StreamChunk::WebSearch { query: q, results, raw });
    }
    if let Some(url) = image {
        return Some(StreamChunk::ImageGenerated { url: Some(url), raw });
    }
    Some(StreamChunk::Unknown(raw))
}

/// The error for a line of the stream that is not JSON; `detail` is the parser's message.
pub fn line_not_json(detail: &str) -> (r: GrokError)
    ensures
        r matches GrokError::StreamParse(m) && m@ == "failed to parse NDJSON: "@ + detail@,
{
    let mut m = "failed to parse NDJSON: ".to_owned();
    m.append(detail);
    GrokError::StreamParse(m)
}

/// The error for a JSON line of the stream that does not have the shape of a stream line;
/// `detail` is the parser's message.
pub fn line_shape_error(detail: &str) -> (r: GrokError)
    ensures
        r matches GrokError::StreamParse(m) && m@ == "unexpected NDJSON shape: "@ + detail@,
{
    let mut m = "unexpected NDJSON shape: ".to_owned();
    m.append(detail);
    GrokError::StreamParse(m)
}

/// The longest line the stream accepts, in bytes.
pub const MAX_LINE_BYTES: usize = 16777216;

/// Index of the first line feed in `b`.
pub open spec fn first_newline(b: Seq<u8>) -> Option<int>
    decreases b.len(),
{
    if b.len() == 0 {
        None
    } else if b.last() == 10 {
        match first_newline(b.drop_last()) {
            Some(i) => Some(i),
            None => Some(b.len() - 1),
        }
    } else {
        first_newline(b.drop_last())
    }
}

/// `memchr::memchr(b'\n', bytes)`: the index of the first line feed.
#[verifier::external_body]
fn find_newline(bytes: &[u8]) -> (r: Option<usize>)
    ensures
        match r {
            Some(i) => first_newline(bytes@) == Some(i as int),
            None => first_newline(bytes@) is None,
        },
{
    memchr::memchr(b'\n', bytes)
}

/// The message `std` gives for bytes that are not UTF-8 (`Utf8Error`'s `Display`).
pub uninterp spec fn utf8_error_text(bytes: Seq<u8>) -> Seq<char>;

/// `std::str::from_utf8`: the text when the bytes are UTF-8, else the error's message.
#[verifier::external_body]
fn utf8_text(bytes: &[u8]) -> (r: Result<String, String>)
    ensures
        match r {
            Ok(s) => vstd::utf8::valid_utf8(bytes@) && s@ == vstd::utf8::decode_utf8(bytes@),
            Err(e) => !vstd::utf8::valid_utf8(bytes@) && e@ == utf8_error_text(bytes@),
        },
{
    match std::str::from_utf8(bytes) {
        Ok(s) => Ok(s.to_owned()),
        Err(e) => Err(e.to_string()),
    }
}

/// What cutting a line off the stream gives.
#[derive(Debug)]
pub enum LineEvent {
    /// A line with text, trimmed, to be read as JSON.
    Line(String),
    /// A line that could not be decoded.
    Invalid(GrokError),
    /// No complete line yet (or, at the end, nothing left).
    Empty,
}

/// What a line of bytes is to the reader.
pub ghost enum LineView {
    Text(Seq<char>),
    BadUtf8(Seq<char>),
    Blank,
}

/// A line of bytes decoded and trimmed.
pub open spec fn line_view(b: Seq<u8>) -> LineView {
    if vstd::utf8::valid_utf8(b) {
        let t = trim(vstd::utf8::decode_utf8(b));
        if t.len() == 0 {
            LineView::Blank
        } else {
            LineView::Text(t)
        }
    } else {
        LineView::BadUtf8(utf8_error_text(b))
    }
}

/// The first line of the buffer that is not blank, and what is left after it; blank
/// lines before it are dropped. Without a complete line, nothing is taken.
pub open spec fn next_line_of(buf: Seq<u8>) -> (Option<LineView>, Seq<u8>)
    decreases buf.len(),
{
    match first_newline(buf) {
        None => (None, buf),
        Some(p) => if 0 <= p < buf.len() {
            let rest = buf.subrange(p + 1, buf.len() as int);
            match line_view(buf.subrange(0, p)) {
                LineView::Blank => next_line_of(rest),
                v => (Some(v), rest),
            }
        } else {
            (None, buf)
        },
    }
}

/// The message for a line that is not UTF-8.
pub open spec fn bad_line_message(e: Seq<char>) -> Seq<char> {
    "invalid UTF-8 in NDJSON line: "@ + e
}

/// The message for an unfinished tail that is not UTF-8.
pub open spec fn bad_tail_message(e: Seq<char>) -> Seq<char> {
    "invalid UTF-8 at end of stream: "@ + e
}

/// The message for a line longer than [`MAX_LINE_BYTES`].
pub open spec fn overlong_message() -> Seq<char> {
    "NDJSON line exceeds 16777216 bytes without newline"@
}

/// True when `e` is the event for the line `v` (`bad` builds the message for bytes that
/// are not UTF-8).
pub open spec fn event_matches(e: LineEvent, v: Option<LineView>, bad: spec_fn(Seq<char>) -> Seq<char>) -> bool {
    match v {
        Some(LineView::Text(t)) => e matches LineEvent::Line(s) && s@ == t,
        Some(LineView::BadUtf8(m)) => e matches LineEvent::Invalid(GrokError::StreamParse(s))
            && s@ == bad(m),
        _ => e is Empty,
    }
}

/// The state of a reply stream as the reader sees it: the bytes received and not yet cut
/// into lines, and whether the stream has ended.
pub ghost struct StreamState {
    pub buffer: Seq<u8>,
    pub done: bool,
}

/// A reply stream: the transport's byte stream `inner` and the bytes of the line being
/// received.
pub struct GrokStream<S> {
    inner: S,
    buffer: Vec<u8>,
    done: bool,
}

impl<S> View for GrokStream<S> {
    type V = StreamState;

    closed spec fn view(&self) -> StreamState {
        StreamState { buffer: self.buffer@, done: self.done }
    }
}

impl<S> GrokStream<S> {
    /// The transport stream.
    pub closed spec fn source(&self) -> S {
        self.inner
    }

    /// A reader over `inner`, with nothing received yet.
    pub fn new(inner: S) -> (r: Self)
        ensures
            r@ == (StreamState { buffer: seq![], done: false }),
            r.source() == inner,
    {
        GrokStream { inner, buffer: Vec::new(), done: false }
    }

    /// Whether the stream has ended (by its end, a transport error or an overlong line).
    pub fn is_done(&self) -> (r: bool)
        ensures
            r == self@.done,
    {
        self.done
    }

    /// The transport stream, to be polled for more bytes.
    pub fn inner_mut(&mut self) -> (r: &mut S)
        ensures
            *r == old(self).source(),
            final(self)@ == old(self)@,
            final(self).source() == *final(r),
    {
        &mut self.inner
    }

    /// Cuts the next line that is not blank off the received bytes (see
    /// [`next_line_of`]).
    pub fn next_line(&mut self) -> (r: LineEvent)
        ensures
            final(self)@.done == old(self)@.done,
            final(self).source() == old(self).source(),
            final(self)@.buffer == next_line_of(old(self)@.buffer).1,
            event_matches(r, next_line_of(old(self)@.buffer).0, |m: Seq<char>| bad_line_message(m)),
        decreases old(self)@.buffer.len(),
    {
        let pos = match find_newline(self.buffer.as_slice()) {
            None => {
                return LineEvent::Empty;
            },
            Some(p) => p,
        };
        proof {
            lemma_first_newline_bounds(self.buffer@);
        }
        let n = self.buffer.len();
        let line = slice_bytes(&self.buffer, 0, pos);
        let rest = slice_bytes(&self.buffer, pos + 1, n);
        self.buffer = rest;
        match utf8_text(line.as_slice()) {
            Ok(text) => {
                let trimmed = trim_string(text.as_str());
                if trimmed.as_str().is_empty() {
                    self.next_line()
                } else {
                    LineEvent::Line(trimmed)
                }
            },
            Err(e) => {
                let mut m = "invalid UTF-8 in NDJSON line: ".to_owned();
                m.append(e.as_str());
                LineEvent::Invalid(GrokError::StreamParse(m))
            },
        }
    }

    /// Takes bytes from the transport. A line that would grow past
    /// [`MAX_LINE_BYTES`] ends the stream with an error, and the bytes are not kept.
    pub fn on_bytes(&mut self, bytes: &[u8]) -> (r: Option<GrokError>)
        ensures
            final(self).source() == old(self).source(),
            old(self)@.buffer.len() + bytes@.len() > MAX_LINE_BYTES ==> {
                &&& r matches Some(GrokError::StreamParse(m)) && m@ == overlong_message()
                &&& final(self)@ == (StreamState { buffer: old(self)@.buffer, done: true })
            },
            old(self)@.buffer.len() + bytes@.len() <= MAX_LINE_BYTES ==> {
                &&& r is None
                &&& final(self)@ == (StreamState {
                    buffer: old(self)@.buffer + bytes@,
                    done: old(self)@.done,
                })
            },
    {
        if self.buffer.len().saturating_add(bytes.len()) > MAX_LINE_BYTES {
            self.done = true;
            return Some(GrokError::StreamParse("NDJSON line exceeds 16777216 bytes without newline".to_owned()));
        }
        let ghost before = self.buffer@;
        let mut i: usize = 0;
        while i < bytes.len()
            invariant
                i <= bytes@.len(),
                self.buffer@ == before + bytes@.take(i as int),
                self.inner == old(self).inner,
                self.done == old(self).done,
            decreases bytes.len() - i,
        {
            self.buffer.push(bytes[i]);
            i += 1;
            assert(self.buffer@ =~= before + bytes@.take(i as int));
        }
        assert(bytes@.take(bytes@.len() as int) =~= bytes@);
        None
    }

    /// The transport failed: the stream ends with that failure.
    pub fn on_transport_error(&mut self, failure: RequestFailure) -> (r: GrokError)
        ensures
            r == GrokError::Request(failure),
            final(self)@ == (StreamState { buffer: old(self)@.buffer, done: true }),
            final(self).source() == old(self).source(),
    {
        self.done = true;
        GrokError::Request(failure)
    }

    /// The transport ended: the stream ends, and whatever was received after the last
    /// line feed is read as one last line.
    pub fn on_end(&mut self) -> (r: LineEvent)
        ensures
            final(self)@ == (StreamState { buffer: seq![], done: true }),
            final(self).source() == old(self).source(),
            event_matches(
                r,
                if old(self)@.buffer.len() == 0 {
                    None
                } else {
                    Some(line_view(old(self)@.buffer))
                },
                |m: Seq<char>| bad_tail_message(m),
            ),
    {
        self.done = true;
        if self.buffer.len() == 0 {
            assert(self.buffer@ =~= seq![]);
            return LineEvent::Empty;
        }
        let r = match utf8_text(self.buffer.as_slice()) {
            Ok(text) => {
                let trimmed = trim_string(text.as_str());
                if trimmed.as_str().is_empty() {
                    LineEvent::Empty
                } else {
                    LineEvent::Line(trimmed)
                }
            },
            Err(e) => {
                let mut m = "invalid UTF-8 at end of stream: ".to_owned();
                m.append(e.as_str());
                LineEvent::Invalid(GrokError::StreamParse(m))
            },
        };
        self.buffer = Vec::new();
        r
    }
}

/// The bytes `v[lo..hi]` as a new vector.
fn slice_bytes(v: &Vec<u8>, lo: usize, hi: usize) -> (r: Vec<u8>)
    requires
        lo <= hi <= v@.len(),
    ensures
        r@ == v@.subrange(lo as int, hi as int),
{
    let mut r: Vec<u8> = Vec::new();
    let mut i = lo;
    while i < hi
        invariant
            lo <= i <= hi <= v@.len(),
            r@ == v@.subrange(lo as int, i as int),
        decreases hi - i,
    {
        r.push(v[i]);
        i += 1;
        assert(r@ =~= v@.subrange(lo as int, i as int));
    }
    r
}

/// A line feed found is within the bytes, and is one.
pub proof fn lemma_first_newline_bounds(b: Seq<u8>)
    ensures
        first_newline(b) matches Some(i) ==> 0 <= i < b.len() && b[i] == 10,
    decreases b.len(),
{
    if b.len() > 0 {
        lemma_first_newline_bounds(b.drop_last());
    }
}

/// A whole reply gathered from its stream.
#[derive(Debug, Clone, Default)]
pub struct CollectedResponse {
    pub conversation_id: Option<ConversationId>,
    pub text: String,
    pub thinking: String,
}

/// Whether gathering a reply goes on after an event.
#[derive(Debug, PartialEq, Eq)]
pub enum Gather {
    /// Read the next event.
    More,
    /// The reply is complete.
    Complete,
}

/// Adds one event to the text of a reply: tokens are appended, the end completes it, an
/// error event fails it with its message, anything else is passed over.
pub fn collect_text_step(text: &mut String, chunk: StreamChunk) -> (r: Result<Gather, GrokError>)
    ensures
        match chunk {
            StreamChunk::Token { text: t, .. } => r == Ok::<Gather, GrokError>(Gather::More)
                && final(text)@ == old(text)@ + t@,
            StreamChunk::Done => r == Ok::<Gather, GrokError>(Gather::Complete) && final(text)@
                == old(text)@,
            StreamChunk::Error { message } => r == Err::<Gather, GrokError>(
                GrokError::StreamParse(message),
            ) && final(text)@ == old(text)@,
            _ => r == Ok::<Gather, GrokError>(Gather::More) && final(text)@ == old(text)@,
        },
{
    match chunk {
        StreamChunk::Token { text: t, .. } => {
            text.append(t.as_str());
            Ok(Gather::More)
        },
        StreamChunk::Done => Ok(Gather::Complete),
        StreamChunk::Error { message } => Err(GrokError::StreamParse(message)),
        _ => Ok(Gather::More),
    }
}

/// Adds one event to a whole reply: the conversation id is recorded, tokens and thinking
/// tokens are appended to their texts, the end completes it, an error event fails it with
/// its message, anything else is passed over.
pub fn collect_full_step(resp: &mut CollectedResponse, chunk: StreamChunk) -> (r: Result<
    Gather,
    GrokError,
>)
    ensures
        match chunk {
            StreamChunk::ConversationCreated { conversation_id } => r == Ok::<Gather, GrokError>(
                Gather::More,
            ) && final(resp).conversation_id == Some(conversation_id) && final(resp).text@ == old(
                resp,
            ).text@ && final(resp).thinking@ == old(resp).thinking@,
            StreamChunk::Token { text: t, .. } => r == Ok::<Gather, GrokError>(Gather::More)
                && final(resp).conversation_id == old(resp).conversation_id && final(resp).text@
                == old(resp).text@ + t@ && final(resp).thinking@ == old(resp).thinking@,
            StreamChunk::ThinkingToken { text: t } => r == Ok::<Gather, GrokError>(Gather::More)
                && final(resp).conversation_id == old(resp).conversation_id && final(resp).text@
                == old(resp).text@ && final(resp).thinking@ == old(resp).thinking@ + t@,
            StreamChunk::Done => r == Ok::<Gather, GrokError>(Gather::Complete) && *final(resp)
                == *old(resp),
            StreamChunk::Error { message } => r == Err::<Gather, GrokError>(
                GrokError::StreamParse(message),
            ) && *final(resp) == *old(resp),
            _ => r == Ok::<Gather, GrokError>(Gather::More) && *final(resp) == *old(resp),
        },
{
    match chunk {
        StreamChunk::ConversationCreated { conversation_id } => {
            resp.conversation_id = Some(conversation_id);
            Ok(Gather::More)
        },
        StreamChunk::Token { text: t, .. } => {
            resp.text.append(t.as_str());
            Ok(Gather::More)
        },
        StreamChunk::ThinkingToken { text: t } => {
            resp.thinking.append(t.as_str());
            Ok(Gather::More)
        },
        StreamChunk::Done => Ok(Gather::Complete),
        StreamChunk::Error { message } => Err(GrokError::StreamParse(message)),
        _ => Ok(Gather::More),
    }
}

/// Cutting lines off the received bytes only ever takes bytes from the front; when no
/// line comes out, no complete line is left behind.
pub proof fn law_lines_come_from_the_front(buf: Seq<u8>)
    ensures
        exists|k: int|
            0 <= k <= buf.len() && next_line_of(buf).1 == buf.skip(k) && (next_line_of(buf).0
                is Some ==> k > 0),
        next_line_of(buf).0 is None ==> first_newline(next_line_of(buf).1) is None,
    decreases buf.len(),
{
    lemma_first_newline_bounds(buf);
    match first_newline(buf) {
        None => {
            assert(buf.skip(0) =~= buf);
        },
        Some(p) => {
            let rest = buf.subrange(p + 1, buf.len() as int);
            match line_view(buf.subrange(0, p)) {
                LineView::Blank => {
                    law_lines_come_from_the_front(rest);
                    let k = choose|k: int|
                        0 <= k <= rest.len() && next_line_of(rest).1 == rest.skip(k) && (
                        next_line_of(rest).0 is Some ==> k > 0);
                    assert(rest.skip(k) =~= buf.skip(p + 1 + k));
                },
                _ => {
                    assert(rest =~= buf.skip(p + 1));
                },
            }
        },
    }
}

/// A line feed at `i` is the first one: `first_newline` finds the least index of a line
/// feed, and finds none when there is none.
pub proof fn lemma_first_newline_least(b: Seq<u8>)
    ensures
        first_newline(b) matches Some(i) ==> 0 <= i < b.len() && b[i] == 10 && forall|j: int|
            0 <= j < i ==> b[j] != 10,
        first_newline(b) is None ==> forall|j: int| 0 <= j < b.len() ==> b[j] != 10,
    decreases b.len(),
{
    if b.len() > 0 {
        lemma_first_newline_least(b.drop_last());
        assert forall|j: int| 0 <= j < b.len() - 1 implies b.drop_last()[j] == b[j] by {}
    }
}

/// Bytes appended after a line feed do not move the first one; appended to bytes
/// without one, the first line feed is that of the appended bytes, shifted.
pub proof fn lemma_first_newline_append(a: Seq<u8>, b: Seq<u8>)
    ensures
        first_newline(a) matches Some(i) ==> first_newline(a + b) == Some(i),
        first_newline(a) is None ==> first_newline(a + b) == match first_newline(b) {
            Some(j) => Some(a.len() + j),
            None => None::<int>,
        },
{
    lemma_first_newline_least(a);
    lemma_first_newline_least(b);
    lemma_first_newline_least(a + b);
    let ab = a + b;
    match first_newline(a) {
        Some(i) => {
            assert(ab[i] == 10);
            if let Some(k) = first_newline(ab) {
                if k < i {
                    assert(ab[k] == a[k]);
                }
            }
        },
        None => {
            match first_newline(b) {
                Some(j) => {
                    assert(ab[a.len() + j] == 10);
                    if let Some(k) = first_newline(ab) {
                        if k < a.len() {
                            assert(ab[k] == a[k]);
                        } else if k < a.len() + j {
                            assert(ab[k] == b[k - a.len()]);
                        }
                    }
                },
                None => {
                    if let Some(k) = first_newline(ab) {
                        if k < a.len() {
                            assert(ab[k] == a[k]);
                        } else {
                            assert(ab[k] == b[k - a.len()]);
                        }
                    }
                },
            }
        },
    }
}

/// Every line of the buffer that is not blank, in order, and the bytes after the last
/// line feed.
pub open spec fn all_lines(buf: Seq<u8>) -> (Seq<LineView>, Seq<u8>)
    decreases buf.len(),
{
    match first_newline(buf) {
        None => (seq![], buf),
        Some(p) => if 0 <= p < buf.len() {
            let rest = all_lines(buf.subrange(p + 1, buf.len() as int));
            match line_view(buf.subrange(0, p)) {
                LineView::Blank => rest,
                v => (seq![v] + rest.0, rest.1),
            }
        } else {
            (seq![], buf)
        },
    }
}

/// Cutting lines one at a time (see [`next_line_of`]) goes through [`all_lines`]: each
/// step gives the next of them, and the step that gives none leaves what `all_lines`
/// leaves.
pub proof fn lemma_next_line_steps_through_all_lines(buf: Seq<u8>)
    ensures
        next_line_of(buf).0 is None ==> all_lines(buf) == (Seq::<LineView>::empty(), next_line_of(buf).1),
        next_line_of(buf).0 matches Some(v) ==> all_lines(buf) == (
            seq![v] + all_lines(next_line_of(buf).1).0,
            all_lines(next_line_of(buf).1).1,
        ),
    decreases buf.len(),
{
    lemma_first_newline_bounds(buf);
    if let Some(p) = first_newline(buf) {
        let rest = buf.subrange(p + 1, buf.len() as int);
        if line_view(buf.subrange(0, p)) is Blank {
            lemma_next_line_steps_through_all_lines(rest);
        }
    }
}

/// What is left after the lines is never longer than the buffer.
pub proof fn lemma_all_lines_rest_len(buf: Seq<u8>)
    ensures
        all_lines(buf).1.len() <= buf.len(),
    decreases buf.len(),
{
    lemma_first_newline_bounds(buf);
    if let Some(p) = first_newline(buf) {
        lemma_all_lines_rest_len(buf.subrange(p + 1, buf.len() as int));
    }
}

/// The lines of `a + b` are the lines of `a`, then those of what `a` left with `b`
/// appended.
pub proof fn lemma_all_lines_append(a: Seq<u8>, b: Seq<u8>)
    ensures
        all_lines(a + b) == (
            all_lines(a).0 + all_lines(all_lines(a).1 + b).0,
            all_lines(all_lines(a).1 + b).1,
        ),
    decreases a.len(),
{
    lemma_first_newline_append(a, b);
    lemma_first_newline_bounds(a);
    match first_newline(a) {
        None => {
            assert(all_lines(a).0 + all_lines(a + b).0 =~= all_lines(a + b).0);
        },
        Some(p) => {
            let rest = a.subrange(p + 1, a.len() as int);
            lemma_all_lines_append(rest, b);
            assert((a + b).subrange(0, p) =~= a.subrange(0, p));
            assert((a + b).subrange(p + 1, (a + b).len() as int) =~= rest + b);
            let tail = all_lines(all_lines(rest).1 + b);
            match line_view(a.subrange(0, p)) {
                LineView::Blank => {},
                v => {
                    assert(seq![v] + (all_lines(rest).0 + tail.0) =~= (seq![v] + all_lines(rest).0)
                        + tail.0);
                },
            }
        },
    }
}

/// The bytes of `chunks`, one after the other.
pub open spec fn joined_bytes(chunks: Seq<Seq<u8>>) -> Seq<u8>
    decreases chunks.len(),
{
    if chunks.len() == 0 {
        seq![]
    } else {
        chunks[0] + joined_bytes(chunks.drop_first())
    }
}

/// How a reply stream ends for the reader.
pub ghost enum StreamEnd {
    /// The transport ended; what was left after the last line feed reads as this line
    /// (none when nothing or only blanks were left).
    Tail(Option<LineView>),
    /// A line grew past [`MAX_LINE_BYTES`].
    Overlong,
}

/// The tail left at the end of the transport, as [`GrokStream::on_end`] reads it.
pub open spec fn tail_view(rest: Seq<u8>) -> Option<LineView> {
    if rest.len() == 0 {
        None
    } else {
        match line_view(rest) {
            LineView::Blank => None,
            v => Some(v),
        }
    }
}

/// What a reader holding `buf` yields when the transport then delivers `chunks` and
/// ends: the reader cuts every line it can ([`GrokStream::next_line`] until nothing
/// comes), takes the next chunk ([`GrokStream::on_bytes`]), and at the end reads the tail
/// ([`GrokStream::on_end`]).
pub open spec fn drained(buf: Seq<u8>, chunks: Seq<Seq<u8>>) -> (Seq<LineView>, StreamEnd)
    decreases chunks.len(),
{
    let now = all_lines(buf);
    if chunks.len() == 0 {
        (now.0, StreamEnd::Tail(tail_view(now.1)))
    } else if now.1.len() + chunks[0].len() > MAX_LINE_BYTES {
        (now.0, StreamEnd::Overlong)
    } else {
        let later = drained(now.1 + chunks[0], chunks.drop_first());
        (now.0 + later.0, later.1)
    }
}

/// Reading from `buf` on gives the lines of all the bytes together, as long as no line
/// grows too long.
pub proof fn lemma_drained_reads_joined(buf: Seq<u8>, chunks: Seq<Seq<u8>>)
    requires
        buf.len() + joined_bytes(chunks).len() <= MAX_LINE_BYTES,
    ensures
        drained(buf, chunks) == (
            all_lines(buf + joined_bytes(chunks)).0,
            StreamEnd::Tail(tail_view(all_lines(buf + joined_bytes(chunks)).1)),
        ),
    decreases chunks.len(),
{
    if chunks.len() == 0 {
        assert(buf + joined_bytes(chunks) =~= buf);
    } else {
        let now = all_lines(buf);
        let c = chunks[0];
        let more = joined_bytes(chunks.drop_first());
        lemma_all_lines_rest_len(buf);
        lemma_drained_reads_joined(now.1 + c, chunks.drop_first());
        lemma_all_lines_append(buf, c + more);
        assert(buf + joined_bytes(chunks) =~= buf + (c + more));
        assert(now.1 + (c + more) =~= (now.1 + c) + more);
    }
}

/// Where the transport cuts the reply into chunks does not matter: two deliveries of the
/// same bytes, no more than [`MAX_LINE_BYTES`] of them, yield the same lines and end the
/// same way.
pub proof fn law_chunking_does_not_matter(a: Seq<Seq<u8>>, b: Seq<Seq<u8>>)
    requires
        joined_bytes(a) == joined_bytes(b),
        joined_bytes(a).len() <= MAX_LINE_BYTES,
    ensures
        drained(seq![], a) == drained(seq![], b),
{
    lemma_drained_reads_joined(seq![], a);
    lemma_drained_reads_joined(seq![], b);
    assert(Seq::<u8>::empty() + joined_bytes(a) =~= joined_bytes(a));
    assert(Seq::<u8>::empty() + joined_bytes(b) =~= joined_bytes(b));
}

/// A token keeps its kind: the token, the thinking flag and the soft-stop flag of a line
/// are all read from the result's `response` when it has one, else from the result
/// itself. An empty token with the soft-stop flag ends the reply; otherwise a token whose
/// own thinking flag is set is a thinking token, never an answer token, and one whose
/// flag is clear is an answer token.
pub proof fn law_tokens_keep_their_kind(l: RawLine, raw: String)
    requires
        !(l.error matches Some(e) && e.message is Some),
        l.result is Some,
        !(l.result.unwrap().conversation matches Some(c) && c.conversation_id is Some),
    ensures
        l.result.unwrap().response matches Some(p) ==> (p.token matches Some(t) ==> chunk_of_line(
            l,
            raw,
        ) == if p.is_soft_stop && t@.len() == 0 {
            Some(StreamChunk::Done)
        } else if p.is_thinking {
            Some(StreamChunk::ThinkingToken { text: t })
        } else {
            Some(StreamChunk::Token { text: t, is_soft_stop: p.is_soft_stop })
        }),
        l.result.unwrap().response is None ==> ({
            let r = l.result.unwrap();
            r.token matches Some(t) ==> chunk_of_line(l, raw) == if r.is_soft_stop && t@.len()
                == 0 {
                Some(StreamChunk::Done)
            } else if r.is_thinking {
                Some(StreamChunk::ThinkingToken { text: t })
            } else {
                Some(StreamChunk::Token { text: t, is_soft_stop: r.is_soft_stop })
            }
        }),
{
}

/// What a line means is decided in order: an error message first, whatever else the line
/// holds; then a line without a result means nothing; then a result that names a new
/// conversation reports its id.
pub proof fn law_line_kinds_in_order(l: RawLine, raw: String)
    ensures
        (l.error matches Some(e) && e.message is Some) ==> chunk_of_line(l, raw) == Some(
            StreamChunk::Error { message: l.error.unwrap().message.unwrap() },
        ),
        !(l.error matches Some(e) && e.message is Some) && l.result is None ==> chunk_of_line(
            l,
            raw,
        ) is None,
        !(l.error matches Some(e) && e.message is Some) && (l.result matches Some(r) && (
        r.conversation matches Some(c) && c.conversation_id matches Some(id))) ==> chunk_of_line(
            l,
            raw,
        ) == Some(
            StreamChunk::ConversationCreated {
                conversation_id: ConversationId(
                    l.result.unwrap().conversation.unwrap().conversation_id.unwrap(),
                ),
            },
        ),
{
}

/// A line without a token reports, from the same member the token would come from
/// (`response` when the result has one), its search results with their query when it has
/// some, else its generated image, else it is passed on as unknown, with its JSON text.
pub proof fn law_lines_without_tokens(l: RawLine, raw: String)
    requires
        !(l.error matches Some(e) && e.message is Some),
        l.result is Some,
        !(l.result.unwrap().conversation matches Some(c) && c.conversation_id is Some),
    ensures
        l.result.unwrap().response matches Some(p) ==> (p.token is None ==> chunk_of_line(l, raw)
            == if p.web_search_results is Some {
            Some(
                StreamChunk::WebSearch {
                    query: p.query,
                    results: p.web_search_results.unwrap(),
                    raw,
                },
            )
        } else if p.generated_image_url is Some {
            Some(StreamChunk::ImageGenerated { url: p.generated_image_url, raw })
        } else {
            Some(StreamChunk::Unknown(raw))
        }),
        l.result.unwrap().response is None ==> ({
            let r = l.result.unwrap();
            r.token is None ==> chunk_of_line(l, raw) == if r.web_search_results is Some {
                Some(
                    StreamChunk::WebSearch {
                        query: r.query,
                        results: r.web_search_results.unwrap(),
                        raw,
                    },
                )
            } else if r.generated_image_url is Some {
                Some(StreamChunk::ImageGenerated { url: r.generated_image_url, raw })
            } else {
                Some(StreamChunk::Unknown(raw))
            }
        }),
{
}

} // verus!
