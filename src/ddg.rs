//! The chat session: its model, its ordered history of turns and its current
//! anti-abuse token; the request body each exchange sends; and the decoder that
//! turns the streamed reply into text fragments and commits the reply.

use vstd::prelude::*;

use crate::wire::{
    json_object_members, json_quote, json_quoted, members_view, opt_view, parse_object,
    strip_prefix, trim_end, trimmed_end, JsonMember,
};

verus! {

/// The failures of a session.
#[derive(Debug)]
pub enum Error {
    /// The request could not be completed; carries the transport's own report.
    Ureq(String),
    /// The handshake response carried no token.
    NoVqdReceived,
    /// The reply stream ended before a terminal frame.
    ResponseEndOfString,
    /// A reply line broke the protocol; carries the line.
    ResponseInvalid(String),
}

/// The abstract value of an [`Error`].
pub enum ErrorView {
    Ureq(Seq<char>),
    NoVqdReceived,
    ResponseEndOfString,
    ResponseInvalid(Seq<char>),
}

impl View for Error {
    type V = ErrorView;

    open spec fn view(&self) -> ErrorView {
        match self {
            Error::Ureq(s) => ErrorView::Ureq(s@),
            Error::NoVqdReceived => ErrorView::NoVqdReceived,
            Error::ResponseEndOfString => ErrorView::ResponseEndOfString,
            Error::ResponseInvalid(s) => ErrorView::ResponseInvalid(s@),
        }
    }
}

/// The text-generation model a session asks for.
#[derive(Debug)]
pub enum DDGChatModel {
    GPT4oMini,
    Llama370B,
    Mixtral8x7B,
    /// Any other model, by its identifier.
    Other(String),
}

impl DDGChatModel {
    /// The identifier that names the model on the wire.
    pub open spec fn spec_identifier(&self) -> Seq<char> {
        match self {
            DDGChatModel::GPT4oMini => "gpt-4o-mini"@,
            DDGChatModel::Llama370B => "meta-llama/Meta-Llama-3.1-70B-Instruct-Turbo"@,
            DDGChatModel::Mixtral8x7B => "mistralai/Mixtral-8x7B-Instruct-v0.1"@,
            DDGChatModel::Other(s) => s@,
        }
    }

    pub fn identifier(&self) -> (r: String)
        ensures
            r@ == self.spec_identifier(),
    {
        match self {
            DDGChatModel::GPT4oMini => "gpt-4o-mini".to_owned(),
            DDGChatModel::Llama370B => "meta-llama/Meta-Llama-3.1-70B-Instruct-Turbo".to_owned(),
            DDGChatModel::Mixtral8x7B => "mistralai/Mixtral-8x7B-Instruct-v0.1".to_owned(),
            DDGChatModel::Other(s) => s.as_str().to_owned(),
        }
    }
}

impl Default for DDGChatModel {
    fn default() -> (r: Self)
        ensures
            r is GPT4oMini,
    {
        DDGChatModel::GPT4oMini
    }
}

/// Who spoke a turn.
#[derive(Clone, Copy, Debug, PartialEq, Eq, Structural)]
pub enum MessageRole {
    User,
    Assistant,
}

impl MessageRole {
    /// The role's name on the wire.
    pub open spec fn spec_wire_name(self) -> Seq<char> {
        match self {
            MessageRole::User => "user"@,
            MessageRole::Assistant => "assistant"@,
        }
    }

    pub fn wire_name(&self) -> (r: &'static str)
        ensures
            r@ == self.spec_wire_name(),
    {
        match self {
            MessageRole::User => "user",
            MessageRole::Assistant => "assistant",
        }
    }
}

/// One turn of the conversation: who spoke, and what.
#[derive(Debug)]
pub struct DDGMessage {
    pub role: MessageRole,
    pub content: String,
}

/// The abstract value of a turn.
pub type Turn = (MessageRole, Seq<char>);

impl View for DDGMessage {
    type V = Turn;

    open spec fn view(&self) -> Turn {
        (self.role, self.content@)
    }
}

pub open spec fn history_view(ms: Seq<DDGMessage>) -> Seq<Turn> {
    ms.map_values(|m: DDGMessage| m@)
}

/// The abstract value of a session.
pub struct ChatView {
    pub model: DDGChatModel,
    pub history: Seq<Turn>,
    pub vqd: Seq<char>,
}

impl ChatView {
    /// The session after the user says `text`.
    pub open spec fn sent(self, text: Seq<char>) -> ChatView {
        ChatView { history: self.history.push((MessageRole::User, text)), ..self }
    }

    /// The session after a response whose token header was `header`: a fresh
    /// token replaces the current one, and without one the current one stays.
    pub open spec fn refreshed(self, header: Option<Seq<char>>) -> ChatView {
        match header {
            Some(t) => ChatView { vqd: t, ..self },
            None => self,
        }
    }
}

/// A conversation with the service.
#[derive(Debug)]
pub struct DDGChat {
    model: DDGChatModel,
    messages: Vec<DDGMessage>,
    current_vqd: String,
}

/// The JSON object that stands for one turn in a request body.
pub open spec fn message_json(t: Turn) -> Seq<char> {
    "{\"role\":"@ + json_quoted(t.0.spec_wire_name()) + ",\"content\":"@ + json_quoted(t.1) + "}"@
}

/// The turns' JSON objects, separated by commas.
pub open spec fn messages_json(h: Seq<Turn>) -> Seq<char>
    decreases h.len(),
{
    if h.len() == 0 {
        Seq::empty()
    } else if h.len() == 1 {
        message_json(h[0])
    } else {
        messages_json(h.drop_last()) + ","@ + message_json(h.last())
    }
}

/// The body of a chat request: the model's identifier and the whole history.
pub open spec fn request_json(model: DDGChatModel, h: Seq<Turn>) -> Seq<char> {
    "{\"model\":"@ + json_quoted(model.spec_identifier()) + ",\"messages\":["@ + messages_json(h)
        + "]}"@
}

impl View for DDGChat {
    type V = ChatView;

    closed spec fn view(&self) -> ChatView {
        ChatView { model: self.model, history: history_view(self.messages@), vqd: self.current_vqd@ }
    }
}

impl DDGChat {
    /// Opens a session from the handshake's token header: without a token
    /// there is no session.
    pub fn new(model: DDGChatModel, vqd_header: Option<String>) -> (r: Result<DDGChat, Error>)
        ensures
            match vqd_header {
                None => r is Err && r->Err_0 is NoVqdReceived,
                Some(t) => r is Ok && r->Ok_0@ == (ChatView {
                    model: model,
                    history: Seq::empty(),
                    vqd: t@,
                }),
            },
    {
        match vqd_header {
            None => Err(Error::NoVqdReceived),
            Some(t) => {
                let chat = DDGChat { model, messages: Vec::new(), current_vqd: t };
                proof {
                    assert(history_view(chat.messages@) =~= Seq::empty());
                }
                Ok(chat)
            },
        }
    }

    pub fn model(&self) -> (r: &DDGChatModel)
        ensures
            *r == self@.model,
    {
        &self.model
    }

    pub fn messages(&self) -> (r: &Vec<DDGMessage>)
        ensures
            history_view(r@) == self@.history,
    {
        &self.messages
    }

    /// The token the next request carries.
    pub fn vqd(&self) -> (r: &str)
        ensures
            r@ == self@.vqd,
    {
        self.current_vqd.as_str()
    }

    /// Records the user's `message` and returns the body of the request that
    /// carries the whole history, that message last.
    pub fn send_message(&mut self, message: &str) -> (body: String)
        ensures
            final(self)@ == old(self)@.sent(message@),
            body@ == request_json(final(self)@.model, final(self)@.history),
    {
        self.messages.push(DDGMessage { role: MessageRole::User, content: message.to_owned() });
        proof {
            assert(history_view(self.messages@) =~= old(self)@.history.push(
                (MessageRole::User, message@),
            ));
        }
        self.request_body()
    }

    /// Takes the token header of a chat response: a fresh token replaces the
    /// current one, and without one the current one stays.
    pub fn update_vqd(&mut self, header: Option<String>)
        ensures
            final(self)@ == old(self)@.refreshed(opt_view(header)),
    {
        if let Some(t) = header {
            self.current_vqd = t;
        }
    }

    /// Appends an assistant turn.
    fn push_reply(&mut self, content: String)
        ensures
            final(self)@ == (ChatView {
                history: old(self)@.history.push((MessageRole::Assistant, content@)),
                ..old(self)@
            }),
    {
        self.messages.push(DDGMessage { role: MessageRole::Assistant, content });
        proof {
            assert(history_view(self.messages@) =~= old(self)@.history.push(
                (MessageRole::Assistant, content@),
            ));
        }
    }

    /// The body of a chat request for the session as it stands.
    pub fn request_body(&self) -> (r: String)
        ensures
            r@ == request_json(self@.model, self@.history),
    {
        let mut r = "{\"model\":".to_owned();
        let id = self.model.identifier();
        r.append(json_quote(id.as_str()).as_str());
        r.append(",\"messages\":[");
        let ghost h = self@.history;
        let mut i: usize = 0;
        while i < self.messages.len()
            invariant
                i <= self.messages@.len(),
                h == history_view(self.messages@),
                r@ == "{\"model\":"@ + json_quoted(self.model.spec_identifier()) + ",\"messages\":["@
                    + messages_json(h.take(i as int)),
            decreases self.messages.len() - i,
        {
            let m = &self.messages[i];
            let mut piece = "{\"role\":".to_owned();
            piece.append(json_quote(m.role.wire_name()).as_str());
            piece.append(",\"content\":");
            piece.append(json_quote(m.content.as_str()).as_str());
            piece.append("}");
            proof {
                let t = h.take(i + 1);
                assert(t.drop_last() =~= h.take(i as int));
                assert(t.last() == m@);
                assert(piece@ =~= message_json(m@));
                if i == 0 {
                    assert(h.take(0) =~= Seq::<Turn>::empty());
                }
            }
            if i > 0 {
                r.append(",");
            }
            r.append(piece.as_str());
            i = i + 1;
        }
        proof {
            assert(h.take(i as int) =~= h);
        }
        r.append("]}");
        r
    }
}

/// What one reply line means to the decoder.
#[derive(Debug)]
pub enum Frame {
    /// No line could be read: the stream ended.
    End,
    /// The reply is complete.
    Done,
    /// The next piece of the reply.
    Fragment(String),
    /// A line that breaks the protocol.
    Malformed(String),
}

/// The abstract value of a [`Frame`].
pub enum FrameView {
    End,
    Done,
    Fragment(Seq<char>),
    Malformed(Seq<char>),
}

impl View for Frame {
    type V = FrameView;

    open spec fn view(&self) -> FrameView {
        match self {
            Frame::End => FrameView::End,
            Frame::Done => FrameView::Done,
            Frame::Fragment(s) => FrameView::Fragment(s@),
            Frame::Malformed(s) => FrameView::Malformed(s@),
        }
    }
}

/// How a reply ended.
#[derive(Debug)]
pub enum Outcome {
    Success,
    TruncatedStream,
    /// Carries the offending line.
    MalformedFrame(String),
}

/// Where a decoder stands: still streaming, or ended in one of the outcomes.
pub enum Phase {
    Streaming,
    Success,
    TruncatedStream,
    MalformedFrame(Seq<char>),
}

pub open spec fn phase_of(o: Option<Outcome>) -> Phase {
    match o {
        None => Phase::Streaming,
        Some(Outcome::Success) => Phase::Success,
        Some(Outcome::TruncatedStream) => Phase::TruncatedStream,
        Some(Outcome::MalformedFrame(l)) => Phase::MalformedFrame(l@),
    }
}

/// The abstract value of a decoder: the reply text gathered and not yet
/// committed, whether any fragment was handed out, and the phase.
pub struct DecoderView {
    pub content: Seq<char>,
    pub shown: bool,
    pub phase: Phase,
}

/// The decoder of one streamed reply. Each step takes the session the
/// exchange belongs to; the reply is committed to its history when the stream
/// ends, and on a malformed line only once some fragment was handed out.
#[derive(Debug)]
pub struct DDGResponse {
    content: String,
    shown: bool,
    outcome: Option<Outcome>,
}

impl View for DDGResponse {
    type V = DecoderView;

    closed spec fn view(&self) -> DecoderView {
        DecoderView { content: self.content@, shown: self.shown, phase: phase_of(self.outcome) }
    }
}

/// A decoder before its first line.
pub open spec fn fresh_decoder() -> DecoderView {
    DecoderView { content: Seq::empty(), shown: false, phase: Phase::Streaming }
}

pub open spec fn result_view(r: Result<Option<String>, Error>) -> Result<Option<Seq<char>>, ErrorView> {
    match r {
        Ok(o) => Ok(opt_view(o)),
        Err(e) => Err(e@),
    }
}

/// The line a read gave: its text without trailing whitespace, and none when
/// the read failed or left nothing.
pub open spec fn line_of(raw: Option<Seq<char>>) -> Option<Seq<char>> {
    match raw {
        None => None,
        Some(s) => if trimmed_end(s).len() == 0 {
            None
        } else {
            Some(trimmed_end(s))
        },
    }
}

/// The value of the first member named `key` at or after position `i`:
/// `None` when there is none, `Some(None)` when its value is not a string.
pub open spec fn member_from(ms: Seq<(Seq<char>, Option<Seq<char>>)>, key: Seq<char>, i: int) -> Option<
    Option<Seq<char>>,
>
    decreases ms.len() - i,
{
    if i < 0 || i >= ms.len() {
        None
    } else if ms[i].0 == key {
        Some(ms[i].1)
    } else {
        member_from(ms, key, i + 1)
    }
}

/// What a record says: an error unless it is an object whose `action` is the
/// string `success`; then its `message` when it has one, which must be a string.
pub open spec fn message_data(members: Option<Seq<(Seq<char>, Option<Seq<char>>)>>) -> Result<
    Option<Seq<char>>,
    (),
> {
    match members {
        None => Err(()),
        Some(ms) => match member_from(ms, "action"@, 0) {
            Some(Some(a)) => if a == "success"@ {
                match member_from(ms, "message"@, 0) {
                    None => Ok(None),
                    Some(Some(m)) => Ok(Some(m)),
                    Some(None) => Err(()),
                }
            } else {
                Err(())
            },
            _ => Err(()),
        },
    }
}

/// The record in a line: the line without its event marker, when it has one.
pub open spec fn record_of(l: Seq<char>) -> Seq<char> {
    if "data: "@.is_prefix_of(l) {
        l.subrange("data: "@.len() as int, l.len() as int)
    } else {
        l
    }
}

/// The frame in a line once the record has been read as `members`.
pub open spec fn frame_from(
    l: Seq<char>,
    members: Option<Seq<(Seq<char>, Option<Seq<char>>)>>,
) -> FrameView {
    if record_of(l) == "[DONE]"@ {
        FrameView::Done
    } else {
        match message_data(members) {
            Err(()) => FrameView::Malformed(l),
            Ok(Some(m)) => FrameView::Fragment(m),
            Ok(None) => FrameView::Done,
        }
    }
}

/// The frame in a line, or `End` where there is none.
pub open spec fn frame_of(line: Option<Seq<char>>) -> FrameView {
    match line {
        None => FrameView::End,
        Some(l) => frame_from(l, json_object_members(record_of(l))),
    }
}

/// The decoder after it commits its text to the history `h` and ends in `p`.
pub open spec fn committed(d: DecoderView, h: Seq<Turn>, p: Phase) -> (DecoderView, Seq<Turn>) {
    (
        DecoderView { content: Seq::empty(), shown: d.shown, phase: p },
        h.push((MessageRole::Assistant, d.content)),
    )
}

/// One step of the decoder on frame `f`, with history `h`: the new decoder,
/// the new history, and what the step hands back. An ended decoder stays as it
/// is and hands back nothing.
pub open spec fn decode_step(d: DecoderView, h: Seq<Turn>, f: FrameView) -> (
    DecoderView,
    Seq<Turn>,
    Result<Option<Seq<char>>, ErrorView>,
) {
    if !(d.phase is Streaming) {
        (d, h, Ok(None))
    } else {
        match f {
            FrameView::End => {
                let c = committed(d, h, Phase::TruncatedStream);
                (c.0, c.1, Err(ErrorView::ResponseEndOfString))
            },
            FrameView::Done => {
                let c = committed(d, h, Phase::Success);
                (c.0, c.1, Ok(None))
            },
            FrameView::Fragment(m) => (
                DecoderView { content: d.content + m, shown: true, phase: Phase::Streaming },
                h,
                Ok(Some(m)),
            ),
            FrameView::Malformed(l) => if d.shown {
                let c = committed(d, h, Phase::MalformedFrame(l));
                (c.0, c.1, Err(ErrorView::ResponseInvalid(l)))
            } else {
                (DecoderView { phase: Phase::MalformedFrame(l), ..d }, h, Err(ErrorView::ResponseInvalid(l)))
            },
        }
    }
}

pub open spec fn members_opt_view(members: Option<Vec<JsonMember>>) -> Option<
    Seq<(Seq<char>, Option<Seq<char>>)>,
> {
    match members {
        None => None,
        Some(v) => Some(members_view(v@)),
    }
}

pub open spec fn unit_result_view(r: Result<Option<String>, ()>) -> Result<Option<Seq<char>>, ()> {
    match r {
        Ok(o) => Ok(opt_view(o)),
        Err(()) => Err(()),
    }
}

/// The position of the first member named `key`.
fn find_member(ms: &Vec<JsonMember>, key: &str) -> (r: Option<usize>)
    ensures
        match r {
            None => member_from(members_view(ms@), key@, 0) is None,
            Some(i) => i < ms@.len() && member_from(members_view(ms@), key@, 0) == Some(
                opt_view(ms@[i as int].text),
            ),
        },
{
    let ghost v = members_view(ms@);
    let wanted = key.to_owned();
    let mut i: usize = 0;
    while i < ms.len()
        invariant
            i <= ms@.len(),
            v == members_view(ms@),
            member_from(v, key@, 0) == member_from(v, key@, i as int),
            wanted@ == key@,
        decreases ms.len() - i,
    {
        assert(v[i as int] == ms@[i as int]@);
        if ms[i].key.eq(&wanted) {
            return Some(i);
        }
        i = i + 1;
    }
    None
}

/// Reads what a record says from its members, as `serde_json` gave them:
/// an error unless the record is an object whose `action` is `success`; then
/// its `message`, when it has one.
pub fn message_from_members(members: Option<Vec<JsonMember>>) -> (r: Result<Option<String>, ()>)
    ensures
        unit_result_view(r) == message_data(members_opt_view(members)),
{
    let ms = match members {
        None => return Err(()),
        Some(ms) => ms,
    };
    let action = match find_member(&ms, "action") {
        None => return Err(()),
        Some(i) => i,
    };
    let success = "success".to_owned();
    match &ms[action].text {
        Some(a) => {
            if !a.eq(&success) {
                return Err(());
            }
        },
        None => return Err(()),
    }
    match find_member(&ms, "message") {
        None => Ok(None),
        Some(i) => match &ms[i].text {
            Some(m) => Ok(Some(m.clone())),
            None => Err(()),
        },
    }
}

/// Reads a record: an error unless it is a JSON object whose `action` is
/// `success`; then its `message`, when it has one.
pub fn parse_message_data(data: &str) -> (r: Result<Option<String>, ()>)
    ensures
        unit_result_view(r) == message_data(json_object_members(data@)),
{
    message_from_members(parse_object(data))
}

/// The frame in `line`, a line other than the sentinel, once its record has
/// been read by [`parse_message_data`] as `parsed`.
pub fn frame_from_parsed(line: String, parsed: Result<Option<String>, ()>) -> (r: Frame)
    ensures
        r@ == match unit_result_view(parsed) {
            Err(()) => FrameView::Malformed(line@),
            Ok(Some(m)) => FrameView::Fragment(m),
            Ok(None) => FrameView::Done,
        },
{
    match parsed {
        Err(()) => Frame::Malformed(line),
        Ok(Some(m)) => Frame::Fragment(m),
        Ok(None) => Frame::Done,
    }
}

impl DDGResponse {
    /// A decoder before its first line.
    pub fn new() -> (r: DDGResponse)
        ensures
            r@ == fresh_decoder(),
    {
        DDGResponse { content: String::new(), shown: false, outcome: None }
    }

    /// The reply text gathered and not yet committed.
    pub fn content(&self) -> (r: &str)
        ensures
            r@ == self@.content,
    {
        self.content.as_str()
    }

    /// How the reply ended; `None` while it streams.
    pub fn outcome(&self) -> (r: &Option<Outcome>)
        ensures
            phase_of(*r) == self@.phase,
    {
        &self.outcome
    }

    /// The line that a read gave (`None` when the read failed): without its
    /// trailing whitespace, and `None` when nothing is left of it.
    pub fn get_next_line(raw: Option<String>) -> (r: Option<String>)
        ensures
            opt_view(r) == line_of(opt_view(raw)),
    {
        match raw {
            None => None,
            Some(s) => {
                let t = trim_end(s.as_str());
                if t.as_str().is_empty() {
                    None
                } else {
                    Some(t)
                }
            },
        }
    }

    /// The frame that a line holds; `End` where there is no line.
    pub fn decode_frame(line: Option<String>) -> (r: Frame)
        ensures
            r@ == frame_of(opt_view(line)),
    {
        let line = match line {
            None => return Frame::End,
            Some(l) => l,
        };
        let data = match strip_prefix(line.as_str(), "data: ") {
            Some(rest) => {
                proof {
                    assert(rest@ =~= line@.subrange("data: "@.len() as int, line@.len() as int));
                }
                rest
            },
            None => line.clone(),
        };
        if data.eq(&"[DONE]".to_owned()) {
            return Frame::Done;
        }
        let parsed = parse_message_data(data.as_str());
        frame_from_parsed(line, parsed)
    }

    /// Commits the gathered text to `chat` as an assistant turn.
    pub fn finish(&mut self, chat: &mut DDGChat)
        ensures
            final(self)@ == (DecoderView { content: Seq::empty(), ..old(self)@ }),
            final(chat)@ == (ChatView {
                history: old(chat)@.history.push((MessageRole::Assistant, old(self)@.content)),
                ..old(chat)@
            }),
    {
        let content = self.content.clone();
        self.content = String::new();
        chat.push_reply(content);
    }

    /// One step of the decoder on `frame`, with the session `chat` whose
    /// history it commits to.
    pub fn advance(&mut self, chat: &mut DDGChat, frame: Frame) -> (r: Result<Option<String>, Error>)
        ensures
            (final(self)@, final(chat)@.history, result_view(r)) == decode_step(
                old(self)@,
                old(chat)@.history,
                frame@,
            ),
            final(chat)@.model == old(chat)@.model,
            final(chat)@.vqd == old(chat)@.vqd,
    {
        if self.outcome.is_some() {
            return Ok(None);
        }
        match frame {
            Frame::End => {
                self.finish(chat);
                self.outcome = Some(Outcome::TruncatedStream);
                Err(Error::ResponseEndOfString)
            },
            Frame::Done => {
                self.finish(chat);
                self.outcome = Some(Outcome::Success);
                Ok(None)
            },
            Frame::Fragment(m) => {
                self.content.append(m.as_str());
                self.shown = true;
                Ok(Some(m))
            },
            Frame::Malformed(l) => {
                if self.shown {
                    self.finish(chat);
                }
                self.outcome = Some(Outcome::MalformedFrame(l.clone()));
                Err(Error::ResponseInvalid(l))
            },
        }
    }

    /// Decodes the next line that a read gave (`None` when the read failed),
    /// with the session `chat` whose history the reply is committed to.
    pub fn next(&mut self, chat: &mut DDGChat, raw_line: Option<String>) -> (r: Result<Option<String>, Error>)
        ensures
            (final(self)@, final(chat)@.history, result_view(r)) == decode_step(
                old(self)@,
                old(chat)@.history,
                frame_of(line_of(opt_view(raw_line))),
            ),
            final(chat)@.model == old(chat)@.model,
            final(chat)@.vqd == old(chat)@.vqd,
    {
        let line = DDGResponse::get_next_line(raw_line);
        let frame = DDGResponse::decode_frame(line);
        self.advance(chat, frame)
    }
}

/// The decoder and history after each frame of `fs` in turn.
pub open spec fn decode_run(d: DecoderView, h: Seq<Turn>, fs: Seq<FrameView>) -> (DecoderView, Seq<Turn>)
    decreases fs.len(),
{
    if fs.len() == 0 {
        (d, h)
    } else {
        let s = decode_step(d, h, fs[0]);
        decode_run(s.0, s.1, fs.drop_first())
    }
}

/// The frames of a reply that streams `fragments` and then completes.
pub open spec fn reply_frames(fragments: Seq<Seq<char>>) -> Seq<FrameView> {
    fragments.map_values(|f: Seq<char>| FrameView::Fragment(f)).push(FrameView::Done)
}

/// The fragments joined in order.
pub open spec fn joined(fragments: Seq<Seq<char>>) -> Seq<char>
    decreases fragments.len(),
{
    if fragments.len() == 0 {
        Seq::empty()
    } else {
        fragments[0] + joined(fragments.drop_first())
    }
}

/// The session after one successful exchange: the user says `user`, and the
/// reply streams `fragments` and completes.
pub open spec fn exchange(v: ChatView, user: Seq<char>, fragments: Seq<Seq<char>>) -> ChatView {
    let s = v.sent(user);
    ChatView { history: decode_run(fresh_decoder(), s.history, reply_frames(fragments)).1, ..s }
}

/// The session after the successful exchanges `ex`, in order.
pub open spec fn conversation(v: ChatView, ex: Seq<(Seq<char>, Seq<Seq<char>>)>) -> ChatView
    decreases ex.len(),
{
    if ex.len() == 0 {
        v
    } else {
        exchange(conversation(v, ex.drop_last()), ex.last().0, ex.last().1)
    }
}

/// A streaming decoder that takes fragments and then the terminal frame
/// commits exactly one turn: everything it gathered, those fragments last.
pub proof fn lemma_reply_commits_once(d: DecoderView, h: Seq<Turn>, fragments: Seq<Seq<char>>)
    requires
        d.phase is Streaming,
    ensures
        decode_run(d, h, reply_frames(fragments)).1 == h.push(
            (MessageRole::Assistant, d.content + joined(fragments)),
        ),
    decreases fragments.len(),
{
    let fs = reply_frames(fragments);
    if fragments.len() == 0 {
        assert(fs[0] == FrameView::Done);
        assert(fs.drop_first() =~= Seq::<FrameView>::empty());
        let st = decode_step(d, h, fs[0]);
        assert(decode_run(st.0, st.1, Seq::<FrameView>::empty()) == (st.0, st.1));
        assert(d.content + joined(fragments) =~= d.content);
    } else {
        let rest = fragments.drop_first();
        assert(fs[0] == FrameView::Fragment(fragments[0]));
        assert(fs.drop_first() =~= reply_frames(rest));
        let d2 = DecoderView { content: d.content + fragments[0], shown: true, phase: Phase::Streaming };
        assert(decode_step(d, h, fs[0]) == (d2, h, Ok::<Option<Seq<char>>, ErrorView>(Some(fragments[0]))));
        lemma_reply_commits_once(d2, h, rest);
        assert(d2.content + joined(rest) =~= d.content + joined(fragments));
    }
}

/// After n successful exchanges from an empty history, the history holds 2n
/// turns that alternate strictly: the k-th user message at 2k, and the k-th
/// reply, whole, at 2k + 1.
pub proof fn lemma_history_alternates(v: ChatView, ex: Seq<(Seq<char>, Seq<Seq<char>>)>)
    requires
        v.history.len() == 0,
    ensures
        conversation(v, ex).history.len() == 2 * ex.len(),
        forall|i: int|
            0 <= i < 2 * ex.len() ==> #[trigger] conversation(v, ex).history[i] == if i % 2 == 0 {
                (MessageRole::User, ex[i / 2].0)
            } else {
                (MessageRole::Assistant, joined(ex[i / 2].1))
            },
    decreases ex.len(),
{
    if ex.len() > 0 {
        let prev = ex.drop_last();
        lemma_history_alternates(v, prev);
        let c = conversation(v, prev);
        let s = c.sent(ex.last().0);
        lemma_reply_commits_once(fresh_decoder(), s.history, ex.last().1);
        assert(fresh_decoder().content + joined(ex.last().1) =~= joined(ex.last().1));
        let h = conversation(v, ex).history;
        assert(h == c.history.push((MessageRole::User, ex.last().0)).push(
            (MessageRole::Assistant, joined(ex.last().1)),
        ));
        assert forall|i: int| 0 <= i < 2 * ex.len() implies #[trigger] h[i] == if i % 2 == 0 {
            (MessageRole::User, ex[i / 2].0)
        } else {
            (MessageRole::Assistant, joined(ex[i / 2].1))
        } by {
            if i < 2 * prev.len() {
                assert(c.history[i] == h[i]);
                assert(prev[i / 2] == ex[i / 2]);
            }
        }
    }
}

/// The session after responses whose token headers were `headers`, in order.
pub open spec fn refreshed_all(v: ChatView, headers: Seq<Option<Seq<char>>>) -> ChatView
    decreases headers.len(),
{
    if headers.len() == 0 {
        v
    } else {
        refreshed_all(v, headers.drop_last()).refreshed(headers.last())
    }
}

/// The token a session holds after a run of responses is the one the last
/// response that carried a token gave, and the one it held before them when
/// none did; so the token never falls back to empty unless the service sent
/// an empty one.
pub proof fn lemma_token_follows_headers(v: ChatView, headers: Seq<Option<Seq<char>>>)
    ensures
        (forall|i: int| 0 <= i < headers.len() ==> #[trigger] headers[i] is None) ==> refreshed_all(
            v,
            headers,
        ).vqd == v.vqd,
        forall|i: int|
            0 <= i < headers.len() && #[trigger] headers[i] is Some && (forall|j: int|
                i < j < headers.len() ==> headers[j] is None) ==> refreshed_all(v, headers).vqd
                == headers[i]->0,
        (v.vqd.len() > 0 && forall|i: int|
            0 <= i < headers.len() && #[trigger] headers[i] is Some ==> headers[i]->0.len() > 0)
            ==> refreshed_all(v, headers).vqd.len() > 0,
        refreshed_all(v, headers).model == v.model,
        refreshed_all(v, headers).history == v.history,
    decreases headers.len(),
{
    if headers.len() > 0 {
        let prev = headers.drop_last();
        lemma_token_follows_headers(v, prev);
        assert forall|i: int| 0 <= i < prev.len() implies #[trigger] prev[i] == headers[i] by {}
        let n = headers.len() - 1;
        assert forall|i: int|
            0 <= i < headers.len() && #[trigger] headers[i] is Some && (forall|j: int|
                i < j < headers.len() ==> headers[j] is None) implies refreshed_all(v, headers).vqd
            == headers[i]->0 by {
            if i < n {
                assert(headers[n] is None);
                assert forall|j: int| i < j < prev.len() implies prev[j] is None by {
                    assert(headers[j] is None);
                }
                assert(prev[i] is Some);
            }
        }
        if v.vqd.len() > 0 && forall|i: int|
            0 <= i < headers.len() && #[trigger] headers[i] is Some ==> headers[i]->0.len() > 0 {
            assert forall|i: int| 0 <= i < prev.len() && #[trigger] prev[i] is Some implies prev[i]->0.len() > 0 by {
                assert(headers[i] is Some);
            }
            assert(headers[n] == headers.last());
        }
        if forall|i: int| 0 <= i < headers.len() ==> #[trigger] headers[i] is None {
            assert forall|i: int| 0 <= i < prev.len() implies #[trigger] prev[i] is None by {
                assert(headers[i] is None);
            }
            assert(headers[n] is None);
        }
    }
}

} // verus!
