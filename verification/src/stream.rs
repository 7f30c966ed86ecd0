//! Decoding of the server-sent-event stream of a streaming chat completion:
//! bytes become text, text becomes lines, lines become stream chunks, and
//! chunks become reply text and the end of the reply.

use vstd::prelude::*;
use vstd::utf8::valid_utf8;

use crate::event::Usage;
use crate::text::{
    find_char, first_index, lemma_first_index, from_chars, has_prefix, lossy_decode, starts_with_chars, to_chars,
    trim_end_char, trim_end_matching, utf8_lossy,
};

verus! {

/// `s` with every NUL character removed.
pub open spec fn without_nul(s: Seq<char>) -> Seq<char>
    decreases s.len(),
{
    if s.len() == 0 {
        s
    } else if s.last() == '\0' {
        without_nul(s.drop_last())
    } else {
        without_nul(s.drop_last()).push(s.last())
    }
}

/// The views of a sequence of strings.
pub open spec fn views(v: Seq<String>) -> Seq<Seq<char>> {
    v.map_values(|s: String| s@)
}

/// Text received so far that does not yet form a complete line.
pub struct SseDecoder {
    buffer: Vec<char>,
}

impl View for SseDecoder {
    type V = Seq<char>;

    closed spec fn view(&self) -> Seq<char> {
        self.buffer@
    }
}

/// How one line of the event stream is read.
#[derive(Debug)]
pub enum SseLine {
    /// `data: [DONE]`: the reply is complete.
    Done,
    /// A `data: ` line; the text after the prefix.
    Data(String),
    /// Any other line (comments, blank separators, other fields).
    Other,
}

impl SseDecoder {
    pub fn new() -> (d: Self)
        ensures
            d@ == Seq::<char>::empty(),
    {
        SseDecoder { buffer: Vec::new() }
    }

    /// Appends a received chunk of bytes, decoded as UTF-8 with invalid
    /// sequences replaced, and with NUL characters dropped.
    pub fn push_bytes(&mut self, bytes: &[u8])
        ensures
            final(self)@ == old(self)@ + without_nul(utf8_lossy(bytes@)),
            valid_utf8(bytes@) ==> final(self)@ == old(self)@ + without_nul(
                vstd::utf8::decode_utf8(bytes@),
            ),
    {
        let text = lossy_decode(bytes);
        self.push_text(text.as_str());
    }

    /// Appends text with its NUL characters dropped.
    pub fn push_text(&mut self, text: &str)
        ensures
            final(self)@ == old(self)@ + without_nul(text@),
    {
        let chars = to_chars(text);
        let ghost start = self.buffer@;
        let mut i: usize = 0;
        while i < chars.len()
            invariant
                i <= chars@.len(),
                chars@ == text@,
                self.buffer@ == start + without_nul(chars@.take(i as int)),
            decreases chars@.len() - i,
        {
            assert(chars@.take(i + 1).drop_last() =~= chars@.take(i as int));
            let c = chars[i];
            if c != '\0' {
                self.buffer.push(c);
            }
            i = i + 1;
            assert(start + without_nul(chars@.take(i as int)) =~= self.buffer@);
        }
        assert(chars@.take(chars@.len() as int) =~= chars@);
    }

    /// Takes the next complete line out of the buffer, without its line
    /// feed and without trailing carriage returns.
    pub fn next_line(&mut self) -> (r: Option<String>)
        ensures
            match first_index(old(self)@, '\n') {
                Some(p) => (r matches Some(line) && line@ == trim_end_char(old(self)@.take(p), '\r'))
                    && final(self)@ == old(self)@.skip(p + 1),
                None => r is None && final(self)@ == old(self)@,
            },
    {
        match find_char(self.buffer.as_slice(), '\n') {
            Some(p) => {
                let line = trim_end_matching(&self.buffer.as_slice()[0..p], '\r');
                assert(self.buffer@.subrange(0, p as int) =~= self.buffer@.take(p as int));
                let n = self.buffer.len();
                let rest = &self.buffer.as_slice()[p + 1..n];
                let mut kept: Vec<char> = Vec::new();
                let mut i: usize = 0;
                while i < rest.len()
                    invariant
                        i <= rest@.len(),
                        kept@ == rest@.take(i as int),
                    decreases rest@.len() - i,
                {
                    kept.push(rest[i]);
                    assert(rest@.take(i + 1) =~= rest@.take(i as int).push(rest@[i as int]));
                    i = i + 1;
                }
                assert(rest@.take(rest@.len() as int) =~= rest@);
                assert(rest@ =~= self.buffer@.skip(p + 1));
                self.buffer = kept;
                Some(line)
            },
            None => None,
        }
    }
}

/// The complete lines of text `s` when the current line so far is `cur`
/// (each without its line feed and trailing carriage returns), and the
/// text left after the last line feed.
pub open spec fn drain_from(s: Seq<char>, cur: Seq<char>) -> (Seq<Seq<char>>, Seq<char>)
    decreases s.len(),
{
    if s.len() == 0 {
        (Seq::empty(), cur)
    } else if s[0] == '\n' {
        let rest = drain_from(s.drop_first(), Seq::empty());
        (seq![trim_end_char(cur, '\r')] + rest.0, rest.1)
    } else {
        drain_from(s.drop_first(), cur.push(s[0]))
    }
}

/// The complete lines of a buffer and the text after the last line feed.
pub open spec fn drain(buf: Seq<char>) -> (Seq<Seq<char>>, Seq<char>) {
    drain_from(buf, Seq::empty())
}

/// Characters without a line feed join the current line.
pub proof fn lemma_drain_no_newline(s: Seq<char>, cur: Seq<char>, p: int)
    requires
        0 <= p <= s.len(),
        forall|j: int| 0 <= j < p ==> s[j] != '\n',
    ensures
        drain_from(s, cur) == drain_from(s.skip(p), cur + s.take(p)),
    decreases p,
{
    if p == 0 {
        assert(s.skip(0) =~= s);
        assert(cur + s.take(0) =~= cur);
    } else {
        assert(s[0] != '\n');
        lemma_drain_no_newline(s.drop_first(), cur.push(s[0]), p - 1);
        assert(s.drop_first().skip(p - 1) =~= s.skip(p));
        assert(cur.push(s[0]) + s.drop_first().take(p - 1) =~= cur + s.take(p));
    }
}

/// Draining text in two parts gives the lines of the first part, then the
/// lines of the second part continuing the first part's unfinished line.
pub proof fn lemma_drain_concat(a: Seq<char>, b: Seq<char>, cur: Seq<char>)
    ensures
        drain_from(a + b, cur) == ({
            let first = drain_from(a, cur);
            let second = drain_from(b, first.1);
            (first.0 + second.0, second.1)
        }),
    decreases a.len(),
{
    if a.len() == 0 {
        assert(a + b =~= b);
        assert(Seq::<Seq<char>>::empty() + drain_from(b, cur).0 =~= drain_from(b, cur).0);
    } else {
        assert((a + b).drop_first() =~= a.drop_first() + b);
        assert((a + b)[0] == a[0]);
        if a[0] == '\n' {
            lemma_drain_concat(a.drop_first(), b, Seq::empty());
            let first = drain_from(a.drop_first(), Seq::empty());
            let second = drain_from(b, first.1);
            assert(seq![trim_end_char(cur, '\r')] + (first.0 + second.0) =~= (seq![
                trim_end_char(cur, '\r'),
            ] + first.0) + second.0);
        } else {
            lemma_drain_concat(a.drop_first(), b, cur.push(a[0]));
        }
    }
}

/// One call of `next_line` takes the first line that `drain` finds, and
/// leaves a buffer that drains to the remaining lines; without a line feed
/// there is no line.
pub proof fn lemma_next_line_follows_drain(buf: Seq<char>)
    ensures
        match first_index(buf, '\n') {
            Some(p) => drain(buf) == ({
                let rest = drain(buf.skip(p + 1));
                (seq![trim_end_char(buf.take(p), '\r')] + rest.0, rest.1)
            }),
            None => drain(buf) == (Seq::<Seq<char>>::empty(), buf),
        },
{
    lemma_first_index(buf, '\n');
    match first_index(buf, '\n') {
        Some(p) => {
            lemma_drain_no_newline(buf, Seq::empty(), p);
            assert(Seq::<char>::empty() + buf.take(p) =~= buf.take(p));
            assert(buf.skip(p)[0] == '\n');
            assert(buf.skip(p).drop_first() =~= buf.skip(p + 1));
        },
        None => {
            assert forall|j: int| 0 <= j < buf.len() implies buf[j] != '\n' by {
                if buf[j] == '\n' {
                    assert(exists|i: int| 0 <= i < buf.len() && buf[i] == '\n');
                }
            }
            lemma_drain_no_newline(buf, Seq::empty(), buf.len() as int);
            assert(buf.skip(buf.len() as int) =~= Seq::<char>::empty());
            assert(Seq::<char>::empty() + buf.take(buf.len() as int) =~= buf);
        },
    }
}

/// How a line of the event stream is read.
pub open spec fn sse_line_spec(line: Seq<char>) -> Option<Option<Seq<char>>> {
    if has_prefix(line, "data: [DONE]"@) {
        Some(None)
    } else if has_prefix(line, "data: "@) {
        Some(Some(line.skip(6)))
    } else {
        None
    }
}

/// Reads one line of the event stream: the end marker, a data payload, or
/// anything else.
pub fn classify_line(line: &str) -> (r: SseLine)
    ensures
        has_prefix(line@, "data: [DONE]"@) ==> r is Done,
        !has_prefix(line@, "data: [DONE]"@) && has_prefix(line@, "data: "@) ==> (r matches SseLine::Data(
            payload) && payload@ == line@.skip("data: "@.len() as int)),
        !has_prefix(line@, "data: [DONE]"@) && !has_prefix(line@, "data: "@) ==> r is Other,
{
    let chars = to_chars(line);
    let done = to_chars("data: [DONE]");
    let data = to_chars("data: ");
    if starts_with_chars(chars.as_slice(), done.as_slice()) {
        SseLine::Done
    } else if starts_with_chars(chars.as_slice(), data.as_slice()) {
        let n = data.len();
        let payload = from_chars(&chars.as_slice()[n..chars.len()]);
        assert(chars@.subrange(n as int, chars@.len() as int) =~= chars@.skip(n as int));
        SseLine::Data(payload)
    } else {
        SseLine::Other
    }
}

/// The text increment of one streamed choice.
#[derive(Debug, Clone)]
pub struct Delta {
    pub content: Option<String>,
}

/// One choice of a streamed chunk.
#[derive(Debug, Clone)]
pub struct StreamChoice {
    pub delta: Option<Delta>,
    pub finish_reason: Option<String>,
}

/// Token counts as the server reports them in a chunk.
#[derive(Debug, Clone, Copy)]
pub struct StreamUsage {
    pub prompt_tokens: Option<u64>,
    pub completion_tokens: Option<u64>,
}

/// A single chunk of a streaming chat completion.
#[derive(Debug, Clone)]
pub struct StreamChunk {
    pub choices: Option<Vec<StreamChoice>>,
    pub usage: Option<StreamUsage>,
}

/// What a chunk contributes to the reply: text increments, in order, and,
/// if one of its choices finished, the end of the reply with its usage.
#[derive(Debug)]
pub struct ChunkOutcome {
    pub deltas: Vec<String>,
    pub done: Option<Option<Usage>>,
}

/// The text a choice carries (empty when it carries none).
pub open spec fn choice_text(c: StreamChoice) -> Seq<char> {
    match c.delta {
        Some(d) => match d.content {
            Some(s) => s@,
            None => Seq::<char>::empty(),
        },
        None => Seq::<char>::empty(),
    }
}

/// The non-empty texts of the choices, up to and including the first
/// choice that finishes.
pub open spec fn choice_deltas(cs: Seq<StreamChoice>) -> Seq<Seq<char>>
    decreases cs.len(),
{
    if cs.len() == 0 {
        Seq::<Seq<char>>::empty()
    } else {
        let here = if choice_text(cs[0]).len() > 0 {
            seq![choice_text(cs[0])]
        } else {
            Seq::<Seq<char>>::empty()
        };
        if cs[0].finish_reason is Some {
            here
        } else {
            here + choice_deltas(cs.drop_first())
        }
    }
}

/// Some choice finishes.
pub open spec fn any_finished(cs: Seq<StreamChoice>) -> bool {
    exists|i: int| 0 <= i < cs.len() && (#[trigger] cs[i]).finish_reason is Some
}

/// The usage reported with the end of a reply; missing counts are zero.
pub open spec fn usage_of(u: Option<StreamUsage>) -> Option<Usage> {
    match u {
        Some(u) => Some(
            Usage {
                input_tokens: match u.prompt_tokens {
                    Some(n) => n,
                    None => 0,
                },
                output_tokens: match u.completion_tokens {
                    Some(n) => n,
                    None => 0,
                },
            },
        ),
        None => None,
    }
}

/// The usage of a chunk, as the end of a reply reports it.
pub fn usage_from(u: Option<StreamUsage>) -> (r: Option<Usage>)
    ensures
        r == usage_of(u),
{
    match u {
        Some(u) => Some(
            Usage {
                input_tokens: match u.prompt_tokens {
                    Some(n) => n,
                    None => 0,
                },
                output_tokens: match u.completion_tokens {
                    Some(n) => n,
                    None => 0,
                },
            },
        ),
        None => None,
    }
}

/// What one chunk contributes: every non-empty text of its choices up to
/// the first finished choice, and the end of the reply (with the chunk's
/// usage) if some choice finished.
pub fn chunk_outcome(chunk: &StreamChunk) -> (r: ChunkOutcome)
    ensures
        match chunk.choices {
            Some(cs) => views(r.deltas@) == choice_deltas(cs@) && (r.done is Some <==> any_finished(cs@))
                && (r.done matches Some(u) ==> u == usage_of(chunk.usage)),
            None => r.deltas@.len() == 0 && r.done is None,
        },
{
    let mut deltas: Vec<String> = Vec::new();
    if chunk.choices.is_none() {
        return ChunkOutcome { deltas, done: None };
    }
    let cs: &Vec<StreamChoice> = chunk.choices.as_ref().unwrap();
    let mut i: usize = 0;
    assert(cs@.skip(0) =~= cs@);
    assert(views(deltas@) =~= Seq::<Seq<char>>::empty());
    while i < cs.len()
        invariant
            chunk.choices == Some(*cs),
            i <= cs@.len(),
            views(deltas@) + choice_deltas(cs@.skip(i as int)) == choice_deltas(cs@),
            forall|j: int| 0 <= j < i ==> (#[trigger] cs@[j]).finish_reason is None,
        decreases cs@.len() - i,
    {
        let ghost before = views(deltas@);
        let ghost rest = cs@.skip(i as int);
        assert(rest.drop_first() =~= cs@.skip(i + 1));
        assert(rest[0] == cs@[i as int]);
        let c = &cs[i];
        let text_opt: Option<&String> = match &c.delta {
            Some(d) => match &d.content {
                Some(s) => Some(s),
                None => None,
            },
            None => None,
        };
        match text_opt {
            Some(s) => {
                if !s.as_str().is_empty() {
                    deltas.push(s.clone());
                    assert(views(deltas@) =~= before.push(s@));
                }
            },
            None => {},
        }
        if c.finish_reason.is_some() {
            assert(views(deltas@) =~= choice_deltas(cs@));
            assert(cs@[i as int].finish_reason is Some);
            return ChunkOutcome { deltas, done: Some(usage_from(chunk.usage)) };
        }
        i = i + 1;
        assert(views(deltas@) + choice_deltas(cs@.skip(i as int)) =~= choice_deltas(cs@));
    }
    assert(cs@.skip(i as int) =~= Seq::<StreamChoice>::empty());
    assert(views(deltas@) =~= choice_deltas(cs@));
    ChunkOutcome { deltas, done: None }
}


/// One step of reading a reply: what a line of the event stream (with its
/// data payload parsed as a chunk, when it parses) contributes. The end
/// marker ends the reply without usage; a parsed chunk contributes what
/// `chunk_outcome` gives; any other line contributes nothing.
pub fn stream_step(line: &SseLine, parsed: Option<StreamChunk>) -> (r: ChunkOutcome)
    ensures
        match *line {
            SseLine::Done => r.deltas@.len() == 0 && r.done == Some(None::<Usage>),
            SseLine::Data(_) => match parsed {
                Some(c) => outcome_view(r) == outcome_spec(c),
                None => r.deltas@.len() == 0 && r.done is None,
            },
            SseLine::Other => r.deltas@.len() == 0 && r.done is None,
        },
{
    match line {
        SseLine::Done => ChunkOutcome { deltas: Vec::new(), done: Some(None) },
        SseLine::Data(_) => match parsed {
            Some(c) => chunk_outcome(&c),
            None => ChunkOutcome { deltas: Vec::new(), done: None },
        },
        SseLine::Other => ChunkOutcome { deltas: Vec::new(), done: None },
    }
}

/// The last step of reading a reply, when the body ends without an end
/// marker: the reply ends without usage.
pub fn end_of_body_step() -> (r: ChunkOutcome)
    ensures
        r.deltas@.len() == 0,
        r.done == Some(None::<Usage>),
{
    ChunkOutcome { deltas: Vec::new(), done: Some(None) }
}

/// A step as values: its texts and how the reply ends, if it does.
pub open spec fn outcome_view(o: ChunkOutcome) -> (Seq<Seq<char>>, Option<Option<Usage>>) {
    (views(o.deltas@), o.done)
}

/// What `chunk_outcome` gives for a chunk, as values.
pub open spec fn outcome_spec(c: StreamChunk) -> (Seq<Seq<char>>, Option<Option<Usage>>) {
    match c.choices {
        Some(cs) => (
            choice_deltas(cs@),
            if any_finished(cs@) {
                Some(usage_of(c.usage))
            } else {
                None
            },
        ),
        None => (Seq::empty(), None),
    }
}

/// An event that reading a reply sends.
pub enum ReplyEvent {
    /// A piece of the reply's text.
    Delta(Seq<char>),
    /// The end of the reply, with its usage when known.
    Done(Option<Usage>),
}

/// The events one step sends: its texts, then the end if it ends the reply.
pub open spec fn step_events(s: (Seq<Seq<char>>, Option<Option<Usage>>)) -> Seq<ReplyEvent> {
    s.0.map_values(|d: Seq<char>| ReplyEvent::Delta(d)) + match s.1 {
        Some(u) => seq![ReplyEvent::Done(u)],
        None => Seq::empty(),
    }
}

/// The events that reading sends over a run of steps: each step's events,
/// up to and including the first step that ends the reply.
pub open spec fn run_events(steps: Seq<(Seq<Seq<char>>, Option<Option<Usage>>)>) -> Seq<ReplyEvent>
    decreases steps.len(),
{
    if steps.len() == 0 {
        Seq::empty()
    } else if steps[0].1 is Some {
        step_events(steps[0])
    } else {
        step_events(steps[0]) + run_events(steps.drop_first())
    }
}

/// Reading a reply sends pieces of text followed by exactly one end: when
/// some step ends the reply (as the end of the body always does), the
/// events are text pieces and then a single `Done`, the last event.
pub proof fn law_reply_events_end_once(steps: Seq<(Seq<Seq<char>>, Option<Option<Usage>>)>)
    requires
        exists|i: int| 0 <= i < steps.len() && (#[trigger] steps[i]).1 is Some,
    ensures
        run_events(steps).len() > 0,
        run_events(steps).last() is Done,
        forall|i: int|
            0 <= i < run_events(steps).len() - 1 ==> (#[trigger] run_events(steps)[i]) is Delta,
    decreases steps.len(),
{
    let s = steps[0];
    let here = step_events(s);
    assert forall|i: int| 0 <= i < s.0.len() implies (#[trigger] here[i]) is Delta by {
        assert(here[i] == ReplyEvent::Delta(s.0[i]));
    }
    if s.1 is Some {
        assert(here.last() == ReplyEvent::Done(s.1->0));
    } else {
        let i = choose|i: int| 0 <= i < steps.len() && (#[trigger] steps[i]).1 is Some;
        assert(steps.drop_first()[i - 1] == steps[i]);
        law_reply_events_end_once(steps.drop_first());
        let rest = run_events(steps.drop_first());
        assert(here.len() == s.0.len());
        assert forall|k: int| 0 <= k < here.len() + rest.len() - 1 implies (#[trigger] (here
            + rest)[k]) is Delta by {
            if k >= here.len() {
                assert((here + rest)[k] == rest[k - here.len()]);
            }
        }
    }
}

} // verus!
