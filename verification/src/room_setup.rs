//! The append-only, author-tagged message log and its summary view.

use vstd::prelude::*;

use crate::jungian_modelling::Personality;
use crate::text::spec_contains;
use crate::text::contains_substring;

verus! {

/// The fixed cast of roles the demo ships with.
#[derive(Debug, Clone, Copy, PartialEq, Eq, Structural)]
pub enum TeamMember {
    ExpertCoder,
    Futurist,
    JungianExpert,
    Mozart,
}

/// A named persona: immutable identity used for prompting.
#[derive(Debug, Clone)]
pub struct TeamAgent {
    pub name: String,
    pub system_prompt: String,
    pub personality_ratio: Personality,
}

/// One turn of the conversation. `content` and `author` never change after
/// creation; only `is_valid` may move from true to false.
#[derive(Debug, Clone)]
pub struct Message {
    pub content: String,
    pub author: String,
    pub is_valid: bool,
}

/// The mathematical value of one message.
pub ghost struct MessageView {
    pub content: Seq<char>,
    pub author: Seq<char>,
    pub valid: bool,
}

impl View for Message {
    type V = MessageView;

    open spec fn view(&self) -> MessageView {
        MessageView { content: self.content@, author: self.author@, valid: self.is_valid }
    }
}

/// The currently-valid messages of `s`, in insertion order.
pub open spec fn valid_messages_spec(s: Seq<MessageView>) -> Seq<MessageView>
    decreases s.len(),
{
    if s.len() == 0 {
        Seq::empty()
    } else {
        let prefix = valid_messages_spec(s.drop_last());
        if s.last().valid {
            prefix.push(s.last())
        } else {
            prefix
        }
    }
}

/// How one message renders in the summary.
pub open spec fn message_line(m: MessageView) -> Seq<char> {
    m.author + ": "@ + m.content
}

/// The lines of `s`, joined by single newlines, with no trailing newline.
pub open spec fn joined_lines(s: Seq<MessageView>) -> Seq<char>
    decreases s.len(),
{
    if s.len() == 0 {
        Seq::empty()
    } else if s.len() == 1 {
        message_line(s[0])
    } else {
        joined_lines(s.drop_last()) + "\n"@ + message_line(s.last())
    }
}

/// The summary of a log state: its valid messages, one per line.
pub open spec fn summary_spec(s: Seq<MessageView>) -> Seq<char> {
    joined_lines(valid_messages_spec(s))
}

/// `m` after an invalidation pass with keyword `kw`.
pub open spec fn invalidated(m: MessageView, kw: Seq<char>) -> MessageView {
    MessageView { valid: m.valid && !spec_contains(m.content, kw), ..m }
}

/// A whole log state after an invalidation pass with keyword `kw`.
pub open spec fn invalidate_all(s: Seq<MessageView>, kw: Seq<char>) -> Seq<MessageView> {
    s.map_values(|m: MessageView| invalidated(m, kw))
}

/// Appending keeps insertion order: a valid message lands at the end of the
/// valid sequence and at the end of the summary, after a single newline; an
/// invalid one changes neither. Earlier messages are untouched either way.
pub proof fn lemma_append_preserves_order(s: Seq<MessageView>, m: MessageView)
    ensures
        m.valid ==> valid_messages_spec(s.push(m)) == valid_messages_spec(s).push(m),
        !m.valid ==> valid_messages_spec(s.push(m)) == valid_messages_spec(s),
        m.valid ==> summary_spec(s.push(m)) == if valid_messages_spec(s).len() == 0 {
            message_line(m)
        } else {
            summary_spec(s) + "\n"@ + message_line(m)
        },
        !m.valid ==> summary_spec(s.push(m)) == summary_spec(s),
{
    assert(s.push(m).drop_last() =~= s);
    assert(s.push(m).last() == m);
    if m.valid {
        let vs = valid_messages_spec(s);
        if vs.len() == 0 {
            assert(joined_lines(vs.push(m)) == message_line(vs.push(m)[0]));
        } else {
            assert(vs.push(m).drop_last() =~= vs);
            assert(vs.push(m).last() == m);
        }
    }
}

/// An invalidation pass excludes exactly the matching messages: the valid
/// messages of the passed-over log are the valid messages of the old log with
/// every match filtered out, in their original order and with their original
/// content.
pub proof fn lemma_invalidate_matching(s: Seq<MessageView>, kw: Seq<char>)
    ensures
        valid_messages_spec(invalidate_all(s, kw)) == valid_messages_spec(s).filter(
            |m: MessageView| !spec_contains(m.content, kw),
        ),
    decreases s.len(),
{
    reveal(Seq::filter);
    let pred = |m: MessageView| !spec_contains(m.content, kw);
    let inv = invalidate_all(s, kw);
    if s.len() == 0 {
        assert(inv =~= Seq::<MessageView>::empty());
        assert(valid_messages_spec(s).filter(pred) =~= Seq::<MessageView>::empty());
    } else {
        let prefix = s.drop_last();
        let m = s.last();
        lemma_invalidate_matching(prefix, kw);
        assert(inv.drop_last() =~= invalidate_all(prefix, kw));
        assert(inv.last() == invalidated(m, kw));
        let vp = valid_messages_spec(prefix);
        if m.valid {
            assert(valid_messages_spec(s) == vp.push(m));
            assert(vp.push(m).drop_last() =~= vp);
            assert(vp.push(m).last() == m);
            if pred(m) {
                assert(invalidated(m, kw) == m);
            }
        } else {
            assert(valid_messages_spec(s) == vp);
            assert(!invalidated(m, kw).valid);
        }
    }
}

/// Reading the summary is idempotent: the summary is a function of the log's
/// state alone, so any two renderings of one state are the same string.
pub proof fn lemma_summary_idempotent(s: Seq<MessageView>, r1: Seq<char>, r2: Seq<char>)
    requires
        r1 == summary_spec(s),
        r2 == summary_spec(s),
    ensures
        r1 == r2,
{
}

/// The ordered collection of messages for one run.
#[derive(Debug)]
pub struct RoomContext {
    messages: Vec<Message>,
}

impl View for RoomContext {
    type V = Seq<MessageView>;

    closed spec fn view(&self) -> Seq<MessageView> {
        self.messages@.map_values(|m: Message| m@)
    }
}

impl RoomContext {
    /// An empty log.
    pub fn new() -> (r: Self)
        ensures
            r@ =~= Seq::<MessageView>::empty(),
    {
        let r = RoomContext { messages: Vec::new() };
        proof {
            assert(r@ =~= Seq::<MessageView>::empty());
        }
        r
    }

    /// Appends a new valid message at the end of the sequence; always succeeds.
    pub fn create(&mut self, content: String, author: String)
        ensures
            final(self)@ == old(self)@.push(
                MessageView { content: content@, author: author@, valid: true },
            ),
    {
        let ghost before = self@;
        self.messages.push(Message { content, author, is_valid: true });
        proof {
            assert(final(self)@ =~= before.push(final(self).messages@.last()@));
        }
    }

    /// Hands out the currently-valid messages in insertion order.
    pub fn read(&self) -> (r: Vec<&Message>)
        ensures
            r@.len() == valid_messages_spec(self@).len(),
            forall|j: int| 0 <= j < r@.len() ==> r@[j]@ == valid_messages_spec(self@)[j],
    {
        let mut r: Vec<&Message> = Vec::new();
        let mut i: usize = 0;
        while i < self.messages.len()
            invariant
                i <= self.messages@.len(),
                self@ == self.messages@.map_values(|m: Message| m@),
                r@.len() == valid_messages_spec(self@.take(i as int)).len(),
                forall|j: int|
                    0 <= j < r@.len() ==> r@[j]@ == valid_messages_spec(self@.take(i as int))[j],
            decreases self.messages@.len() - i,
        {
            proof {
                assert(self@.take(i + 1).drop_last() =~= self@.take(i as int));
                assert(self@.take(i + 1).last() == self@[i as int]);
            }
            if self.messages[i].is_valid {
                r.push(&self.messages[i]);
            }
            i = i + 1;
        }
        proof {
            assert(self@.take(self.messages@.len() as int) =~= self@);
        }
        r
    }

    /// Marks every message whose content holds `keyword` as invalid; other
    /// messages keep their content, author and validity.
    pub fn delete_by_keyword(&mut self, keyword: &str)
        ensures
            final(self)@ == invalidate_all(old(self)@, keyword@),
            final(self)@.len() == old(self)@.len(),
            forall|j: int|
                0 <= j < old(self)@.len() ==> final(self)@[j] == invalidated(
                    #[trigger] old(self)@[j],
                    keyword@,
                ),
    {
        let ghost before = self@;
        let mut i: usize = 0;
        while i < self.messages.len()
            invariant
                i <= self.messages@.len(),
                self@.len() == before.len(),
                self.messages@.len() == before.len(),
                self@ == self.messages@.map_values(|m: Message| m@),
                forall|j: int| 0 <= j < i ==> self@[j] == invalidated(#[trigger] before[j], keyword@),
                forall|j: int| i <= j < before.len() ==> self@[j] == #[trigger] before[j],
            decreases self.messages@.len() - i,
        {
            if contains_substring(self.messages[i].content.as_str(), keyword) {
                self.messages[i].is_valid = false;
            }
            i = i + 1;
        }
        proof {
            assert(self@ =~= invalidate_all(before, keyword@));
        }
    }

    /// Renders the valid messages, each as `"<author>: <content>"`, joined by
    /// single newlines with no trailing newline.
    pub fn get_conversation_summary(&self) -> (r: String)
        ensures
            r@ == summary_spec(self@),
    {
        let mut out = String::new();
        let mut first = true;
        let mut i: usize = 0;
        while i < self.messages.len()
            invariant
                i <= self.messages@.len(),
                self@ == self.messages@.map_values(|m: Message| m@),
                out@ == joined_lines(valid_messages_spec(self@.take(i as int))),
                first <==> valid_messages_spec(self@.take(i as int)).len() == 0,
            decreases self.messages@.len() - i,
        {
            proof {
                assert(self@.take(i + 1).drop_last() =~= self@.take(i as int));
                assert(self@.take(i + 1).last() == self@[i as int]);
            }
            if self.messages[i].is_valid {
                let ghost prior = valid_messages_spec(self@.take(i as int));
                let ghost line = message_line(self@[i as int]);
                if !first {
                    out.append("\n");
                }
                out.append(self.messages[i].author.as_str());
                out.append(": ");
                out.append(self.messages[i].content.as_str());
                proof {
                    if prior.len() == 0 {
                        assert(out@ =~= joined_lines(prior.push(self@[i as int])));
                    } else {
                        assert(prior.push(self@[i as int]).drop_last() =~= prior);
                        assert(out@ =~= joined_lines(prior) + "\n"@ + line);
                        assert(out@ =~= joined_lines(prior.push(self@[i as int])));
                    }
                }
                first = false;
            }
            i = i + 1;
        }
        proof {
            assert(self@.take(self.messages@.len() as int) =~= self@);
        }
        out
    }
}

} // verus!
