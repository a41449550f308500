//! The decisions of the timed, turn-rotating conversation loop.
//!
//! The loop itself is driven by the caller, who owns the clock, the waiting
//! and the text-generation service: each turn, the caller advances the
//! rotation, builds the prompt, invokes the responder, records the outcome,
//! and asks [`pace`] what to do with the remaining budget.

use vstd::prelude::*;

use vstd::arithmetic::div_mod::lemma_add_mod_noop;
use vstd::arithmetic::div_mod::lemma_mod_bound;
use vstd::arithmetic::div_mod::lemma_mod_twice;

use crate::jungian_modelling::personality_description;
use crate::jungian_modelling::personality_description_spec;
use crate::room_setup::MessageView;
use crate::room_setup::RoomContext;
use crate::room_setup::TeamAgent;

verus! {

/// Why a conversation could not be set up.
#[derive(Debug, Clone, Copy, PartialEq, Eq, Structural)]
pub enum ConfigError {
    EmptyRoster,
    ZeroDuration,
    StartOutOfRange,
}

/// The text appended in a speaker's name when its turn's generation fails.
pub open spec fn fallback_text_spec() -> Seq<char> {
    "I'm having trouble responding right now."@
}

/// The fixed fallback utterance.
pub fn fallback_text() -> (r: String)
    ensures
        r@ == fallback_text_spec(),
{
    "I'm having trouble responding right now.".to_owned()
}

/// What one turn contributes to the log: the generated text on success, the
/// fallback text on failure.
pub open spec fn turn_content(response: Option<String>) -> Seq<char> {
    match response {
        Some(text) => text@,
        None => fallback_text_spec(),
    }
}

/// Records one turn's outcome: exactly one valid message is appended, tagged
/// with the speaker, holding the generated text or — on a failed turn — the
/// fallback text. A failure never has any other effect on the log.
pub fn record_turn(room: &mut RoomContext, author: &str, response: Option<String>)
    ensures
        final(room)@ == old(room)@.push(
            MessageView { content: turn_content(response), author: author@, valid: true },
        ),
{
    match response {
        Some(text) => room.create(text, author.to_owned()),
        None => room.create(fallback_text(), author.to_owned()),
    }
}

/// Records the optional closing turn, tagged with the reserved author
/// `"System"` rather than any roster persona.
pub fn record_closing_turn(room: &mut RoomContext, response: Option<String>)
    ensures
        final(room)@ == old(room)@.push(
            MessageView { content: turn_content(response), author: "System"@, valid: true },
        ),
{
    match response {
        Some(text) => room.create(text, "System".to_owned()),
        None => room.create(fallback_text(), "System".to_owned()),
    }
}

/// What the loop does after a turn: how long to wait, and whether the run is
/// over once the wait ends.
#[derive(Debug, Clone, Copy, PartialEq, Eq, Structural)]
pub struct PaceDecision {
    pub sleep_ms: u64,
    pub stop: bool,
}

/// Decides the wait after a turn, against the wall-clock budget: while more
/// than one delay remains, wait the fixed delay and go on; once the remainder
/// is shorter, wait exactly the remainder and stop; once the budget is spent,
/// stop at once. The wait never extends past `duration_ms + delay_ms` from
/// the start, and the loop goes on only while the budget is unspent.
pub fn pace(elapsed_ms: u64, duration_ms: u64, delay_ms: u64) -> (r: PaceDecision)
    ensures
        r.stop <==> (elapsed_ms >= duration_ms || duration_ms - elapsed_ms < delay_ms),
        r.sleep_ms == if elapsed_ms >= duration_ms {
            0u64
        } else if duration_ms - elapsed_ms < delay_ms {
            (duration_ms - elapsed_ms) as u64
        } else {
            delay_ms
        },
        r.sleep_ms <= delay_ms,
        elapsed_ms >= duration_ms ==> r.sleep_ms == 0,
        elapsed_ms < duration_ms ==> elapsed_ms + r.sleep_ms <= duration_ms + delay_ms,
        !r.stop ==> elapsed_ms + r.sleep_ms <= duration_ms,
{
    if elapsed_ms >= duration_ms {
        PaceDecision { sleep_ms: 0, stop: true }
    } else {
        let remaining = duration_ms - elapsed_ms;
        if remaining < delay_ms {
            PaceDecision { sleep_ms: remaining, stop: true }
        } else {
            PaceDecision { sleep_ms: delay_ms, stop: false }
        }
    }
}

/// The index of the speaker of turn `t` (counted from zero), over a roster of
/// size `k`, when the rotation's cursor stood at `offset` before the first
/// turn.
pub open spec fn speaker_at(offset: int, t: int, k: int) -> int
    recommends
        k > 0,
{
    (offset + 1 + t) % k
}

/// Round-robin is cyclic: over a roster of size `k`, the speaker of turn `t`
/// is the speaker of turn `t % k`, for every turn count and starting offset.
pub proof fn lemma_rotation_cyclic(offset: int, t: int, k: int)
    requires
        k > 0,
        0 <= t,
    ensures
        speaker_at(offset, t, k) == speaker_at(offset, t % k, k),
{
    lemma_add_mod_noop(offset + 1, t, k);
    lemma_add_mod_noop(offset + 1, t % k, k);
    lemma_mod_twice(t, k);
}

/// The turn-taking state of one conversation run: the roster, the wall-clock
/// budget, the rotation cursor, and the one-way running/done flag.
pub struct ConversationLoop {
    pub roster: Vec<TeamAgent>,
    pub duration_ms: u64,
    pub delay_ms: u64,
    pub speaker_index: usize,
    pub done: bool,
    pub start_index: Ghost<int>,
    pub turns_taken: Ghost<int>,
}

impl ConversationLoop {
    /// Well-formed: a non-empty roster, a positive budget, and a cursor that
    /// stands where the rotation from the starting offset puts it.
    pub open spec fn wf(&self) -> bool {
        &&& self.roster@.len() > 0
        &&& self.duration_ms > 0
        &&& self.speaker_index < self.roster@.len()
        &&& 0 <= self.start_index@ < self.roster@.len()
        &&& 0 <= self.turns_taken@
        &&& if self.turns_taken@ == 0 {
            self.speaker_index == self.start_index@
        } else {
            self.speaker_index == speaker_at(
                self.start_index@,
                self.turns_taken@ - 1,
                self.roster@.len() as int,
            )
        }
    }

    /// Sets up a run with a fixed starting offset, rejecting a structurally
    /// invalid configuration before any timer starts: an empty roster, a zero
    /// duration, or an offset outside the roster.
    pub fn new(roster: Vec<TeamAgent>, duration_ms: u64, delay_ms: u64, start_index: usize) -> (r:
        Result<ConversationLoop, ConfigError>)
        ensures
            r is Ok <==> (roster@.len() > 0 && duration_ms > 0 && start_index < roster@.len()),
            roster@.len() == 0 ==> r == Err::<ConversationLoop, ConfigError>(
                ConfigError::EmptyRoster,
            ),
            roster@.len() > 0 && duration_ms == 0 ==> r == Err::<ConversationLoop, ConfigError>(
                ConfigError::ZeroDuration,
            ),
            roster@.len() > 0 && duration_ms > 0 && start_index >= roster@.len() ==> r == Err::<
                ConversationLoop,
                ConfigError,
            >(ConfigError::StartOutOfRange),
            r matches Ok(l) ==> {
                &&& l.wf()
                &&& l.roster@ == roster@
                &&& l.duration_ms == duration_ms
                &&& l.delay_ms == delay_ms
                &&& l.speaker_index == start_index
                &&& l.start_index@ == start_index
                &&& l.turns_taken@ == 0
                &&& !l.done
            },
    {
        if roster.len() == 0 {
            return Err(ConfigError::EmptyRoster);
        }
        if duration_ms == 0 {
            return Err(ConfigError::ZeroDuration);
        }
        if start_index >= roster.len() {
            return Err(ConfigError::StartOutOfRange);
        }
        Ok(
            ConversationLoop {
                roster,
                duration_ms,
                delay_ms,
                speaker_index: start_index,
                done: false,
                start_index: Ghost(start_index as int),
                turns_taken: Ghost(0),
            },
        )
    }

    /// Sets up a run whose starting offset is drawn at random over the whole
    /// roster, so that runs open with different voices.
    pub fn new_random_start(roster: Vec<TeamAgent>, duration_ms: u64, delay_ms: u64) -> (r: Result<
        ConversationLoop,
        ConfigError,
    >)
        ensures
            r is Ok <==> (roster@.len() > 0 && duration_ms > 0),
            roster@.len() == 0 ==> r == Err::<ConversationLoop, ConfigError>(
                ConfigError::EmptyRoster,
            ),
            roster@.len() > 0 && duration_ms == 0 ==> r == Err::<ConversationLoop, ConfigError>(
                ConfigError::ZeroDuration,
            ),
            r matches Ok(l) ==> {
                &&& l.wf()
                &&& l.roster@ == roster@
                &&& l.duration_ms == duration_ms
                &&& l.delay_ms == delay_ms
                &&& l.turns_taken@ == 0
                &&& !l.done
            },
    {
        if roster.len() == 0 {
            return Err(ConfigError::EmptyRoster);
        }
        if duration_ms == 0 {
            return Err(ConfigError::ZeroDuration);
        }
        let start_index = draw_index(roster.len());
        Self::new(roster, duration_ms, delay_ms, start_index)
    }

    /// Advances the rotation one step, modulo the roster size — strict
    /// round-robin, no skipping — and hands back the new speaker's index.
    pub fn next_speaker(&mut self) -> (r: usize)
        requires
            old(self).wf(),
            !old(self).done,
        ensures
            final(self).wf(),
            final(self).roster == old(self).roster,
            final(self).duration_ms == old(self).duration_ms,
            final(self).delay_ms == old(self).delay_ms,
            final(self).start_index == old(self).start_index,
            !final(self).done,
            final(self).turns_taken@ == old(self).turns_taken@ + 1,
            r == final(self).speaker_index,
            r == speaker_at(
                old(self).start_index@,
                old(self).turns_taken@,
                old(self).roster@.len() as int,
            ),
    {
        let len = self.roster.len();
        let next = (self.speaker_index + 1) % len;
        proof {
            let k = self.roster@.len() as int;
            let offset = self.start_index@;
            let t = self.turns_taken@;
            let prev = self.speaker_index as int;
            lemma_mod_bound(prev + 1, k);
            if k == 1 {
                lemma_mod_bound(offset + 1 + t, k);
            } else if t > 0 {
                vstd::arithmetic::div_mod::lemma_small_mod(1nat, k as nat);
                lemma_add_mod_noop(offset + t, 1, k);
            }
        }
        self.speaker_index = next;
        self.turns_taken = Ghost(self.turns_taken@ + 1);
        next
    }

    /// The one-way transition from running to done.
    pub fn finish(&mut self)
        ensures
            *final(self) == (ConversationLoop { done: true, ..*old(self) }),
    {
        self.done = true;
    }

    /// Whether the run is over.
    pub fn is_done(&self) -> (r: bool)
        ensures
            r == self.done,
    {
        self.done
    }
}

/// The prompt handed to the responder for one turn: the persona's framing,
/// its name, its personality prose, and the conversation so far.
pub open spec fn prompt_spec(
    system_prompt: Seq<char>,
    name: Seq<char>,
    personality: Seq<char>,
    conversation: Seq<char>,
) -> Seq<char> {
    "System Prompt: "@ + system_prompt + "\n\n Name: "@ + name + ".\n\n Personality type: "@
        + personality + ".\n\nConversation so far:\n"@ + conversation + ":"@
}

/// Builds the persona-specific prompt for one turn from the persona and the
/// log's current summary.
pub fn build_prompt(agent: &TeamAgent, conversation: &str) -> (r: String)
    ensures
        r@ == prompt_spec(
            agent.system_prompt@,
            agent.name@,
            personality_description_spec(agent.personality_ratio),
            conversation@,
        ),
{
    let mut out = "System Prompt: ".to_owned();
    out.append(agent.system_prompt.as_str());
    out.append("\n\n Name: ");
    out.append(agent.name.as_str());
    out.append(".\n\n Personality type: ");
    let described = personality_description(&agent.personality_ratio);
    out.append(described.as_str());
    out.append(".\n\nConversation so far:\n");
    out.append(conversation);
    out.append(":");
    proof {
        assert(out@ =~= prompt_spec(
            agent.system_prompt@,
            agent.name@,
            personality_description_spec(agent.personality_ratio),
            conversation@,
        ));
    }
    out
}

/// The seed message that opens the conversation: the base framing, the fixed
/// mind-of-archetypes goal, and the run's room prompt.
pub open spec fn seed_prompt_spec(base: Seq<char>, room_prompt: Seq<char>) -> Seq<char> {
    base
        + " \n\n Your overall goal is to represent a mind consisting of multiple archetypes and voices, you are a mind based system built on the Jungian model of the psyche. room prompt: "@
        + room_prompt
}

/// Composes the seed message appended under the `"System"` author before the
/// first turn.
pub fn seed_prompt(base: &str, room_prompt: &str) -> (r: String)
    ensures
        r@ == seed_prompt_spec(base@, room_prompt@),
{
    let mut out = base.to_owned();
    out.append(
        " \n\n Your overall goal is to represent a mind consisting of multiple archetypes and voices, you are a mind based system built on the Jungian model of the psyche. room prompt: ",
    );
    out.append(room_prompt);
    proof {
        assert(out@ =~= seed_prompt_spec(base@, room_prompt@));
    }
    out
}

/// Converts a whole number of minutes to milliseconds, refusing a budget too
/// large for the clock arithmetic.
pub fn minutes_to_ms(minutes: u64) -> (r: Option<u64>)
    ensures
        r is Some <==> minutes * 60000 <= u64::MAX,
        r is Some ==> r->0 == minutes * 60000,
{
    if minutes <= u64::MAX / 60000 {
        Some(minutes * 60000)
    } else {
        None
    }
}

/// Relies on rand::random_range over `0..len`: the draw lies below `len`, and
/// the range is non-empty, so the call returns. Nothing more is assumed of a
/// random value.
#[verifier::external_body]
fn draw_index(len: usize) -> (r: usize)
    requires
        len > 0,
    ensures
        r < len,
{
    rand::random_range(0..len)
}

} // verus!
