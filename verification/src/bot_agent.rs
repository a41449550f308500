//! The responder capability: the interface a text-generation client
//! implements to serve one turn at a time.

use vstd::prelude::*;

use crate::room_setup::RoomContext;
use crate::room_setup::TeamAgent;

verus! {

/// What a turn calls for its text. A production binding talks to an inference
/// service; a test double returns scripted text. No contract is placed on an
/// implementation: the loop's own functions state what is appended whatever
/// an implementation hands back.
pub trait BotAgent {
    /// Produces the persona's next utterance from the conversation so far; an
    /// implementation absorbs its own failures into fallback text.
    fn generate_response(&self, room_context: &RoomContext, agent: &TeamAgent) -> String;

    /// Withdraws from the log whatever messages the implementation wants
    /// suppressed, by marking them invalid.
    fn invalidate_messages(&self, room_context: &mut RoomContext, agent: &TeamAgent);
}

} // verus!
