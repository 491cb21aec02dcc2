//! The library's model of the platform's event payloads: what the dispatch
//! and handler logic reads of an interaction, as plain values. The surrounding
//! program converts the platform's own types into these after the signature
//! gate has accepted the request.

use vstd::prelude::*;

verus! {

/// The event kind discriminator of an interaction.
#[derive(Debug, Clone, Copy, PartialEq, Eq, Structural)]
pub enum InteractionKind {
    /// The protocol's liveness handshake; answered with a bare acknowledgment.
    Ping,
    /// An invocation of an application command.
    ApplicationCommand,
    /// Any other kind; answered with a fixed notice.
    Other,
}

/// A read-only snapshot of a message, sourced entirely from the verified
/// payload. The creation time is embedded in the high bits of `id`.
#[derive(Debug)]
pub struct MessageSnapshot {
    pub id: u64,
    pub author_id: u64,
    pub content: String,
    /// When the message was last edited, as Unix seconds; `None` if never.
    pub edited_timestamp: Option<u64>,
}

/// The payload's embedded snapshots of referenced messages, keyed by message
/// identifier.
#[derive(Debug)]
pub struct ResolvedData {
    pub messages: Vec<(u64, MessageSnapshot)>,
}

/// The first snapshot in `s` stored under `id`, if any.
pub open spec fn lookup_seq(s: Seq<(u64, MessageSnapshot)>, id: u64) -> Option<MessageSnapshot>
    decreases s.len(),
{
    if s.len() == 0 {
        None
    } else if s[0].0 == id {
        Some(s[0].1)
    } else {
        lookup_seq(s.drop_first(), id)
    }
}

proof fn lemma_lookup_hit(s: Seq<(u64, MessageSnapshot)>, id: u64, i: int)
    requires
        0 <= i < s.len(),
        s[i].0 == id,
        forall|j: int| 0 <= j < i ==> (#[trigger] s[j]).0 != id,
    ensures
        lookup_seq(s, id) == Some(s[i].1),
    decreases i,
{
    if i > 0 {
        lemma_lookup_hit(s.drop_first(), id, i - 1);
    }
}

proof fn lemma_lookup_miss(s: Seq<(u64, MessageSnapshot)>, id: u64)
    requires
        forall|j: int| 0 <= j < s.len() ==> (#[trigger] s[j]).0 != id,
    ensures
        lookup_seq(s, id) is None,
    decreases s.len(),
{
    if s.len() > 0 {
        lemma_lookup_miss(s.drop_first(), id);
    }
}

impl ResolvedData {
    /// The snapshot stored under `id`, if any.
    pub fn lookup(&self, id: u64) -> (r: Option<&MessageSnapshot>)
        ensures
            r matches Some(m) ==> lookup_seq(self.messages@, id) == Some(*m),
            r is None ==> lookup_seq(self.messages@, id) is None,
    {
        let mut i: usize = 0;
        while i < self.messages.len()
            invariant
                i <= self.messages@.len(),
                forall|j: int| 0 <= j < i ==> (#[trigger] self.messages@[j]).0 != id,
            decreases self.messages@.len() - i,
        {
            if self.messages[i].0 == id {
                proof {
                    lemma_lookup_hit(self.messages@, id, i as int);
                }
                return Some(&self.messages[i].1);
            }
            i = i + 1;
        }
        proof {
            lemma_lookup_miss(self.messages@, id);
        }
        None
    }
}

/// The command-specific part of an interaction payload.
#[derive(Debug)]
pub struct CommandData {
    /// The snapshots delivered with the command, if any.
    pub resolved: Option<ResolvedData>,
    /// Which resolved message the command applies to, if named.
    pub target_id: Option<u64>,
}

/// The kind-specific payload carried by an interaction.
#[derive(Debug)]
pub enum InteractionData {
    ApplicationCommand(CommandData),
    Other,
}

/// An authenticated event payload: what the dispatcher and the report
/// handler read of it.
#[derive(Debug)]
pub struct Interaction {
    pub kind: InteractionKind,
    /// The identifier of the invoking user, when one is identifiable.
    pub invoker_id: Option<u64>,
    pub data: Option<InteractionData>,
}

} // verus!
