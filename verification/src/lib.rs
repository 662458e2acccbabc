//! Gatekeeper core for a moderated chat group.
//!
//! The library holds the verified decision logic of the moderation system:
//! the forbidden-content matcher, the whitelist store with its append-only
//! persistence protocol, the bounded-retry policy, the delayed-deletion
//! queue, and the per-message moderation state machine. All platform I/O
//! (sending, deleting, membership lookups, file access) is performed by an
//! unverified driver that feeds outcomes back into the state machine.

use vstd::prelude::*;

pub mod command;
pub mod patterns;
pub mod pipeline;
pub mod retry;
pub mod scheduler;
pub mod text;
pub mod whitelist;

verus! {

/// Identifier of a platform account.
#[derive(Clone, Copy, PartialEq, Eq, Structural, Debug)]
pub struct UserId(pub u64);

/// Identifier of a chat or group.
#[derive(Clone, Copy, PartialEq, Eq, Structural, Debug)]
pub struct ChatId(pub i64);

/// Identifier of a message within a chat.
#[derive(Clone, Copy, PartialEq, Eq, Structural, Debug)]
pub struct MessageId(pub i32);

/// A specific message instance, the target of a deletion.
#[derive(Clone, Copy, PartialEq, Eq, Structural, Debug)]
pub struct MessageRef {
    pub chat: ChatId,
    pub message: MessageId,
}

/// Membership status of a user in a chat, as the platform reports it.
#[derive(Clone, Copy, PartialEq, Eq, Structural, Debug)]
pub enum MemberStatus {
    Member,
    Administrator,
    Owner,
    Left,
    Kicked,
    Restricted,
    Other,
}

/// A status grants verification exactly when the user currently belongs
/// to the group: plain members, administrators and the owner qualify.
pub open spec fn spec_eligible(s: MemberStatus) -> bool {
    s is Member || s is Administrator || s is Owner
}

/// Whether a membership status makes the user eligible for verification.
pub fn eligible(s: MemberStatus) -> (r: bool)
    ensures
        r == spec_eligible(s),
{
    match s {
        MemberStatus::Member => true,
        MemberStatus::Administrator => true,
        MemberStatus::Owner => true,
        _ => false,
    }
}

} // verus!
