use vstd::prelude::*;

verus! {

/// What the platform reports about a message that received a reaction.
#[derive(Debug, Clone, Copy, PartialEq, Eq, Structural)]
pub struct ReactedMessage {
    /// The message was sent by this bot.
    pub authored_by_bot: bool,
    /// The user who invoked the command that the message answers, if the
    /// platform recorded one.
    pub invoker: Option<u64>,
}

/// The life of one reply message.
#[derive(Debug, Clone, Copy, PartialEq, Eq, Structural)]
pub enum MessageState {
    Active,
    Deleted,
}

/// Whether a reaction by `user` on `message` deletes it: only the recorded
/// invoker may delete the bot's own reply.
pub open spec fn deletes(message: ReactedMessage, user: u64) -> bool {
    message.authored_by_bot && message.invoker == Some(user)
}

/// Whether a reaction event deletes the message. Where the platform could
/// not resolve the reacting user or the message, nothing is deleted.
pub open spec fn event_deletes(user: Option<u64>, message: Option<ReactedMessage>) -> bool {
    match (user, message) {
        (Some(u), Some(m)) => deletes(m, u),
        _ => false,
    }
}

/// The state of a message after a reaction event.
pub open spec fn next_state(state: MessageState, user: Option<u64>, message: Option<ReactedMessage>) -> MessageState {
    if state == MessageState::Active && event_deletes(user, message) {
        MessageState::Deleted
    } else {
        state
    }
}

/// Decides whether a reaction by `user` deletes `message`.
pub fn should_delete(message: &ReactedMessage, user: u64) -> (r: bool)
    ensures
        r == deletes(*message, user),
{
    if !message.authored_by_bot {
        return false;
    }
    match message.invoker {
        Some(id) => id == user,
        None => false,
    }
}

/// Decides a reaction event whose lookups may have failed.
pub fn on_reaction(user: Option<u64>, message: Option<ReactedMessage>) -> (r: bool)
    ensures
        r == event_deletes(user, message),
{
    match (user, message) {
        (Some(u), Some(m)) => should_delete(&m, u),
        _ => false,
    }
}

/// Moves a message to its state after a reaction event.
pub fn step(state: MessageState, user: Option<u64>, message: Option<ReactedMessage>) -> (r: MessageState)
    ensures
        r == next_state(state, user, message),
{
    match state {
        MessageState::Active => if on_reaction(user, message) {
            MessageState::Deleted
        } else {
            MessageState::Active
        },
        MessageState::Deleted => MessageState::Deleted,
    }
}

/// A reaction by anyone but the recorded invoker never deletes a message and
/// leaves an active message active; a reaction by the recorded invoker on a
/// message of the bot deletes it.
pub proof fn only_invoker_deletes(user: u64, message: ReactedMessage)
    ensures
        message.invoker != Some(user) ==> !event_deletes(Some(user), Some(message)),
        message.invoker != Some(user) ==> next_state(MessageState::Active, Some(user), Some(message)) == MessageState::Active,
        message.authored_by_bot && message.invoker == Some(user) ==> next_state(MessageState::Active, Some(user), Some(message)) == MessageState::Deleted,
{
}

} // verus!
