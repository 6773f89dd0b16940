//! The floating status message: one per guild, edited in place while it is
//! still the newest message in its channel and moved to the bottom otherwise.
//!
//! Bringing it up to date takes one or two Discord calls whose outcome decides
//! what happens next, so the decisions live in [`StatusUpdate`], a state
//! machine: it names the next request, is handed the reply, and names the next
//! request again until it is done.
use vstd::prelude::*;
use crate::ids::{GenericChannelId, MessageId};

verus! {

/// Whether the status says something is playing or that playback finished.
#[derive(Debug, Clone, Copy, PartialEq, Eq, Structural)]
pub enum Phase {
    Playing,
    Finished,
}

/// The status message on screen for a guild.
#[derive(Debug, Clone, Copy, PartialEq, Eq, Structural)]
pub struct StatusMessage {
    pub channel: GenericChannelId,
    pub id: MessageId,
    pub phase: Phase,
}

/// Everything the status message needs to remember per guild.
#[derive(Debug, Clone, Copy, PartialEq, Eq, Structural)]
pub struct StatusSlot {
    /// What is on screen now, if anything.
    pub message: Option<StatusMessage>,
    /// Where the guild's most recent music command was run.
    pub last_command_channel: Option<GenericChannelId>,
}

impl Default for StatusSlot {
    fn default() -> (r: Self)
        ensures
            r.message is None,
            r.last_command_channel is None,
    {
        StatusSlot { message: None, last_command_channel: None }
    }
}

/// How to bring the status up to date.
#[derive(Debug, Clone, Copy, PartialEq, Eq, Structural)]
pub enum Placement {
    /// Still the newest message in its channel: change it in place.
    Edit,
    /// Something was posted since, or it is in another channel: delete it and
    /// send a new one.
    Replace,
    /// Nothing is on screen: send one.
    Send,
}

/// Discord ids grow with time, so the status is still at the bottom exactly
/// when the channel's last message is not newer than it. An older cached id is
/// our own send not yet echoed back, which is still "nothing posted since"; an
/// unknown last message (channel not cached) moves rather than guesses.
pub open spec fn placement_spec(
    current: Option<StatusMessage>,
    target: GenericChannelId,
    channel_last: Option<MessageId>,
) -> Placement {
    match current {
        None => Placement::Send,
        Some(cur) => if cur.channel != target {
            Placement::Replace
        } else {
            match channel_last {
                Some(last) => if last.0 <= cur.id.0 {
                    Placement::Edit
                } else {
                    Placement::Replace
                },
                None => Placement::Replace,
            }
        },
    }
}

pub fn placement(
    current: Option<&StatusMessage>,
    target: GenericChannelId,
    channel_last: Option<MessageId>,
) -> (r: Placement)
    ensures
        r == placement_spec(
            match current {
                Some(c) => Some(*c),
                None => None,
            },
            target,
            channel_last,
        ),
{
    let current = match current {
        None => return Placement::Send,
        Some(c) => c,
    };
    if current.channel != target {
        return Placement::Replace;
    }
    match channel_last {
        Some(last) => if last.get() <= current.id.get() {
            Placement::Edit
        } else {
            Placement::Replace
        },
        None => Placement::Replace,
    }
}

/// The guild's music channel, else the channel of its last music command, else
/// wherever the status already is. `None` means post nothing.
pub fn target_channel(
    music: Option<GenericChannelId>,
    last_command: Option<GenericChannelId>,
    shown_in: Option<GenericChannelId>,
) -> (r: Option<GenericChannelId>)
    ensures
        r == (if music is Some {
            music
        } else if last_command is Some {
            last_command
        } else {
            shown_in
        }),
{
    match music {
        Some(m) => Some(m),
        None => match last_command {
            Some(l) => Some(l),
            None => shown_in,
        },
    }
}

/// Why Discord refused a status request.
#[derive(Debug, Clone, PartialEq, Eq)]
pub enum TransportError {
    /// The message is gone: deleted by hand or by a clean-up command.
    UnknownMessage,
    /// Anything else, as text for the log.
    Other(String),
}

/// The next thing bringing the status up to date needs from Discord, or the
/// end of it with what is on screen afterwards.
#[derive(Debug, Clone, Copy, PartialEq, Eq, Structural)]
pub enum StatusRequest {
    /// Replace the embed of message `id` in `channel`.
    Edit { channel: GenericChannelId, id: MessageId },
    /// Delete message `id` in `channel`.
    Delete { channel: GenericChannelId, id: MessageId },
    /// Post the embed in `channel`.
    Send { channel: GenericChannelId },
    /// Nothing left to do; this is on screen now.
    Done(Option<StatusMessage>),
}

/// Discord's answer to the last [`StatusRequest`].
#[derive(Debug)]
pub enum StatusReply {
    Edited(Result<(), TransportError>),
    Deleted(Result<(), TransportError>),
    Sent(Result<MessageId, TransportError>),
}

/// Where an update stands.
#[derive(Debug, Clone, Copy, PartialEq, Eq, Structural)]
pub enum StatusStage {
    /// Waiting for the edit of the message on screen.
    AwaitEdit(StatusMessage),
    /// Waiting for the delete of the message on screen.
    AwaitDelete,
    /// Waiting for the send of a new message.
    AwaitSend,
    /// Done: this is on screen.
    Finished(Option<StatusMessage>),
}

/// One update of a guild's status message.
#[derive(Debug, Clone, Copy, PartialEq, Eq, Structural)]
pub struct StatusUpdate {
    pub target: GenericChannelId,
    pub phase: Phase,
    pub stage: StatusStage,
}

/// The request a stage is waiting on.
pub open spec fn pending_request(u: StatusUpdate, current: Option<StatusMessage>) -> StatusRequest {
    match u.stage {
        StatusStage::AwaitEdit(cur) => StatusRequest::Edit { channel: cur.channel, id: cur.id },
        StatusStage::AwaitDelete => match current {
            Some(cur) => StatusRequest::Delete { channel: cur.channel, id: cur.id },
            None => StatusRequest::Send { channel: u.target },
        },
        StatusStage::AwaitSend => StatusRequest::Send { channel: u.target },
        StatusStage::Finished(shown) => StatusRequest::Done(shown),
    }
}

impl StatusUpdate {
    /// Begin bringing `slot`'s status up to date in `target`, given the newest
    /// message id the gateway reported for `target` (if the channel is cached).
    pub fn start(
        slot: &StatusSlot,
        target: GenericChannelId,
        channel_last: Option<MessageId>,
        phase: Phase,
    ) -> (r: (StatusUpdate, StatusRequest))
        ensures
            r.0.target == target,
            r.0.phase == phase,
            match placement_spec(slot.message, target, channel_last) {
                Placement::Edit => r.0.stage == StatusStage::AwaitEdit(slot.message->0)
                    && r.1 == (StatusRequest::Edit {
                    channel: slot.message->0.channel,
                    id: slot.message->0.id,
                }),
                Placement::Replace => r.0.stage == StatusStage::AwaitDelete && r.1 == (
                StatusRequest::Delete { channel: slot.message->0.channel, id: slot.message->0.id }),
                Placement::Send => r.0.stage == StatusStage::AwaitSend && r.1 == (
                StatusRequest::Send { channel: target }),
            },
    {
        let p = placement(slot.message.as_ref(), target, channel_last);
        match p {
            Placement::Edit => {
                let cur = slot.message.unwrap();
                (
                    StatusUpdate { target, phase, stage: StatusStage::AwaitEdit(cur) },
                    StatusRequest::Edit { channel: cur.channel, id: cur.id },
                )
            },
            Placement::Replace => {
                let cur = slot.message.unwrap();
                (
                    StatusUpdate { target, phase, stage: StatusStage::AwaitDelete },
                    StatusRequest::Delete { channel: cur.channel, id: cur.id },
                )
            },
            Placement::Send => (
                StatusUpdate { target, phase, stage: StatusStage::AwaitSend },
                StatusRequest::Send { channel: target },
            ),
        }
    }

    /// Hand the machine Discord's reply to the request it last named, and get
    /// the next request. A reply of the wrong kind changes nothing and names
    /// the pending request again.
    ///
    /// - An edit that worked keeps the message and records the new phase.
    /// - An edit of a message that is gone sends a fresh one instead.
    /// - Any other edit failure forgets the message.
    /// - A delete, whatever its outcome, is followed by the send.
    /// - A send that worked is remembered in the target channel; a failed one
    ///   forgets the message.
    pub fn step(&mut self, slot: &mut StatusSlot, reply: StatusReply) -> (r: StatusRequest)
        ensures
            final(self).target == old(self).target,
            final(self).phase == old(self).phase,
            final(slot).last_command_channel == old(slot).last_command_channel,
            match (old(self).stage, reply) {
                (StatusStage::AwaitEdit(cur), StatusReply::Edited(Ok(()))) => {
                    let shown = StatusMessage { channel: cur.channel, id: cur.id, phase: old(self).phase };
                    &&& r == StatusRequest::Done(Some(shown))
                    &&& final(slot).message == Some(shown)
                    &&& final(self).stage == StatusStage::Finished(Some(shown))
                },
                (StatusStage::AwaitEdit(cur), StatusReply::Edited(Err(TransportError::UnknownMessage))) => {
                    &&& r == (StatusRequest::Send { channel: old(self).target })
                    &&& final(slot).message == old(slot).message
                    &&& final(self).stage == StatusStage::AwaitSend
                },
                (StatusStage::AwaitEdit(cur), StatusReply::Edited(Err(TransportError::Other(_)))) => {
                    &&& r == StatusRequest::Done(None)
                    &&& final(slot).message is None
                    &&& final(self).stage == StatusStage::Finished(None)
                },
                (StatusStage::AwaitDelete, StatusReply::Deleted(_)) => {
                    &&& r == (StatusRequest::Send { channel: old(self).target })
                    &&& final(slot).message == old(slot).message
                    &&& final(self).stage == StatusStage::AwaitSend
                },
                (StatusStage::AwaitSend, StatusReply::Sent(Ok(id))) => {
                    let shown = StatusMessage { channel: old(self).target, id, phase: old(self).phase };
                    &&& r == StatusRequest::Done(Some(shown))
                    &&& final(slot).message == Some(shown)
                    &&& final(self).stage == StatusStage::Finished(Some(shown))
                },
                (StatusStage::AwaitSend, StatusReply::Sent(Err(_))) => {
                    &&& r == StatusRequest::Done(None)
                    &&& final(slot).message is None
                    &&& final(self).stage == StatusStage::Finished(None)
                },
                _ => {
                    &&& final(self).stage == old(self).stage
                    &&& *final(slot) == *old(slot)
                    &&& r == pending_request(*old(self), old(slot).message)
                },
            },
    {
        match (self.stage, reply) {
            (StatusStage::AwaitEdit(cur), StatusReply::Edited(Ok(()))) => {
                let shown = StatusMessage { channel: cur.channel, id: cur.id, phase: self.phase };
                slot.message = Some(shown);
                self.stage = StatusStage::Finished(Some(shown));
                StatusRequest::Done(Some(shown))
            },
            (StatusStage::AwaitEdit(_), StatusReply::Edited(Err(TransportError::UnknownMessage))) => {
                self.stage = StatusStage::AwaitSend;
                StatusRequest::Send { channel: self.target }
            },
            (StatusStage::AwaitEdit(_), StatusReply::Edited(Err(TransportError::Other(_)))) => {
                slot.message = None;
                self.stage = StatusStage::Finished(None);
                StatusRequest::Done(None)
            },
            (StatusStage::AwaitDelete, StatusReply::Deleted(_)) => {
                self.stage = StatusStage::AwaitSend;
                StatusRequest::Send { channel: self.target }
            },
            (StatusStage::AwaitSend, StatusReply::Sent(Ok(id))) => {
                let shown = StatusMessage { channel: self.target, id, phase: self.phase };
                slot.message = Some(shown);
                self.stage = StatusStage::Finished(Some(shown));
                StatusRequest::Done(Some(shown))
            },
            (StatusStage::AwaitSend, StatusReply::Sent(Err(_))) => {
                slot.message = None;
                self.stage = StatusStage::Finished(None);
                StatusRequest::Done(None)
            },
            (stage, _) => match stage {
                StatusStage::AwaitEdit(cur) => StatusRequest::Edit { channel: cur.channel, id: cur.id },
                StatusStage::AwaitDelete => match slot.message {
                    Some(cur) => StatusRequest::Delete { channel: cur.channel, id: cur.id },
                    None => StatusRequest::Send { channel: self.target },
                },
                StatusStage::AwaitSend => StatusRequest::Send { channel: self.target },
                StatusStage::Finished(shown) => StatusRequest::Done(shown),
            },
        }
    }
}

} // verus!

verus! {

/// The status is edited in place exactly when it is shown in the target
/// channel and nothing newer has been posted there; otherwise a shown status
/// is replaced, and with nothing shown one is sent.
pub proof fn the_status_is_edited_exactly_while_it_is_newest(
    current: Option<StatusMessage>,
    target: GenericChannelId,
    channel_last: Option<MessageId>,
)
    ensures
        (placement_spec(current, target, channel_last) == Placement::Edit) <==> (current matches Some(
            cur,
        ) && cur.channel == target && (channel_last matches Some(last) && last.0 <= cur.id.0)),
        current is None <==> placement_spec(current, target, channel_last) == Placement::Send,
{
}

} // verus!
