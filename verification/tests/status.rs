use crack_core::ids::{GenericChannelId, MessageId};
use crack_core::status::{
    placement, target_channel, Phase, Placement, StatusMessage, StatusReply, StatusRequest,
    StatusSlot, StatusUpdate, TransportError,
};

fn ch(id: u64) -> GenericChannelId {
    GenericChannelId::new(id)
}

fn on_screen(channel: u64, id: u64, phase: Phase) -> StatusMessage {
    StatusMessage {
        channel: ch(channel),
        id: MessageId::new(id),
        phase,
    }
}

#[test]
fn nothing_tracked_is_sent() {
    assert_eq!(
        placement(None, ch(5), Some(MessageId::new(9))),
        Placement::Send
    );
}

#[test]
fn a_status_in_another_channel_is_moved() {
    let current = on_screen(5, 100, Phase::Playing);
    assert_eq!(
        placement(Some(&current), ch(6), Some(MessageId::new(100))),
        Placement::Replace
    );
}

#[test]
fn a_message_posted_since_moves_the_status() {
    let current = on_screen(5, 100, Phase::Playing);
    assert_eq!(
        placement(Some(&current), ch(5), Some(MessageId::new(101))),
        Placement::Replace
    );
}

#[test]
fn a_quiet_channel_edits_in_place() {
    let current = on_screen(5, 100, Phase::Playing);
    assert_eq!(
        placement(Some(&current), ch(5), Some(MessageId::new(100))),
        Placement::Edit
    );
}

#[test]
fn our_own_send_not_yet_echoed_still_edits() {
    let current = on_screen(5, 100, Phase::Playing);
    assert_eq!(
        placement(Some(&current), ch(5), Some(MessageId::new(99))),
        Placement::Edit
    );
}

#[test]
fn an_uncached_channel_moves_rather_than_guesses() {
    let current = on_screen(5, 100, Phase::Playing);
    assert_eq!(placement(Some(&current), ch(5), None), Placement::Replace);
}

#[test]
fn the_music_channel_wins() {
    assert_eq!(
        target_channel(Some(ch(7)), Some(ch(5)), Some(ch(6))),
        Some(ch(7))
    );
}

#[test]
fn then_the_last_command_channel() {
    assert_eq!(target_channel(None, Some(ch(5)), Some(ch(6))), Some(ch(5)));
}

#[test]
fn then_wherever_the_status_already_is() {
    assert_eq!(target_channel(None, None, Some(ch(6))), Some(ch(6)));
}

#[test]
fn with_nowhere_known_there_is_no_channel() {
    assert_eq!(target_channel(None, None, None), None);
}

/// A stand-in Discord for driving the update machine: records every request,
/// answers from what the test set.
#[derive(Default)]
struct Fake {
    last: Option<MessageId>,
    edit_error: Option<TransportError>,
    delete_error: Option<TransportError>,
    send_error: Option<TransportError>,
    ops: Vec<StatusRequest>,
    sent: u64,
}

impl Fake {
    fn apply(&mut self, slot: &mut StatusSlot, target: GenericChannelId, phase: Phase) -> Option<StatusMessage> {
        let (mut update, mut request) = StatusUpdate::start(slot, target, self.last, phase);
        loop {
            let reply = match request {
                StatusRequest::Done(shown) => return shown,
                StatusRequest::Edit { .. } => {
                    self.ops.push(request);
                    StatusReply::Edited(self.edit_error.clone().map_or(Ok(()), Err))
                },
                StatusRequest::Delete { .. } => {
                    self.ops.push(request);
                    StatusReply::Deleted(self.delete_error.clone().map_or(Ok(()), Err))
                },
                StatusRequest::Send { .. } => {
                    self.ops.push(request);
                    match self.send_error.clone() {
                        Some(err) => StatusReply::Sent(Err(err)),
                        None => {
                            let id = MessageId::new(1000 + self.sent);
                            self.sent += 1;
                            StatusReply::Sent(Ok(id))
                        },
                    }
                },
            };
            request = update.step(slot, reply);
        }
    }
}

fn edit(channel: u64, id: u64) -> StatusRequest {
    StatusRequest::Edit { channel: ch(channel), id: MessageId::new(id) }
}
fn delete(channel: u64, id: u64) -> StatusRequest {
    StatusRequest::Delete { channel: ch(channel), id: MessageId::new(id) }
}
fn send(channel: u64) -> StatusRequest {
    StatusRequest::Send { channel: ch(channel) }
}

fn slot_with(message: StatusMessage) -> StatusSlot {
    StatusSlot { message: Some(message), ..Default::default() }
}

#[test]
fn the_first_update_sends_and_tracks_the_message() {
    let mut fake = Fake::default();
    let mut slot = StatusSlot::default();
    let shown = fake.apply(&mut slot, ch(5), Phase::Playing);
    assert_eq!(fake.ops, vec![send(5)]);
    assert_eq!(shown, Some(on_screen(5, 1000, Phase::Playing)));
    assert_eq!(slot.message, shown);
}

#[test]
fn a_quiet_channel_is_edited_in_place() {
    let mut fake = Fake { last: Some(MessageId::new(100)), ..Default::default() };
    let mut slot = slot_with(on_screen(5, 100, Phase::Playing));
    let shown = fake.apply(&mut slot, ch(5), Phase::Playing);
    assert_eq!(fake.ops, vec![edit(5, 100)]);
    assert_eq!(shown, Some(on_screen(5, 100, Phase::Playing)));
}

#[test]
fn chat_since_the_status_moves_it_to_the_bottom() {
    let mut fake = Fake { last: Some(MessageId::new(101)), ..Default::default() };
    let mut slot = slot_with(on_screen(5, 100, Phase::Playing));
    let shown = fake.apply(&mut slot, ch(5), Phase::Playing);
    assert_eq!(fake.ops, vec![delete(5, 100), send(5)]);
    assert_eq!(shown, Some(on_screen(5, 1000, Phase::Playing)));
}

#[test]
fn a_status_deleted_by_hand_is_sent_again() {
    let mut fake = Fake {
        last: Some(MessageId::new(100)),
        edit_error: Some(TransportError::UnknownMessage),
        ..Default::default()
    };
    let mut slot = slot_with(on_screen(5, 100, Phase::Playing));
    let shown = fake.apply(&mut slot, ch(5), Phase::Playing);
    assert_eq!(fake.ops, vec![edit(5, 100), send(5)]);
    assert_eq!(shown, Some(on_screen(5, 1000, Phase::Playing)));
}

#[test]
fn a_failed_delete_still_sends_the_new_status() {
    let mut fake = Fake {
        last: Some(MessageId::new(101)),
        delete_error: Some(TransportError::Other("Missing Permissions".into())),
        ..Default::default()
    };
    let mut slot = slot_with(on_screen(5, 100, Phase::Playing));
    let shown = fake.apply(&mut slot, ch(5), Phase::Playing);
    assert_eq!(fake.ops, vec![delete(5, 100), send(5)]);
    assert_eq!(shown, Some(on_screen(5, 1000, Phase::Playing)));
}

#[test]
fn a_failed_send_forgets_the_message() {
    let mut fake = Fake {
        last: Some(MessageId::new(101)),
        send_error: Some(TransportError::Other("Missing Access".into())),
        ..Default::default()
    };
    let mut slot = slot_with(on_screen(5, 100, Phase::Playing));
    let shown = fake.apply(&mut slot, ch(5), Phase::Playing);
    assert_eq!(fake.ops, vec![delete(5, 100), send(5)]);
    assert_eq!(shown, None);
    assert_eq!(slot.message, None);
}

#[test]
fn a_failed_edit_forgets_the_message() {
    let mut fake = Fake {
        last: Some(MessageId::new(100)),
        edit_error: Some(TransportError::Other("Missing Permissions".into())),
        ..Default::default()
    };
    let mut slot = slot_with(on_screen(5, 100, Phase::Playing));
    let shown = fake.apply(&mut slot, ch(5), Phase::Playing);
    assert_eq!(fake.ops, vec![edit(5, 100)]);
    assert_eq!(shown, None);
    assert_eq!(slot.message, None);
}

#[test]
fn finished_stays_tracked_and_playing_continues_it() {
    let mut fake = Fake { last: Some(MessageId::new(100)), ..Default::default() };
    let mut slot = slot_with(on_screen(5, 100, Phase::Playing));
    let finished = fake.apply(&mut slot, ch(5), Phase::Finished);
    let playing = fake.apply(&mut slot, ch(5), Phase::Playing);
    assert_eq!(finished, Some(on_screen(5, 100, Phase::Finished)));
    assert_eq!(playing, Some(on_screen(5, 100, Phase::Playing)));
    assert_eq!(fake.ops, vec![edit(5, 100), edit(5, 100)]);
}

#[test]
fn moving_to_another_channel_deletes_the_old_status() {
    let mut fake = Fake { last: Some(MessageId::new(100)), ..Default::default() };
    let mut slot = slot_with(on_screen(5, 100, Phase::Playing));
    let shown = fake.apply(&mut slot, ch(6), Phase::Playing);
    assert_eq!(fake.ops, vec![delete(5, 100), send(6)]);
    assert_eq!(shown, Some(on_screen(6, 1000, Phase::Playing)));
}

#[test]
fn a_reply_of_the_wrong_kind_changes_nothing() {
    let mut slot = slot_with(on_screen(5, 100, Phase::Playing));
    let (mut update, request) = StatusUpdate::start(&slot, ch(5), Some(MessageId::new(100)), Phase::Finished);
    assert_eq!(request, edit(5, 100));
    let again = update.step(&mut slot, StatusReply::Sent(Ok(MessageId::new(7))));
    assert_eq!(again, edit(5, 100));
    assert_eq!(slot.message, Some(on_screen(5, 100, Phase::Playing)));
}
