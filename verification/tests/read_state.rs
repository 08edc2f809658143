use mail_common::message::Message;
use mail_common::read_state::ReadStateMessage;

fn msg(id: u64, conv: u64, unread: bool, labels: &[u64]) -> ReadStateMessage {
    ReadStateMessage {
        local_message_id: id,
        local_conversation_id: conv,
        unread,
        label_ids: labels.to_vec(),
    }
}

#[test]
fn marking_read_changes_only_unread_messages() {
    let ms = vec![
        msg(1, 10, true, &[100, 200]),
        msg(2, 10, false, &[100]),
        msg(3, 11, true, &[100]),
        msg(4, 10, true, &[300]),
    ];
    let r = Message::read_state_changes(true, &ms);
    assert_eq!(r.updated, vec![1, 3, 4]);
    assert_eq!(r.per_conversation.len(), 2);
    assert_eq!(r.per_conversation[&10].count, 2);
    assert_eq!(r.per_conversation[&11].count, 1);
    assert_eq!(r.per_label.len(), 3);
    assert_eq!(r.per_label[&100].count, 2);
    assert_eq!(r.per_label[&200].count, 1);
    assert_eq!(r.per_label[&300].count, 1);
}

#[test]
fn marking_unread_changes_only_read_messages() {
    let ms = vec![msg(1, 10, true, &[100]), msg(2, 10, false, &[100])];
    let r = Message::read_state_changes(false, &ms);
    assert_eq!(r.updated, vec![2]);
    assert_eq!(r.per_conversation[&10].count, 1);
    assert_eq!(r.per_label[&100].count, 1);
    let none = Message::read_state_changes(false, &vec![msg(5, 1, false, &[])]);
    assert_eq!(none.updated, vec![5]);
    assert!(none.per_label.is_empty());
    let empty = Message::read_state_changes(true, &vec![]);
    assert!(empty.updated.is_empty() && empty.per_conversation.is_empty());
}
