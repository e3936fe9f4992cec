use lights::api_enquirer::{BuildStatus, StatusReport};
use lights::mailbox::Mailbox;

fn snapshot(pin: &str, status: BuildStatus) -> Vec<StatusReport> {
    vec![StatusReport { pin_id: pin.to_string(), status }]
}

#[test]
fn empty_mailbox_receives_nothing() {
    let mut mailbox = Mailbox::new();
    assert!(mailbox.try_receive().is_none());
}

#[test]
fn sent_snapshot_is_received_once() {
    let mut mailbox = Mailbox::new();
    mailbox.send(snapshot("pin1", BuildStatus::Success));
    let received = mailbox.try_receive().unwrap();
    assert_eq!(received.len(), 1);
    assert_eq!(received[0].pin_id, "pin1");
    assert_eq!(received[0].status, BuildStatus::Success);
    assert!(mailbox.try_receive().is_none());
}

#[test]
fn second_send_overwrites_unread_first() {
    let mut mailbox = Mailbox::new();
    mailbox.send(snapshot("pin1", BuildStatus::Success));
    mailbox.send(snapshot("pin1", BuildStatus::Failure));
    let received = mailbox.try_receive().unwrap();
    assert_eq!(received.len(), 1);
    assert_eq!(received[0].status, BuildStatus::Failure);
    assert!(mailbox.try_receive().is_none());
}
