use web_socket_io::error::{ConnClose, NotifyError, ReceiverClosed};

#[test]
fn notify_error_messages() {
    assert_eq!(
        NotifyError::EventNameTooBig.message(),
        "event name exceeds the allowed length."
    );
    assert_eq!(NotifyError::ReceiverClosed.message(), "receiver is already closed.");
    assert_ne!(NotifyError::EventNameTooBig, NotifyError::ReceiverClosed);
}

#[test]
fn receiver_closed_message() {
    assert_eq!(ReceiverClosed.message(), "receiver is already closed.");
}

#[test]
fn conn_close_message_is_the_reason() {
    let close = ConnClose { code: 1000, reason: "bye".to_string() };
    assert_eq!(close.message(), "bye");
    assert_eq!(close.code, 1000);
}
