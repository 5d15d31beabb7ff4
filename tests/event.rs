use rabc::{decode_events, wait_millis, ErrorKind, RabcError, RabcEvent};

#[test]
fn defined_ids_decode() {
    assert_eq!(RabcEvent::from_id(1).unwrap(), RabcEvent::IpcIn);
    assert_eq!(RabcEvent::from_id(2).unwrap(), RabcEvent::Timer);
    assert_eq!(RabcEvent::IpcIn.id(), 1);
    assert_eq!(RabcEvent::Timer.id(), 2);
    assert_eq!(RabcEvent::IpcIn.name(), "IpcIn");
    assert_eq!(RabcEvent::Timer.name(), "Timer");
}

#[test]
fn other_ids_are_bugs() {
    for v in [0u64, 3, 42, u64::MAX] {
        let e = RabcEvent::from_id(v).unwrap_err();
        assert_eq!(e.kind(), ErrorKind::Bug);
        assert_eq!(e.msg(), format!("Got unexpected event ID {}", v));
    }
}

#[test]
fn events_decode_in_reported_order() {
    assert_eq!(decode_events(&[2, 1]).unwrap(), vec![RabcEvent::Timer, RabcEvent::IpcIn]);
    assert!(decode_events(&[]).unwrap().is_empty());
}

#[test]
fn unknown_tag_fails_whole_batch() {
    let e = decode_events(&[1, 7, 9]).unwrap_err();
    assert_eq!(e.kind(), ErrorKind::Bug);
    assert_eq!(e.msg(), "Got unexpected event ID 7");
}

#[test]
fn wait_time_in_millis() {
    assert_eq!(wait_millis(0).unwrap(), 0);
    assert_eq!(wait_millis(2).unwrap(), 2000);
    assert_eq!(wait_millis(2147483).unwrap(), 2147483000);
    let e = wait_millis(2147484).unwrap_err();
    assert_eq!(e.kind(), ErrorKind::InvalidArgument);
    assert_eq!(e.msg(), "wait time too big 2147484");
    assert_eq!(wait_millis(u32::MAX).unwrap_err().kind(), ErrorKind::InvalidArgument);
}

#[test]
fn error_parts_and_text() {
    let e = RabcError::new(ErrorKind::Bug, "oops".to_string());
    assert_eq!(e.kind(), ErrorKind::Bug);
    assert_eq!(e.msg(), "oops");
    assert_eq!(e.to_text(), "Bug: oops");
    assert_eq!(ErrorKind::IpcConnectionError.name(), "IpcConnectionError");
    assert_eq!(ErrorKind::ExceededIpcMaxSize.name(), "ExceededIpcMaxSize");
    assert_eq!(ErrorKind::InvalidArgument.name(), "InvalidArgument");
}
