use grain_garden::control::send_params;
use std::sync::mpsc::channel;

#[test]
fn send_params_delivers_the_message() {
    let (sender, receiver) = channel();
    assert_eq!(send_params(&sender, 17u32), Ok(()));
    assert_eq!(send_params(&sender, 18u32), Ok(()));
    assert_eq!(receiver.try_recv(), Ok(17));
    assert_eq!(receiver.try_recv(), Ok(18));
    assert!(receiver.try_recv().is_err());
}

#[test]
fn send_params_returns_the_message_when_nobody_listens() {
    let (sender, receiver) = channel();
    drop(receiver);
    assert_eq!(send_params(&sender, String::from("settings")), Err(String::from("settings")));
}
