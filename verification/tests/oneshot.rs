use window_dispatch::oneshot::{channel, Disconnected};

#[test]
fn value_sent_is_value_received() {
    let (tx, rx) = channel::<u32>();
    tx.send(7);
    assert_eq!(rx.recv(), Ok(7));
}

#[test]
fn value_sent_before_recv_is_still_seen() {
    let (tx, rx) = channel::<String>();
    tx.send(String::from("early"));
    let got = rx.recv();
    assert_eq!(got, Ok(String::from("early")));
}

#[test]
fn dropped_sender_disconnects() {
    let (tx, rx) = channel::<u32>();
    drop(tx);
    assert_eq!(rx.recv(), Err(Disconnected));
}

#[test]
fn send_to_dropped_receiver_is_silent() {
    let (tx, rx) = channel::<u32>();
    drop(rx);
    tx.send(1);
}

#[test]
fn recv_waits_for_a_sender_on_another_thread() {
    let (tx, rx) = channel::<u64>();
    let got = crossbeam_utils::thread::scope(|scope| {
        scope.spawn(move |_| tx.send(99));
        rx.recv()
    })
    .unwrap();
    assert_eq!(got, Ok(99));
}

#[test]
fn recv_sees_a_sender_dropped_on_another_thread() {
    let (tx, rx) = channel::<u64>();
    let got = crossbeam_utils::thread::scope(|scope| {
        scope.spawn(move |_| drop(tx));
        rx.recv()
    })
    .unwrap();
    assert_eq!(got, Err(Disconnected));
}
