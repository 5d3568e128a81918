use piping_server::pipe::Pipe;
use piping_server::piping_server::{
    receiver_arrives, sender_arrives, sender_response_headers, Arrival,
};
use piping_server::transfer::{RECEIVERS_WAITING_MESSAGE, START_MESSAGE, WAITING_MESSAGE};

#[test]
fn send_then_receive_matches() {
    let mut p: Pipe<&str, u32> = Pipe::new();
    assert!(matches!(sender_arrives(&mut p, "/mypath", "this is a content"), Arrival::Wait));
    assert!(p.has_sender());
    match receiver_arrives(&mut p, "/mypath", 7) {
        Arrival::Transfer(s, r) => {
            assert_eq!(s, "this is a content");
            assert_eq!(r, 7);
        }
        _ => panic!("expected a transfer"),
    }
    assert!(!p.has_sender() && !p.has_receiver());
}

#[test]
fn receive_then_send_matches() {
    let mut p: Pipe<&str, u32> = Pipe::new();
    assert!(matches!(receiver_arrives(&mut p, "/mypath", 3), Arrival::Wait));
    assert!(p.has_receiver());
    match sender_arrives(&mut p, "/mypath", "this is a content") {
        Arrival::Transfer(s, r) => {
            assert_eq!(s, "this is a content");
            assert_eq!(r, 3);
        }
        _ => panic!("expected a transfer"),
    }
    assert!(!p.has_sender() && !p.has_receiver());
}

#[test]
fn duplicate_sender_is_rejected() {
    let mut p: Pipe<u8, u8> = Pipe::new();
    assert!(matches!(sender_arrives(&mut p, "/mypath", 1), Arrival::Wait));
    match sender_arrives(&mut p, "/mypath", 2) {
        Arrival::Reject(r) => {
            assert_eq!(r.status, 400);
            assert!(r
                .body
                .unwrap()
                .contains("Another sender has been connected on '/mypath'"));
        }
        _ => panic!("expected a rejection"),
    }
    assert_eq!(p.data_sender, Some(1));
}

#[test]
fn duplicate_receiver_is_rejected() {
    let mut p: Pipe<u8, u8> = Pipe::new();
    assert!(matches!(receiver_arrives(&mut p, "/p", 1), Arrival::Wait));
    match receiver_arrives(&mut p, "/p", 2) {
        Arrival::Reject(r) => {
            assert_eq!(r.status, 400);
            assert_eq!(
                r.body.unwrap(),
                "[ERROR] Another receiver has been connected on '/p'.\n"
            );
        }
        _ => panic!("expected a rejection"),
    }
    match sender_arrives(&mut p, "/p", 9) {
        Arrival::Transfer(s, r) => assert_eq!((s, r), (9, 1)),
        _ => panic!("expected a transfer"),
    }
}

#[test]
fn sender_gets_plain_text_progress() {
    let h = sender_response_headers();
    let pairs: Vec<(&str, &str)> = h.entries.iter().map(|(n, v)| (n.as_str(), v.as_str())).collect();
    assert_eq!(
        pairs,
        vec![("Content-Type", "text/plain"), ("Access-Control-Allow-Origin", "*")]
    );
    assert_eq!(WAITING_MESSAGE, "[INFO] Waiting for 1 receiver(s)...\n");
    assert_eq!(RECEIVERS_WAITING_MESSAGE, "[INFO] 1 receiver(s) has/have been connected.\n");
    assert_eq!(START_MESSAGE, "[INFO] Start sending to 1 receiver(s)...\n");
}
