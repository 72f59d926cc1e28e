use qotd::clock::Timestamp;
use qotd::loader::startup;
use qotd::quote::Quote;
use qotd::responder::{respond, respond_at, Arrival};
use qotd::selector::CurrentQuote;

fn two() -> CurrentQuote {
    let file = br#"{"quotes": [{"quote":"early","author":"E"}, {"quote":"late","author":"L"}]}"#;
    startup(file, Timestamp::from_secs(0)).unwrap()
}

#[test]
fn datagram_gets_one_of_the_two_texts() {
    let mut s = two();
    let payload = "ping";
    let reply = respond(&mut s, Arrival::Datagram { len: payload.len() }).unwrap();
    assert!(!reply.is_empty());
    assert!(reply == "'early' -E" || reply == "'late' -L");
}

#[test]
fn empty_datagram_gets_a_reply() {
    let mut s = two();
    let reply = respond_at(&mut s, Arrival::Datagram { len: 0 }, Timestamp::from_secs(5), 1);
    assert_eq!(reply, Some(String::from("'early' -E")));
}

#[test]
fn connection_gets_the_current_text() {
    let mut s = CurrentQuote::new(vec![Quote::new("Hello", "X")], Timestamp::from_secs(0)).unwrap();
    let reply = respond_at(&mut s, Arrival::Connection, Timestamp::from_secs(1), 0);
    assert_eq!(reply, Some(String::from("'Hello' -X")));
    let reply = respond(&mut s, Arrival::Connection);
    assert_eq!(reply, Some(String::from("'Hello' -X")));
}

#[test]
fn connection_and_datagram_at_the_same_instant_get_the_same_text() {
    let mut s = two();
    let now = Timestamp::from_secs(100_000);
    let tcp = respond_at(&mut s, Arrival::Connection, now, 1).unwrap();
    let udp = respond_at(&mut s, Arrival::Datagram { len: 4 }, now, 0).unwrap();
    assert_eq!(tcp, "'late' -L");
    assert_eq!(tcp.as_bytes(), udp.as_bytes());
    assert_eq!(s.selected_at(), now);
    assert_eq!(s.current_index(), 1);
}

#[test]
fn failure_gets_no_reply_and_changes_nothing() {
    let mut s = two();
    let reply = respond_at(&mut s, Arrival::Failed, Timestamp::from_secs(1_000_000), 1);
    assert_eq!(reply, None);
    assert_eq!(s.current_index(), 0);
    assert_eq!(s.selected_at(), Timestamp::from_secs(0));
    assert_eq!(respond(&mut s, Arrival::Failed), None);
    assert_eq!(s.current_index(), 0);
    assert_eq!(s.selected_at(), Timestamp::from_secs(0));
}

#[test]
fn expired_selection_rotates_on_the_next_arrival() {
    let mut s = two();
    let now = Timestamp::from_secs(86_401);
    let reply = respond_at(&mut s, Arrival::Datagram { len: 10 }, now, 1);
    assert_eq!(reply, Some(String::from("'late' -L")));
    assert_eq!(s.selected_at(), now);
}
