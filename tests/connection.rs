use chat_relay::connection::{classify, classify_hub, Action, Connection, Inbound};
use chat_relay::message::{Command, FileMessage, TextMessage, Timestamp};
use chat_relay::registry::FileRegistry;
use chat_relay::user::User;
use uuid::Uuid;

fn user(name: &str, id: u128) -> User {
    User { username: String::from(name), user_id: Uuid::from_u128(id) }
}

fn epoch() -> Timestamp {
    Timestamp { secs: 0, nanos: 0 }
}

fn photo(owner: &User, data: &[u8]) -> FileMessage {
    FileMessage::new(owner, "photo.png", data.len(), &data.to_vec())
}

fn replies(actions: &[Action]) -> Vec<String> {
    actions
        .iter()
        .map(|a| match a {
            Action::Reply(s) => s.clone(),
            other => panic!("not a reply: {:?}", other),
        })
        .collect()
}

fn ask(conn: &mut Connection, who: &User, command: &str, args: Vec<&str>) -> Vec<Action> {
    let c = Command::new(who, command, args);
    conn.on_peer_line(String::from("{command}\n"), Inbound::Command(c), epoch())
}

#[test]
fn classify_prefers_command_then_file_then_text() {
    let u = user("A", 1);
    let c = Command::new(&u, "/recvinfo", vec![]);
    let f = photo(&u, &[1]);
    let t = TextMessage::new(&u, "x", epoch());
    assert!(matches!(classify(Some(c), Some(f), Some(t)), Inbound::Command(_)));
    let f = photo(&u, &[1]);
    let t = TextMessage::new(&u, "x", epoch());
    assert!(matches!(classify(None, Some(f), Some(t)), Inbound::File(_)));
    let t = TextMessage::new(&u, "x", epoch());
    assert!(matches!(classify(None, None, Some(t)), Inbound::Text(_)));
    assert!(matches!(classify(None, None, None), Inbound::Raw));
}

#[test]
fn classify_hub_prefers_text_then_file() {
    let u = user("A", 1);
    let f = photo(&u, &[1]);
    let t = TextMessage::new(&u, "x", epoch());
    assert!(matches!(classify_hub(Some(t), Some(f)), Inbound::Text(_)));
    let f = photo(&u, &[1]);
    assert!(matches!(classify_hub(None, Some(f)), Inbound::File(_)));
    assert!(matches!(classify_hub(None, None), Inbound::Raw));
}

#[test]
fn text_from_hub_is_shown_to_every_subscriber() {
    // Alice and Bob are connected; Alice says hello.
    let alice = user("Alice", 1);
    let mut conn_a = Connection::new(user("Anonymous1", 11));
    let mut conn_b = Connection::new(user("Anonymous2", 12));
    let hello = TextMessage::new(&alice, "hello", epoch());
    let line = String::from("{\"text\":1}\n");
    let out = conn_a.on_peer_line(line.clone(), Inbound::Text(hello), epoch());
    assert_eq!(out.len(), 1);
    let published = match &out[0] {
        Action::Publish(s) => s.clone(),
        other => panic!("expected a publish, got {:?}", other),
    };
    assert_eq!(published, line);
    for conn in [&mut conn_a, &mut conn_b] {
        let m = TextMessage::new(&alice, "hello", epoch());
        let shown = conn.on_hub_line(published.clone(), Inbound::Text(m));
        assert_eq!(replies(&shown), vec![String::from("01/01/1970 00:00 Alice: hello")]);
    }
}

#[test]
fn text_stamp_uses_day_month_year_hour_minute() {
    let mut conn = Connection::new(user("Anonymous3", 3));
    let m = TextMessage::new(&user("Bob", 2), "hi\n", Timestamp { secs: 1_700_000_059, nanos: 999 });
    let shown = conn.on_hub_line(String::from("raw"), Inbound::Text(m));
    assert_eq!(replies(&shown), vec![String::from("14/11/2023 22:14 Bob: hi\n")]);
}

#[test]
fn text_at_the_edges_of_chrono_range_is_formatted() {
    let mut conn = Connection::new(user("Anonymous3", 3));
    let last = TextMessage::new(&user("Bob", 2), "x", Timestamp { secs: 8_210_266_876_799, nanos: 0 });
    let shown = conn.on_hub_line(String::from("raw"), Inbound::Text(last));
    assert_eq!(replies(&shown), vec![String::from("31/12/+262142 23:59 Bob: x")]);
    let first = TextMessage::new(&user("Bob", 2), "x", Timestamp { secs: -8_334_601_228_800, nanos: 0 });
    let shown = conn.on_hub_line(String::from("raw"), Inbound::Text(first));
    assert_eq!(replies(&shown), vec![String::from("01/01/-262143 00:00 Bob: x")]);
}

#[test]
fn text_just_past_chrono_range_is_written_as_it_came() {
    let mut conn = Connection::new(user("Anonymous3", 3));
    let after = TextMessage::new(&user("Bob", 2), "x", Timestamp { secs: 8_210_266_876_800, nanos: 0 });
    let shown = conn.on_hub_line(String::from("late"), Inbound::Text(after));
    assert_eq!(replies(&shown), vec![String::from("late")]);
    let before = TextMessage::new(&user("Bob", 2), "x", Timestamp { secs: -8_334_601_228_801, nanos: 0 });
    let shown = conn.on_hub_line(String::from("early"), Inbound::Text(before));
    assert_eq!(replies(&shown), vec![String::from("early")]);
}

#[test]
fn text_with_instant_out_of_range_is_written_as_it_came() {
    let mut conn = Connection::new(user("Anonymous3", 3));
    let m = TextMessage::new(&user("Bob", 2), "hi", Timestamp { secs: i64::MAX, nanos: 0 });
    let shown = conn.on_hub_line(String::from("the line"), Inbound::Text(m));
    assert_eq!(replies(&shown), vec![String::from("the line")]);
}

#[test]
fn uploaded_file_is_retrievable_after_broadcast() {
    let uploader = user("Alice", 1);
    let bob = user("Bob", 2);
    let data: Vec<u8> = (1..=10).collect();
    let mut conn_a = Connection::new(user("Anonymous1", 11));
    let mut conn_b = Connection::new(user("Anonymous2", 12));
    let out = conn_a.on_peer_line(String::from("{file}\n"), Inbound::File(photo(&uploader, &data)), epoch());
    assert!(matches!(&out[..], [Action::Reply(ok), Action::Publish(s)] if ok == "Ok\n" && s == "{file}\n"));
    let shown = conn_b.on_hub_line(String::from("{file}\n"), Inbound::File(photo(&uploader, &data)));
    assert!(shown.is_empty());
    let out = ask(&mut conn_b, &bob, "/recvfile", vec!["photo.png"]);
    assert_eq!(out.len(), 2);
    match &out[0] {
        Action::ReplyFile(f) => {
            assert_eq!(f.file_data, data);
            assert_eq!(f.file_name, "photo.png");
            assert_eq!(f.username, "Alice");
        },
        other => panic!("expected the file, got {:?}", other),
    }
    assert!(matches!(&out[1], Action::Reply(s) if s == "Ok\n"));
}

#[test]
fn recvfile_before_upload_is_not_found() {
    let bob = user("Bob", 2);
    let mut conn = Connection::new(user("Anonymous2", 12));
    let out = ask(&mut conn, &bob, "/recvfile", vec!["missing.txt"]);
    assert_eq!(replies(&out), vec![String::from("file not found\n")]);
}

#[test]
fn recvfile_without_name_is_not_found() {
    let bob = user("Bob", 2);
    let mut conn = Connection::new(user("Anonymous2", 12));
    let out = ask(&mut conn, &bob, "/recvfile", vec![]);
    assert_eq!(replies(&out), vec![String::from("file not found\n")]);
}

#[test]
fn recvfile_needs_own_observation() {
    let alice = user("Alice", 1);
    let mut observer = Connection::new(user("Anonymous1", 11));
    let mut late = Connection::new(user("Anonymous2", 12));
    observer.on_hub_line(String::from("f"), Inbound::File(photo(&alice, &[5])));
    let out = ask(&mut late, &alice, "/recvfile", vec!["photo.png"]);
    assert_eq!(replies(&out), vec![String::from("file not found\n")]);
    let out = ask(&mut observer, &alice, "/recvfile", vec!["photo.png"]);
    assert_eq!(out.len(), 2);
}

#[test]
fn reupload_replaces_entry() {
    let alice = user("Alice", 1);
    let mut conn = Connection::new(user("Anonymous1", 11));
    conn.on_hub_line(String::from("f"), Inbound::File(photo(&alice, &[1, 2])));
    conn.on_hub_line(String::from("f"), Inbound::File(photo(&alice, &[3, 4, 5])));
    let out = ask(&mut conn, &alice, "/recvfile", vec!["photo.png"]);
    match &out[0] {
        Action::ReplyFile(f) => assert_eq!(f.file_data, vec![3, 4, 5]),
        other => panic!("expected the file, got {:?}", other),
    }
    let out = ask(&mut conn, &alice, "/recvinfo", vec![]);
    assert_eq!(replies(&out), vec![String::from("Alice: 3 bytes -> photo.png\n")]);
}

#[test]
fn recvinfo_lists_only_observed_files() {
    let alice = user("Alice", 1);
    let bob = user("Bob", 2);
    let mut conn_b = Connection::new(user("Anonymous2", 12));
    let mut conn_c = Connection::new(user("Anonymous3", 13));
    conn_b.on_hub_line(String::from("f"), Inbound::File(photo(&alice, &[1, 2, 3])));
    let notes = FileMessage::new(&bob, "notes.txt", 12, &vec![0u8; 4]);
    conn_b.on_hub_line(String::from("g"), Inbound::File(notes));
    let out = ask(&mut conn_b, &bob, "/recvinfo", vec![]);
    assert_eq!(
        replies(&out),
        vec![String::from("Alice: 3 bytes -> photo.png\nBob: 12 bytes -> notes.txt\n")]
    );
    let out = ask(&mut conn_c, &bob, "/recvinfo", vec![]);
    assert_eq!(replies(&out), vec![String::from("no files available\n")]);
}

#[test]
fn unknown_command_gets_no_answer() {
    let bob = user("Bob", 2);
    let mut conn = Connection::new(user("Anonymous2", 12));
    assert!(ask(&mut conn, &bob, "dance", vec![]).is_empty());
    assert!(ask(&mut conn, &bob, "recvinfo", vec![]).is_empty());
}

#[test]
fn raw_line_is_wrapped_with_fallback_identity() {
    let fallback = User::fallback(77);
    let id = fallback.user_id;
    let mut conn = Connection::new(fallback);
    let now = Timestamp { secs: 1_000, nanos: 0 };
    for body in ["hi there\n", "again\n"] {
        let out = conn.on_peer_line(String::from(body), Inbound::Raw, now);
        match &out[..] {
            [Action::PublishText(m)] => {
                assert_eq!(m.username, "Anonymous77");
                assert_eq!(m.user_id, id);
                assert_eq!(m.body, body);
                assert_eq!(m.created_at, now);
            },
            other => panic!("expected a text message, got {:?}", other),
        }
    }
    assert_eq!(conn.fallback().user_id, id);
}

#[test]
fn empty_line_closes_connection() {
    let mut conn = Connection::new(user("Anonymous2", 12));
    let out = conn.on_peer_line(String::new(), Inbound::Raw, epoch());
    assert!(matches!(&out[..], [Action::Close]));
}

#[test]
fn unshaped_hub_line_is_written_through() {
    let mut conn = Connection::new(user("Anonymous2", 12));
    let out = conn.on_hub_line(String::from("plain"), Inbound::Raw);
    assert_eq!(replies(&out), vec![String::from("plain")]);
}

#[test]
fn registry_upsert_and_lookup() {
    let alice = user("Alice", 1);
    let mut r = FileRegistry::new();
    assert_eq!(r.len(), 0);
    assert_eq!(r.listing(), "");
    r.upsert(photo(&alice, &[1]));
    r.upsert(FileMessage::new(&alice, "b", 0, &vec![]));
    r.upsert(photo(&alice, &[9, 9]));
    assert_eq!(r.len(), 2);
    assert_eq!(r.lookup(&String::from("photo.png")).unwrap().file_data, vec![9, 9]);
    assert!(r.lookup(&String::from("c")).is_none());
    assert_eq!(r.listing(), "Alice: 2 bytes -> photo.png\nAlice: 0 bytes -> b\n");
}
