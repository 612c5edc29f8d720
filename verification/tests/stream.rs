use tgdyk::stream::{
    frame_update, received_update, serve_client, ClientAction, Delivery,
};

#[test]
fn updates_become_lines() {
    assert_eq!(frame_update("{\"a\":1}"), b"{\"a\":1}\n".to_vec());
    assert_eq!(frame_update(""), b"\n".to_vec());
    assert_eq!(frame_update("\u{e9}"), vec![0xc3, 0xa9, b'\n']);
}

#[test]
fn streams_are_raw() {
    let raw: &[u8] = "{\"text\":\"gr\u{fc}\u{df}e \u{1f600}\"}".as_bytes();
    let update = received_update(Some(raw)).unwrap();
    let mut wanted = raw.to_vec();
    wanted.push(b'\n');
    assert_eq!(frame_update(&update), wanted);
    assert_eq!(received_update(None), None);
    let broken: &[u8] = &[b'a', 0xff];
    assert_eq!(received_update(Some(broken)), Some("a\u{fffd}".to_string()));
}

#[test]
fn one_line_for_each_update() {
    let updates = ["{\"@type\":\"a\"}", "{}", "{\"n\":\"\u{10a}\u{20ac}\"}"];
    let mut stream: Vec<u8> = Vec::new();
    for update in updates {
        stream.extend(frame_update(update));
    }
    let text = String::from_utf8(stream).unwrap();
    let lines: Vec<&str> = text.lines().collect();
    assert_eq!(lines, updates.to_vec());
}

#[test]
fn clients_get_updates_until_they_lag() {
    let deliveries = [
        Delivery::Update("1".to_string()),
        Delivery::Update("2".to_string()),
        Delivery::Lagged(3),
        Delivery::Update("6".to_string()),
    ];
    let mut seen: Vec<u8> = Vec::new();
    for delivery in &deliveries {
        match serve_client(delivery) {
            ClientAction::Write(bytes) => seen.extend(bytes),
            ClientAction::Disconnect => break,
        }
    }
    assert_eq!(seen, b"1\n2\n".to_vec());
    assert_eq!(serve_client(&Delivery::Closed), ClientAction::Disconnect);
    assert_eq!(
        serve_client(&Delivery::Unwritable),
        ClientAction::Disconnect
    );
}
