use supervisor::lua::{decode_lua_table, read_lua_table_with_string_key_and_string_value};
use supervisor::relay::{route_message, Delivery, RELAY_FROM_KEY, RELAY_TO_KEY};

#[test]
fn first_appearance_of_a_name_registers_it() {
    let mut index: Vec<(String, u32)> = Vec::new();
    let peers = vec![1, 2];
    route_message(&mut index, &peers, 1, &String::from("drone1"), &String::from("nil"));
    assert_eq!(index, vec![(String::from("drone1"), 1)]);
    // A later sender under the same name does not overwrite the entry.
    route_message(&mut index, &peers, 2, &String::from("drone1"), &String::from("nil"));
    assert_eq!(index, vec![(String::from("drone1"), 1)]);
}

#[test]
fn nil_sender_name_is_not_registered() {
    let mut index: Vec<(String, u32)> = Vec::new();
    let peers = vec![1];
    route_message(&mut index, &peers, 1, &String::from("nil"), &String::from("nil"));
    assert!(index.is_empty());
}

#[test]
fn known_receiver_gets_unicast() {
    let mut index = vec![(String::from("pipuck2"), 7)];
    let peers = vec![1, 7];
    let d = route_message(&mut index, &peers, 1, &String::from("drone1"), &String::from("pipuck2"));
    assert_eq!(d, Delivery::Unicast(7));
}

#[test]
fn unknown_receiver_broadcasts() {
    let mut index: Vec<(String, u32)> = Vec::new();
    let peers = vec![1, 2, 3];
    let d = route_message(&mut index, &peers, 1, &String::from("drone1"), &String::from("pipuck9"));
    assert_eq!(d, Delivery::Broadcast);
}

#[test]
fn self_addressed_message_falls_back_to_broadcast() {
    let mut index = vec![(String::from("drone1"), 1)];
    let peers = vec![1, 2];
    let d = route_message(&mut index, &peers, 1, &String::from("drone1"), &String::from("drone1"));
    assert_eq!(d, Delivery::Broadcast);
}

#[test]
fn receiver_without_live_channel_falls_back_to_broadcast() {
    let mut index = vec![(String::from("pipuck2"), 7)];
    let peers = vec![1];
    let d = route_message(&mut index, &peers, 1, &String::from("drone1"), &String::from("pipuck2"));
    assert_eq!(d, Delivery::Broadcast);
}

#[test]
fn log_sink_message_is_dropped_when_not_deliverable() {
    let mut index: Vec<(String, u32)> = Vec::new();
    let peers = vec![1, 2];
    let d = route_message(&mut index, &peers, 1, &String::from("drone1"), &String::from("LOGINFO"));
    assert_eq!(d, Delivery::Nothing);
}

#[test]
fn log_sink_with_live_channel_still_gets_unicast() {
    let mut index = vec![(String::from("LOGINFO"), 9)];
    let peers = vec![1, 9];
    let d = route_message(&mut index, &peers, 1, &String::from("drone1"), &String::from("LOGINFO"));
    assert_eq!(d, Delivery::Unicast(9));
}

#[test]
fn decoded_message_routes_by_its_names() {
    // A broadcast message as it comes off the wire: a table naming its
    // sender and receiver.
    let mut wire = Vec::new();
    wire.push(4u8);
    wire.extend_from_slice(b"fromS\0");
    wire.push(4u8);
    wire.extend_from_slice(b"drone1\0");
    wire.push(4u8);
    wire.extend_from_slice(b"toS\0");
    wire.push(4u8);
    wire.extend_from_slice(b"pipuck2\0");
    wire.push(0u8);
    let (table, _) = decode_lua_table(&wire, 0).expect("message should decode");
    let from = read_lua_table_with_string_key_and_string_value(&table, String::from(RELAY_FROM_KEY));
    let to = read_lua_table_with_string_key_and_string_value(&table, String::from(RELAY_TO_KEY));
    assert_eq!(from, "drone1");
    assert_eq!(to, "pipuck2");

    let mut index = vec![(String::from("pipuck2"), 5)];
    let peers = vec![3, 5];
    let d = route_message(&mut index, &peers, 3, &from, &to);
    assert_eq!(d, Delivery::Unicast(5));
    // The sender's name is now known for later messages.
    assert_eq!(index[1], (String::from("drone1"), 3));
}
