use libmonome::{Arg, Message, MonomeAction, Packet};

fn ints(vals: &[i32]) -> Vec<Arg> {
    vals.iter().map(|v| Arg::Int(*v)).collect()
}

#[test]
fn led_set_to_packet() {
    let packet = MonomeAction::LedSet(3, 7, true).to_packet();
    assert_eq!(packet,
               Packet::Message(Message {
                   addr: "/64/grid/led/set".into(),
                   args: vec![Arg::Int(3), Arg::Int(7), Arg::Int(1)],
               }));
}

#[test]
fn led_all_to_packet() {
    let packet = MonomeAction::LedAll(true).to_packet();
    assert_eq!(packet,
               Packet::Message(Message {
                   addr: "/64/grid/led/all".into(),
                   args: vec![Arg::Int(1)],
               }));
}

#[test]
fn led_intensity_to_packet() {
    let packet = MonomeAction::LedIntensity(7).to_packet();
    assert_eq!(packet,
               Packet::Message(Message {
                   addr: "/64/grid/led/intensity".into(),
                   args: vec![Arg::Int(7)],
               }));
}

#[test]
fn led_map_to_packet() {
    let packet = MonomeAction::LedMap(3, 7, &[0, 1, 2, 3, 4, 5, 6, 7]).to_packet();
    assert_eq!(packet,
               Packet::Message(Message {
                   addr: "/64/grid/led/map".into(),
                   args: vec![Arg::Int(3),
                              Arg::Int(7),
                              Arg::Int(0),
                              Arg::Int(1),
                              Arg::Int(2),
                              Arg::Int(3),
                              Arg::Int(4),
                              Arg::Int(5),
                              Arg::Int(6),
                              Arg::Int(7)],
               }));
}

#[test]
fn led_col_to_packet() {
    let packet = MonomeAction::LedCol(3, 7, 16).to_packet();
    assert_eq!(packet,
               Packet::Message(Message {
                   addr: "/64/grid/led/col".into(),
                   args: vec![Arg::Int(3), Arg::Int(7), Arg::Int(16)],
               }));
}

#[test]
fn led_row_to_packet() {
    let packet = MonomeAction::LedRow(3, 7, 17).to_packet();
    assert_eq!(packet,
               Packet::Message(Message {
                   addr: "/64/grid/led/row".into(),
                   args: vec![Arg::Int(3), Arg::Int(7), Arg::Int(17)],
               }));
}

#[test]
fn flags_encode_as_zero_or_one() {
    assert_eq!(MonomeAction::LedSet(0, 0, false).to_args(), ints(&[0, 0, 0]));
    assert_eq!(MonomeAction::LedSet(1, 2, true).to_args(), ints(&[1, 2, 1]));
    assert_eq!(MonomeAction::LedAll(false).to_args(), ints(&[0]));
    assert_eq!(MonomeAction::LedAll(true).to_args(), ints(&[1]));
}

#[test]
fn led_map_has_ten_args_in_order() {
    let masks = [255u8, 128, 64, 32, 16, 8, 4, 2];
    let args = MonomeAction::LedMap(8, 0, &masks).to_args();
    assert_eq!(args.len(), 10);
    assert_eq!(args, ints(&[8, 0, 255, 128, 64, 32, 16, 8, 4, 2]));
}

#[test]
fn byte_fields_keep_their_full_range() {
    let m = MonomeAction::LedRow(255, 15, 255).to_message("/x");
    assert_eq!(m.addr, "/x/grid/led/row");
    assert_eq!(m.args, ints(&[255, 15, 255]));
}

#[test]
fn to_addr_gives_each_route() {
    let masks = [0u8; 8];
    assert_eq!(MonomeAction::LedSet(0, 0, true).to_addr(), "/grid/led/set");
    assert_eq!(MonomeAction::LedAll(true).to_addr(), "/grid/led/all");
    assert_eq!(MonomeAction::LedIntensity(3).to_addr(), "/grid/led/intensity");
    assert_eq!(MonomeAction::LedMap(0, 0, &masks).to_addr(), "/grid/led/map");
    assert_eq!(MonomeAction::LedRow(0, 0, 0).to_addr(), "/grid/led/row");
    assert_eq!(MonomeAction::LedCol(0, 0, 0).to_addr(), "/grid/led/col");
}

#[test]
fn to_message_uses_given_prefix() {
    let m = MonomeAction::LedIntensity(12).to_message("/grid2");
    assert_eq!(m, Message { addr: "/grid2/grid/led/intensity".into(), args: ints(&[12]) });
}
