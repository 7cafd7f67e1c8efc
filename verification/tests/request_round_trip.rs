use rose_offline::data::character::HotbarSlot;
use rose_offline::game::messages::client::{ClientMessage, Move, SetHotbarSlot};
use rose_offline::irose::protocol::world::client_packets::{
    PacketClientConnectRequest, PacketClientCreateCharacter, PacketClientDeleteCharacter,
    PacketClientSelectCharacter,
};
use rose_offline::irose::protocol::world::WorldClient;
use rose_offline::protocol::irose::game::client_packets::{
    PacketClientChat, PacketClientJoinZone, PacketClientMove, PacketClientSetHotbarSlot,
};
use rose_offline::protocol::irose::game::GameClient;
use rose_offline::protocol::packet::{decode_frame, encode_frame, Packet, ProtocolError};

const MD5: &str = "5f4dcc3b5aa765d61d8327deb882cf99";

/// What the other side gets of a packet that was sent in a frame.
fn over_the_wire(packet: Packet) -> Packet {
    let bytes = encode_frame(&packet, 7).unwrap();
    let (received, sequence, length) = decode_frame(&bytes).unwrap();
    assert_eq!((sequence, length), (7, bytes.len()));
    received
}

fn world_message(packet: Packet) -> ClientMessage {
    let request = WorldClient::new().handle_packet(&over_the_wire(packet)).unwrap().unwrap();
    assert!(request.expects_response);
    request.message
}

#[test]
fn world_connect_request_round_trips() {
    let sent = PacketClientConnectRequest { login_token: 0xdeadbeef, password_md5: MD5.to_string() };
    assert_eq!(sent.to_packet().command, 0x70b);
    match world_message(sent.to_packet()) {
        ClientMessage::ConnectionRequest(message) => {
            assert_eq!(message.login_token, 0xdeadbeef);
            assert_eq!(message.password_md5, MD5);
        }
        other => panic!("unexpected message {:?}", other),
    }
    let parsed = PacketClientConnectRequest::try_from_packet(&sent.to_packet()).unwrap();
    assert_eq!((parsed.login_token, parsed.password_md5), (0xdeadbeef, MD5.to_string()));
}

#[test]
fn world_connect_request_with_short_digest_is_invalid() {
    let sent = PacketClientConnectRequest { login_token: 1, password_md5: "short".to_string() };
    assert_eq!(
        WorldClient::new().handle_packet(&sent.to_packet()).unwrap_err(),
        ProtocolError::InvalidPacket
    );
}

#[test]
fn world_character_list_request_round_trips() {
    let message = world_message(Packet { command: 0x712, data: Vec::new() });
    assert!(matches!(message, ClientMessage::GetCharacterList));
}

#[test]
fn world_create_character_round_trips() {
    let sent = PacketClientCreateCharacter {
        gender: 1,
        birth_stone: 22,
        hair: 33,
        face: 44,
        start_point: 0x0506,
        name: "Zoë the 1st".to_string(),
    };
    assert_eq!(sent.to_packet().command, 0x713);
    match world_message(sent.to_packet()) {
        ClientMessage::CreateCharacter(message) => {
            assert_eq!(
                (message.gender, message.birth_stone, message.hair, message.face),
                (1, 22, 33, 44)
            );
            assert_eq!(message.name, "Zoë the 1st");
        }
        other => panic!("unexpected message {:?}", other),
    }
    let parsed = PacketClientCreateCharacter::try_from_packet(&sent.to_packet()).unwrap();
    assert_eq!(parsed.start_point, 0x0506);
}

#[test]
fn world_delete_character_round_trips() {
    for is_delete in [true, false] {
        let sent = PacketClientDeleteCharacter { slot: 4, is_delete, name: "anna".to_string() };
        assert_eq!(sent.to_packet().command, 0x714);
        match world_message(sent.to_packet()) {
            ClientMessage::DeleteCharacter(message) => {
                assert_eq!((message.slot, message.is_delete), (4, is_delete));
                assert_eq!(message.name, "anna");
            }
            other => panic!("unexpected message {:?}", other),
        }
    }
}

#[test]
fn world_select_character_round_trips() {
    let sent =
        PacketClientSelectCharacter { slot: 2, run_mode: 1, ride_mode: 3, name: String::new() };
    assert_eq!(sent.to_packet().command, 0x715);
    match world_message(sent.to_packet()) {
        ClientMessage::SelectCharacter(message) => {
            assert_eq!(message.slot, 2);
            assert_eq!(message.name, "");
        }
        other => panic!("unexpected message {:?}", other),
    }
    let parsed = PacketClientSelectCharacter::try_from_packet(&sent.to_packet()).unwrap();
    assert_eq!((parsed.run_mode, parsed.ride_mode), (1, 3));
}

#[test]
fn text_with_a_zero_character_is_cut_on_the_wire() {
    let sent = PacketClientDeleteCharacter { slot: 0, is_delete: true, name: "an\0na".to_string() };
    match world_message(sent.to_packet()) {
        ClientMessage::DeleteCharacter(message) => assert_eq!(message.name, "an"),
        other => panic!("unexpected message {:?}", other),
    }
}

#[test]
fn game_requests_round_trip() {
    let client = GameClient::new();
    let connect = PacketClientConnectRequest { login_token: 9, password_md5: MD5.to_string() };
    let request = client.handle_packet(&over_the_wire(connect.to_packet())).unwrap().unwrap();
    assert!(request.expects_response);
    match request.message {
        ClientMessage::GameConnectionRequest(message) => {
            assert_eq!(message.login_token, 9);
            assert_eq!(message.password_md5, MD5);
        }
        other => panic!("unexpected message {:?}", other),
    }
    let join = PacketClientJoinZone { weight_rate: 50, z: 1234 };
    assert_eq!(join.to_packet().command, 0x753);
    assert_eq!(PacketClientJoinZone::try_from_packet(&join.to_packet()), Ok(join));
    let request = client.handle_packet(&over_the_wire(join.to_packet())).unwrap().unwrap();
    assert!(request.expects_response);
    assert!(matches!(request.message, ClientMessage::JoinZoneRequest));
    let chat = PacketClientChat { text: "héllo wörld".to_string() };
    assert_eq!(chat.to_packet().command, 0x783);
    let request = client.handle_packet(&over_the_wire(chat.to_packet())).unwrap().unwrap();
    assert!(!request.expects_response);
    match request.message {
        ClientMessage::Chat(text) => assert_eq!(text, "héllo wörld"),
        other => panic!("unexpected message {:?}", other),
    }
}

#[test]
fn game_move_request_round_trips_for_exact_coordinates() {
    let client = GameClient::new();
    for (x, y) in [(0, 0), (520_000, -530_000), (16_777_216, -16_777_216), (-1, 1)] {
        let sent = PacketClientMove { target_entity_id: 0xfffe, x, y, z: 65535 };
        assert_eq!(sent.to_packet().command, 0x79a);
        assert_eq!(PacketClientMove::try_from_packet(&sent.to_packet()), Ok(sent));
        let request = client.handle_packet(&over_the_wire(sent.to_packet())).unwrap().unwrap();
        assert!(!request.expects_response);
        match request.message {
            ClientMessage::Move(message) => {
                assert_eq!(message, Move { target_entity_id: 0xfffe, x, y, z: 65535 })
            }
            other => panic!("unexpected message {:?}", other),
        }
    }
    let far = PacketClientMove { target_entity_id: 0, x: 16_777_217, y: 0, z: 0 };
    let read = PacketClientMove::try_from_packet(&far.to_packet()).unwrap();
    assert_eq!(read.x, 16_777_216);
}

#[test]
fn game_set_hotbar_slot_request_round_trips() {
    let client = GameClient::new();
    for slot in [None, Some(HotbarSlot::Inventory(2047)), Some(HotbarSlot::ClanSkill(0))] {
        let sent = PacketClientSetHotbarSlot { slot_index: 31, slot };
        assert_eq!(sent.to_packet().command, 0x7aa);
        let request = client.handle_packet(&over_the_wire(sent.to_packet())).unwrap().unwrap();
        assert!(request.expects_response);
        match request.message {
            ClientMessage::SetHotbarSlot(message) => {
                assert_eq!(message, SetHotbarSlot { slot_index: 31, slot })
            }
            other => panic!("unexpected message {:?}", other),
        }
    }
}
