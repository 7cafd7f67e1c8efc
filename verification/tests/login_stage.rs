use rose_offline::data::account::{AccountStorage, AccountStore};
use rose_offline::game::components::{Account, Entity, LoginClient};
use rose_offline::game::messages::client::{
    ClientMessage, ConnectionRequest, ConnectionRequestResponse, GetChannelList,
    GetChannelListError, JoinServer, JoinServerError, LoginError, LoginRequest,
};
use rose_offline::game::resources::{GameServer, LoginTokens, ServerList, WorldServer};
use rose_offline::game::systems::login_server::{
    login_server, login_server_authentication, to_login_error, LoginAuthentication,
    LoginServerReply,
};
use rose_offline::data::account::AccountStorageError;

const ALICE_MD5: &str = "5f4dcc3b5aa765d61d8327deb882cf99";

fn accounts_with_alice() -> AccountStore {
    let mut accounts = AccountStore::new();
    accounts.save(&AccountStorage {
        name: "alice".to_string(),
        password_md5: ALICE_MD5.to_string(),
        character_names: Vec::new(),
    });
    accounts
}

fn server_list() -> ServerList {
    let mut list = ServerList::new();
    list.world_servers.push(WorldServer {
        entity: Entity(10),
        name: "MainWorld".to_string(),
        ip: "127.0.0.1".to_string(),
        port: 29100,
        packet_codec_seed: 0x1234,
        channels: vec![
            GameServer {
                entity: Entity(11),
                name: "Channel 1".to_string(),
                ip: "127.0.0.1".to_string(),
                port: 29200,
                packet_codec_seed: 0x5678,
            },
            GameServer {
                entity: Entity(12),
                name: "Channel 2".to_string(),
                ip: "127.0.0.1".to_string(),
                port: 29201,
                packet_codec_seed: 0x9abc,
            },
        ],
    });
    list
}

fn alice() -> Account {
    Account {
        name: "alice".to_string(),
        password_md5: ALICE_MD5.to_string(),
        character_names: Vec::new(),
    }
}

fn login(username: &str, password_md5: &str) -> ClientMessage {
    ClientMessage::LoginRequest(LoginRequest {
        username: username.to_string(),
        password_md5: password_md5.to_string(),
    })
}

#[test]
fn login_scenario_connect_login_and_list_worlds() {
    let accounts = accounts_with_alice();
    let connect = ClientMessage::ConnectionRequest(ConnectionRequest {
        login_token: 0,
        password_md5: String::new(),
    });
    match login_server_authentication(&connect, &accounts) {
        LoginAuthentication::ConnectionReply(reply) => {
            assert_eq!(reply, Ok(ConnectionRequestResponse { packet_sequence_id: 123 }))
        }
        other => panic!("unexpected outcome {:?}", other),
    }
    let account = match login_server_authentication(&login("alice", ALICE_MD5), &accounts) {
        LoginAuthentication::LoginReply { reply, account } => {
            assert_eq!(reply, Ok(()));
            account.unwrap()
        }
        other => panic!("unexpected outcome {:?}", other),
    };
    assert_eq!(account.name, "alice");
    let mut client = LoginClient::new();
    let mut tokens = LoginTokens::new();
    match login_server(
        &account,
        &mut client,
        &server_list(),
        &mut tokens,
        &ClientMessage::GetWorldServerList,
        1,
    ) {
        LoginServerReply::WorldServerList(list) => {
            assert_eq!(list, vec![(0u32, "MainWorld".to_string())])
        }
        other => panic!("unexpected reply {:?}", other),
    }
    assert_eq!(tokens.len(), 0);
}

#[test]
fn login_with_unknown_account_is_invalid_account() {
    match login_server_authentication(&login("bob", ALICE_MD5), &accounts_with_alice()) {
        LoginAuthentication::LoginReply { reply, account } => {
            assert_eq!(reply, Err(LoginError::InvalidAccount));
            assert!(account.is_none());
        }
        other => panic!("unexpected outcome {:?}", other),
    }
}

#[test]
fn login_with_wrong_password_is_invalid_password() {
    match login_server_authentication(&login("alice", "wrong"), &accounts_with_alice()) {
        LoginAuthentication::LoginReply { reply, account } => {
            assert_eq!(reply, Err(LoginError::InvalidPassword));
            assert!(account.is_none());
        }
        other => panic!("unexpected outcome {:?}", other),
    }
}

#[test]
fn login_to_unreadable_account_fails() {
    let mut accounts = accounts_with_alice();
    accounts.mark_unreadable("carol".to_string());
    match login_server_authentication(&login("carol", ALICE_MD5), &accounts) {
        LoginAuthentication::LoginReply { reply, account } => {
            assert_eq!(reply, Err(LoginError::Failed));
            assert!(account.is_none());
        }
        other => panic!("unexpected outcome {:?}", other),
    }
}

#[test]
fn storage_errors_map_to_login_errors() {
    assert_eq!(to_login_error(AccountStorageError::NotFound), LoginError::InvalidAccount);
    assert_eq!(to_login_error(AccountStorageError::InvalidPassword), LoginError::InvalidPassword);
    assert_eq!(to_login_error(AccountStorageError::IoError), LoginError::Failed);
}

#[test]
fn other_messages_before_login_are_a_protocol_fault() {
    let outcome =
        login_server_authentication(&ClientMessage::GetWorldServerList, &accounts_with_alice());
    assert!(matches!(outcome, LoginAuthentication::ProtocolFault));
    let outcome = login_server_authentication(
        &ClientMessage::Chat("hello".to_string()),
        &accounts_with_alice(),
    );
    assert!(matches!(outcome, LoginAuthentication::ProtocolFault));
}

#[test]
fn channel_list_names_channels_by_position() {
    let mut client = LoginClient::new();
    let mut tokens = LoginTokens::new();
    let message = ClientMessage::GetChannelList(GetChannelList { server_id: 0 });
    match login_server(&alice(), &mut client, &server_list(), &mut tokens, &message, 1) {
        LoginServerReply::ChannelList(reply) => assert_eq!(
            reply,
            Ok(vec![(0u8, "Channel 1".to_string()), (1u8, "Channel 2".to_string())])
        ),
        other => panic!("unexpected reply {:?}", other),
    }
}

#[test]
fn channel_list_of_unknown_world_is_invalid_server_id() {
    let mut client = LoginClient::new();
    let mut tokens = LoginTokens::new();
    let message = ClientMessage::GetChannelList(GetChannelList { server_id: 1 });
    match login_server(&alice(), &mut client, &server_list(), &mut tokens, &message, 1) {
        LoginServerReply::ChannelList(reply) => {
            assert_eq!(reply, Err(GetChannelListError::InvalidServerId))
        }
        other => panic!("unexpected reply {:?}", other),
    }
}

#[test]
fn join_server_makes_token_for_world_and_channel() {
    let mut client = LoginClient::new();
    let mut tokens = LoginTokens::new();
    let message = ClientMessage::JoinServer(JoinServer { server_id: 0, channel_id: 1 });
    let response =
        match login_server(&alice(), &mut client, &server_list(), &mut tokens, &message, 0xabcd) {
            LoginServerReply::JoinServer(reply) => reply.unwrap(),
            other => panic!("unexpected reply {:?}", other),
        };
    assert_eq!(response.login_token, 0xabcd);
    assert_eq!(response.packet_codec_seed, 0x1234);
    assert_eq!(response.ip, "127.0.0.1");
    assert_eq!(response.port, 29100);
    assert_eq!(client.login_token, 0xabcd);
    assert_eq!(tokens.len(), 1);
    let token = tokens.find(0xabcd).unwrap();
    assert_eq!(token.username, "alice");
    assert_eq!(token.selected_world_server, Entity(10));
    assert_eq!(token.selected_game_server, Entity(12));
    assert_eq!(token.selected_character, None);
}

#[test]
fn join_server_rejects_bad_ids_without_making_a_token() {
    let mut client = LoginClient::new();
    let mut tokens = LoginTokens::new();
    let message = ClientMessage::JoinServer(JoinServer { server_id: 3, channel_id: 0 });
    match login_server(&alice(), &mut client, &server_list(), &mut tokens, &message, 5) {
        LoginServerReply::JoinServer(reply) => {
            assert_eq!(reply.unwrap_err(), JoinServerError::InvalidServerId)
        }
        other => panic!("unexpected reply {:?}", other),
    }
    let message = ClientMessage::JoinServer(JoinServer { server_id: 0, channel_id: 2 });
    match login_server(&alice(), &mut client, &server_list(), &mut tokens, &message, 5) {
        LoginServerReply::JoinServer(reply) => {
            assert_eq!(reply.unwrap_err(), JoinServerError::InvalidChannelId)
        }
        other => panic!("unexpected reply {:?}", other),
    }
    assert_eq!(tokens.len(), 0);
    assert_eq!(client.login_token, 0);
}

#[test]
fn unhandled_login_message_changes_nothing() {
    let mut client = LoginClient::new();
    let mut tokens = LoginTokens::new();
    let reply = login_server(
        &alice(),
        &mut client,
        &server_list(),
        &mut tokens,
        &ClientMessage::GetCharacterList,
        5,
    );
    assert!(matches!(reply, LoginServerReply::Unhandled));
    assert_eq!(tokens.len(), 0);
}

#[test]
fn tokens_are_nonzero_and_unique() {
    let mut tokens = LoginTokens::new();
    let mut made = Vec::new();
    for seed in [0u32, 0, 1, 1, 2, u32::MAX, u32::MAX, u32::MAX, 7, 0] {
        made.push(tokens.generate(seed, "alice".to_string(), Entity(1), Entity(2)));
    }
    assert_eq!(made, vec![1, 2, 3, 4, 5, u32::MAX, 6, 7, 8, 9]);
    for (i, a) in made.iter().enumerate() {
        assert_ne!(*a, 0);
        for b in &made[i + 1..] {
            assert_ne!(a, b);
        }
    }
    assert_eq!(tokens.tokens().len(), 10);
}

#[test]
fn token_selection_and_removal() {
    let mut tokens = LoginTokens::new();
    let first = tokens.generate(100, "alice".to_string(), Entity(1), Entity(2));
    let second = tokens.generate(200, "bob".to_string(), Entity(1), Entity(3));
    assert!(tokens.select_character(second, "hero".to_string()));
    assert!(!tokens.select_character(300, "nobody".to_string()));
    assert_eq!(tokens.find(second).unwrap().selected_character, Some("hero".to_string()));
    assert_eq!(tokens.find(first).unwrap().selected_character, None);
    let removed = tokens.remove(first).unwrap();
    assert_eq!(removed.username, "alice");
    assert!(tokens.find(first).is_none());
    assert!(tokens.remove(first).is_none());
    assert_eq!(tokens.len(), 1);
    assert_eq!(tokens.tokens()[0].token, second);
}
