//! The login tier: logging in to an account and picking the world and
//! the channel to play on.

use crate::data::account::{loaded_account, AccountRecords, AccountStorageError, AccountStore};
use crate::game::components::account::Account;
use crate::game::components::clients::LoginClient;
use crate::game::messages::client::{
    ClientMessage, ConnectionRequestError, ConnectionRequestResponse, GetChannelListError,
    JoinServerError, JoinServerResponse, LoginError,
};
use crate::game::resources::login_tokens::{next_token, LoginTokenView, LoginTokens};
use crate::game::resources::server_list::{GameServer, ServerList, WorldServer};
use vstd::prelude::*;

verus! {

/// The packet sequence id that every connection is given.
pub const PACKET_SEQUENCE_ID: u32 = 123;

/// What the login stage does for a connection that has not logged in.
#[derive(Debug)]
pub enum LoginAuthentication {
    /// The answer to a connection request.
    ConnectionReply(Result<ConnectionRequestResponse, ConnectionRequestError>),
    /// The answer to a login request, and where the login succeeded the
    /// account to attach to the connection.
    LoginReply { reply: Result<(), LoginError>, account: Option<Account> },
    /// The request is none that a connection may make before it has
    /// logged in: the connection is to be dropped.
    ProtocolFault,
}

/// The answer to a login for which the account store gave the error.
pub open spec fn login_error(error: AccountStorageError) -> LoginError {
    match error {
        AccountStorageError::NotFound => LoginError::InvalidAccount,
        AccountStorageError::InvalidPassword => LoginError::InvalidPassword,
        AccountStorageError::IoError => LoginError::Failed,
    }
}

pub fn to_login_error(error: AccountStorageError) -> (answer: LoginError)
    ensures
        answer == login_error(error),
{
    match error {
        AccountStorageError::NotFound => LoginError::InvalidAccount,
        AccountStorageError::InvalidPassword => LoginError::InvalidPassword,
        AccountStorageError::IoError => LoginError::Failed,
    }
}

/// The answer to a login with the name and the password digest.
pub open spec fn login_reply(
    accounts: AccountRecords,
    username: Seq<char>,
    password_md5: Seq<char>,
) -> Result<(), LoginError> {
    match loaded_account(accounts, username, password_md5) {
        Ok(_) => Ok(()),
        Err(error) => Err(login_error(error)),
    }
}

/// Handles a request of a connection that has not logged in. A connection
/// request is always granted. A login is granted where the account store
/// hands out the account, which is then to be attached to the connection.
pub fn login_server_authentication(message: &ClientMessage, accounts: &AccountStore) -> (outcome:
    LoginAuthentication)
    ensures
        match *message {
            ClientMessage::ConnectionRequest(_) => outcome matches LoginAuthentication::ConnectionReply(
                reply,
            ) && reply == Ok::<ConnectionRequestResponse, ConnectionRequestError>(
                ConnectionRequestResponse { packet_sequence_id: PACKET_SEQUENCE_ID },
            ),
            ClientMessage::LoginRequest(request) => {
                &&& outcome matches LoginAuthentication::LoginReply { reply, account }
                &&& reply == login_reply(accounts@, request.username@, request.password_md5@)
                &&& account.is_some() == reply.is_ok()
                &&& account matches Some(attached) ==> attached@ == loaded_account(
                    accounts@,
                    request.username@,
                    request.password_md5@,
                ).unwrap() && attached@.name == request.username@
            },
            _ => outcome is ProtocolFault,
        },
{
    match message {
        ClientMessage::ConnectionRequest(_) => LoginAuthentication::ConnectionReply(
            Ok(ConnectionRequestResponse { packet_sequence_id: PACKET_SEQUENCE_ID }),
        ),
        ClientMessage::LoginRequest(request) => {
            match accounts.try_load(&request.username, &request.password_md5) {
                Ok(account) => LoginAuthentication::LoginReply {
                    reply: Ok(()),
                    account: Some(Account::from_storage(account)),
                },
                Err(error) => LoginAuthentication::LoginReply {
                    reply: Err(to_login_error(error)),
                    account: None,
                },
            }
        },
        _ => LoginAuthentication::ProtocolFault,
    }
}

/// What the login stage answers to a connection that has logged in.
#[derive(Debug)]
pub enum LoginServerReply {
    /// The worlds by id and name.
    WorldServerList(Vec<(u32, String)>),
    /// The channels of a world by id and name.
    ChannelList(Result<Vec<(u8, String)>, GetChannelListError>),
    /// Where to continue, with the token to present there.
    JoinServer(Result<JoinServerResponse, JoinServerError>),
    /// The request is none of the login tier; it is passed over.
    Unhandled,
}

/// The id that the wire has for a position in the list of worlds.
pub open spec fn world_server_id(index: int) -> u32 {
    (index % 0x1_0000_0000) as u32
}

/// The id that the wire has for a position in a list of channels.
pub open spec fn channel_id(index: int) -> u8 {
    (index % 0x100) as u8
}

/// Whether the list names the worlds in order, each by its id and name.
pub open spec fn lists_world_servers(list: Seq<(u32, String)>, servers: Seq<WorldServer>) -> bool {
    &&& list.len() == servers.len()
    &&& forall|i: int|
        0 <= i < list.len() ==> (#[trigger] list[i]).0 == world_server_id(i) && list[i].1@
            == servers[i].name@
}

/// Whether the list names the channels in order, each by its id and name.
pub open spec fn lists_channels(list: Seq<(u8, String)>, channels: Seq<GameServer>) -> bool {
    &&& list.len() == channels.len()
    &&& forall|i: int|
        0 <= i < list.len() ==> (#[trigger] list[i]).0 == channel_id(i) && list[i].1@
            == channels[i].name@
}

/// The worlds of the list by id and name.
pub fn get_world_server_list(server_list: &ServerList) -> (list: Vec<(u32, String)>)
    ensures
        lists_world_servers(list@, server_list.world_servers@),
{
    let mut servers: Vec<(u32, String)> = Vec::new();
    let mut id: usize = 0;
    while id < server_list.world_servers.len()
        invariant
            id <= server_list.world_servers.len(),
            servers@.len() == id,
            forall|i: int|
                0 <= i < id ==> (#[trigger] servers@[i]).0 == world_server_id(i) && servers@[i].1@
                    == server_list.world_servers@[i].name@,
        decreases server_list.world_servers.len() - id,
    {
        let wire_id: u32 = ((id as u64) % 0x1_0000_0000) as u32;
        servers.push((wire_id, server_list.world_servers[id].name.clone()));
        id += 1;
    }
    servers
}

/// The channels of the world with the id, by id and name.
pub fn get_channel_list(server_list: &ServerList, server_id: u32) -> (reply: Result<
    Vec<(u8, String)>,
    GetChannelListError,
>)
    ensures
        reply.is_ok() == (server_id < server_list.world_servers@.len()),
        reply matches Ok(list) ==> lists_channels(
            list@,
            server_list.world_servers@[server_id as int].channels@,
        ),
{
    if server_id as usize >= server_list.world_servers.len() {
        return Err(GetChannelListError::InvalidServerId);
    }
    let world_server = &server_list.world_servers[server_id as usize];
    let mut channels: Vec<(u8, String)> = Vec::new();
    let mut id: usize = 0;
    while id < world_server.channels.len()
        invariant
            id <= world_server.channels.len(),
            channels@.len() == id,
            forall|i: int|
                0 <= i < id ==> (#[trigger] channels@[i]).0 == channel_id(i) && channels@[i].1@
                    == world_server.channels@[i].name@,
        decreases world_server.channels.len() - id,
    {
        let wire_id: u8 = (id % 0x100) as u8;
        channels.push((wire_id, world_server.channels[id].name.clone()));
        id += 1;
    }
    Ok(channels)
}

/// Whether a world and one of its channels have the ids, and if not,
/// which id is wrong.
pub open spec fn join_server_check(servers: Seq<WorldServer>, server_id: u32, channel_id: u8)
    -> Result<(), JoinServerError> {
    if server_id >= servers.len() {
        Err(JoinServerError::InvalidServerId)
    } else if channel_id >= servers[server_id as int].channels@.len() {
        Err(JoinServerError::InvalidChannelId)
    } else {
        Ok(())
    }
}

/// Lets the account join a channel of a world. Where both ids are valid,
/// a new token is put in use for the account and the two servers, the
/// connection remembers it, and the answer tells how to reach the world
/// server. Where an id is wrong nothing changes.
pub fn join_server(
    account: &Account,
    client: &mut LoginClient,
    server_list: &ServerList,
    login_tokens: &mut LoginTokens,
    server_id: u32,
    channel_id: u8,
    token_seed: u32,
) -> (reply: Result<JoinServerResponse, JoinServerError>)
    requires
        old(login_tokens)@.len() + 2 <= 0x1_0000_0000,
    ensures
        reply.is_ok() == join_server_check(server_list.world_servers@, server_id, channel_id).is_ok(),
        reply matches Err(error) ==> join_server_check(
            server_list.world_servers@,
            server_id,
            channel_id,
        ) == Err::<(), JoinServerError>(error) && final(login_tokens)@ == old(login_tokens)@
            && *final(client) == *old(client),
        reply matches Ok(response) ==> {
            let world_server = server_list.world_servers@[server_id as int];
            let game_server = world_server.channels@[channel_id as int];
            &&& response.login_token == next_token(old(login_tokens)@, token_seed)
            &&& response.packet_codec_seed == world_server.packet_codec_seed
            &&& response.ip@ == world_server.ip@
            &&& response.port == world_server.port
            &&& final(client).login_token == response.login_token
            &&& final(login_tokens)@ == old(login_tokens)@.push(
                LoginTokenView {
                    token: response.login_token,
                    username: account.name@,
                    selected_world_server: world_server.entity,
                    selected_game_server: game_server.entity,
                    selected_character: None,
                },
            )
        },
{
    if server_id as usize >= server_list.world_servers.len() {
        return Err(JoinServerError::InvalidServerId);
    }
    let world_server = &server_list.world_servers[server_id as usize];
    if channel_id as usize >= world_server.channels.len() {
        return Err(JoinServerError::InvalidChannelId);
    }
    let game_server = &world_server.channels[channel_id as usize];
    let token = login_tokens.generate(
        token_seed,
        account.name.clone(),
        world_server.entity,
        game_server.entity,
    );
    client.login_token = token;
    Ok(
        JoinServerResponse {
            login_token: token,
            packet_codec_seed: world_server.packet_codec_seed,
            ip: world_server.ip.clone(),
            port: world_server.port,
        },
    )
}

/// Handles a request of a connection that has logged in to `account`.
/// `token_seed` is a number that others cannot predict; the token of a
/// join is made from it. Only a join needs room for one more token.
pub fn login_server(
    account: &Account,
    client: &mut LoginClient,
    server_list: &ServerList,
    login_tokens: &mut LoginTokens,
    message: &ClientMessage,
    token_seed: u32,
) -> (reply: LoginServerReply)
    requires
        *message is JoinServer ==> old(login_tokens)@.len() + 2 <= 0x1_0000_0000,
    ensures
        !(*message is JoinServer) ==> final(login_tokens)@ == old(login_tokens)@ && *final(client)
            == *old(client),
        match *message {
            ClientMessage::GetWorldServerList => reply matches LoginServerReply::WorldServerList(
                list,
            ) && lists_world_servers(list@, server_list.world_servers@),
            ClientMessage::GetChannelList(request) => {
                &&& reply matches LoginServerReply::ChannelList(channels)
                &&& channels.is_ok() == (request.server_id < server_list.world_servers@.len())
                &&& channels matches Ok(list) ==> lists_channels(
                    list@,
                    server_list.world_servers@[request.server_id as int].channels@,
                )
            },
            ClientMessage::JoinServer(request) => {
                &&& reply matches LoginServerReply::JoinServer(joined)
                &&& joined.is_ok() == join_server_check(
                    server_list.world_servers@,
                    request.server_id,
                    request.channel_id,
                ).is_ok()
                &&& joined matches Err(error) ==> join_server_check(
                    server_list.world_servers@,
                    request.server_id,
                    request.channel_id,
                ) == Err::<(), JoinServerError>(error) && final(login_tokens)@ == old(
                    login_tokens,
                )@ && *final(client) == *old(client)
                &&& joined matches Ok(response) ==> {
                    let world_server = server_list.world_servers@[request.server_id as int];
                    let game_server = world_server.channels@[request.channel_id as int];
                    &&& response.login_token == next_token(old(login_tokens)@, token_seed)
                    &&& response.packet_codec_seed == world_server.packet_codec_seed
                    &&& response.ip@ == world_server.ip@
                    &&& response.port == world_server.port
                    &&& final(client).login_token == response.login_token
                    &&& final(login_tokens)@ == old(login_tokens)@.push(
                        LoginTokenView {
                            token: response.login_token,
                            username: account.name@,
                            selected_world_server: world_server.entity,
                            selected_game_server: game_server.entity,
                            selected_character: None,
                        },
                    )
                }
            },
            _ => reply is Unhandled,
        },
{
    match message {
        ClientMessage::GetWorldServerList => LoginServerReply::WorldServerList(
            get_world_server_list(server_list),
        ),
        ClientMessage::GetChannelList(request) => LoginServerReply::ChannelList(
            get_channel_list(server_list, request.server_id),
        ),
        ClientMessage::JoinServer(request) => LoginServerReply::JoinServer(
            join_server(
                account,
                client,
                server_list,
                login_tokens,
                request.server_id,
                request.channel_id,
                token_seed,
            ),
        ),
        _ => LoginServerReply::Unhandled,
    }
}

} // verus!
