//! The world tier: presenting the login token, then listing, creating,
//! deleting and selecting the characters of the account.

use crate::data::account::{
    loaded_account, names_view, AccountRecord, AccountRecords, AccountStorageError, AccountStore,
};
use crate::data::character::{
    created_view, loaded_character, CharacterCreatorError, CharacterRecord, CharacterRecords,
    CharacterStorage, CharacterStore,
};
use crate::data::character_creator::CharacterCreator;
use crate::data::duration::Duration;
use crate::game::components::account::{Account, CharacterList};
use crate::game::components::character_delete_time::CharacterDeleteTime;
use crate::game::components::clients::{ServerInfo, ServerInfoView, WorldClient};
use crate::game::messages::client::{
    list_item, CharacterListItem, CharacterListItemView, ClientMessage, ConnectionRequestError,
    ConnectionRequestResponse, CreateCharacter, CreateCharacterError, DeleteCharacter,
    DeleteCharacterError, JoinServerResponse, JoinServerResponseView, SelectCharacter,
    SelectCharacterError,
};
use crate::game::resources::game_data::GameData;
use crate::game::resources::login_tokens::{
    has_token, token_position, LoginTokenView, LoginTokens,
};
use crate::game::systems::login_server::PACKET_SEQUENCE_ID;
use vstd::prelude::*;

verus! {

/// Whether the character was marked for deletion and its grace period is
/// over at the time `now`.
pub open spec fn is_expired(character: CharacterRecord, now: Duration) -> bool {
    character.delete_time matches Some(mark) && mark.nanos_until_delete(now) == 0
}

/// What is left once the characters of an account were loaded: the names
/// and the records of those that were kept, in slot order, and the
/// character store without those that were deleted.
pub struct Pruned {
    pub names: Seq<Seq<char>>,
    pub characters: Seq<CharacterRecord>,
    pub store: CharacterRecords,
}

/// Loads the characters with the names, in order. A character whose grace
/// period is over is deleted from the store and dropped from the names. A
/// name under which nothing can be loaded is dropped too. Every other
/// character is kept.
pub open spec fn prune(names: Seq<Seq<char>>, store: CharacterRecords, now: Duration) -> Pruned
    decreases names.len(),
{
    if names.len() == 0 {
        Pruned { names: Seq::empty(), characters: Seq::empty(), store }
    } else {
        let before = prune(names.drop_last(), store, now);
        match loaded_character(before.store, names.last()) {
            Err(_) => before,
            Ok(character) => if is_expired(character, now) {
                Pruned {
                    names: before.names,
                    characters: before.characters,
                    store: before.store.remove(names.last()),
                }
            } else {
                Pruned {
                    names: before.names.push(names.last()),
                    characters: before.characters.push(character),
                    store: before.store,
                }
            },
        }
    }
}

/// The answer to a connection request for which the account store gave
/// the error.
pub open spec fn connection_error(error: AccountStorageError) -> ConnectionRequestError {
    match error {
        AccountStorageError::InvalidPassword => ConnectionRequestError::InvalidPassword,
        _ => ConnectionRequestError::Failed,
    }
}

pub fn to_connection_error(error: AccountStorageError) -> (answer: ConnectionRequestError)
    ensures
        answer == connection_error(error),
{
    match error {
        AccountStorageError::InvalidPassword => ConnectionRequestError::InvalidPassword,
        _ => ConnectionRequestError::Failed,
    }
}

/// The outcome of presenting a login token to the world tier.
pub struct WorldAuthenticationModel {
    pub reply: Result<ConnectionRequestResponse, ConnectionRequestError>,
    /// The account to attach to the connection, where the token was
    /// accepted.
    pub account: Option<AccountRecord>,
    /// The characters to attach to the connection.
    pub character_list: Seq<CharacterRecord>,
    pub client: WorldClient,
    pub accounts: AccountRecords,
    pub characters: CharacterRecords,
}

/// Presents the token with the password digest. The token must be in use
/// and the account store must hand out the account of its user for the
/// digest; otherwise the request is refused and nothing changes. The
/// characters of the account are then loaded and pruned, the account is
/// saved with the names that were kept, and the connection remembers the
/// token and the game server that was chosen with it.
pub open spec fn world_authentication(
    client: WorldClient,
    tokens: Seq<LoginTokenView>,
    accounts: AccountRecords,
    characters: CharacterRecords,
    login_token: u32,
    password_md5: Seq<char>,
    now: Duration,
) -> WorldAuthenticationModel {
    let refused = |error: ConnectionRequestError|
        WorldAuthenticationModel {
            reply: Err(error),
            account: None,
            character_list: Seq::empty(),
            client,
            accounts,
            characters,
        };
    if !has_token(tokens, login_token) {
        refused(ConnectionRequestError::InvalidToken)
    } else {
        let token = tokens[token_position(tokens, login_token)];
        match loaded_account(accounts, token.username, password_md5) {
            Err(error) => refused(connection_error(error)),
            Ok(record) => {
                let pruned = prune(record.character_names, characters, now);
                let account = AccountRecord {
                    name: record.name,
                    password_md5: record.password_md5,
                    character_names: pruned.names,
                };
                WorldAuthenticationModel {
                    reply: Ok(ConnectionRequestResponse { packet_sequence_id: PACKET_SEQUENCE_ID }),
                    account: Some(account),
                    character_list: pruned.characters,
                    client: WorldClient {
                        login_token: token.token,
                        selected_game_server: Some(token.selected_game_server),
                    },
                    accounts: accounts.insert(account.name, Some(account)),
                    characters: pruned.store,
                }
            },
        }
    }
}

/// What the world stage does for a connection that has not presented its
/// token yet.
#[derive(Debug)]
pub enum WorldAuthentication {
    /// The answer to a connection request, and where the token was
    /// accepted the account and the characters to attach to the
    /// connection.
    ConnectionReply {
        reply: Result<ConnectionRequestResponse, ConnectionRequestError>,
        account: Option<Account>,
        character_list: Option<CharacterList>,
    },
    /// The request is none that a connection may make before it has
    /// presented its token: the connection is to be dropped.
    ProtocolFault,
}

/// Loads the characters with the names from the store and prunes them.
pub fn load_character_list(names: &Vec<String>, characters: &mut CharacterStore, now: &Duration) -> (kept:
    (Vec<String>, CharacterList))
    ensures
        ({
            let pruned = prune(names_view(names@), old(characters)@, *now);
            &&& names_view(kept.0@) == pruned.names
            &&& kept.1@ == pruned.characters
            &&& final(characters)@ == pruned.store
        }),
{
    let mut kept_names: Vec<String> = Vec::new();
    let mut list = CharacterList::new();
    let ghost all = names_view(names@);
    let ghost start = characters@;
    let mut i: usize = 0;
    assert(all.take(0) =~= Seq::<Seq<char>>::empty());
    assert(names_view(kept_names@) =~= Seq::<Seq<char>>::empty());
    while i < names.len()
        invariant
            i <= names.len(),
            all == names_view(names@),
            names_view(kept_names@) == prune(all.take(i as int), start, *now).names,
            list@ == prune(all.take(i as int), start, *now).characters,
            characters@ == prune(all.take(i as int), start, *now).store,
        decreases names.len() - i,
    {
        let name = &names[i];
        proof {
            assert(all.take(i + 1).drop_last() =~= all.take(i as int));
            assert(all.take(i + 1).last() == name@);
        }
        let ghost before = prune(all.take(i as int), start, *now);
        match characters.try_load(name) {
            Err(_) => {},
            Ok(character) => {
                let expired = match &character.delete_time {
                    Some(mark) => mark.is_expired(now),
                    None => false,
                };
                if expired {
                    let _ = characters.delete(&character.info.name);
                } else {
                    kept_names.push(name.clone());
                    list.characters.push(character);
                    assert(names_view(kept_names@) =~= before.names.push(name@));
                    assert(list@ =~= before.characters.push(character@));
                }
            },
        }
        i += 1;
    }
    assert(all.take(names.len() as int) =~= all);
    (kept_names, list)
}

/// Handles a request of a connection that has not presented its token
/// yet. `now` is the time since the epoch.
pub fn world_server_authentication_system(
    world_client: &mut WorldClient,
    login_tokens: &LoginTokens,
    accounts: &mut AccountStore,
    characters: &mut CharacterStore,
    message: &ClientMessage,
    now: &Duration,
) -> (outcome: WorldAuthentication)
    ensures
        match *message {
            ClientMessage::ConnectionRequest(request) => {
                let model = world_authentication(
                    *old(world_client),
                    login_tokens@,
                    old(accounts)@,
                    old(characters)@,
                    request.login_token,
                    request.password_md5@,
                    *now,
                );
                &&& outcome matches WorldAuthentication::ConnectionReply {
                    reply,
                    account,
                    character_list,
                }
                &&& reply == model.reply
                &&& account.is_some() == model.account.is_some()
                &&& account matches Some(attached) ==> attached@ == model.account.unwrap()
                &&& character_list.is_some() == model.account.is_some()
                &&& character_list matches Some(list) ==> list@ == model.character_list
                &&& *final(world_client) == model.client
                &&& final(accounts)@ == model.accounts
                &&& final(characters)@ == model.characters
            },
            _ => {
                &&& outcome is ProtocolFault
                &&& *final(world_client) == *old(world_client)
                &&& final(accounts)@ == old(accounts)@
                &&& final(characters)@ == old(characters)@
            },
        },
{
    let request = match message {
        ClientMessage::ConnectionRequest(request) => request,
        _ => {
            return WorldAuthentication::ProtocolFault;
        },
    };
    let token = match login_tokens.find(request.login_token) {
        Some(token) => token,
        None => {
            return WorldAuthentication::ConnectionReply {
                reply: Err(ConnectionRequestError::InvalidToken),
                account: None,
                character_list: None,
            };
        },
    };
    let mut account = match accounts.try_load(&token.username, &request.password_md5) {
        Ok(account) => account,
        Err(error) => {
            return WorldAuthentication::ConnectionReply {
                reply: Err(to_connection_error(error)),
                account: None,
                character_list: None,
            };
        },
    };
    let (kept_names, character_list) = load_character_list(
        &account.character_names,
        characters,
        now,
    );
    account.character_names = kept_names;
    accounts.save(&account);
    world_client.login_token = token.token;
    world_client.selected_game_server = Some(token.selected_game_server);
    WorldAuthentication::ConnectionReply {
        reply: Ok(ConnectionRequestResponse { packet_sequence_id: PACKET_SEQUENCE_ID }),
        account: Some(Account::from_storage(account)),
        character_list: Some(character_list),
    }
}

/// The most characters that an account can have.
pub const MAX_CHARACTERS: usize = 5;

/// The shortest name that a character can have, in bytes.
pub const MIN_NAME_LENGTH: usize = 4;

/// The longest name that a character can have, in bytes.
pub const MAX_NAME_LENGTH: usize = 20;

/// The length of a name in bytes.
pub open spec fn name_length(name: Seq<char>) -> nat {
    vstd::utf8::encode_utf8(name).len()
}

/// The account and the characters that are attached to a world
/// connection, and the two stores.
pub struct Roster {
    pub account: AccountRecord,
    pub character_list: Seq<CharacterRecord>,
    pub accounts: AccountRecords,
    pub characters: CharacterRecords,
}

/// What a world connection works on: its roster and the login tokens.
pub struct WorldState {
    pub roster: Roster,
    pub tokens: Seq<LoginTokenView>,
}

/// What the world stage answers to a connection that has presented its
/// token.
#[derive(Debug)]
pub enum WorldServerReply {
    /// The characters of the account in slot order.
    CharacterList(Vec<CharacterListItem>),
    /// The slot of the character that was created.
    CreateCharacter(Result<u8, CreateCharacterError>),
    /// The mark for deletion that the character has now, if any.
    DeleteCharacter(Result<Option<CharacterDeleteTime>, DeleteCharacterError>),
    /// Where to continue with the character that was selected.
    SelectCharacter(Result<JoinServerResponse, SelectCharacterError>),
    /// The request is none of the world tier; it is passed over.
    Unhandled,
}

/// The lines of the character selection for the characters.
pub open spec fn list_items(characters: Seq<CharacterRecord>) -> Seq<CharacterListItemView> {
    Seq::new(characters.len(), |i: int| list_item(characters[i]))
}

/// The lines as mathematical values, in the same order.
pub open spec fn items_view(items: Seq<CharacterListItem>) -> Seq<CharacterListItemView> {
    Seq::new(items.len(), |i: int| items[i]@)
}

/// The lines of the character selection for the characters of the
/// connection, in slot order.
pub fn get_character_list(character_list: &CharacterList) -> (items: Vec<CharacterListItem>)
    ensures
        items_view(items@) == list_items(character_list@),
{
    let mut items: Vec<CharacterListItem> = Vec::new();
    let mut i: usize = 0;
    while i < character_list.characters.len()
        invariant
            i <= character_list.characters.len(),
            items@.len() == i,
            forall|k: int|
                0 <= k < i ==> (#[trigger] items@[k])@ == list_item(character_list.characters@[k]@),
        decreases character_list.characters.len() - i,
    {
        items.push(CharacterListItem::from_character(&character_list.characters[i]));
        i += 1;
    }
    assert(items_view(items@) =~= list_items(character_list@));
    items
}

/// Whether the account can get a character with the name, and if not,
/// why: it has no slot left, the name is too short or too long, or the
/// name is taken.
pub open spec fn create_character_check(
    account: AccountRecord,
    characters: CharacterRecords,
    name: Seq<char>,
) -> Result<(), CreateCharacterError> {
    if account.character_names.len() >= MAX_CHARACTERS {
        Err(CreateCharacterError::NoMoreSlots)
    } else if name_length(name) < MIN_NAME_LENGTH || name_length(name) > MAX_NAME_LENGTH {
        Err(CreateCharacterError::InvalidValue)
    } else if characters.contains_key(name) {
        Err(CreateCharacterError::AlreadyExists)
    } else {
        Ok(())
    }
}

/// The outcome of creating a character with the name, where `created` is
/// what the character creator made of the request. Nothing changes unless
/// the check passes, the creator made a character and the name of that
/// character is free. The character is then kept in the store and becomes
/// the last character of the account, which is saved.
pub open spec fn created_character(
    roster: Roster,
    name: Seq<char>,
    created: Result<CharacterRecord, CharacterCreatorError>,
) -> (Roster, Result<u8, CreateCharacterError>) {
    match create_character_check(roster.account, roster.characters, name) {
        Err(error) => (roster, Err(error)),
        Ok(_) => match created {
            Err(_) => (roster, Err(CreateCharacterError::InvalidValue)),
            Ok(character) => if roster.characters.contains_key(character.name) {
                (roster, Err(CreateCharacterError::Failed))
            } else {
                let account = AccountRecord {
                    name: roster.account.name,
                    password_md5: roster.account.password_md5,
                    character_names: roster.account.character_names.push(character.name),
                };
                (
                    Roster {
                        account,
                        character_list: roster.character_list.push(character),
                        accounts: roster.accounts.insert(account.name, Some(account)),
                        characters: roster.characters.insert(character.name, Some(character)),
                    },
                    Ok(roster.account.character_names.len() as u8),
                )
            },
        },
    }
}

/// Checks whether the account can get a character with the name.
pub fn check_create_character(account: &Account, characters: &CharacterStore, name: &String) -> (checked:
    Result<(), CreateCharacterError>)
    ensures
        checked == create_character_check(account@, characters@, name@),
{
    if account.character_names.len() >= MAX_CHARACTERS {
        Err(CreateCharacterError::NoMoreSlots)
    } else if name.len() < MIN_NAME_LENGTH || name.len() > MAX_NAME_LENGTH {
        Err(CreateCharacterError::InvalidValue)
    } else if characters.contains(name) {
        Err(CreateCharacterError::AlreadyExists)
    } else {
        Ok(())
    }
}

/// Keeps the character that the creator made in the store. A refusal of
/// the creator is an invalid value; a character whose name is taken
/// fails.
pub fn create_character(
    created: Result<CharacterStorage, CharacterCreatorError>,
    characters: &mut CharacterStore,
) -> (kept: Result<CharacterStorage, CreateCharacterError>)
    ensures
        match created {
            Err(_) => kept == Err::<CharacterStorage, CreateCharacterError>(
                CreateCharacterError::InvalidValue,
            ) && final(characters)@ == old(characters)@,
            Ok(character) => if old(characters)@.contains_key(character@.name) {
                kept == Err::<CharacterStorage, CreateCharacterError>(CreateCharacterError::Failed)
                    && final(characters)@ == old(characters)@
            } else {
                kept == Ok::<CharacterStorage, CreateCharacterError>(character) && final(characters)@ == old(characters)@.insert(character@.name, Some(character@))
            },
        },
{
    match created {
        Err(_) => Err(CreateCharacterError::InvalidValue),
        Ok(character) => match characters.try_create(&character) {
            Err(_) => Err(CreateCharacterError::Failed),
            Ok(_) => Ok(character),
        },
    }
}

/// Creates a character for the account from what the character creator
/// made of the request.
pub fn create_character_from(
    account: &mut Account,
    character_list: &mut CharacterList,
    accounts: &mut AccountStore,
    characters: &mut CharacterStore,
    name: &String,
    created: Result<CharacterStorage, CharacterCreatorError>,
) -> (reply: Result<u8, CreateCharacterError>)
    ensures
        ({
            let outcome = created_character(
                Roster {
                    account: old(account)@,
                    character_list: old(character_list)@,
                    accounts: old(accounts)@,
                    characters: old(characters)@,
                },
                name@,
                created_view(created),
            );
            &&& reply == outcome.1
            &&& final(account)@ == outcome.0.account
            &&& final(character_list)@ == outcome.0.character_list
            &&& final(accounts)@ == outcome.0.accounts
            &&& final(characters)@ == outcome.0.characters
        }),
{
    match check_create_character(account, characters, name) {
        Err(error) => {
            return Err(error);
        },
        Ok(_) => {},
    }
    match create_character(created, characters) {
        Err(error) => Err(error),
        Ok(character) => {
            let slot: usize = account.character_names.len();
            account.character_names.push(character.info.name.clone());
            assert(names_view(account.character_names@) =~= names_view(
                old(account).character_names@,
            ).push(character@.name));
            accounts.save(&account.to_storage());
            character_list.characters.push(character);
            assert(character_list@ =~= old(character_list)@.push(character@));
            Ok(slot as u8)
        },
    }
}

/// Whether the slot holds a character with the name.
pub open spec fn is_slot_of(characters: Seq<CharacterRecord>, slot: u8, name: Seq<char>) -> bool {
    slot < characters.len() && characters[slot as int].name == name
}

/// The mark for deletion that a character gets: a new mark at the time
/// `now` where it is to be deleted and has none, the mark it has where it
/// has one, and none where it is not to be deleted.
pub open spec fn delete_mark(
    current: Option<CharacterDeleteTime>,
    is_delete: bool,
    now: Duration,
) -> Option<CharacterDeleteTime> {
    if !is_delete {
        None
    } else if current.is_none() {
        Some(CharacterDeleteTime { start_time: now })
    } else {
        current
    }
}

/// The outcome of marking a character for deletion, or of taking the mark
/// back.
pub struct Deleted {
    pub character_list: Seq<CharacterRecord>,
    pub characters: CharacterRecords,
    pub reply: Result<Option<CharacterDeleteTime>, DeleteCharacterError>,
}

/// The outcome of marking the character in the slot for deletion, or of
/// taking the mark back. The slot must hold a character with the name;
/// otherwise the request fails and nothing changes. The character is
/// saved with its new mark.
pub open spec fn deleted_character(
    character_list: Seq<CharacterRecord>,
    characters: CharacterRecords,
    slot: u8,
    name: Seq<char>,
    is_delete: bool,
    now: Duration,
) -> Deleted {
    if !is_slot_of(character_list, slot, name) {
        Deleted { character_list, characters, reply: Err(DeleteCharacterError::Failed) }
    } else {
        let character = character_list[slot as int];
        let mark = delete_mark(character.delete_time, is_delete, now);
        let changed = CharacterRecord { delete_time: mark, ..character };
        Deleted {
            character_list: character_list.update(slot as int, changed),
            characters: characters.insert(name, Some(changed)),
            reply: Ok(mark),
        }
    }
}

/// Marks the character in the slot for deletion at the time `now`, or
/// takes the mark back.
pub fn delete_character(
    character_list: &mut CharacterList,
    characters: &mut CharacterStore,
    request: &DeleteCharacter,
    now: &Duration,
) -> (reply: Result<Option<CharacterDeleteTime>, DeleteCharacterError>)
    ensures
        ({
            let outcome = deleted_character(
                old(character_list)@,
                old(characters)@,
                request.slot,
                request.name@,
                request.is_delete,
                *now,
            );
            &&& reply == outcome.reply
            &&& final(character_list)@ == outcome.character_list
            &&& final(characters)@ == outcome.characters
        }),
{
    let slot: usize = request.slot as usize;
    if slot >= character_list.characters.len() {
        return Err(DeleteCharacterError::Failed);
    }
    if character_list.characters[slot].info.name != request.name {
        return Err(DeleteCharacterError::Failed);
    }
    let mut character = character_list.characters[slot].clone();
    if request.is_delete {
        if character.delete_time.is_none() {
            character.delete_time = Some(CharacterDeleteTime::new(*now));
        }
    } else {
        character.delete_time = None;
    }
    characters.save(&character);
    let mark = character.delete_time;
    character_list.characters[slot] = character;
    assert(character_list@ =~= old(character_list)@.update(slot as int, character@));
    Ok(mark)
}

/// The tokens once the holder of the token with the number selected the
/// character. Nothing changes where no such token is in use.
pub open spec fn tokens_with_selection(
    tokens: Seq<LoginTokenView>,
    token: u32,
    name: Seq<char>,
) -> Seq<LoginTokenView> {
    if has_token(tokens, token) {
        tokens.update(
            token_position(tokens, token),
            LoginTokenView {
                selected_character: Some(name),
                ..tokens[token_position(tokens, token)]
            },
        )
    } else {
        tokens
    }
}

/// The outcome of selecting the character in the slot: the tokens
/// afterwards and the answer. The slot must hold a character with the
/// name; otherwise the request fails and nothing changes. The selection is
/// noted on the token of the connection. The answer tells how to reach the
/// game server that was chosen at login, and fails where the connection
/// has none or `server_info`, what the entity store holds for it, is
/// absent.
pub open spec fn selected_character(
    character_list: Seq<CharacterRecord>,
    tokens: Seq<LoginTokenView>,
    client: WorldClient,
    server_info: Option<ServerInfoView>,
    slot: u8,
    name: Seq<char>,
) -> (Seq<LoginTokenView>, Result<JoinServerResponseView, SelectCharacterError>) {
    if !is_slot_of(character_list, slot, name) {
        (tokens, Err(SelectCharacterError::Failed))
    } else {
        (
            tokens_with_selection(tokens, client.login_token, name),
            match (client.selected_game_server, server_info) {
                (Some(_), Some(info)) => Ok(
                    JoinServerResponseView {
                        login_token: client.login_token,
                        packet_codec_seed: info.packet_codec_seed,
                        ip: info.ip,
                        port: info.port,
                    },
                ),
                _ => Err(SelectCharacterError::Failed),
            },
        )
    }
}

/// What the entity store holds for the game server, as a mathematical
/// value.
pub open spec fn server_info_view(server_info: Option<&ServerInfo>) -> Option<ServerInfoView> {
    match server_info {
        Some(info) => Some(info@),
        None => None,
    }
}

/// The answer to a selection, as a mathematical value.
pub open spec fn selection_view(reply: Result<JoinServerResponse, SelectCharacterError>) -> Result<
    JoinServerResponseView,
    SelectCharacterError,
> {
    match reply {
        Ok(response) => Ok(response@),
        Err(error) => Err(error),
    }
}

/// Selects the character in the slot for the game tier.
pub fn select_character(
    world_client: &WorldClient,
    character_list: &CharacterList,
    server_info: Option<&ServerInfo>,
    login_tokens: &mut LoginTokens,
    request: &SelectCharacter,
) -> (reply: Result<JoinServerResponse, SelectCharacterError>)
    ensures
        ({
            let outcome = selected_character(
                character_list@,
                old(login_tokens)@,
                *world_client,
                server_info_view(server_info),
                request.slot,
                request.name@,
            );
            &&& selection_view(reply) == outcome.1
            &&& final(login_tokens)@ == outcome.0
        }),
{
    let slot: usize = request.slot as usize;
    if slot >= character_list.characters.len() {
        return Err(SelectCharacterError::Failed);
    }
    let selected = &character_list.characters[slot];
    if selected.info.name != request.name {
        return Err(SelectCharacterError::Failed);
    }
    let _ = login_tokens.select_character(world_client.login_token, selected.info.name.clone());
    match (world_client.selected_game_server, server_info) {
        (Some(_), Some(info)) => Ok(
            JoinServerResponse {
                login_token: world_client.login_token,
                packet_codec_seed: info.packet_codec_seed,
                ip: info.ip.clone(),
                port: info.port,
            },
        ),
        _ => Err(SelectCharacterError::Failed),
    }
}

/// Whether the state after and the answer are what the world stage makes
/// of the request in the state before. Listing changes nothing. A request
/// to create a character that fails the check is answered with the error
/// of the check and changes nothing. One that passes it is handed to the
/// character creator with its name and its looks as they are, and the
/// roster changes as `created_character` says for what the creator made.
/// Deleting changes the characters of the connection and the character
/// store, selecting the tokens. Any other request is passed over and
/// changes nothing.
pub open spec fn world_server_outcome<C: CharacterCreator>(
    creator: C,
    before: WorldState,
    after: WorldState,
    client: WorldClient,
    server_info: Option<ServerInfoView>,
    message: ClientMessage,
    now: Duration,
    reply: WorldServerReply,
) -> bool {
    match message {
        ClientMessage::GetCharacterList => {
            &&& reply matches WorldServerReply::CharacterList(items)
            &&& items_view(items@) == list_items(before.roster.character_list)
            &&& after == before
        },
        ClientMessage::CreateCharacter(request) => {
            &&& reply matches WorldServerReply::CreateCharacter(created)
            &&& after.tokens == before.tokens
            &&& match create_character_check(
                before.roster.account,
                before.roster.characters,
                request.name@,
            ) {
                Err(error) => created == Err::<u8, CreateCharacterError>(error) && after.roster
                    == before.roster,
                Ok(_) => exists|made: Result<CharacterRecord, CharacterCreatorError>|
                    #![trigger created_character(before.roster, request.name@, made)]
                    creator.makes(
                        request.name@,
                        request.gender,
                        request.birth_stone,
                        request.face,
                        request.hair,
                        made,
                    ) && created_character(before.roster, request.name@, made) == (
                        after.roster,
                        created,
                    ),
            }
        },
        ClientMessage::DeleteCharacter(request) => {
            let outcome = deleted_character(
                before.roster.character_list,
                before.roster.characters,
                request.slot,
                request.name@,
                request.is_delete,
                now,
            );
            &&& reply matches WorldServerReply::DeleteCharacter(deleted)
            &&& deleted == outcome.reply
            &&& after == (WorldState {
                roster: Roster {
                    account: before.roster.account,
                    character_list: outcome.character_list,
                    accounts: before.roster.accounts,
                    characters: outcome.characters,
                },
                tokens: before.tokens,
            })
        },
        ClientMessage::SelectCharacter(request) => {
            let outcome = selected_character(
                before.roster.character_list,
                before.tokens,
                client,
                server_info,
                request.slot,
                request.name@,
            );
            &&& reply matches WorldServerReply::SelectCharacter(selected)
            &&& selection_view(selected) == outcome.1
            &&& after == (WorldState { roster: before.roster, tokens: outcome.0 })
        },
        _ => reply is Unhandled && after == before,
    }
}

/// Handles a request of a connection that has presented its token.
/// `server_info` is what the entity store holds for the game server that
/// the connection chose at login, and `now` is the time since the epoch.
/// A character is created from what the character creator of the game
/// data makes of the name and the looks of the request; the creator is
/// asked only where the account can get a character with the name.
pub fn world_server_system<C: CharacterCreator>(
    world_client: &WorldClient,
    account: &mut Account,
    character_list: &mut CharacterList,
    server_info: Option<&ServerInfo>,
    login_tokens: &mut LoginTokens,
    game_data: &GameData<C>,
    accounts: &mut AccountStore,
    characters: &mut CharacterStore,
    message: &ClientMessage,
    now: &Duration,
) -> (reply: WorldServerReply)
    ensures
        world_server_outcome(
            game_data.character_creator,
            WorldState {
                roster: Roster {
                    account: old(account)@,
                    character_list: old(character_list)@,
                    accounts: old(accounts)@,
                    characters: old(characters)@,
                },
                tokens: old(login_tokens)@,
            },
            WorldState {
                roster: Roster {
                    account: final(account)@,
                    character_list: final(character_list)@,
                    accounts: final(accounts)@,
                    characters: final(characters)@,
                },
                tokens: final(login_tokens)@,
            },
            *world_client,
            server_info_view(server_info),
            *message,
            *now,
            reply,
        ),
{
    let ghost before = Roster {
        account: account@,
        character_list: character_list@,
        accounts: accounts@,
        characters: characters@,
    };
    match message {
        ClientMessage::GetCharacterList => WorldServerReply::CharacterList(
            get_character_list(character_list),
        ),
        ClientMessage::CreateCharacter(request) => {
            match check_create_character(account, characters, &request.name) {
                Err(error) => WorldServerReply::CreateCharacter(Err(error)),
                Ok(_) => {
                    let created = game_data.character_creator.create(
                        request.name.clone(),
                        request.gender,
                        request.birth_stone,
                        request.face,
                        request.hair,
                    );
                    let ghost made = created_view(created);
                    let reply = create_character_from(
                        account,
                        character_list,
                        accounts,
                        characters,
                        &request.name,
                        created,
                    );
                    proof {
                        let after = Roster {
                            account: account@,
                            character_list: character_list@,
                            accounts: accounts@,
                            characters: characters@,
                        };
                        assert(game_data.character_creator.makes(
                            request.name@,
                            request.gender,
                            request.birth_stone,
                            request.face,
                            request.hair,
                            made,
                        ));
                        assert(created_character(before, request.name@, made) == (after, reply));
                    }
                    WorldServerReply::CreateCharacter(reply)
                },
            }
        },
        ClientMessage::DeleteCharacter(request) => {
            let reply = delete_character(character_list, characters, request, now);
            WorldServerReply::DeleteCharacter(reply)
        },
        ClientMessage::SelectCharacter(request) => {
            let reply = select_character(
                world_client,
                character_list,
                server_info,
                login_tokens,
                request,
            );
            WorldServerReply::SelectCharacter(reply)
        },
        _ => WorldServerReply::Unhandled,
    }
}

} // verus!
