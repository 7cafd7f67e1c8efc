//! What holds of the world tier whatever its connections ask for.

use crate::data::account::{loaded_account, AccountRecords};
use crate::data::character::{
    loaded_character, CharacterCreatorError, CharacterRecord, CharacterRecords,
};
use crate::data::duration::Duration;
use crate::game::components::character_delete_time::CharacterDeleteTime;
use crate::game::components::clients::WorldClient;
use crate::game::messages::client::CreateCharacterError;
use crate::game::resources::login_tokens::LoginTokenView;
use crate::game::systems::world_server::{
    created_character, delete_mark, deleted_character, is_expired, is_slot_of, prune,
    world_authentication, Roster, MAX_CHARACTERS,
};
use vstd::prelude::*;

verus! {

/// Whether the account with the name can be read and lists the character.
pub open spec fn owns(accounts: AccountRecords, account: Seq<char>, character: Seq<char>) -> bool {
    &&& accounts.contains_key(account)
    &&& accounts[account] matches Some(record)
    &&& record.character_names.contains(character)
}

/// Every name of a character occurs once across all accounts: no account
/// lists a name twice, and no two accounts list the same name.
pub open spec fn names_unique(accounts: AccountRecords) -> bool {
    &&& forall|account: Seq<char>| #[trigger]
        accounts.contains_key(account) ==> (accounts[account] matches Some(record)
            ==> record.character_names.no_duplicates())
    &&& forall|first: Seq<char>, second: Seq<char>, character: Seq<char>|
        #[trigger] owns(accounts, first, character) && #[trigger] owns(accounts, second, character)
            ==> first == second
}

/// Every name that an account lists is taken in the character store.
pub open spec fn names_taken(accounts: AccountRecords, characters: CharacterRecords) -> bool {
    forall|account: Seq<char>, character: Seq<char>| #[trigger]
        owns(accounts, account, character) ==> characters.contains_key(character)
}

/// The account that is attached to a connection is the one that the store
/// keeps under its name.
pub open spec fn session_current(state: Roster) -> bool {
    state.accounts.contains_key(state.account.name) && state.accounts[state.account.name] == Some(
        state.account,
    )
}

/// What pruning keeps and what it deletes. The store loses exactly the
/// characters among the names whose grace period is over. The names that
/// are kept are among the names, are still in the store, and load a
/// character whose grace period is not over; that character stands at the
/// same position among the characters that are kept. Names that were
/// distinct are distinct afterwards.
pub proof fn lemma_prune(names: Seq<Seq<char>>, store: CharacterRecords, now: Duration)
    ensures
        ({
            let pruned = prune(names, store, now);
            &&& forall|name: Seq<char>| #[trigger]
                pruned.store.contains_key(name) ==> store.contains_key(name) && pruned.store[name]
                    == store[name]
            &&& forall|name: Seq<char>|
                store.contains_key(name) && !(#[trigger] pruned.store.contains_key(name))
                    ==> names.contains(name) && (loaded_character(store, name) matches Ok(
                    character,
                ) && is_expired(character, now))
            &&& pruned.characters.len() == pruned.names.len()
            &&& forall|i: int|
                0 <= i < pruned.names.len() ==> names.contains(#[trigger] pruned.names[i])
                    && pruned.store.contains_key(pruned.names[i]) && loaded_character(
                    store,
                    pruned.names[i],
                ) == Ok::<CharacterRecord, crate::data::character::CharacterStorageError>(
                    pruned.characters[i],
                ) && !is_expired(pruned.characters[i], now)
            &&& names.no_duplicates() ==> pruned.names.no_duplicates()
        }),
    decreases names.len(),
{
    if names.len() > 0 {
        let head = names.drop_last();
        let last = names.last();
        lemma_prune(head, store, now);
        let before = prune(head, store, now);
        let pruned = prune(names, store, now);
        assert forall|name: Seq<char>| head.contains(name) implies names.contains(name) by {
            let i = choose|i: int| 0 <= i < head.len() && head[i] == name;
            assert(names[i] == name);
        }
        assert(names.contains(last)) by {
            assert(names[names.len() - 1] == last);
        }
        assert forall|i: int| 0 <= i < pruned.names.len() implies names.contains(
            #[trigger] pruned.names[i],
        ) && pruned.store.contains_key(pruned.names[i]) && loaded_character(store, pruned.names[i])
            == Ok::<CharacterRecord, crate::data::character::CharacterStorageError>(
            pruned.characters[i],
        ) && !is_expired(pruned.characters[i], now) by {
            if i < before.names.len() {
                assert(head.contains(before.names[i]));
                assert(before.store.contains_key(before.names[i]));
            }
        }
        if names.no_duplicates() {
            assert(head.no_duplicates());
            assert forall|i: int, j: int|
                0 <= i < pruned.names.len() && 0 <= j < pruned.names.len() && i
                    != j implies pruned.names[i] != pruned.names[j] by {
                if i < before.names.len() && j < before.names.len() {
                } else {
                    let other = if i < before.names.len() { i } else { j };
                    assert(head.contains(before.names[other]));
                    let at = choose|k: int| 0 <= k < head.len() && head[k] == before.names[other];
                    assert(names[at] == before.names[other]);
                    assert(names[names.len() - 1] == last);
                }
            }
        }
    }
}

/// A character whose grace period is over is gone once the characters
/// are pruned: its name is not kept, and if it was among the names it is
/// deleted from the store.
pub proof fn lemma_prune_drops_expired(
    names: Seq<Seq<char>>,
    store: CharacterRecords,
    now: Duration,
    name: Seq<char>,
)
    requires
        loaded_character(store, name) matches Ok(character) && is_expired(character, now),
    ensures
        !prune(names, store, now).names.contains(name),
        names.contains(name) ==> !prune(names, store, now).store.contains_key(name),
    decreases names.len(),
{
    lemma_prune(names, store, now);
    let pruned = prune(names, store, now);
    if pruned.names.contains(name) {
        let i = choose|i: int| 0 <= i < pruned.names.len() && pruned.names[i] == name;
        assert(!is_expired(pruned.characters[i], now));
    }
    if names.len() > 0 {
        let head = names.drop_last();
        lemma_prune_drops_expired(head, store, now, name);
        lemma_prune(head, store, now);
        let before = prune(head, store, now);
        if names.contains(name) && pruned.store.contains_key(name) {
            let at = choose|k: int| 0 <= k < names.len() && names[k] == name;
            if at < head.len() {
                assert(head[at] == name);
                assert(head.contains(name));
            } else {
                assert(names.last() == name);
                assert(before.store.contains_key(name));
                assert(before.store[name] == store[name]);
            }
        }
    }
}

/// A mark for deletion expires: once the grace period has passed since
/// the mark, nothing is left of it.
pub proof fn lemma_mark_expires(mark: CharacterDeleteTime, now: Duration)
    requires
        now.total_nanos() >= mark.start_time.total_nanos() + CharacterDeleteTime::grace_nanos(),
    ensures
        mark.nanos_until_delete(now) == 0,
{
}

/// A character that was marked for deletion is gone from the account that
/// presents its token again once the grace period has passed since the
/// mark: the names of the account no longer hold the name of the
/// character, and no character of the account has the mark.
pub proof fn lemma_deleted_character_is_gone(
    state: Roster,
    tokens: Seq<LoginTokenView>,
    client: WorldClient,
    slot: u8,
    name: Seq<char>,
    marked_at: Duration,
    now: Duration,
    login_token: u32,
    password_md5: Seq<char>,
)
    requires
        is_slot_of(state.character_list, slot, name),
        now.total_nanos() >= delete_mark(
            state.character_list[slot as int].delete_time,
            true,
            marked_at,
        ).unwrap().start_time.total_nanos() + CharacterDeleteTime::grace_nanos(),
    ensures
        ({
            let marked = deleted_character(
                state.character_list,
                state.characters,
                slot,
                name,
                true,
                marked_at,
            );
            let outcome = world_authentication(
                client,
                tokens,
                state.accounts,
                marked.characters,
                login_token,
                password_md5,
                now,
            );
            &&& marked.reply matches Ok(Some(mark))
            &&& outcome.account matches Some(account) ==> !account.character_names.contains(name)
            &&& forall|i: int|
                0 <= i < outcome.character_list.len() ==> (
                #[trigger] outcome.character_list[i]).delete_time != marked.reply.unwrap()
        }),
{
    let marked = deleted_character(
        state.character_list,
        state.characters,
        slot,
        name,
        true,
        marked_at,
    );
    let character = state.character_list[slot as int];
    let mark = delete_mark(character.delete_time, true, marked_at).unwrap();
    lemma_mark_expires(mark, now);
    let outcome = world_authentication(
        client,
        tokens,
        state.accounts,
        marked.characters,
        login_token,
        password_md5,
        now,
    );
    if outcome.account.is_some() {
        let token = tokens[crate::game::resources::login_tokens::token_position(
            tokens,
            login_token,
        )];
        let record = loaded_account(state.accounts, token.username, password_md5).unwrap();
        let changed = CharacterRecord { delete_time: Some(mark), ..character };
        assert(marked.characters.contains_key(name) && marked.characters[name] == Some(changed));
        assert(is_expired(changed, now));
        lemma_prune_drops_expired(record.character_names, marked.characters, now, name);
        lemma_prune(record.character_names, marked.characters, now);
        let pruned = prune(record.character_names, marked.characters, now);
        assert(outcome.character_list == pruned.characters);
        assert(outcome.account.unwrap().character_names == pruned.names);
        assert forall|i: int| 0 <= i < outcome.character_list.len() implies (
        #[trigger] outcome.character_list[i]).delete_time != Some(mark) by {
            assert(record.character_names.contains(pruned.names[i]));
            assert(!is_expired(pruned.characters[i], now));
        }
    }
}

/// An account that has all its slots filled gets no further character:
/// the request fails for want of a slot whatever the character creator
/// would have made, and neither the stores nor the account change.
pub proof fn lemma_no_more_slots(
    state: Roster,
    name: Seq<char>,
    created: Result<CharacterRecord, CharacterCreatorError>,
)
    requires
        state.account.character_names.len() >= MAX_CHARACTERS,
    ensures
        created_character(state, name, created) == (
            state,
            Err::<u8, CreateCharacterError>(CreateCharacterError::NoMoreSlots),
        ),
{
}

/// Creating a character keeps every name unique and taken, where the
/// account of the connection is the one that the store keeps.
pub proof fn lemma_create_keeps_names_unique(
    state: Roster,
    name: Seq<char>,
    created: Result<CharacterRecord, CharacterCreatorError>,
)
    requires
        names_unique(state.accounts),
        names_taken(state.accounts, state.characters),
        session_current(state),
    ensures
        ({
            let after = created_character(state, name, created).0;
            &&& names_unique(after.accounts)
            &&& names_taken(after.accounts, after.characters)
            &&& session_current(after)
        }),
{
    let outcome = created_character(state, name, created);
    let after = outcome.0;
    if outcome.1.is_ok() {
        let character = created.unwrap();
        let fresh = character.name;
        let me = state.account.name;
        let old_names = state.account.character_names;
        let new_names = old_names.push(fresh);
        assert(after.account.character_names == new_names);
        assert(!state.characters.contains_key(fresh));
        assert forall|account: Seq<char>| !owns(state.accounts, account, fresh) by {
            if owns(state.accounts, account, fresh) {
                assert(state.characters.contains_key(fresh));
            }
        }
        assert(!old_names.contains(fresh)) by {
            if old_names.contains(fresh) {
                assert(owns(state.accounts, me, fresh));
            }
        }
        assert forall|account: Seq<char>, character: Seq<char>|
            owns(after.accounts, account, character) implies (owns(
            state.accounts,
            account,
            character,
        ) || (account == me && character == fresh)) by {
            if account == me {
                let i = choose|i: int| 0 <= i < new_names.len() && new_names[i] == character;
                if i < old_names.len() {
                    assert(old_names[i] == character);
                }
            }
        }
        assert(new_names.no_duplicates()) by {
            assert(old_names.no_duplicates());
            assert forall|i: int, j: int|
                0 <= i < new_names.len() && 0 <= j < new_names.len() && i
                    != j implies new_names[i] != new_names[j] by {
                if i < old_names.len() && j < old_names.len() {
                } else {
                    let other = if i < old_names.len() { i } else { j };
                    assert(old_names.contains(old_names[other]));
                }
            }
        }
        assert(names_unique(after.accounts)) by {
            assert forall|account: Seq<char>| #[trigger]
                after.accounts.contains_key(account) implies (after.accounts[account] matches Some(
                record,
            ) ==> record.character_names.no_duplicates()) by {
                if account != me {
                    assert(state.accounts.contains_key(account));
                }
            }
            assert forall|first: Seq<char>, second: Seq<char>, character: Seq<char>|
                #[trigger] owns(after.accounts, first, character) && #[trigger] owns(
                    after.accounts,
                    second,
                    character,
                ) implies first == second by {
                if character != fresh {
                    assert(owns(state.accounts, first, character));
                    assert(owns(state.accounts, second, character));
                }
            }
        }
        assert(names_taken(after.accounts, after.characters)) by {
            assert forall|account: Seq<char>, character: Seq<char>| #[trigger]
                owns(after.accounts, account, character) implies after.characters.contains_key(
                character,
            ) by {
                if character != fresh {
                    assert(owns(state.accounts, account, character));
                }
            }
        }
    }
}

/// Whether the character is one of the names that were kept, where the
/// account is the one that presented its token.
spec fn kept_or_other(
    account: Seq<char>,
    me: Seq<char>,
    kept: Seq<Seq<char>>,
    character: Seq<char>,
) -> bool {
    account == me ==> kept.contains(character)
}

/// Presenting a token keeps every name unique and taken, and the names
/// of the account that is attached are those of the characters that are
/// attached, slot by slot.
pub proof fn lemma_authentication_keeps_names_unique(
    client: WorldClient,
    tokens: Seq<LoginTokenView>,
    accounts: AccountRecords,
    characters: CharacterRecords,
    login_token: u32,
    password_md5: Seq<char>,
    now: Duration,
)
    requires
        names_unique(accounts),
        names_taken(accounts, characters),
        crate::data::account::AccountStore::keyed_by_name(accounts),
        crate::data::character::CharacterStore::keyed_by_name(characters),
    ensures
        ({
            let outcome = world_authentication(
                client,
                tokens,
                accounts,
                characters,
                login_token,
                password_md5,
                now,
            );
            &&& names_unique(outcome.accounts)
            &&& names_taken(outcome.accounts, outcome.characters)
            &&& outcome.account matches Some(account) ==> account.character_names == Seq::new(
                outcome.character_list.len(),
                |i: int| outcome.character_list[i].name,
            )
        }),
{
    let outcome = world_authentication(
        client,
        tokens,
        accounts,
        characters,
        login_token,
        password_md5,
        now,
    );
    if outcome.account.is_some() {
        let token = tokens[crate::game::resources::login_tokens::token_position(
            tokens,
            login_token,
        )];
        let record = loaded_account(accounts, token.username, password_md5).unwrap();
        let me = record.name;
        assert(me == token.username);
        assert(accounts.contains_key(me) && accounts[me] == Some(record));
        let old_names = record.character_names;
        lemma_prune(old_names, characters, now);
        let pruned = prune(old_names, characters, now);
        let kept = pruned.names;
        assert(old_names.no_duplicates());
        assert forall|account: Seq<char>, character: Seq<char>|
            owns(outcome.accounts, account, character) implies owns(
            accounts,
            account,
            character,
        ) && kept_or_other(account, me, kept, character) by {
            if account == me {
                let i = choose|i: int| 0 <= i < kept.len() && kept[i] == character;
                assert(old_names.contains(kept[i]));
            }
        }
        assert(names_unique(outcome.accounts)) by {
            assert forall|account: Seq<char>| #[trigger]
                outcome.accounts.contains_key(account) implies (
            outcome.accounts[account] matches Some(r) ==> r.character_names.no_duplicates()) by {
                if account != me {
                    assert(accounts.contains_key(account));
                }
            }
            assert forall|first: Seq<char>, second: Seq<char>, character: Seq<char>|
                #[trigger] owns(outcome.accounts, first, character) && #[trigger] owns(
                    outcome.accounts,
                    second,
                    character,
                ) implies first == second by {
                assert(owns(accounts, first, character));
                assert(owns(accounts, second, character));
            }
        }
        assert(names_taken(outcome.accounts, outcome.characters)) by {
            assert forall|account: Seq<char>, character: Seq<char>| #[trigger]
                owns(outcome.accounts, account, character) implies outcome.characters.contains_key(
                character,
            ) by {
                assert(owns(accounts, account, character));
                assert(characters.contains_key(character));
                if account == me {
                    let i = choose|i: int| 0 <= i < kept.len() && kept[i] == character;
                    assert(pruned.store.contains_key(kept[i]));
                } else {
                    if !pruned.store.contains_key(character) {
                        assert(old_names.contains(character));
                        assert(owns(accounts, me, character));
                    }
                }
            }
        }
        let listed = Seq::new(
            outcome.character_list.len(),
            |i: int| outcome.character_list[i].name,
        );
        assert forall|i: int| 0 <= i < kept.len() implies kept[i] == listed[i] by {
            assert(characters.contains_key(kept[i]));
        }
        assert(kept =~= listed);
    }
}

} // verus!
