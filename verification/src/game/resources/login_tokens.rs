//! The tokens that carry a login from one tier of servers to the next.

use crate::game::components::entity::Entity;
use vstd::prelude::*;

verus! {

/// A handle that a connection got from the login tier and presents to the
/// world tier and then to the game tier.
#[derive(Debug)]
pub struct LoginToken {
    pub token: u32,
    pub username: String,
    pub selected_world_server: Entity,
    pub selected_game_server: Entity,
    pub selected_character: Option<String>,
}

/// A login token as a mathematical value.
pub struct LoginTokenView {
    pub token: u32,
    pub username: Seq<char>,
    pub selected_world_server: Entity,
    pub selected_game_server: Entity,
    pub selected_character: Option<Seq<char>>,
}

impl View for LoginToken {
    type V = LoginTokenView;

    open spec fn view(&self) -> LoginTokenView {
        LoginTokenView {
            token: self.token,
            username: self.username@,
            selected_world_server: self.selected_world_server,
            selected_game_server: self.selected_game_server,
            selected_character: match self.selected_character {
                Some(name) => Some(name@),
                None => None,
            },
        }
    }
}

/// The tokens as mathematical values, in the same order.
pub open spec fn tokens_view(tokens: Seq<LoginToken>) -> Seq<LoginTokenView> {
    Seq::new(tokens.len(), |i: int| tokens[i]@)
}

/// No token is 0 and no two tokens are the same number.
pub open spec fn valid_tokens(tokens: Seq<LoginTokenView>) -> bool {
    &&& forall|i: int| 0 <= i < tokens.len() ==> (#[trigger] tokens[i]).token != 0
    &&& forall|i: int, j: int|
        0 <= i < j < tokens.len() ==> (#[trigger] tokens[i]).token != (#[trigger] tokens[j]).token
}

/// Whether a token with the number is among the tokens.
pub open spec fn has_token(tokens: Seq<LoginTokenView>, token: u32) -> bool {
    exists|i: int| 0 <= i < tokens.len() && (#[trigger] tokens[i]).token == token
}

/// The position of the token with the number among the tokens.
pub open spec fn token_position(tokens: Seq<LoginTokenView>, token: u32) -> int {
    choose|i: int| 0 <= i < tokens.len() && (#[trigger] tokens[i]).token == token
}

/// Among valid tokens a number is found at one position only.
pub proof fn lemma_token_position(tokens: Seq<LoginTokenView>, i: int)
    requires
        valid_tokens(tokens),
        0 <= i < tokens.len(),
    ensures
        has_token(tokens, tokens[i].token),
        token_position(tokens, tokens[i].token) == i,
{
    let p = token_position(tokens, tokens[i].token);
    assert(0 <= p < tokens.len() && tokens[p].token == tokens[i].token);
    if p < i {
        assert(tokens[p].token != tokens[i].token);
    }
    if i < p {
        assert(tokens[i].token != tokens[p].token);
    }
}

/// Whether the number can become a new token: it is not 0 and not in use.
pub open spec fn is_fresh(tokens: Seq<LoginTokenView>, candidate: u32) -> bool {
    candidate != 0 && !has_token(tokens, candidate)
}

/// The number after `value`, with 0 after the largest.
pub open spec fn following(value: u32) -> u32 {
    if value == u32::MAX {
        0
    } else {
        (value + 1) as u32
    }
}

/// The first fresh number at or after `seed`, looking at no more than
/// `steps` numbers after it.
pub open spec fn first_fresh(tokens: Seq<LoginTokenView>, seed: u32, steps: nat) -> u32
    decreases steps,
{
    if is_fresh(tokens, seed) || steps == 0 {
        seed
    } else {
        first_fresh(tokens, following(seed), (steps - 1) as nat)
    }
}

/// The number that is `offset` steps after `seed`.
pub open spec fn stepped(seed: u32, offset: nat) -> u32 {
    ((seed + offset) % 0x1_0000_0000) as u32
}

spec fn stepped_set(seed: u32, count: nat) -> Set<u32>
    decreases count,
{
    if count == 0 {
        Set::empty()
    } else {
        stepped_set(seed, (count - 1) as nat).insert(stepped(seed, (count - 1) as nat))
    }
}

proof fn lemma_stepped_set(seed: u32, count: nat)
    requires
        count <= 0x1_0000_0000,
    ensures
        stepped_set(seed, count).finite(),
        stepped_set(seed, count).len() == count,
        forall|v: u32|
            stepped_set(seed, count).contains(v) <==> exists|k: nat|
                k < count && v == #[trigger] stepped(seed, k),
    decreases count,
{
    if count > 0 {
        let before = (count - 1) as nat;
        lemma_stepped_set(seed, before);
        let last = stepped(seed, before);
        assert(!stepped_set(seed, before).contains(last)) by {
            if stepped_set(seed, before).contains(last) {
                let k = choose|k: nat| k < before && last == #[trigger] stepped(seed, k);
                assert((seed + k) % 0x1_0000_0000 == (seed + before) % 0x1_0000_0000);
                assert(false);
            }
        }
        assert forall|v: u32| stepped_set(seed, count).contains(v) implies exists|k: nat|
            k < count && v == #[trigger] stepped(seed, k) by {
            if v == last {
                assert(before < count && v == stepped(seed, before));
            } else {
                let k = choose|k: nat| k < before && v == #[trigger] stepped(seed, k);
                assert(k < count && v == stepped(seed, k));
            }
        }
        assert forall|v: u32|
            (exists|k: nat| k < count && v == #[trigger] stepped(seed, k)) implies stepped_set(
            seed,
            count,
        ).contains(v) by {
            let k = choose|k: nat| k < count && v == #[trigger] stepped(seed, k);
            if k < before {
                assert(stepped_set(seed, before).contains(v));
            }
        }
    }
}

/// Numbers of the tokens, in order.
spec fn token_numbers(tokens: Seq<LoginTokenView>) -> Seq<u32> {
    Seq::new(tokens.len(), |i: int| tokens[i].token)
}

/// Among any run of numbers that is longer by two than the list of tokens
/// one is fresh.
proof fn lemma_some_fresh(tokens: Seq<LoginTokenView>, seed: u32)
    requires
        tokens.len() + 2 <= 0x1_0000_0000,
    ensures
        exists|k: nat| k < tokens.len() + 2 && is_fresh(tokens, #[trigger] stepped(seed, k)),
{
    let count = tokens.len() + 2;
    if !exists|k: nat| k < count && is_fresh(tokens, #[trigger] stepped(seed, k)) {
        lemma_stepped_set(seed, count);
        let tried = stepped_set(seed, count);
        let numbers = token_numbers(tokens);
        numbers.lemma_cardinality_of_set();
        let used = numbers.to_set().insert(0u32);
        assert(used.finite());
        assert(used.len() <= tokens.len() + 1);
        assert forall|v: u32| tried.contains(v) implies used.contains(v) by {
            let k = choose|k: nat| k < count && v == #[trigger] stepped(seed, k);
            assert(!is_fresh(tokens, stepped(seed, k)));
            if v != 0 {
                let i = choose|i: int| 0 <= i < tokens.len() && (#[trigger] tokens[i]).token == v;
                assert(numbers[i] == v);
                assert(numbers.to_set().contains(v));
            }
        }
        assert(tried.subset_of(used));
        vstd::set_lib::lemma_len_subset(tried, used);
        assert(false);
    }
}

/// Looking from `seed` at one number more than there are tokens finds a
/// fresh number.
proof fn lemma_first_fresh(tokens: Seq<LoginTokenView>, seed: u32, offset: nat, steps: nat)
    requires
        exists|k: nat| offset <= k <= offset + steps && is_fresh(tokens, #[trigger] stepped(seed, k)),
    ensures
        is_fresh(tokens, first_fresh(tokens, stepped(seed, offset), steps)),
    decreases steps,
{
    let here = stepped(seed, offset);
    if is_fresh(tokens, here) {
    } else {
        let k = choose|k: nat|
            offset <= k <= offset + steps && is_fresh(tokens, #[trigger] stepped(seed, k));
        assert(k != offset);
        assert(steps > 0);
        assert(following(here) == stepped(seed, offset + 1));
        assert(offset + 1 <= k <= offset + 1 + (steps - 1) as nat && is_fresh(
            tokens,
            stepped(seed, k),
        ));
        lemma_first_fresh(tokens, seed, offset + 1, (steps - 1) as nat);
    }
}

/// The number that becomes the next token for a seed: the first fresh
/// number at or after the seed.
pub open spec fn next_token(tokens: Seq<LoginTokenView>, seed: u32) -> u32 {
    first_fresh(tokens, seed, tokens.len() + 1)
}

/// Where fewer tokens are in use than there are numbers to pick from, the
/// next token is fresh, and it is the seed itself where that is fresh.
pub proof fn lemma_next_token_fresh(tokens: Seq<LoginTokenView>, seed: u32)
    requires
        tokens.len() + 2 <= 0x1_0000_0000,
    ensures
        is_fresh(tokens, next_token(tokens, seed)),
        is_fresh(tokens, seed) ==> next_token(tokens, seed) == seed,
{
    lemma_some_fresh(tokens, seed);
    let k = choose|k: nat| k < tokens.len() + 2 && is_fresh(tokens, #[trigger] stepped(seed, k));
    assert(0 <= k <= 0 + (tokens.len() + 1) && is_fresh(tokens, stepped(seed, k)));
    assert(stepped(seed, 0) == seed);
    lemma_first_fresh(tokens, seed, 0, tokens.len() + 1);
}

/// The login tokens that are in use.
pub struct LoginTokens {
    tokens: Vec<LoginToken>,
}

impl View for LoginTokens {
    type V = Seq<LoginTokenView>;

    closed spec fn view(&self) -> Seq<LoginTokenView> {
        tokens_view(self.tokens@)
    }
}

impl LoginTokens {
    #[verifier::type_invariant]
    spec fn well_formed(self) -> bool {
        valid_tokens(tokens_view(self.tokens@))
    }

    pub fn new() -> (tokens: Self)
        ensures
            tokens@ == Seq::<LoginTokenView>::empty(),
    {
        let tokens = LoginTokens { tokens: Vec::new() };
        assert(tokens@ =~= Seq::<LoginTokenView>::empty());
        tokens
    }

    /// The tokens in use. None of them is 0 and no two are the same
    /// number.
    pub fn tokens(&self) -> (tokens: &Vec<LoginToken>)
        ensures
            tokens_view(tokens@) == self@,
            valid_tokens(self@),
    {
        proof {
            use_type_invariant(self);
        }
        &self.tokens
    }

    pub fn len(&self) -> (len: usize)
        ensures
            len == self@.len(),
    {
        self.tokens.len()
    }

    fn position(&self, token: u32) -> (found: Option<usize>)
        ensures
            found.is_some() == has_token(self@, token),
            found matches Some(i) ==> i < self@.len() && i == token_position(self@, token)
                && self@[i as int].token == token,
    {
        proof {
            use_type_invariant(self);
        }
        let mut i: usize = 0;
        while i < self.tokens.len()
            invariant
                i <= self.tokens.len(),
                valid_tokens(self@),
                forall|k: int| 0 <= k < i ==> (#[trigger] self@[k]).token != token,
            decreases self.tokens.len() - i,
        {
            if self.tokens[i].token == token {
                proof {
                    assert(self@[i as int].token == token);
                    lemma_token_position(self@, i as int);
                }
                return Some(i);
            }
            i += 1;
        }
        None
    }

    /// The token with the number, if it is in use.
    pub fn find(&self, token: u32) -> (found: Option<&LoginToken>)
        ensures
            found.is_some() == has_token(self@, token),
            found matches Some(entry) ==> entry@ == self@[token_position(self@, token)]
                && entry.token == token,
    {
        match self.position(token) {
            Some(i) => Some(&self.tokens[i]),
            None => None,
        }
    }

    /// Puts a new token in use for the user and the servers that were
    /// chosen, and returns its number: `seed` where that is fresh, else
    /// the first fresh number after it. The seed is to come from a source
    /// that others cannot predict.
    pub fn generate(
        &mut self,
        seed: u32,
        username: String,
        selected_world_server: Entity,
        selected_game_server: Entity,
    ) -> (token: u32)
        requires
            old(self)@.len() + 2 <= 0x1_0000_0000,
        ensures
            token == next_token(old(self)@, seed),
            is_fresh(old(self)@, token),
            final(self)@ == old(self)@.push(
                LoginTokenView {
                    token,
                    username: username@,
                    selected_world_server,
                    selected_game_server,
                    selected_character: None,
                },
            ),
    {
        proof {
            use_type_invariant(&*self);
            lemma_next_token_fresh(self@, seed);
        }
        let ghost before = self@;
        let mut candidate: u32 = seed;
        let mut steps: usize = self.tokens.len() + 1;
        while steps > 0 && (candidate == 0 || self.position(candidate).is_some())
            invariant
                self@ == before,
                steps <= before.len() + 1,
                first_fresh(before, candidate, steps as nat) == next_token(before, seed),
            decreases steps,
        {
            candidate = if candidate == u32::MAX {
                0
            } else {
                candidate + 1
            };
            steps -= 1;
        }
        assert(candidate == next_token(before, seed));
        let entry = LoginToken {
            token: candidate,
            username,
            selected_world_server,
            selected_game_server,
            selected_character: None,
        };
        let ghost added = before.push(entry@);
        proof {
            assert(valid_tokens(added)) by {
                assert forall|i: int| 0 <= i < added.len() implies (#[trigger] added[i]).token
                    != 0 by {
                    if i < before.len() {
                        assert(before[i].token != 0);
                    }
                }
                assert forall|i: int, j: int| 0 <= i < j < added.len() implies (
                #[trigger] added[i]).token != (#[trigger] added[j]).token by {
                    if j < before.len() {
                        assert(before[i].token != before[j].token);
                    } else {
                        assert(before[i].token != candidate);
                    }
                }
            }
            assert(tokens_view(self.tokens@.push(entry)) =~= added);
        }
        let mut tokens: Vec<LoginToken> = Vec::new();
        std::mem::swap(&mut self.tokens, &mut tokens);
        tokens.push(entry);
        std::mem::swap(&mut self.tokens, &mut tokens);
        candidate
    }

    /// Notes on the token the character that its holder selected. Nothing
    /// changes where the token is not in use.
    pub fn select_character(&mut self, token: u32, name: String) -> (known: bool)
        ensures
            known == has_token(old(self)@, token),
            known ==> final(self)@ == old(self)@.update(
                token_position(old(self)@, token),
                LoginTokenView {
                    selected_character: Some(name@),
                    ..old(self)@[token_position(old(self)@, token)]
                },
            ),
            !known ==> final(self)@ == old(self)@,
    {
        proof {
            use_type_invariant(&*self);
        }
        let ghost before = self@;
        match self.position(token) {
            Some(i) => {
                let mut tokens: Vec<LoginToken> = Vec::new();
                std::mem::swap(&mut self.tokens, &mut tokens);
                let mut entry = tokens.remove(i);
                entry.selected_character = Some(name);
                let ghost changed = before.update(i as int, entry@);
                proof {
                    assert(valid_tokens(changed)) by {
                        assert forall|a: int| 0 <= a < changed.len() implies (
                        #[trigger] changed[a]).token != 0 by {
                            assert(before[a].token != 0);
                        }
                        assert forall|a: int, b: int| 0 <= a < b < changed.len() implies (
                        #[trigger] changed[a]).token != (#[trigger] changed[b]).token by {
                            assert(before[a].token != before[b].token);
                        }
                    }
                    assert(tokens_view(tokens@.insert(i as int, entry)) =~= changed);
                }
                tokens.insert(i, entry);
                std::mem::swap(&mut self.tokens, &mut tokens);
                true
            },
            None => false,
        }
    }

    /// Takes the token with the number out of use.
    pub fn remove(&mut self, token: u32) -> (removed: Option<LoginToken>)
        ensures
            removed.is_some() == has_token(old(self)@, token),
            removed matches Some(entry) ==> entry@ == old(self)@[token_position(old(self)@, token)]
                && final(self)@ == old(self)@.remove(token_position(old(self)@, token)),
            removed.is_none() ==> final(self)@ == old(self)@,
            !has_token(final(self)@, token),
    {
        proof {
            use_type_invariant(&*self);
        }
        let ghost before = self@;
        match self.position(token) {
            Some(i) => {
                let ghost rest = before.remove(i as int);
                proof {
                    assert(valid_tokens(rest)) by {
                        assert forall|a: int| 0 <= a < rest.len() implies (#[trigger] rest[a]).token
                            != 0 by {
                            let a0 = if a < i { a } else { a + 1 };
                            assert(before[a0].token != 0);
                        }
                        assert forall|a: int, b: int| 0 <= a < b < rest.len() implies (
                        #[trigger] rest[a]).token != (#[trigger] rest[b]).token by {
                            let a0 = if a < i { a } else { a + 1 };
                            let b0 = if b < i { b } else { b + 1 };
                            assert(before[a0].token != before[b0].token);
                        }
                    }
                    assert(tokens_view(self.tokens@.remove(i as int)) =~= rest);
                    assert(!has_token(rest, token)) by {
                        if has_token(rest, token) {
                            let a = token_position(rest, token);
                            let a0 = if a < i { a } else { a + 1 };
                            assert(before[a0].token == token);
                            if a0 < i {
                                assert(before[a0].token != before[i as int].token);
                            } else {
                                assert(before[i as int].token != before[a0].token);
                            }
                        }
                    }
                }
                let mut tokens: Vec<LoginToken> = Vec::new();
                std::mem::swap(&mut self.tokens, &mut tokens);
                let entry = tokens.remove(i);
                std::mem::swap(&mut self.tokens, &mut tokens);
                Some(entry)
            },
            None => None,
        }
    }
}

} // verus!
