//! The session authority: it mints opaque session tokens, each bound to the
//! identity that its bearer claims, and resolves a presented token back to
//! that identity.
//!
//! A login checks no credential. A binding is never removed and never
//! expires, and one identity may hold any number of tokens.

use crate::error::ApiError;
use vstd::hash_map::StringHashMap;
use vstd::prelude::*;

verus! {

/// A digit of lower-case hexadecimal.
pub open spec fn is_lower_hex(c: char) -> bool {
    ('0' <= c && c <= '9') || ('a' <= c && c <= 'f')
}

/// The shape of a minted token: the hyphenated lower-case text of a random
/// (version 4) UUID, such as `67e55044-10b1-426f-9247-bb680e5fe0c8`.
pub open spec fn is_token_text(s: Seq<char>) -> bool {
    &&& s.len() == 36
    &&& forall|i: int|
        0 <= i < 36 ==> if i == 8 || i == 13 || i == 18 || i == 23 {
            s[i] == '-'
        } else {
            is_lower_hex(#[trigger] s[i])
        }
    &&& s[14] == '4'
    &&& (s[19] == '8' || s[19] == '9' || s[19] == 'a' || s[19] == 'b')
}

/// Draws a fresh token from `uuid::Uuid::new_v4` and renders it with the
/// UUID's `Display`, that is `to_string`.
///
/// Trusted: the text has the hyphenated lower-case form, with the version
/// digit 4 and an RFC 4122 variant digit. Nothing is claimed about which
/// token comes back: two calls may return the same text, however unlikely
/// 122 random bits make that. The call panics if the operating system cannot
/// supply random bytes.
#[verifier::external_body]
fn fresh_token() -> (token: String)
    ensures
        is_token_text(token@),
{
    uuid::Uuid::new_v4().to_string()
}

/// An identity that a session token was resolved to. Only
/// [`SessionAuthority::resolve`] makes one, so holding an `Identity` shows
/// that a resolution succeeded.
#[derive(Debug, PartialEq, Eq)]
pub struct Identity {
    username: String,
}

impl Clone for Identity {
    fn clone(&self) -> (copy: Self)
        ensures
            copy == *self,
    {
        Identity { username: self.username.clone() }
    }
}

impl View for Identity {
    type V = Seq<char>;

    closed spec fn view(&self) -> Seq<char> {
        self.username@
    }
}

impl Identity {
    /// The username that the session claimed at login.
    pub fn username(&self) -> (name: &String)
        ensures
            name@ == self@,
    {
        &self.username
    }
}

/// What resolving `presented` against `table` yields: the bound identity if a
/// token was presented and the table knows it, and `Unauthenticated` in every
/// other case.
pub open spec fn resolution(
    table: Map<Seq<char>, Seq<char>>,
    presented: Option<Seq<char>>,
) -> Result<Seq<char>, ApiError> {
    match presented {
        Some(token) => if table.contains_key(token) {
            Ok(table[token])
        } else {
            Err(ApiError::Unauthenticated)
        },
        None => Err(ApiError::Unauthenticated),
    }
}

/// What a request carries in the place of its session token.
#[derive(Clone, Copy, Debug, PartialEq, Eq)]
pub enum Presented<'a> {
    /// The request carries no token.
    Missing,
    /// The request carries something that is no text.
    Malformed,
    /// The request carries this text.
    Token(&'a str),
}

/// The text of the token that a request presented, if it presented one.
pub open spec fn presented_text(presented: Presented) -> Option<Seq<char>> {
    match presented {
        Presented::Token(token) => Some(token@),
        _ => None,
    }
}

/// The outcome of a resolution, the identity taken by its text.
pub open spec fn resolved_text(outcome: Result<Identity, ApiError>) -> Result<
    Seq<char>,
    ApiError,
> {
    match outcome {
        Ok(identity) => Ok(identity@),
        Err(e) => Err(e),
    }
}

/// The table that a run of bindings builds from nothing, each pair a token
/// and the identity bound to it, the earliest first.
pub open spec fn table_after(bindings: Seq<(Seq<char>, Seq<char>)>) -> Map<Seq<char>, Seq<char>>
    decreases bindings.len(),
{
    if bindings.len() == 0 {
        Map::empty()
    } else {
        table_after(bindings.drop_last()).insert(bindings.last().0, bindings.last().1)
    }
}

/// The session table. Its view maps each token to the identity bound to it.
pub struct SessionAuthority {
    table: StringHashMap<String>,
}

impl View for SessionAuthority {
    type V = Map<Seq<char>, Seq<char>>;

    closed spec fn view(&self) -> Map<Seq<char>, Seq<char>> {
        self.table@.map_values(|identity: String| identity@)
    }
}

impl SessionAuthority {
    /// An authority that knows no token.
    pub fn new() -> (authority: Self)
        ensures
            authority@ == Map::<Seq<char>, Seq<char>>::empty(),
    {
        let authority = SessionAuthority { table: StringHashMap::new() };
        assert(authority@ =~= Map::<Seq<char>, Seq<char>>::empty());
        authority
    }

    /// Binds `token` to `identity`. A token that was bound before is bound
    /// anew: a token maps to one identity at a time.
    pub fn bind(&mut self, token: String, identity: String)
        ensures
            final(self)@ == old(self)@.insert(token@, identity@),
    {
        self.table.insert(token, identity);
        assert(self@ =~= old(self)@.insert(token@, identity@));
    }

    /// Logs `identity` in: draws a fresh token, binds it to `identity` and
    /// returns it. Any identity is accepted as it is, the empty one too.
    pub fn mint(&mut self, identity: String) -> (token: String)
        ensures
            is_token_text(token@),
            final(self)@ == old(self)@.insert(token@, identity@),
    {
        let token = fresh_token();
        self.bind(token.clone(), identity);
        token
    }

    /// Resolves what a request presented to the identity bound to it. A
    /// request without a token, with a malformed one or with one that was
    /// never bound is unauthenticated. Nothing is remembered between calls.
    pub fn resolve(&self, presented: Presented) -> (outcome: Result<Identity, ApiError>)
        ensures
            resolved_text(outcome) == resolution(self@, presented_text(presented)),
    {
        match presented {
            Presented::Token(token) => match self.table.get(token) {
                Some(identity) => Ok(Identity { username: identity.clone() }),
                None => Err(ApiError::Unauthenticated),
            },
            Presented::Missing => Err(ApiError::Unauthenticated),
            Presented::Malformed => Err(ApiError::Unauthenticated),
        }
    }
}

/// A token that no login returned is never resolved: whatever bindings were
/// made, a token that is not among them is rejected as unauthenticated.
pub proof fn lemma_unissued_token_is_rejected(
    issued: Seq<(Seq<char>, Seq<char>)>,
    token: Seq<char>,
)
    requires
        forall|i: int| 0 <= i < issued.len() ==> issued[i].0 != token,
    ensures
        resolution(table_after(issued), Some(token)) == Err::<Seq<char>, ApiError>(
            ApiError::Unauthenticated,
        ),
    decreases issued.len(),
{
    if issued.len() > 0 {
        lemma_unissued_token_is_rejected(issued.drop_last(), token);
    }
}

/// A binding is never invalidated: binding another token, to whatever
/// identity, changes nothing about what `token` resolves to.
pub proof fn lemma_other_tokens_are_unaffected(
    table: Map<Seq<char>, Seq<char>>,
    token: Seq<char>,
    other: Seq<char>,
    identity: Seq<char>,
)
    requires
        other != token,
    ensures
        resolution(table.insert(other, identity), Some(token)) == resolution(table, Some(token)),
{
}

/// Two logins of one identity both hold: whichever tokens were drawn for
/// them, each resolves to that identity afterwards.
pub proof fn lemma_both_tokens_resolve(
    table: Map<Seq<char>, Seq<char>>,
    identity: Seq<char>,
    first: Seq<char>,
    second: Seq<char>,
)
    ensures
        resolution(table.insert(first, identity).insert(second, identity), Some(first)) == Ok::<
            Seq<char>,
            ApiError,
        >(identity),
        resolution(table.insert(first, identity).insert(second, identity), Some(second)) == Ok::<
            Seq<char>,
            ApiError,
        >(identity),
{
}

} // verus!
