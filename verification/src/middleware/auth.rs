//! Token authentication of API requests.

use vstd::prelude::*;
use crate::text::{chars_of, same_text, string_from_chars};

verus! {

/// Why a request was not authenticated.
#[derive(Debug, Clone, Copy, PartialEq, Eq, Structural)]
pub enum AuthError {
    InvalidToken,
    MissingToken,
    ExpiredToken,
}

/// Configuration of the token authentication.
#[derive(Clone)]
pub struct AuthConfig {
    /// The tokens that are accepted. This type has no `Debug`.
    pub valid_tokens: Vec<String>,
    /// Whether requests are authenticated at all.
    pub enabled: bool,
    /// The scheme that may stand before a token, as in `Bearer`.
    pub token_prefix: String,
}

impl Default for AuthConfig {
    fn default() -> (config: Self)
        ensures
            config.valid_tokens@.len() == 0,
            config.enabled,
            config.token_prefix@ == "Bearer"@,
    {
        AuthConfig { valid_tokens: Vec::new(), enabled: true, token_prefix: "Bearer".to_owned() }
    }
}

/// `token` without every leading occurrence of `scheme`.
pub open spec fn without_scheme(token: Seq<char>, scheme: Seq<char>) -> Seq<char>
    decreases token.len(),
{
    if scheme.len() > 0 && scheme.is_prefix_of(token) {
        without_scheme(token.skip(scheme.len() as int), scheme)
    } else {
        token
    }
}

/// The token that a request presents: what it sent, without the prefix
/// and the blank after it where it begins with them.
pub open spec fn presented(sent: Seq<char>, prefix: Seq<char>) -> Seq<char> {
    without_scheme(sent, prefix + " "@)
}

/// The token of an `Authorization` header: what follows `Bearer ` where the
/// header begins with it.
pub open spec fn bearer_of(header: Seq<char>) -> Option<Seq<char>> {
    if "Bearer "@.is_prefix_of(header) {
        Some(header.skip("Bearer "@.len() as int))
    } else {
        None
    }
}

/// Whether one of `tokens` is `token`.
pub open spec fn listed(tokens: Seq<String>, token: Seq<char>) -> bool {
    exists|i: int| 0 <= i < tokens.len() && (#[trigger] tokens[i])@ == token
}

/// No token occurs twice.
pub open spec fn distinct_tokens(tokens: Seq<String>) -> bool {
    forall|i: int, j: int|
        0 <= i < j < tokens.len() ==> (#[trigger] tokens[i])@ != (#[trigger] tokens[j])@
}

fn occurs_at(chars: &Vec<char>, at: usize, scheme: &Vec<char>) -> (found: bool)
    requires
        at <= chars@.len(),
    ensures
        found == scheme@.is_prefix_of(chars@.skip(at as int)),
        found ==> at + scheme@.len() <= chars@.len(),
{
    let n = chars.len();
    if scheme.len() > n - at {
        return false;
    }
    let mut i: usize = 0;
    while i < scheme.len()
        invariant
            n == chars@.len(),
            at <= n,
            i <= scheme@.len() <= chars@.len() - at,
            forall|j: int| 0 <= j < i ==> chars@[at + j] == scheme@[j],
        decreases scheme.len() - i,
    {
        if chars[at + i] != scheme[i] {
            assert(chars@.skip(at as int).subrange(0, scheme@.len() as int)[i as int]
                != scheme@[i as int]);
            return false;
        }
        i = i + 1;
    }
    assert(chars@.skip(at as int).subrange(0, scheme@.len() as int) =~= scheme@);
    true
}

/// The token that a request presents.
pub fn presented_token(sent: &str, prefix: &str) -> (token: String)
    ensures
        token@ == presented(sent@, prefix@),
{
    let chars = chars_of(sent);
    let scheme = chars_of(prefix.to_owned().concat(" ").as_str());
    let mut at: usize = 0;
    let n = chars.len();
    proof {
        reveal_strlit(" ");
        assert(scheme@ == prefix@ + " "@);
        assert(chars@.skip(0) =~= chars@);
    }
    while occurs_at(&chars, at, &scheme)
        invariant
            n == chars@.len(),
            at <= chars@.len(),
            scheme@.len() > 0,
            without_scheme(chars@, scheme@) == without_scheme(chars@.skip(at as int), scheme@),
        decreases chars@.len() - at,
    {
        proof {
            assert(chars@.skip(at as int).skip(scheme@.len() as int) =~= chars@.skip(
                at + scheme@.len(),
            ));
        }
        at = at + scheme.len();
    }
    let mut rest: Vec<char> = Vec::new();
    let mut i: usize = at;
    while i < chars.len()
        invariant
            at <= i <= chars@.len(),
            rest@ == chars@.subrange(at as int, i as int),
        decreases chars.len() - i,
    {
        rest.push(chars[i]);
        assert(rest@ =~= chars@.subrange(at as int, i + 1));
        i = i + 1;
    }
    assert(rest@ =~= chars@.skip(at as int));
    string_from_chars(&rest)
}

/// The token of an `Authorization` header, where it is a bearer token.
pub fn bearer_token(header: &str) -> (token: Option<String>)
    ensures
        match token {
            Some(token) => bearer_of(header@) == Some(token@),
            None => bearer_of(header@) is None,
        },
{
    let chars = chars_of(header);
    let scheme = chars_of("Bearer ");
    if !occurs_at(&chars, 0, &scheme) {
        proof {
            assert(chars@.skip(0) =~= chars@);
        }
        return None;
    }
    let mut rest: Vec<char> = Vec::new();
    let mut i: usize = scheme.len();
    while i < chars.len()
        invariant
            scheme@.len() <= i <= chars@.len(),
            rest@ == chars@.subrange(scheme@.len() as int, i as int),
        decreases chars.len() - i,
    {
        rest.push(chars[i]);
        assert(rest@ =~= chars@.subrange(scheme@.len() as int, i + 1));
        i = i + 1;
    }
    proof {
        assert(chars@.skip(0) =~= chars@);
        assert(rest@ =~= chars@.skip(scheme@.len() as int));
    }
    Some(string_from_chars(&rest))
}

fn position(tokens: &Vec<String>, token: &str) -> (at: Option<usize>)
    ensures
        match at {
            Some(i) => i < tokens@.len() && tokens@[i as int]@ == token@,
            None => !listed(tokens@, token@),
        },
{
    let mut i: usize = 0;
    while i < tokens.len()
        invariant
            i <= tokens@.len(),
            forall|j: int| 0 <= j < i ==> (#[trigger] tokens@[j])@ != token@,
        decreases tokens.len() - i,
    {
        if same_text(tokens[i].as_str(), token) {
            return Some(i);
        }
        i = i + 1;
    }
    None
}

/// The token authentication of the HTTP interface.
pub struct AuthMiddleware {
    tokens: Vec<String>,
    enabled: bool,
    prefix: String,
}

impl AuthMiddleware {
    #[verifier::type_invariant]
    spec fn no_token_twice(self) -> bool {
        distinct_tokens(self.tokens@)
    }

    /// The accepted tokens, each once.
    pub closed spec fn tokens(self) -> Seq<String> {
        self.tokens@
    }

    /// Whether requests are authenticated at all.
    pub closed spec fn enabled(self) -> bool {
        self.enabled
    }

    /// The scheme that may stand before a token.
    pub closed spec fn prefix(self) -> Seq<char> {
        self.prefix@
    }

    /// Whether a request that sends `sent` is let through: authentication
    /// is off, or the token that it presents is accepted.
    pub open spec fn accepts(self, sent: Seq<char>) -> bool {
        !self.enabled() || listed(self.tokens(), presented(sent, self.prefix()))
    }

    /// The authentication of a configuration. A token that the
    /// configuration names twice counts once.
    pub fn new(config: AuthConfig) -> (auth: Self)
        ensures
            auth.enabled() == config.enabled,
            auth.prefix() == config.token_prefix@,
            forall|token: Seq<char>|
                listed(auth.tokens(), token) <==> listed(config.valid_tokens@, token),
    {
        let mut tokens: Vec<String> = Vec::new();
        let mut i: usize = 0;
        while i < config.valid_tokens.len()
            invariant
                i <= config.valid_tokens@.len(),
                distinct_tokens(tokens@),
                forall|token: Seq<char>|
                    listed(tokens@, token) <==> listed(config.valid_tokens@.take(i as int), token),
            decreases config.valid_tokens.len() - i,
        {
            let ghost before = tokens@;
            let ghost upto = config.valid_tokens@.take(i as int);
            let ghost next = config.valid_tokens@.take(i + 1);
            let candidate = &config.valid_tokens[i];
            let known = position(&tokens, candidate.as_str());
            if known.is_none() {
                tokens.push(candidate.clone());
            }
            proof {
                assert forall|token: Seq<char>| listed(tokens@, token) <==> listed(
                    next,
                    token,
                ) by {
                    if listed(tokens@, token) {
                        let k = choose|k: int| 0 <= k < tokens@.len() && (#[trigger] tokens@[k])@ == token;
                        if k < before.len() {
                            assert(before[k]@ == token);
                            assert(listed(before, token));
                            assert(listed(upto, token));
                            let j = choose|j: int| 0 <= j < upto.len() && (#[trigger] upto[j])@ == token;
                            assert(next[j]@ == token);
                        } else {
                            assert(next[i as int]@ == token);
                        }
                    }
                    if listed(next, token) {
                        let j = choose|j: int| 0 <= j < next.len() && (#[trigger] next[j])@ == token;
                        if j < i {
                            assert(upto[j]@ == token);
                            assert(listed(upto, token));
                            assert(listed(before, token));
                            let k = choose|k: int| 0 <= k < before.len() && (#[trigger] before[k])@ == token;
                            assert(tokens@[k]@ == token);
                        } else if known is Some {
                            assert(tokens@[known->0 as int]@ == token);
                        } else {
                            assert(tokens@[tokens@.len() - 1]@ == token);
                        }
                    }
                }
            }
            i = i + 1;
        }
        assert(config.valid_tokens@.take(config.valid_tokens@.len() as int) =~= config.valid_tokens@);
        AuthMiddleware { tokens, enabled: config.enabled, prefix: config.token_prefix }
    }

    /// Authenticates the token that a request sent.
    pub fn authenticate(&self, token: &str) -> (r: Result<(), AuthError>)
        ensures
            r == if self.accepts(token@) {
                Ok::<(), AuthError>(())
            } else {
                Err(AuthError::InvalidToken)
            },
    {
        if self.validate_token(token) {
            Ok(())
        } else {
            Err(AuthError::InvalidToken)
        }
    }

    /// Whether the token that a request sent is let through.
    pub fn validate_token(&self, token: &str) -> (valid: bool)
        ensures
            valid == self.accepts(token@),
    {
        if !self.enabled {
            return true;
        }
        let presented = presented_token(token, self.prefix.as_str());
        position(&self.tokens, presented.as_str()).is_some()
    }

    /// Accepts a token from now on.
    pub fn add_token(&mut self, token: String)
        ensures
            final(self).enabled() == old(self).enabled(),
            final(self).prefix() == old(self).prefix(),
            forall|other: Seq<char>|
                listed(final(self).tokens(), other) <==> other == token@ || listed(
                    old(self).tokens(),
                    other,
                ),
            final(self).tokens().len() == if listed(old(self).tokens(), token@) {
                old(self).tokens().len()
            } else {
                old(self).tokens().len() + 1
            },
    {
        proof {
            use_type_invariant(&*self);
        }
        let known = position(&self.tokens, token.as_str());
        if known.is_none() {
            let mut tokens: Vec<String> = Vec::new();
            core::mem::swap(&mut tokens, &mut self.tokens);
            let ghost before = tokens@;
            tokens.push(token);
            proof {
                assert forall|other: Seq<char>| listed(tokens@, other) <==> other == token@
                    || listed(before, other) by {
                    if listed(tokens@, other) {
                        let k = choose|k: int| 0 <= k < tokens@.len() && (#[trigger] tokens@[k])@ == other;
                        if k < before.len() {
                            assert(before[k]@ == other);
                        }
                    }
                    if listed(before, other) {
                        let k = choose|k: int| 0 <= k < before.len() && (#[trigger] before[k])@ == other;
                        assert(tokens@[k]@ == other);
                    }
                    if other == token@ {
                        assert(tokens@[tokens@.len() - 1]@ == other);
                    }
                }
                assert forall|i: int, j: int| 0 <= i < j < tokens@.len() implies (
                #[trigger] tokens@[i])@ != (#[trigger] tokens@[j])@ by {
                    assert(tokens@[i] == before[i]);
                    if j < before.len() {
                        assert(tokens@[j] == before[j]);
                    }
                }
            }
            core::mem::swap(&mut tokens, &mut self.tokens);
        }
    }

    /// Accepts a token no longer.
    pub fn remove_token(&mut self, token: &str)
        ensures
            final(self).enabled() == old(self).enabled(),
            final(self).prefix() == old(self).prefix(),
            forall|other: Seq<char>|
                listed(final(self).tokens(), other) <==> other != token@ && listed(
                    old(self).tokens(),
                    other,
                ),
            final(self).tokens().len() == if listed(old(self).tokens(), token@) {
                old(self).tokens().len() - 1
            } else {
                old(self).tokens().len() as int
            },
    {
        proof {
            use_type_invariant(&*self);
        }
        match position(&self.tokens, token) {
            Some(at) => {
                let mut tokens: Vec<String> = Vec::new();
                core::mem::swap(&mut tokens, &mut self.tokens);
                let ghost before = tokens@;
                let _ = tokens.remove(at);
                proof {
                    assert forall|i: int, j: int| 0 <= i < j < tokens@.len() implies (
                    #[trigger] tokens@[i])@ != (#[trigger] tokens@[j])@ by {
                        let i0 = if i < at { i } else { i + 1 };
                        let j0 = if j < at { j } else { j + 1 };
                        assert(tokens@[i] == before[i0] && tokens@[j] == before[j0]);
                    }
                    assert forall|other: Seq<char>| listed(tokens@, other) <==> other != token@
                        && listed(before, other) by {
                        if listed(tokens@, other) {
                            let k = choose|k: int| 0 <= k < tokens@.len() && (#[trigger] tokens@[k])@ == other;
                            let k0 = if k < at { k } else { k + 1 };
                            assert(tokens@[k] == before[k0]);
                            if k0 < at {
                                assert(before[k0]@ != before[at as int]@);
                            } else {
                                assert(before[at as int]@ != before[k0]@);
                            }
                        }
                        if other != token@ && listed(before, other) {
                            let k0 = choose|k: int| 0 <= k < before.len() && (#[trigger] before[k])@ == other;
                            let k = if k0 < at { k0 } else { k0 - 1 };
                            assert(tokens@[k] == before[k0]);
                        }
                    }
                }
                core::mem::swap(&mut tokens, &mut self.tokens);
            },
            None => {},
        }
    }

    /// Whether a token is accepted.
    pub fn has_token(&self, token: &str) -> (held: bool)
        ensures
            held == listed(self.tokens(), token@),
    {
        position(&self.tokens, token).is_some()
    }

    /// Number of accepted tokens.
    pub fn token_count(&self) -> (n: usize)
        ensures
            n == self.tokens().len(),
    {
        self.tokens.len()
    }
}

} // verus!
