//! The token codec: the app-token parser used by the authentication
//! workflows, and the legacy session parser kept for read-only
//! compatibility. The two strategies never mix within one call; a caller
//! picks one, and the variant of [`ApiToken`] records which one produced it.

use vstd::prelude::*;

use crate::errors::{ClientError, ErrorKind};
use crate::strings::{
    contains_char, find_char, has_app_prefix, is_space_char, lemma_trimmed_identity,
    lemma_trimmed_keeps, starts_with_app_prefix, trim_str, trimmed,
};

verus! {

/// A validated credential. The `App` variant carries a bare token and no
/// session material; the `Session` variant is produced only by the legacy
/// parser and may carry a cookie header.
#[derive(Debug)]
pub enum ApiToken {
    App { value: String },
    Session { value: String, cookie: Option<String> },
}

/// The parts of a legacy `"<token>:<cookie>"` credential string.
#[derive(Debug)]
pub struct SessionTokenParts {
    pub token: String,
    pub cookie: Option<String>,
}

/// The view of an optional string.
pub open spec fn opt_str_view(o: Option<String>) -> Option<Seq<char>> {
    match o {
        Some(s) => Some(s@),
        None => None,
    }
}

impl ApiToken {
    /// The secret value the token authenticates with.
    pub open spec fn secret_view(&self) -> Seq<char> {
        match self {
            ApiToken::App { value } => value@,
            ApiToken::Session { value, cookie: _ } => value@,
        }
    }

    /// The session cookie, carried only by the legacy variant.
    pub open spec fn cookie_view(&self) -> Option<Seq<char>> {
        match self {
            ApiToken::App { value: _ } => None,
            ApiToken::Session { value: _, cookie } => opt_str_view(*cookie),
        }
    }

    /// Whether this token came from the app-token parser.
    pub open spec fn spec_is_app(&self) -> bool {
        match self {
            ApiToken::App { value: _ } => true,
            ApiToken::Session { .. } => false,
        }
    }

    /// The secret value the token authenticates with.
    pub fn secret(&self) -> (r: &str)
        ensures
            r@ == self.secret_view(),
    {
        match self {
            ApiToken::App { value } => value.as_str(),
            ApiToken::Session { value, cookie: _ } => value.as_str(),
        }
    }

    /// Whether this token came from the app-token parser.
    pub fn is_app(&self) -> (r: bool)
        ensures
            r == self.spec_is_app(),
    {
        match self {
            ApiToken::App { value: _ } => true,
            ApiToken::Session { .. } => false,
        }
    }
}

/// A copy of an optional string, equal to the original.
pub fn clone_opt_string(o: &Option<String>) -> (r: Option<String>)
    ensures
        r == *o,
{
    match o {
        Some(s) => Some(s.clone()),
        None => None,
    }
}

impl Clone for ApiToken {
    /// An equal copy of the token.
    fn clone(&self) -> (r: Self)
        ensures
            r == *self,
    {
        match self {
            ApiToken::App { value } => ApiToken::App { value: value.clone() },
            ApiToken::Session { value, cookie } => ApiToken::Session {
                value: value.clone(),
                cookie: clone_opt_string(cookie),
            },
        }
    }
}

/// What `redact` shows of a credential string: nothing of a short one, and
/// of a longer one the first six and last four characters only.
pub open spec fn redacted(s: Seq<char>) -> Seq<char> {
    let t = trimmed(s);
    if t.len() <= 10 {
        "<redacted>"@
    } else {
        t.subrange(0, 6) + "\u{2026}"@ + t.subrange(t.len() - 4, t.len() as int)
    }
}

/// A rendering of a credential string that is safe to put in an error
/// message or a log line.
pub fn redact(token: &str) -> (r: String)
    ensures
        r@ == redacted(token@),
{
    let t = trim_str(token);
    let len = t.unicode_len();
    if len <= 10 {
        String::from_str("<redacted>")
    } else {
        let mut r = String::from_str(t.substring_char(0, 6));
        r.append("\u{2026}");
        r.append(t.substring_char(len - 4, len));
        r
    }
}

/// The app-token path of the codec: accepts a single token string with a
/// recognized prefix, and rejects the legacy token-and-cookie form.
///
/// The returned token carries the trimmed input unchanged and no session
/// material. Each rejection is tied exactly to its cause: `EmptyToken` when
/// nothing is left after trimming, `LegacyFormatRejected` when a `:` occurs
/// anywhere, `UnrecognizedPrefix` when the string starts with neither
/// accepted prefix. The error context never holds the full secret.
pub fn parse_app_token(raw: &str) -> (r: Result<ApiToken, ClientError>)
    ensures
        ({
            let t = trimmed(raw@);
            match r {
                Ok(tok) => t.len() > 0 && !t.contains(':') && has_app_prefix(t)
                    && tok.spec_is_app() && tok.secret_view() == t && tok.cookie_view() is None,
                Err(e) => {
                    &&& (e.kind == ErrorKind::EmptyToken <==> t.len() == 0)
                    &&& (e.kind == ErrorKind::LegacyFormatRejected <==> t.len() > 0 && t.contains(
                        ':',
                    ))
                    &&& (e.kind == ErrorKind::UnrecognizedPrefix <==> t.len() > 0 && !t.contains(
                        ':',
                    ) && !has_app_prefix(t))
                    &&& (e.kind != ErrorKind::EmptyToken ==> e.context@ == redacted(raw@))
                    &&& (e.kind == ErrorKind::EmptyToken ==> e.context@ == Seq::<char>::empty())
                },
            }
        }),
        r is Err <==> (trimmed(raw@).len() == 0 || trimmed(raw@).contains(':') || !has_app_prefix(
            trimmed(raw@),
        )),
{
    let t = trim_str(raw);
    if t.unicode_len() == 0 {
        return Err(ClientError::bare(ErrorKind::EmptyToken));
    }
    if contains_char(t, ':') {
        return Err(ClientError::new(ErrorKind::LegacyFormatRejected, redact(raw)));
    }
    if !starts_with_app_prefix(t) {
        return Err(ClientError::new(ErrorKind::UnrecognizedPrefix, redact(raw)));
    }
    Ok(ApiToken::App { value: t.to_owned() })
}

/// The legacy session parser: splits at the first `:`, trims both halves,
/// and normalizes a bare cookie value to the well-known `d=` field.
///
/// A missing or empty cookie half yields no cookie; a cookie half without
/// `=` is reformatted as `d=<value>`; anything else is taken verbatim as an
/// already-formatted cookie header.
pub fn parse_session_token(input: &str) -> (r: SessionTokenParts)
    ensures
        ({
            let t = trimmed(input@);
            match t.index_of_first(':') {
                None => r.token@ == t && r.cookie is None,
                Some(i) => {
                    let tok = trimmed(t.subrange(0, i));
                    let ck = trimmed(t.subrange(i + 1, t.len() as int));
                    &&& r.token@ == tok
                    &&& (ck.len() == 0 ==> r.cookie is None)
                    &&& (ck.len() > 0 && !ck.contains('=') ==> (r.cookie matches Some(c) && c@
                        == "d="@ + ck))
                    &&& (ck.len() > 0 && ck.contains('=') ==> (r.cookie matches Some(c) && c@
                        == ck))
                },
            }
        }),
{
    let t = trim_str(input);
    proof {
        t@.index_of_first_ensures(':');
    }
    match find_char(t, ':') {
        None => SessionTokenParts { token: t.to_owned(), cookie: None },
        Some(i) => {
            proof {
                assert(t@.contains(':')) by {
                    assert(t@[i as int] == ':');
                }
                let j = t@.index_of_first(':').unwrap();
                assert(t@[j] == ':');
                assert(j == i as int) by {
                    if j < i as int {
                        assert(t@[j] != ':');
                    }
                    if j > i as int {
                        assert(t@[i as int] != ':');
                    }
                };
            }
            let len = t.unicode_len();
            let token = trim_str(t.substring_char(0, i)).to_owned();
            let ck = trim_str(t.substring_char(i + 1, len));
            let ck_len = ck.unicode_len();
            if ck_len == 0 {
                SessionTokenParts { token, cookie: None }
            } else if !contains_char(ck, '=') {
                let mut cookie = String::from_str("d=");
                cookie.append(ck);
                SessionTokenParts { token, cookie: Some(cookie) }
            } else {
                SessionTokenParts { token, cookie: Some(ck.to_owned()) }
            }
        },
    }
}

/// Build a credential of the legacy session strategy from parsed parts.
pub fn build_slack_token(parts: &SessionTokenParts) -> (r: ApiToken)
    ensures
        !r.spec_is_app(),
        r.secret_view() == parts.token@,
        r.cookie_view() == opt_str_view(parts.cookie),
{
    ApiToken::Session { value: parts.token.clone(), cookie: clone_opt_string(&parts.cookie) }
}

/// Law: a credential string with an accepted prefix, no `:` and no trailing
/// whitespace is its own trim, so by the contract of `parse_app_token` it
/// decodes successfully into a token that carries the string unchanged.
pub proof fn lemma_app_token_round_trip(s: Seq<char>)
    requires
        has_app_prefix(s),
        !s.contains(':'),
        !is_space_char(s.last()),
    ensures
        trimmed(s) == s,
        trimmed(s).len() > 0,
        !trimmed(s).contains(':'),
        has_app_prefix(trimmed(s)),
{
    lemma_trimmed_identity(s);
}

/// Law: a credential string that contains `:` anywhere still contains it
/// after trimming, so by the contract of `parse_app_token` it is always
/// rejected with `LegacyFormatRejected`, whatever else it holds.
pub proof fn lemma_colon_always_legacy(s: Seq<char>)
    requires
        s.contains(':'),
    ensures
        trimmed(s).contains(':'),
        trimmed(s).len() > 0,
{
    lemma_trimmed_keeps(s, ':');
}

} // verus!
