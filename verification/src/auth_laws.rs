//! What holds of the choice of the `Authorization` header.

use vstd::prelude::*;
use crate::auth::{auth_header, bearer_credentials, chosen_scheme, is_preformatted};
use crate::text::{is_whitespace, starts_with, trimmed};
use crate::text_laws::{lemma_trimmed_fixed, lemma_trimmed_idempotent};
use crate::url::is_cloud;

verus! {

/// For Jira, a token that is a complete header value once trimmed passes as
/// that value, whatever scheme the caller asked for and wherever the request
/// goes.
pub proof fn lemma_preformatted_token_passes(
    auth_type: Option<Seq<char>>,
    email: Seq<char>,
    api_token: Seq<char>,
    target_url: Seq<char>,
)
    requires
        is_preformatted(trimmed(api_token)),
    ensures
        auth_header(false, auth_type, email, api_token, target_url) == trimmed(api_token),
{
}

/// For Jira, a complete header value that does not end in whitespace passes
/// unchanged.
pub proof fn lemma_preformatted_token_unchanged(
    auth_type: Option<Seq<char>>,
    email: Seq<char>,
    api_token: Seq<char>,
    target_url: Seq<char>,
)
    requires
        is_preformatted(api_token),
        !is_whitespace(api_token.last()),
    ensures
        auth_header(false, auth_type, email, api_token, target_url) == api_token,
{
    reveal_strlit("Basic ");
    reveal_strlit("Bearer ");
    if starts_with(api_token, "Basic "@) {
        assert(api_token.subrange(0, 6)[0] == api_token[0]);
    } else {
        assert(api_token.subrange(0, 7)[0] == api_token[0]);
    }
    assert(api_token[0] == 'B');
    lemma_trimmed_fixed(api_token);
}

/// For Jira, the header depends on the token only through its trimmed form.
pub proof fn lemma_header_of_trimmed_token(
    auth_type: Option<Seq<char>>,
    email: Seq<char>,
    api_token: Seq<char>,
    target_url: Seq<char>,
)
    ensures
        auth_header(false, auth_type, email, trimmed(api_token), target_url) == auth_header(
            false,
            auth_type,
            email,
            api_token,
            target_url,
        ),
{
    lemma_trimmed_idempotent(api_token);
}

/// The header depends on the target only through whether it points at the
/// hosted service.
pub proof fn lemma_header_by_kind_of_target(
    is_tempo: bool,
    auth_type: Option<Seq<char>>,
    email: Seq<char>,
    api_token: Seq<char>,
    first_url: Seq<char>,
    second_url: Seq<char>,
)
    requires
        is_cloud(first_url) == is_cloud(second_url),
    ensures
        auth_header(is_tempo, auth_type, email, api_token, first_url) == auth_header(
            is_tempo,
            auth_type,
            email,
            api_token,
            second_url,
        ),
{
}

/// Where the caller names a scheme, the target has no say.
pub proof fn lemma_named_scheme_decides(
    auth_type: Seq<char>,
    first_url: Seq<char>,
    second_url: Seq<char>,
)
    requires
        auth_type == "basic"@ || auth_type == "bearer"@,
    ensures
        chosen_scheme(Some(auth_type), first_url) == chosen_scheme(Some(auth_type), second_url),
{
}

/// Tempo is always handed the token as a bearer token, as it came.
pub proof fn lemma_tempo_takes_bearer(
    auth_type: Option<Seq<char>>,
    email: Seq<char>,
    api_token: Seq<char>,
    target_url: Seq<char>,
)
    ensures
        auth_header(true, auth_type, email, api_token, target_url) == bearer_credentials(
            api_token,
        ),
{
}

} // verus!
