use vstd::prelude::*;

use crate::auth::{
    auth_outcome, bearer_scheme, eq_ignore_ascii_case, expected_rejection, extract_spec,
    is_header_text, rejection_status, words, ascii_chars, AuthError, Reply,
};

verus! {

/// A request without an `Authorization` header is turned away with 401.
pub proof fn lemma_missing_header_rejected(expected: Seq<char>)
    ensures
        auth_outcome(None, expected) == Err::<(), AuthError>(AuthError::MissingAuthHeader),
        rejection_status(None, expected) == Some(401u16),
{
}

/// A header of zero or one word, or whose first word is not `bearer` in any case,
/// is turned away with 422.
pub proof fn lemma_malformed_header_rejected(header: Seq<u8>, expected: Seq<char>)
    requires
        words(header).len() <= 1 || !eq_ignore_ascii_case(words(header)[0], bearer_scheme()),
    ensures
        auth_outcome(Some(header), expected) == Err::<(), AuthError>(AuthError::InvalidAuthHeader),
        rejection_status(Some(header), expected) == Some(422u16),
{
}

/// A header with a byte that is neither visible ASCII nor a tab is turned away with 422.
pub proof fn lemma_non_text_header_rejected(header: Seq<u8>, expected: Seq<char>)
    requires
        !is_header_text(header),
    ensures
        rejection_status(Some(header), expected) == Some(422u16),
{
}

/// A well-formed `bearer <token>` header whose token differs from the secret is
/// turned away with 401.
pub proof fn lemma_wrong_token_rejected(header: Seq<u8>, expected: Seq<char>)
    requires
        is_header_text(header),
        words(header).len() == 2,
        eq_ignore_ascii_case(words(header)[0], bearer_scheme()),
        ascii_chars(words(header)[1]) != expected,
    ensures
        extract_spec(Some(header)) == Ok::<Seq<char>, AuthError>(ascii_chars(words(header)[1])),
        auth_outcome(Some(header), expected) == Err::<(), AuthError>(AuthError::InvalidToken),
        rejection_status(Some(header), expected) == Some(401u16),
{
}

/// A well-formed `bearer <token>` header whose token is the secret lets the request through.
pub proof fn lemma_right_token_forwarded(header: Seq<u8>, expected: Seq<char>)
    requires
        is_header_text(header),
        words(header).len() == 2,
        eq_ignore_ascii_case(words(header)[0], bearer_scheme()),
        ascii_chars(words(header)[1]) == expected,
    ensures
        auth_outcome(Some(header), expected) == Ok::<(), AuthError>(()),
        rejection_status(Some(header), expected) is None,
        expected_rejection(Some(header), expected) is None,
{
}

/// Two replies to the same header under the same secret agree: both go through, or
/// both are the same rejection.
pub proof fn lemma_same_request_same_reply<R>(
    header: Option<Seq<u8>>,
    expected: Seq<char>,
    first: Reply<R>,
    second: Reply<R>,
)
    requires
        first.rejection_view() == expected_rejection(header, expected),
        second.rejection_view() == expected_rejection(header, expected),
    ensures
        first.rejection_view() == second.rejection_view(),
        (first is Forwarded) == (second is Forwarded),
{
}

} // verus!
