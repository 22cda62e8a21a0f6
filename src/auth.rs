use vstd::prelude::*;
use vstd::string::StringExecFns;

use crate::state::AppState;

verus! {

/// `true` for the ASCII characters that `char::is_whitespace` accepts.
pub open spec fn is_space(b: u8) -> bool {
    b == 9 || b == 10 || b == 11 || b == 12 || b == 13 || b == 32
}

/// A header byte that may appear in header text: visible ASCII or a tab.
pub open spec fn is_visible(b: u8) -> bool {
    (32 <= b && b < 127) || b == 9
}

/// A header value reads as text when every byte is visible ASCII or a tab.
pub open spec fn is_header_text(s: Seq<u8>) -> bool {
    forall|i: int| 0 <= i < s.len() ==> is_visible(#[trigger] s[i])
}

/// The maximal runs of non-space bytes of `s`, left to right.
pub open spec fn words(s: Seq<u8>) -> Seq<Seq<u8>>
    decreases s.len(),
{
    if s.len() == 0 {
        Seq::empty()
    } else {
        let prev = words(s.drop_last());
        let c = s.last();
        if is_space(c) {
            prev
        } else if s.len() > 1 && !is_space(s[s.len() - 2]) && prev.len() > 0 {
            prev.update(prev.len() - 1, prev.last().push(c))
        } else {
            prev.push(seq![c])
        }
    }
}

pub open spec fn ascii_lower(b: u8) -> u8 {
    if 65 <= b && b <= 90 {
        (b + 32) as u8
    } else {
        b
    }
}

pub open spec fn eq_ignore_ascii_case(a: Seq<u8>, b: Seq<u8>) -> bool {
    a.len() == b.len() && forall|i: int| 0 <= i < a.len() ==> ascii_lower(#[trigger] a[i]) == ascii_lower(b[i])
}

/// The scheme word `bearer`, in bytes.
pub open spec fn bearer_scheme() -> Seq<u8> {
    seq![98u8, 101u8, 97u8, 114u8, 101u8, 114u8]
}

/// The characters that a run of ASCII bytes reads as.
pub open spec fn ascii_chars(s: Seq<u8>) -> Seq<char> {
    s.map_values(|b: u8| b as char)
}

/// Why a request was turned away.
#[derive(Clone, Copy, Debug, PartialEq, Eq, Structural)]
pub enum AuthError {
    MissingAuthHeader,
    InvalidAuthHeader,
    InvalidToken,
}

/// What the credential extractor yields for an `Authorization` header given as raw bytes.
pub open spec fn extract_spec(header: Option<Seq<u8>>) -> Result<Seq<char>, AuthError> {
    match header {
        None => Err(AuthError::MissingAuthHeader),
        Some(b) => if is_header_text(b) && words(b).len() == 2 && eq_ignore_ascii_case(
            words(b)[0],
            bearer_scheme(),
        ) {
            Ok(ascii_chars(words(b)[1]))
        } else {
            Err(AuthError::InvalidAuthHeader)
        },
    }
}

pub open spec fn header_view(header: Option<&[u8]>) -> Option<Seq<u8>> {
    match header {
        Some(b) => Some(b@),
        None => None,
    }
}

fn header_is_text(s: &[u8]) -> (r: bool)
    ensures
        r == is_header_text(s@),
{
    let mut i: usize = 0;
    while i < s.len()
        invariant
            0 <= i <= s@.len(),
            forall|k: int| 0 <= k < i ==> is_visible(#[trigger] s@[k]),
        decreases s@.len() - i,
    {
        let b = s[i];
        if !((32 <= b && b < 127) || b == 9) {
            return false;
        }
        i = i + 1;
    }
    true
}

fn is_space_byte(b: u8) -> (r: bool)
    ensures
        r == is_space(b),
{
    b == 9 || b == 10 || b == 11 || b == 12 || b == 13 || b == 32
}

pub open spec fn words_view(v: Seq<Vec<u8>>) -> Seq<Seq<u8>> {
    v.map_values(|w: Vec<u8>| w@)
}

/// Splits `s` into its whitespace-separated words.
fn split_words(s: &[u8]) -> (r: Vec<Vec<u8>>)
    ensures
        words_view(r@) == words(s@),
{
    let mut out: Vec<Vec<u8>> = Vec::new();
    let mut i: usize = 0;
    while i < s.len()
        invariant
            0 <= i <= s@.len(),
            words_view(out@) == words(s@.subrange(0, i as int)),
        decreases s@.len() - i,
    {
        let c = s[i];
        let ghost pre = s@.subrange(0, i as int);
        let ghost cur = s@.subrange(0, i + 1);
        assert(cur.drop_last() == pre);
        assert(cur.last() == c);
        if is_space_byte(c) {
        } else if i > 0 && !is_space_byte(s[i - 1]) && out.len() > 0 {
            assert(cur[cur.len() - 2] == s@[i - 1]);
            let mut last = out.pop().unwrap();
            last.push(c);
            out.push(last);
            assert(words_view(out@) =~= words(cur));
        } else {
            assert(i > 0 ==> cur[cur.len() - 2] == s@[i - 1]);
            let mut w: Vec<u8> = Vec::new();
            w.push(c);
            assert(w@ =~= seq![c]);
            assert(out@.len() == words(pre).len());
            out.push(w);
            assert(words_view(out@) =~= words(cur));
        }
        i = i + 1;
    }
    assert(s@.subrange(0, s@.len() as int) == s@);
    out
}

fn lower_byte(b: u8) -> (r: u8)
    ensures
        r == ascii_lower(b),
{
    if 65 <= b && b <= 90 {
        b + 32
    } else {
        b
    }
}

fn bytes_eq_ignore_case(a: &Vec<u8>, b: &Vec<u8>) -> (r: bool)
    ensures
        r == eq_ignore_ascii_case(a@, b@),
{
    if a.len() != b.len() {
        return false;
    }
    let mut i: usize = 0;
    while i < a.len()
        invariant
            0 <= i <= a@.len(),
            a@.len() == b@.len(),
            forall|k: int| 0 <= k < i ==> ascii_lower(#[trigger] a@[k]) == ascii_lower(b@[k]),
        decreases a@.len() - i,
    {
        if lower_byte(a[i]) != lower_byte(b[i]) {
            return false;
        }
        i = i + 1;
    }
    true
}

/// Relies on `String::from_utf8`: ASCII bytes are valid UTF-8, one character per byte.
#[verifier::external_body]
fn ascii_to_string(bytes: Vec<u8>) -> (r: String)
    requires
        forall|i: int| 0 <= i < bytes@.len() ==> #[trigger] bytes@[i] < 128,
    ensures
        r@ == ascii_chars(bytes@),
{
    match String::from_utf8(bytes) {
        Ok(s) => s,
        Err(_) => String::new(),
    }
}

/// Reads the bearer token out of an `Authorization` header value given as raw bytes.
pub fn extract_token_from_header(header: Option<&[u8]>) -> (r: Result<String, AuthError>)
    ensures
        match r {
            Ok(t) => extract_spec(header_view(header)) == Ok::<Seq<char>, AuthError>(t@),
            Err(e) => extract_spec(header_view(header)) == Err::<Seq<char>, AuthError>(e),
        },
{
    match header {
        None => Err(AuthError::MissingAuthHeader),
        Some(b) => {
            if !header_is_text(b) {
                return Err(AuthError::InvalidAuthHeader);
            }
            let mut parts = split_words(b);
            let scheme: Vec<u8> = vec![98u8, 101u8, 97u8, 114u8, 101u8, 114u8];
            assert(scheme@ =~= bearer_scheme());
            if parts.len() == 2 && bytes_eq_ignore_case(&parts[0], &scheme) {
                let token = parts.pop().unwrap();
                assert(token@ == words(b@)[1]);
                assert forall|i: int| 0 <= i < token@.len() implies #[trigger] token@[i] < 128 by {
                    lemma_word_bytes_from_text(b@, 1, i);
                }
                let t = ascii_to_string(token);
                Ok(t)
            } else {
                Err(AuthError::InvalidAuthHeader)
            }
        }
    }
}

/// Every byte of every word of a header text is a byte of that text, hence visible.
proof fn lemma_word_bytes_from_text(s: Seq<u8>, k: int, i: int)
    requires
        is_header_text(s),
        0 <= k < words(s).len(),
        0 <= i < words(s)[k].len(),
    ensures
        is_visible(words(s)[k][i]),
    decreases s.len(),
{
    let prev = words(s.drop_last());
    let c = s.last();
    assert(is_visible(s[s.len() - 1]));
    assert(is_header_text(s.drop_last()));
    if is_space(c) {
        lemma_word_bytes_from_text(s.drop_last(), k, i);
    } else if s.len() > 1 && !is_space(s[s.len() - 2]) && prev.len() > 0 {
        if k == prev.len() - 1 && i == prev.last().len() {
        } else {
            lemma_word_bytes_from_text(s.drop_last(), k, i);
        }
    } else {
        if k < prev.len() {
            lemma_word_bytes_from_text(s.drop_last(), k, i);
        }
    }
}

impl AuthError {
    pub open spec fn message_spec(self) -> Seq<char> {
        match self {
            AuthError::MissingAuthHeader => "Missing authorization header"@,
            AuthError::InvalidAuthHeader => "Invalid authorization header"@,
            AuthError::InvalidToken => "Invalid openai api key"@,
        }
    }

    /// The HTTP status of the response that reports this error.
    pub open spec fn status_spec(self) -> u16 {
        match self {
            AuthError::InvalidAuthHeader => 422,
            AuthError::MissingAuthHeader | AuthError::InvalidToken => 401,
        }
    }

    pub fn message(&self) -> (r: &'static str)
        ensures
            r@ == self.message_spec(),
    {
        match self {
            AuthError::MissingAuthHeader => "Missing authorization header",
            AuthError::InvalidAuthHeader => "Invalid authorization header",
            AuthError::InvalidToken => "Invalid openai api key",
        }
    }

    pub fn status_code(&self) -> (r: u16)
        ensures
            r == self.status_spec(),
    {
        match self {
            AuthError::InvalidAuthHeader => 422,
            AuthError::MissingAuthHeader | AuthError::InvalidToken => 401,
        }
    }
}

/// The envelope `{ message, data }` of every response that the middleware writes itself.
pub struct ResponseBody<T> {
    pub message: String,
    pub data: T,
}

impl<T> ResponseBody<T> {
    pub fn new(message: &str, data: T) -> (r: ResponseBody<T>)
        ensures
            r.message@ == message@,
            r.data == data,
    {
        ResponseBody { message: String::from_str(message), data }
    }
}

/// A response written by the middleware in place of the inner handler's.
pub struct Rejection {
    pub status: u16,
    pub body: ResponseBody<String>,
}

impl Rejection {
    /// This rejection reports `e`: its status, its message, and empty data.
    pub open spec fn reports(&self, e: AuthError) -> bool {
        &&& self.status == e.status_spec()
        &&& self.body.message@ == e.message_spec()
        &&& self.body.data@ == Seq::<char>::empty()
    }
}

/// Builds the response that reports `error`.
pub fn unauthorized(error: AuthError) -> (r: Rejection)
    ensures
        r.reports(error),
{
    Rejection {
        status: error.status_code(),
        body: ResponseBody::new(error.message(), String::new()),
    }
}

/// The decision for a request: let it through, or turn it away for a reason.
pub open spec fn auth_outcome(header: Option<Seq<u8>>, expected: Seq<char>) -> Result<(), AuthError> {
    match extract_spec(header) {
        Err(e) => Err(e),
        Ok(t) => if t == expected {
            Ok(())
        } else {
            Err(AuthError::InvalidToken)
        },
    }
}

/// The status of the response written in place of the inner handler's, or `None`
/// where the request goes through.
pub open spec fn rejection_status(header: Option<Seq<u8>>, expected: Seq<char>) -> Option<u16> {
    match auth_outcome(header, expected) {
        Ok(()) => None,
        Err(e) => Some(e.status_spec()),
    }
}

/// Decides whether a request with this `Authorization` header may pass.
pub fn authorize(header: Option<&[u8]>, expected: &String) -> (r: Result<(), AuthError>)
    ensures
        r == auth_outcome(header_view(header), expected@),
{
    match extract_token_from_header(header) {
        Err(e) => Err(e),
        Ok(token) => {
            if token == *expected {
                Ok(())
            } else {
                Err(AuthError::InvalidToken)
            }
        }
    }
}

/// What the middleware answers: the inner handler's response, or its own.
pub enum Reply<R> {
    Forwarded(R),
    Rejected(Rejection),
}

impl<R> Reply<R> {
    /// The status, message and data of a rejection; `None` for a forwarded response.
    pub open spec fn rejection_view(&self) -> Option<(u16, Seq<char>, Seq<char>)> {
        match self {
            Reply::Forwarded(_) => None,
            Reply::Rejected(x) => Some((x.status, x.body.message@, x.body.data@)),
        }
    }
}

/// What a reply to a request with this header shows when it is a rejection.
pub open spec fn expected_rejection(header: Option<Seq<u8>>, expected: Seq<char>) -> Option<(u16, Seq<char>, Seq<char>)> {
    match auth_outcome(header, expected) {
        Ok(()) => None,
        Err(e) => Some((e.status_spec(), e.message_spec(), Seq::<char>::empty())),
    }
}

/// Builds middlewares that check requests against the configured secret.
pub struct AuthLayer {
    pub state: AppState,
}

impl AuthLayer {
    pub fn new_with_state(state: AppState) -> (r: AuthLayer)
        ensures
            r.state == state,
    {
        AuthLayer { state }
    }

    /// Wraps `inner` in a middleware that shares this layer's settings.
    pub fn layer<S>(&self, inner: S) -> (r: AuthMiddleware<S>)
        ensures
            r.inner == inner,
            r.secret() == self.state.config.openai_api_key@,
    {
        AuthMiddleware { inner, state: self.state.clone() }
    }
}

/// Wraps an inner handler, and lets only requests that carry the configured secret reach it.
pub struct AuthMiddleware<S> {
    pub inner: S,
    pub state: AppState,
}

impl<S> AuthMiddleware<S> {
    pub open spec fn secret(&self) -> Seq<char> {
        self.state.config.openai_api_key@
    }

    pub fn new(inner: S, state: AppState) -> (r: AuthMiddleware<S>)
        ensures
            r.inner == inner,
            r.state == state,
    {
        AuthMiddleware { inner, state }
    }

    /// Handles one request, whose `Authorization` header is `header`. `forward` hands
    /// `req` to the inner handler. It is called, once and with `req` itself, only
    /// where the header carries the secret; its result is then returned unchanged.
    /// Otherwise the reply is the rejection for the reason, and `forward` is
    /// dropped uncalled: nothing about it is required on that path.
    pub fn handle<Req, Resp, F: FnOnce(Req) -> Resp>(&self, header: Option<&[u8]>, req: Req, forward: F) -> (r: Reply<Resp>)
        requires
            auth_outcome(header_view(header), self.secret()) is Ok ==> forward.requires((req,)),
        ensures
            r.rejection_view() == expected_rejection(header_view(header), self.secret()),
            match auth_outcome(header_view(header), self.secret()) {
                Ok(()) => r matches Reply::Forwarded(resp) && forward.ensures((req,), resp),
                Err(e) => r matches Reply::Rejected(x) && x.reports(e),
            },
    {
        match authorize(header, &self.state.config.openai_api_key) {
            Ok(()) => Reply::Forwarded(forward(req)),
            Err(e) => Reply::Rejected(unauthorized(e)),
        }
    }
}

} // verus!
