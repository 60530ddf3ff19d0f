//! The session tokens of a client and the headers that carry them.
use vstd::prelude::*;

use crate::error::CapitalDotComError;

verus! {

/// Name of the response and request header that carries the account token.
pub const SECURITY_TOKEN_HEADER: &'static str = "X-SECURITY-TOKEN";

/// Name of the response and request header that carries the access token.
pub const CST_HEADER: &'static str = "CST";

/// Name of the request header that carries the API key.
pub const API_KEY_HEADER: &'static str = "X-CAP-API-KEY";

pub open spec fn is_ascii_upper(c: char) -> bool {
    'A' <= c <= 'Z'
}

/// Two characters are equal once ASCII letters are folded to lower case.
pub open spec fn chars_match_ignoring_case(a: char, b: char) -> bool {
    ||| a == b
    ||| is_ascii_upper(a) && a as u32 + 32 == b as u32
    ||| is_ascii_upper(b) && b as u32 + 32 == a as u32
}

/// Two header names are equal once ASCII letters are folded to lower case.
pub open spec fn names_match(a: Seq<char>, b: Seq<char>) -> bool {
    &&& a.len() == b.len()
    &&& forall|i: int| 0 <= i < a.len() ==> chars_match_ignoring_case(#[trigger] a[i], b[i])
}

/// The value of the first header whose name matches `name`, ignoring ASCII
/// case; the empty text where no header matches.
pub open spec fn header_value(headers: Seq<(Seq<char>, Seq<char>)>, name: Seq<char>) -> Seq<char>
    decreases headers.len(),
{
    if headers.len() == 0 {
        Seq::empty()
    } else if names_match(headers[0].0, name) {
        headers[0].1
    } else {
        header_value(headers.drop_first(), name)
    }
}

fn chars_match(a: char, b: char) -> (r: bool)
    ensures
        r == chars_match_ignoring_case(a, b),
{
    if a == b {
        true
    } else if 'A' <= a && a <= 'Z' {
        a as u32 + 32 == b as u32
    } else if 'A' <= b && b <= 'Z' {
        b as u32 + 32 == a as u32
    } else {
        false
    }
}

/// Whether two header names are equal once ASCII letters are folded to lower case.
pub fn header_name_matches(name: &str, target: &str) -> (r: bool)
    ensures
        r == names_match(name@, target@),
{
    let n = name.unicode_len();
    if n != target.unicode_len() {
        return false;
    }
    let mut i: usize = 0;
    while i < n
        invariant
            n == name@.len(),
            n == target@.len(),
            i <= n,
            forall|j: int| 0 <= j < i ==> chars_match_ignoring_case(#[trigger] name@[j], target@[j]),
        decreases n - i,
    {
        if !chars_match(name.get_char(i), target.get_char(i)) {
            return false;
        }
        i = i + 1;
    }
    true
}

/// The value of the first header named `name` (ignoring ASCII case), or the
/// empty text where there is none. Headers are kept as the ordered list the
/// transport received, so that a name is matched whatever its case and the
/// first of repeated values counts.
pub fn find_header(headers: &Vec<(String, String)>, name: &str) -> (r: String)
    ensures
        r@ == header_value(headers.deep_view(), name@),
{
    let ghost all = headers.deep_view();
    assert(all.subrange(0, all.len() as int) =~= all);
    let mut i: usize = 0;
    while i < headers.len()
        invariant
            all == headers.deep_view(),
            i <= headers.len(),
            header_value(all, name@) == header_value(all.subrange(i as int, all.len() as int), name@),
        decreases headers.len() - i,
    {
        let ghost rest = all.subrange(i as int, all.len() as int);
        assert(rest[0] == all[i as int]);
        assert(rest.drop_first() =~= all.subrange(i + 1, all.len() as int));
        if header_name_matches(headers[i].0.as_str(), name) {
            return headers[i].1.clone();
        }
        i = i + 1;
    }
    assert(all.subrange(i as int, all.len() as int).len() == 0);
    String::new()
}

/// The two tokens of a session. The empty text stands for "no token".
#[derive(Debug, Clone)]
pub struct SessionTokens {
    pub x_security_token: String,
    pub cst: String,
}

impl SessionTokens {
    /// A session holds credentials once either token is present.
    pub open spec fn is_authenticated(&self) -> bool {
        self.x_security_token@.len() > 0 || self.cst@.len() > 0
    }

    /// The tokens that a login answer with the headers `headers` leaves behind.
    pub open spec fn taken_from(&self, headers: Seq<(Seq<char>, Seq<char>)>) -> bool {
        &&& self.x_security_token@ == header_value(headers, SECURITY_TOKEN_HEADER@)
        &&& self.cst@ == header_value(headers, CST_HEADER@)
    }

    /// No session yet: both tokens empty.
    pub fn new() -> (r: Self)
        ensures
            r.x_security_token@.len() == 0,
            r.cst@.len() == 0,
            !r.is_authenticated(),
    {
        SessionTokens { x_security_token: String::new(), cst: String::new() }
    }

    /// Fails with `MissingAuthorization` exactly when both tokens are empty.
    pub fn has_credentials(&self) -> (r: Result<(), CapitalDotComError>)
        ensures
            r is Ok <==> self.is_authenticated(),
            r matches Err(e) ==> e is MissingAuthorization,
    {
        if !self.x_security_token.as_str().is_empty() || !self.cst.as_str().is_empty() {
            Ok(())
        } else {
            Err(CapitalDotComError::MissingAuthorization)
        }
    }

    /// Replaces both tokens by the values of the token headers of a login
    /// answer. A header that is missing leaves its token empty.
    pub fn update_auth(&mut self, headers: &Vec<(String, String)>)
        ensures
            final(self).taken_from(headers.deep_view()),
    {
        self.x_security_token = find_header(headers, SECURITY_TOKEN_HEADER);
        self.cst = find_header(headers, CST_HEADER);
    }

    /// The headers that authenticate a request: the account token, then the
    /// access token.
    pub fn auth_headers(&self) -> (r: Vec<(String, String)>)
        ensures
            r.deep_view() == seq![
                (SECURITY_TOKEN_HEADER@, self.x_security_token@),
                (CST_HEADER@, self.cst@),
            ],
    {
        let mut headers: Vec<(String, String)> = Vec::new();
        headers.push((SECURITY_TOKEN_HEADER.to_owned(), self.x_security_token.clone()));
        headers.push((CST_HEADER.to_owned(), self.cst.clone()));
        assert(headers.deep_view() =~= seq![
            (SECURITY_TOKEN_HEADER@, self.x_security_token@),
            (CST_HEADER@, self.cst@),
        ]);
        headers
    }
}

} // verus!
