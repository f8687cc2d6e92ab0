//! The HTTP method of a request.

use vstd::prelude::*;
use crate::auth::opt_view;
use crate::text::{chars_of, same_chars};

verus! {

/// The methods that a request can go out with.
#[derive(Clone, Copy, Debug, PartialEq, Eq, Structural)]
pub enum HttpMethod {
    Get,
    Post,
    Put,
    Delete,
}

/// What `str::to_uppercase` makes of `s`.
pub uninterp spec fn uppercase(s: Seq<char>) -> Seq<char>;

/// The method that an upper-case name stands for: `GET` where it is none of
/// `POST`, `PUT` and `DELETE`.
pub open spec fn method_named(upper: Seq<char>) -> HttpMethod {
    if upper == "POST"@ {
        HttpMethod::Post
    } else if upper == "PUT"@ {
        HttpMethod::Put
    } else if upper == "DELETE"@ {
        HttpMethod::Delete
    } else {
        HttpMethod::Get
    }
}

/// The method of a request: `GET` where none is asked for, else the one that
/// the name stands for once in upper case.
pub open spec fn method_of(method: Option<Seq<char>>) -> HttpMethod {
    match method {
        Some(name) => method_named(uppercase(name)),
        None => HttpMethod::Get,
    }
}

/// `str::to_uppercase`: the string in upper case, by Unicode's rules. The
/// result depends on the characters alone.
#[verifier::external_body]
fn to_uppercase(s: &str) -> (r: String)
    ensures
        r@ == uppercase(s@),
{
    s.to_uppercase()
}

impl HttpMethod {
    /// The name of the method, in upper case.
    pub open spec fn name_spec(self) -> Seq<char> {
        match self {
            HttpMethod::Get => "GET"@,
            HttpMethod::Post => "POST"@,
            HttpMethod::Put => "PUT"@,
            HttpMethod::Delete => "DELETE"@,
        }
    }

    /// The name of the method, in upper case.
    pub fn name(self) -> (r: &'static str)
        ensures
            r@ == self.name_spec(),
    {
        match self {
            HttpMethod::Get => "GET",
            HttpMethod::Post => "POST",
            HttpMethod::Put => "PUT",
            HttpMethod::Delete => "DELETE",
        }
    }
}

/// The method that an upper-case name stands for.
pub fn method_from_upper(upper: &str) -> (m: HttpMethod)
    ensures
        m == method_named(upper@),
{
    let name: Vec<char> = chars_of(upper);
    if same_chars(&name, &chars_of("POST")) {
        HttpMethod::Post
    } else if same_chars(&name, &chars_of("PUT")) {
        HttpMethod::Put
    } else if same_chars(&name, &chars_of("DELETE")) {
        HttpMethod::Delete
    } else {
        HttpMethod::Get
    }
}

/// The method of a request. Names are taken in any case; a name that is none
/// of the four falls back to `GET` without complaint.
pub fn request_method(method: Option<&str>) -> (m: HttpMethod)
    ensures
        m == method_of(opt_view(method)),
{
    match method {
        Some(name) => method_from_upper(to_uppercase(name).as_str()),
        None => HttpMethod::Get,
    }
}

/// A method's own name stands for it.
pub proof fn lemma_name_stands_for_method(m: HttpMethod)
    ensures
        method_named(m.name_spec()) == m,
{
    reveal_strlit("GET");
    reveal_strlit("POST");
    reveal_strlit("PUT");
    reveal_strlit("DELETE");
    assert("GET"@.len() == 3 && "PUT"@.len() == 3 && "POST"@.len() == 4 && "DELETE"@.len() == 6);
    assert("GET"@[0] == 'G' && "PUT"@[0] == 'P');
}

} // verus!
