//! Routing of an API request: the server it addresses, the supervisor method
//! it names and the call that its parameters make.

use vstd::prelude::*;
use vstd::string::*;
use vstd::utf8::is_ascii_chars;
use crate::api::{ApiMethod, RpcCall, method_named, plan_call, lemma_method_names_ascii_lower};
use crate::request_params::{RequestParams, bad_request_message};
use crate::servers::{ServerRegistry, invalid_url_message};
use crate::status::{network_error_code, network_error_name};

verus! {

/// What `str::to_lowercase` returns for `s`.
pub uninterp spec fn lowercase(s: Seq<char>) -> Seq<char>;

/// The lower-case form of an ASCII character: `A` to `Z` become `a` to `z`,
/// every other character stays.
pub open spec fn ascii_lower_char(c: char) -> char {
    if 'A' <= c <= 'Z' {
        ((c as int) + 32) as char
    } else {
        c
    }
}

/// `s` with each ASCII capital letter replaced by its small letter.
pub open spec fn ascii_lowercase(s: Seq<char>) -> Seq<char> {
    s.map_values(|c: char| ascii_lower_char(c))
}

/// Calls `str::to_lowercase`. The result is the named value `lowercase` of the
/// argument. Of that value the contract states only what the documentation of
/// `str::to_lowercase` and `char::to_lowercase` gives for ASCII text: the
/// Unicode lower-case mapping of an ASCII character is its ASCII lower-case
/// form, so ASCII text is lowered letter by letter. This is stated for the
/// argument and, as the same fact, for the result when the result is ASCII.
/// The mapping of other characters, and whether lowering a second time
/// changes a non-ASCII text, are not stated.
#[verifier::external_body]
fn to_lowercase(s: &str) -> (r: String)
    ensures
        r@ == lowercase(s@),
        is_ascii_chars(s@) ==> r@ == ascii_lowercase(s@),
        is_ascii_chars(r@) ==> lowercase(r@) == ascii_lowercase(r@),
{
    s.to_lowercase()
}

/// Lowering ASCII text keeps it ASCII, and lowering it again changes nothing.
proof fn lemma_ascii_lowercase_stable(s: Seq<char>)
    requires
        is_ascii_chars(s),
    ensures
        is_ascii_chars(ascii_lowercase(s)),
        ascii_lowercase(ascii_lowercase(s)) == ascii_lowercase(s),
{
    let t = ascii_lowercase(s);
    assert forall|i: int| 0 <= i < t.len() implies '\0' <= #[trigger] t[i] <= '\u{7f}' by {
        assert(t[i] == ascii_lower_char(s[i]));
        assert('\0' <= s[i] <= '\u{7f}');
    }
    assert(ascii_lowercase(t) =~= t);
}

/// The names of the methods are ASCII and already in lower case.
proof fn lemma_method_name_lowercase(m: ApiMethod)
    ensures
        is_ascii_chars(m.spec_name()),
        ascii_lowercase(m.spec_name()) == m.spec_name(),
{
    lemma_method_names_ascii_lower(m);
    let n = m.spec_name();
    assert(ascii_lowercase(n) =~= n);
}

/// The message with which a request for a server that is not registered is
/// refused.
pub open spec fn server_not_found_message() -> Seq<char> {
    "Server not found."@
}

/// The message with which a request that names no known method is refused.
pub open spec fn unknown_method_message() -> Seq<char> {
    "Bad request."@
}

/// The method that an API name designates: the one exposed under the name's
/// lower-case form. Lowering the name first designates the same method,
/// whenever the name designates one and whenever the name is ASCII.
pub fn resolve_method(api_name: &str) -> (r: Option<ApiMethod>)
    ensures
        r == method_named(lowercase(api_name@)),
        r is Some || is_ascii_chars(api_name@) ==> method_named(lowercase(lowercase(api_name@)))
            == r,
{
    let lowered = to_lowercase(api_name);
    let r = ApiMethod::from_name(&lowered);
    proof {
        if r is Some {
            let m = r->Some_0;
            assert(m.spec_name() == lowered@);
            lemma_method_name_lowercase(m);
        } else if is_ascii_chars(api_name@) {
            lemma_ascii_lowercase_stable(api_name@);
        }
    }
    r
}

/// Routes a request for `api_name` with `params` to the server registered
/// under `server`: the URL of that server and the call to make there.
/// A server that is not registered is refused first, then a name that
/// designates no method, then parameters that the method does not take.
pub fn route_request(
    servers: &ServerRegistry,
    server: &String,
    api_name: &str,
    params: RequestParams,
) -> (r: Result<(String, RpcCall), String>)
    ensures
        !servers@.contains_key(server@) ==> (r matches Err(e) && e@ == server_not_found_message()),
        servers@.contains_key(server@) && method_named(lowercase(api_name@)) is None ==> (r matches Err(
            e,
        ) && e@ == unknown_method_message()),
        servers@.contains_key(server@) ==> (method_named(lowercase(api_name@)) matches Some(m) ==> {
            &&& r is Ok <==> params.shape() == m.spec_shape()
            &&& r matches Ok(v) ==> v.0@ == servers@[server@] && v.1.method() == m && v.1.params()
                == params
            &&& r matches Err(e) ==> e@ == bad_request_message()
        }),
        servers@.contains_key(server@) && (method_named(lowercase(api_name@)) is Some
            || is_ascii_chars(api_name@)) ==> method_named(lowercase(lowercase(api_name@)))
            == method_named(lowercase(api_name@)),
{
    let url = match servers.lookup(server) {
        Some(u) => u,
        None => {
            return Err(String::from_str("Server not found."));
        },
    };
    let method = match resolve_method(api_name) {
        Some(m) => m,
        None => {
            return Err(String::from_str("Bad request."));
        },
    };
    match plan_call(method, params) {
        Ok(call) => Ok((url, call)),
        Err(e) => Err(e),
    }
}

/// The texts with which requests are refused, and the state reported for a
/// server that cannot be reached.
pub proof fn lemma_refusal_texts()
    ensures
        server_not_found_message() == "Server not found."@,
        unknown_method_message() == "Bad request."@,
        bad_request_message() == "Bad request"@,
        invalid_url_message() == "Invalid Url."@,
        network_error_code() == -2,
        network_error_name() == "NetWorkError"@,
{
}

} // verus!
