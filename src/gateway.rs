use vstd::prelude::*;
use vstd::string::StringExecFns;
use crate::errors::{WarpDREError, is_gateway_error};

verus! {

/// The status code of a successful answer.
pub const STATUS_OK: u16 = 200;

/// The HTTP client that sends the requests.
#[verifier::external_type_specification]
#[verifier::external_body]
pub struct ExClient(reqwest::Client);

/// Relies on reqwest's `ClientBuilder::build` on a default builder: it gives a
/// client, or fails where no TLS backend or resolver can be set up.
#[verifier::external_body]
pub(crate) fn default_client() -> (r: Option<reqwest::Client>)
{
    reqwest::ClientBuilder::new().build().ok()
}

/// The reason phrase that the HTTP library gives a status code, if it knows one.
pub uninterp spec fn canonical_reason_of(code: u16) -> Option<Seq<char>>;

/// The serialization of the URL parsed from a text, or `None` where the text is
/// no absolute URL.
pub uninterp spec fn parsed_url(s: Seq<char>) -> Option<Seq<char>>;

/// Relies on http's `StatusCode::from_u16` and `StatusCode::canonical_reason`:
/// the reason phrase registered for a code, none for a code outside 100..=999.
#[verifier::external_body]
fn canonical_reason(code: u16) -> (r: Option<String>)
    ensures
        r is None <==> canonical_reason_of(code) is None,
        r matches Some(s) ==> canonical_reason_of(code) == Some(s@),
        (code < 100 || code > 999) ==> r is None,
{
    match reqwest::StatusCode::from_u16(code) {
        Ok(status) => status.canonical_reason().map(String::from),
        Err(_) => None,
    }
}

/// Relies on url's `Url::parse`: it gives the serialization of the parsed URL,
/// a function of the text alone.
#[verifier::external_body]
pub(crate) fn parse_url(s: &str) -> (r: Option<String>)
    ensures
        r is None <==> parsed_url(s@) is None,
        r matches Some(u) ==> parsed_url(s@) == Some(u@),
{
    match reqwest::Url::parse(s) {
        Ok(url) => Some(String::from(url)),
        Err(_) => None,
    }
}

/// The character of a decimal digit.
pub open spec fn digit_char(d: nat) -> char {
    if d == 0 { '0' }
    else if d == 1 { '1' }
    else if d == 2 { '2' }
    else if d == 3 { '3' }
    else if d == 4 { '4' }
    else if d == 5 { '5' }
    else if d == 6 { '6' }
    else if d == 7 { '7' }
    else if d == 8 { '8' }
    else { '9' }
}

/// The decimal digits of a number, most significant first, without leading zeros.
pub open spec fn decimal(n: nat) -> Seq<char>
    decreases n,
{
    if n < 10 {
        seq![digit_char(n)]
    } else {
        decimal(n / 10).push(digit_char(n % 10))
    }
}

fn digit_text(d: u64) -> (r: &'static str)
    requires
        d < 10,
    ensures
        r@ == seq![digit_char(d as nat)],
{
    let r = if d == 0 { "0" }
        else if d == 1 { "1" }
        else if d == 2 { "2" }
        else if d == 3 { "3" }
        else if d == 4 { "4" }
        else if d == 5 { "5" }
        else if d == 6 { "6" }
        else if d == 7 { "7" }
        else if d == 8 { "8" }
        else { "9" };
    proof {
        reveal_strlit("0");
        reveal_strlit("1");
        reveal_strlit("2");
        reveal_strlit("3");
        reveal_strlit("4");
        reveal_strlit("5");
        reveal_strlit("6");
        reveal_strlit("7");
        reveal_strlit("8");
        reveal_strlit("9");
        assert(r@ =~= seq![digit_char(d as nat)]);
    }
    r
}

/// Writes a number in decimal.
pub fn decimal_string(n: u64) -> (r: String)
    ensures
        r@ == decimal(n as nat),
    decreases n,
{
    if n < 10 {
        String::from_str(digit_text(n))
    } else {
        let head = decimal_string(n / 10);
        let r = head.concat(digit_text(n % 10));
        proof {
            assert(r@ =~= decimal(n as nat));
        }
        r
    }
}

/// A status code and a reason phrase as shown: the code, a space and the
/// phrase, or a placeholder where there is none.
pub open spec fn status_line(code: u16, reason: Option<Seq<char>>) -> Seq<char> {
    decimal(code as nat) + " "@ + match reason {
        Some(r) => r,
        None => "<unknown status code>"@,
    }
}

/// How a status code is shown: the code with its registered reason phrase.
pub open spec fn status_text_of(code: u16) -> Seq<char> {
    status_line(code, canonical_reason_of(code))
}

/// Shows a status code with the given reason phrase, e.g. `404 Not Found`.
pub fn format_status(code: u16, reason: Option<&str>) -> (r: String)
    ensures
        r@ == status_line(code, match reason {
            Some(t) => Some(t@),
            None => None,
        }),
{
    let spaced = decimal_string(code as u64).concat(" ");
    proof { reveal_strlit(" "); reveal_strlit("<unknown status code>"); }
    match reason {
        Some(t) => spaced.concat(t),
        None => spaced.concat("<unknown status code>"),
    }
}

/// Shows a status code as the HTTP library displays it, e.g. `404 Not Found`.
pub fn status_text(code: u16) -> (r: String)
    ensures
        r@ == status_text_of(code),
{
    match canonical_reason(code) {
        Some(reason) => format_status(code, Some(reason.as_str())),
        None => format_status(code, None),
    }
}

/// The message of a gateway error: the status as shown and the body.
pub open spec fn gateway_error_of(status: u16, body: Seq<char>) -> Seq<char> {
    "Status:"@ + status_text_of(status) + ", error: "@ + body
}

/// Sorts a gateway answer: the body to decode on a success, else a gateway
/// error whose message names the status and carries the body.
pub fn check_response(status: u16, body: String) -> (r: Result<String, WarpDREError>)
    ensures
        status == STATUS_OK ==> r == Ok::<String, WarpDREError>(body),
        status != STATUS_OK ==> (r matches Err(e) && is_gateway_error(e, gateway_error_of(status, body@))),
{
    if status == STATUS_OK {
        Ok(body)
    } else {
        let head = String::from_str("Status:");
        let shown = status_text(status);
        proof { reveal_strlit("Status:"); reveal_strlit(", error: "); }
        let m = head.concat(shown.as_str()).concat(", error: ").concat(body.as_str());
        proof {
            assert(m@ =~= gateway_error_of(status, body@));
        }
        Err(WarpDREError::WarpGatewayError(m))
    }
}

/// The index of the first parameter whose name is `key`, if there is one.
pub open spec fn param_index(query: Seq<(String, String)>, key: Seq<char>) -> Option<int> {
    if exists|i: int| is_first_named(query, key, i) {
        Some(choose|i: int| is_first_named(query, key, i))
    } else {
        None
    }
}

/// Whether `i` is the index of the first parameter named `key`.
pub open spec fn is_first_named(query: Seq<(String, String)>, key: Seq<char>, i: int) -> bool {
    &&& 0 <= i < query.len()
    &&& query[i].0@ == key
    &&& forall|j: int| 0 <= j < i ==> query[j].0@ != key
}

/// An index that is the first with a name is the one that `param_index` gives.
pub proof fn lemma_first_named_is_param_index(query: Seq<(String, String)>, key: Seq<char>, i: int)
    requires
        is_first_named(query, key, i),
    ensures
        param_index(query, key) == Some(i),
{
    let f = choose|k: int| is_first_named(query, key, k);
    if f < i {
        assert(query[f].0@ != key);
    } else if f > i {
        assert(query[i].0@ != key);
    }
}

/// The parameters as pairs of texts.
pub open spec fn params_view(query: Seq<(String, String)>) -> Seq<(Seq<char>, Seq<char>)> {
    query.map_values(|p: (String, String)| (p.0@, p.1@))
}

/// No two parameters share a name.
pub open spec fn names_unique(query: Seq<(String, String)>) -> bool {
    forall|i: int, j: int|
        0 <= i < j < query.len() ==> #[trigger] query[i].0@ != #[trigger] query[j].0@
}

/// Sets a query parameter: the first parameter named `key` takes the new value,
/// or the pair is added at the end where no parameter has that name.
pub fn set_param(query: &mut Vec<(String, String)>, key: String, value: String)
    ensures
        param_index(old(query)@, key@) matches Some(i)
            ==> final(query)@ == old(query)@.update(i, (key, value)),
        param_index(old(query)@, key@) is None ==> final(query)@ == old(query)@.push((key, value)),
        names_unique(old(query)@) ==> names_unique(final(query)@),
        (param_index(final(query)@, key@) matches Some(i) && final(query)@[i].1@ == value@),
{
    let mut i: usize = 0;
    while i < query.len()
        invariant
            i <= query@.len(),
            query@ == old(query)@,
            forall|j: int| 0 <= j < i ==> query@[j].0@ != key@,
        decreases query@.len() - i,
    {
        if query[i].0 == key {
            proof {
                lemma_first_named_is_param_index(query@, key@, i as int);
            }
            let ghost v = value@;
            query.set(i, (key, value));
            proof {
                lemma_first_named_is_param_index(query@, key@, i as int);
                assert(query@[i as int].1@ == v);
                let q = old(query)@;
                let n = final(query)@;
                assert(q[i as int].0@ == key@);
                if names_unique(q) {
                    assert forall|a: int, b: int| 0 <= a < b < n.len() implies
                        #[trigger] n[a].0@ != #[trigger] n[b].0@ by {
                        assert(q[a].0@ != q[b].0@);
                    }
                }
            }
            return;
        }
        i = i + 1;
    }
    let ghost v = value@;
    let ghost n = query@.len() as int;
    query.push((key, value));
    proof {
        assert forall|j: int| 0 <= j < n implies query@[j].0@ != key@ by {
            assert(query@[j] == old(query)@[j]);
        }
        lemma_first_named_is_param_index(query@, key@, n);
        assert(query@[n].1@ == v);
        let q = old(query)@;
        let m = query@;
        if names_unique(q) {
            assert forall|a: int, b: int| 0 <= a < b < m.len() implies
                #[trigger] m[a].0@ != #[trigger] m[b].0@ by {
                if b == n {
                    assert(q[a].0@ != key@);
                } else {
                    assert(q[a].0@ != q[b].0@);
                }
            }
        }
    }
}

/// Joins a base URL and a path with a slash between them.
pub open spec fn joined(base: Seq<char>, path: Seq<char>) -> Seq<char> {
    base + "/"@ + path
}

/// Joins a base URL and a path with a slash between them.
pub fn join_path(base: &str, path: &str) -> (r: String)
    ensures
        r@ == joined(base@, path@),
{
    proof { reveal_strlit("/"); }
    String::from_str(base).concat("/").concat(path)
}

} // verus!
