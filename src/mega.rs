use vstd::prelude::*;
use crate::exception::MegaException;
use crate::text::{chars_of, string_of};

verus! {

/// Whether `c` may not appear in a remote file name.
pub open spec fn is_forbidden(c: char) -> bool {
    c == '"' || c == '*' || c == '/' || c == ':' || c == '<' || c == '>' || c == '?'
        || c == '\\' || c == '|'
}

/// `s` with every forbidden character removed, the others kept in order.
pub open spec fn sanitized(s: Seq<char>) -> Seq<char> {
    s.filter(|c: char| !is_forbidden(c))
}

fn forbidden(c: char) -> (r: bool)
    ensures
        r == is_forbidden(c),
{
    c == '"' || c == '*' || c == '/' || c == ':' || c == '<' || c == '>' || c == '?' || c == '\\'
        || c == '|'
}

#[verifier::external_type_specification]
#[verifier::external_body]
pub struct ExMegaClient(mega::Client);

#[verifier::external_type_specification]
#[verifier::external_body]
pub struct ExMegaError(mega::Error);

#[verifier::external_type_specification]
#[verifier::external_body]
pub struct ExHttpClient(reqwest::Client);

#[verifier::external_type_specification]
#[verifier::external_body]
pub struct ExHttpError(reqwest::Error);

/// Relies on reqwest's `Client::builder().build()`: a transport with default
/// settings, or the error that kept the TLS backend or resolver from starting.
#[verifier::external_body]
fn new_http_client() -> (r: Result<reqwest::Client, reqwest::Error>) {
    reqwest::Client::builder().build()
}

/// Relies on the `Display` impl of `reqwest::Error`: its text.
#[verifier::external_body]
fn http_error_text(e: &reqwest::Error) -> (r: String) {
    e.to_string()
}

/// Relies on mega's `ClientBuilder::build`, which wraps the transport and
/// always returns `Ok`.
#[verifier::external_body]
fn build_client(http: reqwest::Client) -> (r: Result<mega::Client, mega::Error>)
    ensures
        r is Ok,
{
    mega::Client::builder().build(http)
}

/// Relies on the `Display` impl of `mega::Error`: its text.
#[verifier::external_body]
fn error_text(e: &mega::Error) -> (r: String) {
    e.to_string()
}

/// The storage account's client, one per process.
pub struct Mega {
    pub client: mega::Client,
}

impl Mega {
    /// Builds the client over a fresh HTTP transport; it is not logged in yet.
    /// Where the transport cannot be built, the error says why.
    pub fn new() -> (r: Result<Mega, MegaException>)
        ensures
            r matches Err(e) ==> exists|t: Seq<char>| e.message@ == "Failed to create MEGA client. Error: "@ + t,
    {
        let http = match new_http_client() {
            Ok(http) => http,
            Err(e) => {
                let text = http_error_text(&e);
                return Err(MegaException::caused_by("Failed to create MEGA client. Error: ", text.as_str()));
            },
        };
        match build_client(http) {
            Ok(client) => Ok(Mega { client }),
            Err(e) => {
                let text = error_text(&e);
                Err(MegaException::caused_by("Failed to create MEGA client. Error: ", text.as_str()))
            },
        }
    }

    /// Removes from `name` every character that remote file names may not hold.
    pub fn remove_invalid_characters(name: String) -> (r: String)
        ensures
            r@ == sanitized(name@),
            forall|i: int| 0 <= i < r@.len() ==> !is_forbidden(#[trigger] r@[i]),
    {
        let cs = chars_of(name.as_str());
        let mut kept: Vec<char> = Vec::new();
        let mut i: usize = 0;
        while i < cs.len()
            invariant
                i <= cs@.len(),
                cs@ == name@,
                kept@ == sanitized(cs@.subrange(0, i as int)),
            decreases cs@.len() - i,
        {
            proof {
                reveal_with_fuel(Seq::filter, 1);
                assert(cs@.subrange(0, i + 1).drop_last() =~= cs@.subrange(0, i as int));
            }
            if !forbidden(cs[i]) {
                kept.push(cs[i]);
            }
            i += 1;
        }
        assert(cs@.subrange(0, cs@.len() as int) =~= cs@);
        proof {
            lemma_sanitize_idempotent(name@);
        }
        string_of(&kept)
    }
}

/// Sanitizing twice gives the same name as sanitizing once, and a sanitized
/// name holds no forbidden character.
pub proof fn lemma_sanitize_idempotent(s: Seq<char>)
    ensures
        sanitized(sanitized(s)) == sanitized(s),
        forall|i: int| 0 <= i < sanitized(s).len() ==> !is_forbidden(#[trigger] sanitized(s)[i]),
    decreases s.len(),
{
    broadcast use vstd::seq_lib::group_filter_ensures;

    reveal_with_fuel(Seq::filter, 1);
    if s.len() > 0 {
        lemma_sanitize_idempotent(s.drop_last());
        if !is_forbidden(s.last()) {
            assert(sanitized(s) == sanitized(s.drop_last()).push(s.last()));
            assert(sanitized(s).drop_last() =~= sanitized(s.drop_last()));
        }
    } else {
        assert(sanitized(s) =~= Seq::<char>::empty());
    }
}

} // verus!
