//! What the browser is launched with.
//!
//! The browser is looked for under a few names, in order, and the first one
//! found is started with two flags: one that forces QUIC towards the
//! multiplexed transport, and one that makes it trust the certificate with
//! the given fingerprint. Looking for the executable and starting it are the
//! caller's part.

use vstd::prelude::*;
use vstd::string::StringExecFns;

verus! {

/// How many names the browser is looked for under.
pub const CANDIDATES: usize = 3;

/// The name under which the browser is looked for at place `index`, for the
/// places there are.
pub fn candidate(index: usize) -> (name: Option<&'static str>)
    ensures
        index < CANDIDATES <==> name is Some,
        index == 0 ==> name.unwrap()@ == "google-chrome"@,
        index == 1 ==> name.unwrap()@ == "google-chrome-stable"@,
        index == 2 ==> name.unwrap()@ == "chrome"@,
{
    if index == 0 {
        Some("google-chrome")
    } else if index == 1 {
        Some("google-chrome-stable")
    } else if index == 2 {
        Some("chrome")
    } else {
        None
    }
}

/// Whether `found` holds something at place `index` and nothing before it.
pub open spec fn is_first_found<T>(found: Seq<Option<T>>, index: int) -> bool {
    &&& 0 <= index < found.len()
    &&& found[index] is Some
    &&& forall|j: int| 0 <= j < index ==> (#[trigger] found[j]) is None
}

/// The first place at which something was found, where `found` holds the
/// outcome of each search in the order of the candidates. `None` exactly
/// when nothing was found at all.
pub fn first_found<T>(found: &Vec<Option<T>>) -> (place: Option<usize>)
    ensures
        match place {
            Some(index) => is_first_found(found@, index as int),
            None => forall|j: int| 0 <= j < found@.len() ==> (#[trigger] found@[j]) is None,
        },
{
    let mut i: usize = 0;
    while i < found.len()
        invariant
            i <= found@.len(),
            forall|j: int| 0 <= j < i ==> (#[trigger] found@[j]) is None,
        decreases found@.len() - i,
    {
        if found[i].is_some() {
            return Some(i);
        }
        i += 1;
    }
    None
}

/// The flag that forces QUIC towards `origin`.
pub open spec fn origin_flag(origin: Seq<char>) -> Seq<char> {
    "--origin-to-force-quic-on="@ + origin
}

/// The flag that makes the browser trust the key with `fingerprint`.
pub open spec fn trust_flag(fingerprint: Seq<char>) -> Seq<char> {
    "--ignore-certificate-errors-spki-list="@ + fingerprint
}

/// The page that the browser opens: the static file service on this host.
pub open spec fn start_page() -> Seq<char> {
    "http://localhost:8080"@
}

/// The arguments with which the browser is started, in order: the origin
/// flag, the trust flag and the start page.
pub fn browser_arguments(origin: &str, fingerprint: &str) -> (arguments: Vec<String>)
    ensures
        arguments@.len() == 3,
        arguments@[0]@ == origin_flag(origin@),
        arguments@[1]@ == trust_flag(fingerprint@),
        arguments@[2]@ == start_page(),
{
    let mut origin_arg = String::from_str("--origin-to-force-quic-on=");
    origin_arg.append(origin);
    let mut trust_arg = String::from_str("--ignore-certificate-errors-spki-list=");
    trust_arg.append(fingerprint);
    let page = String::from_str("http://localhost:8080");
    let mut arguments: Vec<String> = Vec::new();
    arguments.push(origin_arg);
    arguments.push(trust_arg);
    arguments.push(page);
    arguments
}

} // verus!
