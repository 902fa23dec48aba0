//! Resolution of network aliases to RPC endpoint URLs.
//!
//! A handful of short aliases stand for the well-known public endpoints;
//! any other string is passed through verbatim as the endpoint itself.

use vstd::prelude::*;
use vstd::string::StrSliceExecFns;

verus! {

/// The endpoint URL that a network string stands for: recognized aliases map
/// to the canonical public endpoints, everything else passes through
/// unchanged.
pub open spec fn resolve_url(s: Seq<char>) -> Seq<char> {
    if s == "devnet"@ || s == "dev"@ || s == "d"@ {
        "https://api.devnet.solana.com"@
    } else if s == "mainnet"@ || s == "main"@ || s == "m"@ || s == "mainnet-beta"@ {
        "https://api.mainnet-beta.solana.com"@
    } else if s == "localnet"@ || s == "localhost"@ || s == "l"@ {
        "http://localhost:8899"@
    } else {
        s
    }
}

/// Character-by-character string equality, proved against the string views.
fn str_eq(a: &str, b: &str) -> (r: bool)
    ensures
        r <==> a@ == b@,
{
    let a_len = a.unicode_len();
    let b_len = b.unicode_len();
    if a_len != b_len {
        return false;
    }
    let mut i: usize = 0;
    while i < a_len
        invariant
            a_len == a@.len(),
            b_len == b@.len(),
            a_len == b_len,
            i <= a_len,
            forall|j: int| 0 <= j < i ==> a@[j] == b@[j],
        decreases a_len - i,
    {
        if a.get_char(i) != b.get_char(i) {
            assert(a@[i as int] != b@[i as int]);
            return false;
        }
        i += 1;
    }
    proof {
        assert(a@ =~= b@);
    }
    true
}

/// Maps a network alias to its RPC endpoint URL; an unrecognized string is
/// returned verbatim.
pub fn get_network<'a>(network_str: &'a str) -> (r: &'a str)
    ensures
        r@ == resolve_url(network_str@),
{
    if str_eq(network_str, "devnet") || str_eq(network_str, "dev") || str_eq(network_str, "d") {
        "https://api.devnet.solana.com"
    } else if str_eq(network_str, "mainnet") || str_eq(network_str, "main") || str_eq(
        network_str,
        "m",
    ) || str_eq(network_str, "mainnet-beta") {
        "https://api.mainnet-beta.solana.com"
    } else if str_eq(network_str, "localnet") || str_eq(network_str, "localhost") || str_eq(
        network_str,
        "l",
    ) {
        "http://localhost:8899"
    } else {
        network_str
    }
}

/// Resolving an already-resolved network string changes nothing: the endpoint
/// URLs that the aliases stand for are not themselves aliases, and every other
/// string already passes through verbatim.
pub proof fn lemma_resolve_idempotent(s: Seq<char>)
    ensures
        resolve_url(resolve_url(s)) == resolve_url(s),
{
    reveal_strlit("devnet");
    reveal_strlit("dev");
    reveal_strlit("d");
    reveal_strlit("mainnet");
    reveal_strlit("main");
    reveal_strlit("m");
    reveal_strlit("mainnet-beta");
    reveal_strlit("localnet");
    reveal_strlit("localhost");
    reveal_strlit("l");
    reveal_strlit("https://api.devnet.solana.com");
    reveal_strlit("https://api.mainnet-beta.solana.com");
    reveal_strlit("http://localhost:8899");
}

} // verus!
