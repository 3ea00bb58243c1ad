//! Security guard over probe targets.
//!
//! The prober must never be usable to make the service connect to itself,
//! so requests naming the local machine are rejected before any network
//! activity.  The denylist covers the literal and canonical spellings of
//! loopback: `localhost`, the whole `127.` IPv4 block, the IPv6 loopback
//! in bare and bracketed form, and the unspecified address.

use vstd::prelude::*;
use vstd::string::*;

verus! {

/// The host names an address inside the IPv4 loopback block `127.0.0.0/8`.
pub open spec fn spec_loopback_v4_prefix(h: Seq<char>) -> bool {
    &&& h.len() >= 4
    &&& h[0] == '1'
    &&& h[1] == '2'
    &&& h[2] == '7'
    &&& h[3] == '.'
}

/// The host is a disallowed local or loopback target.
pub open spec fn spec_denied_host(h: Seq<char>) -> bool {
    ||| h == "localhost"@
    ||| h == "::1"@
    ||| h == "[::1]"@
    ||| h == "0.0.0.0"@
    ||| spec_loopback_v4_prefix(h)
}

fn str_eq(a: &str, b: &str) -> (r: bool)
    ensures
        r == (a@ == b@),
{
    let sa = a.to_owned();
    let sb = b.to_owned();
    sa == sb
}

/// Decides whether the guard rejects this host.
pub fn is_denied_host(host: &String) -> (r: bool)
    ensures
        r == spec_denied_host(host@),
{
    let h: &str = host.as_str();
    if str_eq(h, "localhost") {
        return true;
    }
    if str_eq(h, "::1") {
        return true;
    }
    if str_eq(h, "[::1]") {
        return true;
    }
    if str_eq(h, "0.0.0.0") {
        return true;
    }
    let len = h.unicode_len();
    if len >= 4 {
        if h.get_char(0) == '1' && h.get_char(1) == '2' && h.get_char(2) == '7' && h.get_char(3)
            == '.' {
            return true;
        }
    }
    false
}

/// Every spelling of the IPv4 loopback host itself is denied, as are the
/// other canonical loopback literals.
pub proof fn lemma_canonical_loopbacks_denied()
    ensures
        spec_denied_host("127.0.0.1"@),
        spec_denied_host("localhost"@),
        spec_denied_host("::1"@),
        spec_denied_host("[::1]"@),
        spec_denied_host("0.0.0.0"@),
{
    reveal_strlit("127.0.0.1");
}

} // verus!
