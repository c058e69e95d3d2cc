//! Relative Redfish URLs and the builders for them.
use vstd::prelude::*;

use crate::text::{has_prefix, starts_with};

verus! {

/// The path under which every Redfish resource lives, without slashes.
pub const REDFISH_ENDPOINT: &'static str = "redfish/v1";

/// The characters of `/redfish/v1/`.
pub open spec fn redfish_prefix() -> Seq<char> {
    seq!['/', 'r', 'e', 'd', 'f', 'i', 's', 'h', '/', 'v', '1', '/']
}

/// `s` with every leading copy of the Redfish prefix taken off.
pub open spec fn strip_redfish_prefix(s: Seq<char>) -> Seq<char>
    decreases s.len(),
{
    if has_prefix(s, redfish_prefix()) {
        strip_redfish_prefix(s.subrange(redfish_prefix().len() as int, s.len() as int))
    } else {
        s
    }
}

/// The prefix as a string.
pub fn redfish_prefix_str() -> (r: &'static str)
    ensures
        r@ == redfish_prefix(),
{
    let p = "/redfish/v1/";
    proof {
        reveal_strlit("/redfish/v1/");
    }
    assert(p@ =~= redfish_prefix());
    p
}

/// The URL to request for a resource identifier: the `/redfish/v1/` prefix is removed,
/// as often as it stands at the front.
pub fn relative_url(odata_id: &str) -> (r: String)
    ensures
        r@ == strip_redfish_prefix(odata_id@),
        !has_prefix(r@, redfish_prefix()),
{
    let prefix = redfish_prefix_str();
    let plen = prefix.unicode_len();
    let mut cur: &str = odata_id;
    while starts_with(cur, prefix)
        invariant
            prefix@ == redfish_prefix(),
            plen == 12,
            strip_redfish_prefix(cur@) == strip_redfish_prefix(odata_id@),
        decreases cur@.len(),
    {
        let n = cur.unicode_len();
        cur = cur.substring_char(plen, n);
    }
    String::from_str(cur)
}

/// `a` followed by `b`.
pub fn cat2(a: &str, b: &str) -> (r: String)
    ensures
        r@ == a@ + b@,
{
    String::from_str(a).concat(b)
}

/// `a`, `b` and `c` one after the other.
pub fn cat3(a: &str, b: &str, c: &str) -> (r: String)
    ensures
        r@ == a@ + b@ + c@,
{
    String::from_str(a).concat(b).concat(c)
}

/// `a` to `d` one after the other.
pub fn cat4(a: &str, b: &str, c: &str, d: &str) -> (r: String)
    ensures
        r@ == a@ + b@ + c@ + d@,
{
    String::from_str(a).concat(b).concat(c).concat(d)
}

/// `a` to `e` one after the other.
pub fn cat5(a: &str, b: &str, c: &str, d: &str, e: &str) -> (r: String)
    ensures
        r@ == a@ + b@ + c@ + d@ + e@,
{
    String::from_str(a).concat(b).concat(c).concat(d).concat(e)
}

/// A URL made from any resource identifier is relative: it never begins with
/// `/redfish/v1/`.
pub proof fn lemma_stripped_is_relative(s: Seq<char>)
    ensures
        !has_prefix(strip_redfish_prefix(s), redfish_prefix()),
    decreases s.len(),
{
    if has_prefix(s, redfish_prefix()) {
        lemma_stripped_is_relative(s.subrange(redfish_prefix().len() as int, s.len() as int));
    }
}

/// The last segment of a path: what follows its last `/`, or all of it.
pub open spec fn last_segment(s: Seq<char>) -> Seq<char>
    decreases s.len(),
{
    if s.len() == 0 {
        s
    } else if s.last() == '/' {
        Seq::empty()
    } else {
        last_segment(s.drop_last()).push(s.last())
    }
}

proof fn lemma_last_segment(s: Seq<char>, k: int)
    requires
        0 <= k <= s.len(),
        forall|j: int| k <= j < s.len() ==> s[j] != '/',
        k == 0 || s[k - 1] == '/',
    ensures
        last_segment(s) == s.subrange(k, s.len() as int),
    decreases s.len(),
{
    if s.len() > k {
        lemma_last_segment(s.drop_last(), k);
        assert(s.subrange(k, s.len() as int) =~= s.drop_last().subrange(k, s.len() - 1).push(s.last()));
    } else if s.len() > 0 {
        assert(s.subrange(k, s.len() as int) =~= Seq::<char>::empty());
    }
}

/// The id of a collection member: the last segment of its `@odata.id`.
pub fn member_id(odata_id: &str) -> (r: String)
    ensures
        r@ == last_segment(odata_id@),
{
    let n = odata_id.unicode_len();
    let mut k: usize = n;
    while k > 0 && odata_id.get_char(k - 1) != '/'
        invariant
            n == odata_id@.len(),
            k <= n,
            forall|j: int| k <= j < n ==> odata_id@[j] != '/',
        decreases k,
    {
        k = k - 1;
    }
    proof {
        lemma_last_segment(odata_id@, k as int);
    }
    String::from_str(odata_id.substring_char(k, n))
}

/// The ids of the members of a collection, in order.
pub fn member_ids(members: &Vec<String>) -> (r: Vec<String>)
    ensures
        r@.len() == members@.len(),
        forall|i: int| 0 <= i < r@.len() ==> (#[trigger] r@[i])@ == last_segment(members@[i]@),
{
    let mut out: Vec<String> = Vec::new();
    let n = members.len();
    let mut i: usize = 0;
    while i < n
        invariant
            n == members@.len(),
            i <= n,
            out@.len() == i,
            forall|j: int| 0 <= j < i ==> (#[trigger] out@[j])@ == last_segment(members@[j]@),
        decreases n - i,
    {
        out.push(member_id(members[i].as_str()));
        i = i + 1;
    }
    out
}

} // verus!
