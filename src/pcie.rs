//! The PCIe inventory of a GB200 chassis federation: which chassis to walk, which
//! devices count, and their order.
use vstd::prelude::*;

use crate::model::clone_opt_string;
use crate::model::system::{Chassis, PCIeDevice, ResourceStatus};
use crate::request::{BodyView, Method, Request, RequestView};
use crate::text::{contains, has_infix, lower_of, to_lower};
use crate::url::{relative_url, strip_redfish_prefix};

verus! {

/// `a` comes before `b` in lexicographic order of code points.
pub open spec fn text_lt(a: Seq<char>, b: Seq<char>) -> bool
    decreases a.len(),
{
    if a.len() == 0 {
        b.len() > 0
    } else if b.len() == 0 {
        false
    } else if a[0] != b[0] {
        (a[0] as u32) < (b[0] as u32)
    } else {
        text_lt(a.drop_first(), b.drop_first())
    }
}

/// The order of optional texts: absent first, then by text.
pub open spec fn opt_text_lt(a: Option<Seq<char>>, b: Option<Seq<char>>) -> bool {
    match (a, b) {
        (None, Some(_)) => true,
        (Some(x), Some(y)) => text_lt(x, y),
        _ => false,
    }
}

/// The manufacturer of a device as text.
pub open spec fn manufacturer_of(d: PCIeDevice) -> Option<Seq<char>> {
    match d.manufacturer {
        Some(m) => Some(m@),
        None => None,
    }
}

/// `a` sorts before `b`: by manufacturer.
pub open spec fn device_lt(a: PCIeDevice, b: PCIeDevice) -> bool {
    opt_text_lt(manufacturer_of(a), manufacturer_of(b))
}

/// Where `x` goes into the sorted `s`: after every element that does not sort after it.
pub open spec fn insert_pos(s: Seq<PCIeDevice>, x: PCIeDevice) -> int
    decreases s.len(),
{
    if s.len() == 0 {
        0
    } else if device_lt(x, s[0]) {
        0
    } else {
        1 + insert_pos(s.drop_first(), x)
    }
}

/// `s` sorted by manufacturer by insertion, equal manufacturers kept in their order.
pub open spec fn sort_by_manufacturer(s: Seq<PCIeDevice>) -> Seq<PCIeDevice>
    decreases s.len(),
{
    if s.len() == 0 {
        s
    } else {
        let sorted = sort_by_manufacturer(s.drop_last());
        sorted.insert(insert_pos(sorted, s.last()), s.last())
    }
}

/// A device counts when it has an id and a state that, in lower case, holds `enabled`.
pub open spec fn device_counts(d: PCIeDevice) -> bool {
    &&& d.id is Some
    &&& d.status is Some
    &&& d.status->Some_0.state is Some
    &&& has_infix(lower_of(d.status->Some_0.state->Some_0@), "enabled"@)
}

/// The devices of `s` that count, in order.
pub open spec fn counted(s: Seq<PCIeDevice>) -> Seq<PCIeDevice> {
    s.filter(|d: PCIeDevice| device_counts(d))
}

/// The chassis ids of `ids` to walk for PCIe devices: all but the BMC's own.
pub open spec fn pcie_chassis_ids(ids: Seq<Seq<char>>) -> Seq<Seq<char>> {
    ids.filter(|id: Seq<char>| !has_infix(id, "BMC"@))
}

proof fn lemma_insert_pos(s: Seq<PCIeDevice>, x: PCIeDevice, j: int)
    requires
        0 <= j <= s.len(),
        forall|k: int| 0 <= k < j ==> !device_lt(x, #[trigger] s[k]),
        j == s.len() || device_lt(x, s[j]),
    ensures
        insert_pos(s, x) == j,
    decreases j,
{
    if j > 0 {
        assert(!device_lt(x, s[0]));
        assert forall|k: int| 0 <= k < j - 1 implies !device_lt(x, #[trigger] s.drop_first()[k]) by {
            assert(s.drop_first()[k] == s[k + 1]);
        }
        lemma_insert_pos(s.drop_first(), x, j - 1);
    }
}

proof fn lemma_text_lt_from(a: Seq<char>, b: Seq<char>, i: int)
    requires
        0 <= i <= a.len(),
        i <= b.len(),
        a.subrange(0, i) == b.subrange(0, i),
    ensures
        text_lt(a, b) == text_lt(a.subrange(i, a.len() as int), b.subrange(i, b.len() as int)),
    decreases i,
{
    if i > 0 {
        assert(a[0] == a.subrange(0, i)[0]);
        assert(b[0] == b.subrange(0, i)[0]);
        assert(a.drop_first().subrange(0, i - 1) =~= a.subrange(0, i).drop_first());
        assert(b.drop_first().subrange(0, i - 1) =~= b.subrange(0, i).drop_first());
        lemma_text_lt_from(a.drop_first(), b.drop_first(), i - 1);
        assert(a.drop_first().subrange(i - 1, a.len() - 1) =~= a.subrange(i, a.len() as int));
        assert(b.drop_first().subrange(i - 1, b.len() - 1) =~= b.subrange(i, b.len() as int));
    } else {
        assert(a.subrange(0, a.len() as int) =~= a);
        assert(b.subrange(0, b.len() as int) =~= b);
    }
}

/// Does `a` come before `b`?
pub fn str_lt(a: &str, b: &str) -> (r: bool)
    ensures
        r == text_lt(a@, b@),
{
    let n = a.unicode_len();
    let m = b.unicode_len();
    let mut i: usize = 0;
    while i < n && i < m && a.get_char(i) == b.get_char(i)
        invariant
            n == a@.len(),
            m == b@.len(),
            i <= n,
            i <= m,
            a@.subrange(0, i as int) == b@.subrange(0, i as int),
        decreases n - i,
    {
        assert(a@.subrange(0, i + 1) =~= a@.subrange(0, i as int).push(a@[i as int]));
        assert(b@.subrange(0, i + 1) =~= b@.subrange(0, i as int).push(b@[i as int]));
        i = i + 1;
    }
    proof {
        lemma_text_lt_from(a@, b@, i as int);
    }
    if i == n {
        i < m
    } else if i == m {
        false
    } else {
        let ca = a.get_char(i);
        let cb = b.get_char(i);
        proof {
            assert(a@.subrange(i as int, n as int)[0] == ca);
            assert(b@.subrange(i as int, m as int)[0] == cb);
        }
        (ca as u32) < (cb as u32)
    }
}

/// Does `a` sort before `b`?
pub fn device_lt_exec(a: &PCIeDevice, b: &PCIeDevice) -> (r: bool)
    ensures
        r == device_lt(*a, *b),
{
    match (&a.manufacturer, &b.manufacturer) {
        (None, Some(_)) => true,
        (Some(x), Some(y)) => str_lt(x.as_str(), y.as_str()),
        _ => false,
    }
}

/// Does device `d` count?
pub fn device_counts_exec(d: &PCIeDevice) -> (r: bool)
    ensures
        r == device_counts(*d),
{
    if d.id.is_none() {
        return false;
    }
    match &d.status {
        None => false,
        Some(st) => match &st.state {
            None => false,
            Some(state) => {
                let low = to_lower(state.as_str());
                contains(low.as_str(), "enabled")
            },
        },
    }
}

impl PCIeDevice {
    /// A copy of the record.
    pub fn duplicate(&self) -> (r: PCIeDevice)
        ensures
            r == *self,
    {
        let status = match &self.status {
            Some(s) => Some(ResourceStatus { health: clone_opt_string(&s.health), state: clone_opt_string(&s.state) }),
            None => None,
        };
        PCIeDevice {
            odata_id: self.odata_id.clone(),
            id: clone_opt_string(&self.id),
            name: clone_opt_string(&self.name),
            manufacturer: clone_opt_string(&self.manufacturer),
            firmware_version: clone_opt_string(&self.firmware_version),
            part_number: clone_opt_string(&self.part_number),
            serial_number: clone_opt_string(&self.serial_number),
            status,
        }
    }
}

/// The devices that count, sorted by manufacturer; devices of one manufacturer stay in
/// the order read.
pub fn select_pcie_devices(devices: &Vec<PCIeDevice>) -> (r: Vec<PCIeDevice>)
    ensures
        r@ == sort_by_manufacturer(counted(devices@)),
{
    let mut out: Vec<PCIeDevice> = Vec::new();
    let ghost mut kept: Seq<PCIeDevice> = seq![];
    let n = devices.len();
    let mut i: usize = 0;
    while i < n
        invariant
            n == devices@.len(),
            i <= n,
            kept == counted(devices@.subrange(0, i as int)),
            out@ == sort_by_manufacturer(kept),
        decreases n - i,
    {
        let d = &devices[i];
        proof {
            let pre = devices@.subrange(0, i + 1);
            assert(pre.drop_last() =~= devices@.subrange(0, i as int));
            reveal(Seq::filter);
        }
        if device_counts_exec(d) {
            let m = out.len();
            let mut j: usize = 0;
            while j < m && !device_lt_exec(d, &out[j])
                invariant
                    m == out@.len(),
                    j <= m,
                    forall|k: int| 0 <= k < j ==> !device_lt(*d, #[trigger] out@[k]),
                decreases m - j,
            {
                j = j + 1;
            }
            proof {
                lemma_insert_pos(out@, *d, j as int);
                assert(kept.push(*d).drop_last() =~= kept);
                kept = kept.push(*d);
            }
            out.insert(j, d.duplicate());
        }
        i = i + 1;
    }
    assert(devices@.subrange(0, n as int) =~= devices@);
    out
}

/// Keep the chassis that are walked for PCIe devices: every one whose id does not hold `BMC`.
pub fn pcie_chassis(ids: &Vec<String>) -> (r: Vec<String>)
    ensures
        r@.map_values(|s: String| s@) == pcie_chassis_ids(ids@.map_values(|s: String| s@)),
{
    let ghost view = ids@.map_values(|s: String| s@);
    let mut out: Vec<String> = Vec::new();
    let n = ids.len();
    let mut i: usize = 0;
    while i < n
        invariant
            n == ids@.len(),
            i <= n,
            view == ids@.map_values(|s: String| s@),
            out@.map_values(|s: String| s@) == pcie_chassis_ids(view.subrange(0, i as int)),
        decreases n - i,
    {
        let ghost before = out@;
        proof {
            let pre = view.subrange(0, i + 1);
            assert(pre.drop_last() =~= view.subrange(0, i as int));
            reveal(Seq::filter);
        }
        if !contains(ids[i].as_str(), "BMC") {
            let s = ids[i].clone();
            out.push(s);
            assert(out@.map_values(|s: String| s@) =~= before.map_values(|s: String| s@).push(view[i as int]));
        }
        i = i + 1;
    }
    assert(view.subrange(0, n as int) =~= view);
    out
}

/// A GET of the PCIeDevices collection a chassis links to, if it links to one.
pub fn pcie_collection_request(chassis: &Chassis) -> (r: Option<Request>)
    ensures
        match chassis.pcie_devices {
            Some(link) => r is Some && r->Some_0@ == (RequestView {
                method: Method::Get,
                url: strip_redfish_prefix(link.odata_id@),
                body: BodyView::Empty,
            }),
            None => r is None,
        },
{
    match &chassis.pcie_devices {
        Some(link) => Some(Request::get(relative_url(link.odata_id.as_str()))),
        None => None,
    }
}

/// GETs of the members of a collection, by relative URL, in order.
pub fn member_requests(members: &Vec<String>) -> (r: Vec<Request>)
    ensures
        r@.len() == members@.len(),
        forall|i: int| 0 <= i < r@.len() ==> #[trigger] r@[i]@ == (RequestView {
            method: Method::Get,
            url: strip_redfish_prefix(members@[i]@),
            body: BodyView::Empty,
        }),
{
    let mut out: Vec<Request> = Vec::new();
    let n = members.len();
    let mut i: usize = 0;
    while i < n
        invariant
            n == members@.len(),
            i <= n,
            out@.len() == i,
            forall|k: int| 0 <= k < i ==> #[trigger] out@[k]@ == (RequestView {
                method: Method::Get,
                url: strip_redfish_prefix(members@[k]@),
                body: BodyView::Empty,
            }),
        decreases n - i,
    {
        out.push(Request::get(relative_url(members[i].as_str())));
        i = i + 1;
    }
    out
}

/// `s` is in manufacturer order: no device sorts before one ahead of it.
pub open spec fn sorted_by_manufacturer(s: Seq<PCIeDevice>) -> bool {
    forall|i: int, j: int| 0 <= i < j < s.len() ==> !device_lt(#[trigger] s[j], #[trigger] s[i])
}

proof fn lemma_text_lt_asym(a: Seq<char>, b: Seq<char>)
    ensures
        !(text_lt(a, b) && text_lt(b, a)),
        !text_lt(a, a),
    decreases a.len(),
{
    if a.len() > 0 && b.len() > 0 && a[0] == b[0] {
        lemma_text_lt_asym(a.drop_first(), b.drop_first());
    }
    if a.len() > 0 {
        lemma_text_lt_asym(a.drop_first(), a.drop_first());
    }
}

proof fn lemma_text_lt_trans(a: Seq<char>, b: Seq<char>, c: Seq<char>)
    requires
        text_lt(a, b),
        text_lt(b, c),
    ensures
        text_lt(a, c),
    decreases a.len(),
{
    if a.len() > 0 && b.len() > 0 && c.len() > 0 && a[0] == b[0] && b[0] == c[0] {
        lemma_text_lt_trans(a.drop_first(), b.drop_first(), c.drop_first());
    }
}

proof fn lemma_device_lt_order(a: PCIeDevice, b: PCIeDevice, c: PCIeDevice)
    ensures
        device_lt(a, b) && device_lt(b, c) ==> device_lt(a, c),
        !(device_lt(a, b) && device_lt(b, a)),
{
    match (manufacturer_of(a), manufacturer_of(b), manufacturer_of(c)) {
        (Some(x), Some(y), Some(z)) => {
            if text_lt(x, y) && text_lt(y, z) {
                lemma_text_lt_trans(x, y, z);
            }
            lemma_text_lt_asym(x, y);
        },
        (Some(x), Some(y), None) => {
            lemma_text_lt_asym(x, y);
        },
        _ => {},
    }
}

proof fn lemma_insert_pos_bounds(s: Seq<PCIeDevice>, x: PCIeDevice)
    ensures
        0 <= insert_pos(s, x) <= s.len(),
        forall|k: int| 0 <= k < insert_pos(s, x) ==> !device_lt(x, #[trigger] s[k]),
        insert_pos(s, x) < s.len() ==> device_lt(x, s[insert_pos(s, x)]),
    decreases s.len(),
{
    if s.len() > 0 && !device_lt(x, s[0]) {
        lemma_insert_pos_bounds(s.drop_first(), x);
        assert forall|k: int| 0 <= k < insert_pos(s, x) implies !device_lt(x, #[trigger] s[k]) by {
            if k > 0 {
                assert(s[k] == s.drop_first()[k - 1]);
            }
        }
    }
}

proof fn lemma_insert_sorted(s: Seq<PCIeDevice>, x: PCIeDevice)
    requires
        sorted_by_manufacturer(s),
    ensures
        sorted_by_manufacturer(s.insert(insert_pos(s, x), x)),
{
    let p = insert_pos(s, x);
    lemma_insert_pos_bounds(s, x);
    let t = s.insert(p, x);
    assert forall|i: int, j: int| 0 <= i < j < t.len() implies !device_lt(#[trigger] t[j], #[trigger] t[i]) by {
        if j < p {
            assert(t[i] == s[i] && t[j] == s[j]);
        } else if j == p {
            assert(t[i] == s[i] && t[j] == x);
        } else if i == p {
            assert(t[j] == s[j - 1] && t[i] == x);
            lemma_device_lt_order(s[j - 1], x, s[p]);
            if j - 1 > p {
                assert(!device_lt(s[j - 1], s[p]));
            }
        } else if i < p {
            assert(t[i] == s[i] && t[j] == s[j - 1]);
        } else {
            assert(t[i] == s[i - 1] && t[j] == s[j - 1]);
        }
    }
}

/// The PCIe list is in manufacturer order and holds exactly the devices that count.
pub proof fn lemma_sort_by_manufacturer(s: Seq<PCIeDevice>)
    ensures
        sorted_by_manufacturer(sort_by_manufacturer(s)),
        sort_by_manufacturer(s).to_multiset() == s.to_multiset(),
    decreases s.len(),
{
    if s.len() > 0 {
        let r = sort_by_manufacturer(s.drop_last());
        lemma_sort_by_manufacturer(s.drop_last());
        lemma_insert_sorted(r, s.last());
        lemma_insert_pos_bounds(r, s.last());
        vstd::seq_lib::to_multiset_insert(r, insert_pos(r, s.last()), s.last());
        assert(s =~= s.drop_last().push(s.last()));
        s.drop_last().to_multiset_ensures();
    }
}

/// Is a device made by `k`?
pub open spec fn made_by(k: Option<Seq<char>>) -> spec_fn(PCIeDevice) -> bool {
    |d: PCIeDevice| manufacturer_of(d) == k
}

proof fn lemma_insert_stable(s: Seq<PCIeDevice>, x: PCIeDevice, k: Option<Seq<char>>)
    requires
        sorted_by_manufacturer(s),
    ensures
        s.insert(insert_pos(s, x), x).filter(made_by(k)) == s.push(x).filter(made_by(k)),
{
    let p = insert_pos(s, x);
    lemma_insert_pos_bounds(s, x);
    let f = made_by(k);
    let pre = s.subrange(0, p);
    let post = s.subrange(p, s.len() as int);
    assert(s.insert(p, x) =~= pre.push(x) + post);
    assert(s =~= pre + post);
    Seq::filter_distributes_over_add(pre.push(x), post, f);
    Seq::filter_distributes_over_add(pre, post, f);
    pre.lemma_filter_push(x, f);
    s.lemma_filter_push(x, f);
    if manufacturer_of(x) == k {
        assert forall|j: int| 0 <= j < post.len() implies !f(#[trigger] post[j]) by {
            assert(post[j] == s[p + j]);
            lemma_device_lt_order(s[p], s[p], s[p]);
            if f(post[j]) {
                assert(device_lt(s[p + j], s[p]) == device_lt(x, s[p]));
                if j > 0 {
                    assert(!device_lt(s[p + j], s[p]));
                }
            }
        }
        assert(post.all(|d: PCIeDevice| !f(d)));
        post.lemma_all_neg_filter_empty(f);
        assert(post.filter(f) =~= Seq::<PCIeDevice>::empty());
        assert(pre.filter(f).push(x) + post.filter(f) =~= (pre.filter(f) + post.filter(f)).push(x));
    }
}

/// The PCIe order is stable: the devices of any one manufacturer come out in the order
/// in which they went in.
pub proof fn lemma_sort_by_manufacturer_stable(s: Seq<PCIeDevice>, k: Option<Seq<char>>)
    ensures
        sort_by_manufacturer(s).filter(made_by(k)) == s.filter(made_by(k)),
    decreases s.len(),
{
    if s.len() > 0 {
        let r = sort_by_manufacturer(s.drop_last());
        lemma_sort_by_manufacturer_stable(s.drop_last(), k);
        lemma_sort_by_manufacturer(s.drop_last());
        lemma_insert_stable(r, s.last(), k);
        r.lemma_filter_push(s.last(), made_by(k));
        s.drop_last().lemma_filter_push(s.last(), made_by(k));
        assert(s =~= s.drop_last().push(s.last()));
    }
}

/// The device reads for a chassis, given what reading its PCIeDevices collection gave:
/// its members by relative URL, or nothing when the collection could not be read (such a
/// chassis is passed over).
pub fn pcie_device_requests(collection: Result<Vec<String>, crate::error::RedfishError>) -> (r: Vec<Request>)
    ensures
        match collection {
            Ok(members) => r@.len() == members@.len() && forall|i: int| 0 <= i < r@.len() ==> #[trigger] r@[i]@ == (RequestView {
                method: Method::Get,
                url: strip_redfish_prefix(members@[i]@),
                body: BodyView::Empty,
            }),
            Err(_) => r@.len() == 0,
        },
{
    match collection {
        Ok(members) => member_requests(&members),
        Err(_) => Vec::new(),
    }
}

} // verus!
