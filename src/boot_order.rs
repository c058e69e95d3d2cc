//! Moving one boot option to the front of a boot order.
use vstd::prelude::*;

use crate::error::{ErrorView, RedfishError};
use crate::model::system::BootOption;
use crate::request::strings_view;
use crate::text::{has_prefix, starts_with};

verus! {

/// Which field of a boot option a name is matched against.
#[derive(Clone, Copy, Debug, PartialEq, Eq, Structural)]
pub enum BootOptionMatchField {
    DisplayName,
    UefiDevicePath,
}

/// `o` matches `name`: the chosen field begins with it (case-sensitive).
pub open spec fn option_matches(o: BootOption, field: BootOptionMatchField, name: Seq<char>) -> bool {
    match field {
        BootOptionMatchField::DisplayName => has_prefix(o.display_name@, name),
        BootOptionMatchField::UefiDevicePath => o.uefi_device_path is Some && has_prefix(
            o.uefi_device_path->Some_0@,
            name,
        ),
    }
}

/// The position of the first option that matches, if any does.
pub open spec fn find_first(opts: Seq<BootOption>, field: BootOptionMatchField, name: Seq<char>) -> Option<int>
    decreases opts.len(),
{
    if opts.len() == 0 {
        None
    } else {
        match find_first(opts.drop_last(), field, name) {
            Some(k) => Some(k),
            None => if option_matches(opts.last(), field, name) {
                Some(opts.len() - 1)
            } else {
                None
            },
        }
    }
}

/// `l` with its element at `k` moved to the front, the others in their order.
pub open spec fn put_first<A>(l: Seq<A>, k: int) -> Seq<A> {
    seq![l[k]] + l.subrange(0, k) + l.subrange(k + 1, l.len() as int)
}

/// The ids of a list of boot options.
pub open spec fn option_ids(opts: Seq<BootOption>) -> Seq<Seq<char>> {
    opts.map_values(|o: BootOption| o.id@)
}

/// The new boot order: the ids with the first match moved to the front, or nothing when
/// no option matches.
pub open spec fn reordered(opts: Seq<BootOption>, field: BootOptionMatchField, name: Seq<char>) -> Option<Seq<Seq<char>>> {
    match find_first(opts, field, name) {
        Some(k) => Some(put_first(option_ids(opts), k)),
        None => None,
    }
}

/// The message of the error for a name that no boot option matches.
pub open spec fn no_match_message(name: Seq<char>) -> Seq<char> {
    "No boot option matches "@ + name
}

/// What a search for `name` among `opts` gives: the new order, or `NotFound`.
pub open spec fn reorder_result(opts: Seq<BootOption>, field: BootOptionMatchField, name: Seq<char>) -> Result<Seq<Seq<char>>, ErrorView> {
    match reordered(opts, field, name) {
        Some(ids) => Ok(ids),
        None => Err(ErrorView::NotFound(no_match_message(name))),
    }
}

/// The first match is found, and a match earlier than any other stays the first one when
/// the list grows.
pub proof fn lemma_find_first_prefix(opts: Seq<BootOption>, field: BootOptionMatchField, name: Seq<char>, n: int)
    requires
        0 <= n <= opts.len(),
    ensures
        find_first(opts.subrange(0, n), field, name) is Some ==> find_first(opts, field, name) == find_first(opts.subrange(0, n), field, name),
        find_first(opts, field, name) is Some ==> 0 <= find_first(opts, field, name)->Some_0 < opts.len()
            && option_matches(opts[find_first(opts, field, name)->Some_0], field, name),
        find_first(opts, field, name) is None <==> forall|j: int| 0 <= j < opts.len() ==> !option_matches(opts[j], field, name),
        find_first(opts, field, name) is Some ==> forall|j: int| 0 <= j < find_first(opts, field, name)->Some_0 ==> !option_matches(#[trigger] opts[j], field, name),
    decreases opts.len(),
{
    if opts.len() > 0 {
        let p = opts.drop_last();
        if n == opts.len() {
            assert(opts.subrange(0, n) =~= opts);
        } else {
            assert(opts.subrange(0, n) =~= p.subrange(0, n));
        }
        lemma_find_first_prefix(p, field, name, if n == opts.len() { n - 1 } else { n });
        assert forall|j: int| 0 <= j < p.len() implies p[j] == opts[j] by {}
    }
}

/// Does option `o` match `name` on `field`?
pub fn option_matches_exec(o: &BootOption, field: BootOptionMatchField, name: &str) -> (r: bool)
    ensures
        r == option_matches(*o, field, name@),
{
    match field {
        BootOptionMatchField::DisplayName => starts_with(o.display_name.as_str(), name),
        BootOptionMatchField::UefiDevicePath => match &o.uefi_device_path {
            Some(p) => starts_with(p.as_str(), name),
            None => false,
        },
    }
}

/// The ids of `options`, in order, with the first option whose `field` begins with
/// `name` moved to the front; `NotFound` when none does.
pub fn boot_order_with_first(options: &Vec<BootOption>, field: BootOptionMatchField, name: &str) -> (r: Result<Vec<String>, RedfishError>)
    ensures
        match r {
            Ok(v) => reorder_result(options@, field, name@) == Ok::<Seq<Seq<char>>, ErrorView>(strings_view(v@)),
            Err(e) => reorder_result(options@, field, name@) == Err::<Seq<Seq<char>>, ErrorView>(e@),
        },
{
    let n = options.len();
    let mut k: usize = 0;
    while k < n && !option_matches_exec(&options[k], field, name)
        invariant
            n == options@.len(),
            k <= n,
            forall|j: int| 0 <= j < k ==> !option_matches(options@[j], field, name@),
        decreases n - k,
    {
        k = k + 1;
    }
    proof {
        lemma_find_first_prefix(options@, field, name@, k as int);
    }
    if k == n {
        let msg = crate::url::cat2("No boot option matches ", name);
        return Err(RedfishError::NotFound(msg));
    }
    proof {
        let pre = options@.subrange(0, k + 1);
        assert(pre.drop_last() =~= options@.subrange(0, k as int));
        lemma_find_first_prefix(options@.subrange(0, k as int), field, name@, 0);
        assert forall|j: int| 0 <= j < k implies !option_matches(options@.subrange(0, k as int)[j], field, name@) by {}
        assert(find_first(pre, field, name@) == Some(k as int));
        lemma_find_first_prefix(options@, field, name@, k + 1);
    }
    let ghost ids = option_ids(options@);
    let mut out: Vec<String> = Vec::new();
    out.push(options[k].id.clone());
    let mut i: usize = 0;
    while i < k
        invariant
            n == options@.len(),
            k < n,
            i <= k,
            ids == option_ids(options@),
            strings_view(out@) == seq![ids[k as int]] + ids.subrange(0, i as int),
        decreases k - i,
    {
        let ghost before = out@;
        let id = options[i].id.clone();
        assert(id@ == ids[i as int]);
        out.push(id);
        proof {
            assert(strings_view(out@) =~= strings_view(before).push(ids[i as int]));
            assert(strings_view(out@) =~= seq![ids[k as int]] + ids.subrange(0, i + 1));
        }
        i = i + 1;
    }
    let mut i: usize = k + 1;
    while i < n
        invariant
            n == options@.len(),
            k < n,
            k + 1 <= i <= n,
            ids == option_ids(options@),
            strings_view(out@) == seq![ids[k as int]] + ids.subrange(0, k as int) + ids.subrange(k + 1, i as int),
        decreases n - i,
    {
        let ghost before = out@;
        let id = options[i].id.clone();
        assert(id@ == ids[i as int]);
        out.push(id);
        proof {
            assert(strings_view(out@) =~= strings_view(before).push(ids[i as int]));
            assert(strings_view(out@) =~= seq![ids[k as int]] + ids.subrange(0, k as int) + ids.subrange(k + 1, i + 1));
        }
        i = i + 1;
    }
    assert(strings_view(out@) =~= put_first(ids, k as int));
    Ok(out)
}

/// Moving the element at `k` to the front gives a permutation of `l` that starts with
/// that element and keeps every other element in its relative order; without
/// duplicates in `l`, there are none in the result.
pub proof fn lemma_put_first_permutes<A>(l: Seq<A>, k: int)
    requires
        0 <= k < l.len(),
    ensures
        put_first(l, k).len() == l.len(),
        put_first(l, k)[0] == l[k],
        put_first(l, k).drop_first() == l.remove(k),
        put_first(l, k).to_multiset() == l.to_multiset(),
        l.no_duplicates() ==> put_first(l, k).no_duplicates(),
{
    let r = put_first(l, k);
    assert(r.drop_first() =~= l.remove(k));
    assert(r =~= l.remove(k).insert(0, l[k]));
    l.remove(k).to_multiset_ensures();
    l.to_multiset_ensures();
    assert(l.remove(k).insert(k, l[k]) =~= l);
    vstd::seq_lib::lemma_multiset_commutative(seq![l[k]], l.remove(k));
    assert(seq![l[k]] + l.remove(k) =~= r);
    vstd::seq_lib::lemma_multiset_commutative(l.subrange(0, k), seq![l[k]] + l.subrange(k + 1, l.len() as int));
    assert(l.subrange(0, k) + (seq![l[k]] + l.subrange(k + 1, l.len() as int)) =~= l);
    vstd::seq_lib::lemma_multiset_commutative(l.subrange(0, k), l.subrange(k + 1, l.len() as int));
    assert(l.subrange(0, k) + l.subrange(k + 1, l.len() as int) =~= l.remove(k));
    vstd::seq_lib::lemma_multiset_commutative(seq![l[k]], l.subrange(k + 1, l.len() as int));
    if l.no_duplicates() {
        assert forall|i: int, j: int| 0 <= i < r.len() && 0 <= j < r.len() && i != j implies r[i] != r[j] by {
            let oi = if i == 0 { k } else if i - 1 < k { i - 1 } else { i };
            let oj = if j == 0 { k } else if j - 1 < k { j - 1 } else { j };
            assert(r[i] == l[oi]);
            assert(r[j] == l[oj]);
        }
    }
}

/// Boot-order preservation: when an option matches, the new order is a permutation of
/// the old one that starts with the first matching option's id and keeps every other
/// id in its relative order (and, like the old order, has no duplicates); when none
/// matches, the result is `NotFound`.
pub proof fn lemma_reorder_preserves(opts: Seq<BootOption>, field: BootOptionMatchField, name: Seq<char>)
    ensures
        match reorder_result(opts, field, name) {
            Ok(ids) => {
                let k = find_first(opts, field, name)->Some_0;
                &&& 0 <= k < opts.len()
                &&& option_matches(opts[k], field, name)
                &&& forall|j: int| 0 <= j < k ==> !option_matches(#[trigger] opts[j], field, name)
                &&& ids[0] == opts[k].id@
                &&& ids.drop_first() == option_ids(opts).remove(k)
                &&& ids.to_multiset() == option_ids(opts).to_multiset()
                &&& (option_ids(opts).no_duplicates() ==> ids.no_duplicates())
            },
            Err(e) => {
                &&& e == ErrorView::NotFound(no_match_message(name))
                &&& forall|j: int| 0 <= j < opts.len() ==> !option_matches(#[trigger] opts[j], field, name)
            },
        },
{
    lemma_find_first_prefix(opts, field, name, opts.len() as int);
    if let Some(k) = find_first(opts, field, name) {
        lemma_put_first_permutes(option_ids(opts), k);
    }
}

} // verus!
