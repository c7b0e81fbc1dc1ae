//! Bus-address parsing and resolution.
//!
//! A tray item is reached through a full address of the form
//! `destination/object/path`. A bare destination such as `1.58` stands for
//! the default object path. The watcher service hands out a list of full
//! addresses; a short bus name resolves to the first entry that starts with
//! it, or to the name with the default path appended.

use vstd::prelude::*;
use vstd::string::StrSliceExecFns;
use vstd::string::StringExecFns;

verus! {

/// The object path used when an address names no explicit one.
pub open spec fn default_item_path() -> Seq<char> {
    "/StatusNotifierItem"@
}

/// `i` is the position of the first `/` in `s`.
pub open spec fn is_first_slash(s: Seq<char>, i: int) -> bool {
    &&& 0 <= i < s.len()
    &&& s[i] == '/'
    &&& forall|j: int| 0 <= j < i ==> s[j] != '/'
}

pub open spec fn has_slash(s: Seq<char>) -> bool {
    exists|i: int| is_first_slash(s, i)
}

pub open spec fn first_slash(s: Seq<char>) -> int {
    choose|i: int| is_first_slash(s, i)
}

/// The destination half of a full address: everything before the first `/`,
/// or the whole string when there is none.
pub open spec fn spec_destination(s: Seq<char>) -> Seq<char> {
    if has_slash(s) {
        s.subrange(0, first_slash(s))
    } else {
        s
    }
}

/// The path half of a full address: the first `/` and everything after it,
/// or the default object path when there is no `/`.
pub open spec fn spec_path(s: Seq<char>) -> Seq<char> {
    if has_slash(s) {
        s.subrange(first_slash(s), s.len() as int)
    } else {
        default_item_path()
    }
}

proof fn lemma_first_slash_unique(s: Seq<char>, i: int)
    requires
        is_first_slash(s, i),
    ensures
        has_slash(s),
        first_slash(s) == i,
{
    assert(has_slash(s));
    let k = first_slash(s);
    assert(is_first_slash(s, k));
    if k < i {
        assert(s[k] != '/');
    }
    if i < k {
        assert(s[i] != '/');
    }
}

/// Position of the first `/` in `s`, if any.
fn find_first_slash(s: &str) -> (r: Option<usize>)
    ensures
        match r {
            Some(i) => is_first_slash(s@, i as int),
            None => !has_slash(s@),
        },
{
    let n = s.unicode_len();
    let mut i: usize = 0;
    while i < n
        invariant
            n == s@.len(),
            i <= n,
            forall|j: int| 0 <= j < i ==> s@[j] != '/',
        decreases n - i,
    {
        if s.get_char(i) == '/' {
            return Some(i);
        }
        i += 1;
    }
    None
}

/// Splits a full item address into `(destination, object path)`.
///
/// `1.58` has no explicit path and gets the default one; in
/// `1.58/org/blueman/sni` the path keeps its leading `/`.
pub fn parse_sni_address<'a>(address: &'a str) -> (r: (&'a str, String))
    ensures
        r.0@ == spec_destination(address@),
        r.1@ == spec_path(address@),
{
    match find_first_slash(address) {
        Some(i) => {
            let n = address.unicode_len();
            proof {
                lemma_first_slash_unique(address@, i as int);
            }
            let dest = address.substring_char(0, i);
            let path = String::from_str(address.substring_char(i, n));
            (dest, path)
        },
        None => (address, String::from_str("/StatusNotifierItem")),
    }
}

/// `s` starts with `p`.
pub open spec fn spec_starts_with(s: Seq<char>, p: Seq<char>) -> bool {
    p.len() <= s.len() && s.subrange(0, p.len() as int) == p
}

/// Whether the string `s` starts with the prefix `p`.
pub fn str_starts_with(s: &str, p: &str) -> (r: bool)
    ensures
        r == spec_starts_with(s@, p@),
{
    let ns = s.unicode_len();
    let np = p.unicode_len();
    if np > ns {
        return false;
    }
    let mut i: usize = 0;
    while i < np
        invariant
            ns == s@.len(),
            np == p@.len(),
            np <= ns,
            i <= np,
            forall|j: int| 0 <= j < i ==> s@[j] == p@[j],
        decreases np - i,
    {
        if s.get_char(i) != p.get_char(i) {
            proof {
                assert(s@.subrange(0, np as int)[i as int] != p@[i as int]);
            }
            return false;
        }
        i += 1;
    }
    proof {
        assert(s@.subrange(0, np as int) =~= p@);
    }
    true
}

/// `i` is the position of the first registered item that starts with `bus`.
pub open spec fn is_first_match(items: Seq<Seq<char>>, bus: Seq<char>, i: int) -> bool {
    &&& 0 <= i < items.len()
    &&& spec_starts_with(items[i], bus)
    &&& forall|j: int| 0 <= j < i ==> !spec_starts_with(items[j], bus)
}

pub open spec fn has_match(items: Seq<Seq<char>>, bus: Seq<char>) -> bool {
    exists|i: int| is_first_match(items, bus, i)
}

pub open spec fn first_match(items: Seq<Seq<char>>, bus: Seq<char>) -> int {
    choose|i: int| is_first_match(items, bus, i)
}

/// The full address a short bus name resolves to, given the watcher's
/// registered-items list.
pub open spec fn spec_full_address(items: Seq<Seq<char>>, bus: Seq<char>) -> Seq<char> {
    if has_match(items, bus) {
        items[first_match(items, bus)]
    } else {
        bus + default_item_path()
    }
}

proof fn lemma_first_match_unique(items: Seq<Seq<char>>, bus: Seq<char>, i: int)
    requires
        is_first_match(items, bus, i),
    ensures
        has_match(items, bus),
        first_match(items, bus) == i,
{
    assert(has_match(items, bus));
    let k = first_match(items, bus);
    assert(is_first_match(items, bus, k));
    if k < i {
        assert(!spec_starts_with(items[k], bus));
    }
    if i < k {
        assert(!spec_starts_with(items[i], bus));
    }
}

/// Scans the watcher's registered-items list for the first entry that starts
/// with `bus_name`; falls back to `bus_name` followed by the default object
/// path when none matches.
pub fn select_full_address(items: &Vec<String>, bus_name: &str) -> (r: String)
    ensures
        r@ == spec_full_address(items.deep_view(), bus_name@),
{
    let ghost views = items.deep_view();
    let n = items.len();
    let mut i: usize = 0;
    while i < n
        invariant
            n == items@.len(),
            views == items.deep_view(),
            i <= n,
            forall|j: int| 0 <= j < i ==> !spec_starts_with(views[j], bus_name@),
        decreases n - i,
    {
        if str_starts_with(items[i].as_str(), bus_name) {
            proof {
                assert(views[i as int] == items@[i as int]@);
                lemma_first_match_unique(views, bus_name@, i as int);
            }
            return items[i].clone();
        }
        i += 1;
    }
    proof {
        if has_match(views, bus_name@) {
            let k = first_match(views, bus_name@);
            assert(is_first_match(views, bus_name@, k));
        }
    }
    String::from_str(bus_name).concat("/StatusNotifierItem")
}

} // verus!
