//! Option lists shared by the pickers and menus: text views of the
//! labels, index clamping and building label lists from string slices.

use vstd::prelude::*;

verus! {

/// Text of each label.
pub open spec fn texts(v: Seq<String>) -> Seq<Seq<char>> {
    v.map_values(|s: String| s@)
}

/// Text of each string slice.
pub open spec fn str_texts(v: Seq<&str>) -> Seq<Seq<char>> {
    v.map_values(|s: &str| s@)
}

/// Index clamped into a list of `len` entries (0 for an empty list).
pub open spec fn clamp_index(len: int, index: int) -> int {
    if len == 0 {
        0
    } else if index < len - 1 {
        index
    } else {
        len - 1
    }
}

/// Whether `index` is a valid selection for a list of `len` entries: an
/// entry, or 0 for an empty list.
pub open spec fn selection_in(len: int, index: int) -> bool {
    if len == 0 {
        index == 0
    } else {
        0 <= index < len
    }
}

/// Index clamped into a list of `len` entries (0 for an empty list).
pub fn clamp_to(len: usize, index: usize) -> (i: usize)
    ensures
        i == clamp_index(len as int, index as int),
        selection_in(len as int, i as int),
{
    if len == 0 {
        0
    } else if index < len - 1 {
        index
    } else {
        len - 1
    }
}

/// Owned copies of string slices, in order.
pub fn strings_from_slice(items: &[&str]) -> (v: Vec<String>)
    ensures
        texts(v@) == str_texts(items@),
{
    let mut v: Vec<String> = Vec::new();
    let n = items.len();
    for i in 0..n
        invariant
            n == items@.len(),
            v@.len() == i,
            forall|j: int| 0 <= j < i ==> #[trigger] v@[j]@ == items@[j]@,
    {
        v.push(items[i].to_owned());
    }
    assert(texts(v@) =~= str_texts(items@));
    v
}

/// Owned copy of a string slice.
pub fn owned(s: &str) -> (r: String)
    ensures
        r@ == s@,
{
    s.to_owned()
}

/// Text of entry `index`, if it exists.
pub fn entry(v: &Vec<String>, index: usize) -> (r: Option<&str>)
    ensures
        match r {
            Some(s) => index < v@.len() && s@ == v@[index as int]@,
            None => index >= v@.len(),
        },
{
    if index < v.len() {
        Some(v[index].as_str())
    } else {
        None
    }
}

} // verus!
