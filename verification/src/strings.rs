//! Conversions between lists of strings and of string slices, which keep
//! the characters of every item.

use vstd::prelude::*;

verus! {

/// A copy of a list of strings.
pub fn copy_strings(v: &Vec<String>) -> (r: Vec<String>)
    ensures
        r.deep_view() == v.deep_view(),
        r@.len() == v@.len(),
{
    let mut r: Vec<String> = Vec::new();
    let mut i: usize = 0;
    while i < v.len()
        invariant
            i <= v@.len(),
            r.deep_view() == v.deep_view().take(i as int),
        decreases v@.len() - i,
    {
        r.push(v[i].clone());
        proof {
            assert(v.deep_view().take(i + 1) == v.deep_view().take(i as int).push(v@[i as int]@));
        }
        i = i + 1;
    }
    proof {
        assert(v.deep_view().take(v@.len() as int) == v.deep_view());
    }
    r
}

/// A list of strings made from string slices.
pub fn strings_of(v: &[&str]) -> (r: Vec<String>)
    ensures
        r.deep_view() == v.deep_view(),
        r@.len() == v@.len(),
{
    let mut r: Vec<String> = Vec::new();
    let mut i: usize = 0;
    while i < v.len()
        invariant
            i <= v@.len(),
            r.deep_view() == v.deep_view().take(i as int),
        decreases v@.len() - i,
    {
        r.push(v[i].to_owned());
        proof {
            assert(v.deep_view().take(i + 1) == v.deep_view().take(i as int).push(v@[i as int]@));
        }
        i = i + 1;
    }
    proof {
        assert(v.deep_view().take(v@.len() as int) == v.deep_view());
    }
    r
}

/// String slices of a list of strings.
pub fn str_slices(v: &Vec<String>) -> (r: Vec<&str>)
    ensures
        r.deep_view() == v.deep_view(),
        r@.len() == v@.len(),
{
    let mut r: Vec<&str> = Vec::new();
    let mut i: usize = 0;
    while i < v.len()
        invariant
            i <= v@.len(),
            r.deep_view() == v.deep_view().take(i as int),
        decreases v@.len() - i,
    {
        r.push(v[i].as_str());
        proof {
            assert(v.deep_view().take(i + 1) == v.deep_view().take(i as int).push(v@[i as int]@));
        }
        i = i + 1;
    }
    proof {
        assert(v.deep_view().take(v@.len() as int) == v.deep_view());
    }
    r
}

} // verus!
