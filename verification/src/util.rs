//! Small verified buffer-copy helpers shared by the attribute store.

use vstd::prelude::*;

verus! {

/// Copies a vector of plain scalars element by element.
pub(crate) fn copy_vec<T: Copy>(v: &Vec<T>) -> (r: Vec<T>)
    ensures
        r@ == v@,
{
    let mut r: Vec<T> = Vec::new();
    let mut i: usize = 0;
    while i < v.len()
        invariant
            i <= v.len(),
            r@ == v@.subrange(0, i as int),
        decreases v.len() - i,
    {
        r.push(v[i]);
        i = i + 1;
    }
    assert(r@ == v@);
    r
}

/// Copies a slice of plain scalars into a fresh vector.
pub(crate) fn slice_to_vec<T: Copy>(s: &[T]) -> (r: Vec<T>)
    ensures
        r@ == s@,
{
    let mut r: Vec<T> = Vec::new();
    let mut i: usize = 0;
    while i < s.len()
        invariant
            i <= s.len(),
            r@ == s@.subrange(0, i as int),
        decreases s.len() - i,
    {
        r.push(s[i]);
        i = i + 1;
    }
    assert(r@ == s@);
    r
}

/// Copies a vector of optional strings, cloning each present string.
pub(crate) fn copy_str_values(v: &Vec<Option<String>>) -> (r: Vec<Option<String>>)
    ensures
        r@ == v@,
{
    let mut r: Vec<Option<String>> = Vec::new();
    let mut i: usize = 0;
    while i < v.len()
        invariant
            i <= v.len(),
            r@ == v@.subrange(0, i as int),
        decreases v.len() - i,
    {
        match &v[i] {
            Some(s) => {
                let c = s.clone();
                assert(c == v@[i as int]->Some_0);
                r.push(Some(c));
            },
            None => {
                r.push(None);
            },
        }
        assert(r@ == v@.subrange(0, i as int + 1));
        i = i + 1;
    }
    assert(r@ == v@);
    r
}

} // verus!
