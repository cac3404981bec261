//! Helpers that collect borrowed tokens into owned argument lists.

use vstd::prelude::*;
use vstd::string::*;

verus! {

/// `[&str; N]` => `Vec<String>`.
///
/// See also: [`collect_to_ministr_slice()`].
pub fn collect_to_args<const N: usize>(slice: [&str; N]) -> (r: Vec<String>)
    ensures
        r.deep_view() == slice.deep_view(),
{
    collect_to_ministr_slice(slice.as_slice())
}

/// `&[&str]` => `Vec<String>`: every token is copied into an owned string.
pub fn collect_to_ministr_slice(items: &[&str]) -> (r: Vec<String>)
    ensures
        r.deep_view() == items.deep_view(),
{
    let ghost dv = items.deep_view();
    let mut out: Vec<String> = Vec::new();
    let mut i: usize = 0;
    while i < items.len()
        invariant
            i <= items.len(),
            dv == items.deep_view(),
            dv.len() == items@.len(),
            out.deep_view() == dv.take(i as int),
        decreases items.len() - i,
    {
        let ghost pre = out.deep_view();
        out.push(items[i].to_owned());
        proof {
            assert(out.deep_view() =~= pre.push(dv[i as int]));
            assert(pre.push(dv[i as int]) =~= dv.take(i + 1));
        }
        i += 1;
    }
    proof {
        assert(dv.take(dv.len() as int) =~= dv);
    }
    out
}

} // verus!
