//! Accuracy evaluation over a labelled image set laid out one directory
//! per class: class numbering, which files are images, and top-1 / top-5
//! hits.

use vstd::prelude::*;

use crate::utils::text::{
    has_suffix, sort_texts, str_ends_with, string_views, text_le, to_uppercase, unicode_uppercase,
};

verus! {

/// Whether a file name is a JPEG image by its extension, in any case.
pub fn is_jpeg_file_name(name: &str) -> (b: bool)
    ensures
        b == (has_suffix(unicode_uppercase(name@), ".JPEG"@) || has_suffix(
            unicode_uppercase(name@),
            ".JPG"@,
        )),
{
    let u = to_uppercase(name);
    str_ends_with(u.as_str(), ".JPEG") || str_ends_with(u.as_str(), ".JPG")
}

/// The class directories in class-index order: sorted by name, so class
/// `i` is the `i`-th name.
pub fn class_order(names: Vec<String>) -> (r: Vec<String>)
    ensures
        string_views(r@).to_multiset() == string_views(names@).to_multiset(),
        forall|i: int, j: int| 0 <= i < j < r@.len() ==> text_le(#[trigger] r@[i]@, #[trigger] r@[j]@),
{
    let mut v = names;
    sort_texts(&mut v);
    v
}

/// Whether the ranked class indices `topk` hit the true class: first
/// place (top-1) and anywhere (top-k).
pub fn top_hits(topk: &Vec<usize>, truth: usize) -> (r: (bool, bool))
    requires
        topk@.len() > 0,
    ensures
        r.0 == (topk@[0] == truth),
        r.1 == topk@.contains(truth),
{
    let top1 = topk[0] == truth;
    let mut found = false;
    let mut i: usize = 0;
    while i < topk.len()
        invariant
            i <= topk@.len(),
            found == (exists|k: int| 0 <= k < i && topk@[k] == truth),
        decreases topk.len() - i,
    {
        if topk[i] == truth {
            found = true;
        }
        i += 1;
    }
    (top1, found)
}

} // verus!
