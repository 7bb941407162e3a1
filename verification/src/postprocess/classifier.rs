//! Optional classification of raw model outputs: class labels, the
//! decision whether to classify, and the label of a class index.
//!
//! Ranking the scores and the softmax are floating-point work done outside
//! this module.

use vstd::prelude::*;

use crate::utils::errors::{display_name, ErrorView, MiddlewareError, Precision};
use crate::utils::text::{
    concat3, decimal, nonblank_lines, nonblank_trimmed, push_decimal, split_pieces, string_views,
};

verus! {

/// Post-processor mapping class indices to labels.
pub struct Classifier {
    labels: Vec<String>,
    /// Apply softmax to raw scores before ranking them.
    pub softmax: bool,
}

/// The label of class `idx`: its entry in `labels`, else `"Class <idx>"`.
pub open spec fn label_of(labels: Seq<Seq<char>>, idx: nat) -> Seq<char> {
    if idx < labels.len() {
        labels[idx as int]
    } else {
        "Class "@ + decimal(idx)
    }
}

impl Classifier {
    /// The class labels, in order.
    pub closed spec fn labels(&self) -> Seq<Seq<char>> {
        string_views(self.labels@)
    }

    /// Whether softmax is applied before ranking.
    pub closed spec fn softmax_on(&self) -> bool {
        self.softmax
    }

    /// A classifier without labels.
    pub fn new(softmax: bool) -> (c: Classifier)
        ensures
            c.labels() == Seq::<Seq<char>>::empty(),
            c.softmax_on() == softmax,
    {
        let c = Classifier { labels: Vec::new(), softmax };
        assert(c.labels() =~= Seq::<Seq<char>>::empty());
        c
    }

    /// A classifier whose labels are the lines of `text` (one label per
    /// line), trimmed, blank lines left out.
    pub fn from_label_text(text: &str, softmax: bool) -> (c: Classifier)
        ensures
            c.labels() == nonblank_trimmed(split_pieces(text@, '\n')),
            c.softmax_on() == softmax,
    {
        Classifier { labels: nonblank_lines(text), softmax }
    }

    /// The error for a labels file that could not be read.
    pub fn labels_file_error(path: &str, reason: &str) -> (e: MiddlewareError)
        ensures
            e@ == ErrorView::ConfigError(
                "Failed to load labels from '"@ + path@ + "': "@ + reason@,
            ),
    {
        let mut m = concat3("Failed to load labels from '", path, "': ");
        m.append(reason);
        MiddlewareError::ConfigError(m)
    }

    /// Whether any class label is loaded.
    pub fn has_labels(&self) -> (b: bool)
        ensures
            b == (self.labels().len() > 0),
    {
        self.labels.len() > 0
    }

    /// Number of class labels.
    pub fn num_labels(&self) -> (n: usize)
        ensures
            n == self.labels().len(),
    {
        self.labels.len()
    }

    /// The label of class `idx`.
    pub fn label(&self, idx: usize) -> (s: String)
        ensures
            s@ == label_of(self.labels(), idx as nat),
    {
        if idx < self.labels.len() {
            self.labels[idx].clone()
        } else {
            let mut s = String::from_str("Class ");
            push_decimal(&mut s, idx as u64);
            s
        }
    }

    /// Whether raw outputs get classified: there is an output, and labels
    /// are loaded or softmax is on.
    pub fn wants_classification(&self, num_outputs: usize) -> (b: bool)
        ensures
            b == ((self.labels().len() > 0 || self.softmax_on()) && num_outputs > 0),
    {
        (self.labels.len() > 0 || self.softmax) && num_outputs > 0
    }

    /// Scores can be ranked only when there is at least one.
    pub fn check_scores(num_scores: usize) -> (r: Result<(), MiddlewareError>)
        ensures
            num_scores > 0 <==> r is Ok,
            r matches Err(e) ==> e@ == ErrorView::PostprocessingFailed("Empty output tensor"@),
    {
        if num_scores == 0 {
            Err(MiddlewareError::PostprocessingFailed(String::from_str("Empty output tensor")))
        } else {
            Ok(())
        }
    }
}

/// Only FP32 and FP16 outputs can be decoded to scores.
pub fn check_decodable(p: Precision) -> (r: Result<(), MiddlewareError>)
    ensures
        (p == Precision::FP32 || p == Precision::FP16) <==> r is Ok,
        r matches Err(e) ==> e@ == ErrorView::PostprocessingFailed(
            "Cannot postprocess "@ + display_name(p)
                + " tensors directly \u{2014} convert to FP32 first"@,
        ),
{
    match p {
        Precision::FP32 | Precision::FP16 => Ok(()),
        _ => Err(
            MiddlewareError::PostprocessingFailed(
                concat3(
                    "Cannot postprocess ",
                    p.display_str(),
                    " tensors directly \u{2014} convert to FP32 first",
                ),
            ),
        ),
    }
}

} // verus!
