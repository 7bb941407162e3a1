//! What the simulated backends share: the engine description they report
//! and the uniform scores they produce.

use vstd::prelude::*;

use crate::inference::traits::{
    shape_product, spec_views, EngineInfo, EngineInfoView, TensorBuffer, TensorBufferView,
    TensorSpec, TensorSpecView,
};
use crate::utils::errors::{ErrorView, MiddlewareError, Precision};
use crate::utils::paths::{file_stem, path_stem};

verus! {

/// The input descriptor of a simulated engine: one 224×224 RGB image.
pub open spec fn sim_input() -> TensorSpecView {
    TensorSpecView { name: "input"@, shape: seq![1usize, 3, 224, 224] }
}

/// The output descriptor of a simulated engine: 1000 class scores.
pub open spec fn sim_output() -> TensorSpecView {
    TensorSpecView { name: "output"@, shape: seq![1usize, 1000] }
}

/// The engine a simulated backend reports.
pub open spec fn sim_info(name: Seq<char>, memory_bytes: u64) -> EngineInfoView {
    EngineInfoView {
        name,
        precision: Precision::FP32,
        inputs: seq![sim_input()],
        outputs: seq![sim_output()],
        memory_bytes,
    }
}

/// The file stem of `path`, or `fallback` when it has none.
pub open spec fn stem_or(path: Seq<char>, fallback: Seq<char>) -> Seq<char> {
    match path_stem(path) {
        Some(s) => s,
        None => fallback,
    }
}

/// The file stem of `path`, or `fallback` when it has none.
pub fn stem_or_else(path: &str, fallback: &str) -> (s: String)
    ensures
        s@ == stem_or(path@, fallback@),
{
    match file_stem(path) {
        Some(s) => s,
        None => String::from_str(fallback),
    }
}

/// Builds the engine description of a simulated backend.
pub fn simulated_engine_info(name: String, memory_bytes: u64) -> (info: EngineInfo)
    ensures
        info@ == sim_info(name@, memory_bytes),
{
    let mut in_shape: Vec<usize> = Vec::new();
    in_shape.push(1);
    in_shape.push(3);
    in_shape.push(224);
    in_shape.push(224);
    let mut out_shape: Vec<usize> = Vec::new();
    out_shape.push(1);
    out_shape.push(1000);
    assert(in_shape@ =~= seq![1usize, 3, 224, 224]);
    assert(out_shape@ =~= seq![1usize, 1000]);
    let mut inputs: Vec<TensorSpec> = Vec::new();
    inputs.push(TensorSpec { name: String::from_str("input"), shape: in_shape });
    let mut outputs: Vec<TensorSpec> = Vec::new();
    outputs.push(TensorSpec { name: String::from_str("output"), shape: out_shape });
    assert(inputs@[0]@ == sim_input());
    assert(outputs@[0]@ == sim_output());
    assert(spec_views(inputs@) =~= seq![sim_input()]);
    assert(spec_views(outputs@) =~= seq![sim_output()]);
    let info = EngineInfo { name, precision: Precision::FP32, inputs, outputs, memory_bytes };
    info
}

/// `n` copies of the four bytes `b`.
pub open spec fn repeated(b: Seq<u8>, n: nat) -> Seq<u8> {
    Seq::new(4 * n, |i: int| b[i % 4])
}

/// The output tensor of a simulated pass: every one of the output's
/// elements holds the FP32 score whose little-endian bytes are `score`.
pub open spec fn uniform_output(out: TensorSpecView, score: Seq<u8>) -> TensorBufferView {
    TensorBufferView {
        name: out.name,
        data: repeated(score, shape_product(out.shape)),
        shape: out.shape,
        precision: Precision::FP32,
    }
}

/// The simulated output holds 1000 elements.
pub proof fn lemma_sim_output_elements()
    ensures
        shape_product(sim_output().shape) == 1000,
{
    let s0 = Seq::<usize>::empty();
    let s1 = s0.push(1usize);
    let s2 = s1.push(1000usize);
    assert(s1.drop_last() =~= s0);
    assert(s2.drop_last() =~= s1);
    assert(shape_product(s0) == 1);
    assert(s1.last() == 1usize && s2.last() == 1000usize);
    assert(shape_product(s1) == shape_product(s0) * 1);
    assert(shape_product(s1) == 1);
    assert(shape_product(s2) == shape_product(s1) * 1000);
    assert(shape_product(s2) == 1000);
    assert(sim_output().shape =~= s2);
}

/// The simulated input holds 150528 elements.
pub proof fn lemma_sim_input_elements()
    ensures
        shape_product(sim_input().shape) == 150528,
{
    let s0 = Seq::<usize>::empty();
    let s1 = s0.push(1usize);
    let s2 = s1.push(3usize);
    let s3 = s2.push(224usize);
    let s4 = s3.push(224usize);
    assert(s1.drop_last() =~= s0);
    assert(s2.drop_last() =~= s1);
    assert(s3.drop_last() =~= s2);
    assert(s4.drop_last() =~= s3);
    assert(shape_product(s0) == 1);
    assert(s1.last() == 1usize && s2.last() == 3usize && s3.last() == 224usize && s4.last()
        == 224usize);
    assert(shape_product(s1) == shape_product(s0) * 1);
    assert(shape_product(s2) == shape_product(s1) * 3);
    assert(shape_product(s3) == shape_product(s2) * 224);
    assert(shape_product(s4) == shape_product(s3) * 224);
    assert(sim_input().shape =~= s4);
}

/// The running products over the simulated input shape stay small.
pub proof fn lemma_sim_input_fits()
    ensures
        crate::inference::traits::product_fits(sim_input().shape),
{
    let s = sim_input().shape;
    lemma_sim_input_elements();
    assert forall|k: int| 0 <= k <= s.len() implies #[trigger] shape_product(s.take(k))
        <= usize::MAX by {
        let s0 = Seq::<usize>::empty();
        let s1 = s0.push(1usize);
        let s2 = s1.push(3usize);
        let s3 = s2.push(224usize);
        assert(s1.drop_last() =~= s0);
        assert(s2.drop_last() =~= s1);
        assert(s3.drop_last() =~= s2);
        assert(shape_product(s1) == shape_product(s0) * 1);
        assert(shape_product(s2) == shape_product(s1) * 3);
        assert(shape_product(s3) == shape_product(s2) * 224);
        if k == 0 {
            assert(s.take(k) =~= s0);
        } else if k == 1 {
            assert(s.take(k) =~= s1);
        } else if k == 2 {
            assert(s.take(k) =~= s2);
        } else if k == 3 {
            assert(s.take(k) =~= s3);
        } else {
            assert(s.take(k) =~= s);
        }
    }
}

/// Builds the output of a simulated pass over the simulated output
/// descriptor.
pub fn uniform_scores(score: [u8; 4]) -> (r: Vec<TensorBuffer>)
    ensures
        r@.len() == 1,
        r@[0]@ == uniform_output(sim_output(), score@),
{
    let mut data: Vec<u8> = Vec::new();
    let mut k: usize = 0;
    while k < 1000
        invariant
            k <= 1000,
            data@ == repeated(score@, k as nat),
        decreases 1000 - k,
    {
        data.push(score[0]);
        data.push(score[1]);
        data.push(score[2]);
        data.push(score[3]);
        assert(data@ =~= repeated(score@, (k + 1) as nat));
        k += 1;
    }
    let mut shape: Vec<usize> = Vec::new();
    shape.push(1);
    shape.push(1000);
    proof {
        lemma_sim_output_elements();
    }
    let mut r: Vec<TensorBuffer> = Vec::new();
    let out = TensorBuffer {
        name: String::from_str("output"),
        data,
        shape,
        precision: Precision::FP32,
    };
    assert(out@.shape =~= seq![1usize, 1000]);
    r.push(out);
    r
}


/// The views of a list of tensors.
pub open spec fn buffer_views(v: Seq<TensorBuffer>) -> Seq<TensorBufferView> {
    v.map_values(|t: TensorBuffer| t@)
}

/// The view of an inference result.
pub open spec fn outputs_view(r: Result<Vec<TensorBuffer>, MiddlewareError>) -> Result<
    Seq<TensorBufferView>,
    ErrorView,
> {
    match r {
        Ok(v) => Ok(buffer_views(v@)),
        Err(e) => Err(e@),
    }
}

/// The view of an engine-load result.
pub open spec fn load_view(r: Result<EngineInfo, MiddlewareError>) -> Result<
    EngineInfoView,
    ErrorView,
> {
    match r {
        Ok(i) => Ok(i@),
        Err(e) => Err(e@),
    }
}

} // verus!
