//! The network as a sequence of stages: which inputs it takes, what it makes
//! of their extents, and for which sizes it can be run.

use vstd::prelude::*;

use crate::backend::conv2d_unrolled_dims;
use crate::layer::{copy_dims, ConvSpec, Stage};
use crate::shape::{
    at_least_one_image, conv_extent, lemma_sized_of_four, lemma_sized_of_six, max_elements,
};

verus! {

/// Every stage takes what the one before it hands on, starting from `input`.
pub open spec fn network_accepts(stages: Seq<Stage>, input: Seq<usize>) -> bool
    decreases stages.len(),
{
    if stages.len() == 0 {
        true
    } else {
        stages.first().accepts(input) && network_accepts(
            stages.drop_first(),
            stages.first().output_dims(input),
        )
    }
}

/// The extents of what the stages, run in order, make of `input`.
pub open spec fn network_output_dims(stages: Seq<Stage>, input: Seq<usize>) -> Seq<usize>
    decreases stages.len(),
{
    if stages.len() == 0 {
        input
    } else {
        network_output_dims(stages.drop_first(), stages.first().output_dims(input))
    }
}

/// The stages can be run on `input`: the sizes are in range at every stage
/// that is reached. A stage that does not take what it is handed ends the
/// pass with an error, and no stage after it is reached.
pub open spec fn network_in_range(stages: Seq<Stage>, input: Seq<usize>) -> bool
    decreases stages.len(),
{
    if stages.len() == 0 {
        true
    } else if !stages.first().accepts(input) {
        true
    } else {
        stages.first().in_range(input) && network_in_range(
            stages.drop_first(),
            stages.first().output_dims(input),
        )
    }
}

/// Whether the stages can be run on a tensor with the extents `input`.
pub fn can_run(stages: &[Stage], input: &[usize]) -> (ok: bool)
    ensures
        ok == network_in_range(stages@, input@),
{
    let mut current: Vec<usize> = copy_dims(input);
    let mut i: usize = 0;
    assert(stages@.skip(0) =~= stages@);
    while i < stages.len()
        invariant
            i <= stages.len(),
            network_in_range(stages@, input@) == network_in_range(stages@.skip(i as int), current@),
        decreases stages.len() - i,
    {
        let ghost rest = stages@.skip(i as int);
        assert(rest.first() == stages@[i as int]);
        assert(rest.drop_first() =~= stages@.skip(i + 1));
        match stages[i].output_shape(current.as_slice()) {
            Some(dims) => {
                current = dims;
            },
            None => {
                return !takes(&stages[i], current.as_slice());
            },
        }
        i += 1;
    }
    true
}

/// Whether the stage takes a tensor with the extents `input`.
fn takes(stage: &Stage, input: &[usize]) -> (ok: bool)
    ensures
        ok == stage.accepts(input@),
{
    match stage {
        Stage::Conv(conv) => input.len() == 4 && input[1] == conv.in_channels,
        Stage::Relu => true,
    }
}

/// The first convolution: 64 feature maps from 9 x 9 patches of the one input
/// channel.
pub open spec fn spec_extraction() -> ConvSpec {
    ConvSpec { in_channels: 1, out_channels: 64, kernel_size: 9, stride: 1, padding: 4 }
}

/// The second convolution: 32 maps from the 64, pixel by pixel.
pub open spec fn spec_mapping() -> ConvSpec {
    ConvSpec { in_channels: 64, out_channels: 32, kernel_size: 1, stride: 1, padding: 0 }
}

/// The third convolution: the one output channel from 5 x 5 patches of the 32
/// maps.
pub open spec fn spec_reconstruction() -> ConvSpec {
    ConvSpec { in_channels: 32, out_channels: 1, kernel_size: 5, stride: 1, padding: 2 }
}

/// The first convolution.
#[verifier::when_used_as_spec(spec_extraction)]
pub fn extraction() -> (conv: ConvSpec)
    ensures
        conv == spec_extraction(),
{
    ConvSpec { in_channels: 1, out_channels: 64, kernel_size: 9, stride: 1, padding: 4 }
}

/// The second convolution.
#[verifier::when_used_as_spec(spec_mapping)]
pub fn mapping() -> (conv: ConvSpec)
    ensures
        conv == spec_mapping(),
{
    ConvSpec { in_channels: 64, out_channels: 32, kernel_size: 1, stride: 1, padding: 0 }
}

/// The third convolution.
#[verifier::when_used_as_spec(spec_reconstruction)]
pub fn reconstruction() -> (conv: ConvSpec)
    ensures
        conv == spec_reconstruction(),
{
    ConvSpec { in_channels: 32, out_channels: 1, kernel_size: 5, stride: 1, padding: 2 }
}

/// The stages of the super-resolution network, in the order of the forward
/// pass.
pub open spec fn srcnn_stages() -> Seq<Stage> {
    seq![
        Stage::Conv(extraction()),
        Stage::Relu,
        Stage::Conv(mapping()),
        Stage::Relu,
        Stage::Conv(reconstruction()),
    ]
}

/// The stages of the super-resolution network, in the order of the forward
/// pass.
pub fn build_srcnn_model() -> (stages: Vec<Stage>)
    ensures
        stages@ == srcnn_stages(),
{
    let stages: Vec<Stage> = vec![
        Stage::Conv(extraction()),
        Stage::Relu,
        Stage::Conv(mapping()),
        Stage::Relu,
        Stage::Conv(reconstruction()),
    ];
    assert(stages@ =~= srcnn_stages());
    stages
}

/// The three recursive definitions, written out for the five stages of the
/// super-resolution network.
pub proof fn lemma_srcnn_stage_by_stage(input: Seq<usize>)
    ensures
        network_accepts(srcnn_stages(), input) == {
            &&& extraction().accepts(input)
            &&& mapping().accepts(extraction().output_dims(input))
            &&& reconstruction().accepts(mapping().output_dims(extraction().output_dims(input)))
        },
        network_output_dims(srcnn_stages(), input) == reconstruction().output_dims(
            mapping().output_dims(extraction().output_dims(input)),
        ),
        network_in_range(srcnn_stages(), input) == (extraction().accepts(input) ==> {
            let first = extraction().output_dims(input);
            &&& extraction().in_range(input)
            &&& mapping().accepts(first) ==> {
                let second = mapping().output_dims(first);
                &&& mapping().in_range(first)
                &&& reconstruction().accepts(second) ==> reconstruction().in_range(second)
            }
        }),
{
    let s0 = srcnn_stages();
    let s1 = s0.drop_first();
    let s2 = s1.drop_first();
    let s3 = s2.drop_first();
    let s4 = s3.drop_first();
    let s5 = s4.drop_first();
    assert(s0.first() == Stage::Conv(extraction()));
    assert(s1.first() == Stage::Relu);
    assert(s2.first() == Stage::Conv(mapping()));
    assert(s3.first() == Stage::Relu);
    assert(s4.first() == Stage::Conv(reconstruction()));
    assert(s5.len() == 0);
    reveal_with_fuel(network_accepts, 6);
    reveal_with_fuel(network_output_dims, 6);
    reveal_with_fuel(network_in_range, 6);
}

/// What the three convolutions make of the extents of a batch of one-channel
/// images, one after the other.
pub proof fn lemma_srcnn_dims(input: Seq<usize>)
    requires
        input.len() == 4,
        input[1] == 1,
    ensures
        extraction().output_dims(input) == seq![input[0], 64usize, input[2], input[3]],
        mapping().output_dims(seq![input[0], 64usize, input[2], input[3]]) == seq![
            input[0],
            32usize,
            input[2],
            input[3],
        ],
        reconstruction().output_dims(seq![input[0], 32usize, input[2], input[3]]) == input,
{
    let h = input[2] as int;
    let w = input[3] as int;
    assert(conv_extent(h, 9, 4, 1, 1) == h && conv_extent(w, 9, 4, 1, 1) == w);
    assert(conv_extent(h, 1, 0, 1, 1) == h && conv_extent(w, 1, 0, 1, 1) == w);
    assert(conv_extent(h, 5, 2, 1, 1) == h && conv_extent(w, 5, 2, 1, 1) == w);
    let first = seq![input[0], 64usize, input[2], input[3]];
    let second = seq![input[0], 32usize, input[2], input[3]];
    assert(extraction().output_dims(input) =~= first);
    assert(mapping().output_dims(first) =~= second);
    assert(reconstruction().output_dims(second) =~= input);
}

/// The network takes every batch of one-channel images and hands back a
/// tensor with the extents of its input.
pub proof fn lemma_srcnn_keeps_shape(input: Seq<usize>)
    requires
        input.len() == 4,
        input[1] == 1,
    ensures
        network_accepts(srcnn_stages(), input),
        network_output_dims(srcnn_stages(), input) == input,
{
    lemma_srcnn_stage_by_stage(input);
    lemma_srcnn_dims(input);
}

/// The network takes an input only if it is a batch of one-channel images.
pub proof fn lemma_srcnn_takes_one_channel(input: Seq<usize>)
    ensures
        network_accepts(srcnn_stages(), input) <==> input.len() == 4 && input[1] == 1,
{
    lemma_srcnn_stage_by_stage(input);
    if input.len() == 4 && input[1] == 1 {
        lemma_srcnn_keeps_shape(input);
    }
}

/// On a batch of one-channel images the network can be run if and only if
/// the images are not empty and the largest buffer of the pass, the unrolled
/// input of the last convolution with 32 * 5 * 5 values per pixel, is within
/// the limit. A batch of no image counts as a batch of one.
pub proof fn lemma_srcnn_in_range(input: Seq<usize>)
    requires
        input.len() == 4,
        input[1] == 1,
    ensures
        network_in_range(srcnn_stages(), input) <==> {
            &&& input[2] >= 1
            &&& input[3] >= 1
            &&& at_least_one_image(input)[0] * input[2] * input[3] * 800 <= max_elements()
        },
{
    lemma_srcnn_stage_by_stage(input);
    lemma_srcnn_dims(input);
    let (h, w) = (input[2], input[3]);
    let n = at_least_one_image(input)[0];
    let first = seq![input[0], 64usize, h, w];
    let second = seq![input[0], 32usize, h, w];
    assert(at_least_one_image(input) =~= seq![n, 1usize, h, w]);
    assert(at_least_one_image(first) =~= seq![n, 64usize, h, w]);
    assert(at_least_one_image(second) =~= seq![n, 32usize, h, w]);
    assert(extraction().weight_dims() =~= seq![64usize, 1, 9, 9]);
    assert(mapping().weight_dims() =~= seq![32usize, 64, 1, 1]);
    assert(reconstruction().weight_dims() =~= seq![1usize, 32, 5, 5]);
    assert(at_least_one_image(
        conv2d_unrolled_dims(input, extraction().weight_dims(), 4, 1, 1),
    ) =~= seq![n, h, w, 1usize, 9, 9]);
    assert(at_least_one_image(
        conv2d_unrolled_dims(first, mapping().weight_dims(), 0, 1, 1),
    ) =~= seq![n, h, w, 64usize, 1, 1]);
    assert(at_least_one_image(
        conv2d_unrolled_dims(second, reconstruction().weight_dims(), 2, 1, 1),
    ) =~= seq![n, h, w, 32usize, 5, 5]);
    lemma_sized_of_four(n, 1, h, w);
    lemma_sized_of_four(n, 64, h, w);
    lemma_sized_of_four(n, 32, h, w);
    lemma_sized_of_four(64, 1, 9, 9);
    lemma_sized_of_four(32, 64, 1, 1);
    lemma_sized_of_four(1, 32, 5, 5);
    lemma_sized_of_six(n, h, w, 1, 9, 9);
    lemma_sized_of_six(n, h, w, 64, 1, 1);
    lemma_sized_of_six(n, h, w, 32, 5, 5);
    let pixels = n * h * w;
    assert(64 * 1 * 9 * 9 == 5184 && 32 * 64 * 1 * 1 == 2048 && 1 * 32 * 5 * 5 == 800);
    assert(n * 1 * h * w == pixels && n * 64 * h * w == pixels * 64 && n * 32 * h * w == pixels
        * 32) by (nonlinear_arith)
        requires
            pixels == n * h * w,
    ;
    assert(n * h * w * 1 * 9 * 9 == pixels * 81);
    assert(n * h * w * 64 * 1 * 1 == pixels * 64);
    assert(n * h * w * 32 * 5 * 5 == pixels * 800);
    if h >= 1 && w >= 1 {
        assert(pixels >= h && pixels >= w) by (nonlinear_arith)
            requires
                pixels == n * h * w,
                n >= 1,
                h >= 1,
                w >= 1,
        ;
    }
}

} // verus!
