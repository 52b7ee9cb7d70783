//! The tensor library as the rest of the crate sees it. Everything here is
//! believed, not proved: the types are opaque, and each contract restates
//! what the `candle` source does with the extents of its arguments.
//!
//! The contracts are stated for batches within `max_elements`, an empty
//! batch counted as one image: on those the library computes no size that
//! overflows. None of them speaks of memory. An allocation that the machine
//! cannot serve ends the process, here as anywhere.

use candle_core::Module;
use vstd::prelude::*;

use crate::shape::{batch_sized, conv_extent, sized};

verus! {

/// `candle_core::Tensor`, opaque.
#[verifier::external_type_specification]
#[verifier::external_body]
pub struct ExTensor(candle_core::Tensor);

/// `candle_core::Error`, opaque.
#[verifier::external_type_specification]
#[verifier::external_body]
pub struct ExError(candle_core::Error);

/// `candle_nn::Conv2d`, opaque.
#[verifier::external_type_specification]
#[verifier::external_body]
pub struct ExConv2d(candle_nn::Conv2d);

/// `candle_nn::VarMap`, opaque.
#[verifier::external_type_specification]
#[verifier::external_body]
pub struct ExVarMap(candle_nn::VarMap);

/// The extents of a tensor, outermost axis first: what `Tensor::dims` reads.
pub uninterp spec fn tensor_dims(t: &candle_core::Tensor) -> Seq<usize>;

/// The tensor holds single-precision floats on the CPU: `Tensor::dtype` is
/// `DType::F32` and `Tensor::device` is `Device::Cpu`.
pub uninterp spec fn tensor_f32_cpu(t: &candle_core::Tensor) -> bool;

/// The tensor's elements lie in row-major order, without gaps, from the
/// start of its storage: it is no view of another tensor.
pub uninterp spec fn tensor_contiguous(t: &candle_core::Tensor) -> bool;

/// The extents of the weight that a convolution layer was made with.
pub uninterp spec fn conv2d_kernel_dims(layer: &candle_nn::Conv2d) -> Seq<usize>;

/// The extents of the bias that a convolution layer was made with, if any.
pub uninterp spec fn conv2d_bias_dims(layer: &candle_nn::Conv2d) -> Option<Seq<usize>>;

/// Padding, stride, dilation and groups that a convolution layer was made
/// with, in this order.
pub uninterp spec fn conv2d_geometry(layer: &candle_nn::Conv2d) -> (usize, usize, usize, usize);

/// Weight and bias of the layer hold single-precision floats on the CPU, and
/// the weight is contiguous.
pub uninterp spec fn conv2d_dense_f32(layer: &candle_nn::Conv2d) -> bool;

/// `r` is what `Conv2d::forward` of `layer` returned for `xs`: the
/// convolution of `xs` with the layer's weight, plus its bias, or the error
/// that the tensor library raised.
pub uninterp spec fn conv2d_returns(
    layer: &candle_nn::Conv2d,
    xs: &candle_core::Tensor,
    r: Result<candle_core::Tensor, candle_core::Error>,
) -> bool;

/// `r` is what `Tensor::relu` returned for `xs`: every element of `xs`, or
/// zero where the element is below zero, or the error that the tensor
/// library raised.
pub uninterp spec fn relu_returns(
    xs: &candle_core::Tensor,
    r: Result<candle_core::Tensor, candle_core::Error>,
) -> bool;

/// The names of the variables in a store, each with the extents of its
/// tensor.
pub uninterp spec fn varmap_dims(vars: &candle_nn::VarMap) -> Map<Seq<char>, Seq<usize>>;

/// A store without variables.
pub open spec fn no_vars() -> Map<Seq<char>, Seq<usize>> {
    Map::empty()
}

/// Input and kernel have four axes each and agree on the number of channels:
/// what an ungrouped `Tensor::conv2d` tests before it computes anything.
pub open spec fn conv2d_applies(input: Seq<usize>, kernel: Seq<usize>) -> bool {
    input.len() == 4 && kernel.len() == 4 && input[1] == kernel[1]
}

/// The extents of what an ungrouped convolution returns: batch, output
/// channels of the kernel, and what the window leaves of height and width.
pub open spec fn conv2d_out_dims(
    input: Seq<usize>,
    kernel: Seq<usize>,
    padding: usize,
    stride: usize,
    dilation: usize,
) -> Seq<usize> {
    seq![
        input[0],
        kernel[0],
        conv_extent(input[2] as int, kernel[2] as int, padding as int, stride as int, dilation as int) as usize,
        conv_extent(input[3] as int, kernel[3] as int, padding as int, stride as int, dilation as int) as usize,
    ]
}

/// The extents of a convolution's unrolled input: for every image and every
/// output pixel, the values under the window in every channel.
pub open spec fn conv2d_unrolled_dims(
    input: Seq<usize>,
    kernel: Seq<usize>,
    padding: usize,
    stride: usize,
    dilation: usize,
) -> Seq<usize> {
    let out = conv2d_out_dims(input, kernel, padding, stride, dilation);
    seq![input[0], out[2], out[3], input[1], kernel[2], kernel[3]]
}

/// The sizes for which the contract of `conv2d_forward` is stated: the window
/// moves, it fits into the padded image, the kernel has at least one element
/// and at most `max_elements`, and input, unrolled input and output are
/// batches within that limit.
pub open spec fn conv2d_in_range(
    input: Seq<usize>,
    kernel: Seq<usize>,
    padding: usize,
    stride: usize,
    dilation: usize,
) -> bool {
    &&& stride >= 1
    &&& input[2] + 2 * padding <= usize::MAX
    &&& input[3] + 2 * padding <= usize::MAX
    &&& dilation * (kernel[2] - 1) + 1 <= input[2] + 2 * padding
    &&& dilation * (kernel[3] - 1) + 1 <= input[3] + 2 * padding
    &&& batch_sized(input)
    &&& sized(kernel)
    &&& batch_sized(conv2d_unrolled_dims(input, kernel, padding, stride, dilation))
    &&& batch_sized(conv2d_out_dims(input, kernel, padding, stride, dilation))
}

/// `VarMap::get` with `init::ZERO`, `DType::F32` and `Device::Cpu`. A name
/// that the store does not hold yet gets a new variable of zeros with the
/// extents asked for, which on the CPU cannot fail. A name that it holds is
/// answered with the variable it has, if the extents are the same, and with
/// an error otherwise. The tensor handed back is the variable's own.
#[verifier::external_body]
pub(crate) fn store_zeros(vars: &mut candle_nn::VarMap, name: &str, dims: &Vec<usize>) -> (r: Result<candle_core::Tensor, candle_core::Error>)
    requires
        sized(dims@),
    ensures
        r is Ok <==> (varmap_dims(old(vars)).contains_key(name@) ==> varmap_dims(old(vars))[name@]
            == dims@),
        r is Ok ==> varmap_dims(final(vars)) == varmap_dims(old(vars)).insert(name@, dims@),
        r is Err ==> varmap_dims(final(vars)) == varmap_dims(old(vars)),
        r matches Ok(t) ==> tensor_dims(&t) == dims@,
        r matches Ok(t) ==> (!varmap_dims(old(vars)).contains_key(name@) ==> tensor_f32_cpu(&t)
            && tensor_contiguous(&t)),
{
    vars.get(dims.clone(), name, candle_nn::init::ZERO, candle_core::DType::F32, &candle_core::Device::Cpu)
}

/// `Tensor::dims` hands out the extents.
pub assume_specification[ candle_core::Tensor::dims ](t: &candle_core::Tensor) -> (dims: &[usize])
    ensures
        dims@ == tensor_dims(t),
;

/// `Conv2d::new` with a `Conv2dConfig` of the four numbers. The layer keeps
/// weight, bias and configuration as they are.
#[verifier::external_body]
pub(crate) fn conv2d_new(
    weight: candle_core::Tensor,
    bias: Option<candle_core::Tensor>,
    padding: usize,
    stride: usize,
    dilation: usize,
    groups: usize,
) -> (layer: candle_nn::Conv2d)
    ensures
        conv2d_kernel_dims(&layer) == tensor_dims(&weight),
        conv2d_bias_dims(&layer) == (match bias {
            Some(b) => Some(tensor_dims(&b)),
            None => None,
        }),
        conv2d_geometry(&layer) == (padding, stride, dilation, groups),
        conv2d_dense_f32(&layer) == (tensor_f32_cpu(&weight) && tensor_contiguous(&weight) && (
        bias matches Some(b) ==> tensor_f32_cpu(&b))),
{
    candle_nn::Conv2d::new(weight, bias, candle_nn::Conv2dConfig { padding, stride, dilation, groups })
}

/// `Conv2d::forward` (of `candle_core::Module`) for an ungrouped layer of
/// single-precision floats on the CPU with one bias value per output channel.
/// It runs `Tensor::conv2d` and adds the bias. The call tests rank and
/// channels of the input, then its device and element type against the
/// weight's, and fails on nothing else: it succeeds if and only if the kernel
/// applies to the input and the input holds single-precision floats on the
/// CPU. The result has the extents of `conv2d_out_dims` and holds
/// single-precision floats on the CPU.
#[verifier::external_body]
pub(crate) fn conv2d_forward(layer: &candle_nn::Conv2d, xs: &candle_core::Tensor) -> (r: Result<candle_core::Tensor, candle_core::Error>)
    requires
        conv2d_dense_f32(layer),
        conv2d_geometry(layer).3 == 1,
        conv2d_bias_dims(layer) == Some(seq![conv2d_kernel_dims(layer)[0]]),
        conv2d_applies(tensor_dims(xs), conv2d_kernel_dims(layer)) ==> conv2d_in_range(
            tensor_dims(xs),
            conv2d_kernel_dims(layer),
            conv2d_geometry(layer).0,
            conv2d_geometry(layer).1,
            conv2d_geometry(layer).2,
        ),
    ensures
        r is Ok <==> (conv2d_applies(tensor_dims(xs), conv2d_kernel_dims(layer))
            && tensor_f32_cpu(xs)),
        r matches Ok(t) ==> tensor_dims(&t) == conv2d_out_dims(
            tensor_dims(xs),
            conv2d_kernel_dims(layer),
            conv2d_geometry(layer).0,
            conv2d_geometry(layer).1,
            conv2d_geometry(layer).2,
        ),
        r matches Ok(t) ==> tensor_f32_cpu(&t),
        conv2d_returns(layer, xs, r),
{
    layer.forward(xs)
}

/// `Activation::Relu.forward`, that is `Tensor::relu`, which works element by
/// element. On the CPU it fails on nothing; the contract promises success for
/// single-precision floats. The result has the extents of the argument, and
/// its element type and device.
#[verifier::external_body]
pub(crate) fn relu(xs: &candle_core::Tensor) -> (r: Result<candle_core::Tensor, candle_core::Error>)
    requires
        batch_sized(tensor_dims(xs)),
    ensures
        tensor_f32_cpu(xs) ==> r is Ok,
        r matches Ok(t) ==> tensor_dims(&t) == tensor_dims(xs),
        r matches Ok(t) ==> (tensor_f32_cpu(xs) ==> tensor_f32_cpu(&t)),
        relu_returns(xs, r),
{
    candle_nn::Activation::Relu.forward(xs)
}

/// `VarMap::new` returns a store without variables.
pub assume_specification[ candle_nn::VarMap::new ]() -> (vars: candle_nn::VarMap)
    ensures
        varmap_dims(&vars) == no_vars(),
;

} // verus!
