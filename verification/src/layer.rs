//! The layers of the network as plain data, and what each does to the extents
//! of an image batch.

use vstd::prelude::*;

use crate::backend::{conv2d_applies, conv2d_in_range, conv2d_out_dims, conv2d_unrolled_dims};
use crate::shape::{axis_extent, batch_sized, is_batch_sized, is_sized};

verus! {

/// The fixed configuration of one convolution layer. The window is square,
/// its taps are adjacent, and every output channel reads every input channel.
#[derive(Clone, Copy, Debug, PartialEq, Eq, Structural)]
pub struct ConvSpec {
    /// Channels of the images that the layer reads.
    pub in_channels: usize,
    /// Channels of the images that the layer writes.
    pub out_channels: usize,
    /// Height and width of the window.
    pub kernel_size: usize,
    /// The step of the window, down and across.
    pub stride: usize,
    /// Zeros added on each of the four sides of an image.
    pub padding: usize,
}

/// One step of the forward pass.
#[derive(Clone, Copy, Debug, PartialEq, Eq, Structural)]
pub enum Stage {
    /// A convolution with a bias per output channel.
    Conv(ConvSpec),
    /// The rectifier, applied to every element.
    Relu,
}

impl ConvSpec {
    /// The extents of the weight tensor: output channels, input channels,
    /// window height, window width.
    pub open spec fn weight_dims(self) -> Seq<usize> {
        seq![self.out_channels, self.in_channels, self.kernel_size, self.kernel_size]
    }

    /// The extents of the bias tensor: one value per output channel.
    pub open spec fn bias_dims(self) -> Seq<usize> {
        seq![self.out_channels]
    }

    /// The layer takes `input`: a batch of images with `in_channels` channels.
    pub open spec fn accepts(self, input: Seq<usize>) -> bool {
        conv2d_applies(input, self.weight_dims())
    }

    /// The sizes of `input` are such that the tensor library can run the layer.
    pub open spec fn in_range(self, input: Seq<usize>) -> bool {
        conv2d_in_range(input, self.weight_dims(), self.padding, self.stride, 1)
    }

    /// The extents of what the layer makes of `input`.
    pub open spec fn output_dims(self, input: Seq<usize>) -> Seq<usize> {
        conv2d_out_dims(input, self.weight_dims(), self.padding, self.stride, 1)
    }

    /// The extents of what the layer makes of a tensor with the extents
    /// `input`, where it takes such a tensor and the sizes are in range.
    pub fn output_shape(&self, input: &[usize]) -> (out: Option<Vec<usize>>)
        ensures
            out is Some <==> self.accepts(input@) && self.in_range(input@),
            out matches Some(dims) ==> dims@ == self.output_dims(input@),
    {
        if input.len() != 4 || input[1] != self.in_channels {
            return None;
        }
        assert(self.weight_dims()[2] == self.kernel_size && self.weight_dims()[3]
            == self.kernel_size);
        let out_h: usize = match axis_extent(input[2], self.kernel_size, self.padding, self.stride) {
            Some(e) => e,
            None => { return None; },
        };
        let out_w: usize = match axis_extent(input[3], self.kernel_size, self.padding, self.stride) {
            Some(e) => e,
            None => { return None; },
        };
        let kernel: Vec<usize> = vec![
            self.out_channels,
            self.in_channels,
            self.kernel_size,
            self.kernel_size,
        ];
        let unrolled: Vec<usize> = vec![
            input[0],
            out_h,
            out_w,
            input[1],
            self.kernel_size,
            self.kernel_size,
        ];
        let dims: Vec<usize> = vec![input[0], self.out_channels, out_h, out_w];
        proof {
            assert(kernel@ =~= self.weight_dims());
            assert(dims@ =~= self.output_dims(input@));
            assert(unrolled@ =~= conv2d_unrolled_dims(
                input@,
                self.weight_dims(),
                self.padding,
                self.stride,
                1,
            ));
        }
        if is_batch_sized(input) && is_sized(kernel.as_slice()) && is_batch_sized(
            unrolled.as_slice(),
        ) && is_batch_sized(dims.as_slice()) {
            Some(dims)
        } else {
            None
        }
    }
}

impl Stage {
    /// The stage takes a tensor with the extents `input`. The rectifier takes
    /// any tensor.
    pub open spec fn accepts(self, input: Seq<usize>) -> bool {
        match self {
            Stage::Conv(conv) => conv.accepts(input),
            Stage::Relu => true,
        }
    }

    /// The sizes of `input` are such that the tensor library can run the
    /// stage.
    pub open spec fn in_range(self, input: Seq<usize>) -> bool {
        match self {
            Stage::Conv(conv) => conv.in_range(input),
            Stage::Relu => batch_sized(input),
        }
    }

    /// The extents of what the stage makes of `input`. The rectifier keeps
    /// them.
    pub open spec fn output_dims(self, input: Seq<usize>) -> Seq<usize> {
        match self {
            Stage::Conv(conv) => conv.output_dims(input),
            Stage::Relu => input,
        }
    }

    /// The extents of what the stage makes of a tensor with the extents
    /// `input`, where it takes such a tensor and the sizes are in range.
    pub fn output_shape(&self, input: &[usize]) -> (out: Option<Vec<usize>>)
        ensures
            out is Some <==> self.accepts(input@) && self.in_range(input@),
            out matches Some(dims) ==> dims@ == self.output_dims(input@),
    {
        match self {
            Stage::Conv(conv) => conv.output_shape(input),
            Stage::Relu => if is_batch_sized(input) {
                Some(copy_dims(input))
            } else {
                None
            },
        }
    }
}

/// The extents in a vector of their own.
pub(crate) fn copy_dims(dims: &[usize]) -> (copy: Vec<usize>)
    ensures
        copy@ == dims@,
{
    let mut copy: Vec<usize> = Vec::new();
    let mut i: usize = 0;
    while i < dims.len()
        invariant
            i <= dims.len(),
            copy@ == dims@.take(i as int),
        decreases dims.len() - i,
    {
        copy.push(dims[i]);
        i += 1;
        assert(copy@ =~= dims@.take(i as int));
    }
    assert(dims@.take(dims.len() as int) =~= dims@);
    copy
}

} // verus!
