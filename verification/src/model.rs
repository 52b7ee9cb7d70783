//! The super-resolution network: three convolution layers of the tensor
//! library, made to the extents that the stages ask for, their parameters in
//! a store of named variables, and the forward pass through them.

use candle_core::{Error, Tensor};
use candle_nn::{Conv2d, VarMap};
use vstd::prelude::*;

use crate::backend::{
    conv2d_bias_dims, conv2d_dense_f32, conv2d_forward, conv2d_geometry, conv2d_kernel_dims,
    conv2d_new, conv2d_returns, no_vars, relu, relu_returns, store_zeros, tensor_dims,
    tensor_f32_cpu, varmap_dims,
};
use crate::layer::ConvSpec;
use crate::network::{
    build_srcnn_model, can_run, extraction, lemma_srcnn_dims, lemma_srcnn_keeps_shape,
    lemma_srcnn_stage_by_stage, mapping, network_accepts, network_in_range, reconstruction,
    srcnn_stages,
};
use crate::shape::{lemma_element_count_of_prefix, lemma_sized_of_four, sized};

verus! {

/// The layer was made with a weight and a bias of the extents that `spec`
/// asks for, of single-precision floats on the CPU, and with its
/// configuration.
pub open spec fn realizes(layer: &Conv2d, spec: ConvSpec) -> bool {
    &&& conv2d_kernel_dims(layer) == spec.weight_dims()
    &&& conv2d_bias_dims(layer) == Some(spec.bias_dims())
    &&& conv2d_geometry(layer) == (spec.padding, spec.stride, 1usize, 1usize)
    &&& conv2d_dense_f32(layer)
}

/// The parameters of the network by name, each with the extents of its
/// tensor: a weight and a bias for each of the three convolutions.
pub open spec fn srcnn_parameters() -> Map<Seq<char>, Seq<usize>> {
    no_vars().insert("conv1.weight"@, extraction().weight_dims()).insert(
        "conv1.bias"@,
        extraction().bias_dims(),
    ).insert("conv2.weight"@, mapping().weight_dims()).insert(
        "conv2.bias"@,
        mapping().bias_dims(),
    ).insert("conv3.weight"@, reconstruction().weight_dims()).insert(
        "conv3.bias"@,
        reconstruction().bias_dims(),
    )
}

/// What a convolution hands on: what the layer returned for the tensor that
/// came in, or the error that came in, as it is.
pub open spec fn then_conv(
    layer: &Conv2d,
    input: Result<Tensor, Error>,
    output: Result<Tensor, Error>,
) -> bool {
    match input {
        Ok(xs) => conv2d_returns(layer, &xs, output),
        Err(_) => output == input,
    }
}

/// What a rectifier hands on: what it returned for the tensor that came in,
/// or the error that came in, as it is.
pub open spec fn then_relu(input: Result<Tensor, Error>, output: Result<Tensor, Error>) -> bool {
    match input {
        Ok(xs) => relu_returns(&xs, output),
        Err(_) => output == input,
    }
}

/// `out` is what the five stages return for `xs`: the first convolution runs
/// on `xs`, every later stage on what the stage before it returned, and the
/// first error goes through the stages after it unchanged.
pub open spec fn pass_returns(
    layers: (Conv2d, Conv2d, Conv2d),
    xs: &Tensor,
    out: Result<Tensor, Error>,
) -> bool {
    exists|
        a: Result<Tensor, Error>,
        b: Result<Tensor, Error>,
        c: Result<Tensor, Error>,
        d: Result<Tensor, Error>,
    |
        {
            &&& #[trigger] conv2d_returns(&layers.0, xs, a)
            &&& #[trigger] then_relu(a, b)
            &&& #[trigger] then_conv(&layers.1, b, c)
            &&& #[trigger] then_relu(c, d)
            &&& then_conv(&layers.2, d, out)
        }
}

/// A convolution layer for `spec` whose weight and bias are new variables of
/// zeros in the store, under the two names.
fn zero_layer(vars: &mut VarMap, weight: &str, bias: &str, spec: ConvSpec) -> (r: Result<
    Conv2d,
    Error,
>)
    requires
        sized(spec.weight_dims()),
        !varmap_dims(old(vars)).contains_key(weight@),
        !varmap_dims(old(vars)).contains_key(bias@),
        weight@ != bias@,
    ensures
        r is Ok,
        r matches Ok(layer) ==> realizes(&layer, spec),
        varmap_dims(final(vars)) == varmap_dims(old(vars)).insert(weight@, spec.weight_dims()).insert(
            bias@,
            spec.bias_dims(),
        ),
{
    let weight_dims: Vec<usize> = vec![
        spec.out_channels,
        spec.in_channels,
        spec.kernel_size,
        spec.kernel_size,
    ];
    let bias_dims: Vec<usize> = vec![spec.out_channels];
    proof {
        assert(weight_dims@ =~= spec.weight_dims());
        assert(bias_dims@ =~= spec.bias_dims());
        lemma_element_count_of_prefix(weight_dims@, 1);
        assert(weight_dims@.take(1) =~= bias_dims@);
        assert(weight_dims@[0] >= 1);
    }
    let weight_tensor = store_zeros(vars, weight, &weight_dims)?;
    let bias_tensor = store_zeros(vars, bias, &bias_dims)?;
    Ok(conv2d_new(weight_tensor, Some(bias_tensor), spec.padding, spec.stride, 1, 1))
}

/// The Super Resolution Convolutional Neural Network.
///
/// Three convolutions with a rectifier after the first and the second; see
/// `srcnn_stages`. The layers are those of the tensor library, and every value
/// of this type holds layers of the extents that the stages ask for, made of
/// the variables of its store.
pub struct SRCNN {
    conv1: Conv2d,
    conv2: Conv2d,
    conv3: Conv2d,
    vars: VarMap,
}

impl SRCNN {
    /// The three convolution layers, in the order of the forward pass.
    pub closed spec fn layers(self) -> (Conv2d, Conv2d, Conv2d) {
        (self.conv1, self.conv2, self.conv3)
    }

    /// The store of named variables.
    pub closed spec fn store(self) -> VarMap {
        self.vars
    }

    /// The three layers are made to the extents and the configuration of the
    /// three convolutions of `srcnn_stages`, of single-precision floats on the
    /// CPU.
    pub open spec fn fits_stages(self) -> bool {
        &&& realizes(&self.layers().0, extraction())
        &&& realizes(&self.layers().1, mapping())
        &&& realizes(&self.layers().2, reconstruction())
    }

    /// The store holds the six parameters of the network, and nothing else.
    pub open spec fn holds_parameters(self) -> bool {
        varmap_dims(&self.store()) == srcnn_parameters()
    }

    #[verifier::type_invariant]
    spec fn inv(self) -> bool {
        self.fits_stages() && self.holds_parameters()
    }

    /// The network with all weights and biases zero. The six tensors are the
    /// variables of its store.
    pub fn empty() -> (r: Result<Self, Error>)
        ensures
            r is Ok,
            r matches Ok(model) ==> model.fits_stages() && model.holds_parameters(),
    {
        proof {
            lemma_sized_of_four(64, 1, 9, 9);
            lemma_sized_of_four(32, 64, 1, 1);
            lemma_sized_of_four(1, 32, 5, 5);
            assert(64 * 1 * 9 * 9 == 5184 && 32 * 64 * 1 * 1 == 2048 && 1 * 32 * 5 * 5 == 800);
            assert(extraction().weight_dims() =~= seq![64usize, 1, 9, 9]);
            assert(mapping().weight_dims() =~= seq![32usize, 64, 1, 1]);
            assert(reconstruction().weight_dims() =~= seq![1usize, 32, 5, 5]);
            lemma_names_differ();
        }
        let mut vars = VarMap::new();
        let conv1 = zero_layer(&mut vars, "conv1.weight", "conv1.bias", extraction())?;
        let conv2 = zero_layer(&mut vars, "conv2.weight", "conv2.bias", mapping())?;
        let conv3 = zero_layer(&mut vars, "conv3.weight", "conv3.bias", reconstruction())?;
        Ok(Self { conv1, conv2, conv3, vars })
    }

    /// The forward pass: convolution, rectifier, convolution, rectifier,
    /// convolution. It succeeds on every batch of one-channel images of
    /// single-precision floats on the CPU, and on nothing else. The result has
    /// the extents of the input. The first error of the tensor library ends
    /// the pass and is handed back as it is.
    pub fn forward(&self, xs: &Tensor) -> (out: Result<Tensor, Error>)
        requires
            network_in_range(srcnn_stages(), tensor_dims(xs)),
        ensures
            out is Ok <==> network_accepts(srcnn_stages(), tensor_dims(xs)) && tensor_f32_cpu(xs),
            out matches Ok(ys) ==> tensor_dims(&ys) == tensor_dims(xs) && tensor_f32_cpu(&ys),
            pass_returns(self.layers(), xs, out),
    {
        proof {
            use_type_invariant(self);
            lemma_srcnn_stage_by_stage(tensor_dims(xs));
            if extraction().accepts(tensor_dims(xs)) {
                lemma_srcnn_dims(tensor_dims(xs));
                lemma_srcnn_keeps_shape(tensor_dims(xs));
            }
        }
        let first = conv2d_forward(&self.conv1, xs);
        let ghost a = first;
        let first = match first {
            Ok(t) => t,
            Err(e) => {
                proof {
                    assert(then_relu(a, a) && then_conv(&self.layers().1, a, a));
                    assert(then_conv(&self.layers().2, a, a));
                }
                return Err(e);
            },
        };
        let second = relu(&first);
        let ghost b = second;
        let second = match second {
            Ok(t) => t,
            Err(e) => {
                proof {
                    assert(then_relu(a, b) && then_conv(&self.layers().1, b, b));
                    assert(then_relu(b, b) && then_conv(&self.layers().2, b, b));
                }
                return Err(e);
            },
        };
        let third = conv2d_forward(&self.conv2, &second);
        let ghost c = third;
        let third = match third {
            Ok(t) => t,
            Err(e) => {
                proof {
                    assert(then_relu(a, b) && then_conv(&self.layers().1, b, c));
                    assert(then_relu(c, c) && then_conv(&self.layers().2, c, c));
                }
                return Err(e);
            },
        };
        let fourth = relu(&third);
        let ghost d = fourth;
        let fourth = match fourth {
            Ok(t) => t,
            Err(e) => {
                proof {
                    assert(then_relu(a, b) && then_conv(&self.layers().1, b, c));
                    assert(then_relu(c, d) && then_conv(&self.layers().2, d, d));
                }
                return Err(e);
            },
        };
        let out = conv2d_forward(&self.conv3, &fourth);
        proof {
            assert(then_relu(a, b) && then_conv(&self.layers().1, b, c));
            assert(then_relu(c, d) && then_conv(&self.layers().2, d, out));
        }
        out
    }

    /// The forward pass on any tensor: `None`, and nothing run, where the
    /// sizes of `xs` are out of range; else what `forward` hands back.
    pub fn forward_checked(&self, xs: &Tensor) -> (out: Option<Result<Tensor, Error>>)
        ensures
            out is Some <==> network_in_range(srcnn_stages(), tensor_dims(xs)),
            out matches Some(r) ==> (r is Ok <==> network_accepts(srcnn_stages(), tensor_dims(xs))
                && tensor_f32_cpu(xs)),
            out matches Some(Ok(ys)) ==> tensor_dims(&ys) == tensor_dims(xs) && tensor_f32_cpu(&ys),
            out matches Some(r) ==> pass_returns(self.layers(), xs, r),
    {
        let stages = build_srcnn_model();
        if can_run(stages.as_slice(), xs.dims()) {
            Some(self.forward(xs))
        } else {
            None
        }
    }

    /// The first convolution layer.
    pub fn conv1(&self) -> (layer: &Conv2d)
        ensures
            *layer == self.layers().0,
            realizes(layer, extraction()),
    {
        proof {
            use_type_invariant(self);
        }
        &self.conv1
    }

    /// The second convolution layer.
    pub fn conv2(&self) -> (layer: &Conv2d)
        ensures
            *layer == self.layers().1,
            realizes(layer, mapping()),
    {
        proof {
            use_type_invariant(self);
        }
        &self.conv2
    }

    /// The third convolution layer.
    pub fn conv3(&self) -> (layer: &Conv2d)
        ensures
            *layer == self.layers().2,
            realizes(layer, reconstruction()),
    {
        proof {
            use_type_invariant(self);
        }
        &self.conv3
    }

    /// The store of named variables. Its clones share what it holds.
    pub fn vars(&self) -> (vars: &VarMap)
        ensures
            *vars == self.store(),
            varmap_dims(vars) == srcnn_parameters(),
    {
        proof {
            use_type_invariant(self);
        }
        &self.vars
    }

    /// What the type shows of itself in debug output: its name and the
    /// factor by which it is meant to enlarge an image.
    pub fn debug_string(&self) -> (text: String)
        ensures
            text@ == "SRCNN { upscale: 2 }"@,
    {
        "SRCNN { upscale: 2 }".to_string()
    }
}

impl Default for SRCNN {
    /// The network with all weights and biases zero.
    fn default() -> (model: Self)
        ensures
            model.fits_stages(),
            model.holds_parameters(),
    {
        Self::empty().unwrap()
    }
}

/// What tells the six names of the parameters apart: their lengths and the
/// number of the layer.
proof fn lemma_names_differ()
    ensures
        "conv1.weight"@.len() == 12 && "conv2.weight"@.len() == 12 && "conv3.weight"@.len() == 12,
        "conv1.bias"@.len() == 10 && "conv2.bias"@.len() == 10 && "conv3.bias"@.len() == 10,
        "conv1.weight"@[4] == '1' && "conv2.weight"@[4] == '2' && "conv3.weight"@[4] == '3',
        "conv1.bias"@[4] == '1' && "conv2.bias"@[4] == '2' && "conv3.bias"@[4] == '3',
{
    reveal_strlit("conv1.weight");
    reveal_strlit("conv2.weight");
    reveal_strlit("conv3.weight");
    reveal_strlit("conv1.bias");
    reveal_strlit("conv2.bias");
    reveal_strlit("conv3.bias");
}

} // verus!
