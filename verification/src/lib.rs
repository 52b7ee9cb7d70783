//! A three-layer super-resolution convolutional network over the `candle`
//! tensor library, with the shape arithmetic of its layers and the schedule of
//! its training loop stated and proved.
//!
//! The tensors, the convolutions and the rectifier are those of `candle`;
//! `backend` lists what is believed of them. What the crate itself decides is
//! verified: which layers there are and of what extents, under which names
//! their parameters stand in the store, on which inputs a forward pass
//! succeeds and what it does to their extents, for which sizes it can run,
//! and in what order a training run asks for loss, optimizer step and report.

pub mod backend;
pub mod layer;
pub mod model;
pub mod network;
pub mod shape;
pub mod training;

pub use layer::{ConvSpec, Stage};
pub use model::SRCNN;
pub use network::build_srcnn_model;
pub use training::{Phase, TrainingAction, TrainingEvent, TrainingLoop, EPOCHS};
