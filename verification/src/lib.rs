//! A small neural-network training engine: dense, convolutional and
//! max-pooling layers stacked into one linear pipeline.
//!
//! Every scalar the engine stores is an IEEE-754 double held by its bit
//! pattern in a `u64`, so that all structural work — shapes, padding,
//! flattening, kernel rotation, max-pool routing, batching — is verified
//! here, while the floating-point arithmetic itself (weighted sums,
//! activations, losses) is left to the embedding program, which reads and
//! writes the same bit patterns.

pub mod loss_function;
pub mod scalar;
pub mod tensor;
pub mod activation;
pub mod dense_params;
pub mod conv_params;
pub mod pool;
pub mod layer;
pub mod network;
pub mod layer_builder;
pub mod convolution_params;
