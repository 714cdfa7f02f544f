//! A builder that records the settings of a convolutional stack — kernel
//! sizes, padding modes, strides, activations, layer counts, image size,
//! dense widths — one setter per field.

use vstd::prelude::*;

use crate::activation::ActivationFunction;
use crate::convolution_params::PaddingType;
use crate::layer::Layer;

verus! {

pub struct LayerBuilder {
    pub kernels: Vec<usize>,
    pub paddings: Vec<PaddingType>,
    pub strides: Vec<usize>,
    pub activations: Vec<ActivationFunction>,
    pub cn_layers: usize,
    pub img: [usize; 2],
    pub dense_layers: Vec<usize>,
}

impl LayerBuilder {
    /// A builder with nothing recorded.
    pub fn new() -> (r: LayerBuilder)
        ensures
            r.kernels@.len() == 0,
            r.paddings@.len() == 0,
            r.strides@.len() == 0,
            r.activations@.len() == 0,
            r.cn_layers == 0,
            r.img[0] == 0,
            r.img[1] == 0,
            r.dense_layers@.len() == 0,
    {
        LayerBuilder {
            kernels: Vec::new(),
            paddings: Vec::new(),
            strides: Vec::new(),
            activations: Vec::new(),
            cn_layers: 0,
            img: [0, 0],
            dense_layers: Vec::new(),
        }
    }

    pub fn set_kernels(&mut self, kernels: Vec<usize>)
        ensures
            *final(self) == (LayerBuilder { kernels, ..*old(self) }),
    {
        self.kernels = kernels;
    }

    pub fn set_paddings(&mut self, paddings: Vec<PaddingType>)
        ensures
            *final(self) == (LayerBuilder { paddings, ..*old(self) }),
    {
        self.paddings = paddings;
    }

    pub fn set_strides(&mut self, strides: Vec<usize>)
        ensures
            *final(self) == (LayerBuilder { strides, ..*old(self) }),
    {
        self.strides = strides;
    }

    pub fn set_activations(&mut self, activations: Vec<ActivationFunction>)
        ensures
            *final(self) == (LayerBuilder { activations, ..*old(self) }),
    {
        self.activations = activations;
    }

    pub fn set_cn_layers(&mut self, cn_layers: usize)
        ensures
            *final(self) == (LayerBuilder { cn_layers, ..*old(self) }),
    {
        self.cn_layers = cn_layers;
    }

    pub fn set_img(&mut self, img: [usize; 2])
        ensures
            *final(self) == (LayerBuilder { img, ..*old(self) }),
    {
        self.img = img;
    }

    pub fn set_dense_layers(&mut self, dense_layers: Vec<usize>)
        ensures
            *final(self) == (LayerBuilder { dense_layers, ..*old(self) }),
    {
        self.dense_layers = dense_layers;
    }

    /// Always an empty stack: the builder records settings but does not
    /// assemble layers from them.
    pub fn cnn(&self) -> (r: Vec<Layer>)
        ensures
            r@.len() == 0,
    {
        Vec::new()
    }
}

} // verus!
