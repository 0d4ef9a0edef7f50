//! The noise field of a grain engine, as the seeds of its generators.
//!
//! An engine samples one fractal generator for each depth layer, one
//! generator for the chromatic offsets and one for the surface relief. Each
//! is a pure function of its seed and of the coordinates it is sampled at,
//! so the seeds say all there is to say about an engine: two engines made
//! from the same seeds sample alike.

use crate::config::ArtisticGrainConfig;
use vstd::prelude::*;

verus! {

/// The seed from which every engine of a render pass is made.
pub const BASE_SEED: u32 = 42;

/// Added to the base seed for the generator of the chromatic offsets.
pub const CHROMATIC_SEED_OFFSET: u32 = 100;

/// Added to the base seed for the generator of the surface relief.
pub const RELIEF_SEED_OFFSET: u32 = 200;

/// Octaves of the fractal generator of a depth layer.
pub const LAYER_OCTAVES: usize = 3;

/// Octaves of the fractal generator of the surface relief.
pub const RELIEF_OCTAVES: usize = 2;

/// The seeds of a noise field.
pub struct NoisePlan {
    /// One seed for each depth layer, in the order of the layers.
    pub layer_seeds: Seq<u32>,
    /// The seed of the chromatic generator.
    pub chromatic_seed: u32,
    /// The seed of the relief generator.
    pub relief_seed: u32,
}

/// The noise field of `layers` depth layers that grows from `seed`: layer
/// `i` is seeded with `seed + i`.
pub open spec fn noise_plan(layers: u32, seed: u32) -> NoisePlan {
    NoisePlan {
        layer_seeds: Seq::new(layers as nat, |i: int| (seed + i) as u32),
        chromatic_seed: (seed + CHROMATIC_SEED_OFFSET) as u32,
        relief_seed: (seed + RELIEF_SEED_OFFSET) as u32,
    }
}

/// Every seed of the noise field of `layers` layers from `seed` fits in
/// thirty-two bits.
pub open spec fn seeds_fit(layers: u32, seed: u32) -> bool {
    &&& seed + RELIEF_SEED_OFFSET <= u32::MAX
    &&& seed + layers <= u32::MAX + 1
}

/// The noise field of one worker of a render pass.
pub struct GrainEngine {
    seed: u32,
    layer_seeds: Vec<u32>,
    chromatic_seed: u32,
    relief_seed: u32,
}

impl View for GrainEngine {
    type V = NoisePlan;

    closed spec fn view(&self) -> NoisePlan {
        NoisePlan {
            layer_seeds: self.layer_seeds@,
            chromatic_seed: self.chromatic_seed,
            relief_seed: self.relief_seed,
        }
    }
}

impl GrainEngine {
    #[verifier::type_invariant]
    spec fn grown_from_seed(&self) -> bool {
        &&& self.layer_seeds@.len() <= u32::MAX
        &&& seeds_fit(self.layer_seeds@.len() as u32, self.seed)
        &&& self@ == noise_plan(self.layer_seeds@.len() as u32, self.seed)
    }

    /// The noise field of `layers` depth layers that grows from `seed`.
    pub fn new(layers: u32, seed: u32) -> (engine: Self)
        requires
            seeds_fit(layers, seed),
        ensures
            engine@ == noise_plan(layers, seed),
    {
        let mut layer_seeds: Vec<u32> = Vec::new();
        let mut i: u32 = 0;
        while i < layers
            invariant
                i <= layers,
                seeds_fit(layers, seed),
                layer_seeds@ == Seq::new(i as nat, |k: int| (seed + k) as u32),
            decreases layers - i,
        {
            layer_seeds.push(seed + i);
            i = i + 1;
            assert(layer_seeds@ =~= Seq::new(i as nat, |k: int| (seed + k) as u32));
        }
        GrainEngine {
            seed,
            layer_seeds,
            chromatic_seed: seed + CHROMATIC_SEED_OFFSET,
            relief_seed: seed + RELIEF_SEED_OFFSET,
        }
    }

    /// The noise field of a render pass with the parameters `config`: it
    /// grows from the base seed, whatever the parameters are, and has one
    /// layer for each depth layer of `config`. There is none where a seed
    /// would not fit in thirty-two bits.
    pub fn for_config(config: &ArtisticGrainConfig) -> (made: Option<Self>)
        ensures
            made is Some <==> seeds_fit(config.layers, BASE_SEED),
            made is Some ==> made->0@ == noise_plan(config.layers, BASE_SEED),
    {
        if config.layers <= u32::MAX - BASE_SEED + 1 {
            Some(GrainEngine::new(config.layers, BASE_SEED))
        } else {
            None
        }
    }

    /// The seed that the noise field grows from.
    pub fn base_seed(&self) -> (seed: u32)
        ensures
            self@.layer_seeds.len() <= u32::MAX,
            seeds_fit(self@.layer_seeds.len() as u32, seed),
            self@ == noise_plan(self@.layer_seeds.len() as u32, seed),
    {
        proof {
            use_type_invariant(self);
        }
        self.seed
    }

    /// The seeds of the depth layers, in the order of the layers.
    pub fn layer_seeds(&self) -> (seeds: &[u32])
        ensures
            seeds@ == self@.layer_seeds,
    {
        self.layer_seeds.as_slice()
    }

    /// The seed of the chromatic generator.
    pub fn chromatic_seed(&self) -> (seed: u32)
        ensures
            seed == self@.chromatic_seed,
    {
        self.chromatic_seed
    }

    /// The seed of the relief generator.
    pub fn relief_seed(&self) -> (seed: u32)
        ensures
            seed == self@.relief_seed,
    {
        self.relief_seed
    }

    /// The number by which the sum over the layers is divided: the number
    /// of layers, and one where there is none. It is never zero.
    pub fn layer_count(&self) -> (n: usize)
        ensures
            n >= 1,
            n == if self@.layer_seeds.len() == 0 {
                1
            } else {
                self@.layer_seeds.len()
            },
    {
        let n = self.layer_seeds.len();
        if n == 0 {
            1
        } else {
            n
        }
    }
}

/// The depth layers are independent generators: no two of them share a
/// seed.
pub proof fn lemma_layer_seeds_differ(layers: u32, seed: u32, i: int, j: int)
    requires
        seeds_fit(layers, seed),
        0 <= i < j < layers,
    ensures
        noise_plan(layers, seed).layer_seeds[i] != noise_plan(layers, seed).layer_seeds[j],
{
}

} // verus!
