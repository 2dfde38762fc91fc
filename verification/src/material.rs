//! Materials and the per-material pipeline cache.
//!
//! A material is a shader pair; its pipeline is built lazily on first use
//! with a fixed recipe (single-buffer vertex input, triangle list, one
//! dynamic viewport/scissor pair, depth test and write, alpha blending) and
//! cached for the material's lifetime. The cache is keyed by the material
//! value alone: a pipeline built against one pass description is returned
//! unchanged even if a different pass is supplied later.

use vstd::prelude::*;

use crate::pass::PassDesc;

verus! {

/// Handle to a compiled shader module.
#[derive(Clone, Copy, PartialEq, Eq, Structural, Debug)]
pub struct Shader {
    pub id: u64,
}

/// A compiled graphics pipeline: shader pair, the pass description it was
/// built against, and a build identity distinct from every other build.
#[derive(Clone, Copy, PartialEq, Eq, Structural, Debug)]
pub struct Pipeline {
    /// Build counter value at construction; no two builds share it.
    pub id: u64,
    pub vs: Shader,
    pub fs: Shader,
    /// The pass description the pipeline references.
    pub pass: PassDesc,
}

/// Counts pipeline builds; each build is expensive GPU work, so callers care
/// exactly how many occur.
#[derive(Clone, Copy, PartialEq, Eq, Structural, Debug)]
pub struct PipelineBuilder {
    pub builds: u64,
}

/// What one pipeline build produces: the advanced builder and the pipeline,
/// whose identity is the build counter at the time of the call.
pub open spec fn spec_create_pipeline(vs: Shader, fs: Shader, pass: PassDesc, b: PipelineBuilder) -> (
    PipelineBuilder,
    Pipeline,
) {
    (PipelineBuilder { builds: (b.builds + 1) as u64 }, Pipeline { id: b.builds, vs, fs, pass })
}

/// Build a graphics pipeline for the shader pair against `pass` with the
/// fixed recipe.
pub fn create_pipeline(vs: Shader, fs: Shader, pass: PassDesc, builder: &mut PipelineBuilder) -> (p:
    Pipeline)
    requires
        old(builder).builds < u64::MAX,
    ensures
        (*final(builder), p) == spec_create_pipeline(vs, fs, pass, *old(builder)),
{
    let id = builder.builds;
    builder.builds = builder.builds + 1;
    Pipeline { id, vs, fs, pass }
}

/// A shader pair plus its lazily built, memoized pipeline.
#[derive(Clone, Copy, PartialEq, Eq, Structural, Debug)]
pub struct Material {
    pub vs: Shader,
    pub fs: Shader,
    /// The cached pipeline, present after the first build.
    pub pipeline: Option<Pipeline>,
}

/// The build-or-fetch step: a cached pipeline is returned as is; otherwise
/// one build occurs and its result is stored.
pub open spec fn spec_pipeline_step(m: Material, pass: PassDesc, b: PipelineBuilder) -> (
    Material,
    PipelineBuilder,
    Pipeline,
) {
    match m.pipeline {
        Some(p) => (m, b, p),
        None => {
            let (b2, p) = spec_create_pipeline(m.vs, m.fs, pass, b);
            (Material { vs: m.vs, fs: m.fs, pipeline: Some(p) }, b2, p)
        },
    }
}

impl Material {
    pub fn new(vs: Shader, fs: Shader) -> (r: Material)
        ensures
            r == (Material { vs, fs, pipeline: None }),
    {
        Material { vs, fs, pipeline: None }
    }

    /// Return the cached pipeline, or build one against `render_pass`, store
    /// it, and return it. At most one build ever occurs per material.
    pub fn pipeline(&mut self, render_pass: PassDesc, builder: &mut PipelineBuilder) -> (p: Pipeline)
        requires
            old(self).pipeline is None ==> old(builder).builds < u64::MAX,
        ensures
            (*final(self), *final(builder), p) == spec_pipeline_step(
                *old(self),
                render_pass,
                *old(builder),
            ),
    {
        match &self.pipeline {
            Some(pipe) => *pipe,
            None => {
                let pipe = create_pipeline(self.vs, self.fs, render_pass, builder);
                self.pipeline = Some(pipe);
                pipe
            },
        }
    }
}

/// The pipeline cache returns the identical pipeline on the second and every
/// later build-or-fetch step for the same material, whatever pass is then
/// supplied, and no further build occurs.
pub proof fn lemma_pipeline_cache_at_most_one_build(
    m: Material,
    pass1: PassDesc,
    pass2: PassDesc,
    b: PipelineBuilder,
)
    ensures
        ({
            let (m1, b1, p1) = spec_pipeline_step(m, pass1, b);
            let (m2, b2, p2) = spec_pipeline_step(m1, pass2, b1);
            &&& p2 == p1
            &&& m2 == m1
            &&& b2 == b1
        }),
{
}

} // verus!
