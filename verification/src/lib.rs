//! Discrete core of a stochastic acoustic ray tracer.
//!
//! The crate verifies the decision logic of the renderer: nominal band
//! selection, absorption table lookup, scene-tree search, the bounce loop of
//! the path tracer, closest-hit selection, path ordering and the spectrum
//! bookkeeping of the reconstruction filter bank. Real-valued signal
//! processing, geometry and I/O live with the callers, which drive these
//! verified decisions.

pub mod acoustic_material;
pub mod acoustic_raytrace;
pub mod bands;
pub mod logger;
pub mod math;
pub mod reconstruction_filter;
pub mod scene;
