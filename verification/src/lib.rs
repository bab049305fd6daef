//! Verified core of a two-stage graphics-pipeline program lifecycle.
//!
//! A program is built from two shader source files (a vertex stage and a
//! fragment stage): each file is read, each stage is compiled, the two are
//! linked, and the transient stage objects are released on every exit path.
//! The driver itself (compilation, linking, uniform uploads) lives outside
//! this library; the library holds the decisions: in which order the driver
//! is asked to do what, which diagnostic is reported for which failure, and
//! which resources must still be released.  An unverified runner performs
//! each requested action against the real driver and hands the outcome back.
//!
//! The library also models the driver's "currently active program" state as
//! an explicit [`context::RenderContext`], and offers a typed uniform-setting
//! surface with two policies: optional uniforms degrade to a silent no-op
//! when the name is absent, required uniforms fail with an error.

pub mod builder;
pub mod context;
pub mod error;
pub mod program;
