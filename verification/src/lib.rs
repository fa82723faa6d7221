//! Give a stable, nameable type to an otherwise anonymous suspendable
//! computation.
//!
//! The crate models the two build-time subsystems of that scheme — the
//! signature analyzer, which reads a transformation request and the annotated
//! function into structured data, and the wrapper synthesizer, which derives
//! from that data the artifacts the transformation emits (public constructor,
//! hidden implementation, generator, wrapper type, lifecycle implementations)
//! — together with the layout and lifecycle rules the generated wrapper must
//! obey.

pub mod ast;
pub mod config;
pub mod error;
pub mod layout;
pub mod lifecycle;
pub mod names;
pub mod subst;
pub mod synth;
pub mod text;
pub mod tokens;
