//! Configuration of a hashed online learner with field-aware factorization: the
//! configuration itself, the small language in which feature combinations and
//! field groups are written, and the rules by which the options of a command
//! line are folded into a configuration or refused.
//!
//! The options are read in a fixed order, and the first error ends the build;
//! `builder::build` says what a command line comes to, and `laws` proves what
//! follows from it.
//!
//! The library does no floating-point arithmetic. A real number is held as its
//! bit pattern (`Scalar`), and whoever hands over a command line hands over,
//! with each text that writes a real number, the number that it writes
//! (`ScalarArg`, `ComboArg`). What the transform registry made of a transform
//! definition comes in the same way (`TransformArg`).

pub mod builder;
pub mod error;
pub mod gather;
pub mod laws;
pub mod model_instance;
pub mod namespace;
pub mod options;
pub mod scalar;
pub mod text;

pub use crate::builder::Notice;
pub use crate::error::{ConfigError, ErrorKind, OptionName};
pub use crate::model_instance::{
    default_bool_false, default_f32_zero, default_optimizer_adagrad, default_u32_zero,
    get_float_namespaces, weight_text, FeatureComboDesc, ModelInstance, Optimizer, FFM_MAX_K,
};
pub use crate::namespace::{
    get_namespace_id, NamespaceEntry, NamespaceMap, NamespaceTransforms,
};
pub use crate::options::{CmdlineOptions, ComboArg, ScalarArg, TransformArg};
pub use crate::scalar::Scalar;
