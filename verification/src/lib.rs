//! Verified generator of the C++ facade of an OCCT kernel: from declarative
//! method descriptions it emits the method implementations (`kernel.cpp`)
//! and their Embind registrations (`bindings.cpp`), after checking the
//! descriptions for the mistakes that would otherwise only surface at build
//! time.

pub mod config;
pub mod config_facts;
pub mod emitter;
pub mod properties;
pub mod text;
pub mod types;
pub mod validation;

pub use config::target_methods;
pub use emitter::{emit_bindings, emit_kernel};
pub use types::{FacadeParam, MethodKind, MethodSpec, ReturnType};
pub use validation::{validate, ValidationError};
