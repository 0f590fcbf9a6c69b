//! Name resolution for a compiler that lowers programs to arithmetic
//! constraint systems over a finite field.
//!
//! - [`scope`]: the names that keep nested scopes apart.
//! - [`variable`]: a declared name, tied to the field of its compilation.
//! - [`resolved_program`]: the store that binds names to resolved values.
//! - [`errors`]: what stops the run command before anything is compiled.

pub mod errors;
pub mod resolved_program;
pub mod scope;
pub mod variable;

pub use errors::{ManifestError, RunError};
pub use resolved_program::ResolvedProgram;
pub use scope::{new_scope, new_scope_from_variable, new_variable_from_variable};
pub use variable::Variable;
