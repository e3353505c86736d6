//! Lists the `pub` field names of a struct as a constant array.
//!
//! A type definition is described by [`DeriveInput`]; [`derive`] checks its shape
//! and produces the source text of an `impl` block, under the type's own generic
//! clause, whose associated `const fn fields()` returns the identifiers of the
//! fields marked `pub`, in declaration order.

pub mod extract;
pub mod input;
pub mod laws;
pub mod synth;

pub use extract::{field_names, get_field_names, get_struct_data};
pub use input::{Data, DeriveInput, Field, Generics, ShapeError, Visibility};
pub use synth::{push_decimal, push_literals, synthesize};
