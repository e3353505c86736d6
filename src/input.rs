use vstd::prelude::*;

verus! {

/// Visibility marker of a field.
#[derive(Clone, Copy, Debug, PartialEq, Eq, Structural)]
pub enum Visibility {
    /// `pub`
    Public,
    /// `pub(crate)`, `pub(super)`, `pub(in path)`
    Restricted,
    /// no marker: private to the module
    Inherited,
}


/// One field of a struct, as declared.
#[derive(Clone, Debug)]
pub struct Field {
    /// The field's identifier; `None` for a positional field.
    pub ident: Option<String>,
    pub vis: Visibility,
}

/// The shape of the annotated type.
#[derive(Clone, Debug)]
pub enum Data {
    /// A struct with braces or parentheses, with its fields in declaration order.
    Struct(Vec<Field>),
    /// A fieldless marker struct (`struct S;`).
    Unit,
    /// An enum.
    Enum,
    /// A union.
    Union,
}

/// The generic clause of the annotated type, split as an `impl` block needs it,
/// each part as source text (possibly empty).
#[derive(Clone, Debug)]
pub struct Generics {
    /// The parameters with their bounds, as written after `impl` (`<T: Clone>`).
    pub impl_generics: String,
    /// The parameters as they follow the type's name (`<T>`).
    pub ty_generics: String,
    /// The `where` clause.
    pub where_clause: String,
}

/// A type definition that carries the derive.
#[derive(Clone, Debug)]
pub struct DeriveInput {
    pub ident: String,
    pub generics: Generics,
    pub data: Data,
}

/// Why a type definition cannot carry the derive.
#[derive(Clone, Copy, Debug, PartialEq, Eq, Structural)]
pub enum ShapeError {
    /// The type is an enum.
    Enum,
    /// The type is a union.
    Union,
    /// The struct has positional fields, or none at all (a marker struct).
    Unnamed,
}

impl ShapeError {
    /// The message with which the expansion is aborted.
    pub fn message(&self) -> (r: &'static str)
        ensures
            r@ == error_message(*self),
    {
        match self {
            ShapeError::Enum => "Fields derive macro is only supported on structs",
            ShapeError::Union => "Fields derive macro is only supported on structs with named fields",
            ShapeError::Unnamed => "Unit structs are not supported",
        }
    }
}

pub open spec fn error_message(e: ShapeError) -> Seq<char> {
    match e {
        ShapeError::Enum => "Fields derive macro is only supported on structs"@,
        ShapeError::Union => "Fields derive macro is only supported on structs with named fields"@,
        ShapeError::Unnamed => "Unit structs are not supported"@,
    }
}

/// A field is listed when it is named and its visibility is exactly `pub`.
pub open spec fn is_listed(f: Field) -> bool {
    f.ident is Some && f.vis == Visibility::Public
}

/// The identifiers of the listed fields, in declaration order.
pub open spec fn public_names(fields: Seq<Field>) -> Seq<Seq<char>>
    decreases fields.len(),
{
    if fields.len() == 0 {
        seq![]
    } else {
        let rest = public_names(fields.drop_last());
        if is_listed(fields.last()) {
            rest.push(fields.last().ident->Some_0@)
        } else {
            rest
        }
    }
}

pub open spec fn has_unnamed(fields: Seq<Field>) -> bool {
    exists|i: int| 0 <= i < fields.len() && (#[trigger] fields[i]).ident is None
}

/// The error that a shape raises, if any.
pub open spec fn shape_error(data: Data) -> Option<ShapeError> {
    match data {
        Data::Enum => Some(ShapeError::Enum),
        Data::Union => Some(ShapeError::Union),
        Data::Unit => Some(ShapeError::Unnamed),
        Data::Struct(fields) => if has_unnamed(fields@) {
            Some(ShapeError::Unnamed)
        } else {
            None
        },
    }
}

/// The fields of a struct shape; empty for any other shape.
pub open spec fn struct_fields(data: Data) -> Seq<Field> {
    match data {
        Data::Struct(fields) => fields@,
        _ => seq![],
    }
}

/// What the extraction yields for a type definition.
pub open spec fn field_list(data: Data) -> Result<Seq<Seq<char>>, ShapeError> {
    match shape_error(data) {
        Some(e) => Err(e),
        None => Ok(public_names(struct_fields(data))),
    }
}

} // verus!
