use vstd::prelude::*;

use crate::input::{
    field_list, public_names, shape_error, struct_fields, Data, DeriveInput, Field, ShapeError,
    Visibility,
};

verus! {

/// The fields of the struct, or the error that its shape raises.
pub fn get_struct_data(input: &DeriveInput) -> (r: Result<&Vec<Field>, ShapeError>)
    ensures
        match shape_error(input.data) {
            Some(e) => r == Err::<&Vec<Field>, ShapeError>(e),
            None => r is Ok && r->Ok_0@ == struct_fields(input.data),
        },
{
    match &input.data {
        Data::Enum => Err(ShapeError::Enum),
        Data::Union => Err(ShapeError::Union),
        Data::Unit => Err(ShapeError::Unnamed),
        Data::Struct(fields) => {
            let mut i: usize = 0;
            while i < fields.len()
                invariant
                    i <= fields@.len(),
                    fields@ == struct_fields(input.data),
                    forall|j: int| 0 <= j < i ==> (#[trigger] fields@[j]).ident is Some,
                decreases fields@.len() - i,
            {
                if fields[i].ident.is_none() {
                    assert(fields@[i as int].ident is None);
                    return Err(ShapeError::Unnamed);
                }
                i = i + 1;
            }
            Ok(fields)
        },
    }
}

/// The identifiers of the fields marked `pub`, in declaration order.
pub fn get_field_names(fields: &Vec<Field>) -> (names: Vec<String>)
    ensures
        names.deep_view() == public_names(fields@),
{
    let mut names: Vec<String> = Vec::new();
    let mut i: usize = 0;
    while i < fields.len()
        invariant
            i <= fields@.len(),
            names.deep_view() == public_names(fields@.subrange(0, i as int)),
        decreases fields@.len() - i,
    {
        assert(fields@.subrange(0, i + 1).drop_last() == fields@.subrange(0, i as int));
        let f = &fields[i];
        match &f.ident {
            Some(id) => {
                if f.vis == Visibility::Public {
                    names.push(id.clone());
                    assert(names.deep_view() =~= public_names(fields@.subrange(0, i + 1)));
                }
            },
            None => {},
        }
        i = i + 1;
    }
    assert(fields@.subrange(0, fields@.len() as int) == fields@);
    names
}

/// The names of the `pub` fields of the type, or the error its shape raises.
pub fn field_names(input: &DeriveInput) -> (r: Result<Vec<String>, ShapeError>)
    ensures
        match field_list(input.data) {
            Err(e) => r == Err::<Vec<String>, ShapeError>(e),
            Ok(names) => r is Ok && r->Ok_0.deep_view() == names,
        },
{
    match get_struct_data(input) {
        Err(e) => Err(e),
        Ok(fields) => Ok(get_field_names(fields)),
    }
}

} // verus!
