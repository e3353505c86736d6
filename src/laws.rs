use vstd::prelude::*;

use crate::input::{
    field_list, has_unnamed, is_listed, public_names, struct_fields, Data, DeriveInput, Field,
    ShapeError, Visibility,
};
use crate::synth::{expansion_of, fields_body, impl_header};

verus! {

/// The listed names of two field sequences placed one after the other are the
/// names of the first followed by those of the second.
pub proof fn lemma_public_names_concat(a: Seq<Field>, b: Seq<Field>)
    ensures
        public_names(a + b) == public_names(a) + public_names(b),
    decreases b.len(),
{
    if b.len() == 0 {
        assert(a + b =~= a);
        assert(public_names(b) =~= seq![]);
        assert(public_names(a) + public_names(b) =~= public_names(a));
    } else {
        lemma_public_names_concat(a, b.drop_last());
        assert((a + b).drop_last() =~= a + b.drop_last());
        assert((a + b).last() == b.last());
        if is_listed(b.last()) {
            assert(public_names(a) + public_names(b) =~= (public_names(a) + public_names(
                b.drop_last(),
            )).push(b.last().ident->Some_0@));
        }
    }
}

/// Every listed name comes from a field that is named and `pub`.
pub proof fn lemma_public_names_origin(fields: Seq<Field>, k: int)
    requires
        0 <= k < public_names(fields).len(),
    ensures
        exists|j: int|
            0 <= j < fields.len() && is_listed(#[trigger] fields[j]) && fields[j].ident->Some_0@
                == public_names(fields)[k],
    decreases fields.len(),
{
    let rest = fields.drop_last();
    if k < public_names(rest).len() {
        lemma_public_names_origin(rest, k);
        let j = choose|j: int|
            0 <= j < rest.len() && is_listed(#[trigger] rest[j]) && rest[j].ident->Some_0@
                == public_names(rest)[k];
        assert(fields[j] == rest[j]);
    } else {
        assert(fields[fields.len() - 1] == fields.last());
    }
}

/// A struct whose fields are all named and `pub` yields every identifier, in
/// declaration order: as many names as fields.
pub proof fn lemma_all_fields_public(data: Data)
    requires
        data is Struct,
        forall|i: int| 0 <= i < struct_fields(data).len() ==> is_listed(#[trigger] struct_fields(data)[i]),
    ensures
        field_list(data) == Ok::<Seq<Seq<char>>, ShapeError>(
            struct_fields(data).map_values(|f: Field| f.ident->Some_0@),
        ),
        field_list(data)->Ok_0.len() == struct_fields(data).len(),
{
    let fields = struct_fields(data);
    assert(!has_unnamed(fields));
    lemma_listed_identifiers(fields);
}

proof fn lemma_listed_identifiers(fields: Seq<Field>)
    requires
        forall|i: int| 0 <= i < fields.len() ==> is_listed(#[trigger] fields[i]),
    ensures
        public_names(fields) == fields.map_values(|f: Field| f.ident->Some_0@),
    decreases fields.len(),
{
    if fields.len() > 0 {
        let rest = fields.drop_last();
        assert forall|i: int| 0 <= i < rest.len() implies is_listed(#[trigger] rest[i]) by {
            assert(rest[i] == fields[i]);
        }
        lemma_listed_identifiers(rest);
        assert(is_listed(fields[fields.len() - 1]));
        assert(fields.map_values(|f: Field| f.ident->Some_0@) =~= rest.map_values(
            |f: Field| f.ident->Some_0@,
        ).push(fields.last().ident->Some_0@));
    } else {
        assert(fields.map_values(|f: Field| f.ident->Some_0@) =~= seq![]);
    }
}

/// A named field that is not `pub` leaves no trace: the list is what it would
/// be without that field, so the `pub` fields keep their relative order, and
/// its identifier is absent (when no other field bears it).
pub proof fn lemma_non_public_field_omitted(data: Data, i: int)
    requires
        data is Struct,
        !has_unnamed(struct_fields(data)),
        0 <= i < struct_fields(data).len(),
        struct_fields(data)[i].vis != Visibility::Public,
        forall|j: int|
            0 <= j < struct_fields(data).len() && j != i ==> (#[trigger] struct_fields(
                data,
            )[j]).ident->Some_0@ != struct_fields(data)[i].ident->Some_0@,
    ensures
        field_list(data) == Ok::<Seq<Seq<char>>, ShapeError>(
            public_names(struct_fields(data).remove(i)),
        ),
        !field_list(data)->Ok_0.contains(struct_fields(data)[i].ident->Some_0@),
{
    let fields = struct_fields(data);
    let before = fields.subrange(0, i);
    let after = fields.subrange(i + 1, fields.len() as int);
    assert(fields =~= before + seq![fields[i]] + after);
    assert(fields.remove(i) =~= before + after);
    lemma_public_names_concat(before + seq![fields[i]], after);
    lemma_public_names_concat(before, seq![fields[i]]);
    lemma_public_names_concat(before, after);
    assert(seq![fields[i]].drop_last() =~= Seq::<Field>::empty());
    assert(seq![fields[i]].last() == fields[i]);
    assert(public_names(Seq::<Field>::empty()) =~= seq![]);
    assert(public_names(seq![fields[i]]) =~= seq![]);
    assert(public_names(before) + Seq::<Seq<char>>::empty() =~= public_names(before));
    let names = public_names(fields);
    if names.contains(fields[i].ident->Some_0@) {
        let k = choose|k: int| 0 <= k < names.len() && names[k] == fields[i].ident->Some_0@;
        lemma_public_names_origin(fields, k);
    }
}

/// A struct with no field, or with no `pub` field, yields an empty list and no error.
pub proof fn lemma_no_public_field(data: Data)
    requires
        data is Struct,
        forall|i: int|
            0 <= i < struct_fields(data).len() ==> (#[trigger] struct_fields(data)[i]).ident is Some
                && struct_fields(data)[i].vis != Visibility::Public,
    ensures
        field_list(data) == Ok::<Seq<Seq<char>>, ShapeError>(seq![]),
{
    lemma_none_listed(struct_fields(data));
}

proof fn lemma_none_listed(fields: Seq<Field>)
    requires
        forall|i: int| 0 <= i < fields.len() ==> !is_listed(#[trigger] fields[i]),
    ensures
        public_names(fields) == Seq::<Seq<char>>::empty(),
    decreases fields.len(),
{
    if fields.len() > 0 {
        let rest = fields.drop_last();
        assert forall|i: int| 0 <= i < rest.len() implies !is_listed(#[trigger] rest[i]) by {
            assert(rest[i] == fields[i]);
        }
        lemma_none_listed(rest);
        assert(!is_listed(fields[fields.len() - 1]));
    }
}

/// An enum, a union, a marker struct, or a struct with any positional field is
/// refused, whatever its other fields.
pub proof fn lemma_unsupported_shape(data: Data)
    requires
        !(data is Struct) || has_unnamed(struct_fields(data)),
    ensures
        field_list(data) is Err,
{
}

/// The generic clause is carried over as it stands, and the generated body
/// depends on the fields alone: two definitions with the same fields but
/// different generic parameters or bounds get the same list of names.
pub proof fn lemma_generics_pass_through(a: DeriveInput, b: DeriveInput)
    requires
        a.data == b.data,
        field_list(a.data) is Ok,
    ensures
        field_list(b.data) == field_list(a.data),
        expansion_of(a, field_list(a.data)->Ok_0) == impl_header(
            a.ident@,
            a.generics.impl_generics@,
            a.generics.ty_generics@,
            a.generics.where_clause@,
        ) + fields_body(field_list(a.data)->Ok_0),
        expansion_of(b, field_list(b.data)->Ok_0) == impl_header(
            b.ident@,
            b.generics.impl_generics@,
            b.generics.ty_generics@,
            b.generics.where_clause@,
        ) + fields_body(field_list(a.data)->Ok_0),
{
}

} // verus!
