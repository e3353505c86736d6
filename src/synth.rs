use vstd::prelude::*;
use vstd::string::StringExecFns;

use crate::extract::field_names;
use crate::input::{field_list, DeriveInput, Generics, ShapeError};

verus! {

pub open spec fn digit(d: nat) -> char {
    seq!['0', '1', '2', '3', '4', '5', '6', '7', '8', '9'][d as int]
}

/// Decimal text of a natural number, without leading zeros.
pub open spec fn decimal(n: nat) -> Seq<char>
    decreases n,
{
    if n < 10 {
        seq![digit(n)]
    } else {
        decimal(n / 10) + seq![digit(n % 10)]
    }
}

/// Each name as a string literal followed by a comma, in order.
pub open spec fn literals(names: Seq<Seq<char>>) -> Seq<char>
    decreases names.len(),
{
    if names.len() == 0 {
        seq![]
    } else {
        literals(names.drop_last()) + "\""@ + names.last() + "\","@
    }
}

/// Source text of the `impl` block that gives the type `name` the associated
/// function `fields`, returning `names` as a constant array.
pub open spec fn expansion(
    name: Seq<char>,
    impl_generics: Seq<char>,
    ty_generics: Seq<char>,
    where_clause: Seq<char>,
    names: Seq<Seq<char>>,
) -> Seq<char> {
    impl_header(name, impl_generics, ty_generics, where_clause) + fields_body(names)
}

/// The opening of the `impl` block: the generic clause, the type, the `where` clause.
pub open spec fn impl_header(
    name: Seq<char>,
    impl_generics: Seq<char>,
    ty_generics: Seq<char>,
    where_clause: Seq<char>,
) -> Seq<char> {
    "impl "@ + impl_generics + " "@ + name + " "@ + ty_generics + " "@ + where_clause
}

/// The body of the `impl` block: the function `fields` returning `names`.
pub open spec fn fields_body(names: Seq<Seq<char>>) -> Seq<char> {
    " { pub const fn fields() -> [&'static str; "@ + decimal(names.len()) + "] { ["@ + literals(
        names,
    ) + "] } }"@
}

pub open spec fn expansion_of(input: DeriveInput, names: Seq<Seq<char>>) -> Seq<char> {
    expansion(
        input.ident@,
        input.generics.impl_generics@,
        input.generics.ty_generics@,
        input.generics.where_clause@,
        names,
    )
}

fn digit_text(d: usize) -> (r: &'static str)
    requires
        d < 10,
    ensures
        r@ == seq![digit(d as nat)],
{
    proof {
        reveal_strlit("0");
        reveal_strlit("1");
        reveal_strlit("2");
        reveal_strlit("3");
        reveal_strlit("4");
        reveal_strlit("5");
        reveal_strlit("6");
        reveal_strlit("7");
        reveal_strlit("8");
        reveal_strlit("9");
    }
    match d {
        0 => "0",
        1 => "1",
        2 => "2",
        3 => "3",
        4 => "4",
        5 => "5",
        6 => "6",
        7 => "7",
        8 => "8",
        _ => "9",
    }
}

/// Appends the decimal text of `n`.
pub fn push_decimal(out: &mut String, n: usize)
    ensures
        final(out)@ == old(out)@ + decimal(n as nat),
    decreases n,
{
    if n < 10 {
        out.append(digit_text(n));
    } else {
        push_decimal(out, n / 10);
        out.append(digit_text(n % 10));
        assert(final(out)@ =~= old(out)@ + decimal(n as nat));
    }
}

/// Appends each name as a string literal followed by a comma.
pub fn push_literals(out: &mut String, names: &Vec<String>)
    ensures
        final(out)@ == old(out)@ + literals(names.deep_view()),
{
    let ghost start = out@;
    let mut i: usize = 0;
    while i < names.len()
        invariant
            i <= names@.len(),
            out@ == start + literals(names.deep_view().subrange(0, i as int)),
        decreases names@.len() - i,
    {
        assert(names.deep_view().subrange(0, i + 1).drop_last() =~= names.deep_view().subrange(
            0,
            i as int,
        ));
        out.append("\"");
        out.append(names[i].as_str());
        out.append("\",");
        assert(out@ =~= start + literals(names.deep_view().subrange(0, i + 1)));
        i = i + 1;
    }
    assert(names.deep_view().subrange(0, names@.len() as int) =~= names.deep_view());
}

/// Source text of the `impl` block for a type named `name` with the generic
/// clause `generics`, whose `fields()` returns `names`.
pub fn synthesize(name: &String, generics: &Generics, names: &Vec<String>) -> (r: String)
    ensures
        r@ == expansion(
            name@,
            generics.impl_generics@,
            generics.ty_generics@,
            generics.where_clause@,
            names.deep_view(),
        ),
{
    let mut out = String::new();
    out.append("impl ");
    out.append(generics.impl_generics.as_str());
    out.append(" ");
    out.append(name.as_str());
    out.append(" ");
    out.append(generics.ty_generics.as_str());
    out.append(" ");
    out.append(generics.where_clause.as_str());
    out.append(" { pub const fn fields() -> [&'static str; ");
    push_decimal(&mut out, names.len());
    out.append("] { [");
    push_literals(&mut out, names);
    out.append("] } }");
    assert(out@ =~= expansion(
        name@,
        generics.impl_generics@,
        generics.ty_generics@,
        generics.where_clause@,
        names.deep_view(),
    ));
    out
}

/// The expansion of the derive on `input`: the source text of an `impl` block,
/// under the type's own generic clause, whose `fields()` returns the names of
/// its `pub` fields; or the error that the type's shape raises.
pub fn derive(input: &DeriveInput) -> (r: Result<String, ShapeError>)
    ensures
        match field_list(input.data) {
            Err(e) => r == Err::<String, ShapeError>(e),
            Ok(names) => r is Ok && r->Ok_0@ == expansion_of(*input, names),
        },
{
    match field_names(input) {
        Err(e) => Err(e),
        Ok(names) => Ok(synthesize(&input.ident, &input.generics, &names)),
    }
}

} // verus!
