//! What holds of argument resolution whatever the descriptor and the replies.

use vstd::prelude::*;
use crate::cli::{Reply, Request};
use crate::registry::ArgView;
use crate::resolver::{
    lemma_argument_stable, resolve_argument, resolve_fields, resolve_value, Resolution,
};

verus! {

/// The descriptor `arg`, marked as optional.
pub open spec fn made_optional(arg: ArgView) -> ArgView {
    ArgView { optional: true, ..arg }
}

/// What a granted optional wraps around a value; a failure passes through.
pub open spec fn wrapped(value: Result<Seq<char>, Seq<char>>) -> Result<Seq<char>, Seq<char>> {
    match value {
        Ok(v) => Ok("Some("@ + v + ")"@),
        Err(path) => Err(path),
    }
}

/// The replies that a list of pre-supplied values makes, one fragment each.
pub open spec fn supplied(values: Seq<Seq<char>>) -> Seq<Reply> {
    Seq::new(values.len(), |i: int| Reply::Text(Some(values[i])))
}

/// Marking a descriptor as optional changes nothing in how its value is resolved.
pub proof fn lemma_value_ignores_optional(arg: ArgView, r: Seq<Reply>)
    ensures
        resolve_value(made_optional(arg), r) == resolve_value(arg, r),
{
    let opt = made_optional(arg);
    assert(opt.options == arg.options);
    assert(opt.name == arg.name);
    assert(opt.type_input == arg.type_input);
    assert(opt.variant == arg.variant);
}

/// Wrapping a descriptor as optional and granting a value gives `Some(v)` around the
/// representation `v` that the descriptor has without the wrapping, whatever its shape;
/// declining gives `None`.
pub proof fn optional_wrapping(arg: ArgView, r: Seq<Reply>)
    requires
        !arg.optional,
    ensures
        resolve_argument(made_optional(arg), seq![Reply::Flag(Some(true))] + r).value == wrapped(
            resolve_argument(arg, r).value,
        ),
        resolve_argument(made_optional(arg), seq![Reply::Flag(Some(false))] + r).value == Ok::<
            Seq<char>,
            Seq<char>,
        >("None"@),
{
    let yes = seq![Reply::Flag(Some(true))] + r;
    assert(yes[0] == Reply::Flag(Some(true)));
    assert(yes.skip(1) =~= r);
    lemma_value_ignores_optional(arg, r);
    let no = seq![Reply::Flag(Some(false))] + r;
    assert(no[0] == Reply::Flag(Some(false)));
}

/// Where the first `n` fields resolve, so do the first `k` of them, to the first `k`
/// of the same representations.
pub proof fn lemma_fields_prefix(fields: Seq<ArgView>, k: nat, n: nat, r: Seq<Reply>)
    requires
        k <= n <= fields.len(),
        resolve_fields(fields, n, r).values is Ok,
    ensures
        resolve_fields(fields, k, r).values is Ok,
        resolve_fields(fields, n, r).values->Ok_0.len() == n,
        resolve_fields(fields, k, r).values->Ok_0 == resolve_fields(
            fields,
            n,
            r,
        ).values->Ok_0.subrange(0, k as int),
    decreases n,
{
    if n == 0 {
        assert(resolve_fields(fields, k, r).values->Ok_0 =~= resolve_fields(
            fields,
            n,
            r,
        ).values->Ok_0.subrange(0, k as int));
    } else {
        let before = resolve_fields(fields, (n - 1) as nat, r);
        assert(before.values is Ok);
        if k == n {
            lemma_fields_prefix(fields, (n - 1) as nat, (n - 1) as nat, r);
            assert(resolve_fields(fields, k, r).values->Ok_0 =~= resolve_fields(
                fields,
                n,
                r,
            ).values->Ok_0.subrange(0, k as int));
        } else {
            lemma_fields_prefix(fields, k, (n - 1) as nat, r);
            assert(resolve_fields(fields, k, r).values->Ok_0 =~= resolve_fields(
                fields,
                n,
                r,
            ).values->Ok_0.subrange(0, k as int));
        }
    }
}

/// The representations of a run of fields stand in the order in which the fields are
/// declared: the one at place `i` is that of the field declared at place `i`, resolved
/// against the replies that the fields before it left over.
pub proof fn fields_keep_declared_order(fields: Seq<ArgView>, r: Seq<Reply>, i: int)
    requires
        0 <= i < fields.len(),
        resolve_fields(fields, fields.len(), r).values is Ok,
    ensures
        resolve_fields(fields, fields.len(), r).values->Ok_0.len() == fields.len(),
        resolve_fields(fields, i as nat, r).values is Ok,
        resolve_argument(
            fields[i],
            r.skip(resolve_fields(fields, i as nat, r).asked.len() as int),
        ).value == Ok::<Seq<char>, Seq<char>>(
            resolve_fields(fields, fields.len(), r).values->Ok_0[i],
        ),
{
    lemma_fields_prefix(fields, i as nat, fields.len(), r);
    lemma_fields_prefix(fields, (i + 1) as nat, fields.len(), r);
    let upto = resolve_fields(fields, (i + 1) as nat, r);
    let all = resolve_fields(fields, fields.len(), r);
    assert(upto.values->Ok_0[i] == all.values->Ok_0.subrange(0, i + 1)[i]);
}

/// Resolution is a function of the descriptor and of the values supplied: two
/// resolutions of one descriptor that draw on the same list of pre-supplied values,
/// each taking from its front as many as it asks for, come to the same result.
pub proof fn resolution_is_deterministic(
    arg: ArgView,
    values: Seq<Seq<char>>,
    first: nat,
    second: nat,
)
    requires
        first <= values.len(),
        second <= values.len(),
        resolve_argument(arg, supplied(values.subrange(0, first as int))).asked.len() == first,
        resolve_argument(arg, supplied(values.subrange(0, second as int))).asked.len() == second,
    ensures
        first == second,
        resolve_argument(arg, supplied(values.subrange(0, first as int))) == resolve_argument(
            arg,
            supplied(values.subrange(0, second as int)),
        ),
{
    let a = supplied(values.subrange(0, first as int));
    let b = supplied(values.subrange(0, second as int));
    if first <= second {
        let more = supplied(values.subrange(first as int, second as int));
        assert(a + more =~= b);
        lemma_argument_stable(arg, a, more);
    } else {
        let more = supplied(values.subrange(second as int, first as int));
        assert(b + more =~= a);
        lemma_argument_stable(arg, b, more);
    }
}

/// A descriptor that asks the operator nothing as long as values are supplied: neither
/// optional nor a variant, and so all the way down.
pub open spec fn plain(arg: ArgView) -> bool
    decreases arg,
{
    &&& !arg.optional
    &&& !arg.variant
    &&& forall|i: int| 0 <= i < arg.options.len() ==> plain(#[trigger] arg.options[i])
}

proof fn lemma_supplied_skip(values: Seq<Seq<char>>, k: int)
    requires
        0 <= k <= values.len(),
    ensures
        supplied(values).skip(k) == supplied(values.skip(k)),
{
    assert(supplied(values).skip(k) =~= supplied(values.skip(k)));
}

proof fn lemma_plain_fields_need_no_prompt(fields: Seq<ArgView>, n: nat, values: Seq<Seq<char>>)
    requires
        n <= fields.len(),
        forall|i: int| 0 <= i < fields.len() ==> plain(#[trigger] fields[i]),
        resolve_fields(fields, n, supplied(values)).asked.len() <= values.len(),
    ensures
        forall|i: int|
            0 <= i < resolve_fields(fields, n, supplied(values)).asked.len() ==> resolve_fields(
                fields,
                n,
                supplied(values),
            ).asked[i] == Request::Positional,
    decreases fields, n,
{
    if n > 0 {
        let before = resolve_fields(fields, (n - 1) as nat, supplied(values));
        lemma_plain_fields_need_no_prompt(fields, (n - 1) as nat, values);
        if before.values is Ok {
            let k = before.asked.len() as int;
            lemma_supplied_skip(values, k);
            supplied_values_need_no_prompt(fields[n - 1], values.skip(k));
        }
    }
}

/// With every value supplied, nothing is asked of the operator: a plain descriptor
/// that finds its values among the pre-supplied ones makes no request but for the
/// next of them.
pub proof fn supplied_values_need_no_prompt(arg: ArgView, values: Seq<Seq<char>>)
    requires
        plain(arg),
        resolve_argument(arg, supplied(values)).asked.len() <= values.len(),
    ensures
        forall|i: int|
            0 <= i < resolve_argument(arg, supplied(values)).asked.len() ==> resolve_argument(
                arg,
                supplied(values),
            ).asked[i] == Request::Positional,
    decreases arg, 0nat,
{
    if arg.options.len() > 0 {
        lemma_plain_fields_need_no_prompt(arg.options, arg.options.len(), values);
    }
}

} // verus!
