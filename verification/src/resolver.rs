//! Recursive resolution of one argument descriptor into its textual representation.

use vstd::prelude::*;
use vstd::string::*;
use crate::cli::{
    choices, extends, lemma_since_joins, lemma_since_nothing, lemma_since_push, replies, requests,
    since, Choice, Cli, Recorded, Exchange, Reply, Request,
};
use crate::error::Error;
use crate::registry::{arg_views, lemma_options_view, shape_of, Arg, ArgView, Shape};
use crate::text::{join, joined, texts};

verus! {

/// What resolving one descriptor against a sequence of replies comes to: the
/// representation, or the path of the argument that got no value, and the requests
/// made on the way, one for each reply consumed.
pub struct Resolution {
    pub value: Result<Seq<char>, Seq<char>>,
    pub asked: Seq<Request>,
}

/// What resolving a run of fields comes to: their representations in order, or the
/// path of the first that got no value, and the requests made on the way.
pub struct FieldResolutions {
    pub values: Result<Seq<Seq<char>>, Seq<char>>,
    pub asked: Seq<Request>,
}

/// The question asked before an optional argument.
pub open spec fn optional_question(arg: ArgView) -> Request {
    Request::Confirm {
        label: "Do you want to provide a value for the optional parameter: "@ + arg.name + "?"@,
        initial: true,
    }
}

/// The free-text prompt for a primitive.
pub open spec fn primitive_prompt(arg: ArgView) -> Request {
    Request::Input {
        label: "Enter the value for the parameter: "@ + arg.name,
        placeholder: "Type required: "@ + arg.type_input,
        default: None,
    }
}

/// The selection over the alternatives of a variant.
pub open spec fn variant_selection(arg: ArgView) -> Request {
    Request::Select {
        label: "Select the value for the parameter: "@ + arg.name,
        items: Seq::new(
            arg.options.len(),
            |i: int| (arg.options[i].name, arg.options[i].type_input),
        ),
    }
}

/// A scalar is taken as it is, unless it is empty.
pub open spec fn scalar(arg: ArgView, text: Seq<char>) -> Result<Seq<char>, Seq<char>> {
    if text.len() == 0 {
        Err(arg.name)
    } else {
        Ok(text)
    }
}

/// A primitive takes the next fragment; once the fragments are used up it asks.
pub open spec fn resolve_primitive(arg: ArgView, r: Seq<Reply>) -> Resolution {
    match r[0] {
        Reply::Text(Some(text)) => Resolution {
            value: scalar(arg, text),
            asked: seq![Request::Positional],
        },
        _ => Resolution {
            value: match r[1] {
                Reply::Text(Some(text)) => scalar(arg, text),
                _ => Err(arg.name),
            },
            asked: seq![Request::Positional, primitive_prompt(arg)],
        },
    }
}

/// The first `n` of `fields`, each resolved in turn by the full procedure, stopping at
/// the first that fails.
pub open spec fn resolve_fields(fields: Seq<ArgView>, n: nat, r: Seq<Reply>) -> FieldResolutions
    decreases fields, n,
{
    if n == 0 || n > fields.len() {
        FieldResolutions { values: Ok(Seq::empty()), asked: Seq::empty() }
    } else {
        let before = resolve_fields(fields, (n - 1) as nat, r);
        match before.values {
            Err(_) => before,
            Ok(values) => {
                let this = resolve_argument(fields[n - 1], r.skip(before.asked.len() as int));
                FieldResolutions {
                    values: match this.value {
                        Ok(v) => Ok(values.push(v)),
                        Err(path) => Err(path),
                    },
                    asked: before.asked + this.asked,
                }
            },
        }
    }
}

/// A variant is chosen from its alternatives; the fields of the chosen one, if it has
/// any, follow in round brackets.
pub open spec fn resolve_variant(arg: ArgView, r: Seq<Reply>) -> Resolution
    decreases arg, 0nat,
{
    match r[0] {
        Reply::Index(Some(i)) if i < arg.options.len() => {
            let chosen = arg.options[i as int];
            if chosen.options.len() == 0 {
                Resolution { value: Ok(chosen.name), asked: seq![variant_selection(arg)] }
            } else {
                let fields = resolve_fields(chosen.options, chosen.options.len(), r.skip(1));
                Resolution {
                    value: match fields.values {
                        Ok(values) => Ok(chosen.name + "("@ + joined(values, ", "@) + ")"@),
                        Err(path) => Err(arg.name + "."@ + chosen.name + "."@ + path),
                    },
                    asked: seq![variant_selection(arg)] + fields.asked,
                }
            }
        },
        _ => Resolution { value: Err(arg.name), asked: seq![variant_selection(arg)] },
    }
}

/// A composite is its fields in order, separated by commas, with nothing around them.
pub open spec fn resolve_composite(arg: ArgView, r: Seq<Reply>) -> Resolution
    decreases arg, 0nat,
{
    let fields = resolve_fields(arg.options, arg.options.len(), r);
    Resolution {
        value: match fields.values {
            Ok(values) => Ok(joined(values, ", "@)),
            Err(path) => Err(arg.name + "."@ + path),
        },
        asked: fields.asked,
    }
}

/// The value of an argument that is present, by its shape.
pub open spec fn resolve_value(arg: ArgView, r: Seq<Reply>) -> Resolution
    decreases arg, 1nat,
{
    match shape_of(arg) {
        Shape::Primitive => resolve_primitive(arg, r),
        Shape::Variant => resolve_variant(arg, r),
        Shape::Composite => resolve_composite(arg, r),
    }
}

/// The full procedure: an optional argument is asked for first, and is `None` when
/// declined and `Some(..)` around its value when granted.
pub open spec fn resolve_argument(arg: ArgView, r: Seq<Reply>) -> Resolution
    decreases arg, 2nat,
{
    if arg.optional {
        match r[0] {
            Reply::Flag(Some(false)) => Resolution {
                value: Ok("None"@),
                asked: seq![optional_question(arg)],
            },
            Reply::Flag(Some(true)) => {
                let inner = resolve_value(arg, r.skip(1));
                Resolution {
                    value: match inner.value {
                        Ok(v) => Ok("Some("@ + v + ")"@),
                        Err(path) => Err(path),
                    },
                    asked: seq![optional_question(arg)] + inner.asked,
                }
            },
            _ => Resolution { value: Err(arg.name), asked: seq![optional_question(arg)] },
        }
    } else {
        resolve_value(arg, r)
    }
}

/// Once a field has failed, the fields after it are not looked at.
pub proof fn lemma_failure_ends_fields(fields: Seq<ArgView>, k: nat, n: nat, r: Seq<Reply>)
    requires
        k <= n <= fields.len(),
        resolve_fields(fields, k, r).values is Err,
    ensures
        resolve_fields(fields, n, r) == resolve_fields(fields, k, r),
    decreases n,
{
    if n > k {
        lemma_failure_ends_fields(fields, k, (n - 1) as nat, r);
    }
}

/// A resolution that found all its replies in `r` is the same whatever follows `r`.
pub proof fn lemma_fields_stable(fields: Seq<ArgView>, n: nat, r: Seq<Reply>, more: Seq<Reply>)
    requires
        resolve_fields(fields, n, r).asked.len() <= r.len(),
    ensures
        resolve_fields(fields, n, r + more) == resolve_fields(fields, n, r),
    decreases fields, n,
{
    if n == 0 || n > fields.len() {
    } else {
        let before = resolve_fields(fields, (n - 1) as nat, r);
        lemma_fields_stable(fields, (n - 1) as nat, r, more);
        if before.values is Ok {
            let k = before.asked.len() as int;
            assert((r + more).skip(k) =~= r.skip(k) + more);
            lemma_argument_stable(fields[n - 1], r.skip(k), more);
        }
    }
}

/// A resolution that found all its replies in `r` is the same whatever follows `r`.
pub proof fn lemma_value_stable(arg: ArgView, r: Seq<Reply>, more: Seq<Reply>)
    requires
        resolve_value(arg, r).asked.len() <= r.len(),
    ensures
        resolve_value(arg, r + more) == resolve_value(arg, r),
    decreases arg, 1nat,
{
    if arg.options.len() == 0 {
    } else if arg.variant {
        assert((r + more).skip(1) =~= r.skip(1) + more);
        match r[0] {
            Reply::Index(Some(i)) if i < arg.options.len() => {
                let chosen = arg.options[i as int];
                if chosen.options.len() != 0 {
                    lemma_fields_stable(chosen.options, chosen.options.len(), r.skip(1), more);
                }
            },
            _ => {},
        }
    } else {
        lemma_fields_stable(arg.options, arg.options.len(), r, more);
    }
}

/// A resolution that found all its replies in `r` is the same whatever follows `r`.
pub proof fn lemma_argument_stable(arg: ArgView, r: Seq<Reply>, more: Seq<Reply>)
    requires
        resolve_argument(arg, r).asked.len() <= r.len(),
    ensures
        resolve_argument(arg, r + more) == resolve_argument(arg, r),
    decreases arg, 2nat,
{
    if arg.optional {
        assert((r + more).skip(1) =~= r.skip(1) + more);
        if r[0] == Reply::Flag(Some(true)) {
            lemma_value_stable(arg, r.skip(1), more);
        }
    } else {
        lemma_value_stable(arg, r, more);
    }
}

/// `out` carries what `value` says: the representation, or the failing path inside
/// [`Error::ArgumentResolution`].
pub open spec fn delivers(out: Result<String, Error>, value: Result<Seq<char>, Seq<char>>) -> bool {
    match out {
        Ok(text) => value == Ok::<Seq<char>, Seq<char>>(text@),
        Err(Error::ArgumentResolution { path }) => value == Err::<Seq<char>, Seq<char>>(path@),
        Err(_) => false,
    }
}

/// As [`delivers`], for the representations of a run of fields.
pub open spec fn delivers_all(
    out: Result<Vec<String>, Error>,
    values: Result<Seq<Seq<char>>, Seq<char>>,
) -> bool {
    match out {
        Ok(found) => values == Ok::<Seq<Seq<char>>, Seq<char>>(texts(found@)),
        Err(Error::ArgumentResolution { path }) => values == Err::<Seq<Seq<char>>, Seq<char>>(
            path@,
        ),
        Err(_) => false,
    }
}

/// The stretch of transcript `said` holds exactly the requests of `res`, and `out`
/// carries its value.
pub open spec fn accounts(res: Resolution, said: Seq<Exchange>, out: Result<String, Error>) -> bool {
    res.asked == requests(said) && delivers(out, res.value)
}

/// As [`accounts`], for a run of fields.
pub open spec fn accounts_all(
    res: FieldResolutions,
    said: Seq<Exchange>,
    out: Result<Vec<String>, Error>,
) -> bool {
    res.asked == requests(said) && delivers_all(out, res.values)
}

fn scalar_or_failure(arg: &Arg, text: String) -> (out: Result<String, Error>)
    ensures
        delivers(out, scalar(arg@, text@)),
{
    proof {
        lemma_options_view(*arg);
    }
    if text.as_str().is_empty() {
        Err(Error::ArgumentResolution { path: arg.name.clone() })
    } else {
        Ok(text)
    }
}

/// Obtains one scalar: the next pre-supplied fragment, or, once those are used up,
/// what the operator types. An empty scalar is no value.
pub fn prompt_for_primitive<C: Cli>(arg: &Arg, cli: &mut Recorded<C>) -> (out: Result<String, Error>)
    ensures
        extends(old(cli).transcript(), final(cli).transcript()),
        accounts(
            resolve_primitive(arg@, replies(since(old(cli).transcript(), final(cli).transcript()))),
            since(old(cli).transcript(), final(cli).transcript()),
            out,
        ),
{
    let ghost t0 = cli.transcript();
    proof {
        lemma_options_view(*arg);
    }
    let supplied = cli.next_positional();
    let ghost t1 = cli.transcript();
    proof {
        lemma_since_push(t0, t1.last());
    }
    match supplied {
        Some(text) => scalar_or_failure(arg, text),
        None => {
            let label = String::from_str("Enter the value for the parameter: ").concat(
                arg.name.as_str(),
            );
            let placeholder = String::from_str("Type required: ").concat(arg.type_input.as_str());
            let typed = cli.input(label.as_str(), placeholder.as_str(), None);
            proof {
                let t2 = cli.transcript();
                lemma_since_push(t1, t2.last());
                lemma_since_joins(t0, t1, t2);
                assert(replies(since(t0, t2)) =~= seq![t1.last().reply, t2.last().reply]);
                assert(requests(since(t0, t2)) =~= seq![t1.last().request, t2.last().request]);
            }
            match typed {
                Ok(text) => scalar_or_failure(arg, text),
                Err(_) => Err(Error::ArgumentResolution { path: arg.name.clone() }),
            }
        },
    }
}

/// Resolves every one of `fields` in order by the full procedure, and stops at the
/// first that gets no value.
pub fn prompt_for_fields<C: Cli>(fields: &Vec<Arg>, cli: &mut Recorded<C>) -> (out: Result<
    Vec<String>,
    Error,
>)
    ensures
        extends(old(cli).transcript(), final(cli).transcript()),
        accounts_all(
            resolve_fields(
                arg_views(fields@),
                fields@.len(),
                replies(since(old(cli).transcript(), final(cli).transcript())),
            ),
            since(old(cli).transcript(), final(cli).transcript()),
            out,
        ),
    decreases fields, 0nat,
{
    let ghost t0 = cli.transcript();
    let ghost views = arg_views(fields@);
    let mut found: Vec<String> = Vec::new();
    let mut i: usize = 0;
    proof {
        lemma_since_nothing(t0);
        assert(texts(found@) =~= Seq::<Seq<char>>::empty());
    }
    while i < fields.len()
        invariant
            i <= fields.len(),
            views == arg_views(fields@),
            t0 == old(cli).transcript(),
            extends(t0, cli.transcript()),
            resolve_fields(views, i as nat, replies(since(t0, cli.transcript()))).asked
                == requests(since(t0, cli.transcript())),
            resolve_fields(views, i as nat, replies(since(t0, cli.transcript()))).values == Ok::<
                Seq<Seq<char>>,
                Seq<char>,
            >(texts(found@)),
        decreases fields.len() - i,
    {
        let ghost t1 = cli.transcript();
        let one = prompt_argument(&fields[i], cli);
        proof {
            let t2 = cli.transcript();
            lemma_since_joins(t0, t1, t2);
            lemma_fields_stable(views, i as nat, replies(since(t0, t1)), replies(since(t1, t2)));
            assert(views[i as int] == fields@[i as int]@);
            assert(resolve_fields(views, (i + 1) as nat, replies(since(t0, t2))).asked
                == requests(since(t0, t2)));
        }
        match one {
            Ok(text) => {
                proof {
                    assert(texts(found@.push(text)) =~= texts(found@).push(text@));
                }
                found.push(text);
            },
            Err(e) => {
                proof {
                    lemma_failure_ends_fields(
                        views,
                        (i + 1) as nat,
                        fields@.len(),
                        replies(since(t0, cli.transcript())),
                    );
                }
                return Err(e);
            },
        }
        i = i + 1;
    }
    Ok(found)
}

/// Has the operator pick one alternative, then resolves the fields of the one picked,
/// if it has any, and sets them in round brackets behind its name.
pub fn prompt_for_variant<C: Cli>(arg: &Arg, cli: &mut Recorded<C>) -> (out: Result<String, Error>)
    ensures
        extends(old(cli).transcript(), final(cli).transcript()),
        accounts(
            resolve_variant(arg@, replies(since(old(cli).transcript(), final(cli).transcript()))),
            since(old(cli).transcript(), final(cli).transcript()),
            out,
        ),
    decreases arg, 0nat,
{
    let ghost t0 = cli.transcript();
    proof {
        lemma_options_view(*arg);
    }
    let mut items: Vec<Choice> = Vec::new();
    let mut i: usize = 0;
    while i < arg.options.len()
        invariant
            i <= arg.options.len(),
            items@.len() == i,
            forall|j: int|
                0 <= j < i ==> items@[j].label@ == arg.options@[j].name@ && items@[j].hint@
                    == arg.options@[j].type_input@,
        decreases arg.options.len() - i,
    {
        items.push(
            Choice { label: arg.options[i].name.clone(), hint: arg.options[i].type_input.clone() },
        );
        i = i + 1;
    }
    let label = String::from_str("Select the value for the parameter: ").concat(arg.name.as_str());
    let pick = cli.select(label.as_str(), &items);
    let ghost t1 = cli.transcript();
    proof {
        lemma_since_push(t0, t1.last());
        assert forall|j: int| 0 <= j < arg.options@.len() implies choices(items@)[j] == (
            arg@.options[j].name,
            arg@.options[j].type_input,
        ) by {
            lemma_options_view(arg.options@[j]);
        }
        assert(choices(items@) =~= Seq::new(
            arg@.options.len(),
            |j: int| (arg@.options[j].name, arg@.options[j].type_input),
        ));
        assert(t1.last().request == variant_selection(arg@));
    }
    match pick {
        Ok(index) => {
            if index < arg.options.len() {
                let chosen = &arg.options[index];
                proof {
                    lemma_options_view(*chosen);
                }
                if chosen.options.len() == 0 {
                    Ok(chosen.name.clone())
                } else {
                    let fields = prompt_for_fields(&chosen.options, cli);
                    proof {
                        lemma_since_joins(t0, t1, cli.transcript());
                    }
                    match fields {
                        Ok(values) => {
                            let inner = join(&values, ", ");
                            Ok(
                                chosen.name.clone().concat("(").concat(inner.as_str()).concat(
                                    ")",
                                ),
                            )
                        },
                        Err(Error::ArgumentResolution { path }) => Err(
                            Error::ArgumentResolution {
                                path: arg.name.clone().concat(".").concat(
                                    chosen.name.as_str(),
                                ).concat(".").concat(path.as_str()),
                            },
                        ),
                        Err(other) => Err(other),
                    }
                }
            } else {
                Err(Error::ArgumentResolution { path: arg.name.clone() })
            }
        },
        Err(_) => Err(Error::ArgumentResolution { path: arg.name.clone() }),
    }
}

/// Resolves the fields in order and joins them with commas, with nothing around them.
pub fn prompt_for_composite<C: Cli>(arg: &Arg, cli: &mut Recorded<C>) -> (out: Result<String, Error>)
    ensures
        extends(old(cli).transcript(), final(cli).transcript()),
        accounts(
            resolve_composite(
                arg@,
                replies(since(old(cli).transcript(), final(cli).transcript())),
            ),
            since(old(cli).transcript(), final(cli).transcript()),
            out,
        ),
    decreases arg, 0nat,
{
    proof {
        lemma_options_view(*arg);
    }
    match prompt_for_fields(&arg.options, cli) {
        Ok(values) => Ok(join(&values, ", ")),
        Err(Error::ArgumentResolution { path }) => Err(
            Error::ArgumentResolution {
                path: arg.name.clone().concat(".").concat(path.as_str()),
            },
        ),
        Err(other) => Err(other),
    }
}

/// Resolves an argument that is present, by its shape: a primitive where it has no
/// sub-arguments, else a variant or a composite.
pub fn prompt_argument_value<C: Cli>(arg: &Arg, cli: &mut Recorded<C>) -> (out: Result<String, Error>)
    ensures
        extends(old(cli).transcript(), final(cli).transcript()),
        accounts(
            resolve_value(arg@, replies(since(old(cli).transcript(), final(cli).transcript()))),
            since(old(cli).transcript(), final(cli).transcript()),
            out,
        ),
    decreases arg, 1nat,
{
    match arg.shape() {
        Shape::Primitive => prompt_for_primitive(arg, cli),
        Shape::Variant => prompt_for_variant(arg, cli),
        Shape::Composite => prompt_for_composite(arg, cli),
    }
}

/// Resolves one argument descriptor to its textual representation.
///
/// An optional argument is asked for first: declined, it is `None`; granted, it is
/// `Some(..)` around its value. Whatever the source hands back, the result is
/// [`resolve_argument`] of the replies, and the requests made are those it lists.
pub fn prompt_argument<C: Cli>(arg: &Arg, cli: &mut Recorded<C>) -> (out: Result<String, Error>)
    ensures
        extends(old(cli).transcript(), final(cli).transcript()),
        accounts(
            resolve_argument(arg@, replies(since(old(cli).transcript(), final(cli).transcript()))),
            since(old(cli).transcript(), final(cli).transcript()),
            out,
        ),
    decreases arg, 2nat,
{
    let ghost t0 = cli.transcript();
    proof {
        lemma_options_view(*arg);
    }
    if arg.optional {
        let label = String::from_str(
            "Do you want to provide a value for the optional parameter: ",
        ).concat(arg.name.as_str()).concat("?");
        let wanted = cli.confirm(label.as_str(), true);
        let ghost t1 = cli.transcript();
        proof {
            lemma_since_push(t0, t1.last());
        }
        match wanted {
            Ok(true) => {
                let value = prompt_argument_value(arg, cli);
                proof {
                    lemma_since_joins(t0, t1, cli.transcript());
                }
                match value {
                    Ok(text) => Ok(String::from_str("Some(").concat(text.as_str()).concat(")")),
                    Err(e) => Err(e),
                }
            },
            Ok(false) => Ok(String::from_str("None")),
            Err(_) => Err(Error::ArgumentResolution { path: arg.name.clone() }),
        }
    } else {
        prompt_argument_value(arg, cli)
    }
}

} // verus!
