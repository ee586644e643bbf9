//! The type registry: pallets, their extrinsics, and the argument descriptors of each.

use vstd::prelude::*;
use vstd::string::*;
use crate::error::{Error, ErrorView};

verus! {

/// One node of an argument's type tree.
#[derive(Debug)]
pub struct Arg {
    /// Identifier shown to the operator.
    pub name: String,
    /// Human-readable type hint.
    pub type_input: String,
    /// Whether the value may be absent altogether.
    pub optional: bool,
    /// Whether the value is one of a closed set of named alternatives.
    pub variant: bool,
    /// The alternatives of a variant, or the fields of a composite; empty for a primitive.
    pub options: Vec<Arg>,
}

/// The mathematical value of an [`Arg`].
pub struct ArgView {
    pub name: Seq<char>,
    pub type_input: Seq<char>,
    pub optional: bool,
    pub variant: bool,
    pub options: Seq<ArgView>,
}

/// The value of a descriptor, sub-arguments included.
pub open spec fn arg_view(arg: Arg) -> ArgView
    decreases arg,
{
    ArgView {
        name: arg.name@,
        type_input: arg.type_input@,
        optional: arg.optional,
        variant: arg.variant,
        options: Seq::new(
            arg.options@.len(),
            |i: int|
                if 0 <= i < arg.options@.len() {
                    arg_view(arg.options@[i])
                } else {
                    arbitrary()
                },
        ),
    }
}

impl View for Arg {
    type V = ArgView;

    open spec fn view(&self) -> ArgView {
        arg_view(*self)
    }
}

/// The three shapes a descriptor can have.
#[derive(Debug, Clone, Copy, PartialEq, Eq, Structural)]
pub enum Shape {
    /// A scalar: no sub-arguments.
    Primitive,
    /// One of the sub-arguments, each an alternative.
    Variant,
    /// All of the sub-arguments, each a field.
    Composite,
}

/// The shape of a descriptor: a primitive where it has no sub-arguments, else a
/// variant or a composite as it says.
pub open spec fn shape_of(arg: ArgView) -> Shape {
    if arg.options.len() == 0 {
        Shape::Primitive
    } else if arg.variant {
        Shape::Variant
    } else {
        Shape::Composite
    }
}

/// A descriptor is well formed where only a descriptor with alternatives calls itself
/// a variant, and so all the way down.
pub open spec fn well_formed(arg: ArgView) -> bool
    decreases arg,
{
    &&& arg.variant ==> arg.options.len() > 0
    &&& forall|i: int| 0 <= i < arg.options.len() ==> well_formed(#[trigger] arg.options[i])
}

/// Whether every one of a run of descriptors is well formed.
pub open spec fn all_well_formed(args: Seq<ArgView>) -> bool {
    forall|i: int| 0 <= i < args.len() ==> well_formed(#[trigger] args[i])
}

/// A well-formed descriptor has exactly the shape its flags say: it is a variant where
/// it says so, a primitive where it has no sub-arguments, and a composite otherwise.
pub proof fn shape_is_exclusive(arg: ArgView)
    requires
        well_formed(arg),
    ensures
        shape_of(arg) == Shape::Primitive <==> arg.options.len() == 0 && !arg.variant,
        shape_of(arg) == Shape::Variant <==> arg.variant,
        shape_of(arg) == Shape::Composite <==> arg.options.len() > 0 && !arg.variant,
{
}

impl Arg {
    /// A required scalar.
    pub fn primitive(name: &str, type_input: &str) -> (arg: Arg)
        ensures
            arg@ == (ArgView {
                name: name@,
                type_input: type_input@,
                optional: false,
                variant: false,
                options: Seq::empty(),
            }),
            well_formed(arg@),
    {
        let arg = Arg {
            name: String::from_str(name),
            type_input: String::from_str(type_input),
            optional: false,
            variant: false,
            options: Vec::new(),
        };
        proof {
            lemma_options_view(arg);
            assert(arg@.options =~= Seq::<ArgView>::empty());
        }
        arg
    }

    /// A required choice among `alternatives`. It is well formed where there is one
    /// alternative at least and each is well formed.
    pub fn variant(name: &str, type_input: &str, alternatives: Vec<Arg>) -> (arg: Arg)
        ensures
            arg@ == (ArgView {
                name: name@,
                type_input: type_input@,
                optional: false,
                variant: true,
                options: arg_views(alternatives@),
            }),
            alternatives@.len() > 0 && all_well_formed(arg_views(alternatives@)) ==> well_formed(
                arg@,
            ),
    {
        let arg = Arg {
            name: String::from_str(name),
            type_input: String::from_str(type_input),
            optional: false,
            variant: true,
            options: alternatives,
        };
        proof {
            lemma_options_view(arg);
        }
        arg
    }

    /// A required structure of `fields`, in this order. It is well formed where each
    /// field is.
    pub fn composite(name: &str, type_input: &str, fields: Vec<Arg>) -> (arg: Arg)
        ensures
            arg@ == (ArgView {
                name: name@,
                type_input: type_input@,
                optional: false,
                variant: false,
                options: arg_views(fields@),
            }),
            all_well_formed(arg_views(fields@)) ==> well_formed(arg@),
    {
        let arg = Arg {
            name: String::from_str(name),
            type_input: String::from_str(type_input),
            optional: false,
            variant: false,
            options: fields,
        };
        proof {
            lemma_options_view(arg);
        }
        arg
    }

    /// The same descriptor, with a value that may be absent.
    pub fn optional(self) -> (arg: Arg)
        ensures
            arg@ == (ArgView { optional: true, ..self@ }),
            well_formed(self@) ==> well_formed(arg@),
    {
        let arg = Arg { optional: true, ..self };
        proof {
            lemma_options_view(self);
            lemma_options_view(arg);
        }
        arg
    }

    /// The shape of this descriptor.
    pub fn shape(&self) -> (shape: Shape)
        ensures
            shape == shape_of(self@),
    {
        proof {
            lemma_options_view(*self);
        }
        if self.options.len() == 0 {
            Shape::Primitive
        } else if self.variant {
            Shape::Variant
        } else {
            Shape::Composite
        }
    }
}

/// The values of a run of descriptors, in order.
pub open spec fn arg_views(args: Seq<Arg>) -> Seq<ArgView> {
    Seq::new(args.len(), |i: int| args[i]@)
}

/// The sub-arguments of a descriptor's value are the values of its sub-arguments.
pub proof fn lemma_options_view(arg: Arg)
    ensures
        arg@.options == arg_views(arg.options@),
        arg@.name == arg.name@,
        arg@.type_input == arg.type_input@,
        arg@.optional == arg.optional,
        arg@.variant == arg.variant,
{
    assert(arg@.options =~= arg_views(arg.options@));
}

/// A callable operation of a pallet.
#[derive(Debug)]
pub struct Extrinsic {
    pub name: String,
    pub docs: String,
    /// The arguments, in the order the wire encoding demands.
    pub fields: Vec<Arg>,
}

/// The mathematical value of an [`Extrinsic`].
pub struct ExtrinsicView {
    pub name: Seq<char>,
    pub docs: Seq<char>,
    pub fields: Seq<ArgView>,
}

impl View for Extrinsic {
    type V = ExtrinsicView;

    open spec fn view(&self) -> ExtrinsicView {
        ExtrinsicView { name: self.name@, docs: self.docs@, fields: arg_views(self.fields@) }
    }
}

/// The values of a run of extrinsics, in order.
pub open spec fn extrinsic_views(extrinsics: Seq<Extrinsic>) -> Seq<ExtrinsicView> {
    Seq::new(extrinsics.len(), |i: int| extrinsics[i]@)
}

/// A named group of operations of the chain's runtime.
#[derive(Debug)]
pub struct Pallet {
    pub name: String,
    pub docs: String,
    pub extrinsics: Vec<Extrinsic>,
}

/// The mathematical value of a [`Pallet`].
pub struct PalletView {
    pub name: Seq<char>,
    pub docs: Seq<char>,
    pub extrinsics: Seq<ExtrinsicView>,
}

impl View for Pallet {
    type V = PalletView;

    open spec fn view(&self) -> PalletView {
        PalletView {
            name: self.name@,
            docs: self.docs@,
            extrinsics: extrinsic_views(self.extrinsics@),
        }
    }
}

/// The values of a run of pallets, in order.
pub open spec fn pallet_views(pallets: Seq<Pallet>) -> Seq<PalletView> {
    Seq::new(pallets.len(), |i: int| pallets[i]@)
}

/// Whether `i` is the first place in `names` that holds `name`.
pub open spec fn is_first(names: Seq<Seq<char>>, name: Seq<char>, i: int) -> bool {
    &&& 0 <= i < names.len()
    &&& names[i] == name
    &&& forall|j: int| 0 <= j < i ==> names[j] != name
}

/// The first place in `names` that holds `name`, compared letter for letter.
pub open spec fn first_named(names: Seq<Seq<char>>, name: Seq<char>) -> Option<nat> {
    if exists|i: int| is_first(names, name, i) {
        Some((choose|i: int| is_first(names, name, i)) as nat)
    } else {
        None
    }
}

/// The names of a run of pallets, in order.
pub open spec fn pallet_names(pallets: Seq<PalletView>) -> Seq<Seq<char>> {
    Seq::new(pallets.len(), |i: int| pallets[i].name)
}

/// The names of a run of extrinsics, in order.
pub open spec fn extrinsic_names(extrinsics: Seq<ExtrinsicView>) -> Seq<Seq<char>> {
    Seq::new(extrinsics.len(), |i: int| extrinsics[i].name)
}

/// There is at most one first place, and none where the name does not occur.
pub proof fn lemma_first_named(names: Seq<Seq<char>>, name: Seq<char>)
    ensures
        match first_named(names, name) {
            Some(i) => is_first(names, name, i as int),
            None => forall|j: int| 0 <= j < names.len() ==> names[j] != name,
        },
        forall|i: int| is_first(names, name, i) ==> first_named(names, name) == Some(i as nat),
{
    if exists|i: int| is_first(names, name, i) {
        let c = choose|i: int| is_first(names, name, i);
        assert forall|i: int| is_first(names, name, i) implies i == c by {
            if i < c {
                assert(names[i] == name);
            } else if c < i {
                assert(names[c] == name);
            }
        }
    } else {
        assert forall|j: int| 0 <= j < names.len() implies names[j] != name by {
            if names[j] == name {
                lemma_some_first(names, name, j);
            }
        }
    }
}

proof fn lemma_some_first(names: Seq<Seq<char>>, name: Seq<char>, j: int)
    requires
        0 <= j < names.len(),
        names[j] == name,
    ensures
        exists|i: int| is_first(names, name, i),
    decreases j,
{
    if forall|k: int| 0 <= k < j ==> names[k] != name {
        assert(is_first(names, name, j));
    } else {
        let k = choose|k: int| 0 <= k < j && names[k] == name;
        lemma_some_first(names, name, k);
    }
}

/// Finds the pallet called `name`, letter for letter; the first, should several bear
/// the name.
pub fn find_pallet_by_name(pallets: &Vec<Pallet>, name: &str) -> (found: Result<usize, Error>)
    ensures
        match found {
            Ok(i) => first_named(pallet_names(pallet_views(pallets@)), name@) == Some(i as nat),
            Err(e) => first_named(pallet_names(pallet_views(pallets@)), name@) is None && e@
                == ErrorView::UnknownPallet(name@),
        },
{
    let wanted = String::from_str(name);
    let ghost names = pallet_names(pallet_views(pallets@));
    let mut i: usize = 0;
    while i < pallets.len()
        invariant
            i <= pallets.len(),
            wanted@ == name@,
            names == pallet_names(pallet_views(pallets@)),
            forall|j: int| 0 <= j < i ==> names[j] != name@,
        decreases pallets.len() - i,
    {
        if pallets[i].name == wanted {
            proof {
                assert(is_first(names, name@, i as int));
                lemma_first_named(names, name@);
            }
            return Ok(i);
        }
        i = i + 1;
    }
    proof {
        lemma_first_named(names, name@);
    }
    Err(Error::UnknownPallet(wanted))
}

/// Finds the extrinsic of `pallet` called `name`, letter for letter; the first, should
/// several bear the name.
pub fn find_extrinsic_by_name(pallet: &Pallet, name: &str) -> (found: Result<usize, Error>)
    ensures
        match found {
            Ok(i) => first_named(extrinsic_names(pallet@.extrinsics), name@) == Some(i as nat),
            Err(e) => first_named(extrinsic_names(pallet@.extrinsics), name@) is None && e@
                == (ErrorView::UnknownExtrinsic { pallet: pallet@.name, extrinsic: name@ }),
        },
{
    let wanted = String::from_str(name);
    let ghost names = extrinsic_names(pallet@.extrinsics);
    let mut i: usize = 0;
    while i < pallet.extrinsics.len()
        invariant
            i <= pallet.extrinsics.len(),
            wanted@ == name@,
            names == extrinsic_names(pallet@.extrinsics),
            forall|j: int| 0 <= j < i ==> names[j] != name@,
        decreases pallet.extrinsics.len() - i,
    {
        if pallet.extrinsics[i].name == wanted {
            proof {
                assert(is_first(names, name@, i as int));
                lemma_first_named(names, name@);
            }
            return Ok(i);
        }
        i = i + 1;
    }
    proof {
        lemma_first_named(names, name@);
    }
    Err(Error::UnknownExtrinsic { pallet: pallet.name.clone(), extrinsic: wanted })
}

} // verus!
