//! The call builder: from names and resolved arguments to a call that can be shown,
//! encoded and submitted.

use vstd::prelude::*;
use vstd::string::*;
use crate::decimal::{all_digits, decimal_value, fits_unsigned};
use crate::error::{Error, ErrorView};
use crate::registry::{
    arg_views, extrinsic_names, find_extrinsic_by_name, find_pallet_by_name, first_named,
    lemma_options_view, pallet_names, pallet_views, Arg, ArgView, Pallet, PalletView,
};
use crate::text::{join, joined, texts};

verus! {

/// A call that is fully named and valued, and not yet submitted.
#[derive(Debug)]
pub struct DynamicPayload {
    pub pallet: String,
    pub extrinsic: String,
    /// One representation for each argument the extrinsic declares, in its order.
    pub args: Vec<String>,
}

/// The mathematical value of a [`DynamicPayload`].
pub struct PayloadView {
    pub pallet: Seq<char>,
    pub extrinsic: Seq<char>,
    pub args: Seq<Seq<char>>,
}

impl View for DynamicPayload {
    type V = PayloadView;

    open spec fn view(&self) -> PayloadView {
        PayloadView { pallet: self.pallet@, extrinsic: self.extrinsic@, args: texts(self.args@) }
    }
}

/// The greatest number of the unsigned integer type that `label` names, if it names one.
pub open spec fn unsigned_limit(label: Seq<char>) -> Option<nat> {
    if label == "u8"@ {
        Some(0xff)
    } else if label == "u16"@ {
        Some(0xffff)
    } else if label == "u32"@ {
        Some(0xffff_ffff)
    } else if label == "u64"@ {
        Some(0xffff_ffff_ffff_ffff)
    } else if label == "u128"@ {
        Some(0xffff_ffff_ffff_ffff_ffff_ffff_ffff_ffff)
    } else {
        None
    }
}

/// Whether `text` can take the shape that `arg` demands. Only a required primitive of
/// an unsigned integer type demands one: a decimal number within the type's range.
pub open spec fn fits(arg: ArgView, text: Seq<char>) -> bool {
    if arg.optional || arg.options.len() > 0 {
        true
    } else {
        match unsigned_limit(arg.type_input) {
            Some(max) => all_digits(text) && decimal_value(text) <= max,
            None => true,
        }
    }
}

/// The first place among the first `n` arguments whose text does not fit.
pub open spec fn first_misfit(fields: Seq<ArgView>, args: Seq<Seq<char>>, n: nat) -> Option<nat>
    decreases n,
{
    if n == 0 {
        None
    } else {
        match first_misfit(fields, args, (n - 1) as nat) {
            Some(i) => Some(i),
            None => if fits(fields[n - 1], args[n - 1]) {
                None
            } else {
                Some((n - 1) as nat)
            },
        }
    }
}

/// What building a call comes to.
pub open spec fn constructed(
    pallets: Seq<PalletView>,
    pallet: Seq<char>,
    extrinsic: Seq<char>,
    args: Seq<Seq<char>>,
) -> Result<PayloadView, ErrorView> {
    match first_named(pallet_names(pallets), pallet) {
        None => Err(ErrorView::UnknownPallet(pallet)),
        Some(p) => match first_named(extrinsic_names(pallets[p as int].extrinsics), extrinsic) {
            None => Err(ErrorView::UnknownExtrinsic { pallet, extrinsic }),
            Some(e) => {
                let fields = pallets[p as int].extrinsics[e as int].fields;
                if args.len() != fields.len() {
                    Err(
                        ErrorView::ArgumentCountMismatch {
                            pallet,
                            extrinsic,
                            expected: fields.len(),
                            supplied: args.len(),
                        },
                    )
                } else {
                    match first_misfit(fields, args, fields.len()) {
                        Some(index) => Err(ErrorView::Encoding { pallet, extrinsic, index }),
                        None => Ok(PayloadView { pallet, extrinsic, args }),
                    }
                }
            },
        },
    }
}

/// The canonical text of a call: `Pallet.extrinsic(arg1, arg2, ...)`.
pub open spec fn call_text(call: PayloadView) -> Seq<char> {
    call.pallet + "."@ + call.extrinsic + "("@ + joined(call.args, ", "@) + ")"@
}

proof fn lemma_misfit_stays(fields: Seq<ArgView>, args: Seq<Seq<char>>, k: nat, n: nat)
    requires
        k <= n,
        first_misfit(fields, args, k) is Some,
    ensures
        first_misfit(fields, args, n) == first_misfit(fields, args, k),
    decreases n,
{
    if n > k {
        lemma_misfit_stays(fields, args, k, (n - 1) as nat);
    }
}

fn limit_of(label: &String) -> (limit: Option<u128>)
    ensures
        match limit {
            Some(max) => unsigned_limit(label@) == Some(max as nat),
            None => unsigned_limit(label@) is None,
        },
{
    if *label == String::from_str("u8") {
        Some(0xff)
    } else if *label == String::from_str("u16") {
        Some(0xffff)
    } else if *label == String::from_str("u32") {
        Some(0xffff_ffff)
    } else if *label == String::from_str("u64") {
        Some(0xffff_ffff_ffff_ffff)
    } else if *label == String::from_str("u128") {
        Some(0xffff_ffff_ffff_ffff_ffff_ffff_ffff_ffff)
    } else {
        None
    }
}

/// Whether `text` can take the shape that `arg` demands.
pub fn argument_fits(arg: &Arg, text: &str) -> (ok: bool)
    ensures
        ok == fits(arg@, text@),
{
    proof {
        lemma_options_view(*arg);
    }
    if arg.optional || arg.options.len() > 0 {
        true
    } else {
        match limit_of(&arg.type_input) {
            Some(max) => fits_unsigned(text, max),
            None => true,
        }
    }
}

/// Builds the call `pallet.extrinsic(args)` against the registry.
///
/// Fails where the pallet or the extrinsic is unknown, where the number of arguments
/// is not the one the extrinsic declares, and where an argument cannot take the shape
/// its descriptor demands; the error names the first such argument.
#[verifier::loop_isolation(false)]
pub fn construct_extrinsic(
    pallets: &Vec<Pallet>,
    pallet: &str,
    extrinsic: &str,
    args: Vec<String>,
) -> (built: Result<DynamicPayload, Error>)
    ensures
        match built {
            Ok(call) => constructed(pallet_views(pallets@), pallet@, extrinsic@, texts(args@))
                == Ok::<PayloadView, ErrorView>(call@),
            Err(e) => constructed(pallet_views(pallets@), pallet@, extrinsic@, texts(args@))
                == Err::<PayloadView, ErrorView>(e@),
        },
{
    let p = match find_pallet_by_name(pallets, pallet) {
        Ok(p) => p,
        Err(e) => {
            return Err(e);
        },
    };
    proof {
        crate::registry::lemma_first_named(pallet_names(pallet_views(pallets@)), pallet@);
        assert(pallet_views(pallets@)[p as int] == pallets@[p as int]@);
    }
    let e = match find_extrinsic_by_name(&pallets[p], extrinsic) {
        Ok(e) => e,
        Err(_) => {
            return Err(
                Error::UnknownExtrinsic {
                    pallet: String::from_str(pallet),
                    extrinsic: String::from_str(extrinsic),
                },
            );
        },
    };
    let fields = &pallets[p].extrinsics[e].fields;
    let ghost views = arg_views(fields@);
    proof {
        assert(pallets@[p as int]@.extrinsics[e as int] == pallets@[p as int].extrinsics@[e as int]@);
        assert(views == pallet_views(pallets@)[p as int].extrinsics[e as int].fields);
    }
    if args.len() != fields.len() {
        return Err(
            Error::ArgumentCountMismatch {
                pallet: String::from_str(pallet),
                extrinsic: String::from_str(extrinsic),
                expected: fields.len(),
                supplied: args.len(),
            },
        );
    }
    let mut i: usize = 0;
    while i < fields.len()
        invariant
            i <= fields.len(),
            args@.len() == fields@.len(),
            views == arg_views(fields@),
            first_misfit(views, texts(args@), i as nat) is None,
        decreases fields.len() - i,
    {
        proof {
            assert(views[i as int] == fields@[i as int]@);
            assert(texts(args@)[i as int] == args@[i as int]@);
        }
        if !argument_fits(&fields[i], args[i].as_str()) {
            proof {
                lemma_misfit_stays(views, texts(args@), (i + 1) as nat, fields@.len());
            }
            return Err(
                Error::Encoding {
                    pallet: String::from_str(pallet),
                    extrinsic: String::from_str(extrinsic),
                    index: i,
                },
            );
        }
        i = i + 1;
    }
    Ok(
        DynamicPayload {
            pallet: String::from_str(pallet),
            extrinsic: String::from_str(extrinsic),
            args,
        },
    )
}

/// The canonical text of `call`.
pub fn render_call(call: &DynamicPayload) -> (text: String)
    ensures
        text@ == call_text(call@),
{
    let inner = join(&call.args, ", ");
    call.pallet.clone().concat(".").concat(call.extrinsic.as_str()).concat("(").concat(
        inner.as_str(),
    ).concat(")")
}

/// The wire form of `call`: the bytes of its canonical text. The same call always gives
/// the same bytes.
pub fn encode_call_data(call: &DynamicPayload) -> (bytes: Vec<u8>)
    ensures
        bytes@ == vstd::utf8::encode_utf8(call_text(call@)),
{
    let text = render_call(call);
    text.as_str().as_bytes_vec()
}

} // verus!
