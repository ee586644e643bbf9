//! The call selector: which pallet and which extrinsic, from a name or by asking.

use vstd::prelude::*;
use vstd::string::*;
use crate::cli::{
    choices, extends, lemma_since_nothing, lemma_since_push, replies, requests, since, Choice, Cli, Recorded,
    Reply, Request,
};
use crate::error::{Error, ErrorView};
use crate::registry::{
    extrinsic_names, find_extrinsic_by_name, find_pallet_by_name, first_named, pallet_names,
    pallet_views, Pallet, PalletView,
};

verus! {

/// What selecting comes to: the place of the one selected, or why there is none, and
/// the requests made.
pub struct Selection {
    pub chosen: Result<nat, ErrorView>,
    pub asked: Seq<Request>,
}

/// The pallets as items of a selection: name and documentation.
pub open spec fn pallet_items(pallets: Seq<PalletView>) -> Seq<(Seq<char>, Seq<char>)> {
    Seq::new(pallets.len(), |i: int| (pallets[i].name, pallets[i].docs))
}

/// The extrinsics of a pallet as items of a selection: name and documentation.
pub open spec fn extrinsic_items(pallet: PalletView) -> Seq<(Seq<char>, Seq<char>)> {
    Seq::new(
        pallet.extrinsics.len(),
        |i: int| (pallet.extrinsics[i].name, pallet.extrinsics[i].docs),
    )
}

/// The answer to a selection over `count` items: the place picked, or a cancellation.
pub open spec fn picked_among(count: nat, reply: Reply) -> Result<nat, ErrorView> {
    match reply {
        Reply::Index(Some(i)) if i < count => Ok(i),
        _ => Err(ErrorView::Canceled),
    }
}

/// A pallet that is named is looked up and never asked for; one that is not named is
/// asked for once.
pub open spec fn pallet_selection(
    pallets: Seq<PalletView>,
    named: Option<Seq<char>>,
    r: Seq<Reply>,
) -> Selection {
    match named {
        Some(name) => Selection {
            chosen: match first_named(pallet_names(pallets), name) {
                Some(i) => Ok(i),
                None => Err(ErrorView::UnknownPallet(name)),
            },
            asked: Seq::empty(),
        },
        None => Selection {
            chosen: picked_among(pallets.len(), r[0]),
            asked: seq![
                Request::Select {
                    label: "Select the pallet to call:"@,
                    items: pallet_items(pallets),
                },
            ],
        },
    }
}

/// An extrinsic that is named is looked up in the pallet and never asked for; one that
/// is not named is asked for once.
pub open spec fn extrinsic_selection(
    pallet: PalletView,
    named: Option<Seq<char>>,
    r: Seq<Reply>,
) -> Selection {
    match named {
        Some(name) => Selection {
            chosen: match first_named(extrinsic_names(pallet.extrinsics), name) {
                Some(i) => Ok(i),
                None => Err(ErrorView::UnknownExtrinsic { pallet: pallet.name, extrinsic: name }),
            },
            asked: Seq::empty(),
        },
        None => Selection {
            chosen: picked_among(pallet.extrinsics.len(), r[0]),
            asked: seq![
                Request::Select {
                    label: "Select the extrinsic to call:"@,
                    items: extrinsic_items(pallet),
                },
            ],
        },
    }
}

/// `out` carries what `chosen` says.
pub open spec fn selects(out: Result<usize, Error>, chosen: Result<nat, ErrorView>) -> bool {
    match out {
        Ok(i) => chosen == Ok::<nat, ErrorView>(i as nat),
        Err(e) => chosen == Err::<nat, ErrorView>(e@),
    }
}

/// Resolves the pallet: by `named` where it is given, else by asking the operator.
pub fn select_pallet<C: Cli>(pallets: &Vec<Pallet>, named: &Option<String>, cli: &mut Recorded<C>) -> (out:
    Result<usize, Error>)
    ensures
        extends(old(cli).transcript(), final(cli).transcript()),
        pallet_selection(
            pallet_views(pallets@),
            crate::call::name_of(*named),
            replies(since(old(cli).transcript(), final(cli).transcript())),
        ).asked == requests(since(old(cli).transcript(), final(cli).transcript())),
        selects(
            out,
            pallet_selection(
                pallet_views(pallets@),
                crate::call::name_of(*named),
                replies(since(old(cli).transcript(), final(cli).transcript())),
            ).chosen,
        ),
        out is Ok ==> out->Ok_0 < pallets@.len(),
{
    let ghost t0 = cli.transcript();
    match named {
        Some(name) => {
            proof {
                lemma_since_nothing(t0);
                crate::registry::lemma_first_named(
                    pallet_names(pallet_views(pallets@)),
                    name@,
                );
            }
            find_pallet_by_name(pallets, name.as_str())
        },
        None => {
            let mut items: Vec<Choice> = Vec::new();
            let mut i: usize = 0;
            while i < pallets.len()
                invariant
                    i <= pallets.len(),
                    items@.len() == i,
                    forall|j: int|
                        0 <= j < i ==> items@[j].label@ == pallets@[j].name@ && items@[j].hint@
                            == pallets@[j].docs@,
                decreases pallets.len() - i,
            {
                items.push(
                    Choice { label: pallets[i].name.clone(), hint: pallets[i].docs.clone() },
                );
                i = i + 1;
            }
            let pick = cli.select("Select the pallet to call:", &items);
            proof {
                lemma_since_push(t0, cli.transcript().last());
                assert(choices(items@) =~= pallet_items(pallet_views(pallets@)));
            }
            match pick {
                Ok(index) => if index < pallets.len() {
                    Ok(index)
                } else {
                    Err(Error::Canceled)
                },
                Err(_) => Err(Error::Canceled),
            }
        },
    }
}

/// Resolves the extrinsic of `pallet`: by `named` where it is given, else by asking
/// the operator.
pub fn select_extrinsic<C: Cli>(pallet: &Pallet, named: &Option<String>, cli: &mut Recorded<C>) -> (out:
    Result<usize, Error>)
    ensures
        extends(old(cli).transcript(), final(cli).transcript()),
        extrinsic_selection(
            pallet@,
            crate::call::name_of(*named),
            replies(since(old(cli).transcript(), final(cli).transcript())),
        ).asked == requests(since(old(cli).transcript(), final(cli).transcript())),
        selects(
            out,
            extrinsic_selection(
                pallet@,
                crate::call::name_of(*named),
                replies(since(old(cli).transcript(), final(cli).transcript())),
            ).chosen,
        ),
        out is Ok ==> out->Ok_0 < pallet.extrinsics@.len(),
{
    let ghost t0 = cli.transcript();
    match named {
        Some(name) => {
            proof {
                lemma_since_nothing(t0);
                crate::registry::lemma_first_named(extrinsic_names(pallet@.extrinsics), name@);
            }
            find_extrinsic_by_name(pallet, name.as_str())
        },
        None => {
            let mut items: Vec<Choice> = Vec::new();
            let mut i: usize = 0;
            while i < pallet.extrinsics.len()
                invariant
                    i <= pallet.extrinsics.len(),
                    items@.len() == i,
                    forall|j: int|
                        0 <= j < i ==> items@[j].label@ == pallet.extrinsics@[j].name@
                            && items@[j].hint@ == pallet.extrinsics@[j].docs@,
                decreases pallet.extrinsics.len() - i,
            {
                items.push(
                    Choice {
                        label: pallet.extrinsics[i].name.clone(),
                        hint: pallet.extrinsics[i].docs.clone(),
                    },
                );
                i = i + 1;
            }
            let pick = cli.select("Select the extrinsic to call:", &items);
            proof {
                lemma_since_push(t0, cli.transcript().last());
                assert(choices(items@) =~= extrinsic_items(pallet@));
            }
            match pick {
                Ok(index) => if index < pallet.extrinsics.len() {
                    Ok(index)
                } else {
                    Err(Error::Canceled)
                },
                Err(_) => Err(Error::Canceled),
            }
        },
    }
}

} // verus!
