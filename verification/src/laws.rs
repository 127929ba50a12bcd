use vstd::prelude::*;

use crate::convert::{
    all_rendered, spec_deck_cards, spec_err_msgs, spec_finish, spec_first_content,
    spec_media_list, spec_oks, spec_pkg_decks, spec_pkg_media, spec_plan, PlanV, RenderOutcomeV,
};
use crate::errors::ErrV;
use crate::ident::spec_id_from_uuid;
use crate::index::spec_read_metadata;
use crate::model::{
    spec_back_field, spec_card_for_page, spec_front_field, spec_media_filename, CardV,
    ConvertedDeckV, MediaV, PackageV,
};
use crate::text::spec_uuid_of_content_name;

verus! {

/// Law: a successfully converted notebook's deck holds exactly one card per
/// listed page, in the order of the page-index list, and one media entry per
/// page, named `<page-id>.svg` and holding that page's rendered bytes.
pub proof fn law_one_card_per_page(pv: PlanV, rs: Seq<RenderOutcomeV>, cv: ConvertedDeckV)
    requires
        spec_finish(pv, rs) == Result::<ConvertedDeckV, ErrV>::Ok(cv),
    ensures
        cv.deck.cards.len() == pv.pages.len(),
        forall|i: int|
            0 <= i < pv.pages.len() ==> cv.deck.cards[i] == spec_card_for_page(pv.pages[i]),
        cv.media.len() == pv.pages.len(),
        forall|i: int|
            0 <= i < pv.pages.len() ==> cv.media[i].name == spec_media_filename(pv.pages[i]),
{
    assert(all_rendered(rs));
    assert(cv.deck.cards == spec_deck_cards(pv.pages));
    assert(cv.media == spec_media_list(pv.pages, rs));
}

/// Law: the deck identifier of a planned notebook is a pure function of the
/// notebook UUID alone — neither the naming flag, the source file name, nor
/// anything else in the archive moves it. In particular, planning the same
/// archive twice yields the same identifier.
pub proof fn law_deck_id_from_uuid(
    b: Seq<u8>,
    stem1: Option<Seq<char>>,
    nff1: bool,
    stem2: Option<Seq<char>>,
    nff2: bool,
    p1: PlanV,
    p2: PlanV,
)
    requires
        spec_plan(b, stem1, nff1) == Result::<PlanV, ErrV>::Ok(p1),
        spec_plan(b, stem2, nff2) == Result::<PlanV, ErrV>::Ok(p2),
    ensures
        p1.uuid == p2.uuid,
        Option::Some(p1.deck_id) == spec_id_from_uuid(p1.uuid),
        p1.deck_id == p2.deck_id,
{
}

/// Law: with `name_from_filename` set, the deck name is the source file's
/// base name, whatever the archive's metadata holds.
pub proof fn law_name_from_filename(b: Seq<u8>, stem: Seq<char>, pv: PlanV)
    requires
        spec_plan(b, Option::Some(stem), true) == Result::<PlanV, ErrV>::Ok(pv),
    ensures
        pv.deck_name == stem,
{
}

/// Law: with `name_from_filename` unset, the deck name is the display name
/// read from the notebook's metadata entry, whatever the source file is
/// called.
pub proof fn law_name_from_metadata(b: Seq<u8>, stem: Option<Seq<char>>, pv: PlanV)
    requires
        spec_plan(b, stem, false) == Result::<PlanV, ErrV>::Ok(pv),
    ensures
        (match crate::archive::zip_model_of(b) {
            Option::Some(m) => {
                &&& spec_first_content(m.names) matches Some(cname)
                &&& spec_read_metadata(m, spec_uuid_of_content_name(cname)) == Result::<
                    Seq<char>,
                    ErrV,
                >::Ok(pv.deck_name)
            },
            Option::None => false,
        }),
{
}

/// Whether a card's fields are exactly the two viewports onto the media file
/// of the given name.
pub open spec fn card_references(c: CardV, name: Seq<char>) -> bool {
    &&& c.front == spec_front_field(name)
    &&& c.back == spec_back_field(name)
}

/// A card's fields pin the media filename down: two cards with the same
/// fields reference the same name.
pub proof fn lemma_front_field_injective(n1: Seq<char>, n2: Seq<char>)
    requires
        spec_front_field(n1) == spec_front_field(n2),
    ensures
        n1 == n2,
{
    let p = "<div class=\"container\"><img class=\"front\" src=\""@;
    let s = "\"></div>"@;
    assert(spec_front_field(n1).len() == p.len() + n1.len() + s.len());
    assert(spec_front_field(n2).len() == p.len() + n2.len() + s.len());
    assert(n1.len() == n2.len());
    assert forall|i: int| 0 <= i < n1.len() implies n1[i] == n2[i] by {
        assert(spec_front_field(n1)[p.len() + i] == n1[i]);
        assert(spec_front_field(n2)[p.len() + i] == n2[i]);
    }
    assert(n1 =~= n2);
}

/// A converted deck is aligned: its `i`-th card references exactly its `i`-th
/// media entry's name.
pub open spec fn deck_media_aligned(cd: ConvertedDeckV) -> bool {
    &&& cd.deck.cards.len() == cd.media.len()
    &&& forall|i: int|
        0 <= i < cd.media.len() ==> card_references(cd.deck.cards[i], cd.media[i].name)
}

/// Law: every successfully converted notebook is aligned.
pub proof fn law_finished_deck_aligned(pv: PlanV, rs: Seq<RenderOutcomeV>, cv: ConvertedDeckV)
    requires
        spec_finish(pv, rs) == Result::<ConvertedDeckV, ErrV>::Ok(cv),
    ensures
        deck_media_aligned(cv),
{
    law_one_card_per_page(pv, rs, cv);
    assert(cv.deck.cards == spec_deck_cards(pv.pages));
    assert(cv.media == spec_media_list(pv.pages, rs));
    assert forall|i: int| 0 <= i < cv.media.len() implies card_references(
        cv.deck.cards[i],
        cv.media[i].name,
    ) by {
        assert(cv.deck.cards[i] == spec_card_for_page(pv.pages[i]));
        assert(cv.media[i].name == spec_media_filename(pv.pages[i]));
    }
}

/// Whether some card of the package references the `k`-th media entry's
/// name.
pub open spec fn media_is_referenced(pkg: PackageV, k: int) -> bool {
    exists|d: int, c: int|
        0 <= d < pkg.decks.len() && 0 <= c < pkg.decks[d].cards.len() && card_references(
            pkg.decks[d].cards[c],
            pkg.media[k].name,
        )
}

/// Whether media names are pairwise distinct.
pub open spec fn distinct_media_names(ms: Seq<MediaV>) -> bool {
    forall|i: int, j: int| 0 <= i < j < ms.len() ==> ms[i].name != ms[j].name
}

/// Each converted deck's media stands in the aggregated package's media.
pub proof fn lemma_pkg_media_contains(cds: Seq<ConvertedDeckV>, i: int, j: int)
    requires
        0 <= i < cds.len(),
        0 <= j < cds[i].media.len(),
    ensures
        spec_pkg_media(cds).contains(cds[i].media[j]),
    decreases cds.len(),
{
    let whole = spec_pkg_media(cds);
    let init = spec_pkg_media(cds.drop_last());
    if i == cds.len() - 1 {
        assert(whole[init.len() + j] == cds[i].media[j]);
    } else {
        lemma_pkg_media_contains(cds.drop_last(), i, j);
        let k = choose|k: int| 0 <= k < init.len() && init[k] == cds[i].media[j];
        assert(whole[k] == cds[i].media[j]);
    }
}

/// Every media entry of the aggregated package comes from some converted
/// deck.
pub proof fn lemma_pkg_media_origin(cds: Seq<ConvertedDeckV>, k: int)
    requires
        0 <= k < spec_pkg_media(cds).len(),
    ensures
        exists|i: int, j: int|
            0 <= i < cds.len() && 0 <= j < cds[i].media.len() && cds[i].media[j]
                == spec_pkg_media(cds)[k],
    decreases cds.len(),
{
    let init = spec_pkg_media(cds.drop_last());
    if k < init.len() {
        lemma_pkg_media_origin(cds.drop_last(), k);
        let (i, j) = choose|i: int, j: int|
            0 <= i < cds.drop_last().len() && 0 <= j < cds.drop_last()[i].media.len()
                && cds.drop_last()[i].media[j] == init[k];
        assert(0 <= i < cds.len() && 0 <= j < cds[i].media.len() && cds[i].media[j]
            == spec_pkg_media(cds)[k]);
    } else {
        let i = cds.len() - 1;
        let j = k - init.len();
        assert(0 <= i < cds.len() && 0 <= j < cds[i].media.len() && cds[i].media[j]
            == spec_pkg_media(cds)[k]);
    }
}

/// Law: in a package aggregated from aligned converted decks whose media
/// names are pairwise distinct, every media filename referenced in any card
/// field corresponds to exactly one embedded media entry with that exact
/// name, and every embedded media entry is referenced by some card — no
/// dangling references, no orphaned media.
pub proof fn law_package_media_consistent(cds: Seq<ConvertedDeckV>, pkg: PackageV)
    requires
        pkg.decks == spec_pkg_decks(cds),
        pkg.media == spec_pkg_media(cds),
        forall|i: int| 0 <= i < cds.len() ==> deck_media_aligned(#[trigger] cds[i]),
        distinct_media_names(pkg.media),
    ensures
        forall|d: int, c: int, n: Seq<char>|
            0 <= d < pkg.decks.len() && 0 <= c < pkg.decks[d].cards.len()
                && #[trigger] card_references(pkg.decks[d].cards[c], n) ==> exists|k: int|
                0 <= k < pkg.media.len() && (#[trigger] pkg.media[k]).name == n,
        forall|k1: int, k2: int|
            0 <= k1 < pkg.media.len() && 0 <= k2 < pkg.media.len() && (#[trigger] pkg.media[k1]).name
                == (#[trigger] pkg.media[k2]).name ==> k1 == k2,
        forall|k: int| 0 <= k < pkg.media.len() ==> media_is_referenced(pkg, k),
{
    assert forall|d: int, c: int, n: Seq<char>|
        0 <= d < pkg.decks.len() && 0 <= c < pkg.decks[d].cards.len()
            && #[trigger] card_references(pkg.decks[d].cards[c], n) implies exists|k: int|
        0 <= k < pkg.media.len() && (#[trigger] pkg.media[k]).name == n by {
        assert(pkg.decks[d] == cds[d].deck);
        assert(deck_media_aligned(cds[d]));
        assert(card_references(cds[d].deck.cards[c], cds[d].media[c].name));
        lemma_front_field_injective(n, cds[d].media[c].name);
        lemma_pkg_media_contains(cds, d, c);
        let k = choose|k: int| 0 <= k < pkg.media.len() && pkg.media[k] == cds[d].media[c];
        assert(0 <= k < pkg.media.len() && pkg.media[k].name == n);
    }
    assert forall|k: int| 0 <= k < pkg.media.len() implies media_is_referenced(pkg, k) by {
        lemma_pkg_media_origin(cds, k);
        let (i, j) = choose|i: int, j: int|
            0 <= i < cds.len() && 0 <= j < cds[i].media.len() && cds[i].media[j] == pkg.media[k];
        assert(deck_media_aligned(cds[i]));
        assert(pkg.decks[i] == cds[i].deck);
        assert(0 <= i < pkg.decks.len() && 0 <= j < pkg.decks[i].cards.len() && card_references(
            pkg.decks[i].cards[j],
            pkg.media[k].name,
        ));
    }
}

/// Law: a failed notebook contributes no deck and exactly one reported
/// message, and removing it from the run leaves every sibling's deck exactly
/// as it was — partial-failure isolation at the notebook boundary.
pub proof fn law_partial_failure_isolation(rs: Seq<Result<ConvertedDeckV, ErrV>>, i: int)
    requires
        0 <= i < rs.len(),
        rs[i] is Err,
    ensures
        spec_oks(rs) == spec_oks(rs.remove(i)),
        spec_err_msgs(rs).len() == spec_err_msgs(rs.remove(i)).len() + 1,
    decreases rs.len(),
{
    if i == rs.len() - 1 {
        assert(rs.remove(i) =~= rs.drop_last());
    } else {
        let rl = rs.drop_last();
        assert(rl[i] == rs[i]);
        law_partial_failure_isolation(rl, i);
        assert(rs.remove(i).drop_last() =~= rl.remove(i));
        assert(rs.remove(i).last() == rs.last());
    }
}

} // verus!
