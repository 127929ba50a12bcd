use vstd::prelude::*;

use crate::archive::{archive_model, entry_names, open_archive, read_entry, zip_model_of};
use crate::errors::{ConvertError, ErrV};
use crate::ident::{id_from_uuid, spec_id_from_uuid};
use crate::index::{read_index, read_metadata, spec_read_index, spec_read_metadata};
use crate::model::{
    card_for_page, deck_description, media_filename, spec_card_for_page, spec_deck_description,
    spec_media_filename, Card, CardV, ConvertedDeck, ConvertedDeckV, Deck, DeckV, MediaEntry,
    MediaV, Package,
};
use crate::text::{concat4, has_content_suffix, is_content_name, spec_uuid_of_content_name,
    strip_content_suffix};

verus! {

/// The view of an optional borrowed string.
pub open spec fn opt_str_view(s: Option<&String>) -> Option<Seq<char>> {
    match s {
        Option::Some(x) => Option::Some(x@),
        Option::None => Option::None,
    }
}

/// The first entry name carrying the manifest suffix, in archive order.
pub open spec fn spec_first_content(names: Seq<Seq<char>>) -> Option<Seq<char>>
    decreases names.len(),
{
    if names.len() == 0 {
        Option::None
    } else if is_content_name(names[0]) {
        Option::Some(names[0])
    } else {
        spec_first_content(names.drop_first())
    }
}

/// The archive path of one page's stroke data: `<uuid>/<page-id>.rm`.
pub open spec fn spec_page_path(uuid: Seq<char>, page: Seq<char>) -> Seq<char> {
    uuid + "/"@ + page + ".rm"@
}

/// Whether every listed page has a data entry in the archive.
pub open spec fn all_pages_present(
    entries: Map<Seq<char>, Seq<u8>>,
    uuid: Seq<char>,
    pages: Seq<Seq<char>>,
) -> bool {
    forall|i: int|
        0 <= i < pages.len() ==> entries.dom().contains(spec_page_path(uuid, pages[i]))
}

/// The raw stroke data of each listed page, in page order.
pub open spec fn spec_pages_data(
    entries: Map<Seq<char>, Seq<u8>>,
    uuid: Seq<char>,
    pages: Seq<Seq<char>>,
) -> Seq<Seq<u8>> {
    pages.map(|i: int, p: Seq<char>| entries[spec_page_path(uuid, p)])
}

/// Whether `i` is the first listed page without a data entry.
pub open spec fn is_first_missing(
    entries: Map<Seq<char>, Seq<u8>>,
    uuid: Seq<char>,
    pages: Seq<Seq<char>>,
    i: int,
) -> bool {
    &&& 0 <= i < pages.len()
    &&& !entries.dom().contains(spec_page_path(uuid, pages[i]))
    &&& forall|j: int| 0 <= j < i ==> entries.dom().contains(spec_page_path(uuid, pages[j]))
}

/// The index of the first listed page without a data entry.
pub open spec fn first_missing_index(
    entries: Map<Seq<char>, Seq<u8>>,
    uuid: Seq<char>,
    pages: Seq<Seq<char>>,
) -> int {
    choose|i: int| is_first_missing(entries, uuid, pages, i)
}

/// At most one index is the first missing one.
pub proof fn lemma_first_missing_unique(
    entries: Map<Seq<char>, Seq<u8>>,
    uuid: Seq<char>,
    pages: Seq<Seq<char>>,
    i: int,
)
    requires
        is_first_missing(entries, uuid, pages, i),
    ensures
        first_missing_index(entries, uuid, pages) == i,
{
    let k = first_missing_index(entries, uuid, pages);
    assert(is_first_missing(entries, uuid, pages, k));
    if k < i {
        assert(entries.dom().contains(spec_page_path(uuid, pages[k])));
    }
    if i < k {
        assert(entries.dom().contains(spec_page_path(uuid, pages[i])));
    }
}

/// Mathematical view of a notebook plan.
pub struct PlanV {
    pub uuid: Seq<char>,
    pub deck_id: i64,
    pub deck_name: Seq<char>,
    pub pages: Seq<Seq<char>>,
    pub page_data: Seq<Seq<u8>>,
}

/// Everything the archive determines about one notebook's conversion: the
/// notebook identifier, the deck identifier and name, and each page's
/// identifier and raw stroke data, in page order. Rendering the pages is the
/// one step left for the caller.
#[derive(Debug)]
pub struct NotebookPlan {
    pub uuid: String,
    pub deck_id: i64,
    pub deck_name: String,
    pub pages: Vec<String>,
    pub page_data: Vec<Vec<u8>>,
}

impl View for NotebookPlan {
    type V = PlanV;

    open spec fn view(&self) -> PlanV {
        PlanV {
            uuid: self.uuid@,
            deck_id: self.deck_id,
            deck_name: self.deck_name@,
            pages: self.pages@.map_values(|p: String| p@),
            page_data: self.page_data@.map_values(|d: Vec<u8>| d@),
        }
    }
}

/// What planning a notebook's conversion yields for given archive bytes: the
/// plan, or the first failure that reading the archive runs into. The
/// manifest entry is the first entry named `<uuid>.content`; the deck name
/// comes from the metadata entry, or from the source file's base name when
/// `name_from_filename` is set; the deck identifier is derived from the
/// notebook UUID; and every listed page must have a data entry.
pub open spec fn spec_plan(
    b: Seq<u8>,
    stem: Option<Seq<char>>,
    name_from_filename: bool,
) -> Result<PlanV, ErrV> {
    match zip_model_of(b) {
        Option::None => Result::Err(ErrV::ArchiveOpen),
        Option::Some(m) => match spec_first_content(m.names) {
            Option::None => Result::Err(ErrV::MissingManifest(Option::None)),
            Option::Some(cname) => {
                let uuid = spec_uuid_of_content_name(cname);
                match spec_read_metadata(m, uuid) {
                    Result::Err(e) => Result::Err(e),
                    Result::Ok(meta_name) => match spec_read_index(m, uuid) {
                        Result::Err(e) => Result::Err(e),
                        Result::Ok(pages) => {
                            let deck_name = if name_from_filename {
                                stem.unwrap()
                            } else {
                                meta_name
                            };
                            match spec_id_from_uuid(uuid) {
                                Option::None => Result::Err(ErrV::MalformedIndex(uuid)),
                                Option::Some(id) => {
                                    if all_pages_present(m.entries, uuid, pages) {
                                        Result::Ok(
                                            PlanV {
                                                uuid,
                                                deck_id: id,
                                                deck_name,
                                                pages,
                                                page_data: spec_pages_data(
                                                    m.entries,
                                                    uuid,
                                                    pages,
                                                ),
                                            },
                                        )
                                    } else {
                                        Result::Err(
                                            ErrV::MissingPageData(
                                                pages[first_missing_index(
                                                    m.entries,
                                                    uuid,
                                                    pages,
                                                )],
                                            ),
                                        )
                                    }
                                },
                            }
                        },
                    },
                }
            },
        },
    }
}

/// Reads a notebook archive and plans its conversion: finds the manifest
/// entry, reads metadata and page index, resolves the deck name and
/// identifier, and extracts every page's raw stroke data.
#[verifier::loop_isolation(false)]
pub fn plan_notebook(
    zip_data: Vec<u8>,
    source_stem: Option<&String>,
    name_from_filename: bool,
) -> (r: Result<NotebookPlan, ConvertError>)
    requires
        name_from_filename ==> source_stem is Some,
    ensures
        (match spec_plan(zip_data@, opt_str_view(source_stem), name_from_filename) {
            Result::Ok(pv) => r matches Ok(p) && p@ == pv,
            Result::Err(e) => r matches Err(err) && err@ == e,
        }),
{
    let mut archive = match open_archive(zip_data) {
        Some(a) => a,
        None => {
            return Err(ConvertError::ArchiveOpenError);
        },
    };
    let ghost m = archive_model(&archive);
    let names = entry_names(&archive);
    let ghost names_v = names@.map_values(|s: String| s@);
    proof {
        assert(names_v.skip(0) =~= names_v);
    }

    let mut ci: usize = 0;
    let mut content_name: Option<&String> = None;
    while ci < names.len()
        invariant
            ci <= names.len(),
            content_name is None,
            spec_first_content(m.names) == spec_first_content(names_v.skip(ci as int)),
        decreases names.len() - ci,
    {
        if has_content_suffix(names[ci].as_str()) {
            proof {
                assert(names_v.skip(ci as int)[0] == names_v[ci as int]);
            }
            content_name = Some(&names[ci]);
            break;
        }
        proof {
            assert(names_v.skip(ci as int)[0] == names_v[ci as int]);
            assert(names_v.skip(ci as int).drop_first() =~= names_v.skip(ci as int + 1));
        }
        ci += 1;
    }
    let content_name = match content_name {
        Some(n) => n,
        None => {
            proof {
                assert(names_v.skip(names_v.len() as int) =~= Seq::<Seq<char>>::empty());
            }
            return Err(ConvertError::MissingManifest(None));
        },
    };
    let uuid = strip_content_suffix(content_name.as_str());

    let metadata = match read_metadata(&mut archive, uuid.as_str()) {
        Ok(md) => md,
        Err(e) => {
            return Err(e);
        },
    };
    let index = match read_index(&mut archive, uuid.as_str()) {
        Ok(ix) => ix,
        Err(e) => {
            return Err(e);
        },
    };
    let deck_name = if name_from_filename {
        match source_stem {
            Some(s) => s.clone(),
            None => vstd::pervasive::unreached(),
        }
    } else {
        metadata.visible_name
    };
    let deck_id = match id_from_uuid(uuid.as_str()) {
        Some(id) => id,
        None => {
            return Err(ConvertError::MalformedIndex(uuid));
        },
    };

    let ghost pages_v = index.pages@.map_values(|p: String| p@);
    let mut page_data: Vec<Vec<u8>> = Vec::new();
    let mut i: usize = 0;
    while i < index.pages.len()
        invariant
            i <= index.pages.len(),
            page_data@.len() == i,
            forall|j: int|
                0 <= j < i ==> m.entries.dom().contains(spec_page_path(uuid@, pages_v[j])),
            forall|j: int|
                0 <= j < i ==> page_data@[j]@ == m.entries[spec_page_path(uuid@, pages_v[j])],
            archive_model(&archive) == m,
        decreases index.pages.len() - i,
    {
        let page = &index.pages[i];
        let path = concat4(uuid.as_str(), "/", page.as_str(), ".rm");
        match read_entry(&mut archive, path.as_str()) {
            Some(d) => {
                page_data.push(d);
            },
            None => {
                proof {
                    assert(is_first_missing(m.entries, uuid@, pages_v, i as int));
                    lemma_first_missing_unique(m.entries, uuid@, pages_v, i as int);
                }
                return Err(ConvertError::MissingPageData(page.clone()));
            },
        }
        i += 1;
    }
    proof {
        assert(page_data@.map_values(|d: Vec<u8>| d@) =~= spec_pages_data(
            m.entries,
            uuid@,
            pages_v,
        ));
    }
    Ok(NotebookPlan { uuid, deck_id, deck_name, pages: index.pages, page_data })
}

/// Mathematical view of one page's rendering outcome.
pub enum RenderOutcomeV {
    Svg(Seq<u8>),
    ParseFailed,
    RenderFailed,
}

/// What rendering one page yielded: the vector image bytes, or the stage
/// that failed.
#[derive(Debug)]
pub enum RenderOutcome {
    Svg(Vec<u8>),
    ParseFailed,
    RenderFailed,
}

impl View for RenderOutcome {
    type V = RenderOutcomeV;

    open spec fn view(&self) -> RenderOutcomeV {
        match self {
            RenderOutcome::Svg(b) => RenderOutcomeV::Svg(b@),
            RenderOutcome::ParseFailed => RenderOutcomeV::ParseFailed,
            RenderOutcome::RenderFailed => RenderOutcomeV::RenderFailed,
        }
    }
}

/// Whether every page rendered successfully.
pub open spec fn all_rendered(rs: Seq<RenderOutcomeV>) -> bool {
    forall|i: int| 0 <= i < rs.len() ==> rs[i] is Svg
}

/// The bytes of a successful rendering outcome.
pub open spec fn svg_bytes(o: RenderOutcomeV) -> Seq<u8> {
    match o {
        RenderOutcomeV::Svg(b) => b,
        _ => Seq::empty(),
    }
}

/// The cards of a deck: one per page, in page order.
pub open spec fn spec_deck_cards(pages: Seq<Seq<char>>) -> Seq<CardV> {
    pages.map(|i: int, p: Seq<char>| spec_card_for_page(p))
}

/// The media of a deck: one entry per page, in page order, named
/// `<page-id>.svg` and holding that page's rendered bytes.
pub open spec fn spec_media_list(pages: Seq<Seq<char>>, rs: Seq<RenderOutcomeV>) -> Seq<MediaV> {
    pages.map(|i: int, p: Seq<char>| MediaV { name: spec_media_filename(p), data: svg_bytes(rs[i]) })
}

/// Whether `i` is the first page whose rendering failed.
pub open spec fn is_first_failed(rs: Seq<RenderOutcomeV>, i: int) -> bool {
    &&& 0 <= i < rs.len()
    &&& !(rs[i] is Svg)
    &&& forall|j: int| 0 <= j < i ==> rs[j] is Svg
}

/// The index of the first page whose rendering failed.
pub open spec fn first_failed_index(rs: Seq<RenderOutcomeV>) -> int {
    choose|i: int| is_first_failed(rs, i)
}

/// At most one index is the first failed one.
pub proof fn lemma_first_failed_unique(rs: Seq<RenderOutcomeV>, i: int)
    requires
        is_first_failed(rs, i),
    ensures
        first_failed_index(rs) == i,
{
    let k = first_failed_index(rs);
    assert(is_first_failed(rs, k));
    if k < i {
        assert(rs[k] is Svg);
    }
    if i < k {
        assert(rs[i] is Svg);
    }
}

/// What assembling a planned notebook with given rendering outcomes yields:
/// the converted deck, or the failure of the first page that did not render.
/// A deck is produced only when every page rendered — no partial decks.
pub open spec fn spec_finish(pv: PlanV, rs: Seq<RenderOutcomeV>) -> Result<ConvertedDeckV, ErrV> {
    if all_rendered(rs) {
        Result::Ok(
            ConvertedDeckV {
                deck: DeckV {
                    id: pv.deck_id,
                    name: pv.deck_name,
                    description: spec_deck_description(),
                    cards: spec_deck_cards(pv.pages),
                },
                media: spec_media_list(pv.pages, rs),
            },
        )
    } else {
        let i = first_failed_index(rs);
        if rs[i] is ParseFailed {
            Result::Err(ErrV::CorruptPageData(pv.pages[i]))
        } else {
            Result::Err(ErrV::RenderFailure(pv.pages[i]))
        }
    }
}

/// Assembles a planned notebook and its rendering outcomes into a converted
/// deck: one card and one media entry per page, in page order. Fails with
/// the first page whose rendering failed, producing no partial deck.
#[verifier::loop_isolation(false)]
pub fn finish_notebook(plan: NotebookPlan, rendered: Vec<RenderOutcome>) -> (r: Result<
    ConvertedDeck,
    ConvertError,
>)
    requires
        rendered@.len() == plan.pages@.len(),
    ensures
        (match spec_finish(plan@, rendered@.map_values(|o: RenderOutcome| o@)) {
            Result::Ok(cv) => r matches Ok(cd) && cd@ == cv,
            Result::Err(e) => r matches Err(err) && err@ == e,
        }),
{
    let ghost rs = rendered@.map_values(|o: RenderOutcome| o@);
    let ghost pages_v = plan.pages@.map_values(|p: String| p@);
    let mut cards: Vec<Card> = Vec::new();
    let mut media: Vec<MediaEntry> = Vec::new();
    let mut rem = rendered;
    let mut i: usize = 0;
    while i < plan.pages.len()
        invariant
            i <= plan.pages.len(),
            rem@.len() == rs.len() - i,
            forall|k: int| 0 <= k < rem@.len() ==> rem@[k]@ == rs[i + k],
            cards@.len() == i,
            media@.len() == i,
            forall|j: int| 0 <= j < i ==> rs[j] is Svg,
            forall|j: int| 0 <= j < i ==> cards@[j]@ == spec_card_for_page(pages_v[j]),
            forall|j: int|
                0 <= j < i ==> media@[j]@ == (MediaV {
                    name: spec_media_filename(pages_v[j]),
                    data: svg_bytes(rs[j]),
                }),
        decreases plan.pages.len() - i,
    {
        let page = &plan.pages[i];
        let outcome = rem.remove(0);
        proof {
            assert(outcome@ == rs[i as int]);
        }
        match outcome {
            RenderOutcome::Svg(bytes) => {
                cards.push(card_for_page(page.as_str()));
                media.push(MediaEntry { name: media_filename(page.as_str()), data: bytes });
            },
            RenderOutcome::ParseFailed => {
                proof {
                    assert(is_first_failed(rs, i as int));
                    assert(!all_rendered(rs));
                    lemma_first_failed_unique(rs, i as int);
                }
                return Err(ConvertError::CorruptPageData(page.clone()));
            },
            RenderOutcome::RenderFailed => {
                proof {
                    assert(is_first_failed(rs, i as int));
                    assert(!all_rendered(rs));
                    lemma_first_failed_unique(rs, i as int);
                }
                return Err(ConvertError::RenderFailure(page.clone()));
            },
        }
        i += 1;
    }
    proof {
        assert(cards@.map_values(|c: Card| c@) =~= spec_deck_cards(pages_v));
        assert(media@.map_values(|m: MediaEntry| m@) =~= spec_media_list(pages_v, rs));
    }
    let deck = Deck {
        id: plan.deck_id,
        name: plan.deck_name,
        description: deck_description(),
        cards,
    };
    Ok(ConvertedDeck { deck, media_files: media })
}

/// The view of one notebook's conversion outcome.
pub open spec fn outcome_view(x: Result<ConvertedDeck, ConvertError>) -> Result<
    ConvertedDeckV,
    ErrV,
> {
    match x {
        Result::Ok(c) => Result::Ok(c@),
        Result::Err(e) => Result::Err(e@),
    }
}

/// The decks of the outcomes that succeeded, in run order.
pub open spec fn spec_oks(rs: Seq<Result<ConvertedDeckV, ErrV>>) -> Seq<ConvertedDeckV>
    decreases rs.len(),
{
    if rs.len() == 0 {
        Seq::empty()
    } else {
        let init = spec_oks(rs.drop_last());
        match rs.last() {
            Result::Ok(d) => init.push(d),
            Result::Err(_) => init,
        }
    }
}

/// The messages of the outcomes that failed, in run order.
pub open spec fn spec_err_msgs(rs: Seq<Result<ConvertedDeckV, ErrV>>) -> Seq<Seq<char>>
    decreases rs.len(),
{
    if rs.len() == 0 {
        Seq::empty()
    } else {
        let init = spec_err_msgs(rs.drop_last());
        match rs.last() {
            Result::Ok(_) => init,
            Result::Err(e) => init.push(crate::errors::spec_message(e)),
        }
    }
}

/// Splits a run's per-notebook outcomes into the converted decks and the
/// error messages to report. A failed notebook contributes no deck, only its
/// message; each successful notebook's deck is kept, in run order.
#[verifier::loop_isolation(false)]
pub fn collect_decks(results: Vec<Result<ConvertedDeck, ConvertError>>) -> (r: (
    Vec<ConvertedDeck>,
    Vec<String>,
))
    ensures
        r.0@.map_values(|c: ConvertedDeck| c@) == spec_oks(
            results@.map_values(|x: Result<ConvertedDeck, ConvertError>| outcome_view(x)),
        ),
        r.1@.map_values(|s: String| s@) == spec_err_msgs(
            results@.map_values(|x: Result<ConvertedDeck, ConvertError>| outcome_view(x)),
        ),
{
    let ghost rv = results@.map_values(|x: Result<ConvertedDeck, ConvertError>| outcome_view(x));
    let mut decks: Vec<ConvertedDeck> = Vec::new();
    let mut errors: Vec<String> = Vec::new();
    let mut rem = results;
    let ghost n = rv.len();
    let ghost mut i: int = 0;
    while rem.len() > 0
        invariant
            0 <= i <= n,
            rem@.len() == n - i,
            forall|k: int| 0 <= k < rem@.len() ==> outcome_view(rem@[k]) == rv[i + k],
            decks@.map_values(|c: ConvertedDeck| c@) == spec_oks(rv.take(i)),
            errors@.map_values(|s: String| s@) == spec_err_msgs(rv.take(i)),
        decreases rem.len(),
    {
        let x = rem.remove(0);
        proof {
            assert(outcome_view(x) == rv[i]);
            assert(rv.take(i + 1).drop_last() =~= rv.take(i));
            assert(rv.take(i + 1).last() == rv[i]);
        }
        match x {
            Ok(cd) => {
                proof {
                    assert(decks@.push(cd).map_values(|c: ConvertedDeck| c@) =~= spec_oks(
                        rv.take(i + 1),
                    ));
                    assert(errors@.map_values(|s: String| s@) =~= spec_err_msgs(rv.take(i + 1)));
                }
                decks.push(cd);
            },
            Err(e) => {
                let msg = e.message();
                proof {
                    assert(errors@.push(msg).map_values(|s: String| s@) =~= spec_err_msgs(
                        rv.take(i + 1),
                    ));
                    assert(decks@.map_values(|c: ConvertedDeck| c@) =~= spec_oks(rv.take(i + 1)));
                }
                errors.push(msg);
            },
        }
        proof {
            i = i + 1;
        }
    }
    proof {
        assert(rv.take(n as int) =~= rv);
    }
    (decks, errors)
}

/// The decks of a run's converted notebooks, in run order.
pub open spec fn spec_pkg_decks(cds: Seq<ConvertedDeckV>) -> Seq<DeckV> {
    cds.map_values(|c: ConvertedDeckV| c.deck)
}

/// The media of a run's converted notebooks: every deck's media, flattened
/// in run order.
pub open spec fn spec_pkg_media(cds: Seq<ConvertedDeckV>) -> Seq<MediaV>
    decreases cds.len(),
{
    if cds.len() == 0 {
        Seq::empty()
    } else {
        spec_pkg_media(cds.drop_last()) + cds.last().media
    }
}

/// Aggregates every converted notebook into one package: the decks in run
/// order, and the union of their media.
#[verifier::loop_isolation(false)]
pub fn decks_to_package(v: Vec<ConvertedDeck>) -> (r: Package)
    ensures
        r@.decks == spec_pkg_decks(v@.map_values(|c: ConvertedDeck| c@)),
        r@.media == spec_pkg_media(v@.map_values(|c: ConvertedDeck| c@)),
{
    let ghost cv = v@.map_values(|c: ConvertedDeck| c@);
    let mut decks: Vec<Deck> = Vec::new();
    let mut media: Vec<MediaEntry> = Vec::new();
    let mut rem = v;
    let ghost n = cv.len();
    let ghost mut i: int = 0;
    while rem.len() > 0
        invariant
            0 <= i <= n,
            rem@.len() == n - i,
            forall|k: int| 0 <= k < rem@.len() ==> rem@[k]@ == cv[i + k],
            decks@.len() == i,
            forall|j: int| 0 <= j < i ==> decks@[j]@ == cv[j].deck,
            media@.map_values(|m: MediaEntry| m@) == spec_pkg_media(cv.take(i)),
        decreases rem.len(),
    {
        let mut cd = rem.remove(0);
        proof {
            assert(cd@ == cv[i]);
            assert(cv.take(i + 1).drop_last() =~= cv.take(i));
            assert(cv.take(i + 1).last() == cv[i]);
        }
        let ghost media_before = media@;
        decks.push(cd.deck);
        media.append(&mut cd.media_files);
        proof {
            assert(media@.map_values(|m: MediaEntry| m@) =~= spec_pkg_media(cv.take(i + 1)));
            i = i + 1;
        }
    }
    proof {
        assert(cv.take(n as int) =~= cv);
        assert(decks@.map_values(|d: Deck| d@) =~= spec_pkg_decks(cv));
    }
    Package { decks, media }
}

} // verus!
