use vstd::prelude::*;

verus! {

/// Mathematical view of a card: the two HTML field values.
pub struct CardV {
    pub front: Seq<char>,
    pub back: Seq<char>,
}

/// Mathematical view of a media entry: its filename and its bytes.
pub struct MediaV {
    pub name: Seq<char>,
    pub data: Seq<u8>,
}

/// Mathematical view of a deck.
pub struct DeckV {
    pub id: i64,
    pub name: Seq<char>,
    pub description: Seq<char>,
    pub cards: Seq<CardV>,
}

/// Mathematical view of the final package: all decks and all their media.
pub struct PackageV {
    pub decks: Seq<DeckV>,
    pub media: Seq<MediaV>,
}

/// One flashcard: a front field and a back field, both HTML fragments that
/// embed the same rendered page image at different crops.
#[derive(Debug)]
pub struct Card {
    pub front: String,
    pub back: String,
}

impl View for Card {
    type V = CardV;

    open spec fn view(&self) -> CardV {
        CardV { front: self.front@, back: self.back@ }
    }
}

/// One rendered page image, named as the cards reference it.
#[derive(Debug)]
pub struct MediaEntry {
    pub name: String,
    pub data: Vec<u8>,
}

impl View for MediaEntry {
    type V = MediaV;

    open spec fn view(&self) -> MediaV {
        MediaV { name: self.name@, data: self.data@ }
    }
}

/// One deck: a stable numeric identifier, a display name, a description, and
/// the cards in notebook page order.
#[derive(Debug)]
pub struct Deck {
    pub id: i64,
    pub name: String,
    pub description: String,
    pub cards: Vec<Card>,
}

impl View for Deck {
    type V = DeckV;

    open spec fn view(&self) -> DeckV {
        DeckV {
            id: self.id,
            name: self.name@,
            description: self.description@,
            cards: self.cards@.map_values(|c: Card| c@),
        }
    }
}

/// Mathematical view of one converted notebook.
pub struct ConvertedDeckV {
    pub deck: DeckV,
    pub media: Seq<MediaV>,
}

/// One successfully converted notebook: its deck plus the rendered media the
/// deck's cards reference.
#[derive(Debug)]
pub struct ConvertedDeck {
    pub deck: Deck,
    pub media_files: Vec<MediaEntry>,
}

impl View for ConvertedDeck {
    type V = ConvertedDeckV;

    open spec fn view(&self) -> ConvertedDeckV {
        ConvertedDeckV {
            deck: self.deck@,
            media: self.media_files@.map_values(|m: MediaEntry| m@),
        }
    }
}

/// The final artifact: every converted deck and the union of their media.
#[derive(Debug)]
pub struct Package {
    pub decks: Vec<Deck>,
    pub media: Vec<MediaEntry>,
}

impl View for Package {
    type V = PackageV;

    open spec fn view(&self) -> PackageV {
        PackageV {
            decks: self.decks@.map_values(|d: Deck| d@),
            media: self.media@.map_values(|m: MediaEntry| m@),
        }
    }
}

/// The media filename for one notebook page: `<page-id>.svg`.
pub open spec fn spec_media_filename(page: Seq<char>) -> Seq<char> {
    page + ".svg"@
}

/// The front field's HTML for a given media filename.
pub open spec fn spec_front_field(filename: Seq<char>) -> Seq<char> {
    "<div class=\"container\"><img class=\"front\" src=\""@ + filename + "\"></div>"@
}

/// The back field's HTML for a given media filename.
pub open spec fn spec_back_field(filename: Seq<char>) -> Seq<char> {
    "<div class=\"container\"><img class=\"back\" src=\""@ + filename + "\"></div>"@
}

/// The card for one page: both fields embed the page's media filename.
pub open spec fn spec_card_for_page(page: Seq<char>) -> CardV {
    CardV {
        front: spec_front_field(spec_media_filename(page)),
        back: spec_back_field(spec_media_filename(page)),
    }
}

/// The fixed description every generated deck carries.
pub open spec fn spec_deck_description() -> Seq<char> {
    "Deck generated from remarkable notebook"@
}

/// Builds the media filename for one notebook page.
pub fn media_filename(page: &str) -> (r: String)
    ensures
        r@ == spec_media_filename(page@),
{
    let mut s = page.to_owned();
    s.append(".svg");
    s
}

/// Builds the front field of a card from a media filename.
pub fn field_template_front(filename: &str) -> (r: String)
    ensures
        r@ == spec_front_field(filename@),
{
    let mut s = "<div class=\"container\"><img class=\"front\" src=\"".to_owned();
    s.append(filename);
    s.append("\"></div>");
    s
}

/// Builds the back field of a card from a media filename.
pub fn field_template_back(filename: &str) -> (r: String)
    ensures
        r@ == spec_back_field(filename@),
{
    let mut s = "<div class=\"container\"><img class=\"back\" src=\"".to_owned();
    s.append(filename);
    s.append("\"></div>");
    s
}

/// Builds the card for one page.
pub fn card_for_page(page: &str) -> (r: Card)
    ensures
        r@ == spec_card_for_page(page@),
{
    let filename = media_filename(page);
    Card {
        front: field_template_front(filename.as_str()),
        back: field_template_back(filename.as_str()),
    }
}

/// The fixed description string for generated decks.
pub fn deck_description() -> (r: String)
    ensures
        r@ == spec_deck_description(),
{
    "Deck generated from remarkable notebook".to_owned()
}

} // verus!
