use vstd::prelude::*;

verus! {

#[verifier::external_type_specification]
#[verifier::external_body]
pub struct ExModel(genanki_rs::Model);

#[verifier::external_type_specification]
#[verifier::external_body]
pub struct ExField(genanki_rs::Field);

#[verifier::external_type_specification]
#[verifier::external_body]
pub struct ExTemplate(genanki_rs::Template);

#[verifier::external_type_specification]
#[verifier::external_body]
pub struct ExNote(genanki_rs::Note);

/// Mathematical view of a card template: its name, question format and
/// answer format.
pub struct TemplateRep {
    pub name: Seq<char>,
    pub qfmt: Seq<char>,
    pub afmt: Seq<char>,
}

/// Mathematical view of a note model: its identifier, name, field names in
/// order, templates in order, and stylesheet. Models built here leave the
/// model type and latex options at their defaults.
pub struct ModelRep {
    pub id: i64,
    pub name: Seq<char>,
    pub fields: Seq<Seq<char>>,
    pub templates: Seq<TemplateRep>,
    pub css: Seq<char>,
}

/// Mathematical view of a note: its model and its field values in order.
pub struct NoteRep {
    pub model: ModelRep,
    pub fields: Seq<Seq<char>>,
}

/// The name a field definition carries.
pub uninterp spec fn field_rep(f: genanki_rs::Field) -> Seq<char>;

/// The name and formats a card template carries.
pub uninterp spec fn template_rep(t: genanki_rs::Template) -> TemplateRep;

/// The identifier, name, field names, templates and stylesheet a note model
/// carries.
pub uninterp spec fn model_rep(m: genanki_rs::Model) -> ModelRep;

/// The model and field values a note carries.
pub uninterp spec fn note_rep(n: genanki_rs::Note) -> NoteRep;

/// Relies on `genanki_rs::Field::new` to build a field definition with the
/// given name and default options.
#[verifier::external_body]
fn new_field(name: &str) -> (r: genanki_rs::Field)
    ensures
        field_rep(r) == name@,
{
    genanki_rs::Field::new(name)
}

/// Relies on `genanki_rs::Template::new`, `Template::qfmt` and
/// `Template::afmt` to build a card template with the given name, question
/// format and answer format.
#[verifier::external_body]
fn new_template(name: &str, qfmt: &str, afmt: &str) -> (r: genanki_rs::Template)
    ensures
        template_rep(r) == (TemplateRep { name: name@, qfmt: qfmt@, afmt: afmt@ }),
{
    genanki_rs::Template::new(name).qfmt(qfmt).afmt(afmt)
}

/// Relies on `genanki_rs::Model::new_with_options` to build a note model from
/// the given identifier, name, fields, templates and stylesheet, with default
/// type and latex options.
#[verifier::external_body]
fn new_model(
    id: i64,
    name: &str,
    fields: Vec<genanki_rs::Field>,
    templates: Vec<genanki_rs::Template>,
    css: &str,
) -> (r: genanki_rs::Model)
    ensures
        model_rep(r) == (ModelRep {
            id,
            name: name@,
            fields: fields@.map_values(|f: genanki_rs::Field| field_rep(f)),
            templates: templates@.map_values(|t: genanki_rs::Template| template_rep(t)),
            css: css@,
        }),
{
    genanki_rs::Model::new_with_options(id, name, fields, templates, Some(css), None, None, None, None)
}

/// The stylesheet shared by every generated card.
pub open spec fn spec_model_css() -> Seq<char> {
    "
div.container {
    all: initial;
    display: block;
    overflow: hidden;
    width: 100%;
    aspect-ratio: 915 / 622;
}
.chrome img {
    /* Overwrite AnkiDroid stylesheet */
    max-width: none;
    max-height: none;
}

img {
    overflow: hidden;
    position: relative;
    width: 153%;
    height: 303%;
    left: -26%;

    /* Overwrite default Anki values */
    max-width: none;
    max-height: none;
}

.front {
    top: -44%;
}

.back {
    top: -157%;
}
"@
}

/// The fixed note model every generated card uses: two media fields, and one
/// template showing the front field as the question and the back field as
/// the answer, under the shared stylesheet.
pub open spec fn spec_remarkable_model() -> ModelRep {
    ModelRep {
        id: 8779108157104849532i64,
        name: "Remarkable Flashcard v2"@,
        fields: seq!["MediaFront"@, "MediaBack"@],
        templates: seq![
            TemplateRep { name: "Card 1"@, qfmt: "{{MediaFront}}"@, afmt: "{{MediaBack}}"@ },
        ],
        css: spec_model_css(),
    }
}

/// Relies on `genanki_rs::Note::new` to build a note holding the given model
/// and the two field values. The model may not declare more fields than the
/// two values supplied: the crate indexes the values by the model's own
/// field ordinals. For the fixed front/back model the call succeeds on any
/// values, since its one template names the model's first field.
#[verifier::external_body]
fn new_note(model: genanki_rs::Model, front: &str, back: &str) -> (r: Option<genanki_rs::Note>)
    requires
        model_rep(model).fields.len() <= 2,
    ensures
        r matches Some(n) ==> note_rep(n) == (NoteRep {
            model: model_rep(model),
            fields: seq![front@, back@],
        }),
        model_rep(model) == spec_remarkable_model() ==> r is Some,
{
    genanki_rs::Note::new(model, vec![front, back]).ok()
}

/// The stylesheet shared by every generated card: one clipped container whose
/// image is offset differently for the front and the back crop.
pub fn model_css() -> (r: String)
    ensures
        r@ == spec_model_css(),
{
    "
div.container {
    all: initial;
    display: block;
    overflow: hidden;
    width: 100%;
    aspect-ratio: 915 / 622;
}
.chrome img {
    /* Overwrite AnkiDroid stylesheet */
    max-width: none;
    max-height: none;
}

img {
    overflow: hidden;
    position: relative;
    width: 153%;
    height: 303%;
    left: -26%;

    /* Overwrite default Anki values */
    max-width: none;
    max-height: none;
}

.front {
    top: -44%;
}

.back {
    top: -157%;
}
".to_owned()
}

/// Builds the fixed note model every generated card uses.
pub fn remarkable_model() -> (r: genanki_rs::Model)
    ensures
        model_rep(r) == spec_remarkable_model(),
{
    let mut fields: Vec<genanki_rs::Field> = Vec::new();
    fields.push(new_field("MediaFront"));
    fields.push(new_field("MediaBack"));
    let mut templates: Vec<genanki_rs::Template> = Vec::new();
    templates.push(new_template("Card 1", "{{MediaFront}}", "{{MediaBack}}"));
    proof {
        assert(fields@.map_values(|f: genanki_rs::Field| field_rep(f)) =~= seq![
            "MediaFront"@,
            "MediaBack"@,
        ]);
        assert(templates@.map_values(|t: genanki_rs::Template| template_rep(t)) =~= seq![
            TemplateRep { name: "Card 1"@, qfmt: "{{MediaFront}}"@, afmt: "{{MediaBack}}"@ },
        ]);
    }
    let css = model_css();
    new_model(8779108157104849532i64, "Remarkable Flashcard v2", fields, templates, css.as_str())
}

/// Builds one note per card of a deck, in card order: each note carries the
/// fixed model and the card's front and back fields, ready to be handed to
/// the output package writer.
pub fn deck_notes(d: &crate::model::Deck) -> (r: Vec<genanki_rs::Note>)
    ensures
        r@.len() == d.cards@.len(),
        forall|i: int|
            0 <= i < r@.len() ==> note_rep(r@[i]) == (NoteRep {
                model: spec_remarkable_model(),
                fields: seq![d.cards@[i]@.front, d.cards@[i]@.back],
            }),
{
    let mut notes: Vec<genanki_rs::Note> = Vec::new();
    let mut i: usize = 0;
    while i < d.cards.len()
        invariant
            i <= d.cards.len(),
            notes@.len() == i,
            forall|j: int|
                0 <= j < i ==> note_rep(notes@[j]) == (NoteRep {
                    model: spec_remarkable_model(),
                    fields: seq![d.cards@[j]@.front, d.cards@[j]@.back],
                }),
        decreases d.cards.len() - i,
    {
        let card = &d.cards[i];
        let note = match new_note(remarkable_model(), card.front.as_str(), card.back.as_str()) {
            Some(n) => n,
            None => vstd::pervasive::unreached(),
        };
        notes.push(note);
        i += 1;
    }
    notes
}

} // verus!
