use rmanki::convert::{
    collect_decks, decks_to_package, finish_notebook, plan_notebook, RenderOutcome,
};
use rmanki::errors::ConvertError;
use rmanki::ident::id_from_uuid;
use rmanki::model::{field_template_back, field_template_front, media_filename};

const UUID_42: &str = "00000000-0000-0000-0000-00000000002a";

fn make_zip(entries: &[(&str, &[u8])]) -> Vec<u8> {
    let mut cursor = std::io::Cursor::new(Vec::new());
    let mut writer = zip::ZipWriter::new(&mut cursor);
    let options = zip::write::SimpleFileOptions::default();
    for (name, data) in entries {
        writer.start_file(*name, options).unwrap();
        std::io::Write::write_all(&mut writer, data).unwrap();
    }
    writer.finish().unwrap();
    cursor.into_inner()
}

fn notebook_42() -> Vec<u8> {
    make_zip(&[
        (
            "00000000-0000-0000-0000-00000000002a.metadata",
            br#"{"visibleName": "Math Notes"}"#,
        ),
        (
            "00000000-0000-0000-0000-00000000002a.content",
            br#"{"pages": ["p1", "p2"]}"#,
        ),
        ("00000000-0000-0000-0000-00000000002a/p1.rm", b"page one raw"),
        ("00000000-0000-0000-0000-00000000002a/p2.rm", b"page two raw"),
    ])
}

#[test]
fn end_to_end_two_pages() {
    let plan = plan_notebook(notebook_42(), None, false).unwrap();
    assert_eq!(plan.uuid, UUID_42);
    assert_eq!(plan.deck_id, 42);
    assert_eq!(plan.deck_name, "Math Notes");
    assert_eq!(plan.pages, vec!["p1".to_string(), "p2".to_string()]);
    assert_eq!(plan.page_data, vec![b"page one raw".to_vec(), b"page two raw".to_vec()]);

    let rendered = vec![
        RenderOutcome::Svg(b"<svg>1</svg>".to_vec()),
        RenderOutcome::Svg(b"<svg>2</svg>".to_vec()),
    ];
    let converted = finish_notebook(plan, rendered).unwrap();
    assert_eq!(converted.deck.id, 42);
    assert_eq!(converted.deck.name, "Math Notes");
    assert_eq!(converted.deck.description, "Deck generated from remarkable notebook");
    assert_eq!(converted.deck.cards.len(), 2);
    assert_eq!(
        converted.deck.cards[0].front,
        "<div class=\"container\"><img class=\"front\" src=\"p1.svg\"></div>"
    );
    assert_eq!(
        converted.deck.cards[0].back,
        "<div class=\"container\"><img class=\"back\" src=\"p1.svg\"></div>"
    );
    assert_eq!(
        converted.deck.cards[1].front,
        "<div class=\"container\"><img class=\"front\" src=\"p2.svg\"></div>"
    );
    assert_eq!(converted.media_files.len(), 2);
    assert_eq!(converted.media_files[0].name, "p1.svg");
    assert_eq!(converted.media_files[0].data, b"<svg>1</svg>".to_vec());
    assert_eq!(converted.media_files[1].name, "p2.svg");
    assert_eq!(converted.media_files[1].data, b"<svg>2</svg>".to_vec());

    let package = decks_to_package(vec![converted]);
    assert_eq!(package.decks.len(), 1);
    assert_eq!(package.decks[0].name, "Math Notes");
    assert_eq!(package.decks[0].id, 42);
    assert_eq!(package.decks[0].cards.len(), 2);
    assert_eq!(package.media.len(), 2);
    assert_eq!(package.media[0].name, "p1.svg");
    assert_eq!(package.media[1].name, "p2.svg");
}

#[test]
fn end_to_end_name_from_filename() {
    let stem = "lecture3".to_string();
    let plan = plan_notebook(notebook_42(), Some(&stem), true).unwrap();
    assert_eq!(plan.deck_name, "lecture3");
    assert_eq!(plan.deck_id, 42);
    assert_eq!(plan.pages, vec!["p1".to_string(), "p2".to_string()]);

    let rendered = vec![
        RenderOutcome::Svg(b"<svg>1</svg>".to_vec()),
        RenderOutcome::Svg(b"<svg>2</svg>".to_vec()),
    ];
    let converted = finish_notebook(plan, rendered).unwrap();
    assert_eq!(converted.deck.name, "lecture3");
    assert_eq!(converted.deck.id, 42);
    assert_eq!(converted.deck.cards.len(), 2);
}

#[test]
fn end_to_end_corrupt_page_yields_no_deck() {
    let plan = plan_notebook(notebook_42(), None, false).unwrap();
    let rendered = vec![
        RenderOutcome::Svg(b"<svg>1</svg>".to_vec()),
        RenderOutcome::ParseFailed,
    ];
    let err = finish_notebook(plan, rendered).unwrap_err();
    match &err {
        ConvertError::CorruptPageData(page) => assert_eq!(page, "p2"),
        other => panic!("unexpected error: {}", other.message()),
    }
    let (decks, errors) = collect_decks(vec![Err(err)]);
    assert_eq!(decks.len(), 0);
    assert_eq!(errors.len(), 1);
    assert_eq!(errors[0], "Failed to parse line data for page p2");
    let package = decks_to_package(decks);
    assert_eq!(package.decks.len(), 0);
    assert_eq!(package.media.len(), 0);
}

#[test]
fn missing_manifest_is_isolated_from_siblings() {
    let broken = make_zip(&[(
        "00000000-0000-0000-0000-00000000002a.metadata",
        br#"{"visibleName": "Math Notes"}"#,
    )]);
    let broken_result = plan_notebook(broken, None, false);
    let err = broken_result.unwrap_err();
    assert!(matches!(err, ConvertError::MissingManifest(None)));
    assert_eq!(err.message(), "Could not find content file");

    let good_plan = plan_notebook(notebook_42(), None, false).unwrap();
    let good = finish_notebook(
        good_plan,
        vec![
            RenderOutcome::Svg(b"a".to_vec()),
            RenderOutcome::Svg(b"b".to_vec()),
        ],
    )
    .unwrap();
    let (decks, errors) = collect_decks(vec![Err(err), Ok(good)]);
    assert_eq!(decks.len(), 1);
    assert_eq!(decks[0].deck.name, "Math Notes");
    assert_eq!(errors.len(), 1);
    let package = decks_to_package(decks);
    assert_eq!(package.decks.len(), 1);
    assert_eq!(package.media.len(), 2);
}

#[test]
fn missing_page_data_fails_the_notebook() {
    let data = make_zip(&[
        (
            "00000000-0000-0000-0000-00000000002a.metadata",
            br#"{"visibleName": "N"}"#,
        ),
        (
            "00000000-0000-0000-0000-00000000002a.content",
            br#"{"pages": ["p1", "p3"]}"#,
        ),
        ("00000000-0000-0000-0000-00000000002a/p1.rm", b"raw"),
    ]);
    let err = plan_notebook(data, None, false).unwrap_err();
    match &err {
        ConvertError::MissingPageData(page) => assert_eq!(page, "p3"),
        other => panic!("unexpected error: {}", other.message()),
    }
    assert_eq!(err.message(), "Missing page data for page p3");
}

#[test]
fn unparsable_archive_is_an_open_error() {
    let err = plan_notebook(b"this is not a zip archive".to_vec(), None, false).unwrap_err();
    assert!(matches!(err, ConvertError::ArchiveOpenError));
    assert_eq!(err.message(), "Failed to read zip file");
}

#[test]
fn missing_metadata_entry_is_reported() {
    let data = make_zip(&[(
        "00000000-0000-0000-0000-00000000002a.content",
        br#"{"pages": []}"#,
    )]);
    let err = plan_notebook(data, None, false).unwrap_err();
    match &err {
        ConvertError::MissingManifest(Some(name)) => {
            assert_eq!(name, "00000000-0000-0000-0000-00000000002a.metadata")
        },
        other => panic!("unexpected error: {}", other.message()),
    }
}

#[test]
fn malformed_metadata_json_is_reported() {
    let data = make_zip(&[
        (
            "00000000-0000-0000-0000-00000000002a.metadata",
            b"{not json at all",
        ),
        (
            "00000000-0000-0000-0000-00000000002a.content",
            br#"{"pages": []}"#,
        ),
    ]);
    let err = plan_notebook(data, None, false).unwrap_err();
    match &err {
        ConvertError::MalformedIndex(name) => {
            assert_eq!(name, "00000000-0000-0000-0000-00000000002a.metadata")
        },
        other => panic!("unexpected error: {}", other.message()),
    }
}

#[test]
fn metadata_with_extra_fields_still_parses() {
    let data = make_zip(&[
        (
            "00000000-0000-0000-0000-00000000002a.metadata",
            br#"{"deleted": false, "visibleName": "Extra", "version": 12}"#,
        ),
        (
            "00000000-0000-0000-0000-00000000002a.content",
            br#"{"coverPageNumber": 0, "pages": ["p9"], "orientation": "portrait"}"#,
        ),
        ("00000000-0000-0000-0000-00000000002a/p9.rm", b"x"),
    ]);
    let plan = plan_notebook(data, None, false).unwrap();
    assert_eq!(plan.deck_name, "Extra");
    assert_eq!(plan.pages, vec!["p9".to_string()]);
}

#[test]
fn non_string_page_entry_is_malformed() {
    let data = make_zip(&[
        (
            "00000000-0000-0000-0000-00000000002a.metadata",
            br#"{"visibleName": "N"}"#,
        ),
        (
            "00000000-0000-0000-0000-00000000002a.content",
            br#"{"pages": ["p1", 7]}"#,
        ),
    ]);
    let err = plan_notebook(data, None, false).unwrap_err();
    assert!(matches!(err, ConvertError::MalformedIndex(_)));
}

#[test]
fn non_utf8_metadata_is_malformed() {
    let data = make_zip(&[
        (
            "00000000-0000-0000-0000-00000000002a.metadata",
            &[0xff, 0xfe, 0x00, 0x80][..],
        ),
        (
            "00000000-0000-0000-0000-00000000002a.content",
            br#"{"pages": []}"#,
        ),
    ]);
    let err = plan_notebook(data, None, false).unwrap_err();
    assert!(matches!(err, ConvertError::MalformedIndex(_)));
}

#[test]
fn render_failure_is_distinguished_from_corrupt_data() {
    let plan = plan_notebook(notebook_42(), None, false).unwrap();
    let rendered = vec![
        RenderOutcome::RenderFailed,
        RenderOutcome::Svg(b"s".to_vec()),
    ];
    let err = finish_notebook(plan, rendered).unwrap_err();
    match &err {
        ConvertError::RenderFailure(page) => assert_eq!(page, "p1"),
        other => panic!("unexpected error: {}", other.message()),
    }
    assert_eq!(err.message(), "Rendering failed for page p1");
}

#[test]
fn deck_id_is_stable_across_runs() {
    let plan_a = plan_notebook(notebook_42(), None, false).unwrap();
    let plan_b = plan_notebook(notebook_42(), None, false).unwrap();
    assert_eq!(plan_a.deck_id, plan_b.deck_id);
    let stem = "other-name".to_string();
    let plan_c = plan_notebook(notebook_42(), Some(&stem), true).unwrap();
    assert_eq!(plan_a.deck_id, plan_c.deck_id);
}

#[test]
fn id_from_uuid_lower_bits() {
    assert_eq!(id_from_uuid(UUID_42), Some(42));
    assert_eq!(
        id_from_uuid("00000000-0000-0000-ffff-ffffffffffff"),
        Some(-1)
    );
    assert_eq!(
        id_from_uuid("12345678-1234-5678-0123-456789abcdef"),
        Some(0x0123456789abcdefi64)
    );
    assert_eq!(id_from_uuid("not a uuid"), None);
}

#[test]
fn field_templates_embed_the_filename() {
    assert_eq!(
        field_template_front("p1.svg"),
        "<div class=\"container\"><img class=\"front\" src=\"p1.svg\"></div>"
    );
    assert_eq!(
        field_template_back("p1.svg"),
        "<div class=\"container\"><img class=\"back\" src=\"p1.svg\"></div>"
    );
}

#[test]
fn media_filename_appends_svg() {
    assert_eq!(media_filename("p1"), "p1.svg");
    assert_eq!(media_filename(""), ".svg");
}

#[test]
fn package_flattens_media_of_all_decks() {
    let plan = plan_notebook(notebook_42(), None, false).unwrap();
    let deck_a = finish_notebook(
        plan,
        vec![
            RenderOutcome::Svg(b"a1".to_vec()),
            RenderOutcome::Svg(b"a2".to_vec()),
        ],
    )
    .unwrap();
    let other = make_zip(&[
        ("7c000000-0000-0000-0000-000000000007.metadata", br#"{"visibleName": "B"}"#),
        ("7c000000-0000-0000-0000-000000000007.content", br#"{"pages": ["q1"]}"#),
        ("7c000000-0000-0000-0000-000000000007/q1.rm", b"q"),
    ]);
    let plan_b = plan_notebook(other, None, false).unwrap();
    assert_eq!(plan_b.deck_id, 7);
    let deck_b = finish_notebook(plan_b, vec![RenderOutcome::Svg(b"b1".to_vec())]).unwrap();

    let package = decks_to_package(vec![deck_a, deck_b]);
    assert_eq!(package.decks.len(), 2);
    assert_eq!(package.media.len(), 3);
    assert_eq!(package.media[0].name, "p1.svg");
    assert_eq!(package.media[1].name, "p2.svg");
    assert_eq!(package.media[2].name, "q1.svg");
}

#[test]
fn notes_are_built_for_each_card() {
    let plan = plan_notebook(notebook_42(), None, false).unwrap();
    let converted = finish_notebook(
        plan,
        vec![
            RenderOutcome::Svg(b"a".to_vec()),
            RenderOutcome::Svg(b"b".to_vec()),
        ],
    )
    .unwrap();
    let notes = rmanki::anki::deck_notes(&converted.deck);
    assert_eq!(notes.len(), 2);
}

#[test]
fn first_content_entry_is_taken() {
    let data = make_zip(&[
        ("stray.txt", b"x"),
        (
            "00000000-0000-0000-0000-00000000002a.metadata",
            br#"{"visibleName": "First"}"#,
        ),
        (
            "00000000-0000-0000-0000-00000000002a.content",
            br#"{"pages": []}"#,
        ),
    ]);
    let plan = plan_notebook(data, None, false).unwrap();
    assert_eq!(plan.uuid, UUID_42);
    assert_eq!(plan.deck_name, "First");
    assert_eq!(plan.pages.len(), 0);
}

#[test]
fn content_suffix_detection() {
    assert!(rmanki::text::has_content_suffix("abc.content"));
    assert!(rmanki::text::has_content_suffix(".content"));
    assert!(!rmanki::text::has_content_suffix("content"));
    assert!(!rmanki::text::has_content_suffix("abc.metadata"));
    assert!(!rmanki::text::has_content_suffix("abc.Content"));
    assert_eq!(rmanki::text::strip_content_suffix("abc.content"), "abc");
}

#[test]
fn messages_for_each_error() {
    assert_eq!(
        ConvertError::ArchiveOpenError.message(),
        "Failed to read zip file"
    );
    assert_eq!(
        ConvertError::MissingManifest(None).message(),
        "Could not find content file"
    );
    assert_eq!(
        ConvertError::MissingManifest(Some("u.metadata".to_string())).message(),
        "Could not find notebook entry u.metadata"
    );
    assert_eq!(
        ConvertError::MalformedIndex("u.content".to_string()).message(),
        "Could not parse notebook entry u.content"
    );
    assert_eq!(
        ConvertError::MissingPageData("p".to_string()).message(),
        "Missing page data for page p"
    );
    assert_eq!(
        ConvertError::CorruptPageData("p".to_string()).message(),
        "Failed to parse line data for page p"
    );
    assert_eq!(
        ConvertError::RenderFailure("p".to_string()).message(),
        "Rendering failed for page p"
    );
    assert_eq!(
        ConvertError::PackageWriteError.message(),
        "Could not create Anki package"
    );
}

#[test]
fn collected_decks_keep_run_order() {
    let plan_a = plan_notebook(notebook_42(), None, false).unwrap();
    let deck_a = finish_notebook(
        plan_a,
        vec![
            RenderOutcome::Svg(b"a".to_vec()),
            RenderOutcome::Svg(b"b".to_vec()),
        ],
    )
    .unwrap();
    let stem = "second".to_string();
    let plan_b = plan_notebook(notebook_42(), Some(&stem), true).unwrap();
    let deck_b = finish_notebook(
        plan_b,
        vec![
            RenderOutcome::Svg(b"c".to_vec()),
            RenderOutcome::Svg(b"d".to_vec()),
        ],
    )
    .unwrap();
    let (decks, errors) = collect_decks(vec![
        Ok(deck_a),
        Err(ConvertError::ArchiveOpenError),
        Ok(deck_b),
    ]);
    assert_eq!(decks.len(), 2);
    assert_eq!(decks[0].deck.name, "Math Notes");
    assert_eq!(decks[1].deck.name, "second");
    assert_eq!(errors, vec!["Failed to read zip file".to_string()]);
}
