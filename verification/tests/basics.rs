use spindle_adapters::restore::{branch_restore_tables, restore_plan, restore_scope, RestoreScope};
use spindle_adapters::characters::{initial_state_columns, CharacterStatePatch};
use spindle_adapters::digest::sha256_hex;
use spindle_adapters::export::{blob_export_text, text_param, TextParam};
use spindle_adapters::ids::{
    id_table_prefix, mint_id, mint_id_local, split_relationship_subject_id, subject_table_from_id,
    table_for_prefix, IdError, SubjectTable,
};
use spindle_adapters::placement::{
    arc_established_at_or_before, fact_at_or_before, placement_at_or_after, placement_key,
    position_at_or_before, StoryPlacement,
};
use spindle_adapters::records::RelatesTo;
use spindle_adapters::relationships::{
    apply_relationship_delta, edge_links_pair, relationship_after_create, plan_create_relationship, set_relationship_absolute,
    EdgeWrite, RelationshipError,
};
use spindle_adapters::row::{
    bool_as_int, embedding_blob_len_ok, int_as_bool, micros_to_timestamp, packed_embedding_len,
    timestamp_param_for_column, timestamp_to_micros, Timestamp,
};
use spindle_adapters::scenes::{
    check_destination_free, next_scene_version_number, parse_content_rating, rating_db_str,
    ContentRating, SceneError,
};
use spindle_adapters::schema::{
    check_archivable, check_field_updatable, column_is_updatable, ensure_safe_export_identifier,
    is_timestamp_column, looks_like_json_column, plan_entity_update, table_has_archived_at,
    EntityUpdate, SchemaError,
};
use spindle_adapters::text::{
    truncate_to_bytes, i64_to_decimal, join_strings, split_once, str_is_blank, trim, word_count,
};

fn at(book: i32, chapter: i32, order: Option<i32>) -> StoryPlacement {
    StoryPlacement { book_number: book, chapter_number: chapter, scene_order: order, note: None }
}

fn relation(trust: i32, tension: i32) -> RelatesTo {
    RelatesTo {
        in_id: "character:a".to_string(),
        out_id: "character:b".to_string(),
        relationship_type: "ally".to_string(),
        trust,
        tension,
        dynamics: vec!["wary".to_string()],
        reason: None,
        last_scene_id: None,
        updated_at: Timestamp { micros: 1 },
    }
}

#[test]
fn safe_identifiers_are_ascii_words() {
    assert!(ensure_safe_export_identifier("character_arc").is_ok());
    assert!(ensure_safe_export_identifier("t2").is_ok());
    match ensure_safe_export_identifier("project; DROP TABLE foo") {
        Err(SchemaError::UnsafeIdentifier { ident }) => assert_eq!(ident, "project; DROP TABLE foo"),
        _ => panic!("expected an unsafe identifier error"),
    }
    assert!(ensure_safe_export_identifier("").is_err());
    assert!(ensure_safe_export_identifier("naïve").is_err());
}

#[test]
fn schema_allowlists() {
    assert!(is_timestamp_column("created_at"));
    assert!(is_timestamp_column("snapshot_created_at"));
    assert!(!is_timestamp_column("name"));
    assert!(looks_like_json_column("voice_profile"));
    assert!(looks_like_json_column("tags_json"));
    assert!(!looks_like_json_column("summary"));
    assert!(table_has_archived_at("faction"));
    assert!(!table_has_archived_at("project"));
    assert!(column_is_updatable("anything", "notes"));
    assert!(column_is_updatable("character", "summary"));
    assert!(!column_is_updatable("character", "id"));
}

#[test]
fn archiving_needs_an_archived_at_column() {
    assert!(check_archivable("faction").is_ok());
    match check_archivable("project") {
        Err(SchemaError::NotArchivable { table }) => assert_eq!(table, "project"),
        _ => panic!("expected not archivable"),
    }
}

#[test]
fn entity_updates_are_checked_column_by_column() {
    let none: Vec<String> = vec![];
    assert!(matches!(plan_entity_update("character", &none), Ok(EntityUpdate::TouchOnly)));
    let ok = vec!["summary".to_string(), "notes".to_string()];
    assert!(matches!(plan_entity_update("character", &ok), Ok(EntityUpdate::WriteColumns)));
    let stamp = vec!["summary".to_string(), "updated_at".to_string()];
    assert!(matches!(plan_entity_update("character", &stamp), Err(SchemaError::UpdatedAtIsAutomatic)));
    let bad = vec!["id".to_string(), "updated_at".to_string()];
    match plan_entity_update("character", &bad) {
        Err(SchemaError::ColumnNotUpdatable { table, column }) => {
            assert_eq!(table, "character");
            assert_eq!(column, "id");
        }
        _ => panic!("expected the first bad column"),
    }
    assert!(check_field_updatable("location", "realm").is_ok());
    assert!(matches!(
        check_field_updatable("location", "id"),
        Err(SchemaError::ColumnNotUpdatable { .. })
    ));
}

#[test]
fn minted_ids_carry_their_table() {
    for id in [mint_id("scene"), mint_id_local("scene")] {
        assert_eq!(id.len(), "scene".len() + 27);
        assert!(id.starts_with("scene:"));
        assert!(id[6..].chars().all(|c| c.is_ascii_digit() || c.is_ascii_uppercase()));
        assert_eq!(id_table_prefix(&id).ok(), Some("scene"));
    }
}

#[test]
fn id_prefixes_and_relationship_ids() {
    assert_eq!(id_table_prefix("character:01H").ok(), Some("character"));
    assert!(matches!(id_table_prefix("nocolon"), Err(IdError::MissingTablePrefix { .. })));
    let (a, b) = split_relationship_subject_id("character:a|character:b").ok().unwrap();
    assert_eq!(a, "character:a");
    assert_eq!(b, "character:b");
    assert!(matches!(
        split_relationship_subject_id("character:a"),
        Err(IdError::NotRelationshipId { .. })
    ));
    assert!(matches!(table_for_prefix("plot_line"), Some(SubjectTable::PlotLine)));
    assert!(table_for_prefix("widget").is_none());
    assert!(matches!(subject_table_from_id("theme:x"), Ok(SubjectTable::Theme)));
    match subject_table_from_id("widget:x") {
        Err(IdError::UnsupportedSubjectTable { table }) => assert_eq!(table, "widget"),
        _ => panic!("expected an unsupported table"),
    }
}

#[test]
fn content_ratings_round_trip() {
    for r in [ContentRating::General, ContentRating::Teen, ContentRating::Mature, ContentRating::Explicit] {
        let s = rating_db_str(r);
        assert_eq!(rating_db_str(parse_content_rating(s).ok().unwrap()), s);
    }
    assert_eq!(rating_db_str(ContentRating::Teen), "Teen");
    match parse_content_rating("PG") {
        Err(SceneError::UnknownContentRating { rating }) => assert_eq!(rating, "PG"),
        _ => panic!("expected an unknown rating"),
    }
}

#[test]
fn scene_versions_and_destinations() {
    assert_eq!(next_scene_version_number(0), 1);
    assert_eq!(next_scene_version_number(41), 42);
    assert!(check_destination_free(0).is_ok());
    assert!(matches!(check_destination_free(1), Err(SceneError::DestinationOccupied)));
}

#[test]
fn relationship_edges_match_either_direction() {
    assert!(edge_links_pair("character:a", "character:b", "character:a", "character:b"));
    assert!(edge_links_pair("character:b", "character:a", "character:a", "character:b"));
    assert!(!edge_links_pair("character:a", "character:c", "character:a", "character:b"));
    match plan_create_relationship(Some(("x".to_string(), "y".to_string())), "a".into(), "b".into()) {
        EdgeWrite::Update { in_id, out_id } => assert_eq!((in_id, out_id), ("x".to_string(), "y".to_string())),
        _ => panic!("existing edge must be updated"),
    }
    assert!(matches!(plan_create_relationship(None, "a".into(), "b".into()), EdgeWrite::Insert { .. }));
}

#[test]
fn relationship_deltas_add_and_absolute_values_overwrite() {
    let out = apply_relationship_delta(relation(10, 5), 75, -3, Some("saved".into()), None, Timestamp { micros: 9 })
        .ok()
        .unwrap();
    assert_eq!(out.trust, 85);
    assert_eq!(out.tension, 2);
    assert_eq!(out.reason.as_deref(), Some("saved"));
    assert_eq!(out.updated_at.micros, 9);
    assert!(matches!(
        apply_relationship_delta(relation(i32::MAX, 0), 1, 0, None, None, Timestamp { micros: 9 }),
        Err(RelationshipError::ValueOutOfRange)
    ));
    let set = set_relationship_absolute(relation(10, 5), 90, 1, None, Some("scene:s".into()), Timestamp { micros: 3 });
    assert_eq!(set.trust, 90);
    assert_eq!(set.tension, 1);
    assert_eq!(set.last_scene_id.as_deref(), Some("scene:s"));
    assert_eq!(set.relationship_type, "ally");
}

#[test]
fn timestamps_round_trip_through_micros() {
    let ts = micros_to_timestamp(1_700_000_000_000_000).ok().unwrap();
    assert_eq!(timestamp_to_micros(ts), 1_700_000_000_000_000);
    let text = "2023-11-14T22:13:20+00:00";
    assert_eq!(timestamp_param_for_column("created_at", text), Some(1_700_000_000_000_000));
    assert_eq!(timestamp_param_for_column("name", text), None);
    assert_eq!(timestamp_param_for_column("created_at", "yesterday"), None);
    assert!(micros_to_timestamp(i64::MAX).is_err());
}

#[test]
fn row_value_conversions() {
    assert!(int_as_bool(2));
    assert!(!int_as_bool(0));
    assert_eq!(bool_as_int(true), 1);
    assert_eq!(bool_as_int(false), 0);
    assert!(embedding_blob_len_ok(12));
    assert!(!embedding_blob_len_ok(10));
    assert_eq!(packed_embedding_len(3), Some(12));
    assert_eq!(packed_embedding_len(usize::MAX), None);
}

#[test]
fn blobs_export_as_base64_and_restore() {
    let bytes = [0u8, 1, 2, 250, 255];
    let text = blob_export_text(&bytes);
    assert_eq!(text, "base64:AAEC+v8=");
    match text_param(&text) {
        TextParam::Blob(b) => assert_eq!(b, bytes.to_vec()),
        TextParam::Text(_) => panic!("expected a blob"),
    }
    match text_param("base64:not base64!") {
        TextParam::Text(t) => assert_eq!(t, "base64:not base64!"),
        TextParam::Blob(_) => panic!("invalid data stays text"),
    }
    assert!(matches!(text_param("plain"), TextParam::Text(_)));
}

#[test]
fn sha256_is_lowercase_hex() {
    assert_eq!(
        sha256_hex("abc"),
        "ba7816bf8f01cfea414140de5dae2223b00361a396177a9cb410ff61f20015ad"
    );
    assert_eq!(sha256_hex("").len(), 64);
}

#[test]
fn text_helpers() {
    assert_eq!(trim("  hi there \n"), "hi there");
    assert_eq!(trim(" \t "), "");
    assert!(str_is_blank(" \u{3000}\n"));
    assert!(!str_is_blank(" a "));
    assert_eq!(word_count("  one two\tthree\n"), 3);
    assert_eq!(word_count(""), 0);
    assert_eq!(i64_to_decimal(-120), "-120");
    assert_eq!(i64_to_decimal(i64::MIN), "-9223372036854775808");
    let parts = vec!["a".to_string(), "b".to_string(), "c".to_string()];
    assert_eq!(join_strings(&parts, ", "), "a, b, c");
    assert_eq!(split_once("k:v:w", ':'), Some(("k", "v:w")));
    assert_eq!(split_once("kv", ':'), None);
}

#[test]
fn placements_order_lexicographically() {
    assert_eq!(placement_key(&at(1, 2, None)), (1, 2, i32::MAX));
    assert_eq!(placement_key(&at(1, 2, Some(3))), (1, 2, 3));
    assert!(placement_at_or_after(&at(2, 1, None), &at(1, 9, Some(9))));
    assert!(!placement_at_or_after(&at(1, 1, None), &at(1, 2, None)));
    assert!(position_at_or_before(1, 2, 3, &at(1, 2, Some(3))));
    assert!(!position_at_or_before(1, 2, 4, &at(1, 2, Some(3))));
    assert!(fact_at_or_before(1, 1, &None, &None, &at(1, 1, None)));
    assert!(!fact_at_or_before(2, 1, &None, &None, &at(1, 1, None)));
    let milestones = vec![None, Some(at(2, 1, None)), Some(at(1, 3, None))];
    assert!(arc_established_at_or_before(&milestones, &at(1, 3, None)));
    assert!(!arc_established_at_or_before(&milestones, &at(1, 2, None)));
    assert!(arc_established_at_or_before(&vec![], &at(1, 1, None)));
}

#[test]
fn every_restore_table_is_cleared_before_it_is_rewritten() {
    let tables = branch_restore_tables();
    assert_eq!(tables.len(), 39);
    assert!(tables.iter().all(|t| restore_scope(t).is_some()));
    assert_eq!(restore_scope("relates_to"), Some(RestoreScope::BranchOnly));
    assert_eq!(restore_scope("scene_source_link"), Some(RestoreScope::SceneChildren));
    assert_eq!(restore_scope("character_voice_profile"), Some(RestoreScope::CharacterChildren));
    assert_eq!(restore_scope("scene"), Some(RestoreScope::ProjectBranch));
    assert_eq!(restore_scope("save_point"), None);
    assert_eq!(tables[0], "revision_marker");
    assert_eq!(tables[38], "knows");
}

#[test]
fn truncation_keeps_whole_characters() {
    assert_eq!(truncate_to_bytes("héllo", 2), "h");
    assert_eq!(truncate_to_bytes("héllo", 3), "hé");
    assert_eq!(truncate_to_bytes("héllo", 100), "héllo");
    assert_eq!(truncate_to_bytes("😀x", 3), "");
    assert_eq!(truncate_to_bytes("", 0), "");
}

#[test]
fn character_states_default_to_a_baseline() {
    let base = initial_state_columns(&None);
    assert!(base.goals.is_empty() && base.status.is_empty() && base.notes.is_empty());
    assert_eq!(base.source_summary.as_deref(), Some("baseline"));
    let given = initial_state_columns(&Some(CharacterStatePatch {
        goals: Some(vec!["escape".into()]),
        status: None,
        notes: None,
        source_summary: None,
    }));
    assert_eq!(given.goals, vec!["escape".to_string()]);
    assert!(given.status.is_empty());
    assert_eq!(given.source_summary, None);
}

#[test]
fn creating_a_relationship_keeps_an_existing_edge() {
    let kept = relationship_after_create(
        Some(RelatesTo { reason: Some("old debt".into()), ..relation(10, 5) }),
        "character:b".into(),
        "character:a".into(),
        "rival".into(),
        40,
        60,
        vec!["tense".into()],
        Timestamp { micros: 9 },
    );
    assert_eq!((kept.in_id.as_str(), kept.out_id.as_str()), ("character:a", "character:b"));
    assert_eq!(kept.reason.as_deref(), Some("old debt"));
    assert_eq!((kept.relationship_type.as_str(), kept.trust, kept.tension), ("rival", 40, 60));
    let fresh = relationship_after_create(None, "character:b".into(), "character:a".into(), "ally".into(), 1, 2, vec![], Timestamp { micros: 9 });
    assert_eq!((fresh.in_id.as_str(), fresh.out_id.as_str()), ("character:b", "character:a"));
    assert_eq!(fresh.reason, None);
    assert_eq!(fresh.updated_at.micros, 9);
}

#[test]
fn restore_plans_follow_the_restore_list() {
    let plan = restore_plan(&vec!["scene".to_string(), "save_point".to_string()]);
    assert_eq!(plan.len(), 39);
    let scene = plan.iter().find(|s| s.table == "scene").unwrap();
    assert_eq!(scene.rows_from, Some(0));
    assert_eq!(scene.scope, Some(RestoreScope::ProjectBranch));
    assert!(plan.iter().all(|s| s.table != "save_point"));
    assert_eq!(plan.iter().filter(|s| s.rows_from.is_some()).count(), 1);
}
