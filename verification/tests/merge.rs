use spindle_adapters::merge::{plan_branch_merge, restamp_relationship, restamp_state, SceneMergeStep};
use spindle_adapters::records::{CharacterState, RelatesTo, Scene};
use spindle_adapters::row::Timestamp;

fn source_scene(id: &str, order: i32, text: &str, summary: &str) -> Scene {
    Scene {
        id: id.to_string(),
        branch_id: "bible_branch:other".to_string(),
        book_id: "book:1".to_string(),
        chapter_id: "chapter:1".to_string(),
        book_number: 1,
        chapter_number: 1,
        scene_order: order,
        full_text: text.to_string(),
        summary: summary.to_string(),
        content_rating: "general".to_string(),
        tone: None,
        draft_origin: None,
        updated_at: Timestamp { micros: 5 },
    }
}

#[test]
fn merge_plan_updates_existing_position_and_inserts_new_one() {
    let targets = vec![(1, 1, 1, "scene:main-111".to_string())];
    let sources = vec![
        source_scene("scene:main-111", 1, "source: wall held under siege.", "source 1.1.1"),
        source_scene("scene:source-only-1-1-2", 2, "source: candle gutters.", "source 1.1.2"),
    ];
    let plan = plan_branch_merge("bible_branch:main", &targets, &sources);
    assert_eq!(plan.len(), 2);
    match &plan[0] {
        SceneMergeStep::Update { id, content } => {
            assert_eq!(id, "scene:main-111");
            assert_eq!(content.full_text, "source: wall held under siege.");
            assert_eq!(content.summary, "source 1.1.1");
        }
        _ => panic!("expected an update of the target scene"),
    }
    match &plan[1] {
        SceneMergeStep::Insert { id, branch_id, book_id, chapter_id, book_number, chapter_number, scene_order, content } => {
            assert!(id.starts_with("scene:"));
            assert_ne!(id, "scene:source-only-1-1-2");
            assert_eq!(branch_id, "bible_branch:main");
            assert_eq!(book_id, "book:1");
            assert_eq!(chapter_id, "chapter:1");
            assert_eq!((*book_number, *chapter_number, *scene_order), (1, 1, 2));
            assert_eq!(content.full_text, "source: candle gutters.");
            assert_eq!(content.content_rating, "general");
        }
        _ => panic!("expected an insert at the new position"),
    }
}

#[test]
fn merge_plan_second_scene_at_new_position_overwrites_first_insert() {
    let targets: Vec<(i32, i32, i32, String)> = vec![(1, 1, 1, "scene:other-position".to_string())];
    let sources = vec![
        source_scene("scene:a", 3, "first", "a"),
        source_scene("scene:b", 3, "second", "b"),
    ];
    let plan = plan_branch_merge("bible_branch:main", &targets, &sources);
    assert_eq!(plan.len(), 2);
    let inserted = match &plan[0] {
        SceneMergeStep::Insert { id, .. } => id.clone(),
        _ => panic!("expected an insert"),
    };
    match &plan[1] {
        SceneMergeStep::Update { id, content } => {
            assert_eq!(id, &inserted);
            assert_eq!(content.full_text, "second");
        }
        _ => panic!("expected the second scene to overwrite the first"),
    }
}

#[test]
fn merge_plan_of_no_sources_is_empty() {
    let targets = vec![(1, 1, 1, "scene:x".to_string())];
    let plan = plan_branch_merge("bible_branch:main", &targets, &Vec::new());
    assert!(plan.is_empty());
}

#[test]
fn restamp_state_moves_state_to_target_branch() {
    let state = CharacterState {
        character_id: "character:mara".to_string(),
        scene_id: Some("scene:1".to_string()),
        book_number: 1,
        chapter_number: 1,
        scene_order: 2,
        emotional_state: Some("{}".to_string()),
        goals: vec!["hold the wall".to_string()],
        status: vec!["resolute".to_string()],
        notes: Vec::new(),
        source_summary: Some("source-snapshot".to_string()),
        created_at: Timestamp { micros: 1 },
    };
    let merged = restamp_state(&state, "bible_branch:main", Timestamp { micros: 99 });
    assert!(merged.id.starts_with("character_state:"));
    assert_eq!(merged.branch_id, "bible_branch:main");
    assert_eq!(merged.state.character_id, "character:mara");
    assert_eq!(merged.state.scene_order, 2);
    assert_eq!(merged.state.goals, vec!["hold the wall".to_string()]);
    assert_eq!(merged.state.status, vec!["resolute".to_string()]);
    assert_eq!(merged.state.source_summary.as_deref(), Some("source-snapshot"));
    assert_eq!(merged.state.created_at, Timestamp { micros: 99 });
}

#[test]
fn restamp_relationship_keeps_edge_and_stamps_now() {
    let rel = RelatesTo {
        in_id: "character:mara".to_string(),
        out_id: "character:aldric".to_string(),
        relationship_type: "rival".to_string(),
        trust: -2,
        tension: 7,
        dynamics: vec!["fraught".to_string()],
        reason: Some("the wall quarrel".to_string()),
        last_scene_id: None,
        updated_at: Timestamp { micros: 3 },
    };
    let merged = restamp_relationship(rel, "bible_branch:main", Timestamp { micros: 42 });
    assert_eq!(merged.branch_id, "bible_branch:main");
    assert_eq!(merged.edge.in_id, "character:mara");
    assert_eq!(merged.edge.out_id, "character:aldric");
    assert_eq!(merged.edge.relationship_type, "rival");
    assert_eq!((merged.edge.trust, merged.edge.tension), (-2, 7));
    assert_eq!(merged.edge.dynamics, vec!["fraught".to_string()]);
    assert_eq!(merged.edge.reason.as_deref(), Some("the wall quarrel"));
    assert_eq!(merged.edge.updated_at, Timestamp { micros: 42 });
}
