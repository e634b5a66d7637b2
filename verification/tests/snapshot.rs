use spindle_adapters::ids::SubjectTable;
use spindle_adapters::placement::StoryPlacement;
use spindle_adapters::records::{
    ArcMilestone, Book, CanonicalFact, Chapter, Character, CharacterArc, CharacterState,
    CharacterVoiceProfile, KnowledgeFact, Location, NarrativePromise, Project, ReaderContract,
    RelatesTo, Scene, WorldState,
};
use spindle_adapters::row::Timestamp;
use spindle_adapters::snapshot::{
    batch_active_arc_summaries, batch_character_state_summary, batch_relationship_summaries,
    batch_subject_display_name, batch_subject_link_summary, batch_voice_profile_summary,
    dedup_subject_pairs, find_by_id, placement_provenance, scene_label_text, scene_provenance,
    Provenance, SnapshotBatchContext, SnapshotError, Subject,
};
use spindle_adapters::subject_snapshot::assemble_subject_snapshot;
use spindle_adapters::subject_facts::{
    batch_knowledge_summaries, canonical_facts_matching, open_promises_matching,
    recent_appearances, subject_label,
};
use spindle_adapters::subject_kind::{batch_subject_kind, SubjectKindSpecific};

fn at(book: i32, chapter: i32, order: Option<i32>) -> StoryPlacement {
    StoryPlacement { book_number: book, chapter_number: chapter, scene_order: order, note: None }
}

fn character(id: &str, name: &str) -> Character {
    Character {
        id: id.to_string(),
        name: name.to_string(),
        role: "lead".to_string(),
        summary: format!("{name} summary"),
        realm: None,
        updated_at: Timestamp { micros: 5 },
    }
}

fn state(order: i32, chapter: i32, mood: &str) -> CharacterState {
    CharacterState {
        character_id: "character:mara".to_string(),
        scene_id: Some(format!("scene:{chapter}{order}")),
        book_number: 1,
        chapter_number: chapter,
        scene_order: order,
        emotional_state: Some(mood.to_string()),
        goals: vec!["escape".to_string()],
        status: vec![],
        notes: vec![],
        source_summary: None,
        created_at: Timestamp { micros: 1 },
    }
}

fn arc(id: &str, status: &str, milestones: Vec<(&str, Option<StoryPlacement>)>) -> CharacterArc {
    CharacterArc {
        id: id.to_string(),
        character_id: "character:mara".to_string(),
        arc_type: "redemption".to_string(),
        starting_state: "bitter".to_string(),
        ending_state: "open".to_string(),
        thematic_purpose: "forgiveness".to_string(),
        status: status.to_string(),
        progress_complete: false,
        milestones: milestones
            .into_iter()
            .map(|(l, p)| ArcMilestone { label: l.to_string(), placement: p })
            .collect(),
        updated_at: Timestamp { micros: 7 },
    }
}

fn batch() -> SnapshotBatchContext {
    SnapshotBatchContext {
        project: Project {
            id: "project:p".to_string(),
            name: "Skyfall".to_string(),
            project_type: "novel".to_string(),
            genre: "fantasy".to_string(),
            reader_contract: ReaderContract {
                promise: "wonder".to_string(),
                style_notes: vec!["lyrical".to_string()],
                boundaries: vec![],
            },
            active_branch_id: None,
            notes: None,
            min_scene_word_count: None,
            updated_at: Timestamp { micros: 3 },
        },
        books: vec![Book { id: "book:1".to_string(), book_number: 1, title: None }],
        chapters: vec![Chapter {
            id: "chapter:1".to_string(),
            book_id: "book:1".to_string(),
            book_number: 1,
            chapter_number: 4,
            title: None,
        }],
        world_rules: vec![],
        characters: vec![character("character:mara", "Mara"), character("character:ivo", "Ivo")],
        locations: vec![Location {
            id: "location:keep".to_string(),
            name: "The Keep".to_string(),
            kind: "fortress".to_string(),
            summary: "old".to_string(),
            realm: None,
            updated_at: Timestamp { micros: 2 },
        }],
        factions: vec![],
        religions: vec![],
        economies: vec![],
        plot_lines: vec![],
        conflicts: vec![],
        themes: vec![],
        motifs: vec![],
        overlays: vec![],
        promises: vec![],
        arcs: vec![
            arc("character_arc:a", "active", vec![("Denial", Some(at(1, 1, None))), ("Turn", Some(at(1, 5, None)))]),
            arc("character_arc:b", "abandoned", vec![]),
            arc("character_arc:c", "active", vec![("Late", Some(at(2, 1, None)))]),
        ],
        terms: vec![],
        relationships: vec![RelatesTo {
            in_id: "character:mara".to_string(),
            out_id: "character:ivo".to_string(),
            relationship_type: "rival".to_string(),
            trust: 20,
            tension: 70,
            dynamics: vec!["jealous".to_string(), "loyal".to_string()],
            reason: None,
            last_scene_id: Some("scene:s1".to_string()),
            updated_at: Timestamp { micros: 4 },
        }],
        events: vec![],
        scenes: vec![Scene {
            id: "scene:s1".to_string(),
            branch_id: "branch:main".to_string(),
            book_id: "book:1".to_string(),
            chapter_id: "chapter:1".to_string(),
            book_number: 1,
            chapter_number: 4,
            scene_order: 2,
            full_text: "text".to_string(),
            summary: "Mara returns".to_string(),
            content_rating: "teen".to_string(),
            tone: None,
            draft_origin: None,
            updated_at: Timestamp { micros: 6 },
        }],
        character_states: vec![state(1, 1, "calm"), state(3, 2, "afraid"), state(1, 9, "later")],
        voice_profiles: vec![CharacterVoiceProfile {
            character_id: "character:mara".to_string(),
            tone: Some("dry".to_string()),
            vocabulary: vec![],
            sentence_structure: None,
            tics: vec!["hm".to_string()],
            forbidden_words: vec![],
            example_lines: vec![],
            established_in_scene_id: None,
            created_at: Timestamp { micros: 1 },
            updated_at: None,
        }],
        world_states: vec![WorldState {
            location_id: "location:keep".to_string(),
            controlling_faction: Some("faction:crown".to_string()),
            status: Some("besieged".to_string()),
        }],
        knowledge_facts: vec![
            KnowledgeFact {
                id: "knowledge_fact:1".to_string(),
                character_id: "character:mara".to_string(),
                fact: "The key is forged".to_string(),
                source_summary: "overheard".to_string(),
                learned_at: Some(at(1, 2, None)),
                reader_visible: true,
                updated_at: Timestamp { micros: 8 },
            },
            KnowledgeFact {
                id: "knowledge_fact:2".to_string(),
                character_id: "character:ivo".to_string(),
                fact: "Mara lied".to_string(),
                source_summary: "letter".to_string(),
                learned_at: None,
                reader_visible: false,
                updated_at: Timestamp { micros: 8 },
            },
            KnowledgeFact {
                id: "knowledge_fact:3".to_string(),
                character_id: "character:mara".to_string(),
                fact: "Ivo is her brother".to_string(),
                source_summary: "always known".to_string(),
                learned_at: None,
                reader_visible: false,
                updated_at: Timestamp { micros: 9 },
            },
        ],
    }
}

fn mara() -> Subject {
    Subject { table: SubjectTable::Character, id: Some("character:mara".to_string()) }
}

#[test]
fn records_are_found_by_id() {
    let b = batch();
    assert_eq!(find_by_id(&b.characters, "character:ivo").ok(), Some(1));
    match find_by_id(&b.characters, "character:nobody") {
        Err(SnapshotError::RecordNotFound { id }) => assert_eq!(id, "character:nobody"),
        _ => panic!("expected not found"),
    }
}

#[test]
fn display_names_follow_the_table_prefix() {
    let b = batch();
    assert_eq!(batch_subject_display_name(&b, "character:mara").ok().as_deref(), Some("Mara"));
    assert_eq!(batch_subject_display_name(&b, "scene:s1").ok().as_deref(), Some("Scene 1.4.2"));
    assert_eq!(batch_subject_display_name(&b, "chapter:1").ok().as_deref(), Some("Chapter 4"));
    assert_eq!(batch_subject_display_name(&b, "book:1").ok().as_deref(), Some("Book 1"));
    assert_eq!(
        batch_subject_display_name(&b, "relationship:character:mara|character:ivo").ok().as_deref(),
        None
    );
    assert_eq!(
        batch_subject_display_name(&b, "character:mara|character:ivo").ok().as_deref(),
        None
    );
    assert!(batch_subject_display_name(&b, "character:ghost").is_err());
    assert!(batch_subject_display_name(&b, "widget:x").is_err());
    assert!(batch_subject_display_name(&b, "nocolon").is_err());
    assert_eq!(scene_label_text(2, 3, 4), "Scene 2.3.4");
}

#[test]
fn link_summaries_carry_table_and_name() {
    let b = batch();
    let link = batch_subject_link_summary(&b, "location:keep").ok().unwrap();
    assert!(matches!(link.table, SubjectTable::Location));
    assert_eq!(link.id, "location:keep");
    assert_eq!(link.display_name, "The Keep");
    assert!(batch_subject_link_summary(&b, "location:none").is_err());
}

#[test]
fn provenance_points_at_scene_or_chapter() {
    match scene_provenance("scene:x") {
        Provenance::Scene { scene_id } => assert_eq!(scene_id, "scene:x"),
        _ => panic!("expected a scene"),
    }
    match placement_provenance(&at(1, 2, Some(3))) {
        Provenance::Scene { scene_id } => assert_eq!(scene_id, "scene:1:2:3"),
        _ => panic!("expected a scene"),
    }
    match placement_provenance(&at(1, 2, None)) {
        Provenance::Chapter { chapter_id } => assert_eq!(chapter_id, "chapter:1:2"),
        _ => panic!("expected a chapter"),
    }
}

#[test]
fn relationship_summaries_name_the_counterpart() {
    let b = batch();
    let rels = batch_relationship_summaries(&b, &mara()).ok().unwrap();
    assert_eq!(rels.len(), 1);
    assert_eq!(rels[0].counterpart.as_deref(), Some("Ivo"));
    assert_eq!(rels[0].summary, "jealous, loyal");
    assert_eq!(rels[0].trust, Some(20));
    assert!(matches!(&rels[0].provenance, Provenance::Scene { scene_id } if scene_id == "scene:s1"));
    let ivo = Subject { table: SubjectTable::Character, id: Some("character:ivo".to_string()) };
    let rels = batch_relationship_summaries(&b, &ivo).ok().unwrap();
    assert_eq!(rels[0].counterpart.as_deref(), Some("Mara"));
    let place = Subject { table: SubjectTable::Location, id: Some("location:keep".to_string()) };
    assert_eq!(batch_relationship_summaries(&b, &place).ok().unwrap().len(), 0);
    let nameless = Subject { table: SubjectTable::Character, id: None };
    assert!(matches!(batch_relationship_summaries(&b, &nameless), Err(SnapshotError::SubjectIdMissing)));
}

#[test]
fn the_latest_state_at_or_before_the_placement_wins() {
    let b = batch();
    let s = batch_character_state_summary(&b, &mara(), &at(1, 5, None)).ok().unwrap().unwrap();
    assert_eq!(s.emotional_state.as_deref(), Some("afraid"));
    let s = batch_character_state_summary(&b, &mara(), &at(1, 1, Some(1))).ok().unwrap().unwrap();
    assert_eq!(s.emotional_state.as_deref(), Some("calm"));
    assert!(batch_character_state_summary(&b, &mara(), &at(0, 9, None)).ok().unwrap().is_none());
}

#[test]
fn voice_profiles_and_arcs() {
    let b = batch();
    let v = batch_voice_profile_summary(&b, &mara()).ok().unwrap().unwrap();
    assert_eq!(v.tone.as_deref(), Some("dry"));
    assert_eq!(v.tics, vec!["hm".to_string()]);
    assert_eq!(v.updated_at.as_deref(), Some("1970-01-01T00:00:00.000001+00:00"));
    let ivo = Subject { table: SubjectTable::Character, id: Some("character:ivo".to_string()) };
    assert!(batch_voice_profile_summary(&b, &ivo).ok().unwrap().is_none());
    let arcs = batch_active_arc_summaries(&b, &mara(), &at(1, 3, None)).ok().unwrap();
    assert_eq!(arcs.len(), 1);
    assert_eq!(arcs[0].summary, "forgiveness");
    assert_eq!(arcs[0].current_phase.as_deref(), Some("Denial"));
    let later = batch_active_arc_summaries(&b, &mara(), &at(2, 2, None)).ok().unwrap();
    assert_eq!(later.len(), 2);
    assert_eq!(later[0].current_phase.as_deref(), Some("Turn"));
    assert_eq!(later[1].current_phase.as_deref(), Some("Late"));
}

#[test]
fn subject_kinds_read_the_subject_row() {
    let b = batch();
    let project = Subject { table: SubjectTable::Project, id: None };
    let (name, kind, _) = batch_subject_kind(&b, &project, &at(1, 1, None)).ok().unwrap();
    assert_eq!(name, "Skyfall");
    match kind {
        SubjectKindSpecific::ProjectOverview { genre, reader_contract, .. } => {
            assert_eq!(genre, "fantasy");
            assert_eq!(reader_contract.promise, "wonder");
        }
        _ => panic!("expected the project overview"),
    }
    let keep = Subject { table: SubjectTable::Location, id: Some("location:keep".to_string()) };
    let (name, kind, _) = batch_subject_kind(&b, &keep, &at(1, 1, None)).ok().unwrap();
    assert_eq!(name, "The Keep");
    match kind {
        SubjectKindSpecific::Location { controlling_faction, status, .. } => {
            assert_eq!(controlling_faction.as_deref(), Some("faction:crown"));
            assert_eq!(status.as_deref(), Some("besieged"));
        }
        _ => panic!("expected a location"),
    }
    let (name, _, _) = batch_subject_kind(&b, &mara(), &at(1, 1, None)).ok().unwrap();
    assert_eq!(name, "Mara");
    let ghost = Subject { table: SubjectTable::Character, id: Some("character:ghost".to_string()) };
    assert!(batch_subject_kind(&b, &ghost, &at(1, 1, None)).is_err());
    let nameless = Subject { table: SubjectTable::Location, id: None };
    assert!(matches!(batch_subject_kind(&b, &nameless, &at(1, 1, None)), Err(SnapshotError::SubjectIdMissing)));
}

#[test]
fn knowledge_is_shown_once_learned() {
    let b = batch();
    let early = batch_knowledge_summaries(&b, &mara(), &at(1, 1, None)).ok().unwrap();
    assert_eq!(early.len(), 1);
    assert_eq!(early[0].fact, "Ivo is her brother");
    assert_eq!(early[0].scope.as_deref(), Some("private"));
    assert_eq!(early[0].fact_index, 2);
    let later = batch_knowledge_summaries(&b, &mara(), &at(1, 3, Some(1))).ok().unwrap();
    assert_eq!(later.len(), 2);
    assert_eq!(later[0].scope.as_deref(), Some("reader_visible"));
    assert_eq!(later[0].source.as_deref(), Some("overheard"));
    let place = Subject { table: SubjectTable::Location, id: Some("location:keep".to_string()) };
    assert!(batch_knowledge_summaries(&b, &place, &at(9, 9, None)).ok().unwrap().is_empty());
}

#[test]
fn subjects_are_matched_under_their_label() {
    let b = batch();
    let whole = Subject { table: SubjectTable::Project, id: None };
    assert_eq!(subject_label(&b, &whole).ok().as_deref(), Some("Skyfall"));
    assert_eq!(subject_label(&b, &mara()).ok().as_deref(), Some("Mara"));
    let nameless = Subject { table: SubjectTable::Character, id: None };
    assert!(matches!(subject_label(&b, &nameless), Err(SnapshotError::SubjectIdMissing)));
}

fn promise(description: &str, status: &str, planted: StoryPlacement) -> NarrativePromise {
    NarrativePromise {
        id: "narrative_promise:x".to_string(),
        promise_type: "mystery".to_string(),
        description: description.to_string(),
        status: status.to_string(),
        planted_at: planted,
        planned_payoff: Some(at(3, 1, None)),
    }
}

#[test]
fn open_promises_mention_the_subject() {
    let promises = vec![
        promise("Who forged Mara's key", "open", at(1, 1, Some(2))),
        promise("Mara's debt", "paid_off", at(1, 1, None)),
        promise("Mara returns home", "open", at(2, 1, None)),
        promise("The siege ends", "open", at(1, 1, None)),
    ];
    let normalized: Vec<String> = promises.iter().map(|p| p.description.to_lowercase()).collect();
    let open = open_promises_matching(&promises, &normalized, "mara", &at(1, 5, None));
    assert_eq!(open.len(), 1);
    assert_eq!(open[0].description, "Who forged Mara's key");
    assert!(matches!(&open[0].provenance, Provenance::Scene { scene_id } if scene_id == "scene:1:1:2"));
    let everything = open_promises_matching(&promises, &normalized, "", &at(9, 9, None));
    assert_eq!(everything.len(), 3);
}

#[test]
fn recent_appearances_are_latest_first() {
    let mut scenes = Vec::new();
    for order in 1..=8 {
        scenes.push(Scene {
            id: format!("scene:{order}"),
            branch_id: "branch:main".to_string(),
            book_id: "book:1".to_string(),
            chapter_id: "chapter:1".to_string(),
            book_number: 1,
            chapter_number: 4,
            scene_order: order,
            full_text: "text".to_string(),
            summary: format!("Mara scene {order}"),
            content_rating: "General".to_string(),
            tone: None,
            draft_origin: None,
            updated_at: Timestamp { micros: 6 },
        });
    }
    scenes[7].summary = "Nobody".to_string();
    let normalized: Vec<String> = scenes.iter().map(|s| format!("{} {}", s.summary, s.full_text).to_lowercase()).collect();
    let seen = recent_appearances(&scenes, &normalized, "mara", &at(1, 4, None));
    let orders: Vec<i32> = seen.iter().map(|a| a.placement.as_ref().unwrap().scene_order.unwrap()).collect();
    assert_eq!(orders, vec![7, 6, 5, 4, 3]);
    assert_eq!(seen[0].summary.as_deref(), Some("Mara scene 7"));
    let early = recent_appearances(&scenes, &normalized, "mara", &at(1, 4, Some(2)));
    assert_eq!(early.len(), 2);
}

#[test]
fn canonical_facts_hold_over_their_span() {
    let fact = |id: &str, predicate: &str, book: i32, until: Option<StoryPlacement>| CanonicalFact {
        id: id.to_string(),
        scene_id: "scene:s1".to_string(),
        predicate: predicate.to_string(),
        book_number: book,
        chapter_number: 1,
        valid_from: None,
        valid_until: until,
    };
    let facts = vec![
        fact("canonical_fact:1", "Mara's age", 1, None),
        fact("canonical_fact:2", "Mara's rank", 1, Some(at(1, 2, None))),
        fact("canonical_fact:3", "Ivo's age", 1, None),
        fact("canonical_fact:4", "Mara's title", 2, None),
    ];
    let values = vec![Some("17".to_string()), None, Some("19".to_string()), Some("Queen".to_string())];
    let fields: Vec<Vec<String>> = facts.iter().map(|f| vec![f.predicate.to_lowercase()]).collect();
    let shown = canonical_facts_matching(&facts, &values, &fields, "mara", &at(1, 3, None));
    let texts: Vec<&str> = shown.iter().map(|s| s.fact.as_str()).collect();
    assert_eq!(texts, vec!["Mara's age: 17"]);
    let early = canonical_facts_matching(&facts, &values, &fields, "mara", &at(1, 1, None));
    let texts: Vec<&str> = early.iter().map(|s| s.fact.as_str()).collect();
    assert_eq!(texts, vec!["Mara's age: 17", "Mara's rank: <unset>"]);
}

#[test]
fn subject_pairs_keep_first_occurrences_and_skip_project_wide() {
    let subjects = vec![
        mara(),
        Subject { table: SubjectTable::Project, id: None },
        Subject { table: SubjectTable::Location, id: Some("location:keep".to_string()) },
        mara(),
        Subject { table: SubjectTable::Faction, id: Some("character:mara".to_string()) },
        Subject { table: SubjectTable::Location, id: Some("location:keep".to_string()) },
    ];
    let pairs = dedup_subject_pairs(&subjects);
    assert_eq!(
        pairs,
        vec![
            (SubjectTable::Character, "character:mara".to_string()),
            (SubjectTable::Location, "location:keep".to_string()),
            (SubjectTable::Faction, "character:mara".to_string()),
        ]
    );
    assert!(dedup_subject_pairs(&vec![Subject { table: SubjectTable::Project, id: None }]).is_empty());
}

#[test]
fn assembled_character_snapshot_gathers_every_part() {
    let b = batch();
    let texts = vec!["mara returns text".to_string()];
    let parts = assemble_subject_snapshot(
        &b,
        &mara(),
        &at(1, 4, Some(5)),
        &vec![],
        &vec![],
        &vec![],
        "mara",
        &vec![],
        "mara",
        &texts,
    )
    .unwrap();
    assert_eq!(parts.display_name, "Mara");
    assert!(matches!(parts.kind_specific, SubjectKindSpecific::Character { .. }));
    assert_eq!(parts.knowledge.len(), 2);
    assert_eq!(parts.relationships.len(), 1);
    assert_eq!(parts.relationships[0].counterpart.as_deref(), Some("Ivo"));
    assert_eq!(parts.active_arcs.len(), 1);
    assert_eq!(parts.recent_appearances.len(), 1);
    assert_eq!(parts.recent_appearances[0].scene_id, "scene:s1");
    assert!(parts.voice_profile.is_some());
    assert_eq!(parts.current_state.unwrap().emotional_state.as_deref(), Some("afraid"));
    assert!(parts.canonical_facts.is_empty());
    assert!(parts.open_promises.is_empty());
}

#[test]
fn assembled_snapshot_refuses_missing_subjects() {
    let b = batch();
    let texts = vec!["text".to_string()];
    let missing_id = Subject { table: SubjectTable::Character, id: None };
    let r = assemble_subject_snapshot(&b, &missing_id, &at(1, 1, None), &vec![], &vec![], &vec![], "x", &vec![], "x", &texts);
    assert!(matches!(r, Err(SnapshotError::SubjectIdMissing)));
    let project = Subject { table: SubjectTable::Project, id: None };
    let r = assemble_subject_snapshot(&b, &project, &at(1, 1, None), &vec![], &vec![], &vec![], "skyfall", &vec![], "skyfall", &texts)
        .unwrap();
    assert_eq!(r.display_name, "Skyfall");
    assert!(r.relationships.is_empty());
    assert!(r.current_state.is_none());
}
