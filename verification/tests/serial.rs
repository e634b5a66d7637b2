use spindle_adapters::digest::sha256_hex;
use spindle_adapters::records::{Chapter, Scene};
use spindle_adapters::row::Timestamp;
use spindle_adapters::serial::{
    apply_editorial_decision, chapter_rating, check_decision_note, compose_prior_notes,
    concern_dedupe_key, editorial_queue_output, editorial_queue_page, editorial_threads,
    effective_min_scene_words, episode_blocking_issues, episode_markdown, episode_snapshot,
    episode_title, hash_at, latest_queue_position, listing_limit, memory_store_allowed,
    next_chapters_read, plan_reading, completed_reading_record, persistence_outcome,
    unfinished_reading_note, Persistence, episode_preview_draft, PreviewError, position_key, reader_question_candidates, reading_rating,
    release_episode, select_prior_memory, serial_rating_rank, series_status, stage_reader_concerns,
    take_page, unread_prior_chapters, valid_episode_placement, valid_reader_cursor, ChapterHash,
    EditorialDecision, EditorialError, EditorialItem, EditorialStatus, EpisodeRelease,
    EpisodeReleasePreview, EpisodeSnapshot, EpisodeState, MemoryCandidate, ReadError,
    ReaderConcern, ReaderMemoryRecord, ReaderOutcome, ReadingStep, ReleaseEpisodeInput,
    ReleaseError, ReleaseSummary, SeriesError,
};

fn item(id: &str, book: i32, chapter: i32, status: EditorialStatus, revision: u32) -> EditorialItem {
    EditorialItem {
        id: id.to_string(),
        project_id: "project:p".to_string(),
        branch_id: "branch:main".to_string(),
        book_number: book,
        chapter_number: chapter,
        source_hash: format!("h{book}{chapter}"),
        reader_memory_id: "reader_memory:m".to_string(),
        scene_ids: vec!["scene:a".to_string()],
        severity: "minor".to_string(),
        description: format!("concern {id}"),
        status,
        revision,
        decisions: vec![],
    }
}

fn hashes(list: &[(i32, i32, &str)]) -> Vec<ChapterHash> {
    list.iter()
        .map(|(b, c, h)| ChapterHash { book_number: *b, chapter_number: *c, hash: h.to_string() })
        .collect()
}

fn scene(id: &str, order: i32, text: &str, rating: &str) -> Scene {
    Scene {
        id: id.to_string(),
        branch_id: "branch:main".to_string(),
        book_id: "book:1".to_string(),
        chapter_id: "chapter:1".to_string(),
        book_number: 1,
        chapter_number: 1,
        scene_order: order,
        full_text: text.to_string(),
        summary: String::new(),
        content_rating: rating.to_string(),
        tone: None,
        draft_origin: None,
        updated_at: Timestamp { micros: 0 },
    }
}

fn chapter(title: Option<&str>) -> Chapter {
    Chapter {
        id: "chapter:1".to_string(),
        book_id: "book:1".to_string(),
        book_number: 1,
        chapter_number: 1,
        title: title.map(|t| t.to_string()),
    }
}

fn snapshot() -> EpisodeSnapshot {
    EpisodeSnapshot {
        project_id: "project:p".to_string(),
        branch_id: "branch:main".to_string(),
        book_number: 1,
        chapter_number: 1,
        markdown: "# One\n".to_string(),
        title: "One".to_string(),
        word_count: 1,
        scenes: vec![],
    }
}

fn preview(hash: &str, issues: Vec<String>, previous: Option<&str>) -> EpisodeReleasePreview {
    EpisodeReleasePreview {
        snapshot: snapshot(),
        source_hash: hash.to_string(),
        blocking_issues: issues,
        previous_release_id: previous.map(|p| p.to_string()),
    }
}

fn release_input(hash: &str, previous: Option<&str>) -> ReleaseEpisodeInput {
    ReleaseEpisodeInput {
        project_id: "project:p".to_string(),
        book_number: 1,
        chapter_number: 1,
        expected_source_hash: hash.to_string(),
        previous_release_id: previous.map(|p| p.to_string()),
        note: None,
    }
}

fn state(book: i32, chapter: i32, words: usize, issues: usize, release: Option<(&str, &str)>) -> EpisodeState {
    EpisodeState {
        book_number: book,
        chapter_number: chapter,
        title: format!("Chapter {chapter}"),
        word_count: words,
        blocking_issues: (0..issues).map(|i| format!("issue {i}")).collect(),
        source_hash: "current".to_string(),
        release: release.map(|(id, h)| ReleaseSummary { id: id.to_string(), revision: 1, source_hash: h.to_string() }),
    }
}

fn memory(book: i32, chapter: i32, read: &[&str], questions: &[&str], concerns: &[(&str, &str)]) -> ReaderMemoryRecord {
    ReaderMemoryRecord {
        id: "reader_memory:m1".to_string(),
        project_id: "project:p".to_string(),
        branch_id: "branch:main".to_string(),
        book_number: book,
        chapter_number: chapter,
        source_hash: "h".to_string(),
        chapters_read: read.iter().map(|s| s.to_string()).collect(),
        open_questions: questions.iter().map(|s| s.to_string()).collect(),
        rating: "teen".to_string(),
        outcome: ReaderOutcome {
            status: "read".to_string(),
            notes: "Earlier notes".to_string(),
            open_questions: None,
            concerns: concerns
                .iter()
                .map(|(s, d)| ReaderConcern { severity: s.to_string(), description: d.to_string() })
                .collect(),
        },
    }
}

#[test]
fn rating_ranks_ignore_case() {
    assert_eq!(serial_rating_rank("General"), 0);
    assert_eq!(serial_rating_rank("TEEN"), 1);
    assert_eq!(serial_rating_rank("mature"), 2);
    assert_eq!(serial_rating_rank("explicit"), 3);
    let ratings = vec!["teen".to_string(), "general".to_string(), "Mature".to_string(), "mature".to_string()];
    assert_eq!(chapter_rating(&ratings), "Mature");
    assert_eq!(chapter_rating(&vec![]), "general");
    assert_eq!(reading_rating(&"teen".to_string(), &Some("Teen".to_string())), "Teen");
    assert_eq!(reading_rating(&"mature".to_string(), &Some("teen".to_string())), "mature");
    assert_eq!(reading_rating(&"teen".to_string(), &None), "teen");
}

#[test]
fn decision_notes_are_checked() {
    assert!(matches!(check_decision_note(EditorialStatus::Accepted, "  "), Err(EditorialError::NoteRequired)));
    assert!(matches!(check_decision_note(EditorialStatus::Resolved, ""), Err(EditorialError::NoteRequired)));
    assert!(check_decision_note(EditorialStatus::Dismissed, "").is_ok());
    let long = "x".repeat(4001);
    assert!(matches!(check_decision_note(EditorialStatus::Dismissed, &long), Err(EditorialError::NoteTooLong)));
    assert!(check_decision_note(EditorialStatus::Accepted, &"x".repeat(4000)).is_ok());
}

#[test]
fn editorial_decisions_record_and_bump_revision() {
    let it = item("editorial_item:a", 1, 1, EditorialStatus::Open, 0);
    let out = apply_editorial_decision(
        it,
        0,
        Some("h11".to_string()),
        EditorialStatus::Accepted,
        "  fix the ending  ",
        &Some("h11".to_string()),
        "2024-01-01T00:00:00+00:00".to_string(),
    )
    .ok()
    .unwrap();
    assert_eq!(out.status, EditorialStatus::Accepted);
    assert_eq!(out.revision, 1);
    assert_eq!(out.decisions.len(), 1);
    assert_eq!(out.decisions[0].note, "fix the ending");
    // Replaying the same decision on the new revision is refused.
    let again = apply_editorial_decision(
        out,
        0,
        Some("h11".to_string()),
        EditorialStatus::Accepted,
        "fix the ending",
        &Some("h11".to_string()),
        "later".to_string(),
    );
    assert!(matches!(again, Err(EditorialError::StaleRevision)));
}

#[test]
fn editorial_decisions_need_the_current_text() {
    let changed = apply_editorial_decision(
        item("editorial_item:a", 1, 1, EditorialStatus::Open, 0),
        0,
        Some("old".to_string()),
        EditorialStatus::Dismissed,
        "",
        &Some("new".to_string()),
        "t".to_string(),
    );
    assert!(matches!(changed, Err(EditorialError::SourceChanged)));
    let removed = apply_editorial_decision(
        item("editorial_item:a", 1, 1, EditorialStatus::Open, 0),
        0,
        None,
        EditorialStatus::Accepted,
        "keep",
        &None,
        "t".to_string(),
    );
    assert!(matches!(removed, Err(EditorialError::SourceRemoved)));
    let dismissed = apply_editorial_decision(
        item("editorial_item:a", 1, 1, EditorialStatus::Open, 0),
        0,
        None,
        EditorialStatus::Dismissed,
        "",
        &None,
        "t".to_string(),
    );
    assert!(dismissed.is_ok());
    let overflow = apply_editorial_decision(
        item("editorial_item:a", 1, 1, EditorialStatus::Open, u32::MAX),
        u32::MAX,
        None,
        EditorialStatus::Dismissed,
        "",
        &None,
        "t".to_string(),
    );
    assert!(matches!(overflow, Err(EditorialError::RevisionOverflow)));
}

#[test]
fn editorial_queue_pages_filter_and_clamp() {
    let items = vec![
        item("a", 1, 1, EditorialStatus::Open, 0),
        item("b", 1, 2, EditorialStatus::Dismissed, 1),
        item("c", 1, 3, EditorialStatus::Accepted, 1),
        item("d", 2, 1, EditorialStatus::Open, 0),
    ];
    // Without a filter, dismissed and resolved items are hidden.
    let page = editorial_queue_page(items, None, Some(0), Some(2));
    assert_eq!(page.total, 3);
    assert_eq!(page.items.iter().map(|i| i.id.as_str()).collect::<Vec<_>>(), vec!["a", "c"]);
    assert_eq!(page.next_offset, Some(2));
    assert_eq!(latest_queue_position(&page.items), Some((1, 3)));
    let out = editorial_queue_output(page, &hashes(&[(1, 1, "h11"), (1, 3, "changed")]));
    assert!(!out.items[0].source_changed);
    assert!(out.items[1].source_changed);
    assert_eq!(out.items[1].current_source_hash.as_deref(), Some("changed"));

    let dismissed = editorial_queue_page(
        vec![item("b", 1, 2, EditorialStatus::Dismissed, 1)],
        Some(EditorialStatus::Dismissed),
        None,
        Some(0),
    );
    assert_eq!(dismissed.total, 1);
    assert_eq!(dismissed.items.len(), 1);
    assert_eq!(dismissed.next_offset, None);
    assert_eq!(latest_queue_position(&vec![]), None);
}

#[test]
fn chapter_hashes_are_looked_up_by_position() {
    let hs = hashes(&[(1, 1, "a"), (1, 2, "b"), (1, 2, "shadowed")]);
    assert_eq!(hash_at(&hs, 1, 2).as_deref(), Some("b"));
    assert_eq!(hash_at(&hs, 2, 1), None);
}

#[test]
fn releases_retry_and_count_revisions() {
    let first = release_episode(
        preview("h1", vec![], None),
        release_input("h1", None),
        None,
        "episode_release:one".to_string(),
        "t1".to_string(),
    )
    .ok()
    .unwrap();
    assert_eq!(first.revision, 1);
    assert_eq!(first.id, "episode_release:one");
    let prev = EpisodeRelease {
        id: first.id.clone(),
        revision: first.revision,
        source_hash: first.source_hash.clone(),
        previous_release_id: None,
        released_at: "t1".to_string(),
        note: None,
        snapshot: snapshot(),
    };
    // A retry for the same text returns the release already recorded.
    let retry = release_episode(
        preview("h1", vec![], Some("episode_release:one")),
        release_input("h1", None),
        Some(prev),
        "episode_release:other".to_string(),
        "t2".to_string(),
    )
    .ok()
    .unwrap();
    assert_eq!(retry.id, "episode_release:one");
    assert_eq!(retry.revision, 1);
    let prev = EpisodeRelease {
        id: "episode_release:one".to_string(),
        revision: 1,
        source_hash: "h1".to_string(),
        previous_release_id: None,
        released_at: "t1".to_string(),
        note: None,
        snapshot: snapshot(),
    };
    let second = release_episode(
        preview("h2", vec![], Some("episode_release:one")),
        release_input("h2", Some("episode_release:one")),
        Some(prev),
        "episode_release:two".to_string(),
        "t2".to_string(),
    )
    .ok()
    .unwrap();
    assert_eq!(second.revision, 2);
    assert_eq!(second.previous_release_id.as_deref(), Some("episode_release:one"));
}

#[test]
fn releases_are_refused_when_not_ready_or_stale() {
    match release_episode(
        preview("h1", vec!["Scene 2 is not drafted".to_string(), "No drafted scenes".to_string()], None),
        release_input("h1", None),
        None,
        "x".to_string(),
        "t".to_string(),
    ) {
        Err(ReleaseError::NotReady { issues }) => assert_eq!(issues, "Scene 2 is not drafted; No drafted scenes"),
        _ => panic!("expected not ready"),
    }
    assert!(matches!(
        release_episode(preview("h2", vec![], None), release_input("h1", None), None, "x".into(), "t".into()),
        Err(ReleaseError::ChangedSincePreview)
    ));
    assert!(matches!(
        release_episode(preview("h2", vec![], Some("r0")), release_input("h2", None), None, "x".into(), "t".into()),
        Err(ReleaseError::HistoryChanged)
    ));
}

#[test]
fn episode_checks_and_titles() {
    assert!(valid_episode_placement(1, 0, 1000));
    assert!(!valid_episode_placement(0, 1, 1000));
    assert!(!valid_episode_placement(1, 1000, 1000));
    assert_eq!(effective_min_scene_words(Some(250), 100), 250);
    assert_eq!(effective_min_scene_words(Some(0), 100), 100);
    assert_eq!(effective_min_scene_words(Some(-5), 100), 100);
    assert_eq!(effective_min_scene_words(None, 100), 100);
    assert_eq!(episode_title(&Some("The Bridge".to_string()), 3), "The Bridge");
    assert_eq!(episode_title(&Some("  ".to_string()), 3), "Chapter 3");
    assert_eq!(episode_title(&None, 12), "Chapter 12");
}

#[test]
fn blocking_issues_list_missing_and_stub_scenes() {
    let mut wrong = scene("scene:c", 3, "text", "general");
    wrong.chapter_id = "chapter:other".to_string();
    let scenes = vec![scene("scene:a", 1, "text", "general"), wrong];
    let stubs = vec![None, Some("only 2 words".to_string())];
    let issues = episode_blocking_issues(&scenes, &stubs, &Some(vec![1, 2, 3]), &chapter(None));
    assert_eq!(
        issues,
        vec![
            "Scene 2 is not drafted".to_string(),
            "Scene 3 has an inconsistent chapter reference".to_string(),
            "Scene 3: only 2 words".to_string(),
        ]
    );
    let none = episode_blocking_issues(&vec![], &vec![], &None, &chapter(None));
    assert_eq!(
        none,
        vec![
            "No drafted scenes".to_string(),
            "No scene plan; plan the episode before releasing it".to_string(),
        ]
    );
}

#[test]
fn episode_snapshots_join_scenes() {
    let scenes = vec![scene("scene:a", 1, "One two.", "general"), scene("scene:b", 2, "Three.", "teen")];
    assert_eq!(episode_markdown("T", &scenes), "# T\n\nOne two.\n\n***\n\nThree.\n");
    let snap = episode_snapshot("project:p".into(), "branch:main".into(), 1, &chapter(Some("T")), &scenes);
    assert_eq!(snap.title, "T");
    assert_eq!(snap.word_count, 3);
    assert_eq!(snap.markdown, "# T\n\nOne two.\n\n***\n\nThree.\n");
    assert_eq!(snap.scenes.len(), 2);
    assert_eq!(snap.scenes[1].text_sha256, sha256_hex("Three."));
    assert_eq!(snap.scenes[1].content_rating, "teen");
}

#[test]
fn series_status_stops_at_the_first_unreleased_chapter() {
    let chapters = vec![
        state(1, 1, 100, 0, Some(("r1", "current"))),
        state(1, 2, 50, 1, None),
        state(1, 3, 80, 0, Some(("r3", "old"))),
        state(2, 1, 0, 0, None),
    ];
    let out = series_status("project:p".into(), "branch:main".into(), chapters, None, None, None).ok().unwrap();
    let through = out.published_through.unwrap();
    assert_eq!((through.book_number, through.chapter_number), (1, 1));
    assert_eq!(out.released_episodes, 2);
    assert_eq!(out.draft_backlog, 1);
    assert_eq!(out.ready_backlog, 1);
    assert_eq!(out.episodes.len(), 4);
    assert!(!out.episodes[1].ready);
    assert!(out.episodes[2].changed_since_release);
    assert_eq!(out.episodes[2].latest_release_id.as_deref(), Some("r3"));
    assert_eq!(out.next_offset, None);

    let book2 = series_status("p".into(), "b".into(), vec![state(1, 1, 1, 0, None), state(2, 1, 1, 0, None)], Some(2), Some(0), Some(1)).ok().unwrap();
    assert_eq!(book2.episodes.len(), 1);
    assert_eq!(book2.episodes[0].book_number, 2);
    assert!(book2.published_through.is_none());
    assert!(matches!(
        series_status("p".into(), "b".into(), vec![], None, None, Some(201)),
        Err(SeriesError::LimitOutOfRange)
    ));
}

#[test]
fn listing_limits_and_pages() {
    assert_eq!(listing_limit(None).ok(), Some(50));
    assert_eq!(listing_limit(Some(200)).ok(), Some(200));
    assert!(matches!(listing_limit(Some(0)), Err(SeriesError::LimitOutOfRange)));
    assert_eq!(take_page(vec![1, 2, 3, 4, 5], 1, 2), vec![2, 3]);
    assert_eq!(take_page(vec![1, 2, 3], 5, 2), Vec::<i32>::new());
}

#[test]
fn prior_memory_skips_stale_readings() {
    let hs = hashes(&[(1, 1, "a"), (1, 2, "b"), (1, 3, "c")]);
    let records = vec![
        MemoryCandidate { id: "m3".into(), book_number: 1, chapter_number: 3, source_hash: "old".into() },
        MemoryCandidate { id: "m2".into(), book_number: 1, chapter_number: 2, source_hash: "b".into() },
        MemoryCandidate { id: "m1".into(), book_number: 1, chapter_number: 1, source_hash: "a".into() },
    ];
    let sel = select_prior_memory(&records, &hs, 1, 3, false);
    assert_eq!(sel.prior, Some(1));
    assert_eq!(sel.stale_records, 1);
    let forced = select_prior_memory(&records, &hs, 1, 2, true);
    assert_eq!(forced.prior, Some(2));
    assert!(valid_reader_cursor(1, 0));
    assert!(!valid_reader_cursor(0, 1));
    assert!(!valid_reader_cursor(1, -1));
}

#[test]
fn reading_plans_resume_or_reuse_memory() {
    let hs = hashes(&[(1, 1, "a"), (1, 2, "b"), (1, 3, "c")]);
    assert_eq!(position_key(1, 2), "1:2");
    let unread = unread_prior_chapters(&hs, 1, 3, &Some(vec!["1:1".to_string()]));
    assert_eq!(unread, vec!["1:2".to_string()]);
    let prior = memory(1, 1, &["1:1"], &["Who is Mara?"], &[]);
    let (trace, step) = plan_reading(&hs, 1, 3, Some(&prior), 2, &"general".to_string()).ok().unwrap();
    assert_eq!(trace.source_hash, "c");
    assert_eq!(trace.loaded_memory_id.as_deref(), Some("reader_memory:m1"));
    assert_eq!(trace.stale_records_ignored, 2);
    assert_eq!(trace.unread_prior_chapters, vec!["1:2".to_string()]);
    assert!(!trace.cached);
    match step {
        ReadingStep::Read { prior_notes, rating } => {
            assert_eq!(
                prior_notes,
                "Earlier notes\nOpen reader questions:\nWho is Mara?\n1 earlier chapters have not been reviewed. Treat their events as unknown; do not fill gaps by invention."
            );
            assert_eq!(rating, "teen");
        }
        ReadingStep::Cached => panic!("expected a fresh reading"),
    }
    let same = memory(1, 3, &["1:1", "1:2", "1:3"], &[], &[]);
    let (trace, step) = plan_reading(&hs, 1, 3, Some(&same), 0, &"general".to_string()).ok().unwrap();
    assert!(trace.cached);
    assert_eq!(trace.stored_memory_id.as_deref(), Some("reader_memory:m1"));
    assert!(matches!(step, ReadingStep::Cached));
    assert!(matches!(
        plan_reading(&hs, 2, 1, None, 0, &"general".to_string()),
        Err(ReadError::CursorMissing)
    ));
}

#[test]
fn prior_notes_and_questions() {
    assert_eq!(compose_prior_notes(None, 0), "");
    let qs = vec!["q1".to_string(), "q2".to_string()];
    assert_eq!(compose_prior_notes(Some((&"n".to_string(), &qs)), 0), "n\nOpen reader questions:\nq1\nq2");
    let model = Some(vec!["  ".to_string(), "kept".to_string()]);
    assert_eq!(reader_question_candidates(&model, &Some(qs.clone())), vec!["kept".to_string()]);
    assert_eq!(reader_question_candidates(&None, &Some(qs.clone())), qs);
    let many: Vec<String> = (0..20).map(|i| format!("q{i}")).collect();
    assert_eq!(reader_question_candidates(&Some(many), &None).len(), 12);
    assert!(memory_store_allowed(&Some("h".into()), &"h".into(), &None, &None));
    assert!(!memory_store_allowed(&Some("h".into()), &"h".into(), &Some("m".into()), &None));
    assert!(!memory_store_allowed(&None, &"h".into(), &None, &None));
}

#[test]
fn chapters_read_grow_by_the_chapter_just_read() {
    let prior = memory(1, 1, &["1:1"], &[], &[]);
    assert_eq!(next_chapters_read(Some(&prior), 1, 2), vec!["1:1".to_string(), "1:2".to_string()]);
    assert_eq!(next_chapters_read(None, 2, 0), vec!["2:0".to_string()]);
}

#[test]
fn reader_concerns_become_open_items() {
    let mem = memory(1, 2, &[], &[], &[("major", "  Pacing drags  "), ("minor", "   "), ("minor", "Typo")]);
    let scenes = vec!["scene:a".to_string(), "scene:b".to_string()];
    let staged = stage_reader_concerns(&mem, &scenes);
    assert_eq!(staged.len(), 2);
    let first = &staged[0].item;
    assert!(first.id.starts_with("editorial_item:"));
    assert_eq!(first.description, "Pacing drags");
    assert_eq!(first.severity, "major");
    assert_eq!(first.status, EditorialStatus::Open);
    assert_eq!(first.revision, 0);
    assert_eq!(first.scene_ids, scenes);
    assert_eq!(first.reader_memory_id, "reader_memory:m1");
    assert_eq!(
        staged[0].dedupe_key,
        sha256_hex("[\"project:p\",\"branch:main\",1,2,\"h\",\"Pacing drags\"]")
    );
    assert_eq!(staged[0].dedupe_key, concern_dedupe_key(&mem, "Pacing drags"));
    assert_ne!(staged[0].dedupe_key, staged[1].dedupe_key);
    let lots: Vec<(String, String)> = (0..25).map(|i| ("minor".to_string(), format!("c{i}"))).collect();
    let refs: Vec<(&str, &str)> = lots.iter().map(|(a, b)| (a.as_str(), b.as_str())).collect();
    assert_eq!(stage_reader_concerns(&memory(1, 2, &[], &[], &refs), &vec![]).len(), 20);
}

#[test]
fn accepted_requests_become_threads_newest_first() {
    let mut a = item("editorial_item:a", 1, 1, EditorialStatus::Accepted, 1);
    a.decisions.push(EditorialDecision {
        status: EditorialStatus::Accepted,
        note: "Make the duel shorter".to_string(),
        reviewed_source_hash: None,
        recorded_at: "t".to_string(),
    });
    let items = vec![
        a,
        item("editorial_item:b", 1, 5, EditorialStatus::Accepted, 1),
        item("editorial_item:c", 1, 2, EditorialStatus::Open, 0),
        item("editorial_item:d", 1, 3, EditorialStatus::Accepted, 1),
    ];
    let threads = editorial_threads(&items, 1, 3);
    assert_eq!(threads.len(), 2);
    assert_eq!(threads[0].id, "editorial_item:d");
    assert_eq!(threads[0].name, "Revision request from book 1 chapter 3");
    assert_eq!(threads[0].next_expectation, None);
    assert_eq!(threads[0].kind, "editorial");
    assert_eq!(threads[0].status, "accepted; unresolved");
    assert_eq!(threads[0].statement, "concern editorial_item:d");
    assert_eq!(threads[1].id, "editorial_item:a");
    assert_eq!(threads[1].next_expectation.as_deref(), Some("Make the duel shorter"));
    let many: Vec<EditorialItem> = (0..8).map(|i| item(&format!("e{i}"), 1, 1, EditorialStatus::Accepted, 1)).collect();
    let five = editorial_threads(&many, 1, 1);
    assert_eq!(five.len(), 5);
    assert_eq!(five[0].id, "e7");
}

#[test]
fn series_cursor_stops_at_unreleased_chapter_two() {
    let chapters = vec![
        state(1, 1, 30, 0, Some(("episode_release:1", "current"))),
        state(1, 2, 0, 1, None),
        state(1, 3, 30, 0, Some(("episode_release:3", "current"))),
        state(1, 4, 30, 0, None),
    ];
    let series = series_status("project:p".into(), "branch:main".into(), chapters, None, None, Some(2)).ok().unwrap();
    assert_eq!(series.published_through.unwrap().chapter_number, 1);
    assert_eq!((series.released_episodes, series.draft_backlog, series.ready_backlog), (2, 1, 1));
    assert_eq!(series.next_offset, Some(2));
    assert_eq!(series.episodes.len(), 2);
}

#[test]
fn consecutive_pages_tile_the_listing() {
    let all: Vec<i32> = (0..7).collect();
    let mut first = take_page(all.clone(), 0, 3);
    let second = take_page(all.clone(), 3, 3);
    first.extend(second);
    assert_eq!(first, take_page(all.clone(), 0, 6));
    let mut tail = take_page(all.clone(), 6, 3);
    tail.extend(take_page(all.clone(), 9, 3));
    assert_eq!(tail, vec![6]);
}

#[test]
fn a_forced_reread_never_resumes_the_target() {
    let hs = hashes(&[(1, 1, "a"), (1, 2, "b")]);
    let records = vec![
        MemoryCandidate { id: "m2".into(), book_number: 1, chapter_number: 2, source_hash: "b".into() },
    ];
    let forced = select_prior_memory(&records, &hs, 1, 2, true);
    assert_eq!(forced.prior, None);
    assert_eq!(forced.stale_records, 0);
    let normal = select_prior_memory(&records, &hs, 1, 2, false);
    assert_eq!(normal.prior, Some(0));
}

#[test]
fn long_texts_are_cut_to_their_byte_limits() {
    let long = "é".repeat(300);
    let kept = reader_question_candidates(&Some(vec![long.clone()]), &None);
    assert_eq!(kept[0].len(), 240);
    let mut it = item("editorial_item:x", 1, 1, EditorialStatus::Accepted, 1);
    it.description = "a".repeat(500);
    it.decisions.push(EditorialDecision {
        status: EditorialStatus::Accepted,
        note: "b".repeat(401) + "é",
        reviewed_source_hash: None,
        recorded_at: "t".to_string(),
    });
    let threads = editorial_threads(&vec![it], 1, 1);
    assert_eq!(threads[0].statement.len(), 300);
    assert_eq!(threads[0].next_expectation.as_deref().map(str::len), Some(400));
    let concern = format!("  {}  ", "c".repeat(2500));
    let mem = memory(1, 1, &[], &[], &[("major", concern.as_str())]);
    let staged = stage_reader_concerns(&mem, &vec![]);
    assert_eq!(staged[0].item.description, "c".repeat(2000));
}

#[test]
fn a_reading_that_did_not_complete_keeps_the_previous_memory() {
    assert_eq!(unfinished_reading_note("read"), None);
    assert_eq!(
        unfinished_reading_note("skipped").as_deref(),
        Some("reading skipped: previous memory preserved")
    );
}

#[test]
fn completed_readings_are_stored_with_trimmed_notes() {
    let prior = memory(1, 1, &["1:1"], &["Who is Mara?", "  "], &[]);
    let outcome = ReaderOutcome {
        status: "read".to_string(),
        notes: "n".repeat(5000),
        open_questions: None,
        concerns: vec![ReaderConcern { severity: "minor".into(), description: "Typo".into() }],
    };
    let record = completed_reading_record(
        &"project:p".to_string(),
        &"branch:main".to_string(),
        1,
        2,
        &"h12".to_string(),
        Some(&prior),
        &"teen".to_string(),
        outcome,
    );
    assert!(record.id.starts_with("reader_memory:"));
    assert_eq!(record.chapters_read, vec!["1:1".to_string(), "1:2".to_string()]);
    assert_eq!(record.open_questions, vec!["Who is Mara?".to_string()]);
    assert_eq!(record.outcome.open_questions, Some(vec!["Who is Mara?".to_string()]));
    assert_eq!(record.outcome.notes.len(), 4000);
    assert_eq!(record.outcome.concerns.len(), 1);
    assert_eq!(record.source_hash, "h12");
    assert_eq!(record.rating, "teen");
}

#[test]
fn the_trace_says_what_became_of_the_memory() {
    let id = "reader_memory:x".to_string();
    assert_eq!(persistence_outcome(Persistence::Stored, &id), (Some(id.clone()), None));
    assert_eq!(
        persistence_outcome(Persistence::ModelChanged, &id).1.as_deref(),
        Some("Model configuration changed during reading; memory was not stored")
    );
    assert_eq!(
        persistence_outcome(Persistence::SourceChanged, &id).1.as_deref(),
        Some("Manuscript or prior reading changed; memory was not stored")
    );
    assert_eq!(
        persistence_outcome(Persistence::StoreFailed, &id),
        (None, Some("Reading completed, but memory could not be stored; retry the reading".to_string()))
    );
}

#[test]
fn previews_check_placement_and_branch_then_list_issues() {
    let scenes = vec![scene("scene:a", 1, "One two.", "general")];
    let stubs = vec![None];
    assert!(matches!(
        episode_preview_draft("project:p".into(), &Some("branch:main".into()), 0, 1, 1000, &chapter(None), &scenes, &stubs, &Some(vec![1])),
        Err(PreviewError::InvalidPlacement)
    ));
    assert!(matches!(
        episode_preview_draft("project:p".into(), &None, 1, 1, 1000, &chapter(None), &scenes, &stubs, &Some(vec![1])),
        Err(PreviewError::NoActiveBranch)
    ));
    let (snap, issues) = episode_preview_draft(
        "project:p".into(), &Some("branch:main".into()), 1, 1, 1000, &chapter(None), &scenes, &stubs, &Some(vec![1]),
    )
    .ok()
    .unwrap();
    assert_eq!(snap.branch_id, "branch:main");
    assert_eq!(snap.title, "Chapter 1");
    assert!(issues.is_empty());
    let (_, issues) = episode_preview_draft(
        "project:p".into(), &Some("branch:main".into()), 1, 1, 1000, &chapter(None), &scenes, &stubs, &Some(vec![1, 2]),
    )
    .ok()
    .unwrap();
    assert_eq!(issues, vec!["Scene 2 is not drafted".to_string()]);
}
