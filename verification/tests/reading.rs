use spindle_adapters::digest::sha256_hex;
use spindle_adapters::reading::{reader_branch, reader_digest};
use spindle_adapters::records::Scene;
use spindle_adapters::row::Timestamp;
use spindle_adapters::serial::select_prior_memory;
use spindle_adapters::serial::MemoryCandidate;
use spindle_adapters::scenes::{move_scene_to, overwrite_scene, scene_version_row, ContentRating, SceneDraft};

fn scene(id: &str, book: i32, chapter: i32, order: i32, text: &str, rating: &str) -> Scene {
    Scene {
        id: id.to_string(),
        branch_id: "branch:main".to_string(),
        book_id: format!("book:{book}"),
        chapter_id: format!("chapter:{book}:{chapter}"),
        book_number: book,
        chapter_number: chapter,
        scene_order: order,
        full_text: text.to_string(),
        summary: String::new(),
        content_rating: rating.to_string(),
        tone: None,
        draft_origin: None,
        updated_at: Timestamp { micros: 1_700_000_000_000_000 },
    }
}

fn manuscript(first_text: &str, later_text: &str) -> Vec<Scene> {
    vec![
        scene("scene:a", 1, 1, 1, first_text, "General"),
        scene("scene:b", 1, 1, 2, "Second", "Teen"),
        scene("scene:c", 1, 3, 1, later_text, "General"),
    ]
}

#[test]
fn fingerprints_chain_every_chapter_up_to_the_cursor() {
    let prefix = b"[\"reader-memory-v1\"]".to_vec();
    let d = reader_digest(prefix, &manuscript("First", "Later"), &vec![(1, 1), (1, 2)], 1, 1).unwrap();
    let positions: Vec<(i32, i32)> = d.hashes.iter().map(|h| (h.book_number, h.chapter_number)).collect();
    assert_eq!(positions, vec![(1, 1), (1, 2), (1, 3)]);
    let through_first = [
        "[\"reader-memory-v1\"]",
        "[1,1]",
        "[\"scene:a\",1,\"First\",\"General\",\"2023-11-14T22:13:20Z\"]",
        "[\"scene:b\",2,\"Second\",\"Teen\",\"2023-11-14T22:13:20Z\"]",
    ]
    .concat();
    assert_eq!(d.hashes[0].hash, sha256_hex(&through_first));
    let through_second = format!("{through_first}[1,2]");
    assert_eq!(d.hashes[1].hash, sha256_hex(&through_second));
    assert_eq!(d.scene_ids, vec!["scene:a".to_string(), "scene:b".to_string()]);
    assert_eq!(d.rating, "Teen");
}

#[test]
fn later_edits_keep_earlier_fingerprints() {
    let chapters = vec![(1, 1), (1, 2)];
    let a = reader_digest(vec![], &manuscript("First", "Later"), &chapters, 1, 3).unwrap();
    let b = reader_digest(vec![], &manuscript("First", "Rewritten"), &chapters, 1, 3).unwrap();
    assert_eq!(a.hashes[0].hash, b.hashes[0].hash);
    assert_eq!(a.hashes[1].hash, b.hashes[1].hash);
    assert_ne!(a.hashes[2].hash, b.hashes[2].hash);
    let c = reader_digest(vec![], &manuscript("RETCON. First", "Later"), &chapters, 1, 3).unwrap();
    assert!(a.hashes.iter().zip(c.hashes.iter()).all(|(x, y)| x.hash != y.hash));
    let d = reader_digest(b"other contract".to_vec(), &manuscript("First", "Later"), &chapters, 1, 3).unwrap();
    assert_ne!(a.hashes[0].hash, d.hashes[0].hash);
    assert_eq!(a.scene_ids, vec!["scene:c".to_string()]);
    assert_eq!(a.rating, "general");
}

#[test]
fn a_retcon_makes_stored_readings_stale() {
    let chapters = vec![(1, 1), (1, 3)];
    let before = reader_digest(vec![], &manuscript("First", "Later"), &chapters, 1, 3).unwrap();
    let after = reader_digest(vec![], &manuscript("RETCON. First", "Later"), &chapters, 1, 3).unwrap();
    let records = vec![
        MemoryCandidate { id: "m2".into(), book_number: 1, chapter_number: 3, source_hash: before.hashes[1].hash.clone() },
        MemoryCandidate { id: "m1".into(), book_number: 1, chapter_number: 1, source_hash: before.hashes[0].hash.clone() },
    ];
    let fresh = select_prior_memory(&records, &before.hashes, 1, 3, false);
    assert_eq!(fresh.prior, Some(0));
    assert_eq!(fresh.stale_records, 0);
    let stale = select_prior_memory(&records, &after.hashes, 1, 3, false);
    assert_eq!(stale.prior, None);
    assert_eq!(stale.stale_records, 2);
}

#[test]
fn unrepresentable_change_times_are_refused() {
    let mut scenes = manuscript("First", "Later");
    scenes[1].updated_at = Timestamp { micros: i64::MAX };
    assert!(reader_digest(vec![], &scenes, &vec![], 1, 1).is_none());
}

#[test]
fn empty_manuscripts_have_no_chapters() {
    let d = reader_digest(vec![], &vec![], &vec![], 1, 1).unwrap();
    assert!(d.hashes.is_empty());
    assert!(d.scene_ids.is_empty());
    assert_eq!(d.rating, "general");
}

#[test]
fn readings_follow_the_requested_or_active_branch() {
    assert_eq!(reader_branch(&Some("branch:fork".into()), &Some("branch:main".into())).as_deref(), Some("branch:fork"));
    assert_eq!(reader_branch(&None, &Some("branch:main".into())).as_deref(), Some("branch:main"));
    assert_eq!(reader_branch(&None, &None), None);
}

#[test]
fn saving_over_a_scene_keeps_its_prior_prose_as_the_next_version() {
    let old = scene("scene:a", 1, 2, 3, "Old prose", "General");
    let v = scene_version_row(&old, 4);
    assert_eq!(v.version_number, 5);
    assert_eq!(v.full_text, "Old prose");
    assert_eq!(v.scene_id, "scene:a");
    let draft = SceneDraft {
        full_text: "New prose".into(),
        summary: "s".into(),
        content_rating: ContentRating::Mature,
        tone: Some("grim".into()),
    };
    let new = overwrite_scene(&old, &draft, Timestamp { micros: 7 });
    assert_eq!(new.id, "scene:a");
    assert_eq!(new.full_text, "New prose");
    assert_eq!(new.content_rating, "Mature");
    assert_eq!((new.book_number, new.chapter_number, new.scene_order), (1, 2, 3));
    assert_eq!(new.updated_at.micros, 7);
    let moved = move_scene_to(new, "book:2".into(), "chapter:2:1".into(), 2, 1, 4, Timestamp { micros: 8 });
    assert_eq!((moved.book_number, moved.chapter_number, moved.scene_order), (2, 1, 4));
    assert_eq!(moved.book_id, "book:2");
    assert_eq!(moved.full_text, "New prose");
}
