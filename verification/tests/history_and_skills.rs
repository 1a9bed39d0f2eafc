use metis_agent::frame::{encode_png, get_latest_frame, LatestFrame};
use metis_agent::history::{
    matching_locations, next_default_index, next_default_query, parse_default_index, rename_entry,
    split_words, HistoryRecord,
};
use metis_agent::skills::{
    bundle_matches, contains_id, membership, page_window, skills_to_install, SkillLearningProgress,
};

fn record(query: &str, location: &str) -> HistoryRecord {
    HistoryRecord { query: query.to_string(), location: location.to_string() }
}

#[test]
fn generated_queries_are_numbered() {
    assert_eq!(parse_default_index("default_0"), Some(0));
    assert_eq!(parse_default_index("default_12"), Some(12));
    assert_eq!(parse_default_index("default_default_3"), Some(3));
    assert_eq!(parse_default_index("default_"), None);
    assert_eq!(parse_default_index("default_x"), None);
    assert_eq!(parse_default_index("open mail"), None);
    assert_eq!(parse_default_index("Default_1"), None);
    assert_eq!(parse_default_index("default_-4"), Some(-4));
}

#[test]
fn next_index_is_one_more_than_the_highest() {
    assert_eq!(next_default_index(&vec![]), 0);
    assert_eq!(next_default_index(&vec!["open mail".to_string()]), 0);
    assert_eq!(
        next_default_index(&vec![
            "default_0".to_string(),
            "open mail".to_string(),
            "default_7".to_string(),
            "default_3".to_string()
        ]),
        8
    );
    assert_eq!(next_default_index(&vec!["default_-4".to_string()]), 0);
    assert_eq!(next_default_index(&vec!["default_2147483647".to_string()]), 2147483648);
}

#[test]
fn rename_rewrites_the_entries_of_the_folder() {
    let records = vec![
        record("default_0", "action_0"),
        record("default_1", "action_1"),
        record("other", "action_0"),
    ];
    assert_eq!(
        rename_entry(&records, "action_0", "open mail"),
        Some(vec![
            record("open mail", "action_0"),
            record("default_1", "action_1"),
            record("open mail", "action_0"),
        ])
    );
    assert_eq!(rename_entry(&records, "action_9", "open mail"), None);
    assert_eq!(rename_entry(&vec![], "action_0", "open mail"), None);
}

#[test]
fn words_are_runs_without_white_space() {
    let words = split_words(&"  open   the\tmail\u{a0}now ".chars().collect());
    let texts: Vec<String> = words.iter().map(|w| w.iter().collect()).collect();
    assert_eq!(texts, vec!["open", "the", "mail", "now"]);
    assert_eq!(split_words(&Vec::new()).len(), 0);
    assert_eq!(split_words(&"   ".chars().collect()).len(), 0);
    assert_eq!(split_words(&"x".chars().collect()), vec![vec!['x']]);
}

#[test]
fn folders_are_selected_by_shared_words() {
    let records = vec![
        record("Open MAIL client", "action_0"),
        record("play music", "action_1"),
        record("mailbox cleanup", "action_2"),
        record("send mail", "action_0"),
    ];
    assert_eq!(matching_locations("check my mail", &records), vec!["action_0", "action_2"]);
    assert_eq!(matching_locations("PLAY", &records), vec!["action_1"]);
    assert_eq!(matching_locations("dance", &records), Vec::<String>::new());
    assert_eq!(matching_locations("", &records), Vec::<String>::new());
    assert_eq!(matching_locations("ÉCOLE", &vec![record("une école", "action_5")]), vec!["action_5"]);
}

#[test]
fn latest_frame_is_the_last_one_stored() {
    let mut slot = LatestFrame::new();
    assert_eq!(
        get_latest_frame(&slot),
        "iVBORw0KGgoAAAANSUhEUgAAAAEAAAABCAYAAAAfFcSJAAAAAXNSR0IArs4c6QAAAA1JREFUCNdj+P///38ACfsD/6EXSgAAAABJRU5ErkJggg=="
    );
    assert!(slot.store(b"hello"));
    assert_eq!(get_latest_frame(&slot), "aGVsbG8=");
    assert!(slot.store(&[0xff, 0xfe, 0xfd]));
    assert_eq!(get_latest_frame(&slot), "//79");
    assert!(slot.store(&[]));
    assert_eq!(get_latest_frame(&slot), "");
    assert_eq!(encode_png(b"ab"), Some("YWI=".to_string()));
}

#[test]
fn learning_progress_is_capped_at_a_hundred() {
    let mut item = SkillLearningProgress {
        skill_id: "skill1".to_string(),
        progress: 75,
        status: "in_progress".to_string(),
        last_updated: 1,
    };
    item.advance(20);
    assert_eq!(item.progress, 85);
    assert_eq!(item.last_updated, 20);
    item.advance(30);
    assert_eq!(item.progress, 95);
    item.advance(40);
    assert_eq!(item.progress, 100);
    item.advance(50);
    assert_eq!(item.progress, 100);
    assert_eq!(item.last_updated, 50);
    assert_eq!(item.skill_id, "skill1");
    item.progress = u32::MAX;
    item.advance(60);
    assert_eq!(item.progress, 100);
}

#[test]
fn next_query_is_new_and_carries_its_number() {
    let queries = vec!["default_0".to_string(), "open mail".to_string(), "default_41".to_string()];
    let next = next_default_query(&queries);
    assert_eq!(next, "default_42");
    assert!(!queries.contains(&next));
    assert_eq!(parse_default_index(&next), Some(42));
    assert_eq!(next_default_query(&vec![]), "default_0");
    assert_eq!(next_default_query(&vec!["default_2147483647".to_string()]), "default_2147483648");
}

fn ids(items: &[&str]) -> Vec<String> {
    items.iter().map(|s| s.to_string()).collect()
}

#[test]
fn installing_adds_each_missing_skill_once() {
    assert_eq!(skills_to_install(&ids(&["a", "b"]), &ids(&["b", "c", "a", "c", "d"])), vec![1, 4]);
    assert_eq!(skills_to_install(&ids(&[]), &ids(&["x", "x"])), vec![0]);
    assert_eq!(skills_to_install(&ids(&["x"]), &ids(&["x"])), Vec::<usize>::new());
    assert_eq!(skills_to_install(&ids(&["x"]), &ids(&[])), Vec::<usize>::new());
}

#[test]
fn membership_marks_the_skills_of_a_bundle() {
    assert_eq!(membership(&ids(&["a", "b", "c"]), &ids(&["c", "a"])), vec![true, false, true]);
    assert_eq!(membership(&ids(&["a"]), &ids(&[])), vec![false]);
    assert_eq!(membership(&ids(&[]), &ids(&["a"])), Vec::<bool>::new());
    assert!(contains_id(&ids(&["skill1", "skill2"]), "skill2"));
    assert!(!contains_id(&ids(&["skill1", "skill2"]), "skill"));
}

#[test]
fn pages_are_windows_of_the_list() {
    assert_eq!(page_window(1, 10, 3), (0, 3));
    assert_eq!(page_window(1, 2, 3), (0, 2));
    assert_eq!(page_window(2, 2, 3), (2, 3));
    assert_eq!(page_window(3, 2, 3), (3, 3));
    assert_eq!(page_window(1, 0, 3), (0, 0));
    assert_eq!(page_window(1, u32::MAX, 5), (0, 5));
}

#[test]
fn search_looks_at_name_description_and_tags() {
    let tags = ids(&["productivity", "web"]);
    assert!(bundle_matches("Web Productivity Suite", "Complete set", &tags, "SUITE", None));
    assert!(bundle_matches("Web Productivity Suite", "Complete set", &tags, "complete", None));
    assert!(bundle_matches("Web Productivity Suite", "Complete set", &tags, "", None));
    assert!(!bundle_matches("Web Productivity Suite", "Complete set", &tags, "design", None));
    assert!(bundle_matches("Web Productivity Suite", "Complete set", &tags, "web", Some(&ids(&["x", "WEB"]))));
    assert!(bundle_matches("Web Productivity Suite", "Complete set", &tags, "web", Some(&ids(&["prod"]))));
    assert!(!bundle_matches("Web Productivity Suite", "Complete set", &tags, "web", Some(&ids(&["design"]))));
    assert!(!bundle_matches("Web Productivity Suite", "Complete set", &tags, "web", Some(&ids(&[]))));
    assert!(!bundle_matches("Web Productivity Suite", "Complete set", &tags, "design", Some(&ids(&["web"]))));
}
