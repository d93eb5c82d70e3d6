use rusty_journal::decode::collect_tasks;
use rusty_journal::encode::encode_tasks;
use rusty_journal::error::JournalError;
use rusty_journal::store::{add_task, complete_task, list_tasks, save_tasks, Listing, WritePlan};
use rusty_journal::task::Task;

fn task(text: &str, created_at: i64) -> Task {
    Task::at(text.to_string(), created_at)
}

fn texts(content: &[u8]) -> Vec<String> {
    collect_tasks(content).unwrap().into_iter().map(|t| t.text).collect()
}

#[test]
fn scenario_add_add_remove_list() {
    let file: Vec<u8> = Vec::new();

    let plan = add_task(&file, task("buy milk", 1_700_000_000)).unwrap();
    let file = plan.apply(&file);
    assert_eq!(texts(&file), vec!["buy milk".to_string()]);

    let plan = add_task(&file, task("walk dog", 1_700_000_060)).unwrap();
    let file = plan.apply(&file);
    assert_eq!(texts(&file), vec!["buy milk".to_string(), "walk dog".to_string()]);

    let plan = complete_task(&file, 1).unwrap();
    let file = plan.apply(&file);
    assert_eq!(texts(&file), vec!["walk dog".to_string()]);

    match list_tasks(&file).unwrap() {
        Listing::Entries(entries) => assert_eq!(entries, vec![task("walk dog", 1_700_000_060)]),
        Listing::Empty => panic!("the journal holds one entry"),
    }
}

#[test]
fn document_has_the_exact_layout() {
    let tasks = vec![task("buy milk", 1_700_000_000), task("walk dog", -5)];
    let expected: &[u8] =
        br#"[{"text":"buy milk","created_at":1700000000},{"text":"walk dog","created_at":-5}]"#;
    assert_eq!(encode_tasks(&tasks), expected.to_vec());
}

#[test]
fn empty_collection_is_an_empty_array() {
    assert_eq!(encode_tasks(&Vec::new()), b"[]".to_vec());
    assert_eq!(collect_tasks(b"[]").unwrap(), Vec::<Task>::new());
}

#[test]
fn text_is_escaped_as_json_asks() {
    let tasks = vec![task("say \"hi\"\\\n\ttab \u{1} caf\u{e9}", 1)];
    let expected = "[{\"text\":\"say \\\"hi\\\"\\\\\\n\\ttab \\u0001 caf\u{e9}\",\"created_at\":1}]";
    assert_eq!(encode_tasks(&tasks), expected.as_bytes().to_vec());
}

#[test]
fn round_trip_keeps_order_text_and_second() {
    let tasks = vec![
        task("", 0),
        task("plain", 1_700_000_000),
        task("quote \" backslash \\ slash / newline \n tab \t", -1),
        task("caf\u{e9} \u{1f600} \u{0} \u{7f}", i64::MAX),
        task("plain", i64::MIN),
        task("{\"text\":\"nested\",\"created_at\":3}", 42),
    ];
    let before = b"whatever the file held before, and it was long enough to need cutting: \
                   xxxxxxxxxxxxxxxxxxxxxxxxxxxxxxxxxxxxxxxxxxxxxxxxxxxxxxxxxxxxxxxxxxxxxxxxxxxxxxx\
                   xxxxxxxxxxxxxxxxxxxxxxxxxxxxxxxxxxxxxxxxxxxxxxxxxxxxxxxxxxxxxxxxxxxxxxxxxxxxxxx\
                   xxxxxxxxxxxxxxxxxxxxxxxxxxxxxxxxxxxxxxxxxxxxxxxxxxxxxxxxxxxxxxxxxxxxxxxxxxxxxxx\
                   xxxxxxxxxxxxxxxxxxxxxxxxxxxxxxxxxxxxxxxxxxxxxxxxxxxxxxxxxxxxxxxxxxxxxxxxxxxxxxx";
    let file = save_tasks(before.len(), &tasks).apply(before);
    assert_eq!(collect_tasks(&file).unwrap(), tasks);

    let file = save_tasks(0, &tasks).apply(b"");
    assert_eq!(collect_tasks(&file).unwrap(), tasks);
}

#[test]
fn empty_file_is_the_empty_collection() {
    assert_eq!(collect_tasks(b"").unwrap(), Vec::<Task>::new());
    assert_eq!(list_tasks(b"").unwrap(), Listing::Empty);
}

#[test]
fn add_appends_to_what_is_there() {
    let existing = vec![task("a", 1), task("b", 2), task("a", 1)];
    let file = encode_tasks(&existing);
    let plan = add_task(&file, task("c", 3)).unwrap();
    let after = collect_tasks(&plan.apply(&file)).unwrap();
    assert_eq!(after.len(), existing.len() + 1);
    assert_eq!(after[..existing.len()], existing[..]);
    assert_eq!(after[existing.len()], task("c", 3));
}

#[test]
fn add_to_an_empty_file_writes_one_entry() {
    let plan = add_task(b"", task("buy milk", 7)).unwrap();
    assert_eq!(
        plan,
        WritePlan { truncate: false, data: br#"[{"text":"buy milk","created_at":7}]"#.to_vec() }
    );
}

#[test]
fn position_zero_and_past_the_end_are_refused() {
    let file = encode_tasks(&vec![task("a", 1), task("b", 2)]);
    assert!(matches!(
        complete_task(&file, 0),
        Err(JournalError::InvalidPosition { position: 0 })
    ));
    assert!(matches!(
        complete_task(&file, 3),
        Err(JournalError::InvalidPosition { position: 3 })
    ));
    assert!(matches!(
        complete_task(&file, usize::MAX),
        Err(JournalError::InvalidPosition { position: usize::MAX })
    ));
    assert_eq!(collect_tasks(&file).unwrap(), vec![task("a", 1), task("b", 2)]);
}

#[test]
fn every_position_is_refused_on_an_empty_journal() {
    assert!(matches!(complete_task(b"", 0), Err(JournalError::InvalidPosition { position: 0 })));
    assert!(matches!(complete_task(b"", 1), Err(JournalError::InvalidPosition { position: 1 })));
    assert!(matches!(complete_task(b"[]", 1), Err(JournalError::InvalidPosition { position: 1 })));
}

#[test]
fn removal_takes_out_the_entry_at_the_ordinal() {
    let existing = vec![task("a", 1), task("b", 2), task("c", 3), task("d", 4)];
    let file = encode_tasks(&existing);

    let first = collect_tasks(&complete_task(&file, 1).unwrap().apply(&file)).unwrap();
    assert_eq!(first, vec![task("b", 2), task("c", 3), task("d", 4)]);

    let middle = collect_tasks(&complete_task(&file, 3).unwrap().apply(&file)).unwrap();
    assert_eq!(middle, vec![task("a", 1), task("b", 2), task("d", 4)]);

    let last = collect_tasks(&complete_task(&file, 4).unwrap().apply(&file)).unwrap();
    assert_eq!(last, vec![task("a", 1), task("b", 2), task("c", 3)]);
}

#[test]
fn removing_the_same_position_twice_removes_two_entries() {
    let file = encode_tasks(&vec![task("a", 1), task("b", 2), task("c", 3)]);
    let file = complete_task(&file, 2).unwrap().apply(&file);
    let file = complete_task(&file, 2).unwrap().apply(&file);
    assert_eq!(collect_tasks(&file).unwrap(), vec![task("a", 1)]);
}

#[test]
fn removal_leaves_no_bytes_of_the_longer_file() {
    let file = encode_tasks(&vec![task("a long entry that will go away", 1), task("b", 2)]);
    let plan = complete_task(&file, 1).unwrap();
    assert!(plan.truncate);
    assert!(plan.data.len() < file.len());
    let after = plan.apply(&file);
    assert_eq!(after, br#"[{"text":"b","created_at":2}]"#.to_vec());
    assert_eq!(after, encode_tasks(&vec![task("b", 2)]));
}

#[test]
fn removing_the_only_entry_leaves_an_empty_array() {
    let file = encode_tasks(&vec![task("a", 1)]);
    let after = complete_task(&file, 1).unwrap().apply(&file);
    assert_eq!(after, b"[]".to_vec());
    assert_eq!(list_tasks(&after).unwrap(), Listing::Empty);
}

#[test]
fn a_plan_that_does_not_cut_leaves_the_old_tail() {
    let plan = WritePlan { truncate: false, data: b"[]".to_vec() };
    assert_eq!(plan.apply(b"0123456"), b"[]23456".to_vec());
    let plan = WritePlan { truncate: true, data: b"[]".to_vec() };
    assert_eq!(plan.apply(b"0123456"), b"[]".to_vec());
    let plan = WritePlan { truncate: false, data: b"0123456".to_vec() };
    assert_eq!(plan.apply(b"[]"), b"0123456".to_vec());
}

#[test]
fn save_cuts_only_a_longer_file() {
    let tasks = vec![task("a", 1)];
    let len = encode_tasks(&tasks).len();
    assert!(!save_tasks(0, &tasks).truncate);
    assert!(!save_tasks(len, &tasks).truncate);
    assert!(save_tasks(len + 1, &tasks).truncate);
    assert_eq!(save_tasks(len + 1, &tasks).data, encode_tasks(&tasks));
}

#[test]
fn add_cuts_a_hand_edited_file_that_is_longer() {
    let file = b"[\n    { \"text\": \"a\",\n\n\n\n\n\n\n\n\n\n\n\n\n\n\n\n\n\n\n\n\n\n\n\n\n\n\n\n\n\n\n\n\n\n\n\n\n\n\n  \"created_at\": 1 }\n]\n";
    let plan = add_task(file, task("b", 2)).unwrap();
    assert!(plan.truncate);
    assert_eq!(
        plan.apply(file),
        br#"[{"text":"a","created_at":1},{"text":"b","created_at":2}]"#.to_vec()
    );
}

#[test]
fn reading_accepts_white_space_any_member_order_and_further_members() {
    let file = b" [ {\"created_at\" : 12 , \"done\" : false, \"text\" : \"a\\u0041\\n\" } ,\n{\"text\":\"b\",\"created_at\":-3,\"tags\":[1,{\"x\":null}]} ] \n";
    assert_eq!(collect_tasks(file).unwrap(), vec![task("aA\n", 12), task("b", -3)]);
}

#[test]
fn content_that_is_no_json_array_is_a_syntax_error() {
    let refused: Vec<&[u8]> = vec![
        b" ",
        b"\n",
        b"not json",
        b"{}",
        b"{\"text\":\"a\",\"created_at\":1}",
        b"[",
        b"[{\"text\":\"a\",\"created_at\":1}",
        b"[{\"text\":\"a\",\"created_at\":1}] trailing",
        b"[{\"text\":\"a\",\"created_at\":1},]",
        b"null",
        b"3",
        b"[\"\xff\"]",
    ];
    for content in refused {
        assert!(matches!(collect_tasks(content), Err(JournalError::Syntax(_))));
        assert!(matches!(add_task(content, task("a", 1)), Err(JournalError::Syntax(_))));
        assert!(matches!(complete_task(content, 1), Err(JournalError::Syntax(_))));
        assert!(matches!(list_tasks(content), Err(JournalError::Syntax(_))));
    }
}

#[test]
fn an_element_that_is_no_entry_is_named_by_its_index() {
    let ok = r#"{"text":"a","created_at":1}"#;
    let strangers = vec![
        r#"{}"#,
        r#"{"text":"a"}"#,
        r#"{"created_at":1}"#,
        r#"{"text":1,"created_at":1}"#,
        r#"{"text":"a","created_at":"1"}"#,
        r#"{"text":"a","created_at":1.5}"#,
        r#"{"text":"a","created_at":1e3}"#,
        r#"{"text":"a","created_at":9223372036854775808}"#,
        r#"{"text":"a","created_at":null}"#,
        r#"{"text":null,"created_at":1}"#,
        r#"["a",1]"#,
        r#""a""#,
        r#"1"#,
        r#"null"#,
    ];
    for stranger in strangers {
        let first = format!("[{},{}]", stranger, ok);
        assert!(matches!(
            collect_tasks(first.as_bytes()),
            Err(JournalError::NotAnEntry { index: 0 })
        ));
        let third = format!("[{},{},{},{}]", ok, ok, stranger, stranger);
        assert!(matches!(
            collect_tasks(third.as_bytes()),
            Err(JournalError::NotAnEntry { index: 2 })
        ));
        assert!(matches!(
            complete_task(third.as_bytes(), 0),
            Err(JournalError::NotAnEntry { index: 2 })
        ));
    }
}

#[test]
fn the_widest_seconds_are_read() {
    let file = br#"[{"text":"a","created_at":9223372036854775807},{"text":"b","created_at":-9223372036854775808}]"#;
    assert_eq!(collect_tasks(file).unwrap(), vec![task("a", i64::MAX), task("b", i64::MIN)]);
    assert_eq!(
        encode_tasks(&vec![task("a", i64::MAX), task("b", i64::MIN)]),
        file.to_vec()
    );
}

#[test]
fn listing_keeps_the_order_of_the_file() {
    let file = encode_tasks(&vec![task("first", 30), task("second", 20), task("third", 10)]);
    assert_eq!(
        list_tasks(&file).unwrap(),
        Listing::Entries(vec![task("first", 30), task("second", 20), task("third", 10)])
    );
    assert_eq!(list_tasks(b"[]").unwrap(), Listing::Empty);
}
