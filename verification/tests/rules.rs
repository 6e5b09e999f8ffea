use cadence::catalog::{
    baseline_probes, is_valid_catalog, migrations, Migration, ADD_DUE_SQL, ADD_IS_TODAY_SQL,
    INIT_SQL,
};
use cadence::commands::{first_text, settings_from_rows};
use cadence::clock::{seconds_to_stamp, stamp_or_failure, unix_seconds, CLOCK_UNUSABLE};
use cadence::db::{backup_extension, init_db, BACKUP_STAMP_FORMAT};
use cadence::error::CommandError;
use cadence::json::{
    decode_tags, element, encode_tags, member, string_of, tags_from_parse, Json,
};
use cadence::llm::{
    api_failure, begin_exchange, chat_request, completion_content, content_or_missing,
    find_content, finish_exchange, refine_content, Assistance, ENRICH_PROMPT, MISSING_KEY, MODEL, NO_CHOICES,
    NO_CONTENT, PLAN_PROMPT, REFINE_PROMPT,
};
use cadence::migrations::{
    column_present, count_from_rows, ids_from_rows, probe_params, record_params,
};
use cadence::models::{DayBlock, Task};
use cadence::plan::{applied_set, baseline_records, pending_migrations};
use cadence::rows::{
    block_from_row, blocks_from_rows, read_flag, read_integer, read_opt_small, read_opt_text,
    read_small, read_text, setting_from_row, task_from_row, tasks_from_rows, NOT_TASK_WIDTH,
    NOT_TEXT, NO_ROW, NUMBER_OUT_OF_RANGE,
};
use cadence::sql::{settle, SqlValue};

fn text(s: &str) -> SqlValue {
    SqlValue::Text(s.to_string())
}

fn ids(entries: &[Migration]) -> Vec<i64> {
    entries.iter().map(|m| m.id).collect()
}

fn task_row() -> Vec<SqlValue> {
    vec![
        text("t1"),
        text("Title"),
        SqlValue::Integer(0),
        SqlValue::Integer(1),
        SqlValue::Integer(30),
        SqlValue::Null,
        text("home"),
        text("[\"a\",\"b\"]"),
        SqlValue::Null,
        text("2024-01-01"),
    ]
}

#[test]
fn shipped_catalog_counts_up_from_one() {
    let catalog = migrations();
    assert_eq!(ids(&catalog), vec![1, 2, 3]);
    assert_eq!(catalog[0].name, "init");
    assert_eq!(catalog[1].name, "add_is_today");
    assert_eq!(catalog[2].name, "add_due");
    assert_eq!(catalog[0].sql, INIT_SQL);
    assert_eq!(catalog[1].sql, ADD_IS_TODAY_SQL);
    assert_eq!(catalog[2].sql, ADD_DUE_SQL);
    assert!(is_valid_catalog(&catalog));
}

#[test]
fn shipped_probes_name_the_later_columns() {
    let probes = baseline_probes();
    assert_eq!(probes.len(), 2);
    assert_eq!(
        (probes[0].migration_id, probes[0].table, probes[0].column),
        (2, "tasks", "is_today")
    );
    assert_eq!(
        (probes[1].migration_id, probes[1].table, probes[1].column),
        (3, "tasks", "due")
    );
}

#[test]
fn catalog_with_a_gap_or_a_wrong_start_is_invalid() {
    let a = Migration { id: 1, name: "a", sql: "" };
    let c = Migration { id: 3, name: "c", sql: "" };
    let zero = Migration { id: 0, name: "z", sql: "" };
    assert!(is_valid_catalog(&Vec::new()));
    assert!(is_valid_catalog(&vec![a]));
    assert!(!is_valid_catalog(&vec![a, c]));
    assert!(!is_valid_catalog(&vec![c]));
    assert!(!is_valid_catalog(&vec![zero]));
    assert!(!is_valid_catalog(&vec![a, a]));
}

#[test]
fn applied_set_holds_each_id_once() {
    assert!(applied_set(&Vec::new()).is_empty());
    let set = applied_set(&vec![3, 1, 3]);
    assert_eq!(set.len(), 2);
    assert!(set.contains(&1));
    assert!(set.contains(&3));
    assert!(!set.contains(&2));
}

#[test]
fn pending_is_the_catalog_without_the_applied() {
    let catalog = migrations();
    assert_eq!(ids(&pending_migrations(&catalog, &applied_set(&Vec::new()))), vec![1, 2, 3]);
    assert_eq!(ids(&pending_migrations(&catalog, &applied_set(&vec![2]))), vec![1, 3]);
    assert_eq!(ids(&pending_migrations(&catalog, &applied_set(&vec![3, 1]))), vec![2]);
    assert_eq!(
        ids(&pending_migrations(&catalog, &applied_set(&vec![1, 2, 3, 9]))),
        Vec::<i64>::new()
    );
    assert_eq!(
        ids(&pending_migrations(&Vec::new(), &applied_set(&vec![1]))),
        Vec::<i64>::new()
    );
}

#[test]
fn baseline_takes_detected_later_migrations_of_an_empty_ledger() {
    let catalog = migrations();
    assert_eq!(ids(&baseline_records(&catalog, 0, &vec![2, 3])), vec![2, 3]);
    assert_eq!(ids(&baseline_records(&catalog, 0, &vec![3])), vec![3]);
    assert_eq!(
        ids(&baseline_records(&catalog, 0, &Vec::new())),
        Vec::<i64>::new()
    );
}

#[test]
fn baseline_never_takes_the_first_migration_or_an_unknown_id() {
    let catalog = migrations();
    assert_eq!(
        ids(&baseline_records(&catalog, 0, &vec![1, 0, -4, 4, 2])),
        vec![2]
    );
}

#[test]
fn baseline_is_empty_where_the_ledger_holds_a_record() {
    let catalog = migrations();
    assert_eq!(
        ids(&baseline_records(&catalog, 1, &vec![2, 3])),
        Vec::<i64>::new()
    );
    assert_eq!(
        ids(&baseline_records(&catalog, 3, &vec![2, 3])),
        Vec::<i64>::new()
    );
}

#[test]
fn one_run_then_another_on_the_model_of_the_ledger() {
    // Empty ledger, nothing detected: everything runs, in order.
    let catalog = migrations();
    let baselined = ids(&baseline_records(&catalog, 0, &Vec::new()));
    let mut ledger = baselined.clone();
    let ran = ids(&pending_migrations(&catalog, &applied_set(&ledger)));
    ledger.extend(ran.iter());
    assert_eq!(baselined, Vec::<i64>::new());
    assert_eq!(ran, vec![1, 2, 3]);
    assert_eq!(ledger, vec![1, 2, 3]);
    // The run after it finds nothing to do.
    let again = ids(&baseline_records(&catalog, ledger.len() as i64, &vec![2, 3]));
    let ran_again = ids(&pending_migrations(&catalog, &applied_set(&ledger)));
    assert_eq!(again, Vec::<i64>::new());
    assert_eq!(ran_again, Vec::<i64>::new());
}

#[test]
fn a_detected_migration_is_recorded_once_and_not_run() {
    let catalog = migrations();
    let baselined = ids(&baseline_records(&catalog, 0, &vec![2]));
    let mut ledger = baselined.clone();
    let ran = ids(&pending_migrations(&catalog, &applied_set(&ledger)));
    ledger.extend(ran.iter());
    assert_eq!(baselined, vec![2]);
    assert_eq!(ran, vec![1, 3]);
    assert_eq!(ledger.iter().filter(|id| **id == 2).count(), 1);
    assert_eq!(ledger.len(), 3);
}

#[test]
fn count_is_the_integer_of_the_first_row() {
    assert_eq!(
        count_from_rows(&vec![vec![SqlValue::Integer(7)], vec![SqlValue::Integer(9)]]).unwrap(),
        7
    );
    assert_eq!(count_from_rows(&Vec::new()).unwrap_err().message, NO_ROW);
    assert!(count_from_rows(&vec![Vec::new()]).is_err());
    assert!(count_from_rows(&vec![vec![text("7")]]).is_err());
    assert!(count_from_rows(&vec![vec![SqlValue::Null]]).is_err());
}

#[test]
fn ids_are_read_row_by_row() {
    assert_eq!(ids_from_rows(&Vec::new()).unwrap(), Vec::<i64>::new());
    assert_eq!(
        ids_from_rows(&vec![vec![SqlValue::Integer(3)], vec![SqlValue::Integer(1)]]).unwrap(),
        vec![3, 1]
    );
    assert!(ids_from_rows(&vec![vec![SqlValue::Integer(3)], vec![SqlValue::Null]]).is_err());
    assert!(ids_from_rows(&vec![Vec::new()]).is_err());
}

#[test]
fn a_probe_finds_the_column_only_with_a_positive_count() {
    assert!(column_present(&Ok(1)));
    assert!(column_present(&Ok(2)));
    assert!(!column_present(&Ok(0)));
    assert!(!column_present(&Ok(-1)));
    assert!(!column_present(&Err(CommandError::new("no such table"))));
}

#[test]
fn record_parameters_are_id_name_and_time() {
    let m = Migration { id: 2, name: "add_is_today", sql: "" };
    let params = record_params(&m, 1700000000);
    assert_eq!(params.len(), 3);
    assert!(matches!(params[0], SqlValue::Integer(2)));
    assert!(matches!(&params[1], SqlValue::Text(name) if name == "add_is_today"));
    assert!(matches!(params[2], SqlValue::Integer(1700000000)));
}

#[test]
fn text_columns_take_text_only() {
    assert_eq!(read_text(&text("x")).unwrap(), "x");
    assert_eq!(read_text(&text("")).unwrap(), "");
    assert_eq!(read_text(&SqlValue::Null).unwrap_err().message, NOT_TEXT);
    assert!(read_text(&SqlValue::Integer(1)).is_err());
    assert!(read_text(&SqlValue::Real).is_err());
    assert!(read_text(&SqlValue::Blob).is_err());
    assert_eq!(read_opt_text(&text("x")).unwrap(), Some("x".to_string()));
    assert_eq!(read_opt_text(&SqlValue::Null).unwrap(), None);
    assert!(read_opt_text(&SqlValue::Integer(1)).is_err());
}

#[test]
fn integers_are_read_as_they_stand() {
    assert_eq!(read_integer(&SqlValue::Integer(i64::MAX)).unwrap(), i64::MAX);
    assert_eq!(read_integer(&SqlValue::Integer(-1)).unwrap(), -1);
    assert!(read_integer(&SqlValue::Null).is_err());
    assert!(read_integer(&text("1")).is_err());
}

#[test]
fn flags_are_set_unless_zero() {
    assert_eq!(read_flag(&SqlValue::Integer(0)).unwrap(), false);
    assert_eq!(read_flag(&SqlValue::Integer(1)).unwrap(), true);
    assert_eq!(read_flag(&SqlValue::Integer(-3)).unwrap(), true);
    assert!(read_flag(&SqlValue::Null).is_err());
    assert!(read_flag(&text("1")).is_err());
}

#[test]
fn small_numbers_must_fit_thirty_two_bits() {
    assert_eq!(read_small(&SqlValue::Integer(2147483647)).unwrap(), 2147483647);
    assert_eq!(read_small(&SqlValue::Integer(-2147483648)).unwrap(), -2147483648);
    assert_eq!(
        read_small(&SqlValue::Integer(2147483648)).unwrap_err().message,
        NUMBER_OUT_OF_RANGE
    );
    assert!(read_small(&SqlValue::Integer(-2147483649)).is_err());
    assert!(read_small(&SqlValue::Null).is_err());
    assert_eq!(read_opt_small(&SqlValue::Null).unwrap(), None);
    assert_eq!(read_opt_small(&SqlValue::Integer(5)).unwrap(), Some(5));
    assert!(read_opt_small(&SqlValue::Integer(1 << 40)).is_err());
    assert!(read_opt_small(&text("5")).is_err());
}

#[test]
fn a_task_is_read_from_ten_columns() {
    let task: Task = task_from_row(&task_row()).unwrap();
    assert_eq!(task.id, "t1");
    assert_eq!(task.title, "Title");
    assert!(!task.done);
    assert!(task.is_today);
    assert_eq!(task.est_minutes, Some(30));
    assert_eq!(task.notes, None);
    assert_eq!(task.project, Some("home".to_string()));
    assert_eq!(task.tags, Some(vec!["a".to_string(), "b".to_string()]));
    assert_eq!(task.created_at, None);
    assert_eq!(task.due, Some("2024-01-01".to_string()));
}

#[test]
fn a_task_row_of_another_width_or_with_a_wrong_column_is_no_task() {
    let mut short = task_row();
    short.pop();
    assert_eq!(task_from_row(&short).unwrap_err().message, NOT_TASK_WIDTH);
    let mut long = task_row();
    long.push(SqlValue::Null);
    assert!(task_from_row(&long).is_err());
    let mut no_title = task_row();
    no_title[1] = SqlValue::Null;
    assert!(task_from_row(&no_title).is_err());
    let mut bad_flag = task_row();
    bad_flag[2] = text("yes");
    assert!(task_from_row(&bad_flag).is_err());
    let mut bad_due = task_row();
    bad_due[9] = SqlValue::Integer(20240101);
    assert!(task_from_row(&bad_due).is_err());
}

#[test]
fn tags_of_a_row_are_read_leniently() {
    for stored in [
        SqlValue::Null,
        text(""),
        text("not json"),
        text("null"),
        text("[1,2]"),
        SqlValue::Integer(3),
        SqlValue::Blob,
    ] {
        let mut row = task_row();
        row[7] = stored;
        assert_eq!(task_from_row(&row).unwrap().tags, Some(Vec::<String>::new()));
    }
}

#[test]
fn tasks_are_read_row_by_row_or_not_at_all() {
    let mut second = task_row();
    second[0] = text("t2");
    let tasks = tasks_from_rows(&vec![task_row(), second]).unwrap();
    assert_eq!(tasks.len(), 2);
    assert_eq!(tasks[0].id, "t1");
    assert_eq!(tasks[1].id, "t2");
    assert_eq!(tasks_from_rows(&Vec::new()).unwrap().len(), 0);
    assert!(tasks_from_rows(&vec![task_row(), Vec::new()]).is_err());
}

#[test]
fn a_block_is_read_from_five_columns() {
    let row = vec![
        text("b1"),
        SqlValue::Null,
        text("2024-01-01"),
        SqlValue::Integer(18),
        SqlValue::Integer(19),
    ];
    let block: DayBlock = block_from_row(&row).unwrap();
    assert_eq!(block.id, "b1");
    assert_eq!(block.task_id, None);
    assert_eq!(block.date, "2024-01-01");
    assert_eq!(block.start_slot, 18);
    assert_eq!(block.end_slot, 19);
    assert!(block.is_valid());
    let mut named = row.clone();
    named[1] = text("t1");
    assert_eq!(block_from_row(&named).unwrap().task_id, Some("t1".to_string()));
    let mut bad = row.clone();
    bad[3] = SqlValue::Null;
    assert!(block_from_row(&bad).is_err());
    assert!(block_from_row(&row[..4].to_vec()).is_err());
    assert_eq!(blocks_from_rows(&vec![row.clone(), named]).unwrap().len(), 2);
    assert!(blocks_from_rows(&vec![row, bad]).is_err());
}

#[test]
fn a_setting_is_read_from_two_texts() {
    assert_eq!(
        setting_from_row(&vec![text("k"), text("v")]).unwrap(),
        ("k".to_string(), "v".to_string())
    );
    assert!(setting_from_row(&vec![text("k"), SqlValue::Null]).is_err());
    assert!(setting_from_row(&vec![text("k")]).is_err());
    let settings = settings_from_rows(&vec![
        vec![text("a"), text("1")],
        vec![text("b"), text("2")],
    ])
    .unwrap();
    assert_eq!(
        settings.entries,
        vec![
            ("a".to_string(), "1".to_string()),
            ("b".to_string(), "2".to_string())
        ]
    );
    assert!(settings_from_rows(&vec![vec![text("a"), SqlValue::Integer(1)]]).is_err());
}

#[test]
fn first_text_is_absent_without_rows() {
    assert_eq!(first_text(&Vec::new()).unwrap(), None);
    assert_eq!(
        first_text(&vec![vec![text("sk")], vec![text("other")]]).unwrap(),
        Some("sk".to_string())
    );
    assert!(first_text(&vec![vec![SqlValue::Null]]).is_err());
    assert!(first_text(&vec![Vec::new()]).is_err());
}

#[test]
fn task_and_block_validity() {
    let mut task = task_from_row(&task_row()).unwrap();
    assert!(task.is_valid());
    task.title = String::new();
    assert!(!task.is_valid());
    let block = DayBlock {
        id: "b".to_string(),
        task_id: None,
        date: "2024-01-01".to_string(),
        start_slot: 3,
        end_slot: 3,
    };
    assert!(!block.is_valid());
}

#[test]
fn tags_are_encoded_as_a_json_list() {
    assert_eq!(
        encode_tags(&Some(vec!["a".to_string(), "b".to_string()])).unwrap(),
        "[\"a\",\"b\"]"
    );
    assert_eq!(encode_tags(&Some(Vec::new())).unwrap(), "[]");
    assert_eq!(encode_tags(&None).unwrap(), "null");
}

#[test]
fn tags_are_decoded_from_a_json_list_or_are_none() {
    assert_eq!(
        decode_tags(Some("[\"a\", \"b\"]")),
        vec!["a".to_string(), "b".to_string()]
    );
    assert_eq!(decode_tags(Some("[]")), Vec::<String>::new());
    assert_eq!(decode_tags(Some("")), Vec::<String>::new());
    assert_eq!(decode_tags(Some("null")), Vec::<String>::new());
    assert_eq!(decode_tags(Some("[\"a\"")), Vec::<String>::new());
    assert_eq!(decode_tags(None), Vec::<String>::new());
    assert_eq!(tags_from_parse(None), Vec::<String>::new());
    assert_eq!(
        tags_from_parse(Some(vec!["x".to_string()])),
        vec!["x".to_string()]
    );
}

#[test]
fn backup_extension_wraps_the_stamp() {
    assert_eq!(backup_extension("202401011230"), "backup.202401011230.db");
    assert_eq!(backup_extension(""), "backup..db");
    assert_eq!(BACKUP_STAMP_FORMAT, "%Y%m%d%H%M");
}

#[test]
fn clock_gives_whole_seconds_since_1970() {
    let now = unix_seconds().unwrap();
    assert!(now > 1_600_000_000);
    assert_eq!(seconds_to_stamp(0), Some(0));
    assert_eq!(seconds_to_stamp(1704112200), Some(1704112200));
    assert_eq!(seconds_to_stamp(i64::MAX as u64), Some(i64::MAX));
    assert_eq!(seconds_to_stamp(i64::MAX as u64 + 1), None);
    assert_eq!(seconds_to_stamp(u64::MAX), None);
    assert_eq!(stamp_or_failure(Some(7)).unwrap(), 7);
    assert_eq!(stamp_or_failure(None).unwrap_err().message, CLOCK_UNUSABLE);
}

#[test]
fn probe_parameters_are_table_and_column() {
    let probes = baseline_probes();
    let params = probe_params(&probes[0]);
    assert_eq!(params.len(), 2);
    assert!(matches!(&params[0], SqlValue::Text(t) if t == "tasks"));
    assert!(matches!(&params[1], SqlValue::Text(c) if c == "is_today"));
}

#[test]
fn init_db_fails_where_the_file_cannot_be_opened() {
    let outcome = init_db(&std::path::PathBuf::from(
        "/nonexistent-directory/of/cadence/cadence.db",
    ));
    assert!(outcome.is_err());
}

#[test]
fn command_error_takes_text() {
    let e = CommandError::new("boom");
    assert_eq!(e.message, "boom");
    let e: CommandError = "from str".into();
    assert_eq!(e.message, "from str");
    let e: CommandError = String::from("from string").into();
    assert_eq!(e.message, "from string");
    let bad = serde_json::from_str::<Vec<String>>("{").unwrap_err();
    let text = bad.to_string();
    let e: CommandError = bad.into();
    assert_eq!(e.message, text);
    let conn = rusqlite::Connection::open_in_memory().unwrap();
    let bad = conn.execute_batch("SELECT * FROM nowhere").unwrap_err();
    let text = bad.to_string();
    let e: CommandError = bad.into();
    assert_eq!(e.message, text);
}

#[test]
fn request_names_model_prompt_and_content() {
    for (kind, prompt) in [
        (Assistance::Enrich, ENRICH_PROMPT),
        (Assistance::Plan, PLAN_PROMPT),
        (Assistance::Refine, REFINE_PROMPT),
    ] {
        assert_eq!(kind.prompt(), prompt);
        let request = chat_request(kind, "the content".to_string());
        assert_eq!(request.model, MODEL);
        assert_eq!(request.model, "gpt-4-turbo-preview");
        assert_eq!(request.messages.len(), 2);
        assert_eq!(request.messages[0].role, "system");
        assert_eq!(request.messages[0].content, prompt);
        assert_eq!(request.messages[1].role, "user");
        assert_eq!(request.messages[1].content, "the content");
    }
}

#[test]
fn exchange_needs_a_stored_key() {
    let e = begin_exchange(Assistance::Enrich, None, "t".to_string()).unwrap_err();
    assert_eq!(e.message, MISSING_KEY);
    assert_eq!(e.message, "OpenAI API key not found in settings");
    let (key, request) =
        begin_exchange(Assistance::Plan, Some("sk-test".to_string()), "[]".to_string()).unwrap();
    assert_eq!(key, "sk-test");
    assert_eq!(request.messages[0].content, PLAN_PROMPT);
    assert_eq!(request.messages[1].content, "[]");
}

#[test]
fn refine_content_joins_schedule_and_instruction() {
    assert_eq!(
        refine_content("[a]", "move it"),
        "Existing schedule: [a]. Instruction: move it"
    );
    assert_eq!(refine_content("", ""), "Existing schedule: . Instruction: ");
}

#[test]
fn failed_status_reports_status_and_body() {
    assert_eq!(
        api_failure("401 Unauthorized", "{\"error\":1}").message,
        "API Error: 401 Unauthorized - {\"error\":1}"
    );
    let e = finish_exchange(Assistance::Enrich, false, "500 Internal Server Error", "")
        .unwrap_err();
    assert_eq!(e.message, "API Error: 500 Internal Server Error - ");
    // Even a body that would be a good answer is a failure under a failed status.
    let body = "{\"choices\":[{\"message\":{\"content\":\"x\"}}]}";
    let e = finish_exchange(Assistance::Plan, false, "429 Too Many Requests", body).unwrap_err();
    assert_eq!(
        e.message,
        format!("API Error: 429 Too Many Requests - {}", body)
    );
}

#[test]
fn content_is_the_first_choice_s_message() {
    let body = "{\"choices\":[{\"message\":{\"role\":\"assistant\",\"content\":\"{\\\"tasks\\\":[]}\"}},{\"message\":{\"content\":\"second\"}}]}";
    assert_eq!(
        completion_content(Assistance::Enrich, body).unwrap(),
        "{\"tasks\":[]}"
    );
    assert_eq!(
        finish_exchange(Assistance::Enrich, true, "200 OK", body).unwrap(),
        "{\"tasks\":[]}"
    );
}

#[test]
fn missing_content_is_named_by_kind() {
    for body in [
        "{}",
        "{\"choices\":[]}",
        "{\"choices\":{\"0\":{\"message\":{\"content\":\"x\"}}}}",
        "{\"choices\":[{\"message\":{\"content\":7}}]}",
        "{\"choices\":[{\"message\":{}}]}",
        "[1,2]",
        "null",
    ] {
        assert_eq!(
            completion_content(Assistance::Enrich, body).unwrap_err().message,
            NO_CONTENT
        );
        assert_eq!(
            completion_content(Assistance::Plan, body).unwrap_err().message,
            "No content in response"
        );
        assert_eq!(
            completion_content(Assistance::Refine, body).unwrap_err().message,
            NO_CHOICES
        );
    }
    assert_eq!(NO_CHOICES, "No choices in response");
    assert_eq!(Assistance::Refine.missing(), NO_CHOICES);
    assert_eq!(Assistance::Plan.missing(), NO_CONTENT);
}

#[test]
fn a_body_that_is_no_json_fails_with_the_parser_s_text() {
    let e = completion_content(Assistance::Enrich, "not json").unwrap_err();
    let expected = serde_json::from_str::<serde_json::Value>("not json")
        .unwrap_err()
        .to_string();
    assert_eq!(e.message, expected);
}

#[test]
fn content_or_missing_passes_text_through() {
    assert_eq!(
        content_or_missing(Assistance::Plan, Some("text")).unwrap(),
        "text"
    );
    assert_eq!(
        content_or_missing(Assistance::Plan, None).unwrap_err().message,
        NO_CONTENT
    );
}

#[test]
fn settle_keeps_a_success_and_reports_a_failure_by_its_text() {
    assert_eq!(settle(Ok(5usize)).unwrap(), 5);
    settle(Ok(())).unwrap();
    let conn = rusqlite::Connection::open_in_memory().unwrap();
    let bad = conn.execute_batch("SELECT * FROM nowhere").unwrap_err();
    let text = bad.to_string();
    let e = settle::<()>(Err(bad)).unwrap_err();
    assert_eq!(e.message, text);
    assert!(e.message.contains("no such table"));
}

fn answer(content: Json) -> Json {
    Json::Object(vec![
        ("id".to_string(), Json::Text("x".to_string())),
        (
            "choices".to_string(),
            Json::List(vec![Json::Object(vec![
                ("index".to_string(), Json::Number),
                (
                    "message".to_string(),
                    Json::Object(vec![
                        ("role".to_string(), Json::Text("assistant".to_string())),
                        ("content".to_string(), content),
                    ]),
                ),
            ])]),
        ),
    ])
}

#[test]
fn members_elements_and_strings_of_a_document() {
    let doc = answer(Json::Text("hello".to_string()));
    assert!(matches!(member(&doc, "id"), Some(Json::Text(t)) if t == "x"));
    assert!(member(&doc, "absent").is_none());
    assert!(member(&Json::Null, "id").is_none());
    assert!(member(&Json::List(Vec::new()), "id").is_none());
    let twice = Json::Object(vec![
        ("k".to_string(), Json::Bool(true)),
        ("k".to_string(), Json::Bool(false)),
    ]);
    assert!(matches!(member(&twice, "k"), Some(Json::Bool(true))));
    let list = Json::List(vec![Json::Null, Json::Number]);
    assert!(matches!(element(&list, 0), Some(Json::Null)));
    assert!(matches!(element(&list, 1), Some(Json::Number)));
    assert!(element(&list, 2).is_none());
    assert!(element(&doc, 0).is_none());
    assert_eq!(string_of(&Json::Text("t".to_string())), Some("t"));
    assert_eq!(string_of(&Json::Number), None);
    assert_eq!(string_of(&Json::Null), None);
}

#[test]
fn content_is_found_only_along_the_whole_path() {
    assert_eq!(find_content(&answer(Json::Text("hello".to_string()))), Some("hello"));
    assert_eq!(find_content(&answer(Json::Number)), None);
    assert_eq!(find_content(&answer(Json::Null)), None);
    assert_eq!(find_content(&Json::Object(Vec::new())), None);
    assert_eq!(
        find_content(&Json::Object(vec![("choices".to_string(), Json::List(Vec::new()))])),
        None
    );
    assert_eq!(find_content(&Json::Null), None);
}

#[test]
fn a_document_with_numbers_and_nesting_is_read() {
    let body = "{\"created\":1700000000,\"usage\":{\"total\":1.5e3},\"choices\":[{\"index\":0,\"message\":{\"content\":\"ok\",\"extra\":[true,null,-2]}}]}";
    assert_eq!(completion_content(Assistance::Plan, body).unwrap(), "ok");
}
