use dablog::cli::{parse_command, CliError, Command, USAGE, USAGE_LINES};
use dablog::fault::Fault;
use dablog::post::{Draft, Post};
use dablog::session::{advance, refusal, start, step, Action, Event, Outcome, Phase, HELP};
use dablog::storage::{
    Param, Reply, Request, CREATE_TABLE, DELETE_POST, INSERT_POST, SELECT_POST,
};

fn stamp() -> String {
    String::from("2021-03-04T05:06:07+00:00")
}

fn post() -> Post {
    Post {
        id: 3,
        created_at: stamp(),
        title: String::from("A title"),
        body: String::from("A body"),
    }
}

fn digits(text: &str) -> bool {
    !text.is_empty() && text.chars().all(|c| c.is_ascii_digit())
}

fn is_utc_stamp(text: &str) -> bool {
    let Some(front) = text.strip_suffix("+00:00") else {
        return false;
    };
    let Some(t) = front.find('T') else {
        return false;
    };
    if t < 10 || !front.is_char_boundary(t - 6) {
        return false;
    }
    let (year, day) = front.split_at(t - 6);
    let (day, time) = day.split_at(6);
    let year_fits = (year.len() == 4 && digits(year))
        || (year.len() >= 5 && (year.starts_with('+') || year.starts_with('-')) && digits(&year[1..]));
    let d: Vec<char> = day.chars().collect();
    let day_fits = d.len() == 6
        && d[0] == '-'
        && d[1].is_ascii_digit()
        && d[2].is_ascii_digit()
        && d[3] == '-'
        && d[4].is_ascii_digit()
        && d[5].is_ascii_digit();
    let c: Vec<char> = time.chars().collect();
    let time_fits = c.len() >= 9
        && c[0] == 'T'
        && c[1].is_ascii_digit()
        && c[2].is_ascii_digit()
        && c[3] == ':'
        && c[4].is_ascii_digit()
        && c[5].is_ascii_digit()
        && c[6] == ':'
        && c[7].is_ascii_digit()
        && c[8].is_ascii_digit();
    let fraction = &c[9.min(c.len())..];
    let fraction_fits = fraction.is_empty()
        || ((fraction.len() == 4 || fraction.len() == 7 || fraction.len() == 10)
            && fraction[0] == '.'
            && fraction[1..].iter().all(|c| c.is_ascii_digit()));
    year_fits && day_fits && time_fits && fraction_fits
}

fn exit_of(action: Action) -> (i32, String, String) {
    match action {
        Action::Exit(outcome) => (outcome.exit_code(), outcome.output_text(), outcome.error_text()),
        other => panic!("{:?}", other),
    }
}

#[test]
fn the_help_is_the_usage_without_its_margins() {
    assert_eq!(HELP, USAGE.trim());
}

#[test]
fn init_first_defines_the_table() {
    let (phase, action) = start(Command::Init, "0.1.0");
    assert_eq!(phase, Phase::CreatingTable);
    assert!(matches!(action, Action::Ask(Request::CreateTable)));
}

#[test]
fn init_then_stores_the_greeting() {
    let (phase, action) = step(Phase::CreatingTable, Event::Answered(Reply::Done), stamp());
    assert_eq!(phase, Phase::StoringGreeting);
    match action {
        Action::Ask(Request::Insert(draft)) => {
            assert_eq!(draft.created_at, stamp());
            assert_eq!(draft.title, "Hello, World!");
            assert_eq!(draft.body, "Hello, World! Welcome to my **dablog**.");
        }
        other => panic!("{:?}", other),
    }
    let (phase, action) = step(Phase::StoringGreeting, Event::Answered(Reply::Inserted(1)), stamp());
    assert_eq!(phase, Phase::Finished);
    assert_eq!(exit_of(action), (0, String::new(), String::new()));
}

#[test]
fn create_opens_the_editor_and_stores_what_it_gives() {
    let (phase, action) = start(Command::Create, "0.1.0");
    assert_eq!(phase, Phase::Editing);
    assert!(matches!(action, Action::Edit));
    let (phase, action) = step(phase, Event::Edited(String::from("My test body")), stamp());
    assert_eq!(phase, Phase::StoringPost);
    match action {
        Action::Ask(Request::Insert(draft)) => {
            assert_eq!(draft.created_at, stamp());
            assert_eq!(draft.title, "Untitled post");
            assert_eq!(draft.body, "My test body");
        }
        other => panic!("{:?}", other),
    }
    let (phase, action) = step(Phase::StoringPost, Event::Answered(Reply::Inserted(5)), stamp());
    assert_eq!(phase, Phase::Finished);
    assert_eq!(exit_of(action), (0, String::new(), String::new()));
}

#[test]
fn read_asks_for_the_row_and_prints_title_then_body() {
    let (phase, action) = start(Command::Read(3), "0.1.0");
    assert_eq!(phase, Phase::Reading(3));
    assert!(matches!(action, Action::Ask(Request::Select(3))));
    let (phase, action) = step(phase, Event::Answered(Reply::Row(post())), stamp());
    assert_eq!(phase, Phase::Finished);
    assert_eq!(exit_of(action), (0, String::from("A title\nA body\n"), String::new()));
}

#[test]
fn read_of_no_row_is_not_found() {
    let (phase, action) = step(Phase::Reading(8), Event::Answered(Reply::NoRow), stamp());
    assert_eq!(phase, Phase::Finished);
    match action {
        Action::Exit(Outcome::Failed { fault, detail }) => {
            assert_eq!(fault, Fault::NotFound(8));
            assert_eq!(detail, "");
        }
        other => panic!("{:?}", other),
    }
}

#[test]
fn delete_asks_for_the_delete_and_ends_quietly() {
    let (phase, action) = start(Command::Delete(4), "0.1.0");
    assert_eq!(phase, Phase::Deleting);
    assert!(matches!(action, Action::Ask(Request::Delete(4))));
    let (phase, action) = step(phase, Event::Answered(Reply::Done), stamp());
    assert_eq!(phase, Phase::Finished);
    assert_eq!(exit_of(action), (0, String::new(), String::new()));
}

#[test]
fn a_failed_statement_is_told_by_the_phase_it_failed_in() {
    let cases = [
        (Phase::CreatingTable, "cannot set up the journal: disk\n"),
        (Phase::StoringGreeting, "cannot write to the journal: disk\n"),
        (Phase::StoringPost, "cannot write to the journal: disk\n"),
        (Phase::Reading(1), "cannot read the journal: disk\n"),
        (Phase::Deleting, "cannot write to the journal: disk\n"),
        (Phase::Editing, "an unexpected answer arrived\n"),
        (Phase::Finished, "an unexpected answer arrived\n"),
    ];
    for (phase, text) in cases {
        let (next, action) =
            step(phase, Event::Answered(Reply::Failed(String::from("disk"))), stamp());
        assert_eq!(next, Phase::Finished);
        assert_eq!(exit_of(action), (1, String::new(), String::from(text)));
    }
}

#[test]
fn an_answer_out_of_turn_is_a_protocol_fault() {
    let cases = [
        (Phase::Editing, Event::Answered(Reply::Done)),
        (Phase::CreatingTable, Event::Answered(Reply::Inserted(1))),
        (Phase::CreatingTable, Event::Edited(String::from("x"))),
        (Phase::StoringGreeting, Event::Answered(Reply::Done)),
        (Phase::StoringPost, Event::Answered(Reply::NoRow)),
        (Phase::Reading(1), Event::Answered(Reply::Done)),
        (Phase::Reading(1), Event::Answered(Reply::Inserted(1))),
        (Phase::Deleting, Event::Answered(Reply::Row(post()))),
        (Phase::Deleting, Event::EditFailed(Fault::TempFile, String::from("x"))),
        (Phase::Finished, Event::Answered(Reply::Done)),
        (Phase::Finished, Event::Edited(String::from("x"))),
    ];
    for (phase, event) in cases {
        let (next, action) = step(phase, event, stamp());
        assert_eq!(next, Phase::Finished);
        assert_eq!(exit_of(action), (1, String::new(), String::from("an unexpected answer arrived\n")));
    }
}

#[test]
fn update_and_build_end_at_once_as_unsupported() {
    for command in [Command::Update(1), Command::Build] {
        let (phase, action) = start(command, "0.1.0");
        assert_eq!(phase, Phase::Finished);
        assert!(matches!(
            action,
            Action::Exit(Outcome::Failed { fault: Fault::Unsupported, .. })
        ));
    }
}

#[test]
fn version_names_the_program_and_its_version() {
    let (phase, action) = start(Command::Version, "0.1.0");
    assert_eq!(phase, Phase::Finished);
    assert_eq!(exit_of(action), (0, String::new(), String::from("dablog v0.1.0\n")));
}

#[test]
fn help_prints_the_usage() {
    let (phase, action) = start(Command::Help, "0.1.0");
    assert_eq!(phase, Phase::Finished);
    assert_eq!(exit_of(action), (0, format!("{}\n", USAGE.trim()), String::new()));
}

#[test]
fn advance_stamps_the_post_with_the_present_time() {
    let before = chrono::Utc::now();
    let (phase, action) = advance(Phase::Editing, Event::Edited(String::from("now")));
    let after = chrono::Utc::now();
    assert_eq!(phase, Phase::StoringPost);
    match action {
        Action::Ask(Request::Insert(draft)) => {
            assert_eq!(draft.title, "Untitled post");
            assert_eq!(draft.body, "now");
            let at = chrono::DateTime::parse_from_rfc3339(&draft.created_at).unwrap();
            assert!(before <= at && at <= after);
            assert!(is_utc_stamp(&draft.created_at), "{}", draft.created_at);
        }
        other => panic!("{:?}", other),
    }
    let (phase, action) = advance(Phase::CreatingTable, Event::Answered(Reply::Done));
    assert_eq!(phase, Phase::StoringGreeting);
    match action {
        Action::Ask(Request::Insert(draft)) => {
            assert_eq!(draft.title, "Hello, World!");
            assert!(chrono::DateTime::parse_from_rfc3339(&draft.created_at).is_ok());
            assert!(is_utc_stamp(&draft.created_at), "{}", draft.created_at);
        }
        other => panic!("{:?}", other),
    }
}

#[test]
fn advance_moves_as_step_where_no_post_is_stored() {
    let (phase, action) = advance(Phase::Reading(3), Event::Answered(Reply::Row(post())));
    assert_eq!(phase, Phase::Finished);
    assert_eq!(exit_of(action), (0, String::from("A title\nA body\n"), String::new()));
    let (phase, action) = advance(Phase::Reading(3), Event::Answered(Reply::NoRow));
    assert_eq!(phase, Phase::Finished);
    assert!(matches!(action, Action::Exit(Outcome::Failed { fault: Fault::NotFound(3), .. })));
    let (phase, action) = advance(Phase::Deleting, Event::Answered(Reply::Done));
    assert_eq!(phase, Phase::Finished);
    assert_eq!(exit_of(action), (0, String::new(), String::new()));
}

#[test]
fn a_refused_command_line_ends_with_its_fault() {
    let outcome = refusal(CliError::Usage(String::from("Invalid arguments.")));
    assert_eq!(outcome.exit_code(), 1);
    assert_eq!(outcome.output_text(), "");
    assert_eq!(outcome.error_text(), "the arguments are not understood: Invalid arguments.\n");
    let outcome = refusal(CliError::BadId(String::from("abc")));
    assert_eq!(outcome.exit_code(), 1);
    assert_eq!(outcome.error_text(), "the id is not an integer: abc\n");
    let outcome = refusal(CliError::NoCommand);
    assert_eq!(outcome.exit_code(), 1);
    assert_eq!(outcome.error_text(), "no command was given\n");
}

#[test]
fn every_fault_has_its_sentence() {
    let cases = [
        (Fault::StorageInit, "cannot set up the journal"),
        (Fault::StorageWrite, "cannot write to the journal"),
        (Fault::StorageRead, "cannot read the journal"),
        (Fault::NotFound(1), "no post has this id"),
        (Fault::TempFile, "cannot make a scratch file"),
        (Fault::EditorNotConfigured, "no editor is configured"),
        (Fault::EditorProcess, "the editor failed"),
        (Fault::ContentRead, "cannot read what the editor wrote"),
        (Fault::Unsupported, "this command is not supported yet"),
        (Fault::Usage, "the arguments are not understood"),
        (Fault::BadId, "the id is not an integer"),
        (Fault::NoCommand, "no command was given"),
        (Fault::Protocol, "an unexpected answer arrived"),
    ];
    for (fault, sentence) in cases {
        assert_eq!(fault.describe(), sentence);
        assert_eq!(Outcome::bare(fault).error_text(), format!("{}\n", sentence));
        assert_eq!(Outcome::bare(fault).exit_code(), 1);
    }
    assert_eq!(Outcome::quiet().exit_code(), 0);
    assert_eq!(Outcome::quiet().error_text(), "");
    assert_eq!(Outcome::quiet().output_text(), "");
}

#[test]
fn each_request_has_its_statement_and_parameters() {
    assert_eq!(Request::CreateTable.statement(), CREATE_TABLE);
    assert!(Request::CreateTable.parameters().is_empty());
    assert!(CREATE_TABLE.contains("id         INTEGER PRIMARY KEY AUTOINCREMENT"));
    assert!(CREATE_TABLE.contains("created_at TEXT NOT NULL"));
    assert!(CREATE_TABLE.contains("title      TEXT NOT NULL"));
    assert!(CREATE_TABLE.contains("body       TEXT NOT NULL"));

    let insert = Request::Insert(Draft::untitled(stamp(), String::from("b")));
    assert_eq!(insert.statement(), "INSERT INTO posts VALUES (?, ?, ?, ?)");
    assert_eq!(insert.statement(), INSERT_POST);
    let params = insert.parameters();
    assert_eq!(params.len(), 4);
    assert!(matches!(&params[0], Param::Null));
    assert!(matches!(&params[1], Param::Text(t) if *t == stamp()));
    assert!(matches!(&params[2], Param::Text(t) if t == "Untitled post"));
    assert!(matches!(&params[3], Param::Text(t) if t == "b"));

    assert_eq!(Request::Select(7).statement(), "SELECT * FROM posts WHERE id = ?");
    assert_eq!(Request::Select(7).statement(), SELECT_POST);
    let params = Request::Select(7).parameters();
    assert_eq!(params.len(), 1);
    assert!(matches!(params[0], Param::Integer(7)));

    assert_eq!(Request::Delete(-2).statement(), "DELETE FROM posts WHERE ID = ?");
    assert_eq!(Request::Delete(-2).statement(), DELETE_POST);
    let params = Request::Delete(-2).parameters();
    assert_eq!(params.len(), 1);
    assert!(matches!(params[0], Param::Integer(-2)));
}

#[test]
fn the_shape_of_a_stamp_is_told_apart() {
    for text in [
        "2021-03-04T05:06:07+00:00",
        "2021-03-04T05:06:07.250+00:00",
        "2021-03-04T05:06:07.250001+00:00",
        "2021-03-04T05:06:07.250000001+00:00",
        "0000-01-01T00:00:00+00:00",
        "+10000-01-01T00:00:00+00:00",
        "-0001-12-31T23:59:60+00:00",
    ] {
        assert!(is_utc_stamp(text), "{}", text);
    }
    for text in [
        "",
        "+00:00",
        "2021-03-04T05:06:07Z",
        "2021-03-04T05:06:07+01:00",
        "2021-03-04 05:06:07+00:00",
        "2021-03-04T05:06:07.25+00:00",
        "21-03-04T05:06:07+00:00",
        "2021-3-04T05:06:07+00:00",
    ] {
        assert!(!is_utc_stamp(text), "{}", text);
    }
}

#[test]
fn stamps_come_in_the_order_of_their_moments() {
    let mut stamps: Vec<String> = Vec::new();
    for _ in 0..20 {
        match advance(Phase::Editing, Event::Edited(String::new())) {
            (Phase::StoringPost, Action::Ask(Request::Insert(draft))) => {
                assert!(is_utc_stamp(&draft.created_at), "{}", draft.created_at);
                stamps.push(draft.created_at);
            }
            other => panic!("{:?}", other),
        }
    }
    for pair in stamps.windows(2) {
        let earlier = chrono::DateTime::parse_from_rfc3339(&pair[0]).unwrap();
        let later = chrono::DateTime::parse_from_rfc3339(&pair[1]).unwrap();
        assert!(earlier <= later);
    }
}

#[test]
fn unrecognised_input_prints_the_usage_on_the_error_stream() {
    let argv = vec![String::from("dablog"), String::from("frobnicate")];
    let outcome = refusal(parse_command(&argv).unwrap_err());
    assert_eq!(outcome.exit_code(), 1);
    assert_eq!(outcome.output_text(), "");
    let told = outcome.error_text();
    assert!(told.starts_with("the arguments are not understood: "));
    assert!(told.ends_with(&format!("{}\n", USAGE_LINES)));
}
