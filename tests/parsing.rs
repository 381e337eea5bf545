use wav_dynamics::command::{interpret, parse_command, parse_id, split_words, ArgProblem, CommandError, ConsoleCommand};
use wav_dynamics::export::{export_file_name, HEADER_NORMALIZED, HEADER_RAW, HEADER_TIME};
use wav_dynamics::lang::{Lang, Language};

fn ok(line: &str) -> Option<ConsoleCommand> {
    match parse_command(line) {
        Ok(c) => c,
        Err(e) => panic!("{:?}", e),
    }
}

#[test]
fn verbs_are_case_insensitive() {
    assert_eq!(ok("kill 5"), Some(ConsoleCommand::Kill(5)));
    assert_eq!(ok("KILL 7"), Some(ConsoleCommand::Kill(7)));
    assert_eq!(ok("Tasks"), Some(ConsoleCommand::ListTasks));
    assert_eq!(ok("list extra words"), Some(ConsoleCommand::ListTasks));
    assert_eq!(ok("clear"), Some(ConsoleCommand::Clear));
    assert_eq!(ok("QUIT"), Some(ConsoleCommand::Quit));
    assert_eq!(ok("exit"), Some(ConsoleCommand::Quit));
}

#[test]
fn blank_lines_do_nothing() {
    assert_eq!(ok(""), None);
    assert_eq!(ok("   \t "), None);
}

#[test]
fn white_space_separates_words() {
    assert_eq!(ok("  kill\u{3000}\t4  "), Some(ConsoleCommand::Kill(4)));
    let w = split_words(" a  bc\nd ");
    assert_eq!(w, vec![String::from("a"), String::from("bc"), String::from("d")]);
    assert!(split_words("").is_empty());
}

#[test]
fn kill_argument_errors() {
    assert!(matches!(parse_command("kill"), Err(CommandError::BadArguments(ArgProblem::WrongCount))));
    assert!(matches!(parse_command("kill 1 2"), Err(CommandError::BadArguments(ArgProblem::WrongCount))));
    assert!(matches!(parse_command("kill x"), Err(CommandError::BadArguments(ArgProblem::NotAnId))));
    assert!(matches!(parse_command("kill -1"), Err(CommandError::BadArguments(ArgProblem::NotAnId))));
    assert!(matches!(
        parse_command("kill 99999999999999999999999"),
        Err(CommandError::BadArguments(ArgProblem::NotAnId))
    ));
}

#[test]
fn unknown_verb_is_reported_as_typed() {
    match parse_command("Foo bar") {
        Err(CommandError::UnknownCommand(v)) => assert_eq!(v, "Foo"),
        other => panic!("{:?}", other),
    }
}

#[test]
fn interpret_uses_given_folded_verb() {
    let words = vec![String::from("KiLL"), String::from("12")];
    assert_eq!(interpret("kill", &words).unwrap(), Some(ConsoleCommand::Kill(12)));
    assert!(matches!(interpret("KiLL", &words), Err(CommandError::UnknownCommand(_))));
    assert_eq!(interpret("", &Vec::new()).unwrap(), None);
}

#[test]
fn decimal_ids() {
    assert_eq!(parse_id("0"), Some(0));
    assert_eq!(parse_id("+3"), Some(3));
    assert_eq!(parse_id("0042"), Some(42));
    assert_eq!(parse_id("18446744073709551615"), Some(usize::MAX));
    assert_eq!(parse_id("18446744073709551616"), None);
    assert_eq!(parse_id("+"), None);
    assert_eq!(parse_id(""), None);
    assert_eq!(parse_id("4a"), None);
    assert_eq!(parse_id("١٢"), None);
}

#[test]
fn export_names() {
    assert_eq!(export_file_name("song.wav"), "song.csv");
    assert_eq!(export_file_name("table.csv"), "table.csv");
    assert_eq!(export_file_name("mix.wav.csv"), "mix.csv");
    assert_eq!(export_file_name("a.wavb.wav"), "ab.csv");
    assert_eq!(export_file_name("plain"), "plain.csv");
    assert_eq!([HEADER_TIME, HEADER_RAW, HEADER_NORMALIZED], ["Time (s)", "Loudness (dBFS)", "Normalized Loudness (dBFS)"]);
}

#[test]
fn text_tables() {
    let zh = Lang::load(Language::Chinese);
    let en = Lang::load(Language::English);
    assert_eq!(zh.nav_zh_label, "中文");
    assert_eq!(en.nav_en_label, "English");
    assert_eq!(en.status_ready, "Ready");
    assert_eq!(zh.status_ready, "就绪");
    assert_eq!(en.compare_err_duration_fmt.matches("{}").count(), 2);
    assert_eq!(zh.compare_avg_diff_fmt.matches("{}").count(), 1);
}
