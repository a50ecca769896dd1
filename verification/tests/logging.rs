use rs_ffmpeg::{file_name, init_logger, log_line, LogHelper, LogLevel, LoggerOnce};

#[test]
fn flags_name_levels_by_their_letter() {
    assert_eq!(LogHelper::init_logger("D"), LogLevel::Debug);
    assert_eq!(LogHelper::init_logger("I"), LogLevel::Info);
    assert_eq!(LogHelper::init_logger("W"), LogLevel::Warn);
    assert_eq!(LogHelper::init_logger("E"), LogLevel::Error);
    assert_eq!(LogHelper::init_logger("T"), LogLevel::Trace);
}

#[test]
fn any_other_flag_asks_for_trace() {
    assert_eq!(LogHelper::init_logger(""), LogLevel::Trace);
    assert_eq!(LogHelper::init_logger("d"), LogLevel::Trace);
    assert_eq!(LogHelper::init_logger("DD"), LogLevel::Trace);
    assert_eq!(LogHelper::init_logger("Debug"), LogLevel::Trace);
    assert_eq!(LogHelper::init_logger(" E"), LogLevel::Trace);
    assert_eq!(LogHelper::init_logger("\u{00C9}"), LogLevel::Trace);
}

#[test]
fn the_first_initialisation_installs_and_the_others_do_nothing() {
    let mut once = LoggerOnce::new();
    assert_eq!(once.level(), None);
    assert_eq!(init_logger(&mut once, "W"), Some(LogLevel::Warn));
    assert_eq!(once.level(), Some(LogLevel::Warn));
    assert_eq!(init_logger(&mut once, "W"), None);
    assert_eq!(init_logger(&mut once, "D"), None);
    assert_eq!(init_logger(&mut once, "nonsense"), None);
    assert_eq!(once.level(), Some(LogLevel::Warn));
}

#[test]
fn an_unknown_flag_initialises_with_trace() {
    let mut once = LoggerOnce::new();
    assert_eq!(init_logger(&mut once, "T"), Some(LogLevel::Trace));
    assert_eq!(init_logger(&mut once, "E"), None);
    assert_eq!(once.level(), Some(LogLevel::Trace));
}

#[test]
fn levels_have_their_letter_and_colour() {
    assert_eq!(LogLevel::Trace.tag(), 'T');
    assert_eq!(LogLevel::Debug.tag(), 'D');
    assert_eq!(LogLevel::Info.tag(), 'I');
    assert_eq!(LogLevel::Warn.tag(), 'W');
    assert_eq!(LogLevel::Error.tag(), 'E');
    assert_eq!(LogLevel::Trace.color(), "\x1B[0m");
    assert_eq!(LogLevel::Debug.color(), "\x1B[92m");
    assert_eq!(LogLevel::Info.color(), "\x1B[34m");
    assert_eq!(LogLevel::Warn.color(), "\x1B[93m");
    assert_eq!(LogLevel::Error.color(), "\x1B[31m");
}

#[test]
fn the_letter_of_a_level_is_its_flag() {
    for level in [LogLevel::Debug, LogLevel::Info, LogLevel::Warn, LogLevel::Error] {
        let flag = format!("{}", level.tag());
        assert_eq!(LogHelper::init_logger(&flag), level);
    }
}

#[test]
fn file_name_is_what_follows_the_last_slash() {
    assert_eq!(file_name("src/codec/decoder.rs"), "decoder.rs");
    assert_eq!(file_name("decoder.rs"), "decoder.rs");
    assert_eq!(file_name("/decoder.rs"), "decoder.rs");
    assert_eq!(file_name("src/codec/"), "");
    assert_eq!(file_name(""), "");
    assert_eq!(file_name("/"), "");
    assert_eq!(file_name("a//b"), "b");
    assert_eq!(file_name("unknown"), "unknown");
    assert_eq!(file_name("caf\u{00E9}/\u{00FC}ber.rs"), "\u{00FC}ber.rs");
}

#[test]
fn a_log_line_is_laid_out_in_its_colour() {
    assert_eq!(
        log_line(
            LogLevel::Info,
            "2021-03-04 05:06:07.089",
            "src/codec/decoder.rs",
            71,
            "created decoder"
        ),
        "\x1B[34m2021-03-04 05:06:07.089 [decoder.rs:71] [I] created decoder\x1B[0m"
    );
    assert_eq!(
        log_line(LogLevel::Error, "now", "unknown", 0, ""),
        "\x1B[31mnow [unknown:0] [E] \x1B[0m"
    );
    assert_eq!(log_line(LogLevel::Trace, "", "", 7, "x"), "\x1B[0m [:7] [T] x\x1B[0m");
}

#[test]
fn line_numbers_are_written_in_decimal() {
    for (line, digits) in [
        (0u32, "0"),
        (9, "9"),
        (10, "10"),
        (99, "99"),
        (100, "100"),
        (1024, "1024"),
        (90210, "90210"),
        (u32::MAX, "4294967295"),
    ] {
        assert_eq!(
            log_line(LogLevel::Warn, "t", "a/b.rs", line, "m"),
            format!("\x1B[93mt [b.rs:{}] [W] m\x1B[0m", digits)
        );
    }
}
