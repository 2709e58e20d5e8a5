use celestia::logging::{
    JsonLogger, Logger, LoggerFactory, LoggerKind, LogstashLogger, NoopLogger, StdoutLogger,
};

fn chosen(output: &str) -> LoggerKind {
    LoggerFactory::init_from_env("debug".to_string(), output.to_string()).kind
}

#[test]
fn each_output_name_selects_its_logger() {
    assert_eq!(chosen("stdout"), LoggerKind::Stdout);
    assert_eq!(chosen("json"), LoggerKind::Json);
    assert_eq!(chosen("logstash"), LoggerKind::Logstash);
    assert_eq!(chosen("none"), LoggerKind::Noop);
}

#[test]
fn any_other_output_name_means_standard_output() {
    assert_eq!(chosen(""), LoggerKind::Stdout);
    assert_eq!(chosen("JSON"), LoggerKind::Stdout);
    assert_eq!(chosen("json "), LoggerKind::Stdout);
    assert_eq!(chosen("syslog"), LoggerKind::Stdout);
}

#[test]
fn the_level_is_handed_through() {
    let setup = LoggerFactory::init_from_env("warn".to_string(), "json".to_string());
    assert_eq!(setup.level, "warn");
    assert_eq!(setup.kind, LoggerKind::Json);
}

#[test]
fn each_logger_sets_up_its_own_kind() {
    assert_eq!(StdoutLogger.init("info".to_string()).kind, LoggerKind::Stdout);
    assert_eq!(JsonLogger.init("info".to_string()).kind, LoggerKind::Json);
    assert_eq!(LogstashLogger.init("info".to_string()).kind, LoggerKind::Logstash);
    assert_eq!(NoopLogger.init("trace".to_string()).kind, LoggerKind::Noop);
    assert_eq!(NoopLogger.init("trace".to_string()).level, "trace");
}
