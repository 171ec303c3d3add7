use log::Log;
use nimiq_logging::dispatch::{choose_sink, nimiq_modules, DispatchBuilder, Sink};
use nimiq_logging::format::{nimiq_colors, LineFormatter};
use nimiq_logging::level::Threshold;
use nimiq_logging::settings::{CommandLine, LogSettings};
use nimiq_logging::{initialize_logging, NimiqDispatch};

fn tag(module: &str, level: Threshold) -> (String, Threshold) {
    (module.to_string(), level)
}

fn built(dispatch: fern::Dispatch) -> Box<dyn Log> {
    dispatch.chain(fern::Output::call(|_| {})).into_log().1
}

fn passes(logger: &dyn Log, target: &str, level: log::Level) -> bool {
    logger.enabled(&log::Metadata::builder().target(target).level(level).build())
}

/// The most verbose level that passes for `target`, as a threshold.
fn threshold(logger: &dyn Log, target: &str) -> Threshold {
    let levels = [
        (log::Level::Trace, Threshold::Trace),
        (log::Level::Debug, Threshold::Debug),
        (log::Level::Info, Threshold::Info),
        (log::Level::Warn, Threshold::Warn),
        (log::Level::Error, Threshold::Error),
    ];
    for (level, threshold) in levels {
        if passes(logger, target, level) {
            return threshold;
        }
    }
    Threshold::Off
}

fn settings(level: Option<Threshold>, tags: Vec<(String, Threshold)>) -> LogSettings {
    LogSettings { level, tags, timestamps: false, file: None }
}

#[test]
fn the_list_of_own_modules() {
    let modules = nimiq_modules();
    assert_eq!(modules.len(), 31);
    assert_eq!(modules[0], "nimiq_accounts");
    assert_eq!(modules[30], "nimiq_handel");
    assert!(modules.contains(&"nimiq_lib"));
    assert!(modules.contains(&"nimiq_block_production_albatross"));
    assert!(modules.iter().all(|module| module.starts_with("nimiq")));
    assert!(!modules.contains(&"beserial"));
    assert!(!modules.contains(&"libargon2_sys"));
    let mut sorted = modules.clone();
    sorted.sort();
    sorted.dedup();
    assert_eq!(sorted.len(), 31);
}

#[test]
fn a_new_dispatch_lets_everything_pass() {
    let builder = DispatchBuilder::new();
    assert_eq!(builder.formatter, None);
    let logger = built(builder.dispatch);
    assert_eq!(threshold(&*logger, "anything"), Threshold::Trace);
    assert_eq!(threshold(&*logger, "nimiq_lib"), Threshold::Trace);
}

#[test]
fn level_sets_the_default() {
    for level in [
        Threshold::Off,
        Threshold::Error,
        Threshold::Warn,
        Threshold::Info,
        Threshold::Debug,
        Threshold::Trace,
    ] {
        let logger = built(DispatchBuilder::new().level(level).dispatch);
        assert_eq!(threshold(&*logger, "anything"), level);
    }
}

#[test]
fn level_for_sets_one_module() {
    for level in [
        Threshold::Off,
        Threshold::Error,
        Threshold::Warn,
        Threshold::Info,
        Threshold::Debug,
        Threshold::Trace,
    ] {
        let builder = DispatchBuilder::new().level(Threshold::Info).level_for("hyper", level);
        let logger = built(builder.dispatch);
        assert_eq!(threshold(&*logger, "hyper"), level);
        assert_eq!(threshold(&*logger, "tokio"), Threshold::Info);
    }
}

#[test]
fn a_later_level_for_replaces_an_earlier_one() {
    let builder = DispatchBuilder::new()
        .level_for("hyper", Threshold::Error)
        .level_for("tokio", Threshold::Warn)
        .level_for("hyper", Threshold::Debug);
    let logger = built(builder.dispatch);
    assert_eq!(threshold(&*logger, "hyper"), Threshold::Debug);
    assert_eq!(threshold(&*logger, "tokio"), Threshold::Warn);
}

#[test]
fn levels_for_sets_the_tags_in_their_order() {
    let tags = vec![
        tag("a", Threshold::Error),
        tag("b", Threshold::Warn),
        tag("a", Threshold::Trace),
    ];
    let builder = DispatchBuilder::new().level(Threshold::Info).levels_for(&tags);
    let logger = built(builder.dispatch);
    assert_eq!(threshold(&*logger, "a"), Threshold::Trace);
    assert_eq!(threshold(&*logger, "b"), Threshold::Warn);
    assert_eq!(threshold(&*logger, "c"), Threshold::Info);
}

#[test]
fn level_for_nimiq_sets_every_own_module() {
    let builder = DispatchBuilder::new().level(Threshold::Info).level_for_nimiq(Threshold::Debug);
    let logger = built(builder.dispatch);
    for module in nimiq_modules() {
        assert_eq!(threshold(&*logger, module), Threshold::Debug);
    }
    assert_eq!(threshold(&*logger, "hyper"), Threshold::Info);
    assert_eq!(threshold(&*logger, "beserial"), Threshold::Info);
    assert_eq!(threshold(&*logger, "libargon2_sys"), Threshold::Info);
}

#[test]
fn level_for_nimiq_replaces_what_a_module_had() {
    let builder = DispatchBuilder::new()
        .level_for("nimiq_keys", Threshold::Error)
        .level_for("hyper", Threshold::Error)
        .level_for_nimiq(Threshold::Warn);
    let logger = built(builder.dispatch);
    assert_eq!(threshold(&*logger, "nimiq_keys"), Threshold::Warn);
    assert_eq!(threshold(&*logger, "hyper"), Threshold::Error);
}

#[test]
fn only_nimiq_shuts_out_every_other_target() {
    let builder = DispatchBuilder::new().level(Threshold::Info).only_nimiq();
    let logger = built(builder.dispatch);
    assert_eq!(threshold(&*logger, "nimiq_lib"), Threshold::Info);
    assert_eq!(threshold(&*logger, "nimiq_lib::extras"), Threshold::Info);
    assert_eq!(threshold(&*logger, "hyper"), Threshold::Off);
    assert_eq!(threshold(&*logger, "beserial"), Threshold::Off);
    assert_eq!(threshold(&*logger, "libargon2_sys"), Threshold::Off);
    for module in nimiq_modules() {
        assert_eq!(threshold(&*logger, module), Threshold::Info);
    }
}

#[test]
fn pretty_logging_records_the_formatter() {
    let plain = DispatchBuilder::new().pretty_logging(false);
    assert_eq!(plain.formatter, Some(LineFormatter { timestamps: false, colors: nimiq_colors() }));
    let stamped = DispatchBuilder::new().level(Threshold::Warn).pretty_logging(true);
    assert_eq!(stamped.formatter, Some(LineFormatter { timestamps: true, colors: nimiq_colors() }));
    let logger = built(stamped.dispatch);
    assert_eq!(threshold(&*logger, "anything"), Threshold::Warn);
}

#[test]
fn without_settings_everything_is_at_info() {
    let pipeline = initialize_logging(None, None);
    assert_eq!(
        pipeline.dispatch.formatter,
        Some(LineFormatter { timestamps: false, colors: nimiq_colors() })
    );
    assert!(matches!(pipeline.sink, Sink::Stderr));
    let logger = built(pipeline.dispatch.dispatch);
    assert_eq!(threshold(&*logger, "nimiq_lib"), Threshold::Info);
    assert_eq!(threshold(&*logger, "hyper"), Threshold::Info);
    assert_eq!(threshold(&*logger, "beserial"), Threshold::Info);
}

#[test]
fn the_level_counts_for_the_own_modules_only() {
    let file = settings(Some(Threshold::Trace), Vec::new());
    let pipeline = initialize_logging(None, Some(&file));
    let logger = built(pipeline.dispatch.dispatch);
    for module in nimiq_modules() {
        assert_eq!(threshold(&*logger, module), Threshold::Trace);
    }
    assert_eq!(threshold(&*logger, "nimiq_consensus::consensus_agent"), Threshold::Trace);
    assert_eq!(threshold(&*logger, "hyper"), Threshold::Info);
    assert_eq!(threshold(&*logger, "beserial"), Threshold::Info);
    assert_eq!(threshold(&*logger, "libargon2_sys"), Threshold::Info);
}

#[test]
fn a_tag_beats_the_level_of_the_own_modules() {
    let file = settings(None, vec![tag("nimiq_lib", Threshold::Warn)]);
    let pipeline = initialize_logging(None, Some(&file));
    let logger = built(pipeline.dispatch.dispatch);
    assert_eq!(threshold(&*logger, "nimiq_lib"), Threshold::Warn);
    assert!(passes(&*logger, "nimiq_lib", log::Level::Warn));
    assert!(!passes(&*logger, "nimiq_lib", log::Level::Info));
    assert_eq!(threshold(&*logger, "nimiq_keys"), Threshold::Info);
}

#[test]
fn a_tag_beats_a_set_level_of_the_own_modules() {
    let file = settings(
        Some(Threshold::Debug),
        vec![tag("nimiq_mempool", Threshold::Error), tag("hyper", Threshold::Trace)],
    );
    let pipeline = initialize_logging(None, Some(&file));
    let logger = built(pipeline.dispatch.dispatch);
    assert_eq!(threshold(&*logger, "nimiq_mempool"), Threshold::Error);
    assert_eq!(threshold(&*logger, "nimiq_network"), Threshold::Debug);
    assert_eq!(threshold(&*logger, "hyper"), Threshold::Trace);
    assert_eq!(threshold(&*logger, "tokio"), Threshold::Info);
}

#[test]
fn a_tag_of_the_command_line_beats_the_file_s() {
    let file = settings(None, vec![tag("moduleB", Threshold::Error)]);
    let command_line =
        CommandLine { log_level: None, log_tags: Some(vec![tag("moduleB", Threshold::Debug)]) };
    let pipeline = initialize_logging(Some(&command_line), Some(&file));
    let logger = built(pipeline.dispatch.dispatch);
    assert_eq!(threshold(&*logger, "moduleB"), Threshold::Debug);
}

#[test]
fn the_command_line_keeps_the_other_tags_of_the_file() {
    let file = settings(
        Some(Threshold::Warn),
        vec![tag("moduleA", Threshold::Trace), tag("moduleB", Threshold::Error)],
    );
    let command_line = CommandLine {
        log_level: Some(Threshold::Debug),
        log_tags: Some(vec![tag("moduleB", Threshold::Off), tag("moduleC", Threshold::Warn)]),
    };
    let pipeline = initialize_logging(Some(&command_line), Some(&file));
    let logger = built(pipeline.dispatch.dispatch);
    assert_eq!(threshold(&*logger, "moduleA"), Threshold::Trace);
    assert_eq!(threshold(&*logger, "moduleB"), Threshold::Off);
    assert_eq!(threshold(&*logger, "moduleC"), Threshold::Warn);
    assert_eq!(threshold(&*logger, "nimiq_hash"), Threshold::Debug);
    assert_eq!(threshold(&*logger, "other"), Threshold::Info);
}

#[test]
fn the_command_line_alone_sets_the_level() {
    let command_line = CommandLine { log_level: Some(Threshold::Error), log_tags: None };
    let pipeline = initialize_logging(Some(&command_line), None);
    let logger = built(pipeline.dispatch.dispatch);
    assert_eq!(threshold(&*logger, "nimiq_utils"), Threshold::Error);
    assert_eq!(threshold(&*logger, "other"), Threshold::Info);
}

#[test]
fn timestamps_follow_the_settings() {
    let file = LogSettings { level: None, tags: Vec::new(), timestamps: true, file: None };
    let pipeline = initialize_logging(None, Some(&file));
    assert_eq!(
        pipeline.dispatch.formatter,
        Some(LineFormatter { timestamps: true, colors: nimiq_colors() })
    );
}

#[test]
fn without_a_file_the_sink_is_standard_error() {
    let file = LogSettings { level: None, tags: Vec::new(), timestamps: false, file: None };
    assert!(matches!(choose_sink(&file), Sink::Stderr));
    assert!(matches!(initialize_logging(None, Some(&file)).sink, Sink::Stderr));
    let command_line = CommandLine { log_level: Some(Threshold::Trace), log_tags: None };
    assert!(matches!(initialize_logging(Some(&command_line), None).sink, Sink::Stderr));
}

#[test]
fn with_a_file_the_sink_is_that_file() {
    let file = LogSettings {
        level: None,
        tags: Vec::new(),
        timestamps: false,
        file: Some("app.log".to_string()),
    };
    match choose_sink(&file) {
        Sink::File(name) => assert_eq!(name, "app.log"),
        Sink::Stderr => panic!("the file was not chosen"),
    }
    match initialize_logging(None, Some(&file)).sink {
        Sink::File(name) => assert_eq!(name, "app.log"),
        Sink::Stderr => panic!("the file was not chosen"),
    }
}
