use nimiq_logging::text::{has_prefix, last_segment, pad_right};

#[test]
fn last_segment_of_a_module_path() {
    assert_eq!(last_segment("nimiq_lib::extras::logging"), "logging");
    assert_eq!(last_segment("nimiq_consensus::consensus"), "consensus");
}

#[test]
fn last_segment_of_a_plain_name_is_the_name() {
    assert_eq!(last_segment("nimiq_lib"), "nimiq_lib");
    assert_eq!(last_segment("a"), "a");
    assert_eq!(last_segment(""), "");
}

#[test]
fn last_segment_keeps_a_single_colon() {
    assert_eq!(last_segment("a:b"), "a:b");
    assert_eq!(last_segment(":"), ":");
    assert_eq!(last_segment("a::b:c"), "b:c");
}

#[test]
fn last_segment_behind_a_closing_separator_is_empty() {
    assert_eq!(last_segment("a::"), "");
    assert_eq!(last_segment("::"), "");
    assert_eq!(last_segment("a::b::"), "");
}

#[test]
fn last_segment_reads_separators_from_the_left() {
    assert_eq!(last_segment("a:::b"), ":b");
    assert_eq!(last_segment("a::::b"), "b");
    assert_eq!(last_segment(":::"), ":");
    assert_eq!(last_segment("a:::::b"), ":b");
}

#[test]
fn last_segment_of_other_scripts() {
    assert_eq!(last_segment("größe::maß"), "maß");
    assert_eq!(last_segment("日本::語"), "語");
}

#[test]
fn last_segment_agrees_with_split() {
    let paths = [
        "",
        ":",
        "::",
        ":::",
        "::::",
        "a",
        "a:",
        "a::",
        "::a",
        "a::b",
        "a:::b",
        "a::b::c",
        "a::b:::c::",
        "x:y::z:",
        "nimiq_network::connection::network_agent",
        "é::ü::ß",
    ];
    for path in paths {
        assert_eq!(last_segment(path), path.split("::").last().unwrap());
    }
}

#[test]
fn pad_right_fills_with_blanks() {
    assert_eq!(pad_right("abc", 6), "abc   ");
    assert_eq!(pad_right("", 3), "   ");
    assert_eq!(pad_right("logging", 20), "logging             ");
}

#[test]
fn pad_right_leaves_a_long_text_as_it_is() {
    assert_eq!(pad_right("abcdef", 6), "abcdef");
    assert_eq!(pad_right("abcdefg", 6), "abcdefg");
    assert_eq!(pad_right("abc", 0), "abc");
    assert_eq!(pad_right("", 0), "");
}

#[test]
fn pad_right_counts_characters() {
    assert_eq!(pad_right("äö", 4), "äö  ");
    assert_eq!(pad_right("äö", 4).chars().count(), 4);
}

#[test]
fn pad_right_agrees_with_the_formatter() {
    for text in ["", "a", "module", "a_rather_long_module_name", "ünïcödé"] {
        for width in [0usize, 1, 6, 7, 20, 40] {
            assert_eq!(pad_right(text, width), format!("{: <width$}", text, width = width));
        }
    }
}

#[test]
fn has_prefix_tells_a_prefix() {
    assert!(has_prefix("nimiq_lib", "nimiq"));
    assert!(has_prefix("nimiq", "nimiq"));
    assert!(has_prefix("nimiq", ""));
    assert!(has_prefix("", ""));
    assert!(!has_prefix("nimi", "nimiq"));
    assert!(!has_prefix("beserial", "nimiq"));
    assert!(!has_prefix("libargon2_sys", "nimiq"));
    assert!(!has_prefix("my_nimiq", "nimiq"));
    assert!(!has_prefix("Nimiq_lib", "nimiq"));
    assert!(!has_prefix("", "nimiq"));
}

#[test]
fn has_prefix_agrees_with_starts_with() {
    let texts = ["", "n", "nimiq", "nimiq_hash", "nimi_q", "größe", "grö"];
    for target in texts {
        for prefix in texts {
            assert_eq!(has_prefix(target, prefix), target.starts_with(prefix));
        }
    }
}
