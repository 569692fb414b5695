use collectd_plugin::filter::FilterBuilder;
use collectd_plugin::level::Level;
use collectd_plugin::level::LevelFilter;

#[test]
fn directive_with_default_end_to_end() {
    let filter = FilterBuilder::new()
        .filter_module("myplugin", LevelFilter::Info)
        .filter_level(LevelFilter::Warn)
        .build();
    assert!(!filter.enabled("myplugin", Level::Debug));
    assert!(filter.enabled("myplugin", Level::Info));
    assert!(filter.enabled("unrelated", Level::Error));
    assert!(!filter.enabled("unrelated", Level::Info));
}

#[test]
fn later_directive_for_same_module_overrides() {
    let filter = FilterBuilder::new()
        .filter_module("m", LevelFilter::Error)
        .filter_module("m", LevelFilter::Debug)
        .build();
    assert!(filter.enabled("m", Level::Debug));
}

#[test]
fn longest_matching_prefix_wins() {
    let filter = FilterBuilder::new()
        .filter_module("a", LevelFilter::Error)
        .filter_module("a::b", LevelFilter::Debug)
        .build();
    assert!(filter.enabled("a::b::c", Level::Debug));
    assert!(!filter.enabled("a::x", Level::Debug));
    assert!(filter.enabled("a::x", Level::Error));
}

#[test]
fn empty_builder_defaults_to_error_everywhere() {
    let filter = FilterBuilder::new().build();
    assert!(filter.enabled("anything", Level::Error));
    assert!(!filter.enabled("anything", Level::Warn));
}

#[test]
fn unmatched_module_without_default_is_disabled() {
    let filter = FilterBuilder::new().filter_module("only", LevelFilter::Trace).build();
    assert!(!filter.enabled("other", Level::Error));
    assert!(filter.enabled("only::sub", Level::Trace));
}

#[test]
fn effective_max_level_is_most_verbose_directive() {
    let filter = FilterBuilder::new()
        .filter_module("module1", LevelFilter::Info)
        .filter_module("module2", LevelFilter::Error)
        .build();
    assert_eq!(filter.filter(), LevelFilter::Info);
}

#[test]
fn parse_mixed_directives() {
    let filter = FilterBuilder::new().parse("crate1::mod1=error,crate1::mod2,crate2=debug").build();
    assert!(filter.enabled("crate1::mod1", Level::Error));
    assert!(!filter.enabled("crate1::mod1", Level::Warn));
    assert!(filter.enabled("crate1::mod2", Level::Trace));
    assert!(filter.enabled("crate2", Level::Debug));
    assert!(!filter.enabled("crate2", Level::Trace));
}

#[test]
fn parse_bare_level_becomes_default() {
    let filter = FilterBuilder::new().parse("warn,crate2=debug").build();
    assert!(filter.enabled("anywhere", Level::Warn));
    assert!(!filter.enabled("anywhere", Level::Info));
    assert!(filter.enabled("crate2", Level::Debug));
}

#[test]
fn parse_level_names_ignore_case() {
    let upper = FilterBuilder::new().parse("WARN").build();
    assert!(upper.enabled("x", Level::Warn));
    assert!(!upper.enabled("x", Level::Info));
    let mixed = FilterBuilder::new().parse("wArN").build();
    assert!(mixed.enabled("x", Level::Warn));
    assert!(!mixed.enabled("x", Level::Info));
}

#[test]
fn parse_invalid_pieces_are_skipped() {
    let filter = FilterBuilder::new().parse("crate1::mod1=noNumber,crate2=debug").build();
    assert!(!filter.enabled("crate1::mod1", Level::Error));
    assert!(filter.enabled("crate2", Level::Debug));

    let filter = FilterBuilder::new().parse("crate1::mod1=warn=info,crate2=debug").build();
    assert!(!filter.enabled("crate1::mod1", Level::Error));
    assert!(filter.enabled("crate2", Level::Debug));
}

#[test]
fn parse_blank_pieces_are_ignored() {
    let filter = FilterBuilder::new().parse("").build();
    assert!(filter.enabled("x", Level::Error));
    assert!(!filter.enabled("x", Level::Warn));

    let filter = FilterBuilder::new().parse(",     ").build();
    assert!(filter.enabled("x", Level::Error));
    assert!(!filter.enabled("x", Level::Warn));
}

#[test]
fn parse_empty_level_grants_everything() {
    let filter = FilterBuilder::new().parse("crate2=").build();
    assert!(filter.enabled("crate2", Level::Trace));
}

#[test]
fn parse_ignores_text_filter_part() {
    let filter = FilterBuilder::new().parse("crate1/a*c").build();
    assert!(filter.enabled("crate1", Level::Trace));
}

#[test]
fn parse_too_many_slashes_adds_nothing() {
    let filter = FilterBuilder::new().parse("debug/abc/a.c").build();
    assert!(filter.enabled("x", Level::Error));
    assert!(!filter.enabled("x", Level::Warn));
}

#[test]
fn parse_trims_whitespace_around_pieces() {
    let filter = FilterBuilder::new().parse("  crate2=debug , warn ").build();
    assert!(filter.enabled("crate2", Level::Debug));
    assert!(filter.enabled("elsewhere", Level::Warn));
    assert!(!filter.enabled("elsewhere", Level::Info));
}
