//! Tests of the matcher, the substitution engine, and the variable store.

use helmwrap::chars::{chars_to_string, str_to_chars};
use helmwrap::paths::final_path_segment;
use helmwrap::pattern::{make_pattern_text, make_regex_pattern_text};
use helmwrap::runtime::HelmRuntime;
use helmwrap::subst::substitute;

#[test]
fn substitute_replaces_every_occurrence() {
    let out = substitute(
        "a: {{.Release.Name}} b: {{.Release.Name}}",
        "Release.Name",
        "rel",
    );
    assert_eq!(out, "a: rel b: rel");
}

#[test]
fn substitute_adjacent_tokens() {
    let out = substitute("{{.Release.Name}}{{.Release.Name}}", "Release.Name", "v");
    assert_eq!(out, "vv");
}

#[test]
fn substitute_is_case_insensitive_and_whitespace_tolerant() {
    for text in [
        "{{.Release.Name}}",
        "{{ .release.name }}",
        "{{  .RELEASE.NAME  }}",
    ] {
        let out = substitute(text, "Release.Name", "rel");
        assert_eq!(out, "rel", "token form {:?} must resolve", text);
    }
}

#[test]
fn substitute_accepts_token_without_leading_dot() {
    let out = substitute("{{ Release.Name }}", "Release.Name", "rel");
    assert_eq!(out, "rel");
}

#[test]
fn substitute_is_exact_token() {
    let text = "{{ .Release.Namespace }}";
    let out = substitute(text, "Release.Name", "MUST-NOT-APPEAR");
    assert_eq!(out, text);
}

#[test]
fn substitute_ignores_unrelated_text() {
    let text = "no tokens here, just {braces} and {{ almost.But.Different }}";
    let out = substitute(text, "Release.Name", "rel");
    assert_eq!(out, text);
}

#[test]
fn substitute_keeps_unmatched_newlines_and_unicode() {
    let text = "x: {{.Chart.Name}}\ny: café {{ .chart.name }}\n";
    let out = substitute(text, "Chart.Name", "app");
    assert_eq!(out, "x: app\ny: café app\n");
}

#[test]
fn substitute_leaves_unclosed_tokens_alone() {
    let text = "open: {{ .Release.Name and never closed";
    let out = substitute(text, "Release.Name", "rel");
    assert_eq!(out, text);
}

#[test]
fn substitute_requires_the_whole_name() {
    let out = substitute("{{ .Release }}", "Release.Name", "rel");
    assert_eq!(out, "{{ .Release }}");
}

#[test]
fn make_pattern_renders_the_documented_text() {
    let runtime = HelmRuntime::new();
    assert_eq!(
        runtime.make_pattern("Release.Name"),
        "(?i)\\{\\{\\s*.Release.Name\\s*\\}\\}"
    );
    assert_eq!(
        runtime.make_regex_pattern(".Release.Name"),
        "(?i)\\{\\{\\s*.Release.Name\\s*\\}\\}"
    );
    assert_eq!(
        make_pattern_text("Values.image.tag"),
        make_regex_pattern_text(".Values.image.tag")
    );
}

#[test]
fn store_returns_last_write() {
    let mut runtime = HelmRuntime::new();
    runtime.set_implicit_var("release.name".to_string(), "first".to_string());
    runtime.set_implicit_var("release.name".to_string(), "second".to_string());
    assert_eq!(
        runtime.get_implicit_var("release.name").map(String::as_str),
        Some("second")
    );
    assert_eq!(runtime.get_implicit_var("unknown.key"), None);
}

#[test]
fn store_keeps_implicit_and_explicit_apart() {
    let mut runtime = HelmRuntime::new();
    runtime.set_implicit_var("k".to_string(), "imp".to_string());
    runtime.set_explicit_var("k".to_string(), "exp".to_string());
    assert_eq!(
        runtime.get_implicit_var("k").map(String::as_str),
        Some("imp")
    );
    assert_eq!(
        runtime.get_explicit_var("k").map(String::as_str),
        Some("exp")
    );
    assert_eq!(runtime.get_raw_variables().get("k").map(String::as_str), Some("imp"));
    assert_eq!(
        runtime.get_formatted_variables().get("k").map(String::as_str),
        Some("exp")
    );
}

#[test]
fn final_path_segment_takes_the_last_segment() {
    assert_eq!(
        final_path_segment("/charts/app").map(|s| s.to_string()),
        Some("app".to_string())
    );
    assert_eq!(
        final_path_segment("/charts/app/").map(|s| s.to_string()),
        Some("app".to_string())
    );
    assert_eq!(
        final_path_segment("app").map(|s| s.to_string()),
        Some("app".to_string())
    );
    assert_eq!(final_path_segment(""), None);
    assert_eq!(final_path_segment("///"), None);
}

#[test]
fn chars_round_trip() {
    let v = str_to_chars("héllo {{}}");
    assert_eq!(chars_to_string(&v), "héllo {{}}");
}

#[test]
fn runtime_test_message() {
    let runtime = HelmRuntime::new();
    assert_eq!(runtime.test(), "help");
}
