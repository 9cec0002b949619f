//! Tests of the resolution pipeline and the subcommands.

use helmwrap::command::{
    classify_helm_output, InstallCommand, InstallOpts, Main, RunReport, UpgradeCommand,
    UpgradeOpts,
};
use helmwrap::runtime::{Document, GlobalOpts, HelmError, HelmRuntime};

fn no_global() -> GlobalOpts {
    GlobalOpts { tiller_namespace: None, namespace: None, timeout: None, debug: false }
}

#[test]
fn implicit_pass_leaves_unbound_tokens_unchanged() {
    let runtime = HelmRuntime::new();
    let mut blob = "a: {{ .Release.Name }}\nb: {{.Branch.Name}}".to_string();
    let before = blob.clone();
    runtime.replace_implicit_vars(&mut blob);
    assert_eq!(blob, before);
}

#[test]
fn implicit_pass_replaces_only_bound_names() {
    let mut runtime = HelmRuntime::new();
    runtime.set_implicit_var("chart.name".to_string(), "app".to_string());
    let mut blob = "c: {{ .Chart.Name }}\nr: {{ .Release.Name }}".to_string();
    runtime.replace_implicit_vars(&mut blob);
    assert_eq!(blob, "c: app\nr: {{ .Release.Name }}");
}

#[test]
fn implicit_passes_compose_in_order() {
    let mut runtime = HelmRuntime::new();
    runtime.set_implicit_var("release.name".to_string(), "X-{{.Chart.Name}}".to_string());
    runtime.set_implicit_var("chart.name".to_string(), "C".to_string());
    let mut blob = "{{.Release.Name}}".to_string();
    runtime.replace_implicit_vars(&mut blob);
    assert_eq!(blob, "X-C");
}

#[test]
fn implicit_pass_resolves_all_five_names() {
    let mut runtime = HelmRuntime::new();
    runtime.set_implicit_var("release.name".to_string(), "r".to_string());
    runtime.set_implicit_var("chart.name".to_string(), "c".to_string());
    runtime.set_implicit_var("source.branch".to_string(), "b".to_string());
    runtime.set_implicit_var("previous.branch".to_string(), "p".to_string());
    runtime.set_implicit_var("starting.canary.percentage".to_string(), "5".to_string());
    let mut blob = "{{.Release.Name}} {{.Chart.Name}} {{.Branch.Name}} {{.Previous.Branch}} {{.Starting.Canary.Percentage}}"
        .to_string();
    runtime.replace_implicit_vars(&mut blob);
    assert_eq!(blob, "r c b p 5");
}

#[test]
fn explicit_pass_needs_a_registered_pattern() {
    let mut runtime = HelmRuntime::new();
    let pattern = runtime.make_pattern("Values.image.tag");
    let mut blob = "tag: {{ .Values.image.tag }}".to_string();
    let before = blob.clone();
    runtime.replace_explicit_vars(&mut blob, &pattern);
    assert_eq!(blob, before, "an unregistered pattern must not rewrite");
    runtime.set_explicit_var(pattern.clone(), "v2".to_string());
    runtime.replace_explicit_vars(&mut blob, &pattern);
    assert_eq!(blob, "tag: v2");
}

#[test]
fn explicit_pass_ignores_foreign_pattern_text() {
    let mut runtime = HelmRuntime::new();
    runtime.set_explicit_var("[0-9]+".to_string(), "v".to_string());
    let mut blob = "n: 42".to_string();
    runtime.replace_explicit_vars(&mut blob, "[0-9]+");
    assert_eq!(blob, "n: 42", "text that is no rendered pattern passes through");
}

#[test]
fn chart_name_derivation_sets_both_variables() {
    let mut runtime = HelmRuntime::new();
    let mut args: Vec<String> = Vec::new();
    runtime.get_and_set_chart_name(Some("/charts/app"), &mut args);
    assert_eq!(args, vec!["/charts/app".to_string()]);
    assert_eq!(
        runtime.get_implicit_var("chart.name").map(String::as_str),
        Some("app")
    );
    assert_eq!(
        runtime.get_implicit_var("chart.path").map(String::as_str),
        Some("/charts/app")
    );
}

#[test]
fn chart_name_resolves_in_values_document() {
    let mut runtime = HelmRuntime::new();
    let mut args: Vec<String> = Vec::new();
    runtime.get_and_set_chart_name(Some("/charts/app"), &mut args);
    let mut values = "name: {{ .Chart.Name }}\npath: {{.Chart.Name}}".to_string();
    runtime.replace_implicit_vars(&mut values);
    assert_eq!(values, "name: app\npath: app");
}

#[test]
fn set_argument_registers_both_entries_and_rewrites_both_documents() {
    let mut runtime = HelmRuntime::new();
    let mut args: Vec<String> = Vec::new();
    runtime.get_and_set_chart_name(Some("/charts/app"), &mut args);
    let override_doc = Document {
        path: "env.yaml".to_string(),
        text: "o: {{ .Values.image.tag }}".to_string(),
    };
    let result = runtime
        .apply_common_args(
            &no_global(),
            Some(override_doc),
            &Some(vec!["image.tag=v2".to_string()]),
            "v: {{.Values.image.tag}}".to_string(),
            &mut args,
        )
        .expect("chart path is bound");
    let pattern = "(?i)\\{\\{\\s*.Values.image.tag\\s*\\}\\}";
    assert_eq!(
        runtime.get_explicit_var(pattern).map(String::as_str),
        Some("v2")
    );
    assert_eq!(
        runtime.get_implicit_var("image.tag").map(String::as_str),
        Some("v2")
    );
    assert_eq!(result.values_text, "v: v2");
    let out = result.override_out.expect("an override was supplied");
    assert_eq!(out.path, "env.yaml");
    assert_eq!(out.text, "o: v2");
    assert_eq!(
        args,
        vec![
            "/charts/app".to_string(),
            "-f".to_string(),
            "env.yaml".to_string(),
            "--set".to_string(),
            "image.tag=v2".to_string(),
        ]
    );
}

#[test]
fn set_value_keeps_everything_after_the_first_separator() {
    let mut runtime = HelmRuntime::new();
    let mut args: Vec<String> = Vec::new();
    runtime.get_and_set_chart_name(Some("/charts/app"), &mut args);
    runtime
        .apply_common_args(
            &no_global(),
            None,
            &Some(vec!["a=b=c".to_string()]),
            String::new(),
            &mut args,
        )
        .expect("chart path is bound");
    assert_eq!(runtime.get_implicit_var("a").map(String::as_str), Some("b=c"));
}

#[test]
fn no_override_file_means_no_override_output() {
    let mut runtime = HelmRuntime::new();
    let mut args: Vec<String> = Vec::new();
    runtime.get_and_set_chart_name(Some("/charts/app"), &mut args);
    let result = runtime
        .apply_common_args(
            &no_global(),
            None,
            &Some(vec!["replicas=3".to_string()]),
            "r: {{.Values.replicas}}".to_string(),
            &mut args,
        )
        .expect("chart path is bound");
    assert!(result.override_out.is_none());
    assert_eq!(result.values_text, "r: 3");
    assert_eq!(result.values_path, "/charts/app/values.yaml");
}

#[test]
fn missing_chart_is_fatal_before_any_change() {
    let mut runtime = HelmRuntime::new();
    let mut args: Vec<String> = Vec::new();
    let result = runtime.apply_common_args(
        &no_global(),
        None,
        &None,
        "text".to_string(),
        &mut args,
    );
    assert!(matches!(result, Err(HelmError::MissingChart)));
    assert!(args.is_empty());
}

#[test]
fn set_keys_resolve_as_implicit_variables_on_the_second_pass() {
    let mut runtime = HelmRuntime::new();
    let mut args: Vec<String> = Vec::new();
    runtime.get_and_set_chart_name(Some("/charts/app"), &mut args);
    let result = runtime
        .apply_common_args(
            &no_global(),
            None,
            &Some(vec!["release.name=canary".to_string()]),
            "r: {{ .Release.Name }}".to_string(),
            &mut args,
        )
        .expect("chart path is bound");
    assert_eq!(result.values_text, "r: canary");
}

#[test]
fn global_flags_are_forwarded_in_order() {
    let mut runtime = HelmRuntime::new();
    let mut args: Vec<String> = Vec::new();
    runtime.get_and_set_chart_name(Some("/charts/app"), &mut args);
    let global = GlobalOpts {
        tiller_namespace: Some("tiller".to_string()),
        namespace: Some("ns".to_string()),
        timeout: Some("30".to_string()),
        debug: true,
    };
    runtime
        .apply_common_args(&global, None, &None, String::new(), &mut args)
        .expect("chart path is bound");
    assert_eq!(
        args,
        vec![
            "/charts/app".to_string(),
            "--tiller-namespace".to_string(),
            "tiller".to_string(),
            "--namespace".to_string(),
            "ns".to_string(),
            "--timeout".to_string(),
            "30".to_string(),
            "--debug".to_string(),
        ]
    );
}

#[test]
fn install_scenario_builds_the_full_invocation() {
    let mut command = InstallCommand::new(HelmRuntime::new());
    let opts = InstallOpts {
        chart: Some("/charts/demo".to_string()),
        name: Some("rel1".to_string()),
        value_files: None,
        set: Some(vec!["replicas=3".to_string()]),
    };
    let spec = command
        .execute(
            &no_global(),
            &opts,
            "/opt/helmhome",
            "{{.Values.replicas}}".to_string(),
            None,
        )
        .expect("chart resolves");
    assert_eq!(spec.program, "/opt/helmhome/helm");
    assert_eq!(
        spec.args,
        vec![
            "install".to_string(),
            "/charts/demo".to_string(),
            "--name".to_string(),
            "rel1".to_string(),
            "--set".to_string(),
            "replicas=3".to_string(),
        ]
    );
    assert_eq!(spec.files.values_text, "3");
    assert_eq!(spec.files.values_path, "/charts/demo/values.yaml");
    assert!(spec.files.override_out.is_none());
    assert_eq!(
        command
            .get_helm_runtime()
            .get_implicit_var("release.name")
            .map(String::as_str),
        Some("rel1")
    );
}

#[test]
fn upgrade_scenario_builds_the_full_invocation() {
    let mut command = UpgradeCommand::new(HelmRuntime::new());
    let opts = UpgradeOpts {
        release: Some("rel1".to_string()),
        chart: Some("/charts/demo".to_string()),
        value_files: Some("env.yaml".to_string()),
        force: true,
        set: Some(vec!["image.tag=v2".to_string()]),
    };
    let spec = command
        .execute(
            &no_global(),
            &opts,
            "/opt/helmhome",
            "t: {{ .Values.image.tag }}".to_string(),
            Some("o: {{.Values.image.tag}}".to_string()),
        )
        .expect("chart resolves");
    assert_eq!(spec.program, "/opt/helmhome/helm");
    assert_eq!(
        spec.args,
        vec![
            "upgrade".to_string(),
            "rel1".to_string(),
            "/charts/demo".to_string(),
            "--force".to_string(),
            "-f".to_string(),
            "env.yaml".to_string(),
            "--set".to_string(),
            "image.tag=v2".to_string(),
        ]
    );
    assert_eq!(spec.files.values_text, "t: v2");
    let out = spec.files.override_out.expect("an override was supplied");
    assert_eq!(out.path, "env.yaml");
    assert_eq!(out.text, "o: v2");
}

#[test]
fn upgrade_with_empty_chart_fails_as_missing() {
    let mut command = UpgradeCommand::new(HelmRuntime::new());
    let opts = UpgradeOpts {
        release: Some("rel1".to_string()),
        chart: Some(String::new()),
        value_files: None,
        force: false,
        set: None,
    };
    let result = command.execute(&no_global(), &opts, "/opt/helmhome", String::new(), None);
    assert!(matches!(result, Err(HelmError::MissingChart)));
}

#[test]
fn run_report_follows_exit_disposition() {
    assert!(matches!(
        classify_helm_output(true, Some("out".to_string()), None),
        RunReport::Output(o) if o == "out"
    ));
    assert!(matches!(
        classify_helm_output(true, None, Some("err".to_string())),
        RunReport::OutputUnreadable
    ));
    assert!(matches!(
        classify_helm_output(false, Some("out".to_string()), Some("err".to_string())),
        RunReport::Failure(e) if e == "err"
    ));
    assert!(matches!(
        classify_helm_output(false, None, None),
        RunReport::FailureUnreadable
    ));
}

#[test]
fn main_constructs() {
    let _ = Main::new();
}
