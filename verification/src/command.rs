//! The subcommands: each resolves its arguments through the runtime's
//! pipeline and yields the invocation of the external tool — its program
//! path, argument vector and the files to persist first — for the caller to
//! run.

use vstd::prelude::*;

use crate::paths::final_segment;
use crate::runtime::{
    entries_of, global_flag_args, override_args, set_args, set_entry_has_value, spec_resolve,
    Document, GlobalOpts, HelmError, HelmRuntime, ResolvedFiles,
};
use vstd::string::StringExecFns;

verus! {

/// One prepared invocation of the external tool, consumed exactly once: the
/// files are persisted, then the program is run with the arguments.
#[derive(Debug, Clone)]
pub struct InvocationSpec {
    pub program: String,
    pub args: Vec<String>,
    pub files: ResolvedFiles,
}

/// The implicit mapping after the chart argument is resolved: the chart's
/// name and path derived and stored, where a chart with a final path segment
/// was given.
pub open spec fn chart_step_implicit(
    imp: Map<Seq<char>, Seq<char>>,
    chart: Option<String>,
) -> Map<Seq<char>, Seq<char>> {
    if chart is Some {
        match final_segment(chart->0@) {
            Some(n) => imp.insert("chart.name"@, n).insert("chart.path"@, chart->0@),
            None => imp,
        }
    } else {
        imp
    }
}

/// The argument the chart contributes: its path, where one was given.
pub open spec fn chart_step_args(chart: Option<String>) -> Seq<Seq<char>> {
    if chart is Some {
        seq![chart->0@]
    } else {
        Seq::empty()
    }
}

/// The arguments the release name contributes to an installation.
pub open spec fn name_args(name: Option<String>) -> Seq<Seq<char>> {
    if name is Some {
        seq!["--name"@, name->0@]
    } else {
        Seq::empty()
    }
}

/// The override document assembled from its path argument and its loaded
/// text, where both are present.
pub open spec fn override_doc_of(path: Option<String>, text: Option<String>) -> Option<Document> {
    if path is Some && text is Some {
        Some((Document { path: path->0, text: text->0 }))
    } else {
        None
    }
}

/// The arguments recognized on an `install` subcommand.
#[derive(Debug, Clone)]
pub struct InstallOpts {
    pub chart: Option<String>,
    pub name: Option<String>,
    pub value_files: Option<String>,
    pub set: Option<Vec<String>>,
}

/// The arguments recognized on an `upgrade` subcommand.
#[derive(Debug, Clone)]
pub struct UpgradeOpts {
    pub release: Option<String>,
    pub chart: Option<String>,
    pub value_files: Option<String>,
    pub force: bool,
    pub set: Option<Vec<String>>,
}

/// The `install` subcommand over a runtime it owns.
pub struct InstallCommand {
    helm_runtime: HelmRuntime,
}

impl InstallCommand {
    /// The runtime the command carries.
    pub closed spec fn runtime(&self) -> HelmRuntime {
        self.helm_runtime
    }

    pub fn new(execute_helm_command: HelmRuntime) -> (r: InstallCommand)
        ensures
            r.runtime() == execute_helm_command,
    {
        InstallCommand { helm_runtime: execute_helm_command }
    }

    pub fn get_helm_runtime(&self) -> (r: &HelmRuntime)
        ensures
            *r == self.runtime(),
    {
        &self.helm_runtime
    }

    /// Resolves one installation: the chart and release variables are
    /// stored, the documents are rewritten through the pipeline, and the
    /// assembled invocation is returned for the caller to run.
    #[verifier::rlimit(80)]
    pub fn execute(
        &mut self,
        matches: &GlobalOpts,
        opts: &InstallOpts,
        helm_home_dir: &str,
        values_text: String,
        override_text: Option<String>,
    ) -> (r: Result<InvocationSpec, HelmError>)
        requires
            opts.value_files is Some <==> override_text is Some,
            opts.set is Some ==> forall|i: int|
                0 <= i < opts.set->0@.len() ==> set_entry_has_value((#[trigger] opts.set->0@[i])@),
        ensures
            ({
                let imp0 = old(self).runtime().implicit();
                let exp0 = old(self).runtime().explicit();
                let imp1 = chart_step_implicit(imp0, opts.chart);
                let imp2 = if opts.name is Some {
                    imp1.insert("release.name"@, opts.name->0@)
                } else {
                    imp1
                };
                let od = override_doc_of(opts.value_files, override_text);
                let entries = entries_of(opts.set);
                let res = spec_resolve(imp2, exp0, od, entries, values_text@);
                &&& (r is Err <==> !imp2.contains_key("chart.path"@))
                &&& (r is Err ==> r->Err_0 == HelmError::MissingChart
                    && final(self).runtime().implicit() == imp2
                    && final(self).runtime().explicit() == exp0)
                &&& (r is Ok ==> ({
                    &&& final(self).runtime().implicit() == res.0
                    &&& final(self).runtime().explicit() == res.1
                    &&& r->Ok_0.program@ == helm_home_dir@ + "/helm"@
                    &&& r->Ok_0.args.deep_view() == seq!["install"@] + chart_step_args(opts.chart)
                        + name_args(opts.name) + override_args(od) + set_args(entries)
                        + global_flag_args(*matches)
                    &&& res.0.contains_key("chart.path"@)
                    &&& r->Ok_0.files.values_path@ == res.0["chart.path"@] + "/values.yaml"@
                    &&& r->Ok_0.files.values_text@ == res.2
                    &&& (r->Ok_0.files.override_out is Some <==> od is Some)
                    &&& (r->Ok_0.files.override_out is Some ==> r->Ok_0.files.override_out->0.path@
                        == od->0.path@ && r->Ok_0.files.override_out->0.text@ == res.3)
                }))
            }),
    {
        let mut helm_args: Vec<String> = Vec::new();
        helm_args.push("install".to_owned());
        proof {
            assert(helm_args.deep_view() =~= seq!["install"@]);
        }
        let chart_ref: Option<&str> = match &opts.chart {
            Some(c) => Some(c.as_str()),
            None => None,
        };
        self.helm_runtime.get_and_set_chart_name(chart_ref, &mut helm_args);
        proof {
            assert(helm_args.deep_view() =~= seq!["install"@] + chart_step_args(opts.chart));
        }
        if let Some(release) = &opts.name {
            helm_args.push("--name".to_owned());
            helm_args.push(release.clone());
            self.helm_runtime.set_implicit_var("release.name".to_owned(), release.clone());
        }
        proof {
            assert(helm_args.deep_view() =~= seq!["install"@] + chart_step_args(opts.chart)
                + name_args(opts.name));
        }
        let override_doc: Option<Document> = match (&opts.value_files, override_text) {
            (Some(p), Some(t)) => Some(Document { path: p.clone(), text: t }),
            _ => None,
        };
        match self.helm_runtime.apply_common_args(
            matches,
            override_doc,
            &opts.set,
            values_text,
            &mut helm_args,
        ) {
            Ok(files) => {
                let program = helm_home_dir.to_owned().concat("/helm");
                Ok(InvocationSpec { program, args: helm_args, files })
            },
            Err(e) => Err(e),
        }
    }
}

/// The `upgrade` subcommand over a runtime it owns.
pub struct UpgradeCommand {
    helm_runtime: HelmRuntime,
}

impl UpgradeCommand {
    /// The runtime the command carries.
    pub closed spec fn runtime(&self) -> HelmRuntime {
        self.helm_runtime
    }

    pub fn new(execute_helm_command: HelmRuntime) -> (r: UpgradeCommand)
        ensures
            r.runtime() == execute_helm_command,
    {
        UpgradeCommand { helm_runtime: execute_helm_command }
    }

    pub fn get_helm_runtime(&self) -> (r: &HelmRuntime)
        ensures
            *r == self.runtime(),
    {
        &self.helm_runtime
    }

    /// Resolves one upgrade: the release and chart variables are stored, the
    /// documents are rewritten through the pipeline, and the assembled
    /// invocation is returned for the caller to run.
    #[verifier::rlimit(80)]
    pub fn execute(
        &mut self,
        matches: &GlobalOpts,
        opts: &UpgradeOpts,
        helm_home_dir: &str,
        values_text: String,
        override_text: Option<String>,
    ) -> (r: Result<InvocationSpec, HelmError>)
        requires
            opts.value_files is Some <==> override_text is Some,
            opts.set is Some ==> forall|i: int|
                0 <= i < opts.set->0@.len() ==> set_entry_has_value((#[trigger] opts.set->0@[i])@),
        ensures
            ({
                let imp0 = old(self).runtime().implicit();
                let exp0 = old(self).runtime().explicit();
                let imp1 = if opts.release is Some {
                    imp0.insert("release.name"@, opts.release->0@)
                } else {
                    imp0
                };
                let imp2 = chart_step_implicit(imp1, opts.chart);
                let od = override_doc_of(opts.value_files, override_text);
                let entries = entries_of(opts.set);
                let res = spec_resolve(imp2, exp0, od, entries, values_text@);
                let release_args = if opts.release is Some {
                    seq![opts.release->0@]
                } else {
                    Seq::<Seq<char>>::empty()
                };
                let force_args = if opts.force {
                    seq!["--force"@]
                } else {
                    Seq::<Seq<char>>::empty()
                };
                &&& (r is Err <==> !imp2.contains_key("chart.path"@))
                &&& (r is Err ==> r->Err_0 == HelmError::MissingChart
                    && final(self).runtime().implicit() == imp2
                    && final(self).runtime().explicit() == exp0)
                &&& (r is Ok ==> ({
                    &&& final(self).runtime().implicit() == res.0
                    &&& final(self).runtime().explicit() == res.1
                    &&& r->Ok_0.program@ == helm_home_dir@ + "/helm"@
                    &&& r->Ok_0.args.deep_view() == seq!["upgrade"@] + release_args
                        + chart_step_args(opts.chart) + force_args + override_args(od) + set_args(
                        entries,
                    ) + global_flag_args(*matches)
                    &&& res.0.contains_key("chart.path"@)
                    &&& r->Ok_0.files.values_path@ == res.0["chart.path"@] + "/values.yaml"@
                    &&& r->Ok_0.files.values_text@ == res.2
                    &&& (r->Ok_0.files.override_out is Some <==> od is Some)
                    &&& (r->Ok_0.files.override_out is Some ==> r->Ok_0.files.override_out->0.path@
                        == od->0.path@ && r->Ok_0.files.override_out->0.text@ == res.3)
                }))
            }),
    {
        let ghost rel_args = if opts.release is Some {
            seq![opts.release->0@]
        } else {
            Seq::<Seq<char>>::empty()
        };
        let ghost force_args = if opts.force {
            seq!["--force"@]
        } else {
            Seq::<Seq<char>>::empty()
        };
        let mut helm_args: Vec<String> = Vec::new();
        helm_args.push("upgrade".to_owned());
        proof {
            assert(helm_args.deep_view() =~= seq!["upgrade"@]);
        }
        if let Some(release) = &opts.release {
            helm_args.push(release.clone());
            self.helm_runtime.set_implicit_var("release.name".to_owned(), release.clone());
        }
        proof {
            assert(helm_args.deep_view() =~= seq!["upgrade"@] + rel_args);
        }
        let ghost args2 = helm_args.deep_view();
        let chart_ref: Option<&str> = match &opts.chart {
            Some(c) => Some(c.as_str()),
            None => None,
        };
        self.helm_runtime.get_and_set_chart_name(chart_ref, &mut helm_args);
        proof {
            assert(helm_args.deep_view() =~= args2 + chart_step_args(opts.chart));
        }
        let ghost args3 = helm_args.deep_view();
        if opts.force {
            helm_args.push("--force".to_owned());
        }
        proof {
            assert(helm_args.deep_view() =~= args3 + force_args);
            assert(helm_args.deep_view() =~= seq!["upgrade"@] + rel_args + chart_step_args(
                opts.chart,
            ) + force_args);
        }
        let override_doc: Option<Document> = match (&opts.value_files, override_text) {
            (Some(p), Some(t)) => Some(Document { path: p.clone(), text: t }),
            _ => None,
        };
        match self.helm_runtime.apply_common_args(
            matches,
            override_doc,
            &opts.set,
            values_text,
            &mut helm_args,
        ) {
            Ok(files) => {
                let program = helm_home_dir.to_owned().concat("/helm");
                Ok(InvocationSpec { program, args: helm_args, files })
            },
            Err(e) => Err(e),
        }
    }
}

/// The front end itself; command-line parsing stands outside the library and
/// hands the parsed values in.
#[derive(Debug, Clone, Default)]
pub struct Main {}

impl Main {
    pub fn new() -> (r: Main) {
        Main {  }
    }
}

/// What the runner reports of one finished external invocation.
#[derive(Debug, Clone)]
pub enum RunReport {
    /// The tool succeeded; its standard output is echoed.
    Output(String),
    /// The tool succeeded but its standard output was not readable as text.
    OutputUnreadable,
    /// The tool failed; its standard error is echoed.
    Failure(String),
    /// The tool failed and its standard error was not readable as text.
    FailureUnreadable,
}

/// The runner's disposition: on success the decoded standard output is
/// echoed, on failure the decoded standard error; a stream that did not
/// decode is reported as unreadable without changing the disposition.
pub fn classify_helm_output(success: bool, stdout: Option<String>, stderr: Option<String>) -> (r:
    RunReport)
    ensures
        success && stdout is Some ==> r == RunReport::Output(stdout->0),
        success && stdout is None ==> r == RunReport::OutputUnreadable,
        !success && stderr is Some ==> r == RunReport::Failure(stderr->0),
        !success && stderr is None ==> r == RunReport::FailureUnreadable,
{
    if success {
        match stdout {
            Some(out) => RunReport::Output(out),
            None => RunReport::OutputUnreadable,
        }
    } else {
        match stderr {
            Some(err) => RunReport::Failure(err),
            None => RunReport::FailureUnreadable,
        }
    }
}

} // verus!
