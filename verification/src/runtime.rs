//! The runtime state of one invocation: the implicit and explicit variable
//! mappings, the substitution passes over document blobs, and the resolution
//! pipeline that prepares the files and arguments for the external tool.

use vstd::prelude::*;

use crate::chars::{chars_to_string, str_to_chars, subvec};
use crate::paths::{final_path_segment, final_segment};
use crate::pattern::{
    make_pattern_text, make_regex_pattern_text, pattern_payload, pattern_payload_chars,
    spec_make_pattern, spec_make_regex_pattern, strip_dot, strip_dot_chars,
};
use crate::store::VarMap;
use crate::subst::{spec_substitute, substitute_chars};

verus! {

/// One substitution pass: where `key` is bound in `imp`, every token for
/// `name` in `t` is replaced by the bound value; otherwise `t` passes through.
pub open spec fn spec_subst_one(
    imp: Map<Seq<char>, Seq<char>>,
    key: Seq<char>,
    name: Seq<char>,
    t: Seq<char>,
) -> Seq<char> {
    if imp.contains_key(key) {
        spec_substitute(t, name, imp[key])
    } else {
        t
    }
}

/// The implicit substitution: the five well-known variables applied in their
/// fixed order, each pass seeing the output of the one before.
pub open spec fn spec_replace_implicit(imp: Map<Seq<char>, Seq<char>>, t: Seq<char>) -> Seq<char> {
    spec_subst_one(
        imp,
        "starting.canary.percentage"@,
        "Starting.Canary.Percentage"@,
        spec_subst_one(
            imp,
            "previous.branch"@,
            "Previous.Branch"@,
            spec_subst_one(
                imp,
                "source.branch"@,
                "Branch.Name"@,
                spec_subst_one(
                    imp,
                    "chart.name"@,
                    "Chart.Name"@,
                    spec_subst_one(imp, "release.name"@, "Release.Name"@, t),
                ),
            ),
        ),
    )
}

/// The explicit substitution: where the pattern text is of the rendered form
/// and is bound in `exp`, every token for its variable is replaced by the
/// bound value; otherwise `t` passes through.
pub open spec fn spec_replace_explicit(
    exp: Map<Seq<char>, Seq<char>>,
    t: Seq<char>,
    pat: Seq<char>,
) -> Seq<char> {
    match pattern_payload(pat) {
        Some(m) => if exp.contains_key(pat) {
            spec_substitute(t, strip_dot(m), exp[pat])
        } else {
            t
        },
        None => t,
    }
}

/// Index of the first `=` at or after `i`, or the length where there is none.
pub open spec fn find_eq_from(s: Seq<char>, i: int) -> int
    decreases s.len() - i,
{
    if 0 <= i && i < s.len() {
        if s[i] == '=' {
            i
        } else {
            find_eq_from(s, i + 1)
        }
    } else {
        s.len() as int
    }
}

/// Whether a `--set` argument carries a value: it holds an `=` separator.
pub open spec fn set_entry_has_value(s: Seq<char>) -> bool {
    find_eq_from(s, 0) < s.len()
}

/// The dotted key of a `--set` argument: the text before the first `=`.
pub open spec fn set_entry_key(s: Seq<char>) -> Seq<char> {
    s.take(find_eq_from(s, 0))
}

/// The literal value of a `--set` argument: the text after the first `=`.
pub open spec fn set_entry_value(s: Seq<char>) -> Seq<char> {
    s.skip(find_eq_from(s, 0) + 1)
}

/// The rendered pattern a `--set` argument must replace: its key under the
/// `Values.` namespace, with the leading `.` marker.
pub open spec fn set_entry_pattern(s: Seq<char>) -> Seq<char> {
    spec_make_regex_pattern(seq!['.'] + "Values."@ + set_entry_key(s))
}

/// The state reached after ingesting `--set` arguments, in command-line
/// order: both mappings extended and both documents rewritten, each argument
/// seeing the effect of those before it.
pub open spec fn apply_set_entries(
    imp: Map<Seq<char>, Seq<char>>,
    exp: Map<Seq<char>, Seq<char>>,
    values: Seq<char>,
    cfg: Seq<char>,
    entries: Seq<Seq<char>>,
) -> (Map<Seq<char>, Seq<char>>, Map<Seq<char>, Seq<char>>, Seq<char>, Seq<char>)
    decreases entries.len(),
{
    if entries.len() == 0 {
        (imp, exp, values, cfg)
    } else {
        let prev = apply_set_entries(imp, exp, values, cfg, entries.drop_last());
        let s = entries.last();
        let pat = set_entry_pattern(s);
        let v = set_entry_value(s);
        let exp2 = prev.1.insert(pat, v);
        let imp2 = prev.0.insert(set_entry_key(s), v);
        let cfg2 = spec_replace_explicit(exp2, prev.3, pat);
        let values2 = spec_replace_explicit(exp2, prev.2, pat);
        (imp2, exp2, values2, cfg2)
    }
}

/// A key bound in the implicit mapping stays bound through `--set` ingestion.
pub proof fn lemma_apply_set_entries_preserves_key(
    imp: Map<Seq<char>, Seq<char>>,
    exp: Map<Seq<char>, Seq<char>>,
    values: Seq<char>,
    cfg: Seq<char>,
    entries: Seq<Seq<char>>,
    k: Seq<char>,
)
    requires
        imp.contains_key(k),
    ensures
        apply_set_entries(imp, exp, values, cfg, entries).0.contains_key(k),
    decreases entries.len(),
{
    if entries.len() > 0 {
        lemma_apply_set_entries_preserves_key(imp, exp, values, cfg, entries.drop_last(), k);
    }
}

/// The raw `--set` tokens forwarded to the external tool, in order.
pub open spec fn set_args(entries: Seq<Seq<char>>) -> Seq<Seq<char>>
    decreases entries.len(),
{
    if entries.len() == 0 {
        Seq::empty()
    } else {
        set_args(entries.drop_last()) + seq!["--set"@, entries.last()]
    }
}

/// The global flags recognized for the external tool.
#[derive(Debug, Clone)]
pub struct GlobalOpts {
    pub tiller_namespace: Option<String>,
    pub namespace: Option<String>,
    pub timeout: Option<String>,
    pub debug: bool,
}

/// A document together with the file path it was read from and will be
/// written back to.
#[derive(Debug, Clone)]
pub struct Document {
    pub path: String,
    pub text: String,
}

/// The files the pipeline asks to have persisted: the rewritten values
/// document at its path, and the rewritten override document where one was
/// supplied.
#[derive(Debug, Clone)]
pub struct ResolvedFiles {
    pub values_path: String,
    pub values_text: String,
    pub override_out: Option<Document>,
}

/// A fatal fault of the pipeline.
#[derive(Debug, Clone, Copy, PartialEq, Eq, Structural)]
pub enum HelmError {
    /// No chart was resolved on the command line.
    MissingChart,
}

/// The `--set` arguments as a sequence of character sequences; an absent
/// flag contributes none.
pub open spec fn entries_of(set_values: Option<Vec<String>>) -> Seq<Seq<char>> {
    if set_values is Some {
        set_values->0.deep_view()
    } else {
        Seq::empty()
    }
}

/// The whole resolution over the documents and mappings: the first implicit
/// pass over the values document, the `--set` ingestion over both documents,
/// and the closing implicit passes. Yields the final implicit mapping, the
/// final explicit mapping, the final values document and the final override
/// document.
pub open spec fn spec_resolve(
    imp: Map<Seq<char>, Seq<char>>,
    exp: Map<Seq<char>, Seq<char>>,
    od: Option<Document>,
    entries: Seq<Seq<char>>,
    values: Seq<char>,
) -> (Map<Seq<char>, Seq<char>>, Map<Seq<char>, Seq<char>>, Seq<char>, Seq<char>) {
    let values1 = spec_replace_implicit(imp, values);
    let cfg0 = if od is Some {
        od->0.text@
    } else {
        Seq::<char>::empty()
    };
    let st = apply_set_entries(imp, exp, values1, cfg0, entries);
    let values2 = spec_replace_implicit(st.0, st.2);
    let cfg2 = if od is Some {
        spec_replace_implicit(st.0, st.3)
    } else {
        st.3
    };
    (st.0, st.1, values2, cfg2)
}

/// The argument pair naming the override file, where one was supplied.
pub open spec fn override_args(o: Option<Document>) -> Seq<Seq<char>> {
    match o {
        Some(d) => seq!["-f"@, d.path@],
        None => Seq::empty(),
    }
}

/// The arguments contributed by the global flags, in their fixed order;
/// absent flags contribute nothing.
pub open spec fn global_flag_args(g: GlobalOpts) -> Seq<Seq<char>> {
    (if g.tiller_namespace is Some {
        seq!["--tiller-namespace"@, g.tiller_namespace->0@]
    } else {
        Seq::empty()
    }) + (if g.namespace is Some {
        seq!["--namespace"@, g.namespace->0@]
    } else {
        Seq::empty()
    }) + (if g.timeout is Some {
        seq!["--timeout"@, g.timeout->0@]
    } else {
        Seq::empty()
    }) + (if g.debug {
        seq!["--debug"@]
    } else {
        Seq::empty()
    })
}

/// The request-scoped variable state of one invocation: implicit variables
/// keyed by their lower-case dotted names, explicit variables keyed by the
/// rendered pattern text they replace.
#[derive(Debug, Clone)]
pub struct HelmRuntime {
    implicit_variables: VarMap,
    explicit_variables: VarMap,
}

impl HelmRuntime {
    /// The implicit mapping.
    pub closed spec fn implicit(&self) -> Map<Seq<char>, Seq<char>> {
        self.implicit_variables@
    }

    /// The explicit mapping.
    pub closed spec fn explicit(&self) -> Map<Seq<char>, Seq<char>> {
        self.explicit_variables@
    }

    /// A runtime with both mappings empty.
    pub fn new() -> (r: HelmRuntime)
        ensures
            r.implicit() == Map::<Seq<char>, Seq<char>>::empty(),
            r.explicit() == Map::<Seq<char>, Seq<char>>::empty(),
    {
        HelmRuntime { implicit_variables: VarMap::new(), explicit_variables: VarMap::new() }
    }

    /// A fixed diagnostic message.
    pub fn test(&self) -> (r: String)
        ensures
            r@ == "help"@,
    {
        "help".to_owned()
    }

    /// The implicit mapping, viewed as raw (bare-name) variables.
    pub fn get_raw_variables(&self) -> (r: &VarMap)
        ensures
            r@ == self.implicit(),
    {
        &self.implicit_variables
    }

    /// The explicit mapping, viewed as formatted (pattern-keyed) variables.
    pub fn get_formatted_variables(&self) -> (r: &VarMap)
        ensures
            r@ == self.explicit(),
    {
        &self.explicit_variables
    }

    /// Binds an implicit variable; a later write for the same key wins.
    pub fn set_implicit_var(&mut self, key: String, value: String)
        ensures
            final(self).implicit() == old(self).implicit().insert(key@, value@),
            final(self).explicit() == old(self).explicit(),
    {
        self.implicit_variables.insert(key, value);
    }

    /// Binds an explicit variable; a later write for the same key wins.
    pub fn set_explicit_var(&mut self, key: String, value: String)
        ensures
            final(self).explicit() == old(self).explicit().insert(key@, value@),
            final(self).implicit() == old(self).implicit(),
    {
        self.explicit_variables.insert(key, value);
    }

    /// The implicit value bound to `key`, where one is.
    pub fn get_implicit_var<'a>(&'a self, key: &str) -> (r: Option<&'a String>)
        ensures
            match r {
                Some(v) => self.implicit().contains_key(key@) && v@ == self.implicit()[key@],
                None => !self.implicit().contains_key(key@),
            },
    {
        self.implicit_variables.get(key)
    }

    /// The explicit value bound to `key`, where one is.
    pub fn get_explicit_var<'a>(&'a self, key: &str) -> (r: Option<&'a String>)
        ensures
            match r {
                Some(v) => self.explicit().contains_key(key@) && v@ == self.explicit()[key@],
                None => !self.explicit().contains_key(key@),
            },
    {
        self.explicit_variables.get(key)
    }

    /// The rendered pattern text for a bare variable name.
    pub fn make_pattern(&self, var: &str) -> (r: String)
        ensures
            r@ == spec_make_pattern(var@),
    {
        make_pattern_text(var)
    }

    /// The rendered pattern text for a variable written with its leading `.`.
    pub fn make_regex_pattern(&self, var: &str) -> (r: String)
        ensures
            r@ == spec_make_regex_pattern(var@),
    {
        make_regex_pattern_text(var)
    }

    /// One implicit pass for a single well-known variable.
    fn subst_implicit_one(&self, result: &mut String, key: &str, name: &str)
        ensures
            final(result)@ == spec_subst_one(self.implicit(), key@, name@, old(result)@),
    {
        if let Some(v) = self.implicit_variables.get(key) {
            let t = str_to_chars(result.as_str());
            let n = str_to_chars(name);
            let value = str_to_chars(v.as_str());
            let out = substitute_chars(&t, &n, &value);
            *result = chars_to_string(&out);
        }
    }

    /// Applies the implicit substitution to a document: the five well-known
    /// variables, in their fixed order, each only where a value is bound.
    pub fn replace_implicit_vars(&self, result: &mut String)
        ensures
            final(result)@ == spec_replace_implicit(self.implicit(), old(result)@),
    {
        self.subst_implicit_one(result, "release.name", "Release.Name");
        self.subst_implicit_one(result, "chart.name", "Chart.Name");
        self.subst_implicit_one(result, "source.branch", "Branch.Name");
        self.subst_implicit_one(result, "previous.branch", "Previous.Branch");
        self.subst_implicit_one(result, "starting.canary.percentage", "Starting.Canary.Percentage");
    }

    /// Applies the explicit substitution for one rendered pattern to a
    /// document.
    pub fn replace_explicit_vars(&self, override_file_result: &mut String, pattern_str: &str)
        ensures
            final(override_file_result)@ == spec_replace_explicit(
                self.explicit(),
                old(override_file_result)@,
                pattern_str@,
            ),
    {
        let p = str_to_chars(pattern_str);
        if let Some(payload) = pattern_payload_chars(&p) {
            if let Some(v) = self.explicit_variables.get(pattern_str) {
                let name = strip_dot_chars(&payload);
                let t = str_to_chars(override_file_result.as_str());
                let value = str_to_chars(v.as_str());
                let out = substitute_chars(&t, &name, &value);
                *override_file_result = chars_to_string(&out);
            }
        }
    }

    /// Resolves the chart argument: appends it to the argument vector and
    /// derives the `chart.name` and `chart.path` implicit variables from it.
    pub fn get_and_set_chart_name(&mut self, chart: Option<&str>, helm_args: &mut Vec<String>)
        ensures
            match chart {
                None => {
                    &&& final(self).implicit() == old(self).implicit()
                    &&& final(self).explicit() == old(self).explicit()
                    &&& final(helm_args)@ == old(helm_args)@
                },
                Some(p) => {
                    &&& final(helm_args).deep_view() == old(helm_args).deep_view().push(p@)
                    &&& final(self).explicit() == old(self).explicit()
                    &&& match final_segment(p@) {
                        Some(n) => final(self).implicit() == old(self).implicit().insert(
                            "chart.name"@,
                            n,
                        ).insert("chart.path"@, p@),
                        None => final(self).implicit() == old(self).implicit(),
                    }
                },
            },
    {
        if let Some(chart_path) = chart {
            helm_args.push(chart_path.to_owned());
            proof {
                assert(helm_args.deep_view() =~= old(helm_args).deep_view().push(chart_path@));
            }
            if let Some(filename) = final_path_segment(chart_path) {
                self.set_implicit_var("chart.name".to_owned(), filename);
                self.set_implicit_var("chart.path".to_owned(), chart_path.to_owned());
            }
        }
    }

    /// Resolves the common arguments of one subcommand: applies the implicit
    /// substitution to the values document, ingests the `--set` arguments
    /// into both mappings and both documents, re-applies the implicit
    /// substitution, forwards the recognized flags, and names the files to
    /// persist. Fails where no chart was resolved, before anything changes.
    #[verifier::rlimit(80)]
    pub fn apply_common_args(
        &mut self,
        global: &GlobalOpts,
        override_doc: Option<Document>,
        set_values: &Option<Vec<String>>,
        values_text: String,
        helm_args: &mut Vec<String>,
    ) -> (r: Result<ResolvedFiles, HelmError>)
        requires
            set_values is Some ==> forall|i: int|
                0 <= i < set_values->0@.len() ==> set_entry_has_value(
                    (#[trigger] set_values->0@[i])@,
                ),
        ensures
            r is Err <==> !old(self).implicit().contains_key("chart.path"@),
            r is Err ==> r->Err_0 == HelmError::MissingChart && *final(self) == *old(self)
                && final(helm_args)@ == old(helm_args)@,
            r is Ok ==> ({
                let entries = entries_of(*set_values);
                let res = spec_resolve(
                    old(self).implicit(),
                    old(self).explicit(),
                    override_doc,
                    entries,
                    values_text@,
                );
                &&& final(self).implicit() == res.0
                &&& final(self).explicit() == res.1
                &&& final(helm_args).deep_view() == old(helm_args).deep_view() + override_args(
                    override_doc,
                ) + set_args(entries) + global_flag_args(*global)
                &&& res.0.contains_key("chart.path"@)
                &&& r->Ok_0.values_path@ == res.0["chart.path"@] + "/values.yaml"@
                &&& r->Ok_0.values_text@ == res.2
                &&& (r->Ok_0.override_out is Some <==> override_doc is Some)
                &&& (r->Ok_0.override_out is Some ==> r->Ok_0.override_out->0.path@
                    == override_doc->0.path@ && r->Ok_0.override_out->0.text@ == res.3)
            }),
    {
        let ghost od = override_doc;
        if self.get_implicit_var("chart.path").is_none() {
            return Err(HelmError::MissingChart);
        }
        let mut values_yaml = values_text;
        self.replace_implicit_vars(&mut values_yaml);

        let mut config_env_yaml: String;
        let override_path: Option<String>;
        match override_doc {
            Some(d) => {
                helm_args.push("-f".to_owned());
                helm_args.push(d.path.clone());
                config_env_yaml = d.text;
                override_path = Some(d.path);
            },
            None => {
                config_env_yaml = String::new();
                override_path = None;
            },
        }
        let ghost imp0 = old(self).implicit();
        let ghost exp0 = old(self).explicit();
        let ghost values1 = values_yaml@;
        let ghost cfg0 = config_env_yaml@;
        let ghost args_base = old(helm_args).deep_view() + override_args(od);
        proof {
            assert(helm_args.deep_view() =~= args_base);
        }

        let ghost entries = if set_values is Some {
            set_values->0.deep_view()
        } else {
            Seq::<Seq<char>>::empty()
        };
        if let Some(list) = set_values {
            let mut idx: usize = 0;
            proof {
                assert(entries.take(0) =~= Seq::<Seq<char>>::empty());
            }
            while idx < list.len()
                invariant
                    0 <= idx <= list@.len(),
                    entries == list.deep_view(),
                    forall|i: int|
                        0 <= i < entries.len() ==> set_entry_has_value(#[trigger] entries[i]),
                    ({
                        let st = apply_set_entries(imp0, exp0, values1, cfg0, entries.take(idx as int));
                        &&& self.implicit() == st.0
                        &&& self.explicit() == st.1
                        &&& values_yaml@ == st.2
                        &&& config_env_yaml@ == st.3
                    }),
                    helm_args.deep_view() == args_base + set_args(entries.take(idx as int)),
                decreases list@.len() - idx,
            {
                let s = &list[idx];
                proof {
                    assert(entries[idx as int] == list@[idx as int]@);
                }
                let sc = str_to_chars(s.as_str());
                let epos = find_eq_pos(&sc);
                let key_chars = subvec(&sc, 0, epos);
                let val_chars = subvec(&sc, epos + 1, sc.len());
                let key = chars_to_string(&key_chars);
                let value = chars_to_string(&val_chars);
                let mut var = ".Values.".to_owned();
                var.append(key.as_str());
                proof {
                    reveal_strlit(".Values.");
                    reveal_strlit("Values.");
                    assert(var@ =~= seq!['.'] + "Values."@ + key@);
                }
                let variable_format = self.make_regex_pattern(var.as_str());
                self.set_explicit_var(variable_format.clone(), value.clone());
                self.set_implicit_var(key, value);
                self.replace_explicit_vars(&mut config_env_yaml, variable_format.as_str());
                self.replace_explicit_vars(&mut values_yaml, variable_format.as_str());
                let ghost args_pre = helm_args.deep_view();
                helm_args.push("--set".to_owned());
                proof {
                    assert(helm_args.deep_view() =~= args_pre.push("--set"@));
                }
                helm_args.push(s.clone());
                proof {
                    assert(helm_args.deep_view() =~= args_pre.push("--set"@).push(
                        entries[idx as int],
                    ));
                }
                proof {
                    let e = entries[idx as int];
                    assert(entries.take(idx + 1).drop_last() =~= entries.take(idx as int));
                    assert(entries.take(idx + 1).last() == e);
                    assert(key@ == set_entry_key(e));
                    assert(value@ == set_entry_value(e));
                    assert(variable_format@ == set_entry_pattern(e));
                    assert(set_args(entries.take(idx + 1)) =~= set_args(entries.take(idx as int))
                        + seq!["--set"@, e]);
                    assert(helm_args.deep_view() =~= args_base + set_args(entries.take(idx + 1)));
                }
                idx = idx + 1;
            }
            proof {
                assert(entries.take(list@.len() as int) =~= entries);
            }
        }
        self.replace_implicit_vars(&mut values_yaml);
        let override_out: Option<Document>;
        match override_path {
            Some(pth) => {
                self.replace_implicit_vars(&mut config_env_yaml);
                override_out = Some(Document { path: pth, text: config_env_yaml });
            },
            None => {
                override_out = None;
            },
        }

        let ghost args_mid = helm_args.deep_view();
        if let Some(tn) = &global.tiller_namespace {
            helm_args.push("--tiller-namespace".to_owned());
            helm_args.push(tn.clone());
        }
        if let Some(ns) = &global.namespace {
            helm_args.push("--namespace".to_owned());
            helm_args.push(ns.clone());
        }
        if let Some(to) = &global.timeout {
            helm_args.push("--timeout".to_owned());
            helm_args.push(to.clone());
        }
        if global.debug {
            helm_args.push("--debug".to_owned());
        }
        proof {
            assert(helm_args.deep_view() =~= args_mid + global_flag_args(*global));
            assert(helm_args.deep_view() =~= old(helm_args).deep_view() + override_args(od)
                + set_args(entries) + global_flag_args(*global));
        }

        let chart_path: String;
        match self.get_implicit_var("chart.path") {
            Some(p) => {
                chart_path = p.clone();
            },
            None => {
                proof {
                    lemma_apply_set_entries_preserves_key(
                        imp0,
                        exp0,
                        values1,
                        cfg0,
                        entries,
                        "chart.path"@,
                    );
                    assert(false);
                }
                return Err(HelmError::MissingChart);
            },
        }
        proof {
            lemma_apply_set_entries_preserves_key(imp0, exp0, values1, cfg0, entries, "chart.path"@);
        }
        let values_path = chart_path.concat("/values.yaml");
        Ok(ResolvedFiles { values_path, values_text: values_yaml, override_out })
    }
}

/// Index of the first `=` in the argument, or its length where none occurs.
fn find_eq_pos(v: &Vec<char>) -> (r: usize)
    ensures
        r as int == find_eq_from(v@, 0),
        r <= v@.len(),
{
    let mut i: usize = 0;
    while i < v.len()
        invariant
            0 <= i <= v@.len(),
            find_eq_from(v@, 0) == find_eq_from(v@, i as int),
        decreases v@.len() - i,
    {
        if v[i] == '=' {
            return i;
        }
        i = i + 1;
    }
    i
}

} // verus!
