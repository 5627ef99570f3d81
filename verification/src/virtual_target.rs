//! The registry of launchable targets: validation of a configuration,
//! lookup, resolution to a command line, and comparison of two
//! registries.
use vstd::prelude::*;
use vstd::string::*;

use crate::error::Error;
use crate::order::{views, distinct, strictly_sorted, sort_strings, lex_lt, lemma_sorted_same_members_equal, lemma_sorted_no_members_empty};
use crate::target::{Target, TargetKind, EnvVars, distinct_names, distinct_view_names, substituted, substitute_env_vars, env_lookup, lookup_var};
use crate::text::{is_blank, str_is_blank, str_eq, decimal, push_decimal, joined, lemma_joined_push, is_ws};

verus! {

// ---------------------------------------------------------------------
// Validation
// ---------------------------------------------------------------------

/// How the `i`-th target is named in error messages.
pub open spec fn label(ts: Seq<Target>, i: int) -> Seq<char> {
    if is_blank(ts[i].name@) {
        "targets["@ + decimal(i as nat) + "]"@
    } else {
        "target '"@ + ts[i].name@ + "'"@
    }
}

/// The `i`-th target repeats the (non-blank) name of an earlier one.
pub open spec fn is_dup(ts: Seq<Target>, i: int) -> bool {
    exists|j: int| 0 <= j < i && !is_blank(ts[j].name@) && #[trigger] ts[j].name@ == ts[i].name@
}

/// The problems of the `i`-th target, in the order they are reported.
pub open spec fn target_errors(ts: Seq<Target>, i: int) -> Seq<Seq<char>> {
    let l = label(ts, i);
    let t = ts[i];
    let a = if is_blank(t.name@) {
        seq![l + ": name is empty"@]
    } else if is_dup(ts, i) {
        seq![l + ": duplicate name"@]
    } else {
        Seq::empty()
    };
    let b = if is_blank(t.display@) {
        seq![l + ": display is empty"@]
    } else {
        Seq::empty()
    };
    let c = if t.kind is Virtual {
        match t.command {
            None => seq![l + ": virtual target requires a command"@],
            Some(cmd) => if is_blank(cmd@) {
                seq![l + ": command is blank"@]
            } else {
                Seq::empty()
            },
        }
    } else {
        Seq::empty()
    };
    a + b + c
}

/// The problems of the first `n` targets.
pub open spec fn errors_upto(ts: Seq<Target>, n: int) -> Seq<Seq<char>>
    decreases n,
{
    if n <= 0 {
        Seq::empty()
    } else {
        errors_upto(ts, n - 1) + target_errors(ts, n - 1)
    }
}

/// Every problem of a target list.
pub open spec fn config_errors(ts: Seq<Target>) -> Seq<Seq<char>> {
    errors_upto(ts, ts.len() as int)
}

/// The message of a rejected configuration.
pub open spec fn config_error_message(ts: Seq<Target>) -> Seq<char> {
    "invalid target config: "@ + joined(config_errors(ts), "; "@)
}

/// A target list the registry accepts.
pub open spec fn valid_targets(ts: Seq<Target>) -> bool {
    config_errors(ts).len() == 0
}

/// Facts about each target of a valid list.
pub open spec fn target_ok(ts: Seq<Target>, i: int) -> bool {
    &&& !is_blank(ts[i].name@)
    &&& !is_dup(ts, i)
    &&& !is_blank(ts[i].display@)
    &&& (ts[i].kind is Virtual ==> (ts[i].command matches Some(c) && !is_blank(c@)))
}

pub proof fn lemma_valid_targets(ts: Seq<Target>, n: int)
    requires
        0 <= n <= ts.len(),
        errors_upto(ts, n).len() == 0,
    ensures
        forall|i: int| 0 <= i < n ==> #[trigger] target_ok(ts, i),
    decreases n,
{
    if n > 0 {
        lemma_valid_targets(ts, n - 1);
        assert(target_errors(ts, n - 1).len() == 0);
    }
}

/// In a valid list no two targets share a name.
pub proof fn lemma_valid_names_distinct(ts: Seq<Target>)
    requires
        valid_targets(ts),
    ensures
        forall|i: int, j: int| 0 <= i < j < ts.len() ==> #[trigger] ts[i].name@ != #[trigger] ts[j].name@,
{
    lemma_valid_targets(ts, ts.len() as int);
    assert forall|i: int, j: int| 0 <= i < j < ts.len() implies #[trigger] ts[i].name@ != #[trigger] ts[j].name@ by {
        assert(target_ok(ts, i));
        assert(target_ok(ts, j));
        if ts[i].name@ == ts[j].name@ {
            assert(is_dup(ts, j));
        }
    }
}

/// The built-in local shell target.
pub open spec fn spec_local_shell() -> (Seq<char>, Seq<char>) {
    ("local-shell"@, "Local Shell"@)
}

pub open spec fn is_local_shell(t: Target) -> bool {
    &&& t.name@ == "local-shell"@
    &&& t.display@ == "Local Shell"@
    &&& t.kind == TargetKind::Local
    &&& t.command is None
    &&& t.args@.len() == 0
    &&& t.env@.len() == 0
    &&& t.tags@.len() == 0
    &&& !t.admin_only
    &&& t.shell is None
}

/// The built-in `local-shell` target, added to every registry that
/// declares no local target.
pub fn default_local_shell() -> (t: Target)
    ensures
        is_local_shell(t),
{
    Target {
        name: "local-shell".to_owned(),
        display: "Local Shell".to_owned(),
        kind: TargetKind::Local,
        command: None,
        args: Vec::new(),
        env: Vec::new(),
        tags: Vec::new(),
        admin_only: false,
        shell: None,
    }
}

fn message(label: &String, what: &str) -> (m: String)
    ensures
        m@ == label@ + what@,
{
    let mut m = label.clone();
    m.append(what);
    m
}

/// The problems of the `i`-th target; `dup` tells whether its name
/// repeats an earlier one.
fn errors_of_target(ts: &Vec<Target>, i: usize, dup: bool) -> (errs: Vec<String>)
    requires
        i < ts@.len(),
        dup == is_dup(ts@, i as int),
    ensures
        views(errs@) == target_errors(ts@, i as int),
{
    let t = &ts[i];
    let name_blank = str_is_blank(t.name.as_str());
    let mut l = String::new();
    if name_blank {
        l.append("targets[");
        push_decimal(&mut l, i as u64);
        l.append("]");
    } else {
        l.append("target '");
        l.append(t.name.as_str());
        l.append("'");
    }
    assert(l@ =~= label(ts@, i as int));
    let mut errs: Vec<String> = Vec::new();
    if name_blank {
        errs.push(message(&l, ": name is empty"));
    } else if dup {
        errs.push(message(&l, ": duplicate name"));
    }
    let ghost a = views(errs@);
    if str_is_blank(t.display.as_str()) {
        errs.push(message(&l, ": display is empty"));
    }
    let ghost ab = views(errs@);
    assert(ab =~= a + if is_blank(t.display@) {
        seq![l@ + ": display is empty"@]
    } else {
        Seq::empty()
    });
    match t.kind {
        TargetKind::Virtual => {
            match &t.command {
                None => {
                    errs.push(message(&l, ": virtual target requires a command"));
                },
                Some(cmd) => {
                    if str_is_blank(cmd.as_str()) {
                        errs.push(message(&l, ": command is blank"));
                    }
                },
            }
        },
        TargetKind::Local => {},
    }
    assert(views(errs@) =~= target_errors(ts@, i as int));
    errs
}

/// Whether `name` is among `seen`.
fn contains_name(seen: &Vec<String>, name: &str) -> (b: bool)
    ensures
        b == views(seen@).contains(name@),
{
    let mut k: usize = 0;
    while k < seen.len()
        invariant
            k <= seen.len(),
            forall|j: int| 0 <= j < k ==> seen@[j]@ != name@,
        decreases seen.len() - k,
    {
        if str_eq(seen[k].as_str(), name) {
            assert(views(seen@)[k as int] == name@);
            return true;
        }
        k = k + 1;
    }
    proof {
        if views(seen@).contains(name@) {
            let j = choose|j: int| 0 <= j < views(seen@).len() && views(seen@)[j] == name@;
            assert(seen@[j]@ == name@);
        }
    }
    false
}

/// Checks the business rules serde cannot enforce: non-blank names and
/// displays, a non-blank command on every virtual target, and no
/// duplicate names. Every problem is reported, in target order.
pub fn validate_targets(targets: &Vec<Target>) -> (r: Result<(), Error>)
    ensures
        r is Ok <==> valid_targets(targets@),
        r matches Err(e) ==> (e matches Error::InvalidInput(m) && m@ == config_error_message(
            targets@,
        )),
{
    let ghost ts = targets@;
    let mut errors: Vec<String> = Vec::new();
    let mut seen: Vec<String> = Vec::new();
    let mut i: usize = 0;
    while i < targets.len()
        invariant
            ts == targets@,
            i <= targets.len(),
            views(errors@) == errors_upto(ts, i as int),
            forall|x: Seq<char>| views(seen@).contains(x) <==> exists|j: int| 0 <= j < i && !is_blank(ts[j].name@) && #[trigger] ts[j].name@ == x,
        decreases targets.len() - i,
    {
        let t = &targets[i];
        let blank = str_is_blank(t.name.as_str());
        let mut dup = false;
        if !blank {
            dup = contains_name(&seen, t.name.as_str());
            let ghost old_seen = seen@;
            if !dup {
                seen.push(t.name.clone());
            }
            proof {
                assert forall|x: Seq<char>| views(seen@).contains(x) <==> exists|j: int| 0 <= j < i + 1 && !is_blank(ts[j].name@) && #[trigger] ts[j].name@ == x by {
                    if views(seen@).contains(x) {
                        let k = choose|k: int| 0 <= k < views(seen@).len() && views(seen@)[k] == x;
                        if k < old_seen.len() {
                            assert(views(old_seen)[k] == x);
                            assert(views(old_seen).contains(x));
                        } else {
                            assert(ts[i as int].name@ == x);
                        }
                    }
                    if exists|j: int| 0 <= j < i + 1 && !is_blank(ts[j].name@) && #[trigger] ts[j].name@ == x {
                        let j = choose|j: int| 0 <= j < i + 1 && !is_blank(ts[j].name@) && #[trigger] ts[j].name@ == x;
                        if j < i {
                            assert(views(old_seen).contains(x));
                            let k = choose|k: int| 0 <= k < views(old_seen).len() && views(old_seen)[k] == x;
                            assert(views(seen@)[k] == x);
                        } else if !dup {
                            assert(views(seen@)[old_seen.len() as int] == x);
                        }
                    }
                }
            }
        } else {
            proof {
                assert forall|x: Seq<char>| views(seen@).contains(x) <==> exists|j: int| 0 <= j < i + 1 && !is_blank(ts[j].name@) && #[trigger] ts[j].name@ == x by {
                    if exists|j: int| 0 <= j < i + 1 && !is_blank(ts[j].name@) && #[trigger] ts[j].name@ == x {
                        let j = choose|j: int| 0 <= j < i + 1 && !is_blank(ts[j].name@) && #[trigger] ts[j].name@ == x;
                        assert(j < i);
                    }
                }
            }
        }
        proof {
            if !blank {
                assert(dup == is_dup(ts, i as int)) by {
                    if dup {
                        let j = choose|j: int| 0 <= j < i && !is_blank(ts[j].name@) && #[trigger] ts[j].name@ == ts[i as int].name@;
                    }
                }
            }
        }
        let errs = errors_of_target(targets, i, if blank { false } else { dup });
        let ghost before = views(errors@);
        let mut k: usize = 0;
        while k < errs.len()
            invariant
                k <= errs.len(),
                views(errors@) == before + views(errs@).take(k as int),
            decreases errs.len() - k,
        {
            let e = errs[k].clone();
            let ghost prev = errors@;
            errors.push(e);
            assert(views(errors@) =~= views(prev).push(errs@[k as int]@));
            assert(views(errs@).take(k + 1) =~= views(errs@).take(k as int).push(errs@[k as int]@));
            assert(views(errors@) =~= before + views(errs@).take(k + 1));
            k = k + 1;
        }
        assert(views(errs@).take(errs.len() as int) =~= views(errs@));
        i = i + 1;
    }
    if errors.len() == 0 {
        Ok(())
    } else {
        let mut m = String::new();
        m.append("invalid target config: ");
        let ghost start = m@;
        let mut k: usize = 0;
        while k < errors.len()
            invariant
                k <= errors.len(),
                start == "invalid target config: "@,
                m@ == start + joined(views(errors@).take(k as int), "; "@),
            decreases errors.len() - k,
        {
            proof {
                lemma_joined_push(views(errors@).take(k as int), "; "@, errors@[k as int]@);
                assert(views(errors@).take(k + 1) =~= views(errors@).take(k as int).push(errors@[k as int]@));
            }
            if k > 0 {
                m.append("; ");
            }
            m.append(errors[k].as_str());
            k = k + 1;
        }
        assert(views(errors@).take(errors.len() as int) =~= views(errors@));
        Err(Error::InvalidInput(m))
    }
}


// ---------------------------------------------------------------------
// Equality of targets (environment maps compare as maps)
// ---------------------------------------------------------------------

/// `b` holds an entry with the name and value of `e`.
pub open spec fn env_contains(b: Seq<(String, String)>, e: (String, String)) -> bool {
    exists|j: int| 0 <= j < b.len() && b[j].0@ == e.0@ && b[j].1@ == e.1@
}

/// The same (name, value) entries, in any order.
pub open spec fn same_env(a: Seq<(String, String)>, b: Seq<(String, String)>) -> bool {
    &&& a.len() == b.len()
    &&& forall|i: int| 0 <= i < a.len() ==> env_contains(b, #[trigger] a[i])
    &&& forall|j: int| 0 <= j < b.len() ==> env_contains(a, #[trigger] b[j])
}

pub open spec fn opt_view(o: Option<String>) -> Option<Seq<char>> {
    match o {
        Some(s) => Some(s@),
        None => None,
    }
}

/// Two targets are equal field by field.
pub open spec fn same_target(a: Target, b: Target) -> bool {
    &&& a.name@ == b.name@
    &&& a.display@ == b.display@
    &&& a.kind == b.kind
    &&& opt_view(a.command) == opt_view(b.command)
    &&& views(a.args@) == views(b.args@)
    &&& same_env(a.env@, b.env@)
    &&& views(a.tags@) == views(b.tags@)
    &&& a.admin_only == b.admin_only
    &&& opt_view(a.shell) == opt_view(b.shell)
}

fn opt_str_eq(a: &Option<String>, b: &Option<String>) -> (r: bool)
    ensures
        r == (opt_view(*a) == opt_view(*b)),
{
    match (a, b) {
        (Some(x), Some(y)) => str_eq(x.as_str(), y.as_str()),
        (None, None) => true,
        _ => false,
    }
}

fn strs_eq(a: &Vec<String>, b: &Vec<String>) -> (r: bool)
    ensures
        r == (views(a@) == views(b@)),
{
    if a.len() != b.len() {
        proof {
            assert(views(a@).len() != views(b@).len());
        }
        return false;
    }
    let mut i: usize = 0;
    while i < a.len()
        invariant
            i <= a.len() == b.len(),
            forall|k: int| 0 <= k < i ==> a@[k]@ == b@[k]@,
        decreases a.len() - i,
    {
        if !str_eq(a[i].as_str(), b[i].as_str()) {
            proof {
                assert(views(a@)[i as int] != views(b@)[i as int]);
            }
            return false;
        }
        i = i + 1;
    }
    assert(views(a@) =~= views(b@));
    true
}

/// Whether `b` holds an entry equal to `e`.
fn env_has(b: &Vec<(String, String)>, e: &(String, String)) -> (r: bool)
    ensures
        r == env_contains(b@, *e),
{
    let mut j: usize = 0;
    while j < b.len()
        invariant
            j <= b.len(),
            forall|l: int| 0 <= l < j ==> !(#[trigger] b@[l].0@ == e.0@ && b@[l].1@ == e.1@),
        decreases b.len() - j,
    {
        if str_eq(e.0.as_str(), b[j].0.as_str()) && str_eq(e.1.as_str(), b[j].1.as_str()) {
            return true;
        }
        j = j + 1;
    }
    false
}

/// Every entry of `a` occurs in `b`.
fn env_entries_in(a: &Vec<(String, String)>, b: &Vec<(String, String)>) -> (r: bool)
    ensures
        r == (forall|i: int| 0 <= i < a@.len() ==> env_contains(b@, #[trigger] a@[i])),
{
    let mut i: usize = 0;
    while i < a.len()
        invariant
            i <= a.len(),
            forall|k: int| 0 <= k < i ==> env_contains(b@, #[trigger] a@[k]),
        decreases a.len() - i,
    {
        if !env_has(b, &a[i]) {
            return false;
        }
        i = i + 1;
    }
    true
}

/// Field-by-field equality of two targets.
pub fn targets_equal(a: &Target, b: &Target) -> (r: bool)
    ensures
        r == same_target(*a, *b),
{
    str_eq(a.name.as_str(), b.name.as_str()) && str_eq(a.display.as_str(), b.display.as_str())
        && a.kind == b.kind && opt_str_eq(&a.command, &b.command) && strs_eq(&a.args, &b.args)
        && a.env.len() == b.env.len() && env_entries_in(&a.env, &b.env) && env_entries_in(
        &b.env,
        &a.env,
    ) && strs_eq(&a.tags, &b.tags) && a.admin_only == b.admin_only && opt_str_eq(
        &a.shell,
        &b.shell,
    )
}

// ---------------------------------------------------------------------
// The registry
// ---------------------------------------------------------------------

/// Every target's variables name each variable once.
pub open spec fn envs_are_maps(ts: Seq<Target>) -> bool {
    forall|i: int| 0 <= i < ts.len() ==> distinct_names(#[trigger] ts[i].env@)
}

pub open spec fn has_local(ts: Seq<Target>) -> bool {
    exists|i: int| 0 <= i < ts.len() && #[trigger] ts[i].kind == TargetKind::Local
}

/// Some target of `ts` is called `n`.
pub open spec fn has_name(ts: Seq<Target>, n: Seq<char>) -> bool {
    exists|i: int| 0 <= i < ts.len() && #[trigger] ts[i].name@ == n
}

/// The target of `ts` called `n` (meaningful when `has_name(ts, n)`
/// and names are distinct).
pub open spec fn named(ts: Seq<Target>, n: Seq<char>) -> Target {
    ts[choose|i: int| 0 <= i < ts.len() && #[trigger] ts[i].name@ == n]
}

/// Index of the first target of `ts` called `n`.
pub open spec fn first_named(ts: Seq<Target>, n: Seq<char>, i: int) -> bool {
    &&& 0 <= i < ts.len()
    &&& ts[i].name@ == n
    &&& forall|k: int| 0 <= k < i ==> #[trigger] ts[k].name@ != n
}

/// What looking up `name` in `ts` answers: nothing when no target has
/// the name, else the first target with it.
pub open spec fn find_answer(ts: Seq<Target>, name: Seq<char>, r: Option<&Target>) -> bool {
    &&& (r is None <==> !has_name(ts, name))
    &&& (r matches Some(t) ==> exists|i: int| first_named(ts, name, i) && *t == ts[i])
}

/// What resolving `name` in `ts` against `env` answers: nothing when no
/// target has the name, else the resolution of the first target with it.
pub open spec fn resolve_answer(
    ts: Seq<Target>,
    name: Seq<char>,
    env: Seq<(String, String)>,
    r: Option<(String, Vec<String>, Vec<(String, String)>)>,
) -> bool {
    &&& (!has_name(ts, name) ==> r is None)
    &&& forall|i: int| #[trigger] first_named(ts, name, i) ==> match r {
        Some(x) => resolution(ts[i], env) == Some(resolved_view(x)),
        None => resolution(ts[i], env) is None,
    }
}

proof fn lemma_first_named_below(ts: Seq<Target>, n: Seq<char>, k: int)
    requires
        0 <= k < ts.len(),
        ts[k].name@ == n,
    ensures
        exists|i: int| first_named(ts, n, i),
    decreases k,
{
    if exists|j: int| 0 <= j < k && #[trigger] ts[j].name@ == n {
        let j = choose|j: int| 0 <= j < k && #[trigger] ts[j].name@ == n;
        lemma_first_named_below(ts, n, j);
    } else {
        assert(first_named(ts, n, k));
    }
}

/// A target with the name has a first one.
pub proof fn lemma_first_named_exists(ts: Seq<Target>, n: Seq<char>)
    requires
        has_name(ts, n),
    ensures
        exists|i: int| first_named(ts, n, i),
{
    let k = choose|k: int| 0 <= k < ts.len() && #[trigger] ts[k].name@ == n;
    lemma_first_named_below(ts, n, k);
}

/// Two answers to the same resolution agree: both nothing, or the same
/// command line.
pub proof fn lemma_resolve_answer_unique(
    ts: Seq<Target>,
    name: Seq<char>,
    env: Seq<(String, String)>,
    r1: Option<(String, Vec<String>, Vec<(String, String)>)>,
    r2: Option<(String, Vec<String>, Vec<(String, String)>)>,
)
    requires
        resolve_answer(ts, name, env, r1),
        resolve_answer(ts, name, env, r2),
    ensures
        r1 is None <==> r2 is None,
        r1 is Some ==> resolved_view(r1->0) == resolved_view(r2->0),
{
    if has_name(ts, name) {
        lemma_first_named_exists(ts, name);
        let i = choose|i: int| first_named(ts, name, i);
        assert(first_named(ts, name, i));
    }
}

/// `ts2` is the target list a configuration `ts` yields: `ts` itself when
/// it holds a local target, else `ts` followed by the built-in local shell.
pub open spec fn completes(ts: Seq<Target>, ts2: Seq<Target>) -> bool {
    if has_local(ts) {
        ts2 == ts
    } else {
        &&& ts2.len() == ts.len() + 1
        &&& ts2.take(ts.len() as int) == ts
        &&& is_local_shell(ts2.last())
    }
}

/// The registry of targets. Names are distinct and non-blank, every
/// virtual target has a command, and there is a local target.
#[derive(Debug)]
pub struct TargetEngine {
    targets: Vec<Target>,
}

impl TargetEngine {
    /// The targets, in configuration order.
    pub closed spec fn targets_view(&self) -> Seq<Target> {
        self.targets@
    }

    /// The registry invariant: a valid target list holding a local target,
    /// each target's variables a map (no name twice).
    #[verifier::type_invariant]
    pub closed spec fn wf(self) -> bool {
        valid_targets(self.targets@) && has_local(self.targets@) && envs_are_maps(self.targets@)
    }

    /// What the registry invariant says of the targets.
    pub proof fn lemma_wf(&self)
        ensures
            self.wf() <==> (valid_targets(self.targets_view()) && has_local(self.targets_view())
                && envs_are_maps(self.targets_view())),
    {
    }

    /// Builds a registry from a parsed configuration. The built-in
    /// `local-shell` target is added first when no local target is
    /// configured, so duplicate-name checks cover it too.
    pub fn from_config(config: crate::target::TargetConfig) -> (r: Result<TargetEngine, Error>)
        requires
            envs_are_maps(config.targets@),
        ensures
            r matches Ok(e) ==> e.wf() && completes(config.targets@, e.targets_view()),
            r matches Err(err) ==> exists|ts2: Seq<Target>| completes(config.targets@, ts2) && !valid_targets(ts2)
                && (err matches Error::InvalidInput(m) && m@ == config_error_message(ts2)),
    {
        let ghost ts = config.targets@;
        let mut targets = config.targets;
        let mut found = false;
        let mut i: usize = 0;
        while i < targets.len()
            invariant
                i <= targets.len(),
                targets@ == ts,
                found <==> exists|k: int| 0 <= k < i && #[trigger] targets@[k].kind == TargetKind::Local,
            decreases targets.len() - i,
        {
            if targets[i].kind == TargetKind::Local {
                found = true;
            }
            i = i + 1;
        }
        let ls = default_local_shell();
        if !found {
            targets.push(ls);
        }
        proof {
            assert(has_local(targets@)) by {
                if !found {
                    assert(targets@[targets@.len() - 1].kind == TargetKind::Local);
                } else {
                    let k = choose|k: int| 0 <= k < i && #[trigger] targets@[k].kind == TargetKind::Local;
                    assert(targets@[k].kind == TargetKind::Local);
                }
            }
            if !found {
                assert(targets@.take(ts.len() as int) =~= ts);
            }
            assert(completes(ts, targets@));
            assert forall|k: int| 0 <= k < targets@.len() implies distinct_names(#[trigger] targets@[k].env@) by {
                if k < ts.len() {
                    assert(targets@[k] == ts[k]);
                }
            }
        }
        match validate_targets(&targets) {
            Ok(()) => Ok(TargetEngine { targets }),
            Err(e) => Err(e),
        }
    }

    /// A registry holding only the built-in local shell.
    pub fn empty() -> (e: TargetEngine)
        ensures
            e.wf(),
            e.targets_view().len() == 1,
            is_local_shell(e.targets_view()[0]),
    {
        let ls = default_local_shell();
        let targets = vec![ls];
        proof {
            reveal_strlit("local-shell");
            reveal_strlit("Local Shell");
            let ts = targets@;
            assert(ts[0].name@[0] == 'l');
            assert(!is_blank(ts[0].name@)) by {
                assert(!is_ws(ts[0].name@[0]));
            }
            assert(!is_blank(ts[0].display@)) by {
                assert(ts[0].display@[0] == 'L');
                assert(!is_ws(ts[0].display@[0]));
            }
            assert(target_errors(ts, 0) =~= Seq::<Seq<char>>::empty());
            assert(errors_upto(ts, 0) =~= Seq::<Seq<char>>::empty());
            assert(errors_upto(ts, 1) =~= Seq::<Seq<char>>::empty());
            assert(ts[0].kind == TargetKind::Local);
            assert(envs_are_maps(ts));
        }
        TargetEngine { targets }
    }

    /// All targets, in configuration order.
    pub fn list_targets(&self) -> (r: &[Target])
        ensures
            r@ == self.targets_view(),
    {
        self.targets.as_slice()
    }

    fn index_of(&self, name: &str) -> (r: Option<usize>)
        ensures
            r matches Some(i) ==> first_named(self.targets_view(), name@, i as int),
            r is None ==> !has_name(self.targets_view(), name@),
    {
        let mut i: usize = 0;
        while i < self.targets.len()
            invariant
                i <= self.targets.len(),
                forall|k: int| 0 <= k < i ==> #[trigger] self.targets@[k].name@ != name@,
            decreases self.targets.len() - i,
        {
            if str_eq(self.targets[i].name.as_str(), name) {
                return Some(i);
            }
            i = i + 1;
        }
        None
    }

    /// The first target called `name`.
    pub fn find(&self, name: &str) -> (r: Option<&Target>)
        ensures
            find_answer(self.targets_view(), name@, r),
    {
        match self.index_of(name) {
            Some(i) => Some(&self.targets[i]),
            None => None,
        }
    }

    /// Resolves a target name to (command, args, env) with `${NAME}`
    /// substitution applied against `env`. A local target runs its
    /// shell (or `$SHELL`, or `/bin/sh`) with no arguments; a virtual
    /// target without a command resolves to nothing.
    pub fn resolve(&self, name: &str, env: &EnvVars) -> (r: Option<(String, Vec<String>, Vec<(String, String)>)>)
        ensures
            resolve_answer(self.targets_view(), name@, env@, r),
    {
        match self.index_of(name) {
            None => None,
            Some(i) => {
                proof {
                    assert forall|k: int| #[trigger] first_named(self.targets_view(), name@, k) implies k == i by {
                        if k < i {
                            assert(self.targets_view()[k].name@ != name@);
                        } else if k > i {
                            assert(self.targets_view()[i as int].name@ != name@);
                        }
                    }
                }
                resolve_target(&self.targets[i], env)
            },
        }
    }

    /// Compares `self` (the old registry) with `other` (the new one):
    /// names only in `other` were added, names only in `self` were
    /// removed, names in both were changed or unchanged depending on
    /// whether the targets are equal. Every list is sorted.
    pub fn diff(&self, other: &TargetEngine) -> (d: TargetDiff)
        ensures
            is_diff(self.targets_view(), other.targets_view(), d),
    {
        proof {
            use_type_invariant(self);
            use_type_invariant(other);
            lemma_valid_names_distinct(self.targets@);
            lemma_valid_names_distinct(other.targets@);
        }
        let ghost old_ts = self.targets@;
        let ghost new_ts = other.targets@;
        let mut added: Vec<String> = Vec::new();
        let mut changed: Vec<String> = Vec::new();
        let mut unchanged: Vec<String> = Vec::new();
        let mut i: usize = 0;
        while i < other.targets.len()
            invariant
                i <= other.targets.len(),
                old_ts == self.targets@,
                new_ts == other.targets@,
                forall|a: int, b: int| 0 <= a < b < old_ts.len() ==> #[trigger] old_ts[a].name@ != #[trigger] old_ts[b].name@,
                forall|a: int, b: int| 0 <= a < b < new_ts.len() ==> #[trigger] new_ts[a].name@ != #[trigger] new_ts[b].name@,
                distinct(views(added@)),
                distinct(views(changed@)),
                distinct(views(unchanged@)),
                forall|n: Seq<char>| views(added@).contains(n) ==> exists|k: int| 0 <= k < i && #[trigger] new_ts[k].name@ == n,
                forall|n: Seq<char>| views(changed@).contains(n) ==> exists|k: int| 0 <= k < i && #[trigger] new_ts[k].name@ == n,
                forall|n: Seq<char>| views(unchanged@).contains(n) ==> exists|k: int| 0 <= k < i && #[trigger] new_ts[k].name@ == n,
                forall|k: int| 0 <= k < i ==> (views(added@).contains(#[trigger] new_ts[k].name@) <==> !has_name(old_ts, new_ts[k].name@)),
                forall|k: int| 0 <= k < i ==> (views(changed@).contains(#[trigger] new_ts[k].name@) <==> (has_name(old_ts, new_ts[k].name@)
                    && !same_target(named(old_ts, new_ts[k].name@), new_ts[k]))),
                forall|k: int| 0 <= k < i ==> (views(unchanged@).contains(#[trigger] new_ts[k].name@) <==> (has_name(old_ts, new_ts[k].name@)
                    && same_target(named(old_ts, new_ts[k].name@), new_ts[k]))),
            decreases other.targets.len() - i,
        {
            let t = &other.targets[i];
            let ghost n = t.name@;
            proof {
                // The name is new to every list.
                assert(!views(added@).contains(n)) by {
                    if views(added@).contains(n) {
                        let k = choose|k: int| 0 <= k < i && #[trigger] new_ts[k].name@ == n;
                    }
                }
                assert(!views(changed@).contains(n)) by {
                    if views(changed@).contains(n) {
                        let k = choose|k: int| 0 <= k < i && #[trigger] new_ts[k].name@ == n;
                    }
                }
                assert(!views(unchanged@).contains(n)) by {
                    if views(unchanged@).contains(n) {
                        let k = choose|k: int| 0 <= k < i && #[trigger] new_ts[k].name@ == n;
                    }
                }
            }
            let ghost a0 = added@;
            let ghost c0 = changed@;
            let ghost u0 = unchanged@;
            match self.index_of(t.name.as_str()) {
                None => {
                    added.push(t.name.clone());
                },
                Some(j) => {
                    proof {
                        lemma_named(old_ts, j as int);
                    }
                    if targets_equal(&self.targets[j], t) {
                        unchanged.push(t.name.clone());
                    } else {
                        changed.push(t.name.clone());
                    }
                },
            }
            proof {
                assert(added@.len() > a0.len() ==> added@.drop_last() =~= a0);
                assert(changed@.len() > c0.len() ==> changed@.drop_last() =~= c0);
                assert(unchanged@.len() > u0.len() ==> unchanged@.drop_last() =~= u0);
                lemma_push_view(a0, added@, n);
                lemma_push_view(c0, changed@, n);
                lemma_push_view(u0, unchanged@, n);
                assert forall|k: int| 0 <= k < i + 1 implies (views(added@).contains(#[trigger] new_ts[k].name@) <==> !has_name(old_ts, new_ts[k].name@)) by {
                    if k < i {
                        assert(new_ts[k].name@ != n);
                    }
                }
                assert forall|k: int| 0 <= k < i + 1 implies (views(changed@).contains(#[trigger] new_ts[k].name@) <==> (has_name(old_ts, new_ts[k].name@)
                    && !same_target(named(old_ts, new_ts[k].name@), new_ts[k]))) by {
                    if k < i {
                        assert(new_ts[k].name@ != n);
                    }
                }
                assert forall|k: int| 0 <= k < i + 1 implies (views(unchanged@).contains(#[trigger] new_ts[k].name@) <==> (has_name(old_ts, new_ts[k].name@)
                    && same_target(named(old_ts, new_ts[k].name@), new_ts[k]))) by {
                    if k < i {
                        assert(new_ts[k].name@ != n);
                    }
                }
                assert forall|m: Seq<char>| views(added@).contains(m) implies exists|k: int| 0 <= k < i + 1 && #[trigger] new_ts[k].name@ == m by {
                    if m != n {
                        assert(views(a0).contains(m));
                    } else {
                        assert(new_ts[i as int].name@ == m);
                    }
                }
                assert forall|m: Seq<char>| views(changed@).contains(m) implies exists|k: int| 0 <= k < i + 1 && #[trigger] new_ts[k].name@ == m by {
                    if m != n {
                        assert(views(c0).contains(m));
                    } else {
                        assert(new_ts[i as int].name@ == m);
                    }
                }
                assert forall|m: Seq<char>| views(unchanged@).contains(m) implies exists|k: int| 0 <= k < i + 1 && #[trigger] new_ts[k].name@ == m by {
                    if m != n {
                        assert(views(u0).contains(m));
                    } else {
                        assert(new_ts[i as int].name@ == m);
                    }
                }
            }
            i = i + 1;
        }
        let mut removed: Vec<String> = Vec::new();
        let mut j: usize = 0;
        while j < self.targets.len()
            invariant
                j <= self.targets.len(),
                old_ts == self.targets@,
                new_ts == other.targets@,
                forall|a: int, b: int| 0 <= a < b < old_ts.len() ==> #[trigger] old_ts[a].name@ != #[trigger] old_ts[b].name@,
                distinct(views(removed@)),
                forall|n: Seq<char>| views(removed@).contains(n) ==> exists|k: int| 0 <= k < j && #[trigger] old_ts[k].name@ == n,
                forall|k: int| 0 <= k < j ==> (views(removed@).contains(#[trigger] old_ts[k].name@) <==> !has_name(new_ts, old_ts[k].name@)),
            decreases self.targets.len() - j,
        {
            let t = &self.targets[j];
            let ghost n = t.name@;
            proof {
                assert(!views(removed@).contains(n)) by {
                    if views(removed@).contains(n) {
                        let k = choose|k: int| 0 <= k < j && #[trigger] old_ts[k].name@ == n;
                    }
                }
            }
            let ghost r0 = removed@;
            if other.index_of(t.name.as_str()).is_none() {
                removed.push(t.name.clone());
            }
            proof {
                assert(removed@.len() > r0.len() ==> removed@.drop_last() =~= r0);
                lemma_push_view(r0, removed@, n);
                assert forall|k: int| 0 <= k < j + 1 implies (views(removed@).contains(#[trigger] old_ts[k].name@) <==> !has_name(new_ts, old_ts[k].name@)) by {
                    if k < j {
                        assert(old_ts[k].name@ != n);
                    }
                }
                assert forall|m: Seq<char>| views(removed@).contains(m) implies exists|k: int| 0 <= k < j + 1 && #[trigger] old_ts[k].name@ == m by {
                    if m != n {
                        assert(views(r0).contains(m));
                    } else {
                        assert(old_ts[j as int].name@ == m);
                    }
                }
            }
            j = j + 1;
        }
        let added = sort_strings(added);
        let removed = sort_strings(removed);
        let changed = sort_strings(changed);
        let unchanged = sort_strings(unchanged);
        proof {
            assert forall|n: Seq<char>| views(added@).contains(n) <==> (has_name(new_ts, n) && !has_name(old_ts, n)) by {
                if has_name(new_ts, n) {
                    let k = choose|k: int| 0 <= k < new_ts.len() && #[trigger] new_ts[k].name@ == n;
                }
            }
            assert forall|n: Seq<char>| views(removed@).contains(n) <==> (has_name(old_ts, n) && !has_name(new_ts, n)) by {
                if has_name(old_ts, n) {
                    let k = choose|k: int| 0 <= k < old_ts.len() && #[trigger] old_ts[k].name@ == n;
                }
            }
            assert forall|n: Seq<char>| views(changed@).contains(n) <==> (has_name(old_ts, n) && has_name(new_ts, n)
                && !same_target(named(old_ts, n), named(new_ts, n))) by {
                if has_name(new_ts, n) {
                    let k = choose|k: int| 0 <= k < new_ts.len() && #[trigger] new_ts[k].name@ == n;
                    lemma_named(new_ts, k);
                }
            }
            assert forall|n: Seq<char>| views(unchanged@).contains(n) <==> (has_name(old_ts, n) && has_name(new_ts, n)
                && same_target(named(old_ts, n), named(new_ts, n))) by {
                if has_name(new_ts, n) {
                    let k = choose|k: int| 0 <= k < new_ts.len() && #[trigger] new_ts[k].name@ == n;
                    lemma_named(new_ts, k);
                }
            }
        }
        TargetDiff { added, removed, changed, unchanged }
    }
}

/// Result of comparing two registries. Each list is sorted.
#[derive(Debug, Clone)]
pub struct TargetDiff {
    pub added: Vec<String>,
    pub removed: Vec<String>,
    pub changed: Vec<String>,
    pub unchanged: Vec<String>,
}

/// `d` is the difference from the registry `old` to the registry `new`:
/// each list sorted, names only in `new` added, names only in `old`
/// removed, names in both changed or unchanged as their targets differ.
pub open spec fn is_diff(old: Seq<Target>, new: Seq<Target>, d: TargetDiff) -> bool {
    &&& strictly_sorted(views(d.added@))
    &&& strictly_sorted(views(d.removed@))
    &&& strictly_sorted(views(d.changed@))
    &&& strictly_sorted(views(d.unchanged@))
    &&& forall|n: Seq<char>| #[trigger] views(d.added@).contains(n) <==> (has_name(new, n) && !has_name(old, n))
    &&& forall|n: Seq<char>| #[trigger] views(d.removed@).contains(n) <==> (has_name(old, n) && !has_name(new, n))
    &&& forall|n: Seq<char>| #[trigger] views(d.changed@).contains(n) <==> (has_name(old, n) && has_name(new, n)
        && !same_target(named(old, n), named(new, n)))
    &&& forall|n: Seq<char>| #[trigger] views(d.unchanged@).contains(n) <==> (has_name(old, n) && has_name(new, n)
        && same_target(named(old, n), named(new, n)))
}

/// Some entry of `vars` has this name and this value.
pub open spec fn has_entry(vars: Seq<(String, String)>, name: Seq<char>, value: Seq<char>) -> bool {
    exists|j: int| 0 <= j < vars.len() && #[trigger] vars[j].0@ == name && vars[j].1@ == value
}

/// Two targets compare equal exactly when every field agrees: name,
/// display, kind, command, flag and shell; the arguments and the tags
/// element by element, in order; and the variables as (name, value)
/// entries, each found in the other target, in any order.
pub proof fn lemma_same_target_fields(a: Target, b: Target)
    ensures
        same_target(a, b) <==> {
            &&& a.name@ == b.name@
            &&& a.display@ == b.display@
            &&& a.kind == b.kind
            &&& (a.command is None <==> b.command is None)
            &&& (a.command is Some ==> a.command->0@ == b.command->0@)
            &&& a.args@.len() == b.args@.len()
            &&& (forall|i: int| 0 <= i < a.args@.len() ==> #[trigger] a.args@[i]@ == b.args@[i]@)
            &&& a.env@.len() == b.env@.len()
            &&& (forall|i: int| 0 <= i < a.env@.len() ==> has_entry(b.env@, (#[trigger] a.env@[i]).0@, a.env@[i].1@))
            &&& (forall|j: int| 0 <= j < b.env@.len() ==> has_entry(a.env@, (#[trigger] b.env@[j]).0@, b.env@[j].1@))
            &&& a.tags@.len() == b.tags@.len()
            &&& (forall|i: int| 0 <= i < a.tags@.len() ==> #[trigger] a.tags@[i]@ == b.tags@[i]@)
            &&& a.admin_only == b.admin_only
            &&& (a.shell is None <==> b.shell is None)
            &&& (a.shell is Some ==> a.shell->0@ == b.shell->0@)
        },
{
    if views(a.args@) == views(b.args@) {
        assert(views(a.args@).len() == a.args@.len() && views(b.args@).len() == b.args@.len());
        assert forall|i: int| 0 <= i < a.args@.len() implies #[trigger] a.args@[i]@ == b.args@[i]@ by {
            assert(views(a.args@)[i] == views(b.args@)[i]);
        }
    }
    if a.args@.len() == b.args@.len() && (forall|i: int| 0 <= i < a.args@.len() ==> #[trigger] a.args@[i]@
        == b.args@[i]@) {
        assert(views(a.args@) =~= views(b.args@));
    }
    if views(a.tags@) == views(b.tags@) {
        assert(views(a.tags@).len() == a.tags@.len() && views(b.tags@).len() == b.tags@.len());
        assert forall|i: int| 0 <= i < a.tags@.len() implies #[trigger] a.tags@[i]@ == b.tags@[i]@ by {
            assert(views(a.tags@)[i] == views(b.tags@)[i]);
        }
    }
    if a.tags@.len() == b.tags@.len() && (forall|i: int| 0 <= i < a.tags@.len() ==> #[trigger] a.tags@[i]@
        == b.tags@[i]@) {
        assert(views(a.tags@) =~= views(b.tags@));
    }
    assert((opt_view(a.command) == opt_view(b.command)) <==> ((a.command is None <==> b.command is None) && (
    a.command is Some ==> a.command->0@ == b.command->0@)));
    assert((opt_view(a.shell) == opt_view(b.shell)) <==> ((a.shell is None <==> b.shell is None) && (
    a.shell is Some ==> a.shell->0@ == b.shell->0@)));
    assert forall|e: (String, String)| env_contains(b.env@, e) <==> #[trigger] has_entry(b.env@, e.0@, e.1@) by {
        if has_entry(b.env@, e.0@, e.1@) {
            let j = choose|j: int| 0 <= j < b.env@.len() && #[trigger] b.env@[j].0@ == e.0@ && b.env@[j].1@ == e.1@;
            assert(0 <= j < b.env@.len() && b.env@[j].0@ == e.0@ && b.env@[j].1@ == e.1@);
        }
    }
    assert forall|e: (String, String)| env_contains(a.env@, e) <==> #[trigger] has_entry(a.env@, e.0@, e.1@) by {
        if has_entry(a.env@, e.0@, e.1@) {
            let j = choose|j: int| 0 <= j < a.env@.len() && #[trigger] a.env@[j].0@ == e.0@ && a.env@[j].1@ == e.1@;
            assert(0 <= j < a.env@.len() && a.env@[j].0@ == e.0@ && a.env@[j].1@ == e.1@);
        }
    }
}

/// On a reload, a target kept under its name but with other arguments is
/// reported as changed, never as unchanged.
pub proof fn lemma_new_arguments_are_a_change(old: Seq<Target>, new: Seq<Target>, d: TargetDiff, n: Seq<char>)
    requires
        is_diff(old, new, d),
        has_name(old, n),
        has_name(new, n),
        named(old, n).args@.len() != named(new, n).args@.len() || exists|i: int|
            0 <= i < named(old, n).args@.len() && #[trigger] named(old, n).args@[i]@ != named(new, n).args@[i]@,
    ensures
        views(d.changed@).contains(n),
        !views(d.unchanged@).contains(n),
{
    lemma_same_target_fields(named(old, n), named(new, n));
}

proof fn lemma_same_target_symmetric(a: Target, b: Target)
    ensures
        same_target(a, b) == same_target(b, a),
{
}

proof fn lemma_same_target_reflexive(a: Target)
    ensures
        same_target(a, a),
{
    assert forall|i: int| 0 <= i < a.env@.len() implies env_contains(a.env@, #[trigger] a.env@[i]) by {
        assert(a.env@[i].0@ == a.env@[i].0@);
    }
}

/// Diffing the other way round swaps added and removed and keeps changed
/// and unchanged: every list is equal, not only its members.
pub proof fn lemma_diff_symmetric(a: Seq<Target>, b: Seq<Target>, ab: TargetDiff, ba: TargetDiff)
    requires
        is_diff(a, b, ab),
        is_diff(b, a, ba),
    ensures
        views(ab.added@) == views(ba.removed@),
        views(ab.removed@) == views(ba.added@),
        views(ab.changed@) == views(ba.changed@),
        views(ab.unchanged@) == views(ba.unchanged@),
{
    assert forall|n: Seq<char>| true implies same_target(named(a, n), named(b, n)) == same_target(named(b, n), named(a, n)) by {
        lemma_same_target_symmetric(named(a, n), named(b, n));
    }
    assert forall|x: Seq<char>| views(ab.added@).contains(x) <==> views(ba.removed@).contains(x) by {
        assert(views(ab.added@).contains(x) <==> (has_name(b, x) && !has_name(a, x)));
        assert(views(ba.removed@).contains(x) <==> (has_name(b, x) && !has_name(a, x)));
    }
    assert forall|x: Seq<char>| views(ab.removed@).contains(x) <==> views(ba.added@).contains(x) by {
        assert(views(ab.removed@).contains(x) <==> (has_name(a, x) && !has_name(b, x)));
        assert(views(ba.added@).contains(x) <==> (has_name(a, x) && !has_name(b, x)));
    }
    lemma_sorted_same_members_equal(views(ab.added@), views(ba.removed@));
    lemma_sorted_same_members_equal(views(ab.removed@), views(ba.added@));
    lemma_sorted_same_members_equal(views(ab.changed@), views(ba.changed@));
    lemma_sorted_same_members_equal(views(ab.unchanged@), views(ba.unchanged@));
}

/// A registry compared with itself has nothing added, removed or
/// changed; every name is unchanged.
pub proof fn lemma_diff_with_itself(a: Seq<Target>, d: TargetDiff)
    requires
        is_diff(a, a, d),
    ensures
        d.added@.len() == 0,
        d.removed@.len() == 0,
        d.changed@.len() == 0,
        forall|n: Seq<char>| views(d.unchanged@).contains(n) <==> has_name(a, n),
{
    assert forall|n: Seq<char>| true implies same_target(named(a, n), named(a, n)) by {
        lemma_same_target_reflexive(named(a, n));
    }
    assert forall|x: Seq<char>| !views(d.added@).contains(x) by {
        assert(views(d.added@).contains(x) <==> (has_name(a, x) && !has_name(a, x)));
    }
    assert forall|x: Seq<char>| !views(d.removed@).contains(x) by {
        assert(views(d.removed@).contains(x) <==> (has_name(a, x) && !has_name(a, x)));
    }
    lemma_sorted_no_members_empty(views(d.added@));
    lemma_sorted_no_members_empty(views(d.removed@));
    lemma_sorted_no_members_empty(views(d.changed@));
}

/// In a list with distinct names, the target called like the `i`-th one
/// is the `i`-th one.
pub proof fn lemma_named(ts: Seq<Target>, i: int)
    requires
        0 <= i < ts.len(),
        forall|a: int, b: int| 0 <= a < b < ts.len() ==> #[trigger] ts[a].name@ != #[trigger] ts[b].name@,
    ensures
        named(ts, ts[i].name@) == ts[i],
        has_name(ts, ts[i].name@),
{
    let n = ts[i].name@;
    assert(ts[i].name@ == n);
    let k = choose|k: int| 0 <= k < ts.len() && #[trigger] ts[k].name@ == n;
    if k < i {
        assert(ts[k].name@ != ts[i].name@);
    } else if k > i {
        assert(ts[i].name@ != ts[k].name@);
    }
}

/// Pushing `n` onto a list (or not) keeps it distinct when `n` was absent,
/// and adds exactly `n`.
proof fn lemma_push_view(before: Seq<String>, after: Seq<String>, n: Seq<char>)
    requires
        distinct(views(before)),
        !views(before).contains(n),
        after == before || (after.len() == before.len() + 1 && after.drop_last() == before && after.last()@ == n),
    ensures
        distinct(views(after)),
        forall|m: Seq<char>| views(after).contains(m) <==> (views(before).contains(m) || (after != before && m == n)),
{
    if after != before {
        assert(views(after) =~= views(before).push(n));
        assert forall|a: int, b: int| 0 <= a < b < views(after).len() implies #[trigger] views(after)[a] != #[trigger] views(after)[b] by {
            if b == views(before).len() {
                assert(views(before)[a] == views(after)[a]);
            }
        }
        assert forall|m: Seq<char>| views(after).contains(m) <==> (views(before).contains(m) || m == n) by {
            if views(after).contains(m) && m != n {
                let k = choose|k: int| 0 <= k < views(after).len() && views(after)[k] == m;
                assert(views(before)[k] == m);
            }
            if views(before).contains(m) {
                let k = choose|k: int| 0 <= k < views(before).len() && views(before)[k] == m;
                assert(views(after)[k] == m);
            }
            if m == n {
                assert(views(after)[views(before).len() as int] == m);
            }
        }
    }
}

/// The shell a local target without one runs: `$SHELL`, else `/bin/sh`.
pub open spec fn default_shell_of(env: Seq<(String, String)>) -> Seq<char> {
    match env_lookup(env, "SHELL"@) {
        Some(v) => v,
        None => "/bin/sh"@,
    }
}

pub open spec fn subst_all(xs: Seq<String>, env: Seq<(String, String)>) -> Seq<Seq<char>> {
    Seq::new(xs.len(), |i: int| substituted(xs[i]@, env))
}

pub open spec fn subst_env(e: Seq<(String, String)>, env: Seq<(String, String)>) -> Seq<(Seq<char>, Seq<char>)> {
    Seq::new(e.len(), |i: int| (e[i].0@, substituted(e[i].1@, env)))
}

/// Substitution rewrites values only: each variable keeps its name, so
/// variables that named each variable once still do.
pub proof fn lemma_subst_env_keeps_names(e: Seq<(String, String)>, env: Seq<(String, String)>)
    ensures
        subst_env(e, env).len() == e.len(),
        forall|i: int| 0 <= i < e.len() ==> (#[trigger] subst_env(e, env)[i]).0 == e[i].0@,
        distinct_names(e) ==> distinct_view_names(subst_env(e, env)),
{
}

/// The command line a target resolves to.
pub open spec fn resolution(t: Target, env: Seq<(String, String)>) -> Option<(Seq<char>, Seq<Seq<char>>, Seq<(Seq<char>, Seq<char>)>)> {
    match t.kind {
        TargetKind::Local => Some((
            match t.shell {
                Some(sh) => substituted(sh@, env),
                None => default_shell_of(env),
            },
            Seq::empty(),
            Seq::empty(),
        )),
        TargetKind::Virtual => match t.command {
            None => None,
            Some(c) => Some((substituted(c@, env), subst_all(t.args@, env), subst_env(t.env@, env))),
        },
    }
}

/// A local target launches the shell it configures, with `${VAR}`
/// substituted from the environment; only a local target that names no
/// shell falls back to `$SHELL`, and to `/bin/sh` when that is unset. A
/// local target takes no arguments and adds no variables.
pub proof fn lemma_local_target_runs_its_shell(t: Target, env: Seq<(String, String)>)
    requires
        t.kind == TargetKind::Local,
    ensures
        resolution(t, env) is Some,
        resolution(t, env) matches Some(r) && {
            &&& (t.shell matches Some(sh) ==> r.0 == substituted(sh@, env))
            &&& (t.shell is None ==> r.0 == (match env_lookup(env, "SHELL"@) {
                Some(v) => v,
                None => "/bin/sh"@,
            }))
            &&& r.1.len() == 0
            &&& r.2.len() == 0
        },
{
}

/// A virtual target launches its command with its arguments and
/// variables, each `${VAR}`-substituted, in their configured order; one
/// without a command does not resolve.
pub proof fn lemma_virtual_target_runs_its_command(t: Target, env: Seq<(String, String)>)
    requires
        t.kind == TargetKind::Virtual,
    ensures
        t.command is None <==> resolution(t, env) is None,
        t.command matches Some(c) ==> {
            let r = resolution(t, env)->0;
            &&& r.0 == substituted(c@, env)
            &&& r.1.len() == t.args@.len()
            &&& forall|i: int| 0 <= i < t.args@.len() ==> #[trigger] r.1[i] == substituted(t.args@[i]@, env)
            &&& r.2.len() == t.env@.len()
            &&& forall|i: int| 0 <= i < t.env@.len() ==> #[trigger] r.2[i] == (t.env@[i].0@, substituted(
                t.env@[i].1@,
                env,
            ))
        },
{
}

pub open spec fn resolved_view(r: (String, Vec<String>, Vec<(String, String)>)) -> (Seq<char>, Seq<Seq<char>>, Seq<(Seq<char>, Seq<char>)>) {
    (r.0@, views(r.1@), r.2@.map_values(|p: (String, String)| (p.0@, p.1@)))
}

/// `$SHELL` from `env`, else `/bin/sh`.
pub fn default_shell(env: &EnvVars) -> (s: String)
    ensures
        s@ == default_shell_of(env@),
{
    match lookup_var(env, "SHELL") {
        Some(v) => v,
        None => "/bin/sh".to_owned(),
    }
}

/// Substitutes every string of a list.
pub fn substitute_all(xs: &Vec<String>, env: &EnvVars) -> (r: Vec<String>)
    ensures
        views(r@) == subst_all(xs@, env@),
{
    let mut r: Vec<String> = Vec::new();
    let mut i: usize = 0;
    while i < xs.len()
        invariant
            i <= xs.len(),
            views(r@) == subst_all(xs@, env@).take(i as int),
        decreases xs.len() - i,
    {
        let s = substitute_env_vars(xs[i].as_str(), env);
        let ghost r0 = r@;
        assert(s@ == subst_all(xs@, env@)[i as int]);
        r.push(s);
        assert(views(r@) =~= views(r0).push(s@));
        assert(subst_all(xs@, env@).take(i + 1) =~= subst_all(xs@, env@).take(i as int).push(s@));
        i = i + 1;
    }
    assert(subst_all(xs@, env@).take(xs.len() as int) =~= subst_all(xs@, env@));
    r
}

/// Substitutes the value of every (name, value) entry.
pub fn substitute_env(e: &Vec<(String, String)>, env: &EnvVars) -> (r: Vec<(String, String)>)
    ensures
        r@.map_values(|p: (String, String)| (p.0@, p.1@)) == subst_env(e@, env@),
{
    let mut r: Vec<(String, String)> = Vec::new();
    let mut i: usize = 0;
    while i < e.len()
        invariant
            i <= e.len(),
            r@.map_values(|p: (String, String)| (p.0@, p.1@)) == subst_env(e@, env@).take(i as int),
        decreases e.len() - i,
    {
        let v = substitute_env_vars(e[i].1.as_str(), env);
        let k = e[i].0.clone();
        let ghost r0 = r@;
        assert((k@, v@) == subst_env(e@, env@)[i as int]);
        r.push((k, v));
        assert(r@.map_values(|p: (String, String)| (p.0@, p.1@)) =~= r0.map_values(|p: (String, String)| (p.0@, p.1@)).push((k@, v@)));
        assert(subst_env(e@, env@).take(i + 1) =~= subst_env(e@, env@).take(i as int).push((k@, v@)));
        i = i + 1;
    }
    assert(subst_env(e@, env@).take(e.len() as int) =~= subst_env(e@, env@));
    r
}

/// Resolves one target to its command line.
pub fn resolve_target(t: &Target, env: &EnvVars) -> (r: Option<(String, Vec<String>, Vec<(String, String)>)>)
    ensures
        match r {
            Some(x) => resolution(*t, env@) == Some(resolved_view(x)),
            None => resolution(*t, env@) is None,
        },
{
    match t.kind {
        TargetKind::Local => {
            let shell = match &t.shell {
                Some(sh) => substitute_env_vars(sh.as_str(), env),
                None => default_shell(env),
            };
            let args: Vec<String> = Vec::new();
            let e: Vec<(String, String)> = Vec::new();
            let r = (shell, args, e);
            assert(resolved_view(r).1 =~= Seq::<Seq<char>>::empty());
            assert(resolved_view(r).2 =~= Seq::<(Seq<char>, Seq<char>)>::empty());
            Some(r)
        },
        TargetKind::Virtual => {
            match &t.command {
                None => None,
                Some(c) => {
                    let cmd = substitute_env_vars(c.as_str(), env);
                    let args = substitute_all(&t.args, env);
                    let e = substitute_env(&t.env, env);
                    Some((cmd, args, e))
                },
            }
        },
    }
}

} // verus!
