//! Launchable targets and `${NAME}` substitution in their command lines.
use vstd::prelude::*;
use vstd::string::*;

use crate::text::{chars_of, push_char, str_eq};

verus! {

#[derive(Debug, Clone, Copy, PartialEq, Eq, Structural)]
pub enum TargetKind {
    /// A named command (ssh, psql, ...).
    Virtual,
    /// The user's login shell.
    Local,
}

impl Default for TargetKind {
    fn default() -> (k: Self)
        ensures
            k == TargetKind::Virtual,
    {
        TargetKind::Virtual
    }
}

#[derive(Debug, Clone)]
pub struct Target {
    pub name: String,
    pub display: String,
    pub kind: TargetKind,
    pub command: Option<String>,
    pub args: Vec<String>,
    /// Environment variables, as (name, value) pairs; a map, so no name
    /// occurs twice (`distinct_names`).
    pub env: Vec<(String, String)>,
    pub tags: Vec<String>,
    /// Only admins may create sessions on this target.
    pub admin_only: bool,
    /// Shell of a `Local` target; `None` = the user's `$SHELL`.
    pub shell: Option<String>,
}

#[derive(Debug, Clone)]
pub struct TargetConfig {
    pub targets: Vec<Target>,
}

/// No name occurs twice among the pairs: what a map of variables
/// guarantees.
pub open spec fn distinct_names(e: Seq<(String, String)>) -> bool {
    forall|i: int, j: int| #![trigger e[i], e[j]] 0 <= i < j < e.len() ==> e[i].0@ != e[j].0@
}

/// The same, of pairs taken by their views.
pub open spec fn distinct_view_names(e: Seq<(Seq<char>, Seq<char>)>) -> bool {
    forall|i: int, j: int| #![trigger e[i], e[j]] 0 <= i < j < e.len() ==> e[i].0 != e[j].0
}

/// A snapshot of the process environment: (name, value) pairs.
pub type EnvVars = Vec<(String, String)>;

/// Whether `name` may name an environment variable at all: an empty name,
/// or one holding `=` or NUL, is never found.
pub open spec fn valid_var_name(name: Seq<char>) -> bool {
    name.len() > 0 && (forall|i: int| 0 <= i < name.len() ==> #[trigger] name[i] != '=' && name[i] != '\0')
}

/// The value of the first variable called `name` in `env`.
pub open spec fn env_first(env: Seq<(String, String)>, name: Seq<char>) -> Option<Seq<char>>
    decreases env.len(),
{
    if env.len() == 0 {
        None
    } else if env[0].0@ == name {
        Some(env[0].1@)
    } else {
        env_first(env.drop_first(), name)
    }
}

/// `std::env::var` on the snapshot `env`.
pub open spec fn env_lookup(env: Seq<(String, String)>, name: Seq<char>) -> Option<Seq<char>> {
    if valid_var_name(name) {
        env_first(env, name)
    } else {
        None
    }
}

/// Position of the first `}` in `s` (or `s.len()` when there is none).
pub open spec fn brace_pos(s: Seq<char>) -> int
    decreases s.len(),
{
    if s.len() == 0 {
        0
    } else if s[0] == '}' {
        0
    } else {
        1 + brace_pos(s.drop_first())
    }
}

/// Replaces each `${NAME}` by the value of `NAME` in `env`. An unknown
/// name is kept as `${NAME}`; an unterminated `${NAME` runs to the end of
/// the input and is kept as `${NAME}` when unknown.
pub open spec fn substituted(s: Seq<char>, env: Seq<(String, String)>) -> Seq<char>
    decreases s.len(),
{
    if s.len() == 0 {
        Seq::empty()
    } else if s.len() >= 2 && s[0] == '$' && s[1] == '{' {
        let rest = s.skip(2);
        let k = brace_pos(rest);
        proof {
            lemma_brace_pos_bounds(rest);
        }
        let name = rest.take(k);
        let after = if k < rest.len() {
            rest.skip(k + 1)
        } else {
            Seq::empty()
        };
        let piece = match env_lookup(env, name) {
            Some(v) => v,
            None => "${"@ + name + "}"@,
        };
        piece + substituted(after, env)
    } else {
        seq![s[0]] + substituted(s.drop_first(), env)
    }
}

pub proof fn lemma_brace_pos_bounds(s: Seq<char>)
    ensures
        0 <= brace_pos(s) <= s.len(),
        brace_pos(s) < s.len() ==> s[brace_pos(s)] == '}',
        forall|i: int| 0 <= i < brace_pos(s) ==> s[i] != '}',
    decreases s.len(),
{
    if s.len() > 0 && s[0] != '}' {
        lemma_brace_pos_bounds(s.drop_first());
        assert forall|i: int| 0 <= i < brace_pos(s) implies s[i] != '}' by {
            if i > 0 {
                assert(s[i] == s.drop_first()[i - 1]);
            }
        }
    }
}

proof fn lemma_brace_pos_is(s: Seq<char>, j: int)
    requires
        0 <= j <= s.len(),
        forall|i: int| 0 <= i < j ==> s[i] != '}',
        j < s.len() ==> s[j] == '}',
    ensures
        brace_pos(s) == j,
    decreases s.len(),
{
    if s.len() > 0 && j > 0 {
        lemma_brace_pos_is(s.drop_first(), j - 1);
    }
}

/// Text without a `$` is left as it is.
pub proof fn lemma_plain_text_unchanged(s: Seq<char>, env: Seq<(String, String)>)
    requires
        forall|i: int| 0 <= i < s.len() ==> s[i] != '$',
    ensures
        substituted(s, env) == s,
    decreases s.len(),
{
    if s.len() > 0 {
        lemma_plain_text_unchanged(s.drop_first(), env);
        assert(seq![s[0]] + s.drop_first() =~= s);
    }
}

/// `${NAME}` followed by more text becomes the value of `NAME`, when it is
/// set, followed by the rest substituted; an unset name stays as written.
pub proof fn lemma_reference_replaced(name: Seq<char>, rest: Seq<char>, env: Seq<(String, String)>)
    requires
        forall|i: int| 0 <= i < name.len() ==> name[i] != '}',
    ensures
        substituted(seq!['$', '{'] + name + seq!['}'] + rest, env) == match env_lookup(env, name) {
            Some(v) => v,
            None => seq!['$', '{'] + name + seq!['}'],
        } + substituted(rest, env),
{
    let s = seq!['$', '{'] + name + seq!['}'] + rest;
    let r = s.skip(2);
    assert(r =~= name + seq!['}'] + rest);
    lemma_brace_pos_is(r, name.len() as int);
    assert(r.take(name.len() as int) =~= name);
    assert(r.skip(name.len() + 1int) =~= rest);
    reveal_strlit("${");
    reveal_strlit("}");
    assert("${"@ + name + "}"@ =~= seq!['$', '{'] + name + seq!['}']);
}

/// Looks `name` up in `env` as `std::env::var` would.
pub fn lookup_var(env: &EnvVars, name: &str) -> (r: Option<String>)
    ensures
        r matches Some(v) ==> env_lookup(env@, name@) == Some(v@),
        r is None ==> env_lookup(env@, name@) is None,
{
    let cs = chars_of(name);
    if cs.len() == 0 {
        return None;
    }
    let mut k: usize = 0;
    while k < cs.len()
        invariant
            k <= cs.len(),
            cs@ == name@,
            forall|i: int| 0 <= i < k ==> #[trigger] cs@[i] != '=' && cs@[i] != '\0',
        decreases cs.len() - k,
    {
        if cs[k] == '=' || cs[k] == '\0' {
            return None;
        }
        k = k + 1;
    }
    let mut i: usize = 0;
    assert(env@.skip(0) =~= env@);
    while i < env.len()
        invariant
            i <= env.len(),
            valid_var_name(name@),
            env_first(env@, name@) == env_first(env@.skip(i as int), name@),
        decreases env.len() - i,
    {
        assert(env@.skip(i as int).drop_first() =~= env@.skip(i + 1));
        if str_eq(env[i].0.as_str(), name) {
            return Some(env[i].1.clone());
        }
        i = i + 1;
    }
    None
}

proof fn lemma_subst_step_plain(s: Seq<char>, i: int, env: Seq<(String, String)>)
    requires
        0 <= i < s.len(),
        !(i + 1 < s.len() && s[i] == '$' && s[i + 1] == '{'),
    ensures
        substituted(s.skip(i), env) == seq![s[i]] + substituted(s.skip(i + 1), env),
{
    let t = s.skip(i);
    assert(t[0] == s[i]);
    assert(t.drop_first() =~= s.skip(i + 1));
    if t.len() >= 2 {
        assert(t[1] == s[i + 1]);
    }
}

proof fn lemma_subst_step_var(s: Seq<char>, i: int, j: int, env: Seq<(String, String)>)
    requires
        0 <= i,
        i + 1 < s.len(),
        s[i] == '$',
        s[i + 1] == '{',
        i + 2 <= j <= s.len(),
        forall|k: int| i + 2 <= k < j ==> s[k] != '}',
        j < s.len() ==> s[j] == '}',
    ensures
        ({
            let name = s.subrange(i + 2, j);
            let piece = match env_lookup(env, name) {
                Some(v) => v,
                None => "${"@ + name + "}"@,
            };
            let next = if j < s.len() {
                j + 1
            } else {
                s.len() as int
            };
            substituted(s.skip(i), env) == piece + substituted(s.skip(next), env)
        }),
{
    let t = s.skip(i);
    let rest = t.skip(2);
    assert(rest =~= s.skip(i + 2));
    assert forall|k: int| 0 <= k < j - (i + 2) implies rest[k] != '}' by {
        assert(rest[k] == s[i + 2 + k]);
    }
    if j < s.len() {
        assert(rest[j - (i + 2)] == s[j]);
    }
    lemma_brace_pos_is(rest, j - (i + 2));
    assert(rest.take(j - (i + 2)) =~= s.subrange(i + 2, j));
    if j < s.len() {
        assert(rest.skip(j - (i + 2) + 1) =~= s.skip(j + 1));
    } else {
        assert(s.skip(s.len() as int) =~= Seq::<char>::empty());
    }
}

/// Replaces `${NAME}` references by their values in `env`; unknown names
/// are kept as written.
pub fn substitute_env_vars(input: &str, env: &EnvVars) -> (out: String)
    ensures
        out@ == substituted(input@, env@),
{
    let s = chars_of(input);
    let n = s.len();
    let mut out = String::new();
    let mut i: usize = 0;
    proof {
        assert(s@.skip(0) =~= s@);
    }
    while i < n
        invariant
            n == s.len(),
            s@ == input@,
            i <= n,
            out@ + substituted(s@.skip(i as int), env@) == substituted(input@, env@),
        decreases n - i,
    {
        if i + 1 < n && s[i] == '$' && s[i + 1] == '{' {
            let mut j: usize = i + 2;
            while j < n && s[j] != '}'
                invariant
                    i + 2 <= j <= n,
                    n == s.len(),
                    forall|k: int| i + 2 <= k < j ==> s@[k] != '}',
                decreases n - j,
            {
                j = j + 1;
            }
            let mut name = String::new();
            let mut k: usize = i + 2;
            while k < j
                invariant
                    i + 2 <= k <= j <= n,
                    n == s.len(),
                    name@ == s@.subrange(i + 2, k as int),
                decreases j - k,
            {
                push_char(&mut name, s[k]);
                assert(s@.subrange(i + 2, k as int).push(s@[k as int]) =~= s@.subrange(
                    i + 2,
                    k + 1,
                ));
                k = k + 1;
            }
            proof {
                lemma_subst_step_var(s@, i as int, j as int, env@);
            }
            let ghost before = out@;
            match lookup_var(env, name.as_str()) {
                Some(v) => {
                    out.append(v.as_str());
                },
                None => {
                    out.append("${");
                    out.append(name.as_str());
                    out.append("}");
                },
            }
            proof {
                assert(out@ =~= before + match env_lookup(env@, name@) {
                    Some(v) => v,
                    None => "${"@ + name@ + "}"@,
                });
            }
            i = if j < n {
                j + 1
            } else {
                n
            };
        } else {
            proof {
                lemma_subst_step_plain(s@, i as int, env@);
            }
            let ghost before = out@;
            push_char(&mut out, s[i]);
            assert(out@ =~= before + seq![s@[i as int]]);
            i = i + 1;
        }
    }
    proof {
        assert(s@.skip(n as int) =~= Seq::<char>::empty());
    }
    out
}

} // verus!
