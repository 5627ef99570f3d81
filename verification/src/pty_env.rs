//! The environment a terminal process starts with. The server's own
//! environment is not inherited: only a few harmless variables are
//! copied, `TERM` is set, and the target's own variables come last.
use vstd::prelude::*;
use vstd::string::*;

use crate::error::Error;
use crate::target::{env_lookup, lookup_var, EnvVars};
use crate::text::owned;

verus! {

/// The variables copied from the server's environment, in order.
pub open spec fn safe_var_names() -> Seq<Seq<char>> {
    seq!["HOME"@, "PATH"@, "USER"@, "SHELL"@, "LANG"@, "LC_ALL"@]
}

/// The copied variables that the server's environment `env` has, as
/// (name, value), in the order of `names`.
pub open spec fn copied_vars(names: Seq<Seq<char>>, env: Seq<(String, String)>) -> Seq<(Seq<char>, Seq<char>)>
    decreases names.len(),
{
    if names.len() == 0 {
        Seq::empty()
    } else {
        let rest = copied_vars(names.drop_last(), env);
        match env_lookup(env, names.last()) {
            Some(v) => rest.push((names.last(), v)),
            None => rest,
        }
    }
}

pub open spec fn pairs_view(v: Seq<(String, String)>) -> Seq<(Seq<char>, Seq<char>)> {
    v.map_values(|p: (String, String)| (p.0@, p.1@))
}

/// The assignments made, in order, when a terminal process starts: the
/// copied variables, then `TERM`, then the target's variables (a later
/// assignment of a name wins).
pub open spec fn pty_assignments(env: Seq<(String, String)>, overrides: Seq<(String, String)>) -> Seq<(Seq<char>, Seq<char>)> {
    copied_vars(safe_var_names(), env) + seq![("TERM"@, "xterm-256color"@)] + pairs_view(overrides)
}

fn copy_var(out: &mut Vec<(String, String)>, env: &EnvVars, name: &str)
    ensures
        pairs_view(final(out)@) == match env_lookup(env@, name@) {
            Some(v) => pairs_view(old(out)@).push((name@, v)),
            None => pairs_view(old(out)@),
        },
{
    match lookup_var(env, name) {
        Some(v) => {
            out.push((owned(name), v));
            assert(pairs_view(out@) =~= pairs_view(old(out)@).push((name@, env_lookup(env@, name@)->0)));
        },
        None => {},
    }
}

fn safe_name(i: usize) -> (s: &'static str)
    requires
        i < 6,
    ensures
        s@ == safe_var_names()[i as int],
{
    if i == 0 {
        "HOME"
    } else if i == 1 {
        "PATH"
    } else if i == 2 {
        "USER"
    } else if i == 3 {
        "SHELL"
    } else if i == 4 {
        "LANG"
    } else {
        "LC_ALL"
    }
}

/// The environment assignments of a terminal process, given the server's
/// environment and the target's variables.
pub fn pty_environment(env: &EnvVars, overrides: &Vec<(String, String)>) -> (r: Vec<(String, String)>)
    ensures
        pairs_view(r@) == pty_assignments(env@, overrides@),
{
    let mut out: Vec<(String, String)> = Vec::new();
    let ghost n = safe_var_names();
    let mut i: usize = 0;
    while i < 6
        invariant
            i <= 6,
            n == safe_var_names(),
            pairs_view(out@) == copied_vars(n.take(i as int), env@),
        decreases 6 - i,
    {
        let name = safe_name(i);
        proof {
            assert(n.take(i + 1).drop_last() =~= n.take(i as int));
            assert(n.take(i + 1).last() == n[i as int]);
        }
        copy_var(&mut out, env, name);
        i = i + 1;
    }
    assert(n.take(6) =~= n);
    out.push((owned("TERM"), owned("xterm-256color")));
    assert(pairs_view(out@) =~= copied_vars(n, env@) + seq![("TERM"@, "xterm-256color"@)] + pairs_view(
        overrides@.take(0),
    ));
    let mut i: usize = 0;
    while i < overrides.len()
        invariant
            i <= overrides@.len(),
            n == safe_var_names(),
            pairs_view(out@) == copied_vars(n, env@) + seq![("TERM"@, "xterm-256color"@)]
                + pairs_view(overrides@.take(i as int)),
        decreases overrides@.len() - i,
    {
        let k = overrides[i].0.clone();
        let v = overrides[i].1.clone();
        let ghost before = out@;
        out.push((k, v));
        proof {
            assert(pairs_view(overrides@.take(i + 1)) =~= pairs_view(overrides@.take(i as int)).push(
                (overrides@[i as int].0@, overrides@[i as int].1@),
            ));
            assert(pairs_view(out@) =~= pairs_view(before).push((k@, v@)));
        }
        i = i + 1;
    }
    assert(overrides@.take(overrides@.len() as int) =~= overrides@);
    out
}

proof fn lemma_copied_names(names: Seq<Seq<char>>, env: Seq<(String, String)>, k: int)
    requires
        0 <= k < copied_vars(names, env).len(),
    ensures
        names.contains(copied_vars(names, env)[k].0),
    decreases names.len(),
{
    let rest = copied_vars(names.drop_last(), env);
    if k < rest.len() {
        lemma_copied_names(names.drop_last(), env, k);
        let x = rest[k].0;
        let j = choose|j: int| 0 <= j < names.drop_last().len() && names.drop_last()[j] == x;
        assert(names[j] == x);
    } else {
        assert(names[names.len() - 1] == names.last());
    }
}

/// Nothing of the server's environment leaks into a terminal beyond the
/// copied variables: every name assigned is a copied one, `TERM`, or one
/// of the target's own.
pub proof fn lemma_no_inherited_secrets(env: Seq<(String, String)>, overrides: Seq<(String, String)>, k: int)
    requires
        0 <= k < pty_assignments(env, overrides).len(),
    ensures
        ({
            let name = pty_assignments(env, overrides)[k].0;
            ||| safe_var_names().contains(name)
            ||| name == "TERM"@
            ||| exists|j: int| 0 <= j < overrides.len() && (#[trigger] overrides[j]).0@ == name
        }),
{
    let c = copied_vars(safe_var_names(), env);
    if k < c.len() {
        lemma_copied_names(safe_var_names(), env, k);
    } else if k > c.len() {
        let j = k - c.len() - 1;
        assert(pty_assignments(env, overrides)[k] == pairs_view(overrides)[j]);
        assert(pairs_view(overrides)[j].0 == overrides[j].0@);
    }
}

/// The largest number of names a guest can be tried under.
pub const GUEST_NAME_MAX_ATTEMPTS: usize = 5;

/// After the `attempt`-th try (counting from 1) at creating a guest under
/// a random name failed with `failure`: tries again (`Ok`) only when the
/// name was taken and tries are left; otherwise gives up with the error.
pub fn guest_retry(attempt: usize, failure: Error, name_taken: bool) -> (r: Result<(), Error>)
    ensures
        r is Ok <==> name_taken && attempt < GUEST_NAME_MAX_ATTEMPTS,
        r matches Err(e) ==> e == failure,
{
    if name_taken && attempt < GUEST_NAME_MAX_ATTEMPTS {
        Ok(())
    } else {
        Err(failure)
    }
}

} // verus!
