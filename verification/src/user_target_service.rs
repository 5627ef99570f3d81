//! Rules for the targets users define for themselves: what a create or
//! update must carry, who may change a target and when, and what a
//! target resolves to.
use vstd::prelude::*;

use crate::error::Error;
use crate::order::views;
use crate::session::{CreateUserTargetParams, UserId, UserTarget};
use crate::target::{substitute_env_vars, substituted, EnvVars};
use crate::text::{is_blank, owned, str_eq, str_is_blank};
use crate::virtual_target::{subst_all, subst_env, substitute_all, substitute_env};

verus! {

/// What a user supplies to create a target.
#[derive(Debug, Clone)]
pub struct CreateTargetParams {
    pub name: String,
    pub display: String,
    pub command: String,
    pub args: Vec<String>,
    /// Environment variables, as (name, value) pairs; a map, so no name
    /// occurs twice (`distinct_names`).
    pub env: Vec<(String, String)>,
    pub tags: Vec<String>,
}

/// What a user supplies to change a target; the name stays.
#[derive(Debug, Clone)]
pub struct UpdateTargetParams {
    pub display: String,
    pub command: String,
    pub args: Vec<String>,
    /// A map of variables: no name occurs twice (`distinct_names`).
    pub env: Vec<(String, String)>,
    pub tags: Vec<String>,
}

/// `InvalidInput` with exactly the message `m`.
pub open spec fn invalid_with(e: Error, m: Seq<char>) -> bool {
    e matches Error::InvalidInput(x) && x@ == m
}

/// The first missing field of a create, if any: name, then display,
/// then command must each hold more than white space.
pub open spec fn create_problem(p: CreateTargetParams) -> Option<Seq<char>> {
    if is_blank(p.name@) {
        Some("name is required"@)
    } else if is_blank(p.display@) {
        Some("display is required"@)
    } else if is_blank(p.command@) {
        Some("command is required"@)
    } else {
        None
    }
}

/// The first missing field of an update, if any.
pub open spec fn update_problem(p: UpdateTargetParams) -> Option<Seq<char>> {
    if is_blank(p.display@) {
        Some("display is required"@)
    } else if is_blank(p.command@) {
        Some("command is required"@)
    } else {
        None
    }
}

/// Checks a create request.
pub fn validate_create(p: &CreateTargetParams) -> (r: Result<(), Error>)
    ensures
        match create_problem(*p) {
            None => r is Ok,
            Some(m) => r matches Err(e) && invalid_with(e, m),
        },
{
    if str_is_blank(p.name.as_str()) {
        return Err(Error::InvalidInput(owned("name is required")));
    }
    if str_is_blank(p.display.as_str()) {
        return Err(Error::InvalidInput(owned("display is required")));
    }
    if str_is_blank(p.command.as_str()) {
        return Err(Error::InvalidInput(owned("command is required")));
    }
    Ok(())
}

/// Checks an update request.
pub fn validate_update(p: &UpdateTargetParams) -> (r: Result<(), Error>)
    ensures
        match update_problem(*p) {
            None => r is Ok,
            Some(m) => r matches Err(e) && invalid_with(e, m),
        },
{
    if str_is_blank(p.display.as_str()) {
        return Err(Error::InvalidInput(owned("display is required")));
    }
    if str_is_blank(p.command.as_str()) {
        return Err(Error::InvalidInput(owned("command is required")));
    }
    Ok(())
}

/// The storage request for a valid create: the user's fields, unchanged,
/// under the creating user.
pub fn create_request(user_id: UserId, p: CreateTargetParams) -> (r: Result<CreateUserTargetParams, Error>)
    ensures
        match create_problem(p) {
            None => r matches Ok(q) && {
                &&& q.user_id == user_id
                &&& q.name == p.name
                &&& q.display == p.display
                &&& q.command == p.command
                &&& q.args == p.args
                &&& q.env == p.env
                &&& q.tags == p.tags
            },
            Some(m) => r matches Err(e) && invalid_with(e, m),
        },
{
    match validate_create(&p) {
        Err(e) => Err(e),
        Ok(()) => Ok(CreateUserTargetParams {
            user_id,
            name: p.name,
            display: p.display,
            command: p.command,
            args: p.args,
            env: p.env,
            tags: p.tags,
        }),
    }
}

/// A target may be changed or deleted only by its owner and only while
/// no active session runs it. `row` is the target with id `id`, if any;
/// `in_use` tells whether an active session references it.
pub fn check_mutation(id: &str, row: &Option<UserTarget>, caller: UserId, in_use: bool) -> (r: Result<(), Error>)
    ensures
        r is Ok <==> (row matches Some(t) && t.id@ == id@ && t.user_id == caller && !in_use),
        r matches Err(e) ==> if row matches Some(t) && t.id@ == id@ && t.user_id == caller {
            e matches Error::Conflict(m) && m@ == "target "@ + id@
                + " is in use by an active session; close the session first"@
        } else {
            e matches Error::PermissionDenied(m) && m@ == "target "@ + id@
                + " not found or not owned by caller"@
        },
{
    let owned_by_caller = match row {
        Some(t) => str_eq(t.id.as_str(), id) && t.user_id == caller,
        None => false,
    };
    if !owned_by_caller {
        let mut m = owned("target ");
        m.append(id);
        m.append(" not found or not owned by caller");
        return Err(Error::PermissionDenied(m));
    }
    if in_use {
        let mut m = owned("target ");
        m.append(id);
        m.append(" is in use by an active session; close the session first");
        return Err(Error::Conflict(m));
    }
    Ok(())
}

/// The error for a second target of the same name.
pub fn name_taken(name: &str) -> (e: Error)
    ensures
        e matches Error::Conflict(m) && m@ == "target name '"@ + name@ + "' already exists"@,
{
    let mut m = owned("target name '");
    m.append(name);
    m.append("' already exists");
    Error::Conflict(m)
}

/// The command line a user target resolves to, with `$VAR` references
/// substituted from `env`.
pub open spec fn user_target_resolution(t: UserTarget, env: Seq<(String, String)>) -> (Seq<char>, Seq<Seq<char>>, Seq<(Seq<char>, Seq<char>)>) {
    (substituted(t.command@, env), subst_all(t.args@, env), subst_env(t.env@, env))
}

/// Resolves a user target found by id (`None` when there is none), as a
/// global target resolves.
pub fn resolve_by_id(target: &Option<UserTarget>, env: &EnvVars) -> (r: Option<(String, Vec<String>, Vec<(String, String)>)>)
    ensures
        target is None <==> r is None,
        r matches Some(x) ==> (x.0@, views(x.1@), x.2@.map_values(|p: (String, String)| (p.0@, p.1@)))
            == user_target_resolution(target->0, env@),
{
    match target {
        None => None,
        Some(t) => {
            let cmd = substitute_env_vars(t.command.as_str(), env);
            let args = substitute_all(&t.args, env);
            let e = substitute_env(&t.env, env);
            Some((cmd, args, e))
        },
    }
}

} // verus!
