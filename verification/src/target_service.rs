//! Read access to the target registry for the service layer.
use vstd::prelude::*;

use crate::target::{Target, EnvVars};
use crate::virtual_target::{TargetEngine, find_answer, resolve_answer, lemma_resolve_answer_unique, resolved_view};

verus! {

pub struct TargetService {
    engine: TargetEngine,
}

impl TargetService {
    /// The targets of the registry the service serves.
    pub closed spec fn targets_view(&self) -> Seq<Target> {
        self.engine.targets_view()
    }

    pub fn new(engine: TargetEngine) -> (s: Self)
        ensures
            s.targets_view() == engine.targets_view(),
    {
        TargetService { engine }
    }

    pub fn list_targets(&self) -> (r: &[Target])
        ensures
            r@ == self.targets_view(),
    {
        self.engine.list_targets()
    }

    /// The first target called `name`.
    pub fn find(&self, name: &str) -> (r: Option<&Target>)
        ensures
            find_answer(self.targets_view(), name@, r),
    {
        self.engine.find(name)
    }

    /// The command line of the target called `name`, with `${NAME}`
    /// references substituted from `env`.
    pub fn resolve(&self, name: &str, env: &EnvVars) -> (r: Option<(String, Vec<String>, Vec<(String, String)>)>)
        ensures
            resolve_answer(self.targets_view(), name@, env@, r),
    {
        self.engine.resolve(name, env)
    }
}

/// A service answers as the engine it was made from: the same targets,
/// the same lookups, and resolutions that agree with the engine's.
pub proof fn lemma_service_answers_as_engine(
    svc: TargetService,
    engine: TargetEngine,
    name: Seq<char>,
    env: Seq<(String, String)>,
    r1: Option<(String, Vec<String>, Vec<(String, String)>)>,
    r2: Option<(String, Vec<String>, Vec<(String, String)>)>,
)
    requires
        svc.targets_view() == engine.targets_view(),
        resolve_answer(svc.targets_view(), name, env, r1),
        resolve_answer(engine.targets_view(), name, env, r2),
    ensures
        r1 is None <==> r2 is None,
        r1 is Some ==> resolved_view(r1->0) == resolved_view(r2->0),
        forall|r: Option<&Target>| find_answer(svc.targets_view(), name, r) <==> find_answer(engine.targets_view(), name, r),
{
    lemma_resolve_answer_unique(engine.targets_view(), name, env, r1, r2);
}

} // verus!
