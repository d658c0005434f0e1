use crate::error::AppError;
use crate::issues::list_transition::{transitions_url_spec, ListIssueTransitionsArgs};
use crate::issues::Transition;
use crate::request::{api_url_of, ApiRequest, Method, Payload};
use crate::util::Cli;
use vstd::prelude::*;

verus! {

/// The transition to apply to an issue, by name or by id.
#[derive(Debug, Clone)]
pub struct TransitionIssueArgs {
    pub name: String,
    pub transition: String,
    pub use_transition_id: bool,
}

/// The body of a transition call: `{"transition": {"id": ...}}`.
#[derive(Debug, Clone)]
pub struct TransitionIssueRequest {
    pub transition: ReqTransition,
}

#[derive(Debug, Clone)]
pub struct ReqTransition {
    pub id: String,
}

/// The ids of the transitions named `name`, in order.
pub open spec fn matching_ids(ts: Seq<Transition>, name: Seq<char>) -> Seq<Seq<char>>
    decreases ts.len(),
{
    if ts.len() == 0 {
        seq![]
    } else if ts.last().name@ == name {
        matching_ids(ts.drop_last(), name).push(ts.last().id@)
    } else {
        matching_ids(ts.drop_last(), name)
    }
}

/// The listing that finds a transition by name: the issue's possible
/// transitions only.
pub fn transition_lookup_args(args: &TransitionIssueArgs) -> (r: ListIssueTransitionsArgs)
    ensures
        r.name == args.name,
        !r.include_unavailable,
{
    ListIssueTransitionsArgs { name: args.name.clone(), include_unavailable: false }
}

/// Picks the id of the transition named `name`: it must be listed exactly
/// once.
pub fn get_transition_id(listed: &Vec<Transition>, name: &String) -> (r: Result<String, AppError>)
    ensures
        matching_ids(listed@, name@).len() == 1 ==> r is Ok && r->Ok_0@ == matching_ids(listed@, name@)[0],
        matching_ids(listed@, name@).len() != 1 ==> r == Err::<String, AppError>(AppError::UnknownTransition),
{
    let mut found: Vec<String> = Vec::new();
    let mut i: usize = 0;
    while i < listed.len()
        invariant
            0 <= i <= listed@.len(),
            found@.map_values(|s: String| s@) == matching_ids(listed@.take(i as int), name@),
        decreases listed@.len() - i,
    {
        assert(listed@.take(i + 1).drop_last() =~= listed@.take(i as int));
        assert(listed@.take(i + 1).last() == listed@[i as int]);
        if listed[i].name == *name {
            found.push(listed[i].id.clone());
        }
        assert(found@.map_values(|s: String| s@) =~= matching_ids(listed@.take(i + 1), name@));
        i = i + 1;
    }
    assert(listed@.take(listed@.len() as int) =~= listed@);
    if found.len() != 1 {
        Err(AppError::UnknownTransition)
    } else {
        assert(found@.map_values(|s: String| s@)[0] == found@[0]@);
        Ok(found[0].clone())
    }
}

/// The transition to apply: the given id, or the one picked by name from the
/// issue's listed transitions.
pub fn chosen_transition_id(args: &TransitionIssueArgs, listed: &Vec<Transition>) -> (r: Result<String, AppError>)
    ensures
        args.use_transition_id ==> r == Ok::<String, AppError>(args.transition),
        !args.use_transition_id && matching_ids(listed@, args.transition@).len() == 1 ==> r is Ok
            && r->Ok_0@ == matching_ids(listed@, args.transition@)[0],
        !args.use_transition_id && matching_ids(listed@, args.transition@).len() != 1 ==> r
            == Err::<String, AppError>(AppError::UnknownTransition),
{
    if args.use_transition_id {
        Ok(args.transition.clone())
    } else {
        get_transition_id(listed, &args.transition)
    }
}

/// The call that applies transition `transition_id` to `issue`.
pub fn transition_request(ctx: &Cli, transition_id: String, issue: String) -> (r: ApiRequest)
    ensures
        r.method == Method::Post,
        r.url@ == transitions_url_spec(ctx.base_jira_url@, issue@),
        r.payload is Transition,
        r.payload->Transition_0.transition.id == transition_id,
{
    let url = api_url_of(ctx, "issue/", issue.as_str(), "/transitions");
    let body = TransitionIssueRequest { transition: ReqTransition { id: transition_id } };
    ApiRequest { method: Method::Post, url, payload: Payload::Transition(body) }
}

} // verus!
