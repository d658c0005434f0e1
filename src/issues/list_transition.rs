use crate::request::{api_url, api_url_of, bool_text, ApiRequest, Method, Params, Payload};
use crate::util::Cli;
use vstd::prelude::*;
use vstd::string::*;

verus! {

/// The issue whose transitions to list, and whether to include those not
/// currently possible.
#[derive(Debug, Clone)]
pub struct ListIssueTransitionsArgs {
    pub name: String,
    pub include_unavailable: bool,
}

/// The address of an issue's transitions.
pub open spec fn transitions_url_spec(base: Seq<char>, issue: Seq<char>) -> Seq<char> {
    api_url(base, "issue/"@ + issue + "/transitions"@)
}

/// The call that lists an issue's transitions.
pub fn list_transitions_request(ctx: &Cli, args: &ListIssueTransitionsArgs) -> (r: ApiRequest)
    ensures
        r.method == Method::Get,
        r.url@ == transitions_url_spec(ctx.base_jira_url@, args.name@),
        r.payload is Query,
        r.payload->Query_0@ == seq![("includeUnavailable"@, bool_text(args.include_unavailable))],
{
    let url = api_url_of(ctx, "issue/", args.name.as_str(), "/transitions");
    let mut params = Params::new();
    let flag = if args.include_unavailable {
        String::from_str("true")
    } else {
        String::from_str("false")
    };
    params.push("includeUnavailable", flag);
    assert(params@ =~= seq![("includeUnavailable"@, bool_text(args.include_unavailable))]);
    ApiRequest { method: Method::Get, url, payload: Payload::Query(params) }
}

} // verus!
