use crate::error::AppError;
use crate::releases::Release;
use crate::request::{api_url, api_url_of, keys_unique, optional_entry, opt_text, ApiRequest, Method, Params, Payload};
use crate::util::Cli;
use vstd::prelude::*;

verus! {

/// A release to create in a project.
#[derive(Debug, Clone)]
pub struct CreateReleaseArgs {
    pub project: String,
    pub name: String,
    pub description: Option<String>,
    pub start_date: Option<String>,
    pub release_date: Option<String>,
}

/// The body that creates a release.
pub open spec fn create_body_spec(args: CreateReleaseArgs) -> Seq<(Seq<char>, Seq<char>)> {
    seq![("name"@, args.name@), ("project"@, args.project@)]
        + optional_entry("description"@, opt_text(args.description))
        + optional_entry("startDate"@, opt_text(args.start_date))
        + optional_entry("releaseDate"@, opt_text(args.release_date))
}

pub fn assemble_create_args(args: CreateReleaseArgs) -> (r: Params)
    ensures
        r@ == create_body_spec(args),
        keys_unique(r@),
{
    proof {
        reveal_strlit("name");
        assert("name"@.len() == 4 && "name"@[0] == 'n');
        reveal_strlit("project");
        assert("project"@.len() == 7 && "project"@[0] == 'p');
        reveal_strlit("description");
        assert("description"@.len() == 11 && "description"@[0] == 'd');
        reveal_strlit("startDate");
        assert("startDate"@.len() == 9 && "startDate"@[0] == 's');
        reveal_strlit("releaseDate");
        assert("releaseDate"@.len() == 11 && "releaseDate"@[0] == 'r');
    }
    let ghost a = args;
    let mut params = Params::new();
    params.push("name", args.name);
    params.push("project", args.project);
    params.push_optional("description", &args.description);
    params.push_optional("startDate", &args.start_date);
    params.push_optional("releaseDate", &args.release_date);
    assert(params@ =~= create_body_spec(a));
    params
}

/// The call that creates a release.
pub fn create_release_request(ctx: &Cli, args: CreateReleaseArgs) -> (r: ApiRequest)
    ensures
        r.method == Method::Post,
        r.url@ == api_url(ctx.base_jira_url@, "version"@),
        r.payload is Fields,
        r.payload->Fields_0@ == create_body_spec(args),
{
    let url = api_url_of(ctx, "version", "", "");
    proof {
        reveal_strlit("");
        assert("version"@ + ""@ + ""@ =~= "version"@);
    }
    ApiRequest { method: Method::Post, url, payload: Payload::Fields(assemble_create_args(args)) }
}

/// The outcome of a creation call: any failure of the call becomes
/// `CouldNotCreateRelease`; a successful call passes through.
pub fn create_release_outcome(result: Result<Option<Release>, AppError>) -> (r: Result<Option<Release>, AppError>)
    ensures
        result is Err ==> r == Err::<Option<Release>, AppError>(AppError::CouldNotCreateRelease),
        result is Ok ==> r == result,
{
    match result {
        Ok(created) => Ok(created),
        Err(_) => Err(AppError::CouldNotCreateRelease),
    }
}

} // verus!
