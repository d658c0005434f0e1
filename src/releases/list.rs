use crate::error::AppError;
use crate::pagination::{page_count, lemma_page_count_is_ceiling, PageCursor, Pager};
use crate::releases::Release;
use crate::request::{api_url, api_url_of, keys_unique, optional_entry, opt_text, ApiRequest, Method, Params, Payload};
use crate::util::{decimal, decimal_string, Cli};
use vstd::prelude::*;

verus! {

/// What to list: a project's releases, optionally filtered by a substring of
/// their name or description, one page or all of them.
#[derive(Debug, Clone)]
pub struct ListReleasesArgs {
    pub project: String,
    pub filter: Option<String>,
    pub unpaginate: bool,
    pub page_size: i64,
    pub page_start_idx: i64,
}

impl ListReleasesArgs {
    pub fn update_start_idx(&mut self, new: i64)
        ensures
            *final(self) == (ListReleasesArgs { page_start_idx: new, ..*old(self) }),
    {
        self.page_start_idx = new;
    }
}

/// The query string of a page of releases.
pub open spec fn list_query_spec(start: int, size: int, filter: Option<Seq<char>>) -> Seq<(Seq<char>, Seq<char>)> {
    seq![("startAt"@, decimal(start)), ("maxResults"@, decimal(size))] + optional_entry("query"@, filter)
}

/// The address of a project's releases.
pub open spec fn list_url_spec(base: Seq<char>, project: Seq<char>) -> Seq<char> {
    api_url(base, "project/"@ + project + "/version"@)
}

fn list_query(start: i128, size: i64, filter: &Option<String>) -> (r: Params)
    ensures
        r@ == list_query_spec(start as int, size as int, opt_text(*filter)),
        keys_unique(r@),
{
    proof {
        reveal_strlit("startAt");
        assert("startAt"@.len() == 7 && "startAt"@[0] == 's');
        reveal_strlit("maxResults");
        assert("maxResults"@.len() == 10 && "maxResults"@[0] == 'm');
        reveal_strlit("query");
        assert("query"@.len() == 5 && "query"@[0] == 'q');
    }
    let mut params = Params::new();
    params.push("startAt", decimal_string(start));
    params.push("maxResults", decimal_string(size as i128));
    params.push_optional("query", filter);
    assert(params@ =~= list_query_spec(start as int, size as int, opt_text(*filter)));
    params
}

pub fn args_to_query_params(args: ListReleasesArgs) -> (r: Params)
    ensures
        r@ == list_query_spec(args.page_start_idx as int, args.page_size as int, opt_text(args.filter)),
{
    list_query(args.page_start_idx as i128, args.page_size, &args.filter)
}

/// The address and query string of the page that `args` describes.
pub fn assemble_query(ctx: &Cli, args: &ListReleasesArgs) -> (r: (String, Params))
    ensures
        r.0@ == list_url_spec(ctx.base_jira_url@, args.project@),
        r.1@ == list_query_spec(args.page_start_idx as int, args.page_size as int, opt_text(args.filter)),
{
    let url = api_url_of(ctx, "project/", args.project.as_str(), "/version");
    (url, list_query(args.page_start_idx as i128, args.page_size, &args.filter))
}

/// The query strings of every page of a walk over `total_results` releases:
/// one per page, at offsets `page_start_idx + k * page_size`.
pub fn page_loop(total_results: i64, args: &ListReleasesArgs) -> (r: Vec<Params>)
    requires
        args.page_size > 0,
        total_results >= 0,
    ensures
        r@.len() == page_count(total_results as nat, args.page_size as nat),
        forall|k: int|
            0 <= k < r@.len() ==> (#[trigger] r@[k])@ == list_query_spec(
                args.page_start_idx + k * args.page_size,
                args.page_size as int,
                opt_text(args.filter),
            ),
{
    proof {
        lemma_page_count_is_ceiling(total_results as nat, args.page_size as nat);
    }
    let remainder = total_results % args.page_size;
    let mut pages = total_results / args.page_size;
    if remainder > 0 {
        pages = pages + 1;
    }
    assert(pages == page_count(total_results as nat, args.page_size as nat));
    let mut requests: Vec<Params> = Vec::new();
    let mut idx: i64 = 0;
    let mut startidx: i128 = args.page_start_idx as i128;
    while idx < pages
        invariant
            0 <= idx <= pages,
            pages == page_count(total_results as nat, args.page_size as nat),
            pages <= total_results,
            args.page_size > 0,
            startidx == args.page_start_idx + idx * args.page_size,
            requests@.len() == idx,
            forall|k: int|
                0 <= k < idx ==> (#[trigger] requests@[k])@ == list_query_spec(
                    args.page_start_idx + k * args.page_size,
                    args.page_size as int,
                    opt_text(args.filter),
                ),
        decreases pages - idx,
    {
        requests.push(list_query(startidx, args.page_size, &args.filter));
        assert(idx * args.page_size <= i64::MAX * i64::MAX) by (nonlinear_arith)
            requires
                0 <= idx <= i64::MAX,
                0 < args.page_size <= i64::MAX,
        ;
        assert((idx + 1) * args.page_size == idx * args.page_size + args.page_size) by (nonlinear_arith);
        startidx = startidx + args.page_size as i128;
        idx = idx + 1;
    }
    requests
}

/// The pager of a listing: from `page_start_idx`, `page_size` at a time, all
/// pages when `unpaginate` is set.
pub fn release_pager(args: &ListReleasesArgs) -> (r: Pager<Release>)
    requires
        args.page_size > 0,
        args.page_start_idx >= 0,
    ensures
        r.cursor == PageCursor::fresh(args.page_start_idx as u64, args.page_size as u64, args.unpaginate),
        r.items@.len() == 0,
        r.wf(),
{
    Pager::new(args.page_start_idx as u64, args.page_size as u64, args.unpaginate)
}

/// The request for the page of a listing at `offset`: the listing's own
/// request with only its offset rewritten.
pub fn list_releases_request(ctx: &Cli, args: &ListReleasesArgs, offset: u64) -> (r: ApiRequest)
    ensures
        r.method == Method::Get,
        r.url@ == list_url_spec(ctx.base_jira_url@, args.project@),
        r.payload is Query,
        r.payload->Query_0@ == list_query_spec(offset as int, args.page_size as int, opt_text(args.filter)),
{
    let url = api_url_of(ctx, "project/", args.project.as_str(), "/version");
    ApiRequest { method: Method::Get, url, payload: Payload::Query(list_query(offset as i128, args.page_size, &args.filter)) }
}

/// The listing that resolves a release name: every page of the project's
/// releases that match `name`, 100 at a time.
pub fn release_lookup_args(project: String, name: String) -> (r: ListReleasesArgs)
    ensures
        r.project == project,
        r.filter == Some(name),
        r.unpaginate,
        r.page_size == 100,
        r.page_start_idx == 0,
{
    ListReleasesArgs { project, filter: Some(name), unpaginate: true, page_size: 100, page_start_idx: 0 }
}

/// Resolves a name from the releases that matched it: exactly one match gives
/// its id; none or several are the same error.
pub fn single_release_id(matches: &Vec<Release>) -> (r: Result<String, AppError>)
    ensures
        matches@.len() == 1 ==> r == Ok::<String, AppError>(matches@[0].id),
        matches@.len() != 1 ==> r == Err::<String, AppError>(AppError::MatchedMultipleReleases),
{
    if matches.len() != 1 {
        Err(AppError::MatchedMultipleReleases)
    } else {
        Ok(matches[0].id.clone())
    }
}

} // verus!
