use crate::issues::{Issue, IssueRelease};
use crate::pagination::{PageCursor, Pager};
use crate::request::{api_url, api_url_of, copy_texts, texts, ApiRequest, Method, Payload};
use crate::util::Cli;
use vstd::prelude::*;
use vstd::string::*;

verus! {

/// A JQL search, one page at a time from `page_start_idx`.
#[derive(Debug, Clone)]
pub struct SearchIssuesArgs {
    pub jql: String,
    pub unpaginate: bool,
    pub page_size: u64,
    pub page_start_idx: u64,
}

/// The body of a search call.
#[derive(Debug, Clone)]
pub struct SearchIssuesRequest {
    pub jql: String,
    pub start_at: u64,
    pub max_results: u64,
    pub fields: Vec<String>,
}

impl SearchIssuesRequest {
    pub fn set_start_idx(&mut self, new: u64)
        ensures
            *final(self) == (SearchIssuesRequest { start_at: new, ..*old(self) }),
    {
        self.start_at = new;
    }
}

/// The fields a search asks for.
pub open spec fn search_fields_spec() -> Seq<Seq<char>> {
    seq!["summary"@, "status"@, "fixVersions"@]
}

/// The body of the first page of a search.
pub fn search_body(args: &SearchIssuesArgs) -> (r: SearchIssuesRequest)
    ensures
        r.jql == args.jql,
        r.start_at == args.page_start_idx,
        r.max_results == args.page_size,
        texts(r.fields@) == search_fields_spec(),
{
    let mut fields: Vec<String> = Vec::new();
    fields.push(String::from_str("summary"));
    fields.push(String::from_str("status"));
    fields.push(String::from_str("fixVersions"));
    assert(texts(fields@) =~= search_fields_spec());
    SearchIssuesRequest { jql: args.jql.clone(), start_at: args.page_start_idx, max_results: args.page_size, fields }
}

/// The pager of a search: from `page_start_idx`, every page when
/// `unpaginate` is set, else the first only.
pub fn issue_pager(args: &SearchIssuesArgs) -> (r: Pager<Issue>)
    requires
        args.page_size > 0,
    ensures
        r.cursor == PageCursor::fresh(args.page_start_idx, args.page_size, args.unpaginate),
        r.items@.len() == 0,
        r.wf(),
{
    Pager::new(args.page_start_idx, args.page_size, args.unpaginate)
}

/// The search call for the page at `offset`: `body` with only its offset
/// rewritten.
pub fn search_request(ctx: &Cli, body: &SearchIssuesRequest, offset: u64) -> (r: ApiRequest)
    ensures
        r.method == Method::Post,
        r.url@ == api_url(ctx.base_jira_url@, "search"@),
        r.payload is Search,
        r.payload->Search_0.jql == body.jql,
        r.payload->Search_0.start_at == offset,
        r.payload->Search_0.max_results == body.max_results,
        r.payload->Search_0.fields@ == body.fields@,
{
    let url = api_url_of(ctx, "search", "", "");
    proof {
        reveal_strlit("");
        assert("search"@ + ""@ + ""@ =~= "search"@);
    }
    let mut page = SearchIssuesRequest {
        jql: body.jql.clone(),
        start_at: body.start_at,
        max_results: body.max_results,
        fields: copy_texts(&body.fields),
    };
    page.set_start_idx(offset);
    ApiRequest { method: Method::Post, url, payload: Payload::Search(page) }
}

/// An issue flattened into one row of text columns.
#[derive(Debug, Clone)]
pub struct CsvCompatibleIssue {
    pub key: String,
    pub id: String,
    pub summary: String,
    pub status: String,
    pub fix_versions: String,
}

/// The names joined with `|` between them.
pub open spec fn joined(names: Seq<Seq<char>>) -> Seq<char>
    decreases names.len(),
{
    if names.len() == 0 {
        seq![]
    } else if names.len() == 1 {
        names[0]
    } else {
        joined(names.drop_last()) + "|"@ + names.last()
    }
}

/// The names of the releases an issue is fixed in.
pub open spec fn release_names(v: Seq<IssueRelease>) -> Seq<Seq<char>> {
    v.map_values(|r: IssueRelease| r.name@)
}

impl CsvCompatibleIssue {
    /// The row of an issue: its key, id, summary, status name, and the names
    /// of its fix versions joined with `|`.
    pub fn from_issue(issue: &Issue) -> (r: CsvCompatibleIssue)
        ensures
            r.key == issue.key,
            r.id == issue.id,
            r.summary == issue.fields.summary,
            r.status == issue.fields.status.name,
            r.fix_versions@ == joined(release_names(issue.fields.fix_versions@)),
    {
        let versions = &issue.fields.fix_versions;
        let ghost names = release_names(versions@);
        let mut out = String::new();
        let mut i: usize = 0;
        while i < versions.len()
            invariant
                0 <= i <= versions@.len(),
                names == release_names(versions@),
                out@ == joined(names.take(i as int)),
            decreases versions@.len() - i,
        {
            assert(names.take(i + 1).drop_last() =~= names.take(i as int));
            assert(names.take(i + 1).last() == versions@[i as int].name@);
            if i > 0 {
                out.append("|");
            } else {
                assert(out@ =~= Seq::<char>::empty());
            }
            out.append(versions[i].name.as_str());
            assert(out@ =~= joined(names.take(i + 1)));
            i = i + 1;
        }
        assert(names.take(versions@.len() as int) =~= names);
        CsvCompatibleIssue {
            key: issue.key.clone(),
            id: issue.id.clone(),
            summary: issue.fields.summary.clone(),
            status: issue.fields.status.name.clone(),
            fix_versions: out,
        }
    }
}

} // verus!
