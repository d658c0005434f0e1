use crate::request::{api_url, api_url_of, opt_text, ApiRequest, Method, Payload};
use crate::util::Cli;
use vstd::prelude::*;
use vstd::string::*;

verus! {

/// Versions to add to an issue, given by name or by id.
#[derive(Debug, Clone)]
pub struct UpdateIssueArgs {
    pub name: String,
    pub fix_version: Option<String>,
    pub related_version: Option<String>,
    pub use_version_id: bool,
}

/// One addition to a version field: `{field: [{"add": {key: value}}]}`.
#[derive(Debug, Clone)]
pub struct VersionChange {
    pub field: String,
    pub key: String,
    pub value: String,
}

/// The body of an issue update.
#[derive(Debug, Clone)]
pub struct UpdateIssueRequest {
    pub update: Vec<VersionChange>,
}

impl View for UpdateIssueRequest {
    type V = Seq<(Seq<char>, Seq<char>, Seq<char>)>;

    open spec fn view(&self) -> Seq<(Seq<char>, Seq<char>, Seq<char>)> {
        self.update@.map_values(|c: VersionChange| (c.field@, c.key@, c.value@))
    }
}

/// How a version is named in an update: by `id` or by `name`.
pub open spec fn version_key(by_id: bool) -> Seq<char> {
    if by_id {
        "id"@
    } else {
        "name"@
    }
}

/// The addition to `field` when a version is given.
pub open spec fn change_spec(field: Seq<char>, by_id: bool, version: Option<Seq<char>>) -> Seq<
    (Seq<char>, Seq<char>, Seq<char>),
> {
    match version {
        Some(v) => seq![(field, version_key(by_id), v)],
        None => seq![],
    }
}

/// The body that adds the fix version and the related version that are given.
pub open spec fn update_issue_spec(args: UpdateIssueArgs) -> Seq<(Seq<char>, Seq<char>, Seq<char>)> {
    change_spec("fixVersions"@, args.use_version_id, opt_text(args.fix_version)) + change_spec(
        "relatedVersions"@,
        args.use_version_id,
        opt_text(args.related_version),
    )
}

fn key_text(by_id: bool) -> (r: String)
    ensures
        r@ == version_key(by_id),
{
    if by_id {
        String::from_str("id")
    } else {
        String::from_str("name")
    }
}

pub fn build_update_issue_request(args: &UpdateIssueArgs) -> (r: UpdateIssueRequest)
    ensures
        r@ == update_issue_spec(*args),
{
    let mut update: Vec<VersionChange> = Vec::new();
    match &args.fix_version {
        Some(v) => {
            update.push(
                VersionChange {
                    field: String::from_str("fixVersions"),
                    key: key_text(args.use_version_id),
                    value: v.clone(),
                },
            );
        },
        None => {},
    }
    match &args.related_version {
        Some(v) => {
            update.push(
                VersionChange {
                    field: String::from_str("relatedVersions"),
                    key: key_text(args.use_version_id),
                    value: v.clone(),
                },
            );
        },
        None => {},
    }
    let r = UpdateIssueRequest { update };
    assert(r@ =~= update_issue_spec(*args));
    r
}

/// The call that updates an issue's versions.
pub fn update_issue_request(ctx: &Cli, args: &UpdateIssueArgs) -> (r: ApiRequest)
    ensures
        r.method == Method::Put,
        r.url@ == api_url(ctx.base_jira_url@, "issue/"@ + args.name@),
        r.payload is IssueUpdate,
        r.payload->IssueUpdate_0@ == update_issue_spec(*args),
{
    let url = api_url_of(ctx, "issue/", args.name.as_str(), "");
    proof {
        reveal_strlit("");
        assert("issue/"@ + args.name@ + ""@ =~= "issue/"@ + args.name@);
    }
    ApiRequest { method: Method::Put, url, payload: Payload::IssueUpdate(build_update_issue_request(args)) }
}

} // verus!
