use crate::releases::{by_id_spec, is_by_id};
use crate::request::{api_url, api_url_of, keys_unique, optional_entry, opt_seq, opt_text, texts, ApiRequest, Method, Params, Payload};
use crate::util::Cli;
use vstd::prelude::*;

verus! {

/// A release to delete, by name or by id, and where the issues that point at
/// it move to.
#[derive(Debug, Clone)]
pub struct DeleteReleaseArgs {
    pub release: String,
    pub project: String,
    pub by_id: Option<bool>,
    pub replace_fix_version: Option<String>,
    pub replace_affected_version: Option<String>,
}

impl DeleteReleaseArgs {
    pub fn set_release(&mut self, new: String)
        ensures
            *final(self) == (DeleteReleaseArgs { release: new, ..*old(self) }),
    {
        self.release = new;
    }

    pub fn set_fixversion(&mut self, new: String)
        ensures
            *final(self) == (DeleteReleaseArgs { replace_fix_version: Some(new), ..*old(self) }),
    {
        self.replace_fix_version = Some(new);
    }

    pub fn set_affectedversion(&mut self, new: String)
        ensures
            *final(self) == (DeleteReleaseArgs { replace_affected_version: Some(new), ..*old(self) }),
    {
        self.replace_affected_version = Some(new);
    }
}

/// The body of a delete call.
pub open spec fn delete_body_spec(affected: Option<Seq<char>>, fix: Option<Seq<char>>) -> Seq<(Seq<char>, Seq<char>)> {
    optional_entry("moveAffectedIssuesTo"@, affected) + optional_entry("moveFixIssuesTo"@, fix)
}

pub fn assemble_delete_args(args: DeleteReleaseArgs) -> (r: Params)
    ensures
        r@ == delete_body_spec(opt_text(args.replace_affected_version), opt_text(args.replace_fix_version)),
        keys_unique(r@),
{
    proof {
        reveal_strlit("moveAffectedIssuesTo");
        assert("moveAffectedIssuesTo"@.len() == 20 && "moveAffectedIssuesTo"@[0] == 'm');
        reveal_strlit("moveFixIssuesTo");
        assert("moveFixIssuesTo"@.len() == 15 && "moveFixIssuesTo"@[0] == 'm');
    }
    let mut params = Params::new();
    params.push_optional("moveAffectedIssuesTo", &args.replace_affected_version);
    params.push_optional("moveFixIssuesTo", &args.replace_fix_version);
    assert(params@ =~= delete_body_spec(
        opt_text(args.replace_affected_version),
        opt_text(args.replace_fix_version),
    ));
    params
}

/// The names to resolve before a delete by name: the release, then the
/// release that takes its fixed issues, then the one that takes its affected
/// issues. A delete by id resolves nothing.
pub open spec fn delete_lookups_spec(args: DeleteReleaseArgs) -> Seq<Seq<char>> {
    if by_id_spec(args.by_id) {
        seq![]
    } else {
        seq![args.release@] + opt_seq(opt_text(args.replace_fix_version)) + opt_seq(
            opt_text(args.replace_affected_version),
        )
    }
}

pub fn delete_lookups(args: &DeleteReleaseArgs) -> (r: Vec<String>)
    ensures
        texts(r@) == delete_lookups_spec(*args),
{
    let mut names: Vec<String> = Vec::new();
    if !is_by_id(args.by_id) {
        names.push(args.release.clone());
        match &args.replace_fix_version {
            Some(n) => names.push(n.clone()),
            None => {},
        }
        match &args.replace_affected_version {
            Some(n) => names.push(n.clone()),
            None => {},
        }
    }
    assert(texts(names@) =~= delete_lookups_spec(*args));
    names
}

/// The release a delete targets and the releases its issues move to, once
/// the names in `delete_lookups_spec` have resolved to `ids`, in that order.
pub open spec fn delete_target(args: DeleteReleaseArgs, ids: Seq<Seq<char>>) -> (
    Seq<char>,
    Option<Seq<char>>,
    Option<Seq<char>>,
) {
    if by_id_spec(args.by_id) {
        (args.release@, opt_text(args.replace_fix_version), opt_text(args.replace_affected_version))
    } else {
        let fix = if args.replace_fix_version is Some {
            Some(ids[1])
        } else {
            None
        };
        let affected_at = if args.replace_fix_version is Some {
            2int
        } else {
            1int
        };
        let affected = if args.replace_affected_version is Some {
            Some(ids[affected_at])
        } else {
            None
        };
        (ids[0], fix, affected)
    }
}

/// The delete call, given the ids that the names of `delete_lookups` resolved
/// to, in that order.
pub fn delete_release_request(ctx: &Cli, args: DeleteReleaseArgs, ids: Vec<String>) -> (r: ApiRequest)
    requires
        ids@.len() == delete_lookups_spec(args).len(),
    ensures
        ({
            let t = delete_target(args, texts(ids@));
            &&& r.method == Method::Post
            &&& r.url@ == api_url(ctx.base_jira_url@, "version/"@ + t.0 + "/removeAndSwap"@)
            &&& r.payload is Fields
            &&& r.payload->Fields_0@ == delete_body_spec(t.2, t.1)
        }),
{
    let ghost a = args;
    let mut mutargs = args;
    if !is_by_id(mutargs.by_id) {
        mutargs.set_release(ids[0].clone());
        let mut next: usize = 1;
        if mutargs.replace_fix_version.is_some() {
            mutargs.set_fixversion(ids[1].clone());
            next = 2;
        }
        if mutargs.replace_affected_version.is_some() {
            mutargs.set_affectedversion(ids[next].clone());
        }
    }
    let url = api_url_of(ctx, "version/", mutargs.release.as_str(), "/removeAndSwap");
    let ghost t = delete_target(a, texts(ids@));
    assert(mutargs.release@ == t.0);
    assert(opt_text(mutargs.replace_fix_version) == t.1);
    assert(opt_text(mutargs.replace_affected_version) == t.2);
    ApiRequest { method: Method::Post, url, payload: Payload::Fields(assemble_delete_args(mutargs)) }
}

} // verus!
