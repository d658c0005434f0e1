use crate::releases::{by_id_spec, is_by_id};
use crate::request::{api_url, api_url_of, keys_unique, bool_text, optional_entry, opt_text, texts, ApiRequest, Method, Params, Payload};
use crate::util::Cli;
use vstd::prelude::*;
use vstd::string::*;

verus! {

/// Changes to a release, named by name or by id; absent fields stay as they are.
#[derive(Debug, Clone)]
pub struct UpdateReleaseArgs {
    pub name: Option<String>,
    pub description: Option<String>,
    pub start_date: Option<String>,
    pub release_date: Option<String>,
    pub is_released: Option<bool>,
    pub by_id: Option<bool>,
    pub release: String,
    pub project: String,
}

impl UpdateReleaseArgs {
    pub fn set_release(&mut self, new: String)
        ensures
            *final(self) == (UpdateReleaseArgs { release: new, ..*old(self) }),
    {
        self.release = new;
    }
}

/// An optional flag as written in a request.
pub open spec fn opt_bool_text(b: Option<bool>) -> Option<Seq<char>> {
    match b {
        Some(v) => Some(bool_text(v)),
        None => None,
    }
}

/// The body of an update call.
pub open spec fn update_body_spec(args: UpdateReleaseArgs) -> Seq<(Seq<char>, Seq<char>)> {
    optional_entry("startDate"@, opt_text(args.start_date))
        + optional_entry("releaseDate"@, opt_text(args.release_date))
        + optional_entry("description"@, opt_text(args.description))
        + optional_entry("name"@, opt_text(args.name))
        + optional_entry("released"@, opt_bool_text(args.is_released))
}

fn flag_text(b: bool) -> (r: String)
    ensures
        r@ == bool_text(b),
{
    if b {
        String::from_str("true")
    } else {
        String::from_str("false")
    }
}

pub fn assemble_update_args(args: UpdateReleaseArgs) -> (r: Params)
    ensures
        r@ == update_body_spec(args),
        keys_unique(r@),
{
    proof {
        reveal_strlit("startDate");
        assert("startDate"@.len() == 9 && "startDate"@[0] == 's');
        reveal_strlit("releaseDate");
        assert("releaseDate"@.len() == 11 && "releaseDate"@[0] == 'r');
        reveal_strlit("description");
        assert("description"@.len() == 11 && "description"@[0] == 'd');
        reveal_strlit("name");
        assert("name"@.len() == 4 && "name"@[0] == 'n');
        reveal_strlit("released");
        assert("released"@.len() == 8 && "released"@[0] == 'r');
    }
    let mut params = Params::new();
    params.push_optional("startDate", &args.start_date);
    params.push_optional("releaseDate", &args.release_date);
    params.push_optional("description", &args.description);
    params.push_optional("name", &args.name);
    let released = match args.is_released {
        Some(b) => Some(flag_text(b)),
        None => None,
    };
    params.push_optional("released", &released);
    assert(params@ =~= update_body_spec(args));
    params
}

/// The names to resolve before an update by name: the release itself.
pub open spec fn update_lookups_spec(args: UpdateReleaseArgs) -> Seq<Seq<char>> {
    if by_id_spec(args.by_id) {
        seq![]
    } else {
        seq![args.release@]
    }
}

pub fn update_release_lookups(args: &UpdateReleaseArgs) -> (r: Vec<String>)
    ensures
        texts(r@) == update_lookups_spec(*args),
{
    let mut names: Vec<String> = Vec::new();
    if !is_by_id(args.by_id) {
        names.push(args.release.clone());
    }
    assert(texts(names@) =~= update_lookups_spec(*args));
    names
}

/// The release an update targets, once the names of `update_lookups_spec`
/// have resolved to `ids`.
pub open spec fn update_target(args: UpdateReleaseArgs, ids: Seq<Seq<char>>) -> Seq<char> {
    if by_id_spec(args.by_id) {
        args.release@
    } else {
        ids[0]
    }
}

/// The update call, given the ids that the names of `update_release_lookups`
/// resolved to.
pub fn update_release_request(ctx: &Cli, args: UpdateReleaseArgs, ids: Vec<String>) -> (r: ApiRequest)
    requires
        ids@.len() == update_lookups_spec(args).len(),
    ensures
        r.method == Method::Put,
        r.url@ == api_url(ctx.base_jira_url@, "version/"@ + update_target(args, texts(ids@))),
        r.payload is Fields,
        r.payload->Fields_0@ == update_body_spec(args),
{
    let ghost a = args;
    let mut mutargs = args;
    if !is_by_id(mutargs.by_id) {
        mutargs.set_release(ids[0].clone());
    }
    let url = api_url_of(ctx, "version/", mutargs.release.as_str(), "");
    proof {
        reveal_strlit("");
        assert("version/"@ + mutargs.release@ + ""@ =~= "version/"@ + mutargs.release@);
    }
    assert(mutargs.release@ == update_target(a, texts(ids@)));
    assert(update_body_spec(mutargs) == update_body_spec(a));
    ApiRequest { method: Method::Put, url, payload: Payload::Fields(assemble_update_args(mutargs)) }
}

} // verus!
