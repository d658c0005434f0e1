use jira_release::pagination::pages_for;
use jira_release::releases::create::{create_release_request, CreateReleaseArgs};
use jira_release::releases::delete::{delete_lookups, delete_release_request, DeleteReleaseArgs};
use jira_release::releases::list::{
    assemble_query, list_releases_request, page_loop, release_lookup_args, release_pager,
    single_release_id, ListReleasesArgs,
};
use jira_release::releases::update::{update_release_lookups, update_release_request, UpdateReleaseArgs};
use jira_release::releases::{PaginatedReleases, Release};
use jira_release::request::{Method, Params, Payload};
use jira_release::error::AppError;
use jira_release::util::{Cli, Format};

fn ctx_with_base(base: &str) -> Cli {
    Cli {
        auth_token: "".to_string(),
        output_format: Format::Csv,
        user_email: "".to_string(),
        base_jira_url: base.to_string(),
    }
}

fn release(id: &str) -> Release {
    Release {
        id: id.to_string(),
        description: None,
        name: None,
        archived: false,
        released: false,
        release_date: None,
        overdue: None,
        user_release_date: None,
        project_id: 0,
    }
}

fn query_of(request: &jira_release::request::ApiRequest) -> &Params {
    match &request.payload {
        Payload::Query(p) => p,
        _ => panic!("expected query parameters"),
    }
}

fn fields_of(request: &jira_release::request::ApiRequest) -> &Params {
    match &request.payload {
        Payload::Fields(p) => p,
        _ => panic!("expected a flat body"),
    }
}

fn ids(items: &[Release]) -> Vec<String> {
    items.iter().map(|r| r.id.clone()).collect()
}

#[test]
fn list() -> Result<(), Box<dyn std::error::Error>> {
    let ctx = ctx_with_base("asdf");
    let args = ListReleasesArgs {
        project: "foo".to_string(),
        filter: None,
        unpaginate: false,
        page_size: 50,
        page_start_idx: 0,
    };
    let (url, args) = assemble_query(&ctx, &args);
    assert!(url.contains("asdf") && url.contains("foo"));
    assert_eq!(2, args.len());
    assert!(args.contains_key("startAt"));
    assert!(args.contains_key("maxResults"));
    assert_eq!("50", args.get("maxResults").unwrap());
    assert_eq!("0", args.get("startAt").unwrap());

    Ok(())
}

#[test]
fn pageloop() -> Result<(), Box<dyn std::error::Error>> {
    let args = ListReleasesArgs {
        project: "foo".to_string(),
        filter: None,
        unpaginate: true,
        page_size: 50,
        page_start_idx: 0,
    };
    let result = page_loop(100, &args);
    assert_eq!(2, result.len());
    assert_eq!("0", result.get(0).unwrap().get("startAt").unwrap());
    assert_eq!("50", result.get(1).unwrap().get("startAt").unwrap());

    Ok(())
}

#[test]
fn list_releases_paginated() -> Result<(), Box<dyn std::error::Error>> {
    let ctx = ctx_with_base("http://localhost");
    let args = ListReleasesArgs {
        project: "foo".to_string(),
        filter: None,
        unpaginate: false,
        page_size: 1,
        page_start_idx: 0,
    };
    let resp = PaginatedReleases {
        total: 2,
        start_at: 0,
        is_last: true,
        values: vec![release("1"), release("2")],
    };
    let mut pager = release_pager(&args);
    let offset = pager.next_offset().unwrap();
    let request = list_releases_request(&ctx, &args, offset);
    assert_eq!("0", query_of(&request).get("startAt").unwrap());
    pager.on_page(resp.total, resp.values);
    assert_eq!(None, pager.next_offset());
    let res = pager.into_items();
    assert_eq!(vec!["1".to_string(), "2".to_string()], ids(&res));
    Ok(())
}

#[test]
fn list_releases_unpaginated() -> Result<(), Box<dyn std::error::Error>> {
    let ctx = ctx_with_base("http://localhost");
    let args = ListReleasesArgs {
        project: "foo".to_string(),
        filter: None,
        unpaginate: true,
        page_size: 1,
        page_start_idx: 0,
    };
    let resp1 = PaginatedReleases { total: 2, start_at: 0, is_last: false, values: vec![release("1")] };
    let resp2 = PaginatedReleases { total: 2, start_at: 1, is_last: true, values: vec![release("2")] };
    // The backend answers offset 0 with `resp2` and offset 1 with `resp1`.
    let mut pages = vec![Some(resp2), Some(resp1)];
    let mut pager = release_pager(&args);
    let mut requested = Vec::new();
    while let Some(offset) = pager.next_offset() {
        let request = list_releases_request(&ctx, &args, offset);
        let start_at = query_of(&request).get("startAt").unwrap();
        requested.push(start_at.clone());
        let page = pages[start_at.parse::<usize>().unwrap()].take().unwrap();
        pager.on_page(page.total, page.values);
    }
    assert_eq!(vec!["0".to_string(), "1".to_string()], requested);
    let res = pager.into_items();
    assert_eq!(vec!["2".to_string(), "1".to_string()], ids(&res));
    Ok(())
}

#[test]
fn page_counts_are_ceilings() {
    assert_eq!(2, pages_for(100, 50));
    assert_eq!(3, pages_for(101, 50));
    assert_eq!(0, pages_for(0, 50));
    assert_eq!(1, pages_for(50, 50));
    assert_eq!(1, pages_for(1, 50));
    assert_eq!(u64::MAX, pages_for(u64::MAX, 1));
}

#[test]
fn full_walk_requests_each_page_once_in_order() {
    let args = ListReleasesArgs {
        project: "foo".to_string(),
        filter: Some("v1".to_string()),
        unpaginate: true,
        page_size: 50,
        page_start_idx: 0,
    };
    let ctx = ctx_with_base("http://h");
    let mut pager = release_pager(&args);
    let mut offsets = Vec::new();
    let mut next_id = 0;
    while let Some(offset) = pager.next_offset() {
        offsets.push(offset);
        let request = list_releases_request(&ctx, &args, offset);
        assert_eq!(Method::Get, request.method);
        assert_eq!("http://h/rest/api/3/project/foo/version", request.url);
        assert_eq!("v1", query_of(&request).get("query").unwrap());
        let count = if offset == 100 { 20 } else { 50 };
        let values = (0..count).map(|_| {
            next_id += 1;
            release(&next_id.to_string())
        });
        pager.on_page(120, values.collect());
    }
    assert_eq!(vec![0, 50, 100], offsets);
    let expected: Vec<String> = (1..=120).map(|i: i32| i.to_string()).collect();
    assert_eq!(expected, ids(&pager.into_items()));
}

#[test]
fn full_walk_of_empty_collection_stops_after_first_request() {
    let args = ListReleasesArgs {
        project: "foo".to_string(),
        filter: None,
        unpaginate: true,
        page_size: 50,
        page_start_idx: 0,
    };
    let mut pager = release_pager(&args);
    assert_eq!(Some(0), pager.next_offset());
    pager.on_page(0, vec![]);
    assert_eq!(None, pager.next_offset());
    assert!(pager.into_items().is_empty());
}

#[test]
fn single_page_mode_ignores_total() {
    let args = ListReleasesArgs {
        project: "foo".to_string(),
        filter: None,
        unpaginate: false,
        page_size: 1,
        page_start_idx: 3,
    };
    let mut pager = release_pager(&args);
    assert_eq!(Some(3), pager.next_offset());
    pager.on_page(500, vec![release("a")]);
    assert_eq!(None, pager.next_offset());
}

#[test]
fn page_loop_with_remainder_and_start() {
    let args = ListReleasesArgs {
        project: "foo".to_string(),
        filter: Some("x".to_string()),
        unpaginate: true,
        page_size: 50,
        page_start_idx: 10,
    };
    let result = page_loop(101, &args);
    assert_eq!(3, result.len());
    assert_eq!("10", result[0].get("startAt").unwrap());
    assert_eq!("60", result[1].get("startAt").unwrap());
    assert_eq!("110", result[2].get("startAt").unwrap());
    assert_eq!("x", result[2].get("query").unwrap());
    assert_eq!(3, result[2].len());
    assert!(page_loop(0, &args).is_empty());
}

#[test]
fn resolver_needs_exactly_one_match() {
    let one = vec![release("42")];
    assert_eq!("42", single_release_id(&one).unwrap());
    let none: Vec<Release> = vec![];
    assert!(matches!(single_release_id(&none), Err(AppError::MatchedMultipleReleases)));
    let two = vec![release("1"), release("2")];
    assert!(matches!(single_release_id(&two), Err(AppError::MatchedMultipleReleases)));
}

#[test]
fn resolver_lists_every_page_filtered_by_name() {
    let args = release_lookup_args("PRJ".to_string(), "1.0".to_string());
    assert_eq!("PRJ", args.project);
    assert_eq!(Some("1.0".to_string()), args.filter);
    assert!(args.unpaginate);
    assert_eq!(100, args.page_size);
    assert_eq!(0, args.page_start_idx);
}

#[test]
fn create_then_list_keeps_description_and_date() {
    let ctx = ctx_with_base("http://h");
    let args = CreateReleaseArgs {
        project: "PRJ".to_string(),
        name: "r1".to_string(),
        description: Some("d".to_string()),
        start_date: None,
        release_date: Some("2024-01-01".to_string()),
    };
    let request = create_release_request(&ctx, args);
    assert_eq!(Method::Post, request.method);
    assert_eq!("http://h/rest/api/3/version", request.url);
    let body = fields_of(&request);
    assert_eq!(4, body.len());
    assert_eq!("r1", body.get("name").unwrap());
    assert_eq!("PRJ", body.get("project").unwrap());
    assert_eq!("d", body.get("description").unwrap());
    assert_eq!("2024-01-01", body.get("releaseDate").unwrap());
    assert!(!body.contains_key("startDate"));

    // The backend echoes the release; listing it back through the pager keeps it as is.
    let mut created = release("7");
    created.description = body.get("description");
    created.release_date = body.get("releaseDate");
    let list_args = ListReleasesArgs {
        project: "PRJ".to_string(),
        filter: None,
        unpaginate: true,
        page_size: 50,
        page_start_idx: 0,
    };
    let mut pager = release_pager(&list_args);
    pager.next_offset().unwrap();
    pager.on_page(1, vec![created]);
    let listed = pager.into_items();
    assert_eq!(1, listed.len());
    assert_eq!(Some("d".to_string()), listed[0].description);
    assert_eq!(Some("2024-01-01".to_string()), listed[0].release_date);
    assert!(!listed[0].released);
}

#[test]
fn delete_by_name_resolves_release_then_targets() {
    let ctx = ctx_with_base("http://h");
    let args = DeleteReleaseArgs {
        release: "old".to_string(),
        project: "PRJ".to_string(),
        by_id: None,
        replace_fix_version: Some("newfix".to_string()),
        replace_affected_version: Some("newaff".to_string()),
    };
    assert_eq!(vec!["old".to_string(), "newfix".to_string(), "newaff".to_string()], delete_lookups(&args));
    let request = delete_release_request(&ctx, args, vec!["1".to_string(), "2".to_string(), "3".to_string()]);
    assert_eq!(Method::Post, request.method);
    assert_eq!("http://h/rest/api/3/version/1/removeAndSwap", request.url);
    let body = fields_of(&request);
    assert_eq!("3", body.get("moveAffectedIssuesTo").unwrap());
    assert_eq!("2", body.get("moveFixIssuesTo").unwrap());
}

#[test]
fn delete_by_id_resolves_nothing() {
    let ctx = ctx_with_base("http://h");
    let args = DeleteReleaseArgs {
        release: "10".to_string(),
        project: "PRJ".to_string(),
        by_id: Some(true),
        replace_fix_version: None,
        replace_affected_version: Some("11".to_string()),
    };
    assert!(delete_lookups(&args).is_empty());
    let request = delete_release_request(&ctx, args, vec![]);
    assert_eq!("http://h/rest/api/3/version/10/removeAndSwap", request.url);
    let body = fields_of(&request);
    assert_eq!(1, body.len());
    assert_eq!("11", body.get("moveAffectedIssuesTo").unwrap());
}

#[test]
fn update_by_name_puts_to_resolved_id() {
    let ctx = ctx_with_base("http://h");
    let args = UpdateReleaseArgs {
        name: Some("renamed".to_string()),
        description: None,
        start_date: Some("2024-02-01".to_string()),
        release_date: None,
        is_released: Some(false),
        by_id: Some(false),
        release: "r1".to_string(),
        project: "PRJ".to_string(),
    };
    assert_eq!(vec!["r1".to_string()], update_release_lookups(&args));
    let request = update_release_request(&ctx, args, vec!["99".to_string()]);
    assert_eq!(Method::Put, request.method);
    assert_eq!("http://h/rest/api/3/version/99", request.url);
    let body = fields_of(&request);
    assert_eq!(3, body.len());
    assert_eq!("2024-02-01", body.get("startDate").unwrap());
    assert_eq!("renamed", body.get("name").unwrap());
    assert_eq!("false", body.get("released").unwrap());
}
