//! The "release completed issues" workflow: gather the issues a query finds,
//! create a release, attach every issue to it, and mark it released.
//!
//! The workflow is a state machine. The caller performs each action it hands
//! out and feeds the result back through the handler of the current stage.

use crate::error::AppError;
use crate::issues::search_issues::{search_body, search_fields_spec, SearchIssuesArgs, SearchIssuesRequest};
use crate::issues::update::UpdateIssueArgs;
use crate::issues::{Issue, PaginatedIssues};
use crate::pagination::{PageCursor, Pager};
use crate::releases::create::{create_release_outcome, CreateReleaseArgs};
use crate::releases::update::UpdateReleaseArgs;
use crate::releases::Release;
use crate::request::{copy_opt_text, texts};
use vstd::prelude::*;
use vstd::string::*;

verus! {

/// What to release: a new release of `project` named `release_name`, holding
/// the issues that `issue_jql` finds (by default, the project's done issues
/// without a fix version).
#[derive(Debug, Clone)]
pub struct ReleaseCompletedIssuesArgs {
    pub release_name: String,
    pub project: String,
    pub issue_jql: Option<String>,
    pub description: Option<String>,
}

/// The page size of the search that gathers the issues.
pub const SEARCH_PAGE_SIZE: u64 = 50;

/// The query used when none is given.
pub open spec fn default_jql(project: Seq<char>) -> Seq<char> {
    "(project = "@ + project + " AND status = Done) and (fixVersion is EMPTY)"@
}

/// The query the workflow searches with.
pub open spec fn release_jql(args: ReleaseCompletedIssuesArgs) -> Seq<char> {
    match args.issue_jql {
        Some(q) => q@,
        None => default_jql(args.project@),
    }
}

fn jql_for(args: &ReleaseCompletedIssuesArgs) -> (r: String)
    ensures
        r@ == release_jql(*args),
{
    match &args.issue_jql {
        Some(q) => q.clone(),
        None => {
            let mut q = String::from_str("(project = ");
            q.append(args.project.as_str());
            q.append(" AND status = Done) and (fixVersion is EMPTY)");
            q
        },
    }
}

/// How attaching one issue to the release went.
#[derive(Debug, Clone)]
pub enum AttachOutcome {
    Attached(String),
    NotAttached(String, AppError),
}

/// The outcome recorded for the issue `key` after an attach call.
pub open spec fn outcome_spec(key: String, result: Result<(), AppError>) -> AttachOutcome {
    match result {
        Ok(_) => AttachOutcome::Attached(key),
        Err(e) => AttachOutcome::NotAttached(key, e),
    }
}

/// The next thing the caller must do.
#[derive(Debug)]
pub enum ReleaseAction {
    /// Run this search and report the page.
    SearchPage(SearchIssuesRequest),
    /// Create this release and report it.
    CreateRelease(CreateReleaseArgs),
    /// Add the release as fix version of an issue and report how it went.
    AttachIssue(UpdateIssueArgs),
    /// Mark the release released and report how it went.
    MarkReleased(UpdateReleaseArgs),
    /// The workflow is complete; the outcomes of each attach are recorded.
    Finished,
    /// The workflow stopped on this error.
    Failed(AppError),
}

#[derive(Debug, Clone, Copy, PartialEq, Eq, Structural)]
pub enum ReleaseStage {
    Gathering,
    Creating,
    Attaching,
    Finalizing,
    Finished,
    Failed,
}

/// A call to the backend the workflow has asked for.
#[derive(Debug, Clone, Copy, PartialEq, Eq, Structural)]
pub enum Call {
    Search(u64),
    Create,
    Attach(usize),
    Finalize,
}

/// Whether every call is a search.
pub open spec fn search_only(calls: Seq<Call>) -> bool {
    forall|i: int| 0 <= i < calls.len() ==> (#[trigger] calls[i]) is Search
}

/// The calls after the searches: the creation, then an attach for each of
/// the first `attached` issues in order.
pub open spec fn mutation_calls(attached: nat) -> Seq<Call> {
    seq![Call::Create] + Seq::new(attached, |k: int| Call::Attach(k as usize))
}

pub struct ReleaseWorkflow {
    pub project: String,
    pub release_name: String,
    pub description: Option<String>,
    pub release_date: String,
    pub search: SearchIssuesRequest,
    pub pager: Pager<Issue>,
    pub release_id: String,
    pub next_issue: usize,
    pub outcomes: Vec<AttachOutcome>,
    pub stage: ReleaseStage,
    /// Every call asked for so far, in order.
    pub calls: Ghost<Seq<Call>>,
    /// How many of them are the searches that gathered the issues.
    pub search_calls: Ghost<nat>,
}

impl ReleaseWorkflow {
    /// The issues gathered by the search.
    pub open spec fn issues(&self) -> Seq<Issue> {
        self.pager.items@
    }

    pub open spec fn wf(&self) -> bool {
        &&& self.pager.wf()
        &&& self.pager.cursor.fetch_all
        &&& self.search.max_results == self.pager.cursor.page_size
        &&& self.search_calls@ <= self.calls@.len()
        &&& search_only(self.calls@.take(self.search_calls@ as int))
        &&& match self.stage {
            ReleaseStage::Gathering => {
                &&& self.outcomes@.len() == 0
                &&& self.pager.cursor.next_spec() is Some
                &&& self.calls@.len() == self.search_calls@
            },
            ReleaseStage::Creating => {
                &&& self.outcomes@.len() == 0
                &&& self.issues().len() > 0
                &&& self.calls@.skip(self.search_calls@ as int) == seq![Call::Create]
            },
            ReleaseStage::Attaching => {
                &&& self.next_issue < self.issues().len()
                &&& self.outcomes@.len() == self.next_issue
                &&& self.calls@.skip(self.search_calls@ as int) == mutation_calls(
                    (self.next_issue + 1) as nat,
                )
            },
            ReleaseStage::Finalizing | ReleaseStage::Finished => {
                &&& self.outcomes@.len() == self.issues().len()
                &&& self.calls@.skip(self.search_calls@ as int) == mutation_calls(
                    self.issues().len(),
                ).push(Call::Finalize)
            },
            ReleaseStage::Failed => true,
        }
    }

    /// What stays fixed from one step to the next.
    pub open spec fn same_setup(&self, other: &ReleaseWorkflow) -> bool {
        &&& self.project == other.project
        &&& self.release_name == other.release_name
        &&& self.description == other.description
        &&& self.release_date == other.release_date
        &&& self.search == other.search
    }

    /// `a` asks for the search page at `offset`.
    pub open spec fn is_search_action(&self, a: ReleaseAction, offset: u64) -> bool {
        &&& a is SearchPage
        &&& a->SearchPage_0.jql == self.search.jql
        &&& a->SearchPage_0.start_at == offset
        &&& a->SearchPage_0.max_results == self.search.max_results
        &&& a->SearchPage_0.fields@ == self.search.fields@
    }

    /// `a` asks to create the release, dated `release_date`.
    pub open spec fn is_create_action(&self, a: ReleaseAction) -> bool {
        &&& a is CreateRelease
        &&& a->CreateRelease_0.project == self.project
        &&& a->CreateRelease_0.name == self.release_name
        &&& a->CreateRelease_0.description == self.description
        &&& a->CreateRelease_0.start_date is None
        &&& a->CreateRelease_0.release_date == Some(self.release_date)
    }

    /// `a` asks to add the release, by id, as fix version of issue `k`.
    pub open spec fn is_attach_action(&self, a: ReleaseAction, k: int) -> bool {
        &&& a is AttachIssue
        &&& a->AttachIssue_0.name == self.issues()[k].key
        &&& a->AttachIssue_0.fix_version == Some(self.release_id)
        &&& a->AttachIssue_0.related_version is None
        &&& a->AttachIssue_0.use_version_id
    }

    /// `a` asks to mark the release, by id, released, and to change nothing else.
    pub open spec fn is_finalize_action(&self, a: ReleaseAction) -> bool {
        &&& a is MarkReleased
        &&& a->MarkReleased_0.is_released == Some(true)
        &&& a->MarkReleased_0.by_id == Some(true)
        &&& a->MarkReleased_0.release == self.release_id
        &&& a->MarkReleased_0.project == self.project
        &&& a->MarkReleased_0.name is None
        &&& a->MarkReleased_0.description is None
        &&& a->MarkReleased_0.start_date is None
        &&& a->MarkReleased_0.release_date is None
    }

    fn search_action(&self, offset: u64) -> (r: ReleaseAction)
        ensures
            self.is_search_action(r, offset),
    {
        let mut body = SearchIssuesRequest {
            jql: self.search.jql.clone(),
            start_at: self.search.start_at,
            max_results: self.search.max_results,
            fields: crate::request::copy_texts(&self.search.fields),
        };
        body.set_start_idx(offset);
        ReleaseAction::SearchPage(body)
    }

    fn attach_action(&self, k: usize) -> (r: ReleaseAction)
        requires
            k < self.issues().len(),
        ensures
            self.is_attach_action(r, k as int),
    {
        ReleaseAction::AttachIssue(
            UpdateIssueArgs {
                name: self.pager.items[k].key.clone(),
                fix_version: Some(self.release_id.clone()),
                related_version: None,
                use_version_id: true,
            },
        )
    }

    fn finalize_action(&self) -> (r: ReleaseAction)
        ensures
            self.is_finalize_action(r),
    {
        ReleaseAction::MarkReleased(
            UpdateReleaseArgs {
                name: None,
                description: None,
                start_date: None,
                release_date: None,
                is_released: Some(true),
                by_id: Some(true),
                release: self.release_id.clone(),
                project: self.project.clone(),
            },
        )
    }

    /// Starts the workflow: it asks for the first page of the search, at
    /// offset 0, `SEARCH_PAGE_SIZE` issues per page. The release will be
    /// dated `release_date`.
    pub fn start(args: ReleaseCompletedIssuesArgs, release_date: String) -> (r: (ReleaseWorkflow, ReleaseAction))
        ensures
            r.0.wf(),
            r.0.stage == ReleaseStage::Gathering,
            r.0.project == args.project,
            r.0.release_name == args.release_name,
            r.0.description == args.description,
            r.0.release_date == release_date,
            r.0.search.jql@ == release_jql(args),
            r.0.search.max_results == SEARCH_PAGE_SIZE,
            texts(r.0.search.fields@) == search_fields_spec(),
            r.0.pager.cursor == PageCursor::fresh(0, SEARCH_PAGE_SIZE, true),
            r.0.issues().len() == 0,
            r.0.calls@ == seq![Call::Search(0)],
            r.0.is_search_action(r.1, 0),
    {
        let search = search_body(
            &SearchIssuesArgs {
                jql: jql_for(&args),
                unpaginate: true,
                page_size: SEARCH_PAGE_SIZE,
                page_start_idx: 0,
            },
        );
        let ghost first_calls = seq![Call::Search(0)];
        let w = ReleaseWorkflow {
            project: args.project,
            release_name: args.release_name,
            description: args.description,
            release_date,
            search,
            pager: Pager::new(0, SEARCH_PAGE_SIZE, true),
            release_id: String::new(),
            next_issue: 0,
            outcomes: Vec::new(),
            stage: ReleaseStage::Gathering,
            calls: Ghost(first_calls),
            search_calls: Ghost(1),
        };
        assert(w.calls@.take(1) =~= w.calls@);
        let a = w.search_action(0);
        (w, a)
    }

    /// Takes in a page of the search. While pages remain it asks for the
    /// next; once every page is in, an empty result fails with
    /// `NoIssuesFound` before anything is created or updated, and otherwise
    /// it asks to create the release.
    pub fn on_search_page(&mut self, page: Result<PaginatedIssues, AppError>) -> (r: ReleaseAction)
        requires
            old(self).wf(),
            old(self).stage == ReleaseStage::Gathering,
        ensures
            final(self).wf(),
            final(self).same_setup(old(self)),
            page is Err ==> final(self).stage == ReleaseStage::Failed && r == ReleaseAction::Failed(
                page->Err_0,
            ) && final(self).calls@ == old(self).calls@,
            page is Ok ==> {
                let p = page->Ok_0;
                &&& final(self).pager.cursor == old(self).pager.cursor.after_page(p.total)
                &&& final(self).issues() == old(self).issues() + p.issues@
                &&& match final(self).pager.cursor.next_spec() {
                    Some(o) => {
                        &&& final(self).stage == ReleaseStage::Gathering
                        &&& final(self).is_search_action(r, o)
                        &&& final(self).calls@ == old(self).calls@.push(Call::Search(o))
                    },
                    None => if final(self).issues().len() == 0 {
                        &&& final(self).stage == ReleaseStage::Failed
                        &&& r == ReleaseAction::Failed(AppError::NoIssuesFound)
                        &&& final(self).calls@ == old(self).calls@
                        &&& search_only(final(self).calls@)
                    } else {
                        &&& final(self).stage == ReleaseStage::Creating
                        &&& final(self).is_create_action(r)
                        &&& final(self).calls@ == old(self).calls@.push(Call::Create)
                    },
                }
            },
    {
        match page {
            Err(e) => {
                self.stage = ReleaseStage::Failed;
                ReleaseAction::Failed(e)
            },
            Ok(p) => {
                let PaginatedIssues { total, start_at: _, issues } = p;
                self.pager.on_page(total, issues);
                match self.pager.next_offset() {
                    Some(o) => {
                        let ghost old_calls = self.calls@;
                        self.calls = Ghost(self.calls@.push(Call::Search(o)));
                        self.search_calls = Ghost(self.search_calls@ + 1);
                        assert(self.calls@.take(self.search_calls@ as int) =~= old_calls.take(
                            (self.search_calls@ - 1) as int,
                        ).push(Call::Search(o)));
                        self.search_action(o)
                    },
                    None => {
                        if self.pager.items.len() == 0 {
                            self.stage = ReleaseStage::Failed;
                            assert(self.calls@.take(self.search_calls@ as int) =~= self.calls@);
                            ReleaseAction::Failed(AppError::NoIssuesFound)
                        } else {
                            let ghost old_calls = self.calls@;
                            self.calls = Ghost(self.calls@.push(Call::Create));
                            self.stage = ReleaseStage::Creating;
                            assert(self.calls@.take(self.search_calls@ as int) =~= old_calls.take(
                                self.search_calls@ as int,
                            ));
                            assert(self.calls@.skip(self.search_calls@ as int) =~= seq![Call::Create]);
                            ReleaseAction::CreateRelease(
                                CreateReleaseArgs {
                                    project: self.project.clone(),
                                    name: self.release_name.clone(),
                                    description: copy_opt_text(&self.description),
                                    start_date: None,
                                    release_date: Some(self.release_date.clone()),
                                },
                            )
                        }
                    },
                }
            },
        }
    }

    /// Takes in the result of the creation. A created release is attached to
    /// the first issue; a failed call, or one that returned no release, fails
    /// with `CouldNotCreateRelease` and touches no issue.
    pub fn on_created(&mut self, result: Result<Option<Release>, AppError>) -> (r: ReleaseAction)
        requires
            old(self).wf(),
            old(self).stage == ReleaseStage::Creating,
        ensures
            final(self).wf(),
            final(self).same_setup(old(self)),
            final(self).issues() == old(self).issues(),
            result is Ok && result->Ok_0 is Some ==> {
                &&& final(self).stage == ReleaseStage::Attaching
                &&& final(self).release_id == result->Ok_0->Some_0.id
                &&& final(self).next_issue == 0
                &&& final(self).is_attach_action(r, 0)
                &&& final(self).calls@ == old(self).calls@.push(Call::Attach(0))
            },
            !(result is Ok && result->Ok_0 is Some) ==> {
                &&& final(self).stage == ReleaseStage::Failed
                &&& r == ReleaseAction::Failed(AppError::CouldNotCreateRelease)
                &&& final(self).calls@ == old(self).calls@
            },
    {
        match create_release_outcome(result) {
            Ok(Some(release)) => {
                let ghost old_calls = self.calls@;
                let ghost sc = self.search_calls@ as int;
                self.release_id = release.id;
                self.next_issue = 0;
                self.stage = ReleaseStage::Attaching;
                self.calls = Ghost(self.calls@.push(Call::Attach(0)));
                assert(self.calls@.take(sc) =~= old_calls.take(sc));
                assert(old_calls.skip(sc) == seq![Call::Create]);
                assert(self.calls@.skip(sc) =~= old_calls.skip(sc).push(Call::Attach(0)));
                assert(self.calls@.skip(sc) =~= mutation_calls(1));
                self.attach_action(0)
            },
            _ => {
                self.stage = ReleaseStage::Failed;
                ReleaseAction::Failed(AppError::CouldNotCreateRelease)
            },
        }
    }

    /// Takes in the result of attaching the current issue. Whatever it was,
    /// it is recorded and the workflow goes on: to the next issue, or, after
    /// the last, to marking the release released.
    pub fn on_attached(&mut self, result: Result<(), AppError>) -> (r: ReleaseAction)
        requires
            old(self).wf(),
            old(self).stage == ReleaseStage::Attaching,
        ensures
            final(self).wf(),
            final(self).same_setup(old(self)),
            final(self).issues() == old(self).issues(),
            final(self).release_id == old(self).release_id,
            final(self).outcomes@ == old(self).outcomes@.push(
                outcome_spec(old(self).issues()[old(self).next_issue as int].key, result),
            ),
            old(self).next_issue + 1 < old(self).issues().len() ==> {
                &&& final(self).stage == ReleaseStage::Attaching
                &&& final(self).next_issue == old(self).next_issue + 1
                &&& final(self).is_attach_action(r, old(self).next_issue + 1)
                &&& final(self).calls@ == old(self).calls@.push(Call::Attach((old(self).next_issue + 1) as usize))
            },
            old(self).next_issue + 1 == old(self).issues().len() ==> {
                &&& final(self).stage == ReleaseStage::Finalizing
                &&& final(self).is_finalize_action(r)
                &&& final(self).calls@ == old(self).calls@.push(Call::Finalize)
            },
    {
        let i = self.next_issue;
        let n = self.pager.items.len();
        assert(i < n);
        let key = self.pager.items[i].key.clone();
        let outcome = match result {
            Ok(_) => AttachOutcome::Attached(key),
            Err(e) => AttachOutcome::NotAttached(key, e),
        };
        self.outcomes.push(outcome);
        let ghost old_calls = self.calls@;
        let ghost sc = self.search_calls@ as int;
        let next = i + 1;
        self.next_issue = next;
        if next < n {
            self.calls = Ghost(self.calls@.push(Call::Attach(next)));
            assert(self.calls@.take(sc) =~= old_calls.take(sc));
            assert(self.calls@.skip(sc) =~= old_calls.skip(sc).push(Call::Attach(next)));
            assert(self.calls@.skip(sc) =~= mutation_calls((next + 1) as nat));
            self.attach_action(next)
        } else {
            self.stage = ReleaseStage::Finalizing;
            self.calls = Ghost(self.calls@.push(Call::Finalize));
            assert(self.calls@.take(sc) =~= old_calls.take(sc));
            assert(self.calls@.skip(sc) =~= old_calls.skip(sc).push(Call::Finalize));
            self.finalize_action()
        }
    }

    /// Takes in the result of marking the release released: success
    /// completes the workflow, a failure is the workflow's error.
    pub fn on_marked_released(&mut self, result: Result<(), AppError>) -> (r: ReleaseAction)
        requires
            old(self).wf(),
            old(self).stage == ReleaseStage::Finalizing,
        ensures
            final(self).wf(),
            final(self).same_setup(old(self)),
            final(self).issues() == old(self).issues(),
            final(self).outcomes@ == old(self).outcomes@,
            final(self).calls@ == old(self).calls@,
            result is Ok ==> final(self).stage == ReleaseStage::Finished && r is Finished,
            result is Err ==> final(self).stage == ReleaseStage::Failed && r == ReleaseAction::Failed(
                result->Err_0,
            ),
    {
        match result {
            Ok(_) => {
                self.stage = ReleaseStage::Finished;
                ReleaseAction::Finished
            },
            Err(e) => {
                self.stage = ReleaseStage::Failed;
                ReleaseAction::Failed(e)
            },
        }
    }

    /// The recorded outcome of each attach, in the order of the issues.
    pub fn outcomes(&self) -> (r: &Vec<AttachOutcome>)
        ensures
            r == &self.outcomes,
    {
        &self.outcomes
    }
}

/// Relies on `chrono::Utc::now` formatted with `%Y-%m-%d`: today's date in
/// UTC. Nothing is promised of its value, which depends on the clock.
#[verifier::external_body]
fn today_utc() -> (r: String) {
    chrono::Utc::now().format("%Y-%m-%d").to_string()
}

impl ReleaseWorkflow {
    /// Starts the workflow with today's date (UTC) as the release date.
    pub fn start_today(args: ReleaseCompletedIssuesArgs) -> (r: (ReleaseWorkflow, ReleaseAction))
        ensures
            r.0.wf(),
            r.0.stage == ReleaseStage::Gathering,
            r.0.project == args.project,
            r.0.release_name == args.release_name,
            r.0.description == args.description,
            r.0.search.jql@ == release_jql(args),
            r.0.search.max_results == SEARCH_PAGE_SIZE,
            texts(r.0.search.fields@) == search_fields_spec(),
            r.0.pager.cursor == PageCursor::fresh(0, SEARCH_PAGE_SIZE, true),
            r.0.issues().len() == 0,
            r.0.calls@ == seq![Call::Search(0)],
            r.0.is_search_action(r.1, 0),
    {
        let today = today_utc();
        ReleaseWorkflow::start(args, today)
    }
}

/// While the issues are being gathered, the workflow has asked for searches
/// only: no release has been created and no issue updated.
pub proof fn lemma_gathering_only_searches(w: ReleaseWorkflow)
    requires
        w.wf(),
        w.stage == ReleaseStage::Gathering,
    ensures
        search_only(w.calls@),
{
    assert(w.calls@.take(w.search_calls@ as int) =~= w.calls@);
}

/// Once the release is being marked released, every gathered issue has had
/// its attach call, in order, right after the creation, whatever the results
/// of those calls; the mark is the last call, and each issue has its outcome.
pub proof fn lemma_every_issue_attached_before_finalize(w: ReleaseWorkflow)
    requires
        w.wf(),
        w.stage == ReleaseStage::Finalizing || w.stage == ReleaseStage::Finished,
    ensures
        ({
            let sc = w.search_calls@ as int;
            let n = w.issues().len() as int;
            &&& w.calls@.len() == sc + n + 2
            &&& search_only(w.calls@.take(sc))
            &&& w.calls@[sc] == Call::Create
            &&& w.calls@.subrange(sc + 1, sc + 1 + n) == Seq::new(n as nat, |k: int| Call::Attach(k as usize))
            &&& w.calls@.last() == Call::Finalize
            &&& w.outcomes@.len() == n
        }),
{
    let sc = w.search_calls@ as int;
    let n = w.issues().len() as int;
    let tail = w.calls@.skip(sc);
    assert(tail == mutation_calls(n as nat).push(Call::Finalize));
    assert(w.calls@[sc] == tail[0]);
    let attaches = w.calls@.subrange(sc + 1, sc + 1 + n);
    assert forall|k: int| 0 <= k < n implies #[trigger] attaches[k] == Call::Attach(k as usize) by {
        assert(w.calls@[sc + 1 + k] == tail[1 + k]);
    }
    assert(attaches =~= Seq::new(n as nat, |k: int| Call::Attach(k as usize)));
    assert(w.calls@.last() == tail.last());
}

} // verus!
