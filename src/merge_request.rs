//! Opening one merge request per target branch: for each branch in turn, look the
//! project up, then submit the request. The first failure ends the run.
//!
//! `Module` decides; whoever drives it performs each `Call` it asks for and hands
//! the `Reply` back.
use vstd::prelude::*;

use crate::accessor::{error_for, reply_succeeds, reply_value, settle, Reply};
use crate::manager;
use crate::models::{ApiError, CreateMergeRequestRequest, Method, Project, RequestView};
use crate::routes::{
    merge_request_route, project_route, route_create_merge_request, route_get_projects_by_path,
};
use crate::title::{create_title, title_of};

verus! {

/// What to open: from `source_branch` of `repository` into each of
/// `target_branches`, in that order.
#[derive(Debug, Clone)]
pub struct Args {
    pub repository: String,
    pub source_branch: String,
    pub target_branches: Vec<String>,
    pub title: String,
    pub description: String,
    pub jira_ticket_ids: Vec<String>,
}

/// The pieces of `s` between commas, in order; an empty `s` is one empty piece.
pub open spec fn split_commas(s: Seq<char>) -> Seq<Seq<char>>
    decreases s.len(),
{
    if s.len() == 0 {
        seq![Seq::empty()]
    } else {
        let init = split_commas(s.drop_last());
        if s.last() == ',' {
            init.push(Seq::empty())
        } else {
            init.update(init.len() - 1, init.last().push(s.last()))
        }
    }
}

/// The comma-separated items of `s`.
pub fn split_list(s: &str) -> (r: Vec<String>)
    ensures
        r.deep_view() == split_commas(s@),
{
    let n = s.unicode_len();
    let mut parts: Vec<String> = Vec::new();
    let mut start: usize = 0;
    let mut i: usize = 0;
    assert(s@.take(0) =~= Seq::<char>::empty());
    assert(parts.deep_view().push(s@.subrange(0, 0)) =~= seq![Seq::<char>::empty()]);
    while i < n
        invariant
            n == s@.len(),
            start <= i <= n,
            split_commas(s@.take(i as int)) == parts.deep_view().push(s@.subrange(start as int, i as int)),
        decreases n - i,
    {
        let c = s.get_char(i);
        assert(s@.take(i + 1).drop_last() =~= s@.take(i as int));
        assert(s@.take(i + 1).last() == c);
        if c == ',' {
            let piece = String::from_str(s.substring_char(start, i));
            let ghost before = parts.deep_view();
            parts.push(piece);
            assert(parts.deep_view() =~= before.push(s@.subrange(start as int, i as int)));
            start = i + 1;
            assert(s@.subrange(start as int, i + 1) =~= Seq::<char>::empty());
        } else {
            assert(s@.subrange(start as int, i as int).push(c) =~= s@.subrange(start as int, i + 1));
            assert(parts.deep_view().push(s@.subrange(start as int, i as int)).update(
                parts.deep_view().len() as int,
                s@.subrange(start as int, i + 1),
            ) =~= parts.deep_view().push(s@.subrange(start as int, i + 1)));
        }
        i += 1;
    }
    let last = String::from_str(s.substring_char(start, n));
    let ghost before = parts.deep_view();
    parts.push(last);
    assert(parts.deep_view() =~= before.push(s@.subrange(start as int, n as int)));
    assert(s@.take(n as int) =~= s@);
    parts
}

/// A list that may be absent: absent means no items.
pub open spec fn optional_list(s: Option<Seq<char>>) -> Seq<Seq<char>> {
    match s {
        Some(s) => split_commas(s),
        None => Seq::empty(),
    }
}

impl Args {
    /// Arguments from the command line's values: the branches and the ticket ids are
    /// comma-separated lists; no description is an empty one, no ticket ids none.
    pub fn parse(
        repository: &str,
        source_branch: &str,
        target_branches: &str,
        title: &str,
        description: Option<&str>,
        jira_ticket_ids: Option<&str>,
    ) -> (r: Args)
        ensures
            r.repository@ == repository@,
            r.source_branch@ == source_branch@,
            r.target_branches.deep_view() == split_commas(target_branches@),
            r.title@ == title@,
            r.description@ == (match description {
                Some(d) => d@,
                None => Seq::empty(),
            }),
            r.jira_ticket_ids.deep_view() == optional_list(
                match jira_ticket_ids {
                    Some(j) => Some(j@),
                    None => None,
                },
            ),
    {
        let description = match description {
            Some(d) => String::from_str(d),
            None => String::new(),
        };
        let jira = match jira_ticket_ids {
            Some(j) => split_list(j),
            None => Vec::new(),
        };
        proof {
            if jira_ticket_ids is None {
                assert(jira.deep_view() =~= Seq::<Seq<char>>::empty());
            }
        }
        Args {
            repository: String::from_str(repository),
            source_branch: String::from_str(source_branch),
            target_branches: split_list(target_branches),
            title: String::from_str(title),
            description,
            jira_ticket_ids: jira,
        }
    }
}

/// Where a run stands on its current branch.
#[derive(Debug, Clone, Copy, PartialEq, Eq, Structural)]
pub enum Phase {
    /// The project is to be looked up.
    Resolving,
    /// The project is known; the merge request is to be submitted.
    Submitting { project_id: i64 },
    /// Every branch has its merge request.
    Finished,
    /// A call failed; nothing more is attempted.
    Aborted,
}

/// A call that the run asks for.
#[derive(Debug, Clone)]
pub enum Call {
    /// Look the project up.
    Get { url: String },
    /// Submit a merge request.
    Post { url: String, request: CreateMergeRequestRequest },
}

/// A call, as values.
pub enum CallView {
    Get { url: Seq<char> },
    Post { url: Seq<char>, request: RequestView },
}

impl View for Call {
    type V = CallView;

    open spec fn view(&self) -> CallView {
        match self {
            Call::Get { url } => CallView::Get { url: url@ },
            Call::Post { url, request } => CallView::Post { url: url@, request: request@ },
        }
    }
}

/// The request that opens the merge request into `target` in project `project_id`.
pub open spec fn request_for(args: Args, target: Seq<char>, project_id: i64) -> RequestView {
    RequestView {
        id: project_id,
        source_branch: args.source_branch@,
        target_branch: target,
        title: title_of(args.title@, target, args.jira_ticket_ids.deep_view()),
        description: args.description@,
    }
}

/// The call to make when the run is at branch `next` in `phase`; none when it is over.
pub open spec fn call_of(args: Args, next: int, phase: Phase) -> Option<CallView> {
    if next < 0 || next >= args.target_branches.len() {
        None
    } else {
        match phase {
            Phase::Resolving => Some(CallView::Get { url: project_route(args.repository@) }),
            Phase::Submitting { project_id } => Some(
                CallView::Post {
                    url: merge_request_route(project_id as int),
                    request: request_for(args, args.target_branches[next]@, project_id),
                },
            ),
            _ => None,
        }
    }
}

/// Where the run goes from branch `next` in `phase`, out of `n` branches, once the
/// current call has succeeded (`ok`, with `project_id` for a lookup) or failed.
pub open spec fn step(n: int, next: int, phase: Phase, ok: bool, project_id: i64) -> (int, Phase) {
    match phase {
        Phase::Resolving => if ok {
            (next, Phase::Submitting { project_id })
        } else {
            (next, Phase::Aborted)
        },
        Phase::Submitting { .. } => if !ok {
            (next, Phase::Aborted)
        } else if next + 1 < n {
            (next + 1, Phase::Resolving)
        } else {
            (next + 1, Phase::Finished)
        },
        _ => (next, phase),
    }
}

/// The phase a run over `n` branches starts in.
pub open spec fn first_phase(n: int) -> Phase {
    if n > 0 {
        Phase::Resolving
    } else {
        Phase::Finished
    }
}

/// The calls made, and the branch and phase reached, when each call in turn gets
/// the next of `answers` (whether it succeeded, and the project id a lookup gave).
pub open spec fn run(args: Args, next: int, phase: Phase, answers: Seq<(bool, i64)>) -> (Seq<
    CallView,
>, int, Phase)
    decreases answers.len(),
{
    if answers.len() == 0 {
        (Seq::empty(), next, phase)
    } else {
        match call_of(args, next, phase) {
            None => (Seq::empty(), next, phase),
            Some(c) => {
                let (n2, p2) = step(
                    args.target_branches.len() as int,
                    next,
                    phase,
                    answers[0].0,
                    answers[0].1,
                );
                let rest = run(args, n2, p2, answers.drop_first());
                (seq![c] + rest.0, rest.1, rest.2)
            },
        }
    }
}

/// A copy of `v`.
fn copy_strings(v: &Vec<String>) -> (r: Vec<String>)
    ensures
        r.deep_view() == v.deep_view(),
{
    let mut r: Vec<String> = Vec::new();
    let mut i: usize = 0;
    while i < v.len()
        invariant
            i <= v.len(),
            r.deep_view() == v.deep_view().take(i as int),
        decreases v.len() - i,
    {
        let s = v[i].clone();
        let ghost before = r.deep_view();
        r.push(s);
        assert(r.deep_view() =~= before.push(v[i as int]@));
        assert(r.deep_view() =~= v.deep_view().take(i + 1));
        i += 1;
    }
    assert(v.deep_view().take(i as int) =~= v.deep_view());
    r
}

/// A run in progress: the arguments, the branch it is at, its phase, and the merge
/// requests opened so far, in branch order.
pub struct Module {
    pub args: Args,
    pub next: usize,
    pub phase: Phase,
    pub created: Vec<manager::MergeRequest>,
}

impl Module {
    /// A run that has made no call yet.
    pub fn new(args: Args) -> (r: Module)
        ensures
            r.args == args,
            r.next == 0,
            r.phase == first_phase(args.target_branches.len() as int),
            r.created@.len() == 0,
    {
        let phase = if args.target_branches.len() > 0 {
            Phase::Resolving
        } else {
            Phase::Finished
        };
        Module { args, next: 0, phase, created: Vec::new() }
    }

    /// The call to make now, or `None` when the run is over.
    pub fn next_call(&self) -> (r: Option<Call>)
        ensures
            r is None <==> call_of(self.args, self.next as int, self.phase) is None,
            r matches Some(c) ==> call_of(self.args, self.next as int, self.phase) == Some(c@),
    {
        if self.next >= self.args.target_branches.len() {
            return None;
        }
        match self.phase {
            Phase::Resolving => Some(
                Call::Get { url: route_get_projects_by_path(self.args.repository.clone()) },
            ),
            Phase::Submitting { project_id } => {
                let target = &self.args.target_branches[self.next];
                let title = create_title(
                    self.args.title.as_str(),
                    target.as_str(),
                    copy_strings(&self.args.jira_ticket_ids),
                );
                let request = CreateMergeRequestRequest {
                    id: project_id,
                    source_branch: self.args.source_branch.clone(),
                    target_branch: target.clone(),
                    title,
                    description: self.args.description.clone(),
                };
                Some(Call::Post { url: route_create_merge_request(project_id), request })
            },
            _ => None,
        }
    }

    /// Takes in the reply to the project lookup.
    pub fn on_project(&mut self, reply: Reply<Project>) -> (r: Result<Project, ApiError>)
        requires
            old(self).phase == Phase::Resolving,
        ensures
            final(self).args == old(self).args,
            final(self).created == old(self).created,
            (final(self).next as int, final(self).phase) == step(
                old(self).args.target_branches.len() as int,
                old(self).next as int,
                old(self).phase,
                reply_succeeds(reply),
                reply_value(reply).id,
            ),
            r is Ok <==> reply_succeeds(reply),
            r matches Ok(p) ==> p == reply_value(reply),
            r matches Err(e) ==> error_for(project_route(old(self).args.repository@), Method::Get, reply, e),
    {
        let url = route_get_projects_by_path(self.args.repository.clone());
        let r = settle(url, Method::Get, reply);
        match &r {
            Ok(project) => {
                self.phase = Phase::Submitting { project_id: project.id };
            },
            Err(_) => {
                self.phase = Phase::Aborted;
            },
        }
        r
    }

    /// Takes in the reply to the merge request submission.
    pub fn on_merge_request(&mut self, reply: Reply<crate::models::MergeRequest>) -> (r: Result<
        manager::MergeRequest,
        ApiError,
    >)
        requires
            old(self).phase is Submitting,
            old(self).next < old(self).args.target_branches.len(),
        ensures
            final(self).args == old(self).args,
            (final(self).next as int, final(self).phase) == step(
                old(self).args.target_branches.len() as int,
                old(self).next as int,
                old(self).phase,
                reply_succeeds(reply),
                0,
            ),
            r is Ok <==> reply_succeeds(reply),
            r matches Ok(m) ==> {
                &&& m.id == reply_value(reply).id
                &&& m.link@ == reply_value(reply).web_url@
                &&& final(self).created@ == old(self).created@.push(m)
            },
            r matches Err(e) ==> {
                &&& error_for(
                    merge_request_route(old(self).phase->project_id as int),
                    Method::Post,
                    reply,
                    e,
                )
                &&& final(self).created == old(self).created
            },
    {
        let project_id = match self.phase {
            Phase::Submitting { project_id } => project_id,
            _ => 0,
        };
        let url = route_create_merge_request(project_id);
        match settle(url, Method::Post, reply) {
            Ok(response) => {
                let created = manager::MergeRequest::from_response(response);
                self.created.push(
                    manager::MergeRequest { id: created.id, link: created.link.clone() },
                );
                self.next = self.next + 1;
                self.phase = if self.next < self.args.target_branches.len() {
                    Phase::Resolving
                } else {
                    Phase::Finished
                };
                Ok(created)
            },
            Err(e) => {
                self.phase = Phase::Aborted;
                Err(e)
            },
        }
    }
}

/// The phase a run is in when it reaches branch `k` out of `n` with nothing failed.
spec fn phase_at(k: int, n: int) -> Phase {
    if k < n {
        Phase::Resolving
    } else {
        Phase::Finished
    }
}

proof fn lemma_successful_from(args: Args, k: int, answers: Seq<(bool, i64)>)
    requires
        0 <= k <= args.target_branches.len(),
        answers.len() >= 2 * (args.target_branches.len() - k),
        forall|i: int| 0 <= i < answers.len() ==> (#[trigger] answers[i]).0,
    ensures
        ({
            let n = args.target_branches.len() as int;
            let (calls, next, phase) = run(args, k, phase_at(k, n), answers);
            &&& calls.len() == 2 * (n - k)
            &&& next == n
            &&& phase == Phase::Finished
            &&& forall|j: int|
                0 <= j < n - k ==> {
                    &&& #[trigger] calls[2 * j] == CallView::Get {
                        url: project_route(args.repository@),
                    }
                    &&& calls[2 * j + 1] == CallView::Post {
                        url: merge_request_route(answers[2 * j].1 as int),
                        request: request_for(args, args.target_branches[k + j]@, answers[2 * j].1),
                    }
                }
        }),
    decreases args.target_branches.len() - k,
{
    let n = args.target_branches.len() as int;
    if k < n {
        let id = answers[0].1;
        let once = answers.drop_first();
        let rest = answers.subrange(2, answers.len() as int);
        assert(answers[1].0);
        assert(once[0] == answers[1]);
        assert(once.drop_first() =~= rest);
        assert forall|i: int| 0 <= i < rest.len() implies (#[trigger] rest[i]).0 by {
            assert(rest[i] == answers[i + 2]);
        }
        lemma_successful_from(args, k + 1, rest);
        let tail = run(args, k + 1, phase_at(k + 1, n), rest);
        assert(run(args, k, Phase::Submitting { project_id: id }, once).0 == seq![
            CallView::Post {
                url: merge_request_route(id as int),
                request: request_for(args, args.target_branches[k]@, id),
            },
        ] + tail.0);
        let calls = run(args, k, phase_at(k, n), answers).0;
        assert forall|j: int| 0 < j < n - k implies {
            &&& #[trigger] calls[2 * j] == CallView::Get { url: project_route(args.repository@) }
            &&& calls[2 * j + 1] == CallView::Post {
                url: merge_request_route(answers[2 * j].1 as int),
                request: request_for(args, args.target_branches[k + j]@, answers[2 * j].1),
            }
        } by {
            assert(calls[2 * j] == tail.0[2 * (j - 1)]);
            assert(calls[2 * j + 1] == tail.0[2 * (j - 1) + 1]);
            assert(rest[2 * (j - 1)] == answers[2 * j]);
            assert(k + 1 + (j - 1) == k + j);
        }
    }
}

/// A run in which every call succeeds makes exactly two calls per target branch,
/// branch after branch in the order given: the project lookup, then the submission
/// into that branch with the project id the lookup returned. It then has finished,
/// however many more answers there are.
pub proof fn lemma_successful_run(args: Args, answers: Seq<(bool, i64)>)
    requires
        answers.len() >= 2 * args.target_branches.len(),
        forall|i: int| 0 <= i < answers.len() ==> (#[trigger] answers[i]).0,
    ensures
        ({
            let n = args.target_branches.len() as int;
            let (calls, next, phase) = run(args, 0, first_phase(n), answers);
            &&& calls.len() == 2 * n
            &&& next == n
            &&& phase == Phase::Finished
            &&& forall|k: int|
                0 <= k < n ==> {
                    &&& #[trigger] calls[2 * k] == CallView::Get {
                        url: project_route(args.repository@),
                    }
                    &&& calls[2 * k + 1] == CallView::Post {
                        url: merge_request_route(answers[2 * k].1 as int),
                        request: request_for(args, args.target_branches[k]@, answers[2 * k].1),
                    }
                }
        }),
{
    lemma_successful_from(args, 0, answers);
}

proof fn lemma_failure_from(args: Args, k: int, answers: Seq<(bool, i64)>, j: int)
    requires
        0 <= k < args.target_branches.len(),
        0 <= j < answers.len(),
        j < 2 * (args.target_branches.len() - k),
        forall|i: int| 0 <= i < j ==> (#[trigger] answers[i]).0,
        !answers[j].0,
    ensures
        run(args, k, Phase::Resolving, answers).0.len() == j + 1,
        run(args, k, Phase::Resolving, answers).2 == Phase::Aborted,
    decreases j,
{
    let n = args.target_branches.len() as int;
    let once = answers.drop_first();
    if j == 0 {
        assert(run(args, k, Phase::Aborted, once).0.len() == 0);
    } else {
        let id = answers[0].1;
        assert(once[0] == answers[1]);
        let twice = once.drop_first();
        if j == 1 {
            assert(run(args, k, Phase::Aborted, twice).0.len() == 0);
            assert(run(args, k, Phase::Submitting { project_id: id }, once).0.len() == 1);
        } else {
            let rest = answers.subrange(2, answers.len() as int);
            assert(twice =~= rest);
            assert(answers[1].0);
            assert forall|i: int| 0 <= i < j - 2 implies (#[trigger] rest[i]).0 by {
                assert(rest[i] == answers[i + 2]);
            }
            assert(rest[j - 2] == answers[j]);
            lemma_failure_from(args, k + 1, rest, j - 2);
            assert(phase_at(k + 1, n) == Phase::Resolving);
        }
    }
}

/// A run stops at its first failed call, whatever the failure: that call is the
/// last one made, the branches after it are never attempted, and the run is aborted.
pub proof fn lemma_failure_stops_run(args: Args, answers: Seq<(bool, i64)>, j: int)
    requires
        0 <= j < answers.len(),
        j < 2 * args.target_branches.len(),
        forall|i: int| 0 <= i < j ==> (#[trigger] answers[i]).0,
        !answers[j].0,
    ensures
        run(args, 0, first_phase(args.target_branches.len() as int), answers).0.len() == j + 1,
        run(args, 0, first_phase(args.target_branches.len() as int), answers).2 == Phase::Aborted,
{
    lemma_failure_from(args, 0, answers, j);
}

} // verus!
