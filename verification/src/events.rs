//! The command bridge's vocabulary: Actions issued by the UI and Events
//! issued by backend work units. Both are immutable once constructed.

use vstd::prelude::*;
use crate::auth::DeviceCodeResponse;
use crate::types::FileNode;
use crate::types::Issue;
use crate::types::IssueComment;
use crate::types::MergeResult;
use crate::types::PullRequest;
use crate::types::RepoData;
use crate::types::RepoInfo;
use crate::types::SearchRepoItem;

verus! {

/// A command issued by the UI to the backend.
#[derive(Debug, Clone, PartialEq)]
pub enum AppAction {
    Login,
    /// Accepted, with no effect on in-flight work.
    Cancel,
    FetchRepos,
    /// Browse a repository, by its `owner/repo` name.
    SelectRepo(String),
    /// Fetch directory contents: `(full_name, path)`.
    FetchDir(String, String),
    /// Fetch raw file content by its download URL.
    ReadFile(String),
    /// Search repositories by query.
    SearchRepos(String),
    /// `(full_name, state)` with state `"open"`, `"closed"` or `"all"`.
    FetchIssues(String, String),
    /// `(full_name, issue_number)`.
    FetchIssueComments(String, u32),
    /// `(full_name, issue_number, body)`.
    CreateComment(String, u32, String),
    /// `(full_name, issue_number, state)`.
    UpdateIssueState(String, u32, String),
    /// `(full_name, state)`.
    FetchPullRequests(String, String),
    /// `(full_name, pr_number, merge_method)`.
    MergePullRequest(String, u32, String),
    /// `(full_name, pr_number)`.
    ClosePullRequest(String, u32),
}

/// A notification issued by a backend work unit to the UI.
#[derive(Debug, Clone, PartialEq)]
pub enum AppEvent {
    Log(String),
    DeviceCode(DeviceCodeResponse),
    AuthSuccess(String),
    Error(String),
    RepoList(Vec<RepoData>),
    /// `(current_path, nodes)`.
    FileTree(String, Vec<FileNode>),
    /// `(filename, content)`.
    FileContent(String, String),
    RepoInfoLoaded(RepoInfo),
    ReadmeLoaded(String),
    SearchResults(Vec<SearchRepoItem>),
    IssueList(Vec<Issue>),
    /// `(issue_number, comments)`.
    IssueComments(u32, Vec<IssueComment>),
    CommentCreated(IssueComment),
    IssueUpdated(Issue),
    PullRequestList(Vec<PullRequest>),
    PullRequestMerged(MergeResult),
    PullRequestClosed(PullRequest),
}

/// Whether an event ends a work unit's conversation with the UI: a failure
/// or a success-shaped result, as opposed to an intermediate log line or the
/// device-code prompt that polling follows.
pub open spec fn is_terminal_event(e: AppEvent) -> bool {
    !(e is Log || e is DeviceCode)
}

/// How many terminal events a trace holds.
pub open spec fn count_terminal(es: Seq<AppEvent>) -> nat
    decreases es.len(),
{
    if es.len() == 0 {
        0
    } else {
        count_terminal(es.drop_last()) + if is_terminal_event(es.last()) {
            1nat
        } else {
            0nat
        }
    }
}

/// How many `AuthSuccess` events a trace holds.
pub open spec fn count_auth_success(es: Seq<AppEvent>) -> nat
    decreases es.len(),
{
    if es.len() == 0 {
        0
    } else {
        count_auth_success(es.drop_last()) + if es.last() is AuthSuccess {
            1nat
        } else {
            0nat
        }
    }
}

/// Whether one event counts as terminal, as a summand.
pub open spec fn terminal_ind(e: AppEvent) -> nat {
    if is_terminal_event(e) {
        1nat
    } else {
        0nat
    }
}

/// Whether one event is an `AuthSuccess`, as a summand.
pub open spec fn auth_success_ind(e: AppEvent) -> nat {
    if e is AuthSuccess {
        1nat
    } else {
        0nat
    }
}

/// Spells the two counts out for traces of up to three events.
pub proof fn lemma_counts_upto3(es: Seq<AppEvent>)
    requires
        es.len() <= 3,
    ensures
        es.len() == 0 ==> count_terminal(es) == 0 && count_auth_success(es) == 0,
        es.len() == 1 ==> count_terminal(es) == terminal_ind(es[0]) && count_auth_success(es)
            == auth_success_ind(es[0]),
        es.len() == 2 ==> count_terminal(es) == terminal_ind(es[0]) + terminal_ind(es[1])
            && count_auth_success(es) == auth_success_ind(es[0]) + auth_success_ind(es[1]),
        es.len() == 3 ==> count_terminal(es) == terminal_ind(es[0]) + terminal_ind(es[1])
            + terminal_ind(es[2]) && count_auth_success(es) == auth_success_ind(es[0])
            + auth_success_ind(es[1]) + auth_success_ind(es[2]),
    decreases es.len(),
{
    if es.len() > 0 {
        lemma_counts_upto3(es.drop_last());
    }
}

/// A trace with a terminal event somewhere holds at least one.
pub proof fn lemma_terminal_at_index(es: Seq<AppEvent>, k: int)
    requires
        0 <= k < es.len(),
        is_terminal_event(es[k]),
    ensures
        count_terminal(es) >= 1,
    decreases es.len(),
{
    if k < es.len() - 1 {
        lemma_terminal_at_index(es.drop_last(), k);
    }
}

/// Terminal-event counting distributes over concatenation.
pub proof fn lemma_count_terminal_concat(a: Seq<AppEvent>, b: Seq<AppEvent>)
    ensures
        count_terminal(a + b) == count_terminal(a) + count_terminal(b),
    decreases b.len(),
{
    if b.len() == 0 {
        assert(a + b =~= a);
    } else {
        lemma_count_terminal_concat(a, b.drop_last());
        assert((a + b).drop_last() =~= a + b.drop_last());
        assert((a + b).last() == b.last());
    }
}

/// `AuthSuccess` counting distributes over concatenation.
pub proof fn lemma_count_auth_success_concat(a: Seq<AppEvent>, b: Seq<AppEvent>)
    ensures
        count_auth_success(a + b) == count_auth_success(a) + count_auth_success(b),
    decreases b.len(),
{
    if b.len() == 0 {
        assert(a + b =~= a);
    } else {
        lemma_count_auth_success_concat(a, b.drop_last());
        assert((a + b).drop_last() =~= a + b.drop_last());
        assert((a + b).last() == b.last());
    }
}

} // verus!
