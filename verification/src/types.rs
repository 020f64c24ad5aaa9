//! Read-only snapshots of remote resources: repositories, file-tree nodes,
//! issues, comments and pull requests. A later fetch fully replaces the
//! previous snapshot for the same identifier; nothing here is reconciled
//! incrementally.

use vstd::prelude::*;

verus! {

/// A repository summary as shown in the repository list.
#[derive(Debug, Clone, PartialEq)]
pub struct RepoData {
    pub name: String,
    /// `owner/repo` form, as the remote API addresses it.
    pub full_name: String,
    pub description: String,
    pub is_private: bool,
    pub last_updated: String,
    pub stars_count: u32,
    pub forks_count: u32,
}

/// A file or directory node in a repository listing.
#[derive(Debug, Clone, PartialEq)]
pub struct FileNode {
    pub name: String,
    pub path: String,
    /// `"file"` or `"dir"`.
    pub node_type: String,
    pub download_url: Option<String>,
    pub size: u64,
}

/// Repository metadata (stars, forks, topics, license).
#[derive(Debug, Clone, PartialEq)]
pub struct RepoInfo {
    pub description: Option<String>,
    pub stargazers_count: u32,
    pub forks_count: u32,
    pub watchers_count: u32,
    pub language: Option<String>,
    pub topics: Vec<String>,
    pub license: Option<LicenseInfo>,
    pub open_issues_count: u32,
    pub default_branch: String,
}

#[derive(Debug, Clone, PartialEq)]
pub struct LicenseInfo {
    pub name: String,
}

/// One page of repository search results.
#[derive(Debug, Clone, PartialEq)]
pub struct SearchResult {
    pub total_count: u32,
    pub incomplete_results: bool,
    pub items: Vec<SearchRepoItem>,
}

/// A repository as returned by the search endpoint.
#[derive(Debug, Clone, PartialEq)]
pub struct SearchRepoItem {
    pub id: u64,
    pub name: String,
    pub full_name: String,
    pub description: Option<String>,
    pub is_private: bool,
    pub stargazers_count: u32,
    pub forks_count: u32,
    pub language: Option<String>,
    pub topics: Vec<String>,
    pub html_url: String,
    pub owner: RepoOwner,
}

#[derive(Debug, Clone, PartialEq)]
pub struct RepoOwner {
    pub login: String,
    pub avatar_url: String,
}

/// An issue snapshot. The issues endpoint returns pull requests as a
/// superset of issues; an entry that is really a pull request carries a
/// pull-request marker in `pull_request`.
#[derive(Debug, Clone, PartialEq)]
pub struct Issue {
    pub id: u64,
    pub number: u32,
    pub title: String,
    pub body: Option<String>,
    /// `"open"` or `"closed"`.
    pub state: String,
    pub user: IssueUser,
    pub labels: Vec<IssueLabel>,
    pub created_at: String,
    pub updated_at: String,
    pub comments: u32,
    pub html_url: String,
    /// The pull-request marker: the URL of the associated pull request,
    /// present exactly when this entry is a pull request, not an issue.
    pub pull_request: Option<String>,
}

#[derive(Debug, Clone, PartialEq)]
pub struct IssueUser {
    pub login: String,
    pub avatar_url: String,
}

#[derive(Debug, Clone, PartialEq)]
pub struct IssueLabel {
    pub name: String,
    pub color: String,
    pub description: Option<String>,
}

/// A comment on an issue.
#[derive(Debug, Clone, PartialEq)]
pub struct IssueComment {
    pub id: u64,
    pub body: String,
    pub user: IssueUser,
    pub created_at: String,
    pub updated_at: String,
}

/// A pull-request snapshot.
#[derive(Debug, Clone, PartialEq)]
pub struct PullRequest {
    pub id: u64,
    pub number: u32,
    pub title: String,
    pub body: Option<String>,
    /// `"open"` or `"closed"`.
    pub state: String,
    pub user: IssueUser,
    pub labels: Vec<IssueLabel>,
    pub created_at: String,
    pub updated_at: String,
    pub html_url: String,
    pub head: PullRequestRef,
    pub base: PullRequestRef,
    pub merged: bool,
    pub mergeable: Option<bool>,
    pub mergeable_state: Option<String>,
    pub comments: u32,
    pub commits: u32,
    pub additions: u32,
    pub deletions: u32,
    pub changed_files: u32,
}

#[derive(Debug, Clone, PartialEq)]
pub struct PullRequestRef {
    pub label: String,
    pub ref_name: String,
    pub sha: String,
}

/// The outcome reported by the pull-request merge endpoint.
#[derive(Debug, Clone, PartialEq)]
pub struct MergeResult {
    pub sha: String,
    pub merged: bool,
    pub message: String,
}

} // verus!
