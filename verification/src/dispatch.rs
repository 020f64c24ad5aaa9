//! The command bridge's decision half. Each Action's work unit alternates
//! I/O with decisions; the I/O (HTTP, the external CLI, the credential
//! store) lives outside, and every decision — what to announce, what to
//! request, how to turn an outcome into events — stands here, one `start_*`
//! and one `finish_*` function per Action. Every failure path ends in
//! exactly one `Error` event; no work unit fails silently.

use vstd::prelude::*;
use vstd::string::StringExecFns;
use crate::auth::is_continuing_reply;
use crate::auth::run_login;
use crate::auth::spec_poll_failure;
use crate::auth::DeviceCodeResponse;
use crate::auth::PollResponse;
use crate::engine::listing_converted;
use crate::engine::repos_from_listing;
use crate::engine::RepoListing;
use crate::errors::spec_message;
use crate::errors::FetchError;
use crate::events::count_terminal;
use crate::events::is_terminal_event;
use crate::events::lemma_terminal_at_index;
use crate::events::AppAction;
use crate::events::AppEvent;
use crate::rest::is_last_segment_of;
use crate::rest::is_owner_repo_form;
use crate::rest::last_path_segment;
use crate::rest::parse_full_name;
use crate::rest::splits_owner_repo;
use crate::strutil::spec_decimal;
use crate::strutil::str_eq_str;
use crate::strutil::u32_to_string;
use crate::strutil::u64_to_string;
use crate::types::FileNode;
use crate::types::Issue;
use crate::types::IssueComment;
use crate::types::MergeResult;
use crate::types::PullRequest;
use crate::types::RepoInfo;
use crate::types::SearchResult;

verus! {

/// The beginning of a work unit that needs only a token: its announcement,
/// and whether the request may proceed.
#[derive(Debug, Clone, PartialEq)]
pub struct WorkStart {
    pub events: Vec<AppEvent>,
    pub proceed: bool,
}

/// The beginning of a work unit scoped to one repository: its announcement,
/// and the parsed `(owner, repo)` pair when the prerequisites hold.
#[derive(Debug, Clone, PartialEq)]
pub struct RepoWorkStart {
    pub events: Vec<AppEvent>,
    pub target: Option<(String, String)>,
}

/// The shape every token-scoped `start_*` has: the announcement first; with
/// a token, nothing else; without one, exactly one failure event and no
/// request.
pub open spec fn token_start_shape(
    r: WorkStart,
    log: Seq<char>,
    no_token: Seq<char>,
    has_token: bool,
) -> bool {
    &&& r.events.len() >= 1
    &&& (r.events[0] matches AppEvent::Log(m) && m@ == log)
    &&& has_token ==> r.events.len() == 1 && r.proceed
    &&& !has_token ==> r.events.len() == 2 && (r.events[1] matches AppEvent::Error(m) && m@
        == no_token) && !r.proceed
}

/// The shape every repository-scoped `start_*` has: the announcement first;
/// then either the parsed target, or — without a token, or with a malformed
/// `owner/repo` identifier — exactly one failure event and no target, the
/// engine never consulted.
pub open spec fn repo_start_shape(
    r: RepoWorkStart,
    log: Seq<char>,
    no_token: Seq<char>,
    invalid: Seq<char>,
    full_name: Seq<char>,
    has_token: bool,
) -> bool {
    &&& r.events.len() >= 1
    &&& (r.events[0] matches AppEvent::Log(m) && m@ == log)
    &&& !has_token ==> r.events.len() == 2 && (r.events[1] matches AppEvent::Error(m) && m@
        == no_token) && r.target is None
    &&& has_token && !is_owner_repo_form(full_name) ==> r.events.len() == 2 && (r.events[1] matches
        AppEvent::Error(m) && m@ == invalid) && r.target is None
    &&& has_token && is_owner_repo_form(full_name) ==> r.events.len() == 1 && (r.target matches Some(
        p,
    ) && splits_owner_repo(full_name, p.0@, p.1@))
}

fn token_prelude(log_line: String, no_token_msg: &str, has_token: bool) -> (r: WorkStart)
    ensures
        token_start_shape(r, log_line@, no_token_msg@, has_token),
{
    let mut events: Vec<AppEvent> = Vec::new();
    events.push(AppEvent::Log(log_line));
    if has_token {
        WorkStart { events, proceed: true }
    } else {
        events.push(AppEvent::Error(String::from_str(no_token_msg)));
        WorkStart { events, proceed: false }
    }
}

fn repo_prelude(
    log_line: String,
    no_token_msg: &str,
    invalid_msg: &str,
    full_name: &str,
    has_token: bool,
) -> (r: RepoWorkStart)
    ensures
        repo_start_shape(r, log_line@, no_token_msg@, invalid_msg@, full_name@, has_token),
{
    let mut events: Vec<AppEvent> = Vec::new();
    events.push(AppEvent::Log(log_line));
    if !has_token {
        events.push(AppEvent::Error(String::from_str(no_token_msg)));
        return RepoWorkStart { events, target: None };
    }
    match parse_full_name(full_name) {
        Some(p) => RepoWorkStart { events, target: Some(p) },
        None => {
            events.push(AppEvent::Error(String::from_str(invalid_msg)));
            RepoWorkStart { events, target: None }
        },
    }
}

/// One failure event, the error rendered behind its announcement prefix.
fn error_events(prefix: &str, e: FetchError) -> (r: Vec<AppEvent>)
    ensures
        r.len() == 1,
        r[0] matches AppEvent::Error(m) && m@ == prefix@ + spec_message(e),
{
    let mut m = String::from_str(prefix);
    let msg = e.message();
    m.append(msg.as_str());
    let mut events: Vec<AppEvent> = Vec::new();
    events.push(AppEvent::Error(m));
    events
}

/// Begins a `FetchRepos` work unit: the CLI engine needs no token, so the
/// announcement is all there is.
pub fn start_fetch_repos() -> (r: WorkStart)
    ensures
        r.events.len() == 1,
        r.events[0] matches AppEvent::Log(m) && m@ == "FETCHING REPOS VIA GH CLI..."@,
        r.proceed,
{
    let mut events: Vec<AppEvent> = Vec::new();
    events.push(AppEvent::Log(String::from_str("FETCHING REPOS VIA GH CLI...")));
    WorkStart { events, proceed: true }
}

/// Ends a `FetchRepos` work unit: the listing converted and counted, or the
/// CLI failure surfaced verbatim.
pub fn finish_fetch_repos(outcome: Result<Vec<RepoListing>, String>) -> (r: Vec<AppEvent>)
    ensures
        outcome matches Ok(raw) ==> {
            &&& r.len() == 2
            &&& (r[0] matches AppEvent::Log(m) && m@ == "FOUND "@ + spec_decimal(raw.len() as nat)
                + " REPOSITORIES."@)
            &&& (r[1] matches AppEvent::RepoList(rs) && rs.len() == raw.len() && (forall|i: int|
                0 <= i < raw.len() ==> listing_converted(raw[i], rs[i])))
        },
        outcome matches Err(e) ==> {
            &&& r.len() == 1
            &&& (r[0] matches AppEvent::Error(m) && m@ == "FETCH FAILED: "@ + e@)
        },
{
    let mut events: Vec<AppEvent> = Vec::new();
    match outcome {
        Ok(raw) => {
            let repos = repos_from_listing(&raw);
            let mut m = String::from_str("FOUND ");
            let n = u64_to_string(repos.len() as u64);
            m.append(n.as_str());
            m.append(" REPOSITORIES.");
            proof {
                assert(m@ =~= "FOUND "@ + spec_decimal(raw@.len()) + " REPOSITORIES."@);
            }
            events.push(AppEvent::Log(m));
            events.push(AppEvent::RepoList(repos));
            events
        },
        Err(e) => {
            let mut m = String::from_str("FETCH FAILED: ");
            m.append(e.as_str());
            events.push(AppEvent::Error(m));
            events
        },
    }
}

/// Begins a `SelectRepo` work unit.
pub fn start_select_repo(full_name: &String, has_token: bool) -> (r: RepoWorkStart)
    ensures
        repo_start_shape(
            r,
            "正在浏览仓库: "@ + full_name@ + "..."@,
            "无法获取 Token (请确保已登录 gh CLI)"@,
            "仓库名格式错误"@,
            full_name@,
            has_token,
        ),
{
    let mut log = String::from_str("正在浏览仓库: ");
    log.append(full_name.as_str());
    log.append("...");
    proof {
        assert(log@ =~= "正在浏览仓库: "@ + full_name@ + "..."@);
    }
    repo_prelude(
        log,
        "无法获取 Token (请确保已登录 gh CLI)",
        "仓库名格式错误",
        full_name.as_str(),
        has_token,
    )
}

/// A node whose name begins with `readme`, in any letter case, and which
/// carries a content URL: the root listing's README candidate.
pub open spec fn is_readme_node(n: FileNode) -> bool {
    &&& n.name@.len() >= 6
    &&& (n.name@[0] == 'r' || n.name@[0] == 'R')
    &&& (n.name@[1] == 'e' || n.name@[1] == 'E')
    &&& (n.name@[2] == 'a' || n.name@[2] == 'A')
    &&& (n.name@[3] == 'd' || n.name@[3] == 'D')
    &&& (n.name@[4] == 'm' || n.name@[4] == 'M')
    &&& (n.name@[5] == 'e' || n.name@[5] == 'E')
    &&& n.download_url is Some
}

fn readme_node(n: &FileNode) -> (r: bool)
    ensures
        r == is_readme_node(*n),
{
    let name = n.name.as_str();
    if name.unicode_len() < 6 {
        return false;
    }
    let c0 = name.get_char(0);
    let c1 = name.get_char(1);
    let c2 = name.get_char(2);
    let c3 = name.get_char(3);
    let c4 = name.get_char(4);
    let c5 = name.get_char(5);
    (c0 == 'r' || c0 == 'R') && (c1 == 'e' || c1 == 'E') && (c2 == 'a' || c2 == 'A') && (c3 == 'd'
        || c3 == 'D') && (c4 == 'm' || c4 == 'M') && (c5 == 'e' || c5 == 'E')
        && n.download_url.is_some()
}

/// The content URL of the first README candidate of a listing, if any.
pub fn find_readme_url(files: &Vec<FileNode>) -> (r: Option<String>)
    ensures
        r is Some <==> exists|i: int| 0 <= i < files.len() && is_readme_node(files[i]),
        r matches Some(u) ==> {
            exists|i: int|
                {
                    &&& 0 <= i < files.len()
                    &&& is_readme_node(files[i])
                    &&& (forall|k: int| 0 <= k < i ==> !is_readme_node(files[k]))
                    &&& u == files[i].download_url->0
                }
        },
{
    let mut i: usize = 0;
    while i < files.len()
        invariant
            i <= files.len(),
            forall|k: int| 0 <= k < i ==> !is_readme_node(files[k]),
        decreases files.len() - i,
    {
        if readme_node(&files[i]) {
            match &files[i].download_url {
                Some(u) => {
                    return Some(u.clone());
                },
                None => {
                    proof {
                        assert(false);
                    }
                },
            }
        }
        i = i + 1;
    }
    None
}

/// Ends the listing half of a `SelectRepo` work unit: the tree counted and
/// surfaced — the `FileTree` event always precedes any README work — and
/// the README's URL handed back for the one follow-up read, when a
/// candidate exists. A failed listing is exactly one failure event.
pub fn finish_select_tree(outcome: Result<Vec<FileNode>, FetchError>) -> (r: (
    Vec<AppEvent>,
    Option<String>,
))
    ensures
        outcome matches Ok(files) ==> {
            &&& (r.0[0] matches AppEvent::Log(m) && m@ == "找到 "@ + spec_decimal(files.len() as nat)
                + " 个文件/目录"@)
            &&& (r.0[1] matches AppEvent::FileTree(p, fs) && p@ == Seq::<char>::empty() && fs
                == files)
            &&& (r.1 is Some <==> exists|i: int|
                0 <= i < files.len() && is_readme_node(files[i]))
            &&& (r.1 matches Some(u) ==> {
                &&& r.0.len() == 3
                &&& (r.0[2] matches AppEvent::Log(m) && m@ == "正在加载 README..."@)
                &&& exists|i: int|
                    {
                        &&& 0 <= i < files.len()
                        &&& is_readme_node(files[i])
                        &&& (forall|k: int| 0 <= k < i ==> !is_readme_node(files[k]))
                        &&& u == files[i].download_url->0
                    }
            })
            &&& (r.1 is None ==> r.0.len() == 2)
        },
        outcome matches Err(e) ==> {
            &&& r.0.len() == 1
            &&& (r.0[0] matches AppEvent::Error(m) && m@ == "获取文件列表失败: "@
                + spec_message(e))
            &&& r.1 is None
        },
{
    match outcome {
        Ok(files) => {
            let readme = find_readme_url(&files);
            let mut events: Vec<AppEvent> = Vec::new();
            let mut m = String::from_str("找到 ");
            let n = u64_to_string(files.len() as u64);
            m.append(n.as_str());
            m.append(" 个文件/目录");
            proof {
                assert(m@ =~= "找到 "@ + spec_decimal(files@.len()) + " 个文件/目录"@);
            }
            events.push(AppEvent::Log(m));
            events.push(AppEvent::FileTree(String::new(), files));
            if readme.is_some() {
                events.push(AppEvent::Log(String::from_str("正在加载 README...")));
            }
            (events, readme)
        },
        Err(e) => (error_events("获取文件列表失败: ", e), None),
    }
}

/// Ends the README follow-up: its content surfaced, a failure passed over —
/// the preview is best-effort.
pub fn finish_select_readme(outcome: Result<String, FetchError>) -> (r: Vec<AppEvent>)
    ensures
        outcome matches Ok(content) ==> r.len() == 1 && r[0] == AppEvent::ReadmeLoaded(content),
        outcome is Err ==> r.len() == 0,
{
    let mut events: Vec<AppEvent> = Vec::new();
    match outcome {
        Ok(content) => {
            events.push(AppEvent::ReadmeLoaded(content));
            events
        },
        Err(_) => events,
    }
}

/// Ends the metadata half of a `SelectRepo` work unit: stars and forks
/// announced and the snapshot surfaced, a failure passed over.
pub fn finish_select_info(outcome: Result<RepoInfo, FetchError>) -> (r: Vec<AppEvent>)
    ensures
        outcome matches Ok(info) ==> {
            &&& r.len() == 2
            &&& (r[0] matches AppEvent::Log(m) && m@ == "⭐ "@ + spec_decimal(
                info.stargazers_count as nat,
            ) + " | 🍴 "@ + spec_decimal(info.forks_count as nat))
            &&& r[1] == AppEvent::RepoInfoLoaded(info)
        },
        outcome is Err ==> r.len() == 0,
{
    let mut events: Vec<AppEvent> = Vec::new();
    match outcome {
        Ok(info) => {
            let mut m = String::from_str("⭐ ");
            let s = u32_to_string(info.stargazers_count);
            m.append(s.as_str());
            m.append(" | 🍴 ");
            let f = u32_to_string(info.forks_count);
            m.append(f.as_str());
            proof {
                assert(m@ =~= "⭐ "@ + spec_decimal(info.stargazers_count as nat) + " | 🍴 "@
                    + spec_decimal(info.forks_count as nat));
            }
            events.push(AppEvent::Log(m));
            events.push(AppEvent::RepoInfoLoaded(info));
            events
        },
        Err(_) => events,
    }
}

/// Begins a `FetchDir` work unit.
pub fn start_fetch_dir(full_name: &String, path: &String, has_token: bool) -> (r: RepoWorkStart)
    ensures
        repo_start_shape(
            r,
            "正在加载目录: /"@ + path@,
            "无法获取 Token"@,
            "无效的仓库名"@,
            full_name@,
            has_token,
        ),
{
    let mut log = String::from_str("正在加载目录: /");
    log.append(path.as_str());
    repo_prelude(log, "无法获取 Token", "无效的仓库名", full_name.as_str(), has_token)
}

/// Ends a `FetchDir` work unit.
pub fn finish_fetch_dir(path: String, outcome: Result<Vec<FileNode>, FetchError>) -> (r: Vec<
    AppEvent,
>)
    ensures
        outcome matches Ok(files) ==> r.len() == 1 && r[0] == AppEvent::FileTree(path, files),
        outcome matches Err(e) ==> r.len() == 1 && (r[0] matches AppEvent::Error(m) && m@
            == "加载目录失败: "@ + spec_message(e)),
{
    match outcome {
        Ok(files) => {
            let mut events: Vec<AppEvent> = Vec::new();
            events.push(AppEvent::FileTree(path, files));
            events
        },
        Err(e) => error_events("加载目录失败: ", e),
    }
}

/// Begins a `ReadFile` work unit.
pub fn start_read_file(has_token: bool) -> (r: WorkStart)
    ensures
        token_start_shape(r, "正在读取文件内容..."@, "无法获取 Token"@, has_token),
{
    token_prelude(String::from_str("正在读取文件内容..."), "无法获取 Token", has_token)
}

/// Ends a `ReadFile` work unit: the content surfaced under the file's name —
/// what stands under the URL's last slash.
pub fn finish_read_file(download_url: &String, outcome: Result<String, FetchError>) -> (r: Vec<
    AppEvent,
>)
    ensures
        outcome matches Ok(content) ==> {
            &&& r.len() == 2
            &&& (exists|name: Seq<char>|
                {
                    &&& is_last_segment_of(name, download_url@)
                    &&& (r[0] matches AppEvent::Log(m) && m@ == "文件 "@ + name + " 已加载"@)
                    &&& (r[1] matches AppEvent::FileContent(nm, c) && nm@ == name && c == content)
                })
        },
        outcome matches Err(e) ==> r.len() == 1 && (r[0] matches AppEvent::Error(m) && m@
            == "读取文件失败: "@ + spec_message(e)),
{
    match outcome {
        Ok(content) => {
            let name = last_path_segment(download_url.as_str());
            let mut m = String::from_str("文件 ");
            m.append(name.as_str());
            m.append(" 已加载");
            proof {
                assert(m@ =~= "文件 "@ + name@ + " 已加载"@);
            }
            let mut events: Vec<AppEvent> = Vec::new();
            events.push(AppEvent::Log(m));
            events.push(AppEvent::FileContent(name, content));
            events
        },
        Err(e) => error_events("读取文件失败: ", e),
    }
}

/// Begins a `SearchRepos` work unit.
pub fn start_search(query: &String, has_token: bool) -> (r: WorkStart)
    ensures
        token_start_shape(
            r,
            "正在搜索: "@ + query@ + "..."@,
            "无法获取 Token"@,
            has_token,
        ),
{
    let mut log = String::from_str("正在搜索: ");
    log.append(query.as_str());
    log.append("...");
    proof {
        assert(log@ =~= "正在搜索: "@ + query@ + "..."@);
    }
    token_prelude(log, "无法获取 Token", has_token)
}

/// Ends a `SearchRepos` work unit: the total announced, the items surfaced.
pub fn finish_search(outcome: Result<SearchResult, FetchError>) -> (r: Vec<AppEvent>)
    ensures
        outcome matches Ok(res) ==> {
            &&& r.len() == 2
            &&& (r[0] matches AppEvent::Log(m) && m@ == "找到 "@ + spec_decimal(
                res.total_count as nat,
            ) + " 个仓库"@)
            &&& (r[1] matches AppEvent::SearchResults(items) && items == res.items)
        },
        outcome matches Err(e) ==> r.len() == 1 && (r[0] matches AppEvent::Error(m) && m@
            == "搜索失败: "@ + spec_message(e)),
{
    match outcome {
        Ok(res) => {
            let mut m = String::from_str("找到 ");
            let n = u32_to_string(res.total_count);
            m.append(n.as_str());
            m.append(" 个仓库");
            proof {
                assert(m@ =~= "找到 "@ + spec_decimal(res.total_count as nat) + " 个仓库"@);
            }
            let mut events: Vec<AppEvent> = Vec::new();
            events.push(AppEvent::Log(m));
            events.push(AppEvent::SearchResults(res.items));
            events
        },
        Err(e) => error_events("搜索失败: ", e),
    }
}

/// The issues the UI lists: the raw entries without a pull-request marker,
/// in their original order. The issues endpoint returns pull requests as a
/// superset of issues; the marked entries are the pull requests.
pub open spec fn spec_keep_issues(s: Seq<Issue>) -> Seq<Issue>
    decreases s.len(),
{
    if s.len() == 0 {
        Seq::empty()
    } else if s[0].pull_request is None {
        seq![s[0]] + spec_keep_issues(s.drop_first())
    } else {
        spec_keep_issues(s.drop_first())
    }
}

/// Everything the filter keeps is free of the marker.
pub proof fn lemma_kept_issues_plain(s: Seq<Issue>)
    ensures
        forall|k: int|
            0 <= k < spec_keep_issues(s).len() ==> spec_keep_issues(s)[k].pull_request is None,
    decreases s.len(),
{
    if s.len() > 0 {
        lemma_kept_issues_plain(s.drop_first());
    }
}

/// Drops every entry that carries a pull-request marker, keeping the rest
/// in order.
pub fn filter_issues(issues: Vec<Issue>) -> (r: Vec<Issue>)
    ensures
        r@ == spec_keep_issues(issues@),
{
    let ghost original = issues@;
    let mut rest = issues;
    let mut out: Vec<Issue> = Vec::new();
    while rest.len() > 0
        invariant
            out@ + spec_keep_issues(rest@) =~= spec_keep_issues(original),
        decreases rest.len(),
    {
        let ghost before = rest@;
        let head = rest.remove(0);
        proof {
            assert(rest@ =~= before.drop_first());
            assert(head == before[0]);
        }
        if head.pull_request.is_none() {
            proof {
                assert(spec_keep_issues(before) =~= seq![head] + spec_keep_issues(rest@));
            }
            out.push(head);
        } else {
            proof {
                assert(spec_keep_issues(before) =~= spec_keep_issues(rest@));
            }
        }
    }
    proof {
        assert(spec_keep_issues(rest@) =~= Seq::<Issue>::empty());
        assert(out@ =~= spec_keep_issues(original));
    }
    out
}

/// Begins a `FetchIssues` work unit.
pub fn start_fetch_issues(full_name: &String, has_token: bool) -> (r: RepoWorkStart)
    ensures
        repo_start_shape(
            r,
            "正在获取 "@ + full_name@ + " 的 Issues..."@,
            "无法获取 Token"@,
            "无效的仓库名"@,
            full_name@,
            has_token,
        ),
{
    let mut log = String::from_str("正在获取 ");
    log.append(full_name.as_str());
    log.append(" 的 Issues...");
    proof {
        assert(log@ =~= "正在获取 "@ + full_name@ + " 的 Issues..."@);
    }
    repo_prelude(log, "无法获取 Token", "无效的仓库名", full_name.as_str(), has_token)
}

/// Ends a `FetchIssues` work unit: the marked entries excluded, the rest
/// counted and surfaced.
pub fn finish_fetch_issues(outcome: Result<Vec<Issue>, FetchError>) -> (r: Vec<AppEvent>)
    ensures
        outcome matches Ok(issues) ==> {
            &&& r.len() == 2
            &&& (r[0] matches AppEvent::Log(m) && m@ == "找到 "@ + spec_decimal(
                spec_keep_issues(issues@).len(),
            ) + " 个 Issues"@)
            &&& (r[1] matches AppEvent::IssueList(kept) && kept@ == spec_keep_issues(issues@))
        },
        outcome matches Err(e) ==> r.len() == 1 && (r[0] matches AppEvent::Error(m) && m@
            == "获取 Issues 失败: "@ + spec_message(e)),
{
    match outcome {
        Ok(issues) => {
            let kept = filter_issues(issues);
            let mut m = String::from_str("找到 ");
            let n = u64_to_string(kept.len() as u64);
            m.append(n.as_str());
            m.append(" 个 Issues");
            proof {
                assert(m@ =~= "找到 "@ + spec_decimal(kept@.len()) + " 个 Issues"@);
            }
            let mut events: Vec<AppEvent> = Vec::new();
            events.push(AppEvent::Log(m));
            events.push(AppEvent::IssueList(kept));
            events
        },
        Err(e) => error_events("获取 Issues 失败: ", e),
    }
}

/// Begins a `FetchIssueComments` work unit.
pub fn start_fetch_issue_comments(full_name: &String, number: u32, has_token: bool) -> (r:
    RepoWorkStart)
    ensures
        repo_start_shape(
            r,
            "正在获取 Issue #"@ + spec_decimal(number as nat) + " 的评论..."@,
            "无法获取 Token"@,
            "无效的仓库名"@,
            full_name@,
            has_token,
        ),
{
    let mut log = String::from_str("正在获取 Issue #");
    let n = u32_to_string(number);
    log.append(n.as_str());
    log.append(" 的评论...");
    proof {
        assert(log@ =~= "正在获取 Issue #"@ + spec_decimal(number as nat) + " 的评论..."@);
    }
    repo_prelude(log, "无法获取 Token", "无效的仓库名", full_name.as_str(), has_token)
}

/// Ends a `FetchIssueComments` work unit.
pub fn finish_fetch_issue_comments(
    number: u32,
    outcome: Result<Vec<IssueComment>, FetchError>,
) -> (r: Vec<AppEvent>)
    ensures
        outcome matches Ok(comments) ==> r.len() == 1 && r[0] == AppEvent::IssueComments(
            number,
            comments,
        ),
        outcome matches Err(e) ==> r.len() == 1 && (r[0] matches AppEvent::Error(m) && m@
            == "获取评论失败: "@ + spec_message(e)),
{
    match outcome {
        Ok(comments) => {
            let mut events: Vec<AppEvent> = Vec::new();
            events.push(AppEvent::IssueComments(number, comments));
            events
        },
        Err(e) => error_events("获取评论失败: ", e),
    }
}

/// Begins a `CreateComment` work unit.
pub fn start_create_comment(full_name: &String, has_token: bool) -> (r: RepoWorkStart)
    ensures
        repo_start_shape(
            r,
            "正在发表评论..."@,
            "无法获取 Token"@,
            "无效的仓库名"@,
            full_name@,
            has_token,
        ),
{
    repo_prelude(
        String::from_str("正在发表评论..."),
        "无法获取 Token",
        "无效的仓库名",
        full_name.as_str(),
        has_token,
    )
}

/// Ends a `CreateComment` work unit.
pub fn finish_create_comment(outcome: Result<IssueComment, FetchError>) -> (r: Vec<AppEvent>)
    ensures
        outcome matches Ok(comment) ==> {
            &&& r.len() == 2
            &&& (r[0] matches AppEvent::Log(m) && m@ == "评论已发表"@)
            &&& r[1] == AppEvent::CommentCreated(comment)
        },
        outcome matches Err(e) ==> r.len() == 1 && (r[0] matches AppEvent::Error(m) && m@
            == "发表评论失败: "@ + spec_message(e)),
{
    match outcome {
        Ok(comment) => {
            let mut events: Vec<AppEvent> = Vec::new();
            events.push(AppEvent::Log(String::from_str("评论已发表")));
            events.push(AppEvent::CommentCreated(comment));
            events
        },
        Err(e) => error_events("发表评论失败: ", e),
    }
}

/// The verb a state change is announced with: closing, or reopening.
pub open spec fn spec_state_verb(state: Seq<char>) -> Seq<char> {
    if state == "closed"@ {
        "关闭"@
    } else {
        "重新打开"@
    }
}

fn state_verb(state: &String) -> (r: &'static str)
    ensures
        r@ == spec_state_verb(state@),
{
    if str_eq_str(state.as_str(), "closed") {
        "关闭"
    } else {
        "重新打开"
    }
}

/// Begins an `UpdateIssueState` work unit.
pub fn start_update_issue_state(
    full_name: &String,
    number: u32,
    state: &String,
    has_token: bool,
) -> (r: RepoWorkStart)
    ensures
        repo_start_shape(
            r,
            "正在"@ + spec_state_verb(state@) + " Issue #"@ + spec_decimal(number as nat)
                + "..."@,
            "无法获取 Token"@,
            "无效的仓库名"@,
            full_name@,
            has_token,
        ),
{
    let mut log = String::from_str("正在");
    log.append(state_verb(state));
    log.append(" Issue #");
    let n = u32_to_string(number);
    log.append(n.as_str());
    log.append("...");
    proof {
        assert(log@ =~= "正在"@ + spec_state_verb(state@) + " Issue #"@ + spec_decimal(
            number as nat,
        ) + "..."@);
    }
    repo_prelude(log, "无法获取 Token", "无效的仓库名", full_name.as_str(), has_token)
}

/// Ends an `UpdateIssueState` work unit.
pub fn finish_update_issue_state(
    number: u32,
    state: &String,
    outcome: Result<Issue, FetchError>,
) -> (r: Vec<AppEvent>)
    ensures
        outcome matches Ok(issue) ==> {
            &&& r.len() == 2
            &&& (r[0] matches AppEvent::Log(m) && m@ == "Issue #"@ + spec_decimal(number as nat)
                + " 已"@ + spec_state_verb(state@))
            &&& r[1] == AppEvent::IssueUpdated(issue)
        },
        outcome matches Err(e) ==> r.len() == 1 && (r[0] matches AppEvent::Error(m) && m@
            == "操作失败: "@ + spec_message(e)),
{
    match outcome {
        Ok(issue) => {
            let mut m = String::from_str("Issue #");
            let n = u32_to_string(number);
            m.append(n.as_str());
            m.append(" 已");
            m.append(state_verb(state));
            proof {
                assert(m@ =~= "Issue #"@ + spec_decimal(number as nat) + " 已"@ + spec_state_verb(
                    state@,
                ));
            }
            let mut events: Vec<AppEvent> = Vec::new();
            events.push(AppEvent::Log(m));
            events.push(AppEvent::IssueUpdated(issue));
            events
        },
        Err(e) => error_events("操作失败: ", e),
    }
}

/// Begins a `FetchPullRequests` work unit.
pub fn start_fetch_pull_requests(full_name: &String, has_token: bool) -> (r: RepoWorkStart)
    ensures
        repo_start_shape(
            r,
            "正在获取 "@ + full_name@ + " 的 Pull Requests..."@,
            "无法获取 Token"@,
            "无效的仓库名"@,
            full_name@,
            has_token,
        ),
{
    let mut log = String::from_str("正在获取 ");
    log.append(full_name.as_str());
    log.append(" 的 Pull Requests...");
    proof {
        assert(log@ =~= "正在获取 "@ + full_name@ + " 的 Pull Requests..."@);
    }
    repo_prelude(log, "无法获取 Token", "无效的仓库名", full_name.as_str(), has_token)
}

/// Ends a `FetchPullRequests` work unit.
pub fn finish_fetch_pull_requests(outcome: Result<Vec<PullRequest>, FetchError>) -> (r: Vec<
    AppEvent,
>)
    ensures
        outcome matches Ok(prs) ==> {
            &&& r.len() == 2
            &&& (r[0] matches AppEvent::Log(m) && m@ == "找到 "@ + spec_decimal(prs.len() as nat)
                + " 个 Pull Requests"@)
            &&& (r[1] matches AppEvent::PullRequestList(ps) && ps == prs)
        },
        outcome matches Err(e) ==> r.len() == 1 && (r[0] matches AppEvent::Error(m) && m@
            == "获取 PRs 失败: "@ + spec_message(e)),
{
    match outcome {
        Ok(prs) => {
            let mut m = String::from_str("找到 ");
            let n = u64_to_string(prs.len() as u64);
            m.append(n.as_str());
            m.append(" 个 Pull Requests");
            proof {
                assert(m@ =~= "找到 "@ + spec_decimal(prs@.len()) + " 个 Pull Requests"@);
            }
            let mut events: Vec<AppEvent> = Vec::new();
            events.push(AppEvent::Log(m));
            events.push(AppEvent::PullRequestList(prs));
            events
        },
        Err(e) => error_events("获取 PRs 失败: ", e),
    }
}

/// Begins a `MergePullRequest` work unit.
pub fn start_merge_pull_request(full_name: &String, number: u32, has_token: bool) -> (r:
    RepoWorkStart)
    ensures
        repo_start_shape(
            r,
            "正在合并 PR #"@ + spec_decimal(number as nat) + "..."@,
            "无法获取 Token"@,
            "无效的仓库名"@,
            full_name@,
            has_token,
        ),
{
    let mut log = String::from_str("正在合并 PR #");
    let n = u32_to_string(number);
    log.append(n.as_str());
    log.append("...");
    proof {
        assert(log@ =~= "正在合并 PR #"@ + spec_decimal(number as nat) + "..."@);
    }
    repo_prelude(log, "无法获取 Token", "无效的仓库名", full_name.as_str(), has_token)
}

/// Ends a `MergePullRequest` work unit: the service's own message echoed.
pub fn finish_merge_pull_request(number: u32, outcome: Result<MergeResult, FetchError>) -> (r: Vec<
    AppEvent,
>)
    ensures
        outcome matches Ok(res) ==> {
            &&& r.len() == 2
            &&& (r[0] matches AppEvent::Log(m) && m@ == "PR #"@ + spec_decimal(number as nat)
                + " 已合并: "@ + res.message@)
            &&& r[1] == AppEvent::PullRequestMerged(res)
        },
        outcome matches Err(e) ==> r.len() == 1 && (r[0] matches AppEvent::Error(m) && m@
            == "合并失败: "@ + spec_message(e)),
{
    match outcome {
        Ok(res) => {
            let mut m = String::from_str("PR #");
            let n = u32_to_string(number);
            m.append(n.as_str());
            m.append(" 已合并: ");
            m.append(res.message.as_str());
            proof {
                assert(m@ =~= "PR #"@ + spec_decimal(number as nat) + " 已合并: "@
                    + res.message@);
            }
            let mut events: Vec<AppEvent> = Vec::new();
            events.push(AppEvent::Log(m));
            events.push(AppEvent::PullRequestMerged(res));
            events
        },
        Err(e) => error_events("合并失败: ", e),
    }
}

/// Begins a `ClosePullRequest` work unit.
pub fn start_close_pull_request(full_name: &String, number: u32, has_token: bool) -> (r:
    RepoWorkStart)
    ensures
        repo_start_shape(
            r,
            "正在关闭 PR #"@ + spec_decimal(number as nat) + "..."@,
            "无法获取 Token"@,
            "无效的仓库名"@,
            full_name@,
            has_token,
        ),
{
    let mut log = String::from_str("正在关闭 PR #");
    let n = u32_to_string(number);
    log.append(n.as_str());
    log.append("...");
    proof {
        assert(log@ =~= "正在关闭 PR #"@ + spec_decimal(number as nat) + "..."@);
    }
    repo_prelude(log, "无法获取 Token", "无效的仓库名", full_name.as_str(), has_token)
}

/// Ends a `ClosePullRequest` work unit.
pub fn finish_close_pull_request(number: u32, outcome: Result<PullRequest, FetchError>) -> (r: Vec<
    AppEvent,
>)
    ensures
        outcome matches Ok(pr) ==> {
            &&& r.len() == 2
            &&& (r[0] matches AppEvent::Log(m) && m@ == "PR #"@ + spec_decimal(number as nat)
                + " 已关闭"@)
            &&& r[1] == AppEvent::PullRequestClosed(pr)
        },
        outcome matches Err(e) ==> r.len() == 1 && (r[0] matches AppEvent::Error(m) && m@
            == "关闭失败: "@ + spec_message(e)),
{
    match outcome {
        Ok(pr) => {
            let mut m = String::from_str("PR #");
            let n = u32_to_string(number);
            m.append(n.as_str());
            m.append(" 已关闭");
            proof {
                assert(m@ =~= "PR #"@ + spec_decimal(number as nat) + " 已关闭"@);
            }
            let mut events: Vec<AppEvent> = Vec::new();
            events.push(AppEvent::Log(m));
            events.push(AppEvent::PullRequestClosed(pr));
            events
        },
        Err(e) => error_events("关闭失败: ", e),
    }
}


/// Drives one whole `SelectRepo` work unit over simulated outcomes. The
/// root listing's `FileTree` event always stands at index two — before any
/// README work — and a `ReadmeLoaded` event can stand only at the one slot
/// after the README announcement: the follow-up read happens at most once,
/// and only when the listing holds a README candidate. The `readme` outcome
/// is consulted only in that case, and the metadata outcome last.
pub fn run_select_repo(
    full_name: &String,
    has_token: bool,
    tree: Result<Vec<FileNode>, FetchError>,
    readme: Result<String, FetchError>,
    info: Result<RepoInfo, FetchError>,
) -> (r: Vec<AppEvent>)
    ensures
        r.len() >= 1,
        r[0] matches AppEvent::Log(m) && m@ == "正在浏览仓库: "@ + full_name@ + "..."@,
        !has_token ==> r.len() == 2 && (r[1] matches AppEvent::Error(m) && m@
            == "无法获取 Token (请确保已登录 gh CLI)"@),
        has_token && !is_owner_repo_form(full_name@) ==> r.len() == 2 && (r[1] matches
            AppEvent::Error(m) && m@ == "仓库名格式错误"@),
        has_token && is_owner_repo_form(full_name@) ==> match tree {
            Ok(files) => {
                let has_readme = exists|i: int| 0 <= i < files.len() && is_readme_node(files[i]);
                let readme_shown = has_readme && readme is Ok;
                let after_scan: int = if has_readme { 4int } else { 3int };
                let info_at: int = after_scan + if readme_shown { 1int } else { 0int };
                &&& r.len() == info_at + if info is Ok { 2int } else { 0int }
                &&& (r[1] matches AppEvent::Log(m) && m@ == "找到 "@ + spec_decimal(
                    files.len() as nat,
                ) + " 个文件/目录"@)
                &&& (r[2] matches AppEvent::FileTree(p, fs) && p@ == Seq::<char>::empty() && fs
                    == files)
                &&& has_readme ==> (r[3] matches AppEvent::Log(m) && m@
                    == "正在加载 README..."@)
                &&& readme_shown ==> (r[4] matches AppEvent::ReadmeLoaded(c) && c == readme->Ok_0)
                &&& (info matches Ok(inf) ==> (r[info_at] matches AppEvent::Log(m) && m@ == "⭐ "@
                    + spec_decimal(inf.stargazers_count as nat) + " | 🍴 "@ + spec_decimal(
                    inf.forks_count as nat,
                )) && r[info_at + 1] == AppEvent::RepoInfoLoaded(inf))
                &&& forall|k: int|
                    0 <= k < r.len() && !(readme_shown && k == 4) ==> !(r[k] is ReadmeLoaded)
            },
            Err(e) => {
                &&& r.len() == 2 + if info is Ok { 2int } else { 0int }
                &&& (r[1] matches AppEvent::Error(m) && m@ == "获取文件列表失败: "@
                    + spec_message(e))
                &&& (info matches Ok(inf) ==> r[3] == AppEvent::RepoInfoLoaded(inf))
                &&& forall|k: int| 0 <= k < r.len() ==> !(r[k] is ReadmeLoaded)
            },
        },
{
    let start = start_select_repo(full_name, has_token);
    let mut events = start.events;
    match start.target {
        None => events,
        Some(_) => {
            let ghost tree_snapshot = tree;
            let (mut tree_events, readme_url) = finish_select_tree(tree);
            let ghost tree_events_snapshot = tree_events@;
            events.append(&mut tree_events);
            if readme_url.is_some() {
                let mut readme_events = finish_select_readme(readme);
                events.append(&mut readme_events);
            }
            let ghost before_info = events@;
            let mut info_events = finish_select_info(info);
            events.append(&mut info_events);
            proof {
                assert forall|k: int|
                    0 <= k < before_info.len() implies !(before_info[k] is RepoInfoLoaded) by {}
            }
            events
        },
    }
}

/// One Action's simulated outside outcomes, used to drive a whole work
/// unit without I/O.
pub enum ActionSim {
    /// For `Cancel`: no outside work at all.
    NoWork,
    /// For `Login`: the CLI probe, the device-code request, and the poll
    /// replies.
    Auth(Result<String, String>, Result<DeviceCodeResponse, FetchError>, Vec<PollResponse>),
    /// For `FetchRepos`.
    Repos(Result<Vec<RepoListing>, String>),
    /// For `SelectRepo`: the root listing, the README read, the metadata.
    Browse(
        Result<Vec<FileNode>, FetchError>,
        Result<String, FetchError>,
        Result<RepoInfo, FetchError>,
    ),
    /// For `FetchDir`.
    Dir(Result<Vec<FileNode>, FetchError>),
    /// For `ReadFile`.
    File(Result<String, FetchError>),
    /// For `SearchRepos`.
    Search(Result<SearchResult, FetchError>),
    /// For `FetchIssues`.
    Issues(Result<Vec<Issue>, FetchError>),
    /// For `FetchIssueComments`.
    Comments(Result<Vec<IssueComment>, FetchError>),
    /// For `CreateComment`.
    NewComment(Result<IssueComment, FetchError>),
    /// For `UpdateIssueState`.
    IssueState(Result<Issue, FetchError>),
    /// For `FetchPullRequests`.
    Pulls(Result<Vec<PullRequest>, FetchError>),
    /// For `MergePullRequest`.
    Merge(Result<MergeResult, FetchError>),
    /// For `ClosePullRequest`.
    ClosePull(Result<PullRequest, FetchError>),
}

/// The simulated outcomes fit the action's shape.
pub open spec fn sim_fits(action: AppAction, sim: ActionSim) -> bool {
    match action {
        AppAction::Login => sim is Auth,
        AppAction::Cancel => sim is NoWork,
        AppAction::FetchRepos => sim is Repos,
        AppAction::SelectRepo(_) => sim is Browse,
        AppAction::FetchDir(_, _) => sim is Dir,
        AppAction::ReadFile(_) => sim is File,
        AppAction::SearchRepos(_) => sim is Search,
        AppAction::FetchIssues(_, _) => sim is Issues,
        AppAction::FetchIssueComments(_, _) => sim is Comments,
        AppAction::CreateComment(_, _, _) => sim is NewComment,
        AppAction::UpdateIssueState(_, _, _) => sim is IssueState,
        AppAction::FetchPullRequests(_, _) => sim is Pulls,
        AppAction::MergePullRequest(_, _, _) => sim is Merge,
        AppAction::ClosePullRequest(_, _) => sim is ClosePull,
    }
}

/// Dispatches one Action over its simulated outcomes. Every Action but
/// `Cancel` yields at least one terminal event — a failure, or a
/// success-shaped result — once its simulated work completes; `Cancel` is
/// accepted and does nothing.
pub fn run_action(action: &AppAction, has_token: bool, sim: ActionSim) -> (r: Vec<AppEvent>)
    requires
        sim_fits(*action, sim),
        sim matches ActionSim::Auth(cli, device, replies) ==> (device matches Ok(d) ==> d.interval
            + 1 + 5 * replies@.len() <= u64::MAX) && (cli is Err && device is Ok ==> exists|k: int|
            0 <= k < replies@.len() && !is_continuing_reply(replies@[k])),
    ensures
        action is Cancel ==> r.len() == 0,
        !(action is Cancel) ==> count_terminal(r@) >= 1,
        action is Login ==> (sim matches ActionSim::Auth(cli, device, replies) ==> {
            &&& (cli matches Ok(t) ==> {
                &&& r.len() == 3
                &&& (r[0] matches AppEvent::Log(m) && m@ == "SCANNING FOR GH CLI..."@)
                &&& (r[1] matches AppEvent::Log(m) && m@ == "GH CLI TOKEN FOUND!"@)
                &&& r[2] == AppEvent::AuthSuccess(t)
            })
            &&& (cli is Err ==> (device matches Err(e) ==> r.len() == 5 && (r[4] matches
                AppEvent::Error(m) && m@ == "NETWORK ERROR: "@ + spec_message(e))))
            &&& (cli is Err ==> (device matches Ok(d) ==> {
                &&& r.len() >= 7
                &&& r[5] == AppEvent::DeviceCode(d)
                &&& exists|k: int|
                    {
                        &&& 0 <= k < replies@.len()
                        &&& (forall|j: int| 0 <= j < k ==> is_continuing_reply(replies@[j]))
                        &&& !is_continuing_reply(replies@[k])
                        &&& match replies@[k] {
                            PollResponse::Success(tok) => {
                                &&& r.len() == 10
                                &&& (r[7] matches AppEvent::Log(m) && m@
                                    == "ACCESS TOKEN ACQUIRED."@)
                                &&& (r[8] matches AppEvent::Log(m) && m@
                                    == "TOKEN ENCRYPTED & STORED."@)
                                &&& r[9] == AppEvent::AuthSuccess(tok.access_token)
                            },
                            PollResponse::Error { error, .. } => {
                                &&& r.len() == 9
                                &&& (r[7] matches AppEvent::Error(m) && m@ == "AUTH FAILED: "@
                                    + spec_poll_failure(error@))
                                &&& (r[8] matches AppEvent::Log(m) && m@
                                    == "ABORTING OAUTH FLOW."@)
                            },
                        }
                    }
            }))
        }),
        action is FetchRepos ==> (sim matches ActionSim::Repos(o) ==> {
            &&& r.len() >= 1
            &&& (r[0] matches AppEvent::Log(m) && m@ == "FETCHING REPOS VIA GH CLI..."@)
            &&& (o matches Ok(raw) ==> {
                &&& r.len() == 3
                &&& (r[1] matches AppEvent::Log(m) && m@ == "FOUND "@ + spec_decimal(
                    raw.len() as nat,
                ) + " REPOSITORIES."@)
                &&& (r[2] matches AppEvent::RepoList(rs) && rs.len() == raw.len() && (forall|i: int|
                    0 <= i < raw.len() ==> listing_converted(raw[i], rs[i])))
            })
            &&& (o matches Err(e) ==> r.len() == 2 && (r[1] matches AppEvent::Error(m) && m@
                == "FETCH FAILED: "@ + e@))
        }),
        action matches AppAction::SelectRepo(full_name) ==> (sim matches ActionSim::Browse(
            tree,
            readme,
            info,
        ) ==> {
            &&& r.len() >= 1
            &&& (r[0] matches AppEvent::Log(m) && m@ == "正在浏览仓库: "@ + full_name@
                + "..."@)
            &&& !has_token ==> r.len() == 2 && (r[1] matches AppEvent::Error(m) && m@
                == "无法获取 Token (请确保已登录 gh CLI)"@)
            &&& has_token && !is_owner_repo_form(full_name@) ==> r.len() == 2 && (r[1] matches
                AppEvent::Error(m) && m@ == "仓库名格式错误"@)
            &&& has_token && is_owner_repo_form(full_name@) ==> match tree {
                Ok(files) => {
                    let has_readme = exists|i: int|
                        0 <= i < files.len() && is_readme_node(files[i]);
                    let readme_shown = has_readme && readme is Ok;
                    let after_scan: int = if has_readme {
                        4int
                    } else {
                        3int
                    };
                    let info_at: int = after_scan + if readme_shown {
                        1int
                    } else {
                        0int
                    };
                    &&& r.len() == info_at + if info is Ok {
                        2int
                    } else {
                        0int
                    }
                    &&& (r[1] matches AppEvent::Log(m) && m@ == "找到 "@ + spec_decimal(
                        files.len() as nat,
                    ) + " 个文件/目录"@)
                    &&& (r[2] matches AppEvent::FileTree(p, fs) && p@ == Seq::<char>::empty() && fs
                        == files)
                    &&& has_readme ==> (r[3] matches AppEvent::Log(m) && m@
                        == "正在加载 README..."@)
                    &&& readme_shown ==> (r[4] matches AppEvent::ReadmeLoaded(c) && c
                        == readme->Ok_0)
                    &&& (info matches Ok(inf) ==> r[info_at + 1] == AppEvent::RepoInfoLoaded(inf))
                    &&& forall|k: int|
                        0 <= k < r.len() && !(readme_shown && k == 4) ==> !(r[k] is ReadmeLoaded)
                },
                Err(e) => {
                    &&& r.len() == 2 + if info is Ok {
                        2int
                    } else {
                        0int
                    }
                    &&& (r[1] matches AppEvent::Error(m) && m@ == "获取文件列表失败: "@
                        + spec_message(e))
                    &&& (info matches Ok(inf) ==> r[3] == AppEvent::RepoInfoLoaded(inf))
                    &&& forall|k: int| 0 <= k < r.len() ==> !(r[k] is ReadmeLoaded)
                },
            }
        }),
        action matches AppAction::FetchDir(full_name, path) ==> (sim matches ActionSim::Dir(o) ==> {
            &&& r.len() >= 1
            &&& (r[0] matches AppEvent::Log(m) && m@ == "正在加载目录: /"@ + path@)
            &&& !has_token ==> r.len() == 2 && (r[1] matches AppEvent::Error(m) && m@
                == "无法获取 Token"@)
            &&& has_token && !is_owner_repo_form(full_name@) ==> r.len() == 2 && (r[1] matches
                AppEvent::Error(m) && m@ == "无效的仓库名"@)
            &&& has_token && is_owner_repo_form(full_name@) ==> {
                &&& (o matches Ok(files) ==> r.len() == 2 && (r[1] matches AppEvent::FileTree(p, fs) && p
                    == path && fs == files))
                &&& (o matches Err(e) ==> r.len() == 2 && (r[1] matches AppEvent::Error(m) && m@
                    == "加载目录失败: "@ + spec_message(e)))
            }
        }),
        action matches AppAction::ReadFile(url) ==> (sim matches ActionSim::File(o) ==> {
            &&& r.len() >= 1
            &&& (r[0] matches AppEvent::Log(m) && m@ == "正在读取文件内容..."@)
            &&& !has_token ==> r.len() == 2 && (r[1] matches AppEvent::Error(m) && m@
                == "无法获取 Token"@)
            &&& has_token ==> {
                &&& (o matches Ok(content) ==> r.len() == 3 && (exists|name: Seq<char>|
                    {
                        &&& is_last_segment_of(name, url@)
                        &&& (r[1] matches AppEvent::Log(m) && m@ == "文件 "@ + name
                            + " 已加载"@)
                        &&& (r[2] matches AppEvent::FileContent(nm, c) && nm@ == name && c
                            == content)
                    }))
                &&& (o matches Err(e) ==> r.len() == 2 && (r[1] matches AppEvent::Error(m) && m@
                    == "读取文件失败: "@ + spec_message(e)))
            }
        }),
        action matches AppAction::SearchRepos(query) ==> (sim matches ActionSim::Search(o) ==> {
            &&& r.len() >= 1
            &&& (r[0] matches AppEvent::Log(m) && m@ == "正在搜索: "@ + query@ + "..."@)
            &&& !has_token ==> r.len() == 2 && (r[1] matches AppEvent::Error(m) && m@
                == "无法获取 Token"@)
            &&& has_token ==> {
                &&& (o matches Ok(res) ==> r.len() == 3 && (r[1] matches AppEvent::Log(m) && m@
                    == "找到 "@ + spec_decimal(res.total_count as nat) + " 个仓库"@) && (
                r[2] matches AppEvent::SearchResults(items) && items == res.items))
                &&& (o matches Err(e) ==> r.len() == 2 && (r[1] matches AppEvent::Error(m) && m@
                    == "搜索失败: "@ + spec_message(e)))
            }
        }),
        action matches AppAction::FetchIssues(full_name, _state) ==> (sim matches ActionSim::Issues(o) ==> {
            &&& r.len() >= 1
            &&& (r[0] matches AppEvent::Log(m) && m@ == "正在获取 "@ + full_name@ + " 的 Issues..."@)
            &&& !has_token ==> r.len() == 2 && (r[1] matches AppEvent::Error(m) && m@
                == "无法获取 Token"@)
            &&& has_token && !is_owner_repo_form(full_name@) ==> r.len() == 2 && (r[1] matches
                AppEvent::Error(m) && m@ == "无效的仓库名"@)
            &&& has_token && is_owner_repo_form(full_name@) ==> {
                &&& (o matches Ok(issues) ==> r.len() == 3 && (r[1] matches AppEvent::Log(m) && m@
                    == "找到 "@ + spec_decimal(spec_keep_issues(issues@).len())
                    + " 个 Issues"@) && (r[2] matches AppEvent::IssueList(kept) && kept@
                    == spec_keep_issues(issues@)))
                &&& (o matches Err(e) ==> r.len() == 2 && (r[1] matches AppEvent::Error(m) && m@
                    == "获取 Issues 失败: "@ + spec_message(e)))
            }
        }),
        action matches AppAction::FetchIssueComments(full_name, number) ==> (sim matches ActionSim::Comments(o) ==> {
            &&& r.len() >= 1
            &&& (r[0] matches AppEvent::Log(m) && m@ == "正在获取 Issue #"@ + spec_decimal(*number as nat) + " 的评论..."@)
            &&& !has_token ==> r.len() == 2 && (r[1] matches AppEvent::Error(m) && m@
                == "无法获取 Token"@)
            &&& has_token && !is_owner_repo_form(full_name@) ==> r.len() == 2 && (r[1] matches
                AppEvent::Error(m) && m@ == "无效的仓库名"@)
            &&& has_token && is_owner_repo_form(full_name@) ==> {
                &&& (o matches Ok(comments) ==> r.len() == 2 && (r[1] matches AppEvent::IssueComments(
                    n,
                    cs,
                ) && n == number && cs == comments))
                &&& (o matches Err(e) ==> r.len() == 2 && (r[1] matches AppEvent::Error(m) && m@
                    == "获取评论失败: "@ + spec_message(e)))
            }
        }),
        action matches AppAction::CreateComment(full_name, _number, _body) ==> (sim matches ActionSim::NewComment(o) ==> {
            &&& r.len() >= 1
            &&& (r[0] matches AppEvent::Log(m) && m@ == "正在发表评论..."@)
            &&& !has_token ==> r.len() == 2 && (r[1] matches AppEvent::Error(m) && m@
                == "无法获取 Token"@)
            &&& has_token && !is_owner_repo_form(full_name@) ==> r.len() == 2 && (r[1] matches
                AppEvent::Error(m) && m@ == "无效的仓库名"@)
            &&& has_token && is_owner_repo_form(full_name@) ==> {
                &&& (o matches Ok(comment) ==> r.len() == 3 && (r[1] matches AppEvent::Log(m) && m@
                    == "评论已发表"@) && r[2] == AppEvent::CommentCreated(comment))
                &&& (o matches Err(e) ==> r.len() == 2 && (r[1] matches AppEvent::Error(m) && m@
                    == "发表评论失败: "@ + spec_message(e)))
            }
        }),
        action matches AppAction::UpdateIssueState(full_name, number, state) ==> (sim matches ActionSim::IssueState(o) ==> {
            &&& r.len() >= 1
            &&& (r[0] matches AppEvent::Log(m) && m@ == "正在"@ + spec_state_verb(state@) + " Issue #"@ + spec_decimal(*number as nat)
                + "..."@)
            &&& !has_token ==> r.len() == 2 && (r[1] matches AppEvent::Error(m) && m@
                == "无法获取 Token"@)
            &&& has_token && !is_owner_repo_form(full_name@) ==> r.len() == 2 && (r[1] matches
                AppEvent::Error(m) && m@ == "无效的仓库名"@)
            &&& has_token && is_owner_repo_form(full_name@) ==> {
                &&& (o matches Ok(issue) ==> r.len() == 3 && (r[1] matches AppEvent::Log(m) && m@
                    == "Issue #"@ + spec_decimal(*number as nat) + " 已"@ + spec_state_verb(
                    state@,
                )) && r[2] == AppEvent::IssueUpdated(issue))
                &&& (o matches Err(e) ==> r.len() == 2 && (r[1] matches AppEvent::Error(m) && m@
                    == "操作失败: "@ + spec_message(e)))
            }
        }),
        action matches AppAction::FetchPullRequests(full_name, _state) ==> (sim matches ActionSim::Pulls(o) ==> {
            &&& r.len() >= 1
            &&& (r[0] matches AppEvent::Log(m) && m@ == "正在获取 "@ + full_name@ + " 的 Pull Requests..."@)
            &&& !has_token ==> r.len() == 2 && (r[1] matches AppEvent::Error(m) && m@
                == "无法获取 Token"@)
            &&& has_token && !is_owner_repo_form(full_name@) ==> r.len() == 2 && (r[1] matches
                AppEvent::Error(m) && m@ == "无效的仓库名"@)
            &&& has_token && is_owner_repo_form(full_name@) ==> {
                &&& (o matches Ok(prs) ==> r.len() == 3 && (r[1] matches AppEvent::Log(m) && m@
                    == "找到 "@ + spec_decimal(prs.len() as nat) + " 个 Pull Requests"@) && (
                r[2] matches AppEvent::PullRequestList(ps) && ps == prs))
                &&& (o matches Err(e) ==> r.len() == 2 && (r[1] matches AppEvent::Error(m) && m@
                    == "获取 PRs 失败: "@ + spec_message(e)))
            }
        }),
        action matches AppAction::MergePullRequest(full_name, number, _method) ==> (sim matches ActionSim::Merge(o) ==> {
            &&& r.len() >= 1
            &&& (r[0] matches AppEvent::Log(m) && m@ == "正在合并 PR #"@ + spec_decimal(*number as nat) + "..."@)
            &&& !has_token ==> r.len() == 2 && (r[1] matches AppEvent::Error(m) && m@
                == "无法获取 Token"@)
            &&& has_token && !is_owner_repo_form(full_name@) ==> r.len() == 2 && (r[1] matches
                AppEvent::Error(m) && m@ == "无效的仓库名"@)
            &&& has_token && is_owner_repo_form(full_name@) ==> {
                &&& (o matches Ok(res) ==> r.len() == 3 && (r[1] matches AppEvent::Log(m) && m@
                    == "PR #"@ + spec_decimal(*number as nat) + " 已合并: "@ + res.message@)
                    && r[2] == AppEvent::PullRequestMerged(res))
                &&& (o matches Err(e) ==> r.len() == 2 && (r[1] matches AppEvent::Error(m) && m@
                    == "合并失败: "@ + spec_message(e)))
            }
        }),
        action matches AppAction::ClosePullRequest(full_name, number) ==> (sim matches ActionSim::ClosePull(o) ==> {
            &&& r.len() >= 1
            &&& (r[0] matches AppEvent::Log(m) && m@ == "正在关闭 PR #"@ + spec_decimal(*number as nat) + "..."@)
            &&& !has_token ==> r.len() == 2 && (r[1] matches AppEvent::Error(m) && m@
                == "无法获取 Token"@)
            &&& has_token && !is_owner_repo_form(full_name@) ==> r.len() == 2 && (r[1] matches
                AppEvent::Error(m) && m@ == "无效的仓库名"@)
            &&& has_token && is_owner_repo_form(full_name@) ==> {
                &&& (o matches Ok(pr) ==> r.len() == 3 && (r[1] matches AppEvent::Log(m) && m@ == "PR #"@
                    + spec_decimal(*number as nat) + " 已关闭"@) && r[2]
                    == AppEvent::PullRequestClosed(pr))
                &&& (o matches Err(e) ==> r.len() == 2 && (r[1] matches AppEvent::Error(m) && m@
                    == "关闭失败: "@ + spec_message(e)))
            }
        }),
{
    match action {
        AppAction::Cancel => {
            let r: Vec<AppEvent> = Vec::new();
            r
        },
        AppAction::Login => match sim {
            ActionSim::Auth(cli, device, replies) => {
                let run = run_login(cli, device, &replies);
                proof {
                    if cli is Err && device is Ok {
                        assert(!(run.state is AwaitingAuthorization)) by {
                            if run.state is AwaitingAuthorization {
                                let kk = choose|kk: int|
                                    0 <= kk < replies@.len() && !is_continuing_reply(replies@[kk]);
                                assert(is_continuing_reply(replies@[kk]));
                            }
                        }
                        let k = run.poll_intervals@.len() - 1;
                        assert(!is_continuing_reply(replies@[k]));
                        assert(forall|j: int| 0 <= j < k ==> is_continuing_reply(replies@[j]));
                    }
                }
                run.events
            },
            _ => {
                proof {
                    assert(false);
                }
                Vec::new()
            },
        },
        AppAction::FetchRepos => match sim {
            ActionSim::Repos(outcome) => {
                let start = start_fetch_repos();
                let mut events = start.events;
                let ghost o = outcome;
                let mut fin = finish_fetch_repos(outcome);
                events.append(&mut fin);
                proof {
                    if o is Ok {
                        lemma_terminal_at_index(events@, 2);
                    } else {
                        lemma_terminal_at_index(events@, 1);
                    }
                }
                events
            },
            _ => {
                proof {
                    assert(false);
                }
                Vec::new()
            },
        },
        AppAction::SelectRepo(full_name) => match sim {
            ActionSim::Browse(tree, readme, info) => {
                let ghost t = tree;
                let events = run_select_repo(full_name, has_token, tree, readme, info);
                proof {
                    if has_token && is_owner_repo_form(full_name@) {
                        if t is Ok {
                            lemma_terminal_at_index(events@, 2);
                        } else {
                            lemma_terminal_at_index(events@, 1);
                        }
                    } else {
                        lemma_terminal_at_index(events@, 1);
                    }
                }
                events
            },
            _ => {
                proof {
                    assert(false);
                }
                Vec::new()
            },
        },
        AppAction::FetchDir(full_name, path) => match sim {
            ActionSim::Dir(outcome) => {
                let start = start_fetch_dir(full_name, path, has_token);
                let mut events = start.events;
                match start.target {
                    Some(_) => {
                        let mut fin = finish_fetch_dir(path.clone(), outcome);
                        events.append(&mut fin);
                        proof {
                            lemma_terminal_at_index(events@, 1);
                        }
                    },
                    None => {
                        proof {
                            lemma_terminal_at_index(events@, 1);
                        }
                    },
                }
                events
            },
            _ => {
                proof {
                    assert(false);
                }
                Vec::new()
            },
        },
        AppAction::ReadFile(url) => match sim {
            ActionSim::File(outcome) => {
                let start = start_read_file(has_token);
                let mut events = start.events;
                if start.proceed {
                    let ghost o = outcome;
                    let mut fin = finish_read_file(url, outcome);
                    events.append(&mut fin);
                    proof {
                        if o is Ok {
                            lemma_terminal_at_index(events@, 2);
                        } else {
                            lemma_terminal_at_index(events@, 1);
                        }
                    }
                } else {
                    proof {
                        lemma_terminal_at_index(events@, 1);
                    }
                }
                events
            },
            _ => {
                proof {
                    assert(false);
                }
                Vec::new()
            },
        },
        AppAction::SearchRepos(query) => match sim {
            ActionSim::Search(outcome) => {
                let start = start_search(query, has_token);
                let mut events = start.events;
                if start.proceed {
                    let ghost o = outcome;
                    let mut fin = finish_search(outcome);
                    events.append(&mut fin);
                    proof {
                        if o is Ok {
                            lemma_terminal_at_index(events@, 2);
                        } else {
                            lemma_terminal_at_index(events@, 1);
                        }
                    }
                } else {
                    proof {
                        lemma_terminal_at_index(events@, 1);
                    }
                }
                events
            },
            _ => {
                proof {
                    assert(false);
                }
                Vec::new()
            },
        },
        AppAction::FetchIssues(full_name, _state) => match sim {
            ActionSim::Issues(outcome) => {
                let start = start_fetch_issues(full_name, has_token);
                let mut events = start.events;
                match start.target {
                    Some(_) => {
                        let ghost o = outcome;
                        let mut fin = finish_fetch_issues(outcome);
                        events.append(&mut fin);
                        proof {
                            if o is Ok {
                                lemma_terminal_at_index(events@, 2);
                            } else {
                                lemma_terminal_at_index(events@, 1);
                            }
                        }
                    },
                    None => {
                        proof {
                            lemma_terminal_at_index(events@, 1);
                        }
                    },
                }
                events
            },
            _ => {
                proof {
                    assert(false);
                }
                Vec::new()
            },
        },
        AppAction::FetchIssueComments(full_name, number) => match sim {
            ActionSim::Comments(outcome) => {
                let start = start_fetch_issue_comments(full_name, *number, has_token);
                let mut events = start.events;
                match start.target {
                    Some(_) => {
                        let mut fin = finish_fetch_issue_comments(*number, outcome);
                        events.append(&mut fin);
                        proof {
                            lemma_terminal_at_index(events@, 1);
                        }
                    },
                    None => {
                        proof {
                            lemma_terminal_at_index(events@, 1);
                        }
                    },
                }
                events
            },
            _ => {
                proof {
                    assert(false);
                }
                Vec::new()
            },
        },
        AppAction::CreateComment(full_name, _number, _body) => match sim {
            ActionSim::NewComment(outcome) => {
                let start = start_create_comment(full_name, has_token);
                let mut events = start.events;
                match start.target {
                    Some(_) => {
                        let ghost o = outcome;
                        let mut fin = finish_create_comment(outcome);
                        events.append(&mut fin);
                        proof {
                            if o is Ok {
                                lemma_terminal_at_index(events@, 2);
                            } else {
                                lemma_terminal_at_index(events@, 1);
                            }
                        }
                    },
                    None => {
                        proof {
                            lemma_terminal_at_index(events@, 1);
                        }
                    },
                }
                events
            },
            _ => {
                proof {
                    assert(false);
                }
                Vec::new()
            },
        },
        AppAction::UpdateIssueState(full_name, number, state) => match sim {
            ActionSim::IssueState(outcome) => {
                let start = start_update_issue_state(full_name, *number, state, has_token);
                let mut events = start.events;
                match start.target {
                    Some(_) => {
                        let ghost o = outcome;
                        let mut fin = finish_update_issue_state(*number, state, outcome);
                        events.append(&mut fin);
                        proof {
                            if o is Ok {
                                lemma_terminal_at_index(events@, 2);
                            } else {
                                lemma_terminal_at_index(events@, 1);
                            }
                        }
                    },
                    None => {
                        proof {
                            lemma_terminal_at_index(events@, 1);
                        }
                    },
                }
                events
            },
            _ => {
                proof {
                    assert(false);
                }
                Vec::new()
            },
        },
        AppAction::FetchPullRequests(full_name, _state) => match sim {
            ActionSim::Pulls(outcome) => {
                let start = start_fetch_pull_requests(full_name, has_token);
                let mut events = start.events;
                match start.target {
                    Some(_) => {
                        let ghost o = outcome;
                        let mut fin = finish_fetch_pull_requests(outcome);
                        events.append(&mut fin);
                        proof {
                            if o is Ok {
                                lemma_terminal_at_index(events@, 2);
                            } else {
                                lemma_terminal_at_index(events@, 1);
                            }
                        }
                    },
                    None => {
                        proof {
                            lemma_terminal_at_index(events@, 1);
                        }
                    },
                }
                events
            },
            _ => {
                proof {
                    assert(false);
                }
                Vec::new()
            },
        },
        AppAction::MergePullRequest(full_name, number, _method) => match sim {
            ActionSim::Merge(outcome) => {
                let start = start_merge_pull_request(full_name, *number, has_token);
                let mut events = start.events;
                match start.target {
                    Some(_) => {
                        let ghost o = outcome;
                        let mut fin = finish_merge_pull_request(*number, outcome);
                        events.append(&mut fin);
                        proof {
                            if o is Ok {
                                lemma_terminal_at_index(events@, 2);
                            } else {
                                lemma_terminal_at_index(events@, 1);
                            }
                        }
                    },
                    None => {
                        proof {
                            lemma_terminal_at_index(events@, 1);
                        }
                    },
                }
                events
            },
            _ => {
                proof {
                    assert(false);
                }
                Vec::new()
            },
        },
        AppAction::ClosePullRequest(full_name, number) => match sim {
            ActionSim::ClosePull(outcome) => {
                let start = start_close_pull_request(full_name, *number, has_token);
                let mut events = start.events;
                match start.target {
                    Some(_) => {
                        let ghost o = outcome;
                        let mut fin = finish_close_pull_request(*number, outcome);
                        events.append(&mut fin);
                        proof {
                            if o is Ok {
                                lemma_terminal_at_index(events@, 2);
                            } else {
                                lemma_terminal_at_index(events@, 1);
                            }
                        }
                    },
                    None => {
                        proof {
                            lemma_terminal_at_index(events@, 1);
                        }
                    },
                }
                events
            },
            _ => {
                proof {
                    assert(false);
                }
                Vec::new()
            },
        },
    }
}

} // verus!
