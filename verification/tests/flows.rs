//! Scenario tests for the authentication flow, the token policy, and the
//! dispatcher's work units, driven over simulated outside outcomes.

use native_hub::auth::{
    decode_poll_reply, initial_poll_state, poll_step, run_login, run_poll_trace, AccessTokenResponse,
    DeviceCodeResponse, LoginFlow, PollResponse, PollRunOutcome, PollStep,
};
use native_hub::dispatch::{
    filter_issues, find_readme_url, finish_fetch_issues, run_action, run_select_repo,
    start_select_repo, ActionSim,
};
use native_hub::errors::FetchError;
use native_hub::events::{AppAction, AppEvent};
use native_hub::token::{cli_token_from_output, resolve_token, token_after_cli, TokenResolution};
use native_hub::types::{FileNode, Issue, IssueUser, RepoInfo};

fn device(interval: u64) -> DeviceCodeResponse {
    DeviceCodeResponse {
        device_code: "dev-123".to_string(),
        user_code: "ABCD-EFGH".to_string(),
        verification_uri: "https://github.com/login/device".to_string(),
        expires_in: 900,
        interval,
    }
}

fn pending() -> PollResponse {
    PollResponse::Error { error: "authorization_pending".to_string(), error_description: None }
}

fn slow_down() -> PollResponse {
    PollResponse::Error { error: "slow_down".to_string(), error_description: None }
}

fn granted(token: &str) -> PollResponse {
    PollResponse::Success(AccessTokenResponse {
        access_token: token.to_string(),
        token_type: "bearer".to_string(),
        scope: "repo".to_string(),
    })
}

fn refused(code: &str) -> PollResponse {
    PollResponse::Error { error: code.to_string(), error_description: None }
}

fn node(name: &str, url: Option<&str>) -> FileNode {
    FileNode {
        name: name.to_string(),
        path: name.to_string(),
        node_type: "file".to_string(),
        download_url: url.map(|u| u.to_string()),
        size: 10,
    }
}

fn issue(number: u32, marker: Option<&str>) -> Issue {
    Issue {
        id: number as u64,
        number,
        title: format!("issue {}", number),
        body: None,
        state: "open".to_string(),
        user: IssueUser { login: "u".to_string(), avatar_url: String::new() },
        labels: vec![],
        created_at: String::new(),
        updated_at: String::new(),
        comments: 0,
        html_url: String::new(),
        pull_request: marker.map(|m| m.to_string()),
    }
}

fn repo_info(stars: u32, forks: u32) -> RepoInfo {
    RepoInfo {
        description: None,
        stargazers_count: stars,
        forks_count: forks,
        watchers_count: 0,
        language: None,
        topics: vec![],
        license: None,
        open_issues_count: 0,
        default_branch: "main".to_string(),
    }
}

fn auth_success_count(events: &[AppEvent]) -> usize {
    events.iter().filter(|e| matches!(e, AppEvent::AuthSuccess(_))).count()
}

fn error_count(events: &[AppEvent]) -> usize {
    events.iter().filter(|e| matches!(e, AppEvent::Error(_))).count()
}

fn terminal_count(events: &[AppEvent]) -> usize {
    events.iter().filter(|e| !matches!(e, AppEvent::Log(_) | AppEvent::DeviceCode(_))).count()
}

#[test]
fn poll_sequence_slow_down_then_success() {
    // pending, pending, slow_down, success: one token, and the fourth poll
    // waits the initial interval plus five seconds.
    let initial = initial_poll_state(5);
    let replies = vec![pending(), pending(), slow_down(), granted("T")];
    let run = run_poll_trace(initial, &replies);
    assert_eq!(run.intervals, vec![6, 6, 6, 11]);
    match run.outcome {
        PollRunOutcome::Token(t) => assert_eq!(t, "T"),
        other => panic!("expected a token, got {:?}", other),
    }
}

#[test]
fn login_flow_emits_exactly_one_auth_success() {
    let replies = vec![pending(), pending(), slow_down(), granted("T")];
    let run = run_login(Err("no gh".to_string()), Ok(device(5)), &replies);
    assert!(matches!(run.state, LoginFlow::Authenticated));
    assert_eq!(auth_success_count(&run.events), 1);
    assert_eq!(run.events.last(), Some(&AppEvent::AuthSuccess("T".to_string())));
    assert_eq!(run.poll_intervals, vec![6, 6, 6, 11]);
}

#[test]
fn expired_token_stops_polling_with_one_failure() {
    let replies = vec![refused("expired_token"), pending(), pending()];
    let run = run_login(Err("no gh".to_string()), Ok(device(5)), &replies);
    assert!(matches!(run.state, LoginFlow::Failed));
    // one failure event, no token, and no poll past the terminal reply
    assert_eq!(error_count(&run.events), 1);
    assert_eq!(auth_success_count(&run.events), 0);
    assert_eq!(run.poll_intervals.len(), 1);
    assert!(run.events.iter().any(
        |e| matches!(e, AppEvent::Error(m) if m == "AUTH FAILED: Device code expired"),
    ));
}

#[test]
fn access_denied_stops_polling_with_one_failure() {
    let replies = vec![pending(), refused("access_denied"), pending()];
    let run = run_login(Err("no gh".to_string()), Ok(device(5)), &replies);
    assert!(matches!(run.state, LoginFlow::Failed));
    assert_eq!(error_count(&run.events), 1);
    assert_eq!(run.poll_intervals.len(), 2);
    assert!(run.events.iter().any(
        |e| matches!(e, AppEvent::Error(m) if m == "AUTH FAILED: User denied access"),
    ));
}

#[test]
fn unknown_poll_code_is_terminal_with_raw_code() {
    let st = initial_poll_state(5);
    let step = poll_step(&st, &refused("server_error"));
    match step {
        PollStep::Failed(FetchError::Auth(code)) => assert_eq!(code, "server_error"),
        other => panic!("expected a failure, got {:?}", other),
    }
}

#[test]
fn named_terminal_codes_fail_with_their_own_prose() {
    let st = initial_poll_state(5);
    match poll_step(&st, &refused("expired_token")) {
        PollStep::Failed(FetchError::Auth(m)) => assert_eq!(m, "Device code expired"),
        other => panic!("expected a failure, got {:?}", other),
    }
    match poll_step(&st, &refused("access_denied")) {
        PollStep::Failed(FetchError::Auth(m)) => assert_eq!(m, "User denied access"),
        other => panic!("expected a failure, got {:?}", other),
    }
}

#[test]
fn failed_readme_read_shows_no_readme() {
    // a candidate exists, the follow-up read fails, the metadata read
    // succeeds: still no readme event anywhere
    let tree = vec![node("README.md", Some("https://example.test/r"))];
    let events = run_select_repo(
        &"octo/hello".to_string(),
        true,
        Ok(tree),
        Err(FetchError::HttpStatus(500, "boom".to_string())),
        Ok(repo_info(1, 1)),
    );
    assert!(events.iter().all(|e| !matches!(e, AppEvent::ReadmeLoaded(_))));
    assert!(events.iter().any(|e| matches!(e, AppEvent::RepoInfoLoaded(_))));
}

#[test]
fn pending_keeps_interval_and_slow_down_widens_it() {
    let st = initial_poll_state(5);
    assert!(matches!(poll_step(&st, &pending()), PollStep::Continue(p) if p.interval_secs == 6));
    assert!(matches!(poll_step(&st, &slow_down()), PollStep::Continue(p) if p.interval_secs == 11));
}

#[test]
fn cli_token_short_circuits_login() {
    let replies = vec![];
    let run = run_login(Ok("cli-token".to_string()), Err(FetchError::Auth("unused".to_string())), &replies);
    assert!(matches!(run.state, LoginFlow::Authenticated));
    assert_eq!(run.events.len(), 3);
    assert_eq!(run.events[2], AppEvent::AuthSuccess("cli-token".to_string()));
    assert!(run.poll_intervals.is_empty());
}

#[test]
fn device_code_failure_is_one_network_error() {
    let replies = vec![];
    let run = run_login(
        Err("no gh".to_string()),
        Err(FetchError::Transport("refused".to_string())),
        &replies,
    );
    assert!(matches!(run.state, LoginFlow::Failed));
    assert_eq!(run.events.len(), 5);
    assert_eq!(
        run.events[4],
        AppEvent::Error("NETWORK ERROR: network error: refused".to_string()),
    );
}

#[test]
fn decode_tries_success_shape_first_then_error_shape() {
    let ok = decode_poll_reply(
        Some("tok".to_string()),
        Some("bearer".to_string()),
        Some("repo".to_string()),
        Some("ignored".to_string()),
        None,
    );
    assert!(matches!(ok, Ok(PollResponse::Success(t)) if t.access_token == "tok"));
    let err_shape = decode_poll_reply(None, None, None, Some("slow_down".to_string()), None);
    assert!(matches!(err_shape, Ok(PollResponse::Error { error, .. }) if error == "slow_down"));
    let neither = decode_poll_reply(Some("tok".to_string()), None, None, None, None);
    assert!(matches!(neither, Err(FetchError::Parse(_))));
}

#[test]
fn cli_token_is_used_exclusively_over_the_store() {
    // both sources would succeed: the CLI's token wins
    let r = resolve_token(Some("from-cli".to_string()), Some("from-store".to_string()));
    assert_eq!(r, Some("from-cli".to_string()));
    // and resolution is already final after the probe: the store step is
    // never reached
    let after = token_after_cli(Some("from-cli".to_string()));
    assert_eq!(after, TokenResolution::Resolved("from-cli".to_string()));
    // only a missing CLI token consults the store
    let fallback = resolve_token(None, Some("from-store".to_string()));
    assert_eq!(fallback, Some("from-store".to_string()));
}

#[test]
fn cli_output_is_trimmed_or_rejected() {
    assert_eq!(
        cli_token_from_output(true, "  tok123\n", ""),
        Ok("tok123".to_string()),
    );
    assert_eq!(
        cli_token_from_output(true, "   \n", " not logged in \n"),
        Err("gh auth token failed: not logged in. Run 'gh auth login' first.".to_string()),
    );
    assert!(cli_token_from_output(false, "tok", "boom").is_err());
}

#[test]
fn readme_follow_up_comes_after_the_listing() {
    let tree = vec![
        node("src", None),
        node("README.md", Some("https://example.test/readme")),
        node("Cargo.toml", Some("https://example.test/cargo")),
    ];
    let events = run_select_repo(
        &"octo/hello".to_string(),
        true,
        Ok(tree),
        Ok("# hello".to_string()),
        Ok(repo_info(7, 3)),
    );
    let tree_at = events.iter().position(|e| matches!(e, AppEvent::FileTree(_, _))).unwrap();
    let readme_at = events.iter().position(|e| matches!(e, AppEvent::ReadmeLoaded(_))).unwrap();
    assert!(tree_at < readme_at, "the listing event must precede the readme");
    // exactly one follow-up read surfaced
    let readme_events =
        events.iter().filter(|e| matches!(e, AppEvent::ReadmeLoaded(_))).count();
    assert_eq!(readme_events, 1);
    assert_eq!(events[readme_at], AppEvent::ReadmeLoaded("# hello".to_string()));
}

#[test]
fn listing_without_readme_reads_nothing_back() {
    let tree = vec![node("src", None), node("Cargo.toml", Some("https://example.test/c"))];
    let events = run_select_repo(
        &"octo/hello".to_string(),
        true,
        Ok(tree),
        Err(FetchError::Transport("unused".to_string())),
        Err(FetchError::Transport("unused".to_string())),
    );
    assert!(events.iter().all(|e| !matches!(e, AppEvent::ReadmeLoaded(_))));
}

#[test]
fn first_readme_candidate_needs_a_content_url() {
    let files = vec![
        node("readme", None),
        node("ReadMe.MD", Some("https://example.test/second")),
    ];
    // a candidate without a URL is passed over for the next one with one
    assert_eq!(find_readme_url(&files), Some("https://example.test/second".to_string()));
    let none = vec![node("main.rs", Some("https://example.test/m"))];
    assert_eq!(find_readme_url(&none), None);
}

#[test]
fn issue_list_excludes_pull_request_entries() {
    let raw = vec![
        issue(1, None),
        issue(2, Some("https://example.test/pull/2")),
        issue(3, None),
    ];
    let kept = filter_issues(raw);
    assert_eq!(kept.len(), 2);
    assert_eq!(kept[0].number, 1);
    assert_eq!(kept[1].number, 3);

    let raw = vec![issue(1, None), issue(2, Some("https://example.test/pull/2"))];
    let events = finish_fetch_issues(Ok(raw));
    assert_eq!(events[0], AppEvent::Log("找到 1 个 Issues".to_string()));
    match &events[1] {
        AppEvent::IssueList(list) => {
            assert_eq!(list.len(), 1);
            assert_eq!(list[0].number, 1);
        },
        other => panic!("expected an issue list, got {:?}", other),
    }
}

#[test]
fn malformed_repository_identifier_fails_before_the_engine() {
    let start = start_select_repo(&"not-a-repo".to_string(), true);
    assert!(start.target.is_none(), "the engine must never be consulted");
    assert_eq!(start.events.len(), 2);
    assert_eq!(start.events[1], AppEvent::Error("仓库名格式错误".to_string()));

    let events = run_action(
        &AppAction::SelectRepo("not-a-repo".to_string()),
        true,
        ActionSim::Browse(
            Ok(vec![]),
            Err(FetchError::Transport("unused".to_string())),
            Err(FetchError::Transport("unused".to_string())),
        ),
    );
    assert_eq!(events.len(), 2);
    assert_eq!(events[1], AppEvent::Error("仓库名格式错误".to_string()));
}

#[test]
fn every_action_but_cancel_yields_a_terminal_event() {
    let full = "octo/hello".to_string();
    let cases: Vec<(AppAction, ActionSim)> = vec![
        (
            AppAction::Login,
            ActionSim::Auth(Err("no gh".to_string()), Ok(device(5)), vec![granted("T")]),
        ),
        (AppAction::FetchRepos, ActionSim::Repos(Err("gh missing".to_string()))),
        (
            AppAction::SelectRepo(full.clone()),
            ActionSim::Browse(
                Ok(vec![node("a.rs", None)]),
                Err(FetchError::Transport("x".to_string())),
                Ok(repo_info(1, 1)),
            ),
        ),
        (
            AppAction::FetchDir(full.clone(), "src".to_string()),
            ActionSim::Dir(Ok(vec![node("a.rs", None)])),
        ),
        (
            AppAction::ReadFile("https://example.test/a.rs".to_string()),
            ActionSim::File(Err(FetchError::HttpStatus(404, "gone".to_string()))),
        ),
        (
            AppAction::SearchRepos("verus".to_string()),
            ActionSim::Search(Err(FetchError::Transport("x".to_string()))),
        ),
        (
            AppAction::FetchIssues(full.clone(), "open".to_string()),
            ActionSim::Issues(Ok(vec![issue(1, None)])),
        ),
        (
            AppAction::FetchIssueComments(full.clone(), 7),
            ActionSim::Comments(Ok(vec![])),
        ),
        (
            AppAction::CreateComment(full.clone(), 7, "hi".to_string()),
            ActionSim::NewComment(Err(FetchError::Transport("x".to_string()))),
        ),
        (
            AppAction::UpdateIssueState(full.clone(), 7, "closed".to_string()),
            ActionSim::IssueState(Ok(issue(7, None))),
        ),
        (
            AppAction::FetchPullRequests(full.clone(), "all".to_string()),
            ActionSim::Pulls(Ok(vec![])),
        ),
        (
            AppAction::MergePullRequest(full.clone(), 9, "squash".to_string()),
            ActionSim::Merge(Err(FetchError::HttpStatus(405, "blocked".to_string()))),
        ),
        (
            AppAction::ClosePullRequest("bad name".to_string(), 9),
            ActionSim::ClosePull(Err(FetchError::Transport("unused".to_string()))),
        ),
    ];
    for (action, sim) in cases {
        let events = run_action(&action, true, sim);
        assert!(
            terminal_count(&events) >= 1,
            "action {:?} yielded no terminal event: {:?}",
            action,
            events,
        );
    }
    // actions that need a token fail rather than vanish when none resolves
    let events = run_action(
        &AppAction::SearchRepos("verus".to_string()),
        false,
        ActionSim::Search(Ok(native_hub::types::SearchResult {
            total_count: 0,
            incomplete_results: false,
            items: vec![],
        })),
    );
    assert_eq!(events[1], AppEvent::Error("无法获取 Token".to_string()));
}

#[test]
fn cancel_is_accepted_and_does_nothing() {
    let events = run_action(&AppAction::Cancel, true, ActionSim::NoWork);
    assert!(events.is_empty());
}
