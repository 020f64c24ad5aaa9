//! Tests for request construction, the data conversions, the translation
//! tables, and the small string and UI-state helpers.

use native_hub::engine::{format_relative_time, repo_from_listing, repo_list_args, RepoListing};
use native_hub::errors::FetchError;
use native_hub::events::AppEvent;
use native_hub::i18n::{get, I18n, Lang};
use native_hub::rest::{
    bearer_header, close_pull_request_request, contents_url, create_comment_request,
    device_code_form, device_code_url, http_success, issue_comments_url, issue_url, issues_url,
    last_path_segment, merge_pull_request_request, merge_url, parse_full_name, pull_url, pulls_url,
    repo_url, response_to_result, search_url, standard_headers, token_poll_form, token_poll_url,
    update_issue_state_request, HttpMethod,
};
use native_hub::strutil::{json_escape, str_eq_str, trim_ascii, u32_to_string, u64_to_string};
use native_hub::ui_state::{AppState, LogViewer, Sidebar};
use native_hub::viewer::{file_icon, parent_path};

#[test]
fn repository_identifier_splits_exactly_once() {
    assert_eq!(
        parse_full_name("octo/hello"),
        Some(("octo".to_string(), "hello".to_string())),
    );
    assert_eq!(parse_full_name("not-a-repo"), None);
    assert_eq!(parse_full_name("a/b/c"), None);
    assert_eq!(parse_full_name(""), None);
    assert_eq!(parse_full_name("/x"), Some(("".to_string(), "x".to_string())));
}

#[test]
fn contents_url_handles_root_and_subdirectories() {
    assert_eq!(
        contents_url("octo", "hello", ""),
        "https://api.github.com/repos/octo/hello/contents",
    );
    assert_eq!(
        contents_url("octo", "hello", "src/ui"),
        "https://api.github.com/repos/octo/hello/contents/src/ui",
    );
}

#[test]
fn search_url_percent_encodes_and_caps_the_page_size() {
    // a query with a space must arrive encoded; an identity encoding would
    // leave the space in place and fail here
    assert_eq!(
        search_url("hello world", Some("stars"), 30),
        "https://api.github.com/search/repositories?q=hello%20world&per_page=30&sort=stars",
    );
    assert_eq!(
        search_url("rust", None, 200),
        "https://api.github.com/search/repositories?q=rust&per_page=100",
    );
}

#[test]
fn issue_and_pull_endpoints_carry_state_and_number() {
    assert_eq!(
        issues_url("o", "r", "open"),
        "https://api.github.com/repos/o/r/issues?state=open&per_page=30",
    );
    assert_eq!(issue_url("o", "r", 41), "https://api.github.com/repos/o/r/issues/41");
    assert_eq!(
        issue_comments_url("o", "r", 41),
        "https://api.github.com/repos/o/r/issues/41/comments",
    );
    assert_eq!(
        pulls_url("o", "r", "all"),
        "https://api.github.com/repos/o/r/pulls?state=all&per_page=30",
    );
    assert_eq!(pull_url("o", "r", 7), "https://api.github.com/repos/o/r/pulls/7");
    assert_eq!(merge_url("o", "r", 7), "https://api.github.com/repos/o/r/pulls/7/merge");
    assert_eq!(repo_url("o", "r"), "https://api.github.com/repos/o/r");
}

#[test]
fn every_request_carries_the_four_standard_headers() {
    let hs = standard_headers("tok");
    assert_eq!(hs.len(), 4);
    assert_eq!(hs[0], ("Authorization".to_string(), "Bearer tok".to_string()));
    assert_eq!(hs[1], ("Accept".to_string(), "application/vnd.github+json".to_string()));
    assert_eq!(hs[2], ("User-Agent".to_string(), "NativeHub-Rust-Client".to_string()));
    assert_eq!(hs[3], ("X-GitHub-Api-Version".to_string(), "2022-11-28".to_string()));
    assert_eq!(bearer_header("abc"), "Bearer abc");
}

#[test]
fn non_success_statuses_become_typed_errors() {
    assert!(http_success(200) && http_success(299));
    assert!(!http_success(199) && !http_success(300) && !http_success(404));
    assert_eq!(response_to_result(204, "body".to_string()), Ok("body".to_string()));
    assert_eq!(
        response_to_result(404, "nope".to_string()),
        Err(FetchError::HttpStatus(404, "nope".to_string())),
    );
}

#[test]
fn each_error_variant_renders_its_message() {
    assert_eq!(
        FetchError::Transport("refused".to_string()).message(),
        "network error: refused",
    );
    assert_eq!(
        FetchError::HttpStatus(404, "missing".to_string()).message(),
        "HTTP 404: missing",
    );
    assert_eq!(FetchError::Parse("bad json".to_string()).message(), "parse error: bad json");
    assert_eq!(FetchError::Auth("expired_token".to_string()).message(), "expired_token");
    assert_eq!(FetchError::Argument("bad name".to_string()).message(), "bad name");
    assert_eq!(FetchError::ExternalTool("gh missing".to_string()).message(), "gh missing");
}

#[test]
fn decimal_rendering_is_exact() {
    assert_eq!(u64_to_string(0), "0");
    assert_eq!(u64_to_string(7), "7");
    assert_eq!(u64_to_string(12345), "12345");
    assert_eq!(u64_to_string(u64::MAX), "18446744073709551615");
    assert_eq!(u32_to_string(100), "100");
}

#[test]
fn string_helpers_compare_and_trim() {
    assert!(str_eq_str("同样", "同样"));
    assert!(!str_eq_str("a", "b"));
    assert!(!str_eq_str("a", "ab"));
    assert_eq!(trim_ascii("  tok\r\n"), "tok");
    assert_eq!(trim_ascii("   "), "");
    assert_eq!(trim_ascii(""), "");
    assert_eq!(trim_ascii("a b"), "a b");
}

#[test]
fn file_name_comes_from_under_the_last_slash() {
    assert_eq!(last_path_segment("https://example.test/a/b/file.rs"), "file.rs");
    assert_eq!(last_path_segment("plain"), "plain");
    assert_eq!(last_path_segment("dir/"), "");
}

#[test]
fn listing_entries_convert_to_repository_summaries() {
    let raw = RepoListing {
        name: "hello".to_string(),
        name_with_owner: "octo/hello".to_string(),
        description: None,
        is_private: true,
        updated_at: "2024-01-02T10:11:12Z".to_string(),
        stargazer_count: 5,
        fork_count: 2,
    };
    let repo = repo_from_listing(&raw);
    assert_eq!(repo.name, "hello");
    assert_eq!(repo.full_name, "octo/hello");
    assert_eq!(repo.description, "");
    assert!(repo.is_private);
    assert_eq!(repo.last_updated, "2024-01-02");
    assert_eq!(repo.stars_count, 5);
    assert_eq!(repo.forks_count, 2);
}

#[test]
fn relative_time_is_the_date_part() {
    assert_eq!(format_relative_time("2024-01-02T10:11:12Z"), "2024-01-02");
    assert_eq!(format_relative_time("no-timestamp"), "no-timestamp");
    assert_eq!(format_relative_time(""), "");
}

#[test]
fn repo_list_subcommand_asks_for_fifty_structured_rows() {
    let args = repo_list_args();
    assert_eq!(
        args,
        vec![
            "repo".to_string(),
            "list".to_string(),
            "--json".to_string(),
            "name,nameWithOwner,description,isPrivate,updatedAt,stargazerCount,forkCount"
                .to_string(),
            "--limit".to_string(),
            "50".to_string(),
        ],
    );
}

#[test]
fn translations_cover_both_languages() {
    assert_eq!(get(Lang::ZhCn, "app.title"), "NativeHub");
    assert_eq!(get(Lang::En, "app.title"), "NativeHub");
    assert_eq!(get(Lang::ZhCn, "login.button"), "登录 GitHub");
    assert_eq!(get(Lang::En, "login.button"), "LOGIN WITH GITHUB");
    assert_eq!(get(Lang::ZhCn, "nonsense.key"), "[MISSING]");
    let mut i18n = I18n::new(Lang::ZhCn);
    assert_eq!(i18n.t("common.cancel"), "取消");
    i18n.set_lang(Lang::En);
    assert_eq!(i18n.t("common.cancel"), "Cancel");
    assert_eq!(Lang::all(), vec![Lang::ZhCn, Lang::En]);
    assert_eq!(Lang::ZhCn.name(), "简体中文");
    assert_eq!(Lang::En.name(), "English");
    assert_eq!(I18n::default().lang, Lang::ZhCn);
}

#[test]
fn view_state_follows_auth_events() {
    let code = native_hub::auth::DeviceCodeResponse {
        device_code: "d".to_string(),
        user_code: "u".to_string(),
        verification_uri: "v".to_string(),
        expires_in: 900,
        interval: 5,
    };
    let st = AppState::RequestingCode.on_auth_event(&AppEvent::DeviceCode(code.clone()));
    assert_eq!(st, AppState::DeviceAuth { response: code });
    let st = st.on_auth_event(&AppEvent::AuthSuccess("t".to_string()));
    assert_eq!(st, AppState::Main);
    let st = AppState::RequestingCode.on_auth_event(&AppEvent::Error("x".to_string()));
    assert_eq!(st, AppState::Login);
    let st = AppState::Main.on_auth_event(&AppEvent::Error("x".to_string()));
    assert_eq!(st, AppState::Main);
    let st = AppState::Main.on_auth_event(&AppEvent::Log("x".to_string()));
    assert_eq!(st, AppState::Main);
}

#[test]
fn log_scrollback_prefixes_and_stays_bounded() {
    let mut log = LogViewer::new();
    assert_eq!(log.len(), 2);
    assert_eq!(log.line(0).as_str(), "> SYSTEM INITIALIZED");
    log.add_log("hello".to_string());
    assert_eq!(log.len(), 3);
    assert_eq!(log.line(2).as_str(), "> hello");
    for i in 0..200u32 {
        log.add_log(format!("line {}", i));
    }
    assert_eq!(log.len(), 100);
    // the newest line is kept; the oldest fell out
    assert_eq!(log.line(99).as_str(), "> line 199");
    assert_eq!(log.line(0).as_str(), "> line 100");
}

#[test]
fn sidebar_starts_on_the_issues_tab() {
    assert_eq!(Sidebar::new().active_tab, 0);
}

#[test]
fn parent_path_drops_the_last_segment() {
    assert_eq!(parent_path("a/b/c"), "a/b");
    assert_eq!(parent_path("a"), "");
    assert_eq!(parent_path(""), "");
    assert_eq!(parent_path("a/"), "a");
}

#[test]
fn file_icons_follow_the_extension_case_insensitively() {
    assert_eq!(file_icon("main.rs"), "🦀");
    assert_eq!(file_icon("Main.RS"), "🦀");
    assert_eq!(file_icon("script.PY"), "🐍");
    assert_eq!(file_icon("index.html"), "🌐");
    assert_eq!(file_icon("notes.md"), "📝");
    assert_eq!(file_icon("archive.tar.gz"), "📄");
    assert_eq!(file_icon("noext"), "📄");
    assert_eq!(file_icon("photo.JPEG"), "🖼️");
}

#[test]
fn attribute_values_come_from_the_first_closed_quote() {
    let tag = "<img src=\"https://example.test/y.png\" alt='pic'>";
    assert_eq!(
        native_hub::viewer::extract_attr(tag, "src"),
        Some("https://example.test/y.png".to_string()),
    );
    assert_eq!(native_hub::viewer::extract_attr(tag, "alt"), Some("pic".to_string()));
    assert_eq!(native_hub::viewer::extract_attr(tag, "href"), None);
    // an unclosed double-quoted value falls back to the single-quoted form,
    // and to nothing when that is missing too
    assert_eq!(native_hub::viewer::extract_attr("<a href=\"x", "href"), None);
    assert_eq!(
        native_hub::viewer::extract_attr("<a href=\"x href='y'", "href"),
        Some("y".to_string()),
    );
}

#[test]
fn tag_removal_keeps_the_contents() {
    assert_eq!(
        native_hub::viewer::remove_tag_keep_content(
            "<div class=\"x\">hello</div> <DIV>world</DIV>",
            "div",
        ),
        "hello world",
    );
    // the all-upper-case closing form is removed too; a mixed-case one is
    // neither of the two removed spellings
    assert_eq!(
        native_hub::viewer::remove_tag_keep_content("a<p>b</P>c", "p"),
        "abc",
    );
    assert_eq!(
        native_hub::viewer::remove_tag_keep_content("a<div>b</Div>c</div>", "div"),
        "ab</Div>c",
    );
    // an opening form with no closing angle bracket stays put
    assert_eq!(
        native_hub::viewer::remove_tag_keep_content("x<a href=", "a"),
        "x<a href=",
    );
}

#[test]
fn json_escaping_covers_quotes_backslashes_and_controls() {
    assert_eq!(json_escape("plain"), "plain");
    assert_eq!(json_escape("say \"hi\""), "say \\\"hi\\\"");
    assert_eq!(json_escape("a\\b"), "a\\\\b");
    assert_eq!(json_escape("line\nbreak\tand\r"), "line\\nbreak\\tand\\r");
    assert_eq!(json_escape("\u{8}\u{c}"), "\\b\\f");
    assert_eq!(json_escape("\u{1f}\u{1}"), "\\u001f\\u0001");
    assert_eq!(json_escape("汉字 ok"), "汉字 ok");
}

#[test]
fn write_requests_carry_method_url_and_body() {
    let r = create_comment_request("o", "r", 7, "hi \"there\"");
    assert_eq!(r.method, HttpMethod::Post);
    assert_eq!(r.url, "https://api.github.com/repos/o/r/issues/7/comments");
    assert_eq!(r.body, "{\"body\":\"hi \\\"there\\\"\"}");

    let r = update_issue_state_request("o", "r", 7, "closed");
    assert_eq!(r.method, HttpMethod::Patch);
    assert_eq!(r.url, "https://api.github.com/repos/o/r/issues/7");
    assert_eq!(r.body, "{\"state\":\"closed\"}");

    let r = merge_pull_request_request("o", "r", 9, "squash");
    assert_eq!(r.method, HttpMethod::Put);
    assert_eq!(r.url, "https://api.github.com/repos/o/r/pulls/9/merge");
    assert_eq!(r.body, "{\"merge_method\":\"squash\"}");

    let r = close_pull_request_request("o", "r", 9);
    assert_eq!(r.method, HttpMethod::Patch);
    assert_eq!(r.url, "https://api.github.com/repos/o/r/pulls/9");
    assert_eq!(r.body, "{\"state\":\"closed\"}");
}

#[test]
fn device_flow_forms_encode_their_fields() {
    assert_eq!(device_code_url(), "https://github.com/login/device/code");
    assert_eq!(token_poll_url(), "https://github.com/login/oauth/access_token");
    assert_eq!(
        device_code_form("my-client"),
        "client_id=my-client&scope=repo%20user%20read%3Aorg",
    );
    assert_eq!(
        token_poll_form("my-client", "dev/123"),
        "client_id=my-client&device_code=dev%2F123&grant_type=urn%3Aietf%3Aparams%3Aoauth%3Agrant-type%3Adevice_code",
    );
}
