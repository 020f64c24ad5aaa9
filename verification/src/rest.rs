//! Request construction for the REST fetch engine: repository-identifier
//! parsing, endpoint URLs, the standard headers, and status classification.
//! The transport itself lives outside; everything a request is built from is
//! verified here.

use vstd::prelude::*;
use vstd::string::StringExecFns;
use crate::errors::FetchError;
use crate::strutil::json_escape;
use crate::strutil::spec_decimal;
use crate::strutil::spec_json_escaped;
use crate::strutil::u32_to_string;

verus! {

/// `full_name` is `owner/repo`: exactly one slash, anywhere.
pub open spec fn is_owner_repo_form(s: Seq<char>) -> bool {
    exists|i: int|
        0 <= i < s.len() && s[i] == '/' && (forall|k: int|
            0 <= k < s.len() && k != i ==> s[k] != '/')
}

/// `owner` and `repo` are the two halves of `s` on either side of a slash.
pub open spec fn splits_owner_repo(s: Seq<char>, owner: Seq<char>, repo: Seq<char>) -> bool {
    exists|i: int|
        {
            &&& 0 <= i < s.len()
            &&& s[i] == '/'
            &&& owner =~= s.subrange(0, i)
            &&& repo =~= s.subrange(i + 1, s.len() as int)
        }
}

/// Splits an `owner/repo` identifier at its single slash. Any other shape —
/// no slash, or more than one — is rejected without building anything.
pub fn parse_full_name(full_name: &str) -> (r: Option<(String, String)>)
    ensures
        r is Some <==> is_owner_repo_form(full_name@),
        r matches Some(p) ==> splits_owner_repo(full_name@, p.0@, p.1@),
{
    let len = full_name.unicode_len();
    let mut i: usize = 0;
    let mut slash: Option<usize> = None;
    while i < len
        invariant
            len == full_name@.len(),
            i <= len,
            slash matches Some(s) ==> s < i && full_name@[s as int] == '/' && (forall|k: int|
                0 <= k < i && k != s ==> full_name@[k] != '/'),
            slash is None ==> forall|k: int| 0 <= k < i ==> full_name@[k] != '/',
        decreases len - i,
    {
        if full_name.get_char(i) == '/' {
            match slash {
                None => {
                    slash = Some(i);
                },
                Some(_) => {
                    proof {
                        let s = slash->0;
                        assert(full_name@[s as int] == '/');
                        assert(full_name@[i as int] == '/');
                        assert(!is_owner_repo_form(full_name@)) by {
                            assert(forall|j: int|
                                0 <= j < full_name@.len() && full_name@[j] == '/' ==> !(forall|
                                    k: int,
                                |
                                    0 <= k < full_name@.len() && k != j ==> full_name@[k] != '/'))
                                by {
                                assert forall|j: int|
                                    0 <= j < full_name@.len() && full_name@[j]
                                        == '/' implies !(forall|k: int|
                                    0 <= k < full_name@.len() && k != j ==> full_name@[k]
                                        != '/') by {
                                    if j == s {
                                        assert(full_name@[i as int] == '/' && i as int != j);
                                    } else {
                                        assert(full_name@[s as int] == '/' && s as int != j);
                                    }
                                }
                            }
                        }
                    }
                    return None;
                },
            }
        }
        i = i + 1;
    }
    match slash {
        Some(s) => {
            let owner = full_name.substring_char(0, s);
            let repo = full_name.substring_char(s + 1, len);
            proof {
                assert(is_owner_repo_form(full_name@)) by {
                    assert(full_name@[s as int] == '/' && (forall|k: int|
                        0 <= k < full_name@.len() && k != s ==> full_name@[k] != '/'));
                }
            }
            Some((owner.to_owned(), repo.to_owned()))
        },
        None => {
            proof {
                assert(!is_owner_repo_form(full_name@));
            }
            None
        },
    }
}

/// The service's API root for repository resources.
pub fn repos_root() -> (r: &'static str)
    ensures
        r@ == "https://api.github.com/repos/"@,
{
    "https://api.github.com/repos/"
}

/// The repository-metadata endpoint.
pub fn repo_url(owner: &str, repo: &str) -> (r: String)
    ensures
        r@ == "https://api.github.com/repos/"@ + owner@ + "/"@ + repo@,
{
    let mut u = String::from_str(repos_root());
    u.append(owner);
    u.append("/");
    u.append(repo);
    proof {
        assert(u@ =~= "https://api.github.com/repos/"@ + owner@ + "/"@ + repo@);
    }
    u
}

/// The directory-contents endpoint; an empty path addresses the repository
/// root.
pub fn contents_url(owner: &str, repo: &str, path: &str) -> (r: String)
    ensures
        path@.len() == 0 ==> r@ == "https://api.github.com/repos/"@ + owner@ + "/"@ + repo@
            + "/contents"@,
        path@.len() > 0 ==> r@ == "https://api.github.com/repos/"@ + owner@ + "/"@ + repo@
            + "/contents/"@ + path@,
{
    let mut u = repo_url(owner, repo);
    if path.is_empty() {
        u.append("/contents");
        proof {
            assert(u@ =~= "https://api.github.com/repos/"@ + owner@ + "/"@ + repo@ + "/contents"@);
        }
    } else {
        u.append("/contents/");
        u.append(path);
        proof {
            assert(u@ =~= "https://api.github.com/repos/"@ + owner@ + "/"@ + repo@ + "/contents/"@
                + path@);
        }
    }
    u
}

/// What `urlencoding::encode` returns for a given string. The encoding
/// depends on the input characters alone.
pub uninterp spec fn percent_encoded(s: Seq<char>) -> Seq<char>;

/// Relies on urlencoding::encode: percent-encodes every byte except ASCII
/// alphanumerics and `-`, `_`, `.`, `~`; an empty string stays empty.
#[verifier::external_body]
fn percent_encode(s: &str) -> (r: String)
    ensures
        r@ == percent_encoded(s@),
        s@.len() == 0 ==> r@.len() == 0,
{
    urlencoding::encode(s).into_owned()
}

/// The largest page size any request may ask for.
pub fn max_page_size() -> (r: u32)
    ensures
        r == 100,
{
    100
}

/// The repository-search endpoint: the query percent-encoded, the page size
/// capped at 100, and the optional sort key appended last.
pub fn search_url(query: &str, sort: Option<&str>, per_page: u32) -> (r: String)
    ensures
        ({
            let capped: nat = if per_page > 100 {
                100nat
            } else {
                per_page as nat
            };
            match sort {
                Some(s) => r@ == "https://api.github.com/search/repositories?q="@
                    + percent_encoded(query@) + "&per_page="@ + spec_decimal(capped) + "&sort="@
                    + s@,
                None => r@ == "https://api.github.com/search/repositories?q="@ + percent_encoded(
                    query@,
                ) + "&per_page="@ + spec_decimal(capped),
            }
        }),
{
    let capped = if per_page > max_page_size() {
        max_page_size()
    } else {
        per_page
    };
    let mut u = String::from_str("https://api.github.com/search/repositories?q=");
    let encoded = percent_encode(query);
    u.append(encoded.as_str());
    u.append("&per_page=");
    let pp = u32_to_string(capped);
    u.append(pp.as_str());
    match sort {
        Some(s) => {
            u.append("&sort=");
            u.append(s);
            proof {
                assert(u@ =~= "https://api.github.com/search/repositories?q="@ + percent_encoded(
                    query@,
                ) + "&per_page="@ + spec_decimal(capped as nat) + "&sort="@ + s@);
            }
        },
        None => {
            proof {
                assert(u@ =~= "https://api.github.com/search/repositories?q="@ + percent_encoded(
                    query@,
                ) + "&per_page="@ + spec_decimal(capped as nat));
            }
        },
    }
    u
}

/// The issue-listing endpoint, thirty to a page.
pub fn issues_url(owner: &str, repo: &str, state: &str) -> (r: String)
    ensures
        r@ == "https://api.github.com/repos/"@ + owner@ + "/"@ + repo@ + "/issues?state="@ + state@
            + "&per_page=30"@,
{
    let mut u = repo_url(owner, repo);
    u.append("/issues?state=");
    u.append(state);
    u.append("&per_page=30");
    proof {
        assert(u@ =~= "https://api.github.com/repos/"@ + owner@ + "/"@ + repo@ + "/issues?state="@
            + state@ + "&per_page=30"@);
    }
    u
}

/// One issue's endpoint, for state changes.
pub fn issue_url(owner: &str, repo: &str, number: u32) -> (r: String)
    ensures
        r@ == "https://api.github.com/repos/"@ + owner@ + "/"@ + repo@ + "/issues/"@
            + spec_decimal(number as nat),
{
    let mut u = repo_url(owner, repo);
    u.append("/issues/");
    let n = u32_to_string(number);
    u.append(n.as_str());
    proof {
        assert(u@ =~= "https://api.github.com/repos/"@ + owner@ + "/"@ + repo@ + "/issues/"@
            + spec_decimal(number as nat));
    }
    u
}

/// One issue's comments endpoint, for listing and for creation.
pub fn issue_comments_url(owner: &str, repo: &str, number: u32) -> (r: String)
    ensures
        r@ == "https://api.github.com/repos/"@ + owner@ + "/"@ + repo@ + "/issues/"@
            + spec_decimal(number as nat) + "/comments"@,
{
    let mut u = issue_url(owner, repo, number);
    u.append("/comments");
    proof {
        assert(u@ =~= "https://api.github.com/repos/"@ + owner@ + "/"@ + repo@ + "/issues/"@
            + spec_decimal(number as nat) + "/comments"@);
    }
    u
}

/// The pull-request listing endpoint, thirty to a page.
pub fn pulls_url(owner: &str, repo: &str, state: &str) -> (r: String)
    ensures
        r@ == "https://api.github.com/repos/"@ + owner@ + "/"@ + repo@ + "/pulls?state="@ + state@
            + "&per_page=30"@,
{
    let mut u = repo_url(owner, repo);
    u.append("/pulls?state=");
    u.append(state);
    u.append("&per_page=30");
    proof {
        assert(u@ =~= "https://api.github.com/repos/"@ + owner@ + "/"@ + repo@ + "/pulls?state="@
            + state@ + "&per_page=30"@);
    }
    u
}

/// One pull request's endpoint, for closing.
pub fn pull_url(owner: &str, repo: &str, number: u32) -> (r: String)
    ensures
        r@ == "https://api.github.com/repos/"@ + owner@ + "/"@ + repo@ + "/pulls/"@ + spec_decimal(
            number as nat,
        ),
{
    let mut u = repo_url(owner, repo);
    u.append("/pulls/");
    let n = u32_to_string(number);
    u.append(n.as_str());
    proof {
        assert(u@ =~= "https://api.github.com/repos/"@ + owner@ + "/"@ + repo@ + "/pulls/"@
            + spec_decimal(number as nat));
    }
    u
}

/// One pull request's merge endpoint.
pub fn merge_url(owner: &str, repo: &str, number: u32) -> (r: String)
    ensures
        r@ == "https://api.github.com/repos/"@ + owner@ + "/"@ + repo@ + "/pulls/"@ + spec_decimal(
            number as nat,
        ) + "/merge"@,
{
    let mut u = pull_url(owner, repo, number);
    u.append("/merge");
    proof {
        assert(u@ =~= "https://api.github.com/repos/"@ + owner@ + "/"@ + repo@ + "/pulls/"@
            + spec_decimal(number as nat) + "/merge"@);
    }
    u
}

/// The bearer-token authorization header value.
pub fn bearer_header(token: &str) -> (r: String)
    ensures
        r@ == "Bearer "@ + token@,
{
    let mut h = String::from_str("Bearer ");
    h.append(token);
    h
}

/// The four headers every REST request carries: the bearer token, the
/// response-shape accept header, the fixed client identifier, and the
/// versioned API revision.
pub fn standard_headers(token: &str) -> (r: Vec<(String, String)>)
    ensures
        r@.len() == 4,
        r@[0].0@ == "Authorization"@ && r@[0].1@ == "Bearer "@ + token@,
        r@[1].0@ == "Accept"@ && r@[1].1@ == "application/vnd.github+json"@,
        r@[2].0@ == "User-Agent"@ && r@[2].1@ == "NativeHub-Rust-Client"@,
        r@[3].0@ == "X-GitHub-Api-Version"@ && r@[3].1@ == "2022-11-28"@,
{
    let mut v: Vec<(String, String)> = Vec::new();
    v.push((String::from_str("Authorization"), bearer_header(token)));
    v.push((String::from_str("Accept"), String::from_str("application/vnd.github+json")));
    v.push((String::from_str("User-Agent"), String::from_str("NativeHub-Rust-Client")));
    v.push((String::from_str("X-GitHub-Api-Version"), String::from_str("2022-11-28")));
    v
}

/// Whether an HTTP status is a success, as the engines classify responses.
pub fn http_success(status: u32) -> (r: bool)
    ensures
        r == (200 <= status < 300),
{
    200 <= status && status < 300
}

/// Classifies a response: a 2xx status passes the body through; anything
/// else becomes a typed error carrying the status and the body.
pub fn response_to_result(status: u32, body: String) -> (r: Result<String, FetchError>)
    ensures
        200 <= status < 300 ==> r == Ok::<String, FetchError>(body),
        !(200 <= status < 300) ==> r == Err::<String, FetchError>(
            FetchError::HttpStatus(status, body),
        ),
{
    if http_success(status) {
        Ok(body)
    } else {
        Err(FetchError::HttpStatus(status, body))
    }
}

/// `seg` is what stands under the last slash of `url`; the whole of `url`
/// when it has no slash.
pub open spec fn is_last_segment_of(seg: Seq<char>, url: Seq<char>) -> bool {
    if forall|k: int| 0 <= k < url.len() ==> url[k] != '/' {
        seg == url
    } else {
        exists|i: int|
            {
                &&& 0 <= i < url.len()
                &&& url[i] == '/'
                &&& (forall|k: int| i < k < url.len() ==> url[k] != '/')
                &&& seg =~= url.subrange(i + 1, url.len() as int)
            }
    }
}

/// The name under the last slash of a URL; the whole string when it has no
/// slash. Used to label file-content events.
pub fn last_path_segment(url: &str) -> (r: String)
    ensures
        is_last_segment_of(r@, url@),
{
    let len = url.unicode_len();
    let mut j: usize = len;
    while j > 0
        invariant
            len == url@.len(),
            j <= len,
            forall|k: int| j <= k < len ==> url@[k] != '/',
        decreases j,
    {
        if url.get_char(j - 1) == '/' {
            let out = url.substring_char(j, len);
            proof {
                assert(url@[j - 1] == '/');
            }
            return out.to_owned();
        }
        j = j - 1;
    }
    url.to_owned()
}


/// The HTTP method a request uses.
#[derive(Debug, Clone, Copy, PartialEq, Eq, Structural)]
pub enum HttpMethod {
    Get,
    Post,
    Patch,
    Put,
}

/// One write request to the service: its method, its URL, and the JSON
/// body it sends.
#[derive(Debug, Clone, PartialEq)]
pub struct ApiRequest {
    pub method: HttpMethod,
    pub url: String,
    pub body: String,
}

/// The request that creates a comment: POST to the issue's comments
/// endpoint with the free-text body under the `body` key, JSON-escaped.
pub fn create_comment_request(owner: &str, repo: &str, number: u32, body: &str) -> (r: ApiRequest)
    ensures
        r.method == HttpMethod::Post,
        r.url@ == "https://api.github.com/repos/"@ + owner@ + "/"@ + repo@ + "/issues/"@
            + spec_decimal(number as nat) + "/comments"@,
        r.body@ == "{\"body\":\""@ + spec_json_escaped(body@) + "\"}"@,
{
    let url = issue_comments_url(owner, repo, number);
    let mut b = String::from_str("{\"body\":\"");
    let escaped = json_escape(body);
    b.append(escaped.as_str());
    b.append("\"}");
    proof {
        assert(b@ =~= "{\"body\":\""@ + spec_json_escaped(body@) + "\"}"@);
    }
    ApiRequest { method: HttpMethod::Post, url, body: b }
}

/// The request that closes or reopens an issue: PATCH to the issue's
/// endpoint with the state under the `state` key.
pub fn update_issue_state_request(owner: &str, repo: &str, number: u32, state: &str) -> (r:
    ApiRequest)
    ensures
        r.method == HttpMethod::Patch,
        r.url@ == "https://api.github.com/repos/"@ + owner@ + "/"@ + repo@ + "/issues/"@
            + spec_decimal(number as nat),
        r.body@ == "{\"state\":\""@ + spec_json_escaped(state@) + "\"}"@,
{
    let url = issue_url(owner, repo, number);
    let mut b = String::from_str("{\"state\":\"");
    let escaped = json_escape(state);
    b.append(escaped.as_str());
    b.append("\"}");
    proof {
        assert(b@ =~= "{\"state\":\""@ + spec_json_escaped(state@) + "\"}"@);
    }
    ApiRequest { method: HttpMethod::Patch, url, body: b }
}

/// The request that merges a pull request: PUT to its merge endpoint with
/// the strategy under the `merge_method` key.
pub fn merge_pull_request_request(
    owner: &str,
    repo: &str,
    number: u32,
    merge_method: &str,
) -> (r: ApiRequest)
    ensures
        r.method == HttpMethod::Put,
        r.url@ == "https://api.github.com/repos/"@ + owner@ + "/"@ + repo@ + "/pulls/"@
            + spec_decimal(number as nat) + "/merge"@,
        r.body@ == "{\"merge_method\":\""@ + spec_json_escaped(merge_method@) + "\"}"@,
{
    let url = merge_url(owner, repo, number);
    let mut b = String::from_str("{\"merge_method\":\"");
    let escaped = json_escape(merge_method);
    b.append(escaped.as_str());
    b.append("\"}");
    proof {
        assert(b@ =~= "{\"merge_method\":\""@ + spec_json_escaped(merge_method@) + "\"}"@);
    }
    ApiRequest { method: HttpMethod::Put, url, body: b }
}

/// The request that closes a pull request: PATCH to its endpoint with the
/// fixed closed-state body.
pub fn close_pull_request_request(owner: &str, repo: &str, number: u32) -> (r: ApiRequest)
    ensures
        r.method == HttpMethod::Patch,
        r.url@ == "https://api.github.com/repos/"@ + owner@ + "/"@ + repo@ + "/pulls/"@
            + spec_decimal(number as nat),
        r.body@ == "{\"state\":\"closed\"}"@,
{
    let url = pull_url(owner, repo, number);
    ApiRequest {
        method: HttpMethod::Patch,
        url,
        body: String::from_str("{\"state\":\"closed\"}"),
    }
}

/// The device-code endpoint.
pub fn device_code_url() -> (r: &'static str)
    ensures
        r@ == "https://github.com/login/device/code"@,
{
    "https://github.com/login/device/code"
}

/// The token endpoint the device flow polls.
pub fn token_poll_url() -> (r: &'static str)
    ensures
        r@ == "https://github.com/login/oauth/access_token"@,
{
    "https://github.com/login/oauth/access_token"
}

/// The form body of the device-code request: the client identifier and the
/// fixed scopes, percent-encoded.
pub fn device_code_form(client_id: &str) -> (r: String)
    ensures
        r@ == "client_id="@ + percent_encoded(client_id@) + "&scope="@ + percent_encoded(
            "repo user read:org"@,
        ),
{
    let mut f = String::from_str("client_id=");
    let cid = percent_encode(client_id);
    f.append(cid.as_str());
    f.append("&scope=");
    let scope = percent_encode("repo user read:org");
    f.append(scope.as_str());
    proof {
        assert(f@ =~= "client_id="@ + percent_encoded(client_id@) + "&scope="@ + percent_encoded(
            "repo user read:org"@,
        ));
    }
    f
}

/// The form body of one token poll: the client identifier, the device code,
/// and the fixed grant type, percent-encoded.
pub fn token_poll_form(client_id: &str, device_code: &str) -> (r: String)
    ensures
        r@ == "client_id="@ + percent_encoded(client_id@) + "&device_code="@ + percent_encoded(
            device_code@,
        ) + "&grant_type="@ + percent_encoded(
            "urn:ietf:params:oauth:grant-type:device_code"@,
        ),
{
    let mut f = String::from_str("client_id=");
    let cid = percent_encode(client_id);
    f.append(cid.as_str());
    f.append("&device_code=");
    let dc = percent_encode(device_code);
    f.append(dc.as_str());
    f.append("&grant_type=");
    let gt = percent_encode("urn:ietf:params:oauth:grant-type:device_code");
    f.append(gt.as_str());
    proof {
        assert(f@ =~= "client_id="@ + percent_encoded(client_id@) + "&device_code="@
            + percent_encoded(device_code@) + "&grant_type="@ + percent_encoded(
            "urn:ietf:params:oauth:grant-type:device_code"@,
        ));
    }
    f
}

} // verus!