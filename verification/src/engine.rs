//! The CLI fetch engine's verified half: the exact arguments handed to the
//! external tool, and the conversion of its machine-readable listing into
//! repository summaries. The process invocation itself lives outside.

use vstd::prelude::*;
use vstd::string::StringExecFns;
use crate::strutil::is_trimmed_of;
use crate::strutil::trim_ascii;
use crate::types::RepoData;

verus! {

/// The engine that wraps the external `gh` command-line tool.
pub struct GhCliEngine;

impl GhCliEngine {
    pub fn new() -> Self {
        GhCliEngine
    }
}

/// One entry of the CLI's repository listing, as plain values.
#[derive(Debug, Clone, PartialEq)]
pub struct RepoListing {
    pub name: String,
    pub name_with_owner: String,
    pub description: Option<String>,
    pub is_private: bool,
    pub updated_at: String,
    pub stargazer_count: u32,
    pub fork_count: u32,
}

/// The arguments of the repository-list subcommand: machine-readable output
/// with exactly these fields, fifty results at most.
pub fn repo_list_args() -> (r: Vec<String>)
    ensures
        r@.len() == 6,
        r@[0]@ == "repo"@,
        r@[1]@ == "list"@,
        r@[2]@ == "--json"@,
        r@[3]@ == "name,nameWithOwner,description,isPrivate,updatedAt,stargazerCount,forkCount"@,
        r@[4]@ == "--limit"@,
        r@[5]@ == "50"@,
{
    let mut v: Vec<String> = Vec::new();
    v.push(String::from_str("repo"));
    v.push(String::from_str("list"));
    v.push(String::from_str("--json"));
    v.push(
        String::from_str(
            "name,nameWithOwner,description,isPrivate,updatedAt,stargazerCount,forkCount",
        ),
    );
    v.push(String::from_str("--limit"));
    v.push(String::from_str("50"));
    v
}

/// The failure line when the repository-list subcommand exits nonzero,
/// carrying the trimmed stderr.
pub fn repo_list_error(stderr: &str) -> (r: String)
    ensures
        exists|t: Seq<char>|
            {
                &&& is_trimmed_of(t, stderr@)
                &&& r@ == "gh repo list failed: "@ + t
            },
{
    let tail = trim_ascii(stderr);
    let mut m = String::from_str("gh repo list failed: ");
    m.append(tail.as_str());
    proof {
        assert(m@ == "gh repo list failed: "@ + tail@);
    }
    m
}

/// The prefix of `s` before the first occurrence of `c`; all of `s` when
/// `c` does not occur.
pub open spec fn spec_before_char(s: Seq<char>, c: char) -> Seq<char>
    decreases s.len(),
{
    if s.len() == 0 {
        s
    } else if s[0] == c {
        Seq::empty()
    } else {
        seq![s[0]] + spec_before_char(s.drop_first(), c)
    }
}

proof fn lemma_before_char_at(s: Seq<char>, c: char, i: int)
    requires
        0 <= i <= s.len(),
        forall|k: int| 0 <= k < i ==> s[k] != c,
        i == s.len() || s[i] == c,
    ensures
        spec_before_char(s, c) =~= s.subrange(0, i),
    decreases i,
{
    if i == 0 {
        if s.len() == 0 {
            assert(spec_before_char(s, c) =~= s.subrange(0, 0));
        } else {
            assert(s[0] == c);
        }
    } else {
        assert(s[0] != c);
        lemma_before_char_at(s.drop_first(), c, i - 1);
        assert(seq![s[0]] + s.drop_first().subrange(0, i - 1) =~= s.subrange(0, i));
    }
}

/// The date part of an ISO timestamp: what stands before the first `T`, or
/// the whole string when it has none.
pub fn format_relative_time(iso: &str) -> (r: String)
    ensures
        r@ == spec_before_char(iso@, 'T'),
{
    let len = iso.unicode_len();
    let mut i: usize = 0;
    while i < len && iso.get_char(i) != 'T'
        invariant
            len == iso@.len(),
            i <= len,
            forall|k: int| 0 <= k < i ==> iso@[k] != 'T',
        decreases len - i,
    {
        i = i + 1;
    }
    let out = iso.substring_char(0, i);
    proof {
        lemma_before_char_at(iso@, 'T', i as int);
    }
    out.to_owned()
}

/// The fields of one converted listing entry, by view: names carried over,
/// a missing description turned into an empty one, the timestamp reduced to
/// its date part.
pub open spec fn listing_converted(l: RepoListing, r: RepoData) -> bool {
    &&& r.name@ == l.name@
    &&& r.full_name@ == l.name_with_owner@
    &&& r.description@ == match l.description {
        Some(d) => d@,
        None => Seq::<char>::empty(),
    }
    &&& r.is_private == l.is_private
    &&& r.last_updated@ == spec_before_char(l.updated_at@, 'T')
    &&& r.stars_count == l.stargazer_count
    &&& r.forks_count == l.fork_count
}

/// Converts one listing entry into the repository summary the UI shows.
pub fn repo_from_listing(l: &RepoListing) -> (r: RepoData)
    ensures
        listing_converted(*l, r),
{
    let description = match &l.description {
        Some(d) => d.clone(),
        None => String::new(),
    };
    RepoData {
        name: l.name.clone(),
        full_name: l.name_with_owner.clone(),
        description,
        is_private: l.is_private,
        last_updated: format_relative_time(l.updated_at.as_str()),
        stars_count: l.stargazer_count,
        forks_count: l.fork_count,
    }
}

/// Converts the whole listing, in order.
pub fn repos_from_listing(ls: &Vec<RepoListing>) -> (r: Vec<RepoData>)
    ensures
        r@.len() == ls@.len(),
        forall|i: int| 0 <= i < ls@.len() ==> listing_converted(ls@[i], r@[i]),
{
    let mut r: Vec<RepoData> = Vec::new();
    let mut i: usize = 0;
    while i < ls.len()
        invariant
            i <= ls@.len(),
            r@.len() == i,
            forall|k: int| 0 <= k < i ==> listing_converted(ls@[k], r@[k]),
        decreases ls@.len() - i,
    {
        r.push(repo_from_listing(&ls[i]));
        i = i + 1;
    }
    r
}

} // verus!
