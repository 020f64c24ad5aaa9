//! File-browser helpers that compute rather than draw: the parent of a
//! path, the icon a file's extension earns, and the scrubbing of HTML tags
//! and attributes out of README text.

use vstd::prelude::*;
use vstd::string::StringExecFns;
use crate::strutil::ci_matches_at;
use crate::strutil::eq_lowered;
use crate::strutil::find_char_from;
use crate::strutil::find_sub;
use crate::strutil::find_sub_ci;
use crate::strutil::lower_char;
use crate::strutil::lower_seq;
use crate::strutil::matches_at;
use crate::strutil::prefix_matches;
use crate::strutil::to_upper_ascii;
use crate::strutil::upper_seq;

verus! {

/// Everything before the last slash of `path`; empty when it has none.
pub fn parent_path(path: &str) -> (r: String)
    ensures
        (forall|k: int| 0 <= k < path@.len() ==> path@[k] != '/') ==> r@ == Seq::<char>::empty(),
        (exists|k: int| 0 <= k < path@.len() && path@[k] == '/') ==> {
            exists|i: int|
                {
                    &&& 0 <= i < path@.len()
                    &&& path@[i] == '/'
                    &&& (forall|k: int| i < k < path@.len() ==> path@[k] != '/')
                    &&& r@ =~= path@.subrange(0, i)
                }
        },
{
    let len = path.unicode_len();
    let mut j: usize = len;
    while j > 0
        invariant
            len == path@.len(),
            j <= len,
            forall|k: int| j <= k < len ==> path@[k] != '/',
        decreases j,
    {
        if path.get_char(j - 1) == '/' {
            let out = path.substring_char(0, j - 1);
            proof {
                assert(path@[j - 1] == '/');
            }
            return out.to_owned();
        }
        j = j - 1;
    }
    String::new()
}

/// `ext` is what stands after the last dot of `name`; the whole of `name`
/// when it has no dot.
pub open spec fn is_extension_of(ext: Seq<char>, name: Seq<char>) -> bool {
    if forall|k: int| 0 <= k < name.len() ==> name[k] != '.' {
        ext == name
    } else {
        exists|i: int|
            {
                &&& 0 <= i < name.len()
                &&& name[i] == '.'
                &&& (forall|k: int| i < k < name.len() ==> name[k] != '.')
                &&& ext =~= name.subrange(i + 1, name.len() as int)
            }
    }
}

/// The icon a case-folded extension earns.
pub open spec fn spec_icon(ext: Seq<char>) -> Seq<char> {
    if ext == "rs"@ {
        "🦀"@
    } else if ext == "py"@ {
        "🐍"@
    } else if ext == "js"@ || ext == "ts"@ || ext == "jsx"@ || ext == "tsx"@ {
        "📜"@
    } else if ext == "html"@ || ext == "css"@ {
        "🌐"@
    } else if ext == "json"@ || ext == "toml"@ || ext == "yaml"@ || ext == "yml"@ {
        "⚙️"@
    } else if ext == "md"@ {
        "📝"@
    } else if ext == "txt"@ {
        "📄"@
    } else if ext == "png"@ || ext == "jpg"@ || ext == "jpeg"@ || ext == "gif"@ || ext == "svg"@ {
        "🖼️"@
    } else {
        "📄"@
    }
}

/// The icon shown beside a file, chosen by its extension, case-folded.
pub fn file_icon(filename: &str) -> (r: &'static str)
    ensures
        exists|ext: Seq<char>|
            {
                &&& is_extension_of(ext, filename@)
                &&& r@ == spec_icon(lower_seq(ext))
            },
{
    proof {
        reveal_strlit("rs");
        reveal_strlit("py");
        reveal_strlit("js");
        reveal_strlit("ts");
        reveal_strlit("jsx");
        reveal_strlit("tsx");
        reveal_strlit("html");
        reveal_strlit("css");
        reveal_strlit("json");
        reveal_strlit("toml");
        reveal_strlit("yaml");
        reveal_strlit("yml");
        reveal_strlit("md");
        reveal_strlit("txt");
        reveal_strlit("png");
        reveal_strlit("jpg");
        reveal_strlit("jpeg");
        reveal_strlit("gif");
        reveal_strlit("svg");
    }
    let len = filename.unicode_len();
    let mut j: usize = len;
    let mut ext: &str = filename;
    let ghost mut ext_view: Seq<char> = filename@;
    let mut found = false;
    while j > 0 && !found
        invariant
            len == filename@.len(),
            j <= len,
            !found ==> forall|k: int| j <= k < len ==> filename@[k] != '.',
            !found ==> ext@ == filename@ && ext_view == filename@,
            found ==> is_extension_of(ext_view, filename@) && ext@ == ext_view,
        decreases j, (if found { 0int } else { 1int }),
    {
        if filename.get_char(j - 1) == '.' {
            ext = filename.substring_char(j, len);
            proof {
                ext_view = ext@;
                assert(filename@[j - 1] == '.');
            }
            found = true;
        } else {
            j = j - 1;
        }
    }
    proof {
        if !found {
            assert(is_extension_of(ext_view, filename@));
        }
    }
    let icon: &'static str = if eq_lowered(ext, "rs") {
        "🦀"
    } else if eq_lowered(ext, "py") {
        "🐍"
    } else if eq_lowered(ext, "js") || eq_lowered(ext, "ts") || eq_lowered(ext, "jsx")
        || eq_lowered(ext, "tsx") {
        "📜"
    } else if eq_lowered(ext, "html") || eq_lowered(ext, "css") {
        "🌐"
    } else if eq_lowered(ext, "json") || eq_lowered(ext, "toml") || eq_lowered(ext, "yaml")
        || eq_lowered(ext, "yml") {
        "⚙️"
    } else if eq_lowered(ext, "md") {
        "📝"
    } else if eq_lowered(ext, "txt") {
        "📄"
    } else if eq_lowered(ext, "png") || eq_lowered(ext, "jpg") || eq_lowered(ext, "jpeg")
        || eq_lowered(ext, "gif") || eq_lowered(ext, "svg") {
        "🖼️"
    } else {
        "📄"
    };
    proof {
        assert(is_extension_of(ext_view, filename@) && icon@ == spec_icon(lower_seq(ext_view)));
    }
    icon
}


/// `v` stands between the first occurrence of `pat` — the attribute name,
/// `=`, and the opening quote — and the next quote of the same kind.
pub open spec fn attr_value_at(tag: Seq<char>, pat: Seq<char>, quote: char, v: Seq<char>) -> bool {
    exists|i: int, j: int|
        {
            &&& matches_at(tag, pat, i)
            &&& (forall|p: int| 0 <= p < i ==> !matches_at(tag, pat, p))
            &&& i + pat.len() <= j < tag.len()
            &&& tag[j] == quote
            &&& (forall|k: int| i + pat.len() <= k < j ==> tag[k] != quote)
            &&& v =~= tag.subrange(i + pat.len(), j)
        }
}

/// The attribute occurs somewhere with a closed value.
pub open spec fn has_attr_value(tag: Seq<char>, pat: Seq<char>, quote: char) -> bool {
    exists|i: int, j: int|
        matches_at(tag, pat, i) && i + pat.len() <= j < tag.len() && tag[j] == quote
}

fn quoted_value(tag: &str, attr_name: &str, eq_quote: &str, quote: char) -> (r: Option<String>)
    ensures
        r is Some <==> has_attr_value(tag@, attr_name@ + eq_quote@, quote),
        r matches Some(v) ==> attr_value_at(tag@, attr_name@ + eq_quote@, quote, v@),
{
    let mut pat = attr_name.to_owned();
    pat.append(eq_quote);
    let taglen = tag.unicode_len();
    match find_sub(tag, pat.as_str()) {
        Some(i) => {
            let start = i + pat.as_str().unicode_len();
            match find_char_from(tag, quote, start) {
                Some(j) => {
                    let value = tag.substring_char(start, j);
                    proof {
                        assert(attr_value_at(tag@, attr_name@ + eq_quote@, quote, value@));
                        assert(has_attr_value(tag@, attr_name@ + eq_quote@, quote));
                    }
                    Some(value.to_owned())
                },
                None => {
                    proof {
                        let p = attr_name@ + eq_quote@;
                        assert(!has_attr_value(tag@, p, quote)) by {
                            if has_attr_value(tag@, p, quote) {
                                let (i2, j2) = choose|i2: int, j2: int|
                                    matches_at(tag@, p, i2) && i2 + p.len() <= j2 < tag@.len()
                                        && tag@[j2] == quote;
                                assert(i2 >= i);
                                assert(j2 >= start);
                                assert(tag@[j2] != quote);
                            }
                        }
                    }
                    None
                },
            }
        },
        None => {
            proof {
                assert(!has_attr_value(tag@, attr_name@ + eq_quote@, quote));
            }
            None
        },
    }
}

/// The value of an attribute inside one HTML tag's text: the text between
/// `name="` and the next `"`, or — only when no double-quoted value is
/// closed anywhere in the tag — between `name='` and the next `'`.
pub fn extract_attr(tag: &str, attr_name: &str) -> (r: Option<String>)
    ensures
        r is Some <==> has_attr_value(tag@, attr_name@ + "=\""@, '"') || has_attr_value(
            tag@,
            attr_name@ + "='"@,
            '\'',
        ),
        r matches Some(v) ==> (if has_attr_value(tag@, attr_name@ + "=\""@, '"') {
            attr_value_at(tag@, attr_name@ + "=\""@, '"', v@)
        } else {
            attr_value_at(tag@, attr_name@ + "='"@, '\'', v@)
        }),
{
    match quoted_value(tag, attr_name, "=\"", '"') {
        Some(v) => Some(v),
        None => quoted_value(tag, attr_name, "='", '\''),
    }
}


/// Where `pat` first occurs in `s`, ignoring letter case; negative when it
/// never does.
pub open spec fn first_ci_match(s: Seq<char>, pat: Seq<char>) -> int
    decreases s.len(),
{
    if ci_matches_at(s, pat, 0) {
        0
    } else if s.len() == 0 {
        -1
    } else {
        let r = first_ci_match(s.drop_first(), pat);
        if r < 0 {
            -1
        } else {
            r + 1
        }
    }
}

/// What `first_ci_match` finds is the first occurrence, and a negative
/// answer means there is none.
proof fn lemma_first_ci(s: Seq<char>, pat: Seq<char>)
    ensures
        first_ci_match(s, pat) >= 0 ==> ci_matches_at(s, pat, first_ci_match(s, pat)) && (forall|
            j: int,
        |
            0 <= j < first_ci_match(s, pat) ==> !ci_matches_at(s, pat, j)),
        first_ci_match(s, pat) < 0 ==> forall|j: int| !ci_matches_at(s, pat, j),
    decreases s.len(),
{
    if ci_matches_at(s, pat, 0) {
    } else if s.len() == 0 {
        assert forall|j: int| !ci_matches_at(s, pat, j) by {
            if ci_matches_at(s, pat, j) {
                assert(j == 0 && pat.len() == 0);
            }
        }
    } else {
        lemma_first_ci(s.drop_first(), pat);
        assert forall|j: int| 1 <= j && #[trigger] ci_matches_at(s, pat, j) implies ci_matches_at(
            s.drop_first(),
            pat,
            j - 1,
        ) by {
            assert forall|k: int| 0 <= k < pat.len() implies lower_char(s.drop_first()[j - 1 + k])
                == pat[k] by {
                assert(s.drop_first()[j - 1 + k] == s[j + k]);
            }
        }
        assert forall|j: int| #[trigger] ci_matches_at(s.drop_first(), pat, j) implies
            ci_matches_at(s, pat, j + 1) by {
            assert forall|k: int| 0 <= k < pat.len() implies lower_char(s[j + 1 + k]) == pat[k] by {
                assert(s.drop_first()[j + k] == s[j + 1 + k]);
            }
        }
        let r = first_ci_match(s.drop_first(), pat);
        if r < 0 {
            assert forall|j: int| !ci_matches_at(s, pat, j) by {
                if ci_matches_at(s, pat, j) {
                    if j >= 1 {
                        assert(ci_matches_at(s.drop_first(), pat, j - 1));
                    }
                }
            }
        } else {
            assert(ci_matches_at(s, pat, r + 1));
            assert forall|j: int| 0 <= j < r + 1 implies !ci_matches_at(s, pat, j) by {
                if ci_matches_at(s, pat, j) && j >= 1 {
                    assert(ci_matches_at(s.drop_first(), pat, j - 1));
                }
            }
        }
    }
}

/// The position of the first `c` in `s` at or after `from`; negative when
/// there is none.
pub open spec fn first_char_from(s: Seq<char>, c: char, from: int) -> int
    decreases s.len() - from,
{
    if from < 0 || from >= s.len() {
        -1
    } else if s[from] == c {
        from
    } else {
        first_char_from(s, c, from + 1)
    }
}

/// What `first_char_from` finds is the first such character.
proof fn lemma_first_char(s: Seq<char>, c: char, from: int)
    requires
        0 <= from <= s.len(),
    ensures
        first_char_from(s, c, from) >= 0 ==> from <= first_char_from(s, c, from) < s.len()
            && s[first_char_from(s, c, from)] == c && (forall|k: int|
            from <= k < first_char_from(s, c, from) ==> s[k] != c),
        first_char_from(s, c, from) < 0 ==> forall|k: int| from <= k < s.len() ==> s[k] != c,
    decreases s.len() - from,
{
    if from < s.len() && s[from] != c {
        lemma_first_char(s, c, from + 1);
    }
}

/// The text with every opening form of the tag removed: repeatedly, the
/// first case-folded occurrence of `pat` and everything up to its closing
/// `>` leave; an occurrence with no `>` after it stays, and ends the
/// rewriting.
pub open spec fn spec_strip_open(s: Seq<char>, pat: Seq<char>) -> Seq<char>
    decreases s.len(),
    via spec_strip_open_dec
{
    if pat.len() == 0 {
        s
    } else {
        let i = first_ci_match(s, pat);
        if i < 0 {
            s
        } else {
            let j = first_char_from(s, '>', i);
            if j < 0 {
                s
            } else {
                spec_strip_open(s.subrange(0, i) + s.subrange(j + 1, s.len() as int), pat)
            }
        }
    }
}

#[via_fn]
proof fn spec_strip_open_dec(s: Seq<char>, pat: Seq<char>) {
    if pat.len() > 0 {
        lemma_first_ci(s, pat);
        let i = first_ci_match(s, pat);
        if i >= 0 {
            lemma_first_char(s, '>', i);
        }
    }
}

/// The text with every exact occurrence of `pat` removed, scanning left to
/// right without rescanning what a removal joins up.
pub open spec fn spec_remove_all(s: Seq<char>, pat: Seq<char>) -> Seq<char>
    decreases s.len(),
{
    if s.len() == 0 || pat.len() == 0 {
        s
    } else if matches_at(s, pat, 0) {
        spec_remove_all(s.skip(pat.len() as int), pat)
    } else {
        seq![s[0]] + spec_remove_all(s.drop_first(), pat)
    }
}

fn strip_open_tags(content: &str, open_pat: &str) -> (r: String)
    ensures
        r@ == spec_strip_open(content@, open_pat@),
{
    if open_pat.is_empty() {
        return content.to_owned();
    }
    let mut cur: String = content.to_owned();
    loop
        invariant
            open_pat@.len() >= 1,
            spec_strip_open(cur@, open_pat@) == spec_strip_open(content@, open_pat@),
        decreases cur@.len(),
    {
        proof {
            lemma_first_ci(cur@, open_pat@);
        }
        match find_sub_ci(cur.as_str(), open_pat) {
            None => {
                proof {
                    assert(first_ci_match(cur@, open_pat@) < 0) by {
                        if first_ci_match(cur@, open_pat@) >= 0 {
                            assert(ci_matches_at(cur@, open_pat@, first_ci_match(cur@, open_pat@)));
                        }
                    }
                }
                return cur;
            },
            Some(i) => {
                proof {
                    assert(first_ci_match(cur@, open_pat@) == i) by {
                        let f = first_ci_match(cur@, open_pat@);
                        if f < 0 {
                            assert(!ci_matches_at(cur@, open_pat@, i as int));
                        } else if f < i {
                            assert(!ci_matches_at(cur@, open_pat@, f));
                        } else if f > i {
                            assert(!ci_matches_at(cur@, open_pat@, i as int));
                        }
                    }
                    lemma_first_char(cur@, '>', i as int);
                }
                match find_char_from(cur.as_str(), '>', i) {
                    None => {
                        proof {
                            assert(first_char_from(cur@, '>', i as int) < 0) by {
                                let g = first_char_from(cur@, '>', i as int);
                                if g >= 0 {
                                    assert(cur@[g] != '>');
                                }
                            }
                        }
                        return cur;
                    },
                    Some(j) => {
                        proof {
                            assert(first_char_from(cur@, '>', i as int) == j) by {
                                let g = first_char_from(cur@, '>', i as int);
                                if g < 0 {
                                    assert(cur@[j as int] != '>');
                                } else if g < j {
                                    assert(cur@[g] != '>');
                                } else if g > j {
                                    assert(cur@[j as int] != '>');
                                }
                            }
                        }
                        let len = cur.as_str().unicode_len();
                        let mut next = cur.as_str().substring_char(0, i).to_owned();
                        next.append(cur.as_str().substring_char(j + 1, len));
                        proof {
                            assert(next@ =~= cur@.subrange(0, i as int) + cur@.subrange(
                                j + 1,
                                cur@.len() as int,
                            ));
                        }
                        cur = next;
                    },
                }
            },
        }
    }
}

fn remove_all_sub(s: &str, pat: &str) -> (r: String)
    ensures
        r@ == spec_remove_all(s@, pat@),
{
    let slen = s.unicode_len();
    let plen = pat.unicode_len();
    if plen == 0 {
        return s.to_owned();
    }
    let mut out = String::new();
    let mut i: usize = 0;
    proof {
        assert(s@.skip(0) =~= s@);
        assert(Seq::<char>::empty() + spec_remove_all(s@, pat@) =~= spec_remove_all(s@, pat@));
    }
    while i < slen
        invariant
            slen == s@.len(),
            plen == pat@.len(),
            plen >= 1,
            i <= slen,
            out@ + spec_remove_all(s@.skip(i as int), pat@) == spec_remove_all(s@, pat@),
        decreases slen - i,
    {
        let ghost suffix = s@.skip(i as int);
        let matched = if plen <= slen - i {
            prefix_matches(s, pat, i)
        } else {
            false
        };
        if matched {
            proof {
                assert(matches_at(suffix, pat@, 0)) by {
                    assert(suffix.subrange(0, plen as int) =~= s@.subrange(i as int, i + plen));
                }
                assert(suffix.skip(plen as int) =~= s@.skip(i + plen));
            }
            i = i + plen;
        } else {
            proof {
                assert(!matches_at(suffix, pat@, 0)) by {
                    if matches_at(suffix, pat@, 0) {
                        assert(i + plen <= slen);
                        assert(s@.subrange(i as int, i + plen) =~= suffix.subrange(0, plen as int));
                    }
                }
                assert(suffix.drop_first() =~= s@.skip(i + 1));
            }
            let ch = s.substring_char(i, i + 1);
            proof {
                assert(ch@ =~= seq![s@[i as int]]);
                assert(seq![s@[i as int]] =~= seq![suffix[0]]);
            }
            out.append(ch);
            i = i + 1;
        }
    }
    proof {
        assert(s@.skip(slen as int) =~= Seq::<char>::empty());
        assert(out@ =~= spec_remove_all(s@, pat@));
    }
    out
}

/// Strips the named tag from HTML while keeping its contents: every opening
/// form (case-folded, each up to its closing `>`) leaves first, then every
/// exact lower-case closing form, then every exact upper-case closing form.
pub fn remove_tag_keep_content(content: &str, tag_name: &str) -> (r: String)
    ensures
        ({
            let closing = "</"@ + tag_name@ + ">"@;
            r@ == spec_remove_all(
                spec_remove_all(spec_strip_open(content@, "<"@ + tag_name@), closing),
                upper_seq(closing),
            )
        }),
{
    let mut open_pat = String::from_str("<");
    open_pat.append(tag_name);
    proof {
        assert(open_pat@ =~= "<"@ + tag_name@);
    }
    let opened = strip_open_tags(content, open_pat.as_str());
    let mut closing = String::from_str("</");
    closing.append(tag_name);
    closing.append(">");
    proof {
        assert(closing@ =~= "</"@ + tag_name@ + ">"@);
    }
    let pass1 = remove_all_sub(opened.as_str(), closing.as_str());
    let upper = to_upper_ascii(closing.as_str());
    remove_all_sub(pass1.as_str(), upper.as_str())
}

} // verus!