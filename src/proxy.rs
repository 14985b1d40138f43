use vstd::prelude::*;
use vstd::utf8::encode_utf8;
use crate::encoding::{decimal, decimal_chars, form_bytes, form_encode};
use crate::requests::{decoded_param, id_path, str_from_param};

verus! {

/// Unicode White_Space, the characters that `str::trim` removes.
pub open spec fn is_space(c: char) -> bool {
    ('\u{9}' <= c <= '\u{d}') || c == ' ' || c == '\u{85}' || c == '\u{a0}' || c == '\u{1680}'
        || ('\u{2000}' <= c <= '\u{200a}') || c == '\u{2028}' || c == '\u{2029}' || c
        == '\u{202f}' || c == '\u{205f}' || c == '\u{3000}'
}

/// Relies on `char::is_whitespace`: the White_Space property.
#[verifier::external_body]
fn space_char(c: char) -> (r: bool)
    ensures
        r == is_space(c),
{
    c.is_whitespace()
}

/// The first index at or after `i` that holds `c`, or the length.
pub open spec fn first_from(s: Seq<char>, c: char, i: int) -> int
    decreases s.len() - i,
{
    if i >= s.len() {
        s.len() as int
    } else if s[i] == c {
        i
    } else {
        first_from(s, c, i + 1)
    }
}

/// A sequence with its trailing whitespace removed.
pub open spec fn trim_end(s: Seq<char>) -> Seq<char>
    decreases s.len(),
{
    if s.len() > 0 && is_space(s.last()) {
        trim_end(s.drop_last())
    } else {
        s
    }
}

pub open spec fn rel_next() -> Seq<char> {
    seq!['r', 'e', 'l', '=', '"', 'n', 'e', 'x', 't', '"']
}

/// Whether a comma-separated entry of a `Link` header carries `rel="next"`
/// at its end, whitespace aside.
pub open spec fn marks_next(entry: Seq<char>) -> bool {
    let t = trim_end(entry);
    t.len() >= 10 && t.subrange(t.len() - 10, t.len() as int) == rel_next()
}

/// Bounds of the first entry, from the entry that starts at `i` on, that
/// carries `rel="next"`.
pub open spec fn next_entry_from(s: Seq<char>, i: int) -> Option<(int, int)>
    decreases s.len() + 1 - i via next_entry_from_decreases
{
    if i < 0 || i > s.len() {
        None
    } else {
        let e = first_from(s, ',', i);
        if marks_next(s.subrange(i, e)) {
            Some((i, e))
        } else if e >= s.len() {
            None
        } else {
            next_entry_from(s, e + 1)
        }
    }
}

/// The text between the first `<` and the first `>` of an entry, when both
/// are there in that order.
pub open spec fn link_target(entry: Seq<char>) -> Option<Seq<char>> {
    let a = first_from(entry, '<', 0);
    let b = first_from(entry, '>', 0);
    if a >= entry.len() || b >= entry.len() || b < a + 1 {
        None
    } else {
        Some(entry.subrange(a + 1, b))
    }
}

/// The URL of the `next` relation in a `Link` header.
pub open spec fn next_url(link: Seq<char>) -> Option<Seq<char>> {
    match next_entry_from(link, 0) {
        None => None,
        Some((i, e)) => link_target(link.subrange(i, e)),
    }
}

proof fn lemma_first_from_bounds(s: Seq<char>, c: char, i: int)
    requires
        0 <= i <= s.len(),
    ensures
        i <= first_from(s, c, i) <= s.len(),
    decreases s.len() - i,
{
    if i < s.len() && s[i] != c {
        lemma_first_from_bounds(s, c, i + 1);
    }
}

#[via_fn]
proof fn next_entry_from_decreases(s: Seq<char>, i: int) {
    if 0 <= i <= s.len() {
        lemma_first_from_bounds(s, ',', i);
    }
}

proof fn lemma_first_from_skip(s: Seq<char>, c: char, i: int, j: int)
    requires
        0 <= i <= j <= s.len(),
        forall|k: int| i <= k < j ==> s[k] != c,
    ensures
        first_from(s, c, i) == first_from(s, c, j),
    decreases j - i,
{
    if i < j {
        lemma_first_from_skip(s, c, i + 1, j);
    }
}

fn find_from(s: &str, n: usize, c: char, i: usize) -> (r: usize)
    requires
        n == s@.len(),
        i <= n,
    ensures
        r == first_from(s@, c, i as int),
        i <= r <= n,
{
    let mut k = i;
    while k < n && s.get_char(k) != c
        invariant
            n == s@.len(),
            i <= k <= n,
            forall|m: int| i <= m < k ==> s@[m] != c,
        decreases n - k,
    {
        k = k + 1;
    }
    proof {
        lemma_first_from_skip(s@, c, i as int, k as int);
    }
    k
}

fn entry_marks_next(s: &str, i: usize, e: usize) -> (r: bool)
    requires
        i <= e <= s@.len(),
    ensures
        r == marks_next(s@.subrange(i as int, e as int)),
{
    let mut t = e;
    while t > i && space_char(s.get_char(t - 1))
        invariant
            i <= t <= e <= s@.len(),
            trim_end(s@.subrange(i as int, e as int)) == trim_end(s@.subrange(i as int, t as int)),
        decreases t,
    {
        assert(s@.subrange(i as int, t as int).drop_last() =~= s@.subrange(i as int, t - 1));
        t = t - 1;
    }
    assert(trim_end(s@.subrange(i as int, t as int)) == s@.subrange(i as int, t as int));
    if t - i < 10 {
        return false;
    }
    let tail = String::from_str(s.substring_char(t - 10, t));
    let want = String::from_str("rel=\"next\"");
    proof {
        reveal_strlit("rel=\"next\"");
        assert(s@.subrange(i as int, t as int).subrange((t - i) - 10, (t - i) as int) =~= s@.subrange(
            t - 10,
            t as int,
        ));
    }
    let r = tail.eq(&want);
    proof {
        assert(want@ =~= rel_next());
        let te = trim_end(s@.subrange(i as int, e as int));
        assert(te.subrange(te.len() - 10, te.len() as int) =~= tail@);
    }
    r
}

/// The URL of the `next` relation in a `Link` header, if there is one.
pub fn next_link_url(link: &str) -> (r: Option<String>)
    ensures
        match next_url(link@) {
            None => r is None,
            Some(u) => r matches Some(x) && x@ == u,
        },
{
    let n = link.unicode_len();
    let mut i: usize = 0;
    loop
        invariant
            n == link@.len(),
            i <= n,
            next_entry_from(link@, 0) == next_entry_from(link@, i as int),
        decreases n - i,
    {
        let e = find_from(link, n, ',', i);
        if entry_marks_next(link, i, e) {
            let entry = link.substring_char(i, e);
            let m = e - i;
            let a = find_from(entry, m, '<', 0);
            let b = find_from(entry, m, '>', 0);
            if a >= m || b >= m || b < a + 1 {
                return None;
            }
            return Some(String::from_str(entry.substring_char(a + 1, b)));
        }
        if e >= n {
            return None;
        }
        i = e + 1;
    }
}

pub open spec fn link_prefix() -> Seq<char> {
    seq!['<', 'c', 'o', 'm', 'm', 'i', 't', 's', '?', 'p', 'a', 'g', 'e', '=']
}

pub open spec fn link_suffix() -> Seq<char> {
    seq!['>', ';', ' ', 'r', 'e', 'l', '=', '"', 'n', 'e', 'x', 't', '"']
}

/// The `Link` header to send for an upstream `Link` header: when upstream
/// names a next page, a link to the local commits route whose `page`
/// parameter is the form-encoded upstream URL; otherwise none.
pub fn next_page_link(upstream_link: &str) -> (r: Option<String>)
    ensures
        match next_url(upstream_link@) {
            None => r is None,
            Some(u) => r matches Some(l) && exists|t: Seq<char>|
                encode_utf8(t) == form_bytes(encode_utf8(u)) && l@ == link_prefix() + t
                    + link_suffix(),
        },
{
    match next_link_url(upstream_link) {
        None => None,
        Some(u) => {
            let token = form_encode(u.as_str());
            let mut out = String::from_str("<commits?page=");
            out.append(token.as_str());
            out.append(">; rel=\"next\"");
            proof {
                reveal_strlit("<commits?page=");
                reveal_strlit(">; rel=\"next\"");
                assert(out@ =~= link_prefix() + token@ + link_suffix());
            }
            Some(out)
        },
    }
}

/// The upstream path for a page of commits: the continuation URL as it was
/// handed back, or the first page of the project's commits.
pub open spec fn commits_path_of(repo_id: u64, page: Option<Seq<char>>) -> Seq<char> {
    match page {
        Some(p) => p,
        None => seq!['p', 'r', 'o', 'j', 'e', 'c', 't', 's', '/'] + decimal_chars(repo_id as nat)
            + seq![
            '/', 'r', 'e', 'p', 'o', 's', 'i', 't', 'o', 'r', 'y', '/', 'c', 'o', 'm', 'm', 'i', 't', 's',
            '?', 'p', 'e', 'r', '_', 'p', 'a', 'g', 'e', '=', '1', '0', '0',
        ],
    }
}

pub fn commits_path(repo_id: u64, page: Option<String>) -> (r: String)
    ensures
        r@ == commits_path_of(
            repo_id,
            match page {
                Some(p) => Some(p@),
                None => None,
            },
        ),
{
    match page {
        Some(p) => p,
        None => {
            let mut out = String::from_str("projects/");
            out.append(decimal(repo_id).as_str());
            out.append("/repository/commits?per_page=100");
            proof {
                reveal_strlit("projects/");
                reveal_strlit("/repository/commits?per_page=100");
            }
            assert(out@ =~= commits_path_of(repo_id, None));
            out
        },
    }
}

/// The archive format of a download, `tar.gz` unless the request names one.
pub struct DownloadFormat(pub String);

impl DownloadFormat {
    pub fn default() -> (r: DownloadFormat)
        ensures
            r.0@ == "tar.gz"@,
    {
        DownloadFormat(String::from_str("tar.gz"))
    }

    /// A format from a query value, percent-decoded.
    pub fn from_form_value(raw: &str) -> (r: Option<DownloadFormat>)
        ensures
            match decoded_param(raw@) {
                None => r is None,
                Some(d) => r matches Some(f) && f.0@ == d,
            },
    {
        match str_from_param(raw) {
            Some(s) => Some(DownloadFormat(s)),
            None => None,
        }
    }
}

/// The upstream path of a project's archive in a format.
pub fn archive_path(repo_id: u64, format: &DownloadFormat) -> (r: String)
    ensures
        r@ == id_path("projects/"@, repo_id, "/repository/archive."@) + format.0@,
{
    let mut p = String::from_str("projects/");
    p.append(decimal(repo_id).as_str());
    p.append("/repository/archive.");
    p.append(format.0.as_str());
    p
}

/// The headers of a relayed archive: the upstream `Content-Disposition` and
/// `Etag` when upstream sent them, then a binary transfer encoding and
/// content type. No other upstream header passes.
pub open spec fn archive_header_list(disposition: Option<Seq<char>>, etag: Option<Seq<char>>) -> Seq<
    (Seq<char>, Seq<char>),
> {
    (match disposition {
        Some(d) => seq![("Content-Disposition"@, d)],
        None => Seq::empty(),
    }) + (match etag {
        Some(e) => seq![("Etag"@, e)],
        None => Seq::empty(),
    }) + seq![
        ("Content-Transfer-Encoding"@, "binary"@),
        ("Content-Type"@, "application/octet-stream"@),
    ]
}

pub open spec fn opt_view(s: Option<String>) -> Option<Seq<char>> {
    match s {
        Some(x) => Some(x@),
        None => None,
    }
}

fn header(name: &str, value: &str) -> (r: (String, String))
    ensures
        r.0@ == name@,
        r.1@ == value@,
{
    (String::from_str(name), String::from_str(value))
}

pub fn archive_headers(disposition: Option<String>, etag: Option<String>) -> (r: Vec<(String, String)>)
    ensures
        r@.len() == archive_header_list(opt_view(disposition), opt_view(etag)).len(),
        forall|i: int|
            0 <= i < r@.len() ==> (#[trigger] r@[i]).0@ == archive_header_list(
                opt_view(disposition),
                opt_view(etag),
            )[i].0 && r@[i].1@ == archive_header_list(opt_view(disposition), opt_view(etag))[i].1,
{
    let ghost want = archive_header_list(opt_view(disposition), opt_view(etag));
    let mut out: Vec<(String, String)> = Vec::new();
    let ghost dv: Seq<(Seq<char>, Seq<char>)> = match opt_view(disposition) {
        Some(d) => seq![("Content-Disposition"@, d)],
        None => Seq::empty(),
    };
    let ghost ev: Seq<(Seq<char>, Seq<char>)> = match opt_view(etag) {
        Some(e) => seq![("Etag"@, e)],
        None => Seq::empty(),
    };
    if let Some(d) = disposition {
        out.push((String::from_str("Content-Disposition"), d));
    }
    assert(out@.len() == dv.len());
    assert(forall|i: int| 0 <= i < out@.len() ==> (#[trigger] out@[i]).0@ == dv[i].0 && out@[i].1@ == dv[i].1);
    let ghost n1 = out@.len();
    if let Some(e) = etag {
        out.push((String::from_str("Etag"), e));
    }
    assert(out@.len() == (dv + ev).len());
    assert(forall|i: int| 0 <= i < out@.len() ==> (#[trigger] out@[i]).0@ == (dv + ev)[i].0 && out@[i].1@ == (dv + ev)[i].1);
    out.push(header("Content-Transfer-Encoding", "binary"));
    out.push(header("Content-Type", "application/octet-stream"));
    assert(want == dv + ev + seq![
        ("Content-Transfer-Encoding"@, "binary"@),
        ("Content-Type"@, "application/octet-stream"@),
    ]);
    out
}

/// The upstream health endpoint, relative to the API base.
pub fn health_path() -> (r: &'static str)
    ensures
        r@ == "../../-/health"@,
{
    "../../-/health"
}

/// The status and text of a health check: the store is checked first, then
/// upstream.
pub fn health_status(store_reachable: bool, upstream_reachable: bool) -> (r: (u16, &'static str))
    ensures
        !store_reachable ==> r.0 == 500 && r.1@ == "db offline"@,
        store_reachable && !upstream_reachable ==> r.0 == 500 && r.1@ == "gitlab offline"@,
        store_reachable && upstream_reachable ==> r.0 == 200 && r.1@ == "OK"@,
{
    if !store_reachable {
        (500, "db offline")
    } else if !upstream_reachable {
        (500, "gitlab offline")
    } else {
        (200, "OK")
    }
}

} // verus!
