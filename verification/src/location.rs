//! The locations of repositories at the large hosting services.
//!
//! Such a location is written `http[s]://[www.]<host>/<owner>/<name>`. It is looked for at
//! every place in a text, from the left; the owner and the name are the two segments behind
//! the host, and whatever follows the name behind a further `/` is ignored.

use crate::text::{chars_of, occurs_at, skip};
use vstd::prelude::*;

verus! {

/// The owner and the name of a repository, as read from a location.
pub ghost struct RepoPath {
    pub owner: Seq<char>,
    pub name: Seq<char>,
}

/// Where in a text the owner and the name of a repository stand.
#[derive(Debug, Clone, Copy, PartialEq, Eq)]
pub struct Span {
    pub owner_start: usize,
    pub owner_end: usize,
    pub name_start: usize,
    pub name_end: usize,
}

impl Span {
    /// The span lies within `text`, the owner before the name.
    pub open spec fn within(self, text: Seq<char>) -> bool {
        self.owner_start <= self.owner_end <= self.name_start <= self.name_end <= text.len()
    }

    /// What stands in `text` at the span.
    pub open spec fn cut(self, text: Seq<char>) -> RepoPath {
        RepoPath {
            owner: text.subrange(self.owner_start as int, self.owner_end as int),
            name: text.subrange(self.name_start as int, self.name_end as int),
        }
    }

    /// The span lies within `text` and holds `path`, if there is one; there is none if there
    /// is no span.
    pub open spec fn holds(span: Option<Span>, text: Seq<char>, path: Option<RepoPath>) -> bool {
        match span {
            Some(span) => span.within(text) && path == Some(span.cut(text)),
            None => path is None,
        }
    }
}

/// The index of the first `/` in `text` at or after `from`; the length of `text` if there is
/// none.
pub open spec fn segment_end(text: Seq<char>, from: int) -> int
    decreases text.len() - from,
{
    if from < 0 || from >= text.len() {
        text.len() as int
    } else if text[from] == '/' {
        from
    } else {
        segment_end(text, from + 1)
    }
}

/// The owner and name that begin at index `at`: two segments, neither empty, with one `/`
/// between them. Each segment runs up to the next `/` or the end of the text.
pub open spec fn repo_path_at(text: Seq<char>, at: int) -> Option<RepoPath> {
    let owner_end = segment_end(text, at);
    let name_end = segment_end(text, owner_end + 1);
    if 0 <= at < owner_end && owner_end < text.len() && owner_end + 1 < name_end {
        Some(
            RepoPath {
                owner: text.subrange(at, owner_end),
                name: text.subrange(owner_end + 1, name_end),
            },
        )
    } else {
        None
    }
}

/// The owner and name behind the first of the hosts `hosts[h..]` that stands at index `at`
/// with an owner and a name behind it.
pub open spec fn host_path_at(text: Seq<char>, at: int, hosts: Seq<Seq<char>>, h: int) -> Option<
    RepoPath,
>
    decreases hosts.len() - h,
{
    if h < 0 || h >= hosts.len() {
        None
    } else {
        let here = if occurs_at(text, at, hosts[h]) {
            repo_path_at(text, at + hosts[h].len())
        } else {
            None
        };
        if here is Some {
            here
        } else {
            host_path_at(text, at, hosts, h + 1)
        }
    }
}

/// The same behind an optional `www.`.
pub open spec fn site_path_at(text: Seq<char>, at: int, hosts: Seq<Seq<char>>) -> Option<RepoPath> {
    let behind = if occurs_at(text, at, "www."@) {
        host_path_at(text, at + "www."@.len(), hosts, 0)
    } else {
        None
    };
    if behind is Some {
        behind
    } else {
        host_path_at(text, at, hosts, 0)
    }
}

/// The same behind `://`.
pub open spec fn authority_path_at(text: Seq<char>, at: int, hosts: Seq<Seq<char>>) -> Option<
    RepoPath,
> {
    if occurs_at(text, at, "://"@) {
        site_path_at(text, at + "://"@.len(), hosts)
    } else {
        None
    }
}

/// The owner and name of a location of one of `hosts` that begins at index `at` with `http`
/// or `https`.
pub open spec fn location_at(text: Seq<char>, at: int, hosts: Seq<Seq<char>>) -> Option<RepoPath> {
    if occurs_at(text, at, "http"@) {
        let next = at + "http"@.len();
        let secure = if occurs_at(text, next, "s"@) {
            authority_path_at(text, next + "s"@.len(), hosts)
        } else {
            None
        };
        if secure is Some {
            secure
        } else {
            authority_path_at(text, next, hosts)
        }
    } else {
        None
    }
}

/// The owner and name of the first location of one of `hosts` that begins in `text` at or
/// after index `from`.
pub open spec fn location_from(text: Seq<char>, from: int, hosts: Seq<Seq<char>>) -> Option<
    RepoPath,
>
    decreases text.len() - from,
{
    if from < 0 || from >= text.len() {
        None
    } else {
        let here = location_at(text, from, hosts);
        if here is Some {
            here
        } else {
            location_from(text, from + 1, hosts)
        }
    }
}

/// The owner and name of the leftmost location of one of `hosts` in `text`. Each host is
/// written with the `/` that ends it.
pub open spec fn hosted_path(text: Seq<char>, hosts: Seq<Seq<char>>) -> Option<RepoPath> {
    location_from(text, 0, hosts)
}

/// The texts of a list of hosts.
pub open spec fn host_texts(hosts: Seq<Vec<char>>) -> Seq<Seq<char>> {
    Seq::new(hosts.len(), |i: int| hosts[i]@)
}

/// Finds the end of the segment that begins at `from`.
fn find_segment_end(text: &Vec<char>, from: usize) -> (end: usize)
    ensures
        end == segment_end(text@, from as int),
        end <= text.len(),
        from <= text.len() ==> from <= end,
{
    if from >= text.len() {
        return text.len();
    }
    let mut i: usize = from;
    while i < text.len() && text[i] != '/'
        invariant
            from <= i <= text.len(),
            segment_end(text@, from as int) == segment_end(text@, i as int),
        decreases text.len() - i,
    {
        i += 1;
    }
    i
}

/// Reads an owner and a name at index `at`.
fn read_repo_path(text: &Vec<char>, at: usize) -> (r: Option<Span>)
    ensures
        Span::holds(r, text@, repo_path_at(text@, at as int)),
{
    let owner_end = find_segment_end(text, at);
    if !(at < owner_end && owner_end < text.len()) {
        return None;
    }
    let name_end = find_segment_end(text, owner_end + 1);
    if owner_end + 1 < name_end {
        Some(Span { owner_start: at, owner_end, name_start: owner_end + 1, name_end })
    } else {
        None
    }
}

/// Reads one of the hosts, then an owner and a name, at index `at`.
fn read_host_path(text: &Vec<char>, at: usize, hosts: &Vec<Vec<char>>) -> (r: Option<Span>)
    ensures
        Span::holds(r, text@, host_path_at(text@, at as int, host_texts(hosts@), 0)),
{
    let ghost names = host_texts(hosts@);
    let mut h: usize = 0;
    while h < hosts.len()
        invariant
            h <= hosts.len(),
            names == host_texts(hosts@),
            host_path_at(text@, at as int, names, 0) == host_path_at(text@, at as int, names, h as int),
        decreases hosts.len() - h,
    {
        let host = &hosts[h];
        assert(host@ == names[h as int]);
        if let Some(behind) = skip(text, at, host) {
            let found = read_repo_path(text, behind);
            if found.is_some() {
                return found;
            }
        }
        h += 1;
    }
    None
}

/// Reads an optional `www.`, then a host, an owner and a name, at index `at`.
fn read_site_path(text: &Vec<char>, at: usize, hosts: &Vec<Vec<char>>) -> (r: Option<Span>)
    ensures
        Span::holds(r, text@, site_path_at(text@, at as int, host_texts(hosts@))),
{
    let www = chars_of("www.");
    if let Some(behind) = skip(text, at, &www) {
        let found = read_host_path(text, behind, hosts);
        if found.is_some() {
            return found;
        }
    }
    read_host_path(text, at, hosts)
}

/// Reads `://`, then the rest of a location, at index `at`.
fn read_authority_path(text: &Vec<char>, at: usize, hosts: &Vec<Vec<char>>) -> (r: Option<Span>)
    ensures
        Span::holds(r, text@, authority_path_at(text@, at as int, host_texts(hosts@))),
{
    let separator = chars_of("://");
    match skip(text, at, &separator) {
        Some(behind) => read_site_path(text, behind, hosts),
        None => None,
    }
}

/// Reads a location of one of `hosts` at index `at`.
fn read_location(text: &Vec<char>, at: usize, hosts: &Vec<Vec<char>>) -> (r: Option<Span>)
    ensures
        Span::holds(r, text@, location_at(text@, at as int, host_texts(hosts@))),
{
    let http = chars_of("http");
    let s = chars_of("s");
    match skip(text, at, &http) {
        None => None,
        Some(next) => {
            if let Some(behind) = skip(text, next, &s) {
                let found = read_authority_path(text, behind, hosts);
                if found.is_some() {
                    return found;
                }
            }
            read_authority_path(text, next, hosts)
        },
    }
}

/// Finds the leftmost location of one of `hosts` in `text`, and in it the owner and the name.
pub fn find_hosted_path(text: &Vec<char>, hosts: &Vec<Vec<char>>) -> (r: Option<Span>)
    ensures
        Span::holds(r, text@, hosted_path(text@, host_texts(hosts@))),
{
    let ghost names = host_texts(hosts@);
    let mut at: usize = 0;
    while at < text.len()
        invariant
            at <= text.len(),
            names == host_texts(hosts@),
            hosted_path(text@, names) == location_from(text@, at as int, names),
        decreases text.len() - at,
    {
        let found = read_location(text, at, hosts);
        if found.is_some() {
            return found;
        }
        at += 1;
    }
    None
}

// What follows says what the readers above find, in terms of the texts that are written.

/// No `/` stands in `text`.
pub open spec fn has_no_slash(text: Seq<char>) -> bool {
    forall|i: int| 0 <= i < text.len() ==> text[i] != '/'
}

/// `segment_end(text, from)` lies between `from` and the end of `text`; no `/` stands before
/// it, and one stands at it unless it is the end.
pub proof fn lemma_segment_end(text: Seq<char>, from: int)
    requires
        0 <= from <= text.len(),
    ensures
        from <= segment_end(text, from) <= text.len(),
        forall|i: int| from <= i < segment_end(text, from) ==> text[i] != '/',
        segment_end(text, from) < text.len() ==> text[segment_end(text, from)] == '/',
    decreases text.len() - from,
{
    if from < text.len() && text[from] != '/' {
        lemma_segment_end(text, from + 1);
    }
}

/// A segment without a `/` that begins at `from` and is followed by a `/` or by the end of
/// the text ends where it is written to end.
pub proof fn lemma_segment_end_of_run(text: Seq<char>, from: int, end: int)
    requires
        0 <= from <= end <= text.len(),
        forall|i: int| from <= i < end ==> text[i] != '/',
        end < text.len() ==> text[end] == '/',
    ensures
        segment_end(text, from) == end,
    decreases end - from,
{
    if from < end {
        lemma_segment_end_of_run(text, from + 1, end);
    }
}

/// An owner and a name as they are read: neither empty, neither with a `/`.
pub open spec fn is_well_formed(path: RepoPath) -> bool {
    &&& path.owner.len() > 0
    &&& path.name.len() > 0
    &&& has_no_slash(path.owner)
    &&& has_no_slash(path.name)
}

/// An owner and a name that are read are not empty and hold no `/`.
proof fn lemma_repo_path_is_well_formed(text: Seq<char>, at: int)
    requires
        repo_path_at(text, at) is Some,
    ensures
        is_well_formed(repo_path_at(text, at)->0),
{
    lemma_segment_end(text, at);
    lemma_segment_end(text, segment_end(text, at) + 1);
}

/// A location written in full: `http` or `https`, `://`, `www.` or not, the host, the owner,
/// `/`, the name, and whatever follows.
pub open spec fn written_location(
    secure: bool,
    www: bool,
    host: Seq<char>,
    path: RepoPath,
    rest: Seq<char>,
) -> Seq<char> {
    "http"@ + (if secure {
        "s"@
    } else {
        Seq::<char>::empty()
    }) + "://"@ + (if www {
        "www."@
    } else {
        Seq::<char>::empty()
    }) + host + path.owner + "/"@ + path.name + rest
}

/// The location is written in `text` at index `at`, and its name ends there with the text or
/// before a `/`.
pub open spec fn is_written_at(
    text: Seq<char>,
    at: int,
    secure: bool,
    www: bool,
    host: Seq<char>,
    path: RepoPath,
) -> bool {
    let written = written_location(secure, www, host, path, Seq::empty());
    &&& occurs_at(text, at, written)
    &&& (at + written.len() == text.len() || text[at + written.len()] == '/')
}

/// The hosts before `hosts[h]` cannot be taken for it: they are of its length and differ from
/// it. And `hosts[h]` cannot be taken for the beginning of `www.`.
pub open spec fn is_distinct_host(hosts: Seq<Seq<char>>, h: int) -> bool {
    &&& 0 <= h < hosts.len()
    &&& hosts[h].len() > 0
    &&& hosts[h][0] != 'w'
    &&& forall|g: int| 0 <= g < h ==> hosts[g].len() == hosts[h].len() && hosts[g] != hosts[h]
}

/// What stands in `text` at `at` holds at `off` the piece that stands there in it.
proof fn lemma_piece(text: Seq<char>, at: int, whole: Seq<char>, off: int, piece: Seq<char>)
    requires
        occurs_at(text, at, whole),
        0 <= off,
        off + piece.len() <= whole.len(),
        whole.subrange(off, off + piece.len()) == piece,
    ensures
        occurs_at(text, at + off, piece),
{
    let cut = text.subrange(at, at + whole.len());
    assert forall|i: int| 0 <= i < piece.len() implies text.subrange(
        at + off,
        at + off + piece.len(),
    )[i] == piece[i] by {
        assert(cut[off + i] == text[at + off + i]);
        assert(whole.subrange(off, off + piece.len())[i] == whole[off + i]);
    }
    assert(text.subrange(at + off, at + off + piece.len()) =~= piece);
}

/// Two pieces that stand in `text` one behind the other stand there as one.
proof fn lemma_joined(text: Seq<char>, at: int, first: Seq<char>, second: Seq<char>)
    requires
        occurs_at(text, at, first),
        occurs_at(text, at + first.len(), second),
    ensures
        occurs_at(text, at, first + second),
{
    let whole = first + second;
    assert forall|i: int| 0 <= i < whole.len() implies text.subrange(at, at + whole.len())[i]
        == whole[i] by {
        if i < first.len() {
            assert(text.subrange(at, at + first.len())[i] == text[at + i]);
        } else {
            assert(text.subrange(at + first.len(), at + first.len() + second.len())[i
                - first.len()] == text[at + i]);
        }
    }
    assert(text.subrange(at, at + whole.len()) =~= whole);
}

/// The hosts before `hosts[h]` are not read where `hosts[h]` stands, if they are of its length
/// and differ from it.
proof fn lemma_earlier_hosts_fail(text: Seq<char>, at: int, hosts: Seq<Seq<char>>, h: int, g: int)
    requires
        0 <= g <= h < hosts.len(),
        occurs_at(text, at, hosts[h]),
        forall|k: int| 0 <= k < h ==> hosts[k].len() == hosts[h].len() && hosts[k] != hosts[h],
    ensures
        host_path_at(text, at, hosts, g) == host_path_at(text, at, hosts, h),
    decreases h - g,
{
    if g < h {
        lemma_earlier_hosts_fail(text, at, hosts, h, g + 1);
    }
}

/// A location that is written at an index is read there, with its owner and its name.
pub proof fn lemma_written_location_is_read_at(
    text: Seq<char>,
    at: int,
    secure: bool,
    www: bool,
    hosts: Seq<Seq<char>>,
    h: int,
    path: RepoPath,
)
    requires
        is_distinct_host(hosts, h),
        is_well_formed(path),
        is_written_at(text, at, secure, www, hosts[h], path),
    ensures
        location_at(text, at, hosts) == Some(path),
{
    reveal_strlit("http");
    reveal_strlit("s");
    reveal_strlit("://");
    reveal_strlit("www.");
    reveal_strlit("/");
    let host = hosts[h];
    let whole = written_location(secure, www, host, path, Seq::empty());
    let a: int = if secure {
        5
    } else {
        4
    };
    let b: int = a + 3;
    let c: int = if www {
        b + 4
    } else {
        b
    };
    let p: int = c + host.len();
    let e: int = p + path.owner.len();
    let f: int = e + 1 + path.name.len();
    assert(whole.len() == f);
    assert(whole.subrange(0, 4) =~= "http"@);
    assert(whole.subrange(a, b) =~= "://"@);
    assert(whole.subrange(c, p) =~= host);
    assert(whole.subrange(p, e) =~= path.owner);
    assert(whole.subrange(e, e + 1) =~= "/"@);
    assert(whole.subrange(e + 1, f) =~= path.name);
    lemma_piece(text, at, whole, 0, "http"@);
    lemma_piece(text, at, whole, a, "://"@);
    lemma_piece(text, at, whole, c, host);
    lemma_piece(text, at, whole, p, path.owner);
    lemma_piece(text, at, whole, e, "/"@);
    lemma_piece(text, at, whole, e + 1, path.name);
    assert(text.subrange(at + e, at + e + 1)[0] == '/');
    assert forall|i: int| at + p <= i < at + e implies text[i] != '/' by {
        assert(text.subrange(at + p, at + e)[i - (at + p)] == path.owner[i - (at + p)]);
    }
    assert forall|i: int| at + e + 1 <= i < at + f implies text[i] != '/' by {
        assert(text.subrange(at + e + 1, at + f)[i - (at + e + 1)] == path.name[i - (at + e
            + 1)]);
    }
    lemma_segment_end_of_run(text, at + p, at + e);
    lemma_segment_end_of_run(text, at + e + 1, at + f);
    assert(text.subrange(at + p, at + e) == path.owner);
    assert(text.subrange(at + e + 1, at + f) == path.name);
    assert(repo_path_at(text, at + p) == Some(path));
    // The host is read, after the hosts before it in the list have failed.
    assert(host_path_at(text, at + c, hosts, h) == Some(path));
    lemma_earlier_hosts_fail(text, at + c, hosts, h, 0);
    // `www.` is read where it is written, and nowhere else.
    if www {
        assert(whole.subrange(b, c) =~= "www."@);
        lemma_piece(text, at, whole, b, "www."@);
    } else {
        assert(text.subrange(at + c, at + p)[0] == host[0]);
        if occurs_at(text, at + b, "www."@) {
            assert(text.subrange(at + b, at + b + 4)[0] == 'w');
        }
    }
    assert(site_path_at(text, at + b, hosts) == Some(path));
    assert(authority_path_at(text, at + a, hosts) == Some(path));
    // `s` is read where it is written, and nowhere else.
    if secure {
        assert(whole.subrange(4, 5) =~= "s"@);
        lemma_piece(text, at, whole, 4, "s"@);
    } else {
        assert(text.subrange(at + a, at + b)[0] == ':');
        if occurs_at(text, at + 4, "s"@) {
            assert(text.subrange(at + 4, at + 5)[0] == 's');
        }
    }
}

/// An owner and a name that are read stand in the text as they are read, with a `/` between
/// them, and the name ends with the text or before a `/`.
proof fn lemma_repo_path_is_written(text: Seq<char>, at: int)
    requires
        repo_path_at(text, at) is Some,
    ensures
        ({
            let path = repo_path_at(text, at)->0;
            let written = path.owner + "/"@ + path.name;
            &&& occurs_at(text, at, written)
            &&& (at + written.len() == text.len() || text[at + written.len()] == '/')
        }),
{
    reveal_strlit("/");
    let path = repo_path_at(text, at)->0;
    let e = segment_end(text, at);
    let f = segment_end(text, e + 1);
    lemma_segment_end(text, at);
    lemma_segment_end(text, e + 1);
    assert(text.subrange(e, e + 1) =~= "/"@);
    lemma_joined(text, at, path.owner, "/"@);
    lemma_joined(text, at, path.owner + "/"@, path.name);
}

/// A host and what is read behind it stand in the text as they are read.
proof fn lemma_host_path_is_written(text: Seq<char>, at: int, hosts: Seq<Seq<char>>, g: int)
    requires
        0 <= g,
        host_path_at(text, at, hosts, g) is Some,
    ensures
        exists|h: int|
            {
                &&& 0 <= h < hosts.len()
                &&& occurs_at(text, at, #[trigger] hosts[h])
                &&& repo_path_at(text, at + hosts[h].len()) == host_path_at(text, at, hosts, g)
            },
    decreases hosts.len() - g,
{
    let here = if occurs_at(text, at, hosts[g]) {
        repo_path_at(text, at + hosts[g].len())
    } else {
        None
    };
    if here is Some {
        assert(occurs_at(text, at, hosts[g]));
    } else {
        lemma_host_path_is_written(text, at, hosts, g + 1);
    }
}

/// What is written behind `://`: `www.` or not, the host, the owner, `/` and the name.
spec fn written_site(www: bool, host: Seq<char>, path: RepoPath) -> Seq<char> {
    (if www {
        "www."@
    } else {
        Seq::<char>::empty()
    }) + host + path.owner + "/"@ + path.name
}

/// That much is written in `text` at index `at`, and its name ends there with the text or
/// before a `/`.
spec fn is_site_written_at(
    text: Seq<char>,
    at: int,
    www: bool,
    host: Seq<char>,
    path: RepoPath,
) -> bool {
    &&& occurs_at(text, at, written_site(www, host, path))
    &&& (at + written_site(www, host, path).len() == text.len() || text[at + written_site(
        www,
        host,
        path,
    ).len()] == '/')
}

/// What is read behind `://` stands in the text as it is read.
proof fn lemma_site_path_is_written(text: Seq<char>, at: int, hosts: Seq<Seq<char>>)
    requires
        site_path_at(text, at, hosts) is Some,
    ensures
        is_well_formed(site_path_at(text, at, hosts)->0),
        exists|www: bool, h: int|
            0 <= h < hosts.len() && #[trigger] is_site_written_at(
                text,
                at,
                www,
                hosts[h],
                site_path_at(text, at, hosts)->0,
            ),
{
    let path = site_path_at(text, at, hosts)->0;
    let behind = if occurs_at(text, at, "www."@) {
        host_path_at(text, at + "www."@.len(), hosts, 0)
    } else {
        None
    };
    let www = behind is Some;
    let front = if www {
        "www."@
    } else {
        Seq::<char>::empty()
    };
    let k = at + front.len();
    lemma_host_path_is_written(text, k, hosts, 0);
    let h = choose|h: int|
        {
            &&& 0 <= h < hosts.len()
            &&& occurs_at(text, k, #[trigger] hosts[h])
            &&& repo_path_at(text, k + hosts[h].len()) == Some(path)
        };
    lemma_repo_path_is_written(text, k + hosts[h].len());
    lemma_repo_path_is_well_formed(text, k + hosts[h].len());
    assert(text.subrange(at, at) =~= Seq::<char>::empty());
    lemma_joined(text, at, front, hosts[h]);
    lemma_joined(text, at, front + hosts[h], path.owner + "/"@ + path.name);
    assert(written_site(www, hosts[h], path) =~= (front + hosts[h]) + (path.owner + "/"@
        + path.name));
    assert(is_site_written_at(text, at, www, hosts[h], path));
}

/// A location that is read at an index is written there: with `http` or `https`, with `www.`
/// or without, and with one of the hosts.
pub proof fn lemma_read_location_is_written_at(text: Seq<char>, at: int, hosts: Seq<Seq<char>>)
    requires
        location_at(text, at, hosts) is Some,
    ensures
        is_well_formed(location_at(text, at, hosts)->0),
        exists|secure: bool, www: bool, h: int|
            0 <= h < hosts.len() && #[trigger] is_written_at(
                text,
                at,
                secure,
                www,
                hosts[h],
                location_at(text, at, hosts)->0,
            ),
{
    let path = location_at(text, at, hosts)->0;
    let next = at + "http"@.len();
    let with_s = if occurs_at(text, next, "s"@) {
        authority_path_at(text, next + "s"@.len(), hosts)
    } else {
        None
    };
    let secure = with_s is Some;
    let mark = if secure {
        "s"@
    } else {
        Seq::<char>::empty()
    };
    let scheme = "http"@ + mark;
    let a = at + scheme.len();
    assert(text.subrange(next, next) =~= Seq::<char>::empty());
    assert(occurs_at(text, next, mark));
    lemma_joined(text, at, "http"@, mark);
    lemma_joined(text, at, scheme, "://"@);
    let k = a + "://"@.len();
    lemma_site_path_is_written(text, k, hosts);
    let (www, h) = choose|www: bool, h: int|
        0 <= h < hosts.len() && #[trigger] is_site_written_at(text, k, www, hosts[h], path);
    let tail = written_site(www, hosts[h], path);
    lemma_joined(text, at, scheme + "://"@, tail);
    let written = written_location(secure, www, hosts[h], path, Seq::empty());
    assert(written =~= (scheme + "://"@) + tail);
    assert(is_written_at(text, at, secure, www, hosts[h], path));
}

/// The location that is read from a text is the one at the least index at which one is read.
pub proof fn lemma_hosted_path_is_leftmost(text: Seq<char>, hosts: Seq<Seq<char>>)
    ensures
        match hosted_path(text, hosts) {
            Some(path) => exists|at: int|
                {
                    &&& 0 <= at < text.len()
                    &&& #[trigger] location_at(text, at, hosts) == Some(path)
                    &&& forall|i: int| 0 <= i < at ==> location_at(text, i, hosts) is None
                },
            None => forall|i: int| 0 <= i < text.len() ==> location_at(text, i, hosts) is None,
        },
{
    lemma_location_from_is_leftmost(text, 0, hosts);
}

/// The same for the locations at or after `from`.
proof fn lemma_location_from_is_leftmost(text: Seq<char>, from: int, hosts: Seq<Seq<char>>)
    requires
        0 <= from,
    ensures
        match location_from(text, from, hosts) {
            Some(path) => exists|at: int|
                {
                    &&& from <= at < text.len()
                    &&& #[trigger] location_at(text, at, hosts) == Some(path)
                    &&& forall|i: int| from <= i < at ==> location_at(text, i, hosts) is None
                },
            None => forall|i: int| from <= i < text.len() ==> location_at(text, i, hosts) is None,
        },
    decreases text.len() - from,
{
    if from < text.len() {
        if location_at(text, from, hosts) is Some {
            assert(location_at(text, from, hosts) == location_from(text, from, hosts));
        } else {
            lemma_location_from_is_leftmost(text, from + 1, hosts);
            if location_from(text, from, hosts) is Some {
                let at = choose|at: int|
                    {
                        &&& from + 1 <= at < text.len()
                        &&& #[trigger] location_at(text, at, hosts) == location_from(
                            text,
                            from + 1,
                            hosts,
                        )
                        &&& forall|i: int|
                            from + 1 <= i < at ==> location_at(text, i, hosts) is None
                    };
                assert(location_at(text, at, hosts) == location_from(text, from, hosts));
            }
        }
    }
}

/// The owner and the name that are read from a text are not empty and hold no `/`, and the
/// location that holds them is written in the text.
pub proof fn lemma_hosted_path_is_written(text: Seq<char>, hosts: Seq<Seq<char>>)
    requires
        hosted_path(text, hosts) is Some,
    ensures
        is_well_formed(hosted_path(text, hosts)->0),
        exists|at: int, secure: bool, www: bool, h: int|
            0 <= at < text.len() && 0 <= h < hosts.len() && #[trigger] is_written_at(
                text,
                at,
                secure,
                www,
                hosts[h],
                hosted_path(text, hosts)->0,
            ),
{
    let path = hosted_path(text, hosts)->0;
    lemma_hosted_path_is_leftmost(text, hosts);
    let at = choose|at: int|
        {
            &&& 0 <= at < text.len()
            &&& #[trigger] location_at(text, at, hosts) == Some(path)
            &&& forall|i: int| 0 <= i < at ==> location_at(text, i, hosts) is None
        };
    lemma_read_location_is_written_at(text, at, hosts);
    let (secure, www, h) = choose|secure: bool, www: bool, h: int|
        0 <= h < hosts.len() && #[trigger] is_written_at(text, at, secure, www, hosts[h], path);
    assert(is_written_at(text, at, secure, www, hosts[h], path));
}

/// A location that is written in full at the beginning of a text is read from the text as it
/// is written: with its owner and its name, whatever follows the name behind a `/`.
pub proof fn lemma_written_location_is_read(
    secure: bool,
    www: bool,
    hosts: Seq<Seq<char>>,
    h: int,
    path: RepoPath,
    rest: Seq<char>,
)
    requires
        is_distinct_host(hosts, h),
        is_well_formed(path),
        rest.len() > 0 ==> rest[0] == '/',
    ensures
        hosted_path(written_location(secure, www, hosts[h], path, rest), hosts) == Some(path),
{
    reveal_strlit("http");
    let text = written_location(secure, www, hosts[h], path, rest);
    let written = written_location(secure, www, hosts[h], path, Seq::empty());
    assert(text =~= written + rest);
    assert(text.subrange(0, written.len() as int) =~= written);
    if rest.len() > 0 {
        assert(text[written.len() as int] == rest[0]);
    }
    lemma_written_location_is_read_at(text, 0, secure, www, hosts, h, path);
}

} // verus!
