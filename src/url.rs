//! Base URLs of the service and the endpoint URLs built from them.

use vstd::prelude::*;
use crate::error::{Error, ErrorKind};
use crate::text::{copy_string, same_text};

verus! {

/// A base URL as its parts. `segments` is `None` for a URL that cannot
/// take path segments; otherwise it holds the path's segments, already
/// percent-encoded, with `/` as the one empty segment.
#[derive(Clone, Debug)]
pub struct BaseUrl {
    pub scheme: String,
    /// Everything before the path: scheme, credentials, host and port.
    pub origin: String,
    pub has_host: bool,
    pub segments: Option<Vec<String>>,
    pub query: Option<String>,
    pub fragment: Option<String>,
}

/// The characters of each string.
pub open spec fn string_views(v: Seq<String>) -> Seq<Seq<char>> {
    v.map_values(|s: String| s@)
}

impl BaseUrl {
    /// The path as a sequence of segments.
    pub open spec fn path_model(self) -> Option<Seq<Seq<char>>> {
        match self.segments {
            Some(v) => Some(string_views(v@)),
            None => None,
        }
    }
}

/// A path without its last segment when that segment is empty and not the
/// only one.
pub open spec fn pop_if_empty(p: Seq<Seq<char>>) -> Seq<Seq<char>> {
    if p.len() > 1 && p.last().len() == 0 {
        p.drop_last()
    } else {
        p
    }
}

/// The path segments that the `url` crate gives an http or https URL whose
/// text before the path is `origin` and whose path has the segments `path`,
/// after it appends the raw segment `raw`; `None` where it takes no segment.
pub uninterp spec fn url_pushed_segments_of(
    origin: Seq<char>,
    path: Seq<Seq<char>>,
    raw: Seq<char>,
) -> Option<Seq<Seq<char>>>;

/// No segment holds a `/`: the path is split at every `/`.
pub open spec fn no_slash_in_segments(p: Seq<Seq<char>>) -> bool {
    forall|i: int, j: int| 0 <= i < p.len() && 0 <= j < p[i].len() ==> #[trigger] p[i][j] != '/'
}

/// The path `p` with the raw segments `segs` appended in order.
pub open spec fn push_segments(origin: Seq<char>, p: Seq<Seq<char>>, segs: Seq<Seq<char>>) -> Option<
    Seq<Seq<char>>,
>
    decreases segs.len(),
{
    if segs.len() == 0 {
        Some(p)
    } else {
        match push_segments(origin, p, segs.drop_last()) {
            Some(q) => url_pushed_segments_of(origin, q, segs.last()),
            None => None,
        }
    }
}

/// The characters of each segment.
pub open spec fn raw_segments(segs: Seq<&str>) -> Seq<Seq<char>> {
    segs.map_values(|s: &str| s@)
}

/// Relies on `url::Url::parse`, `set_path`, `path_segments_mut().push` and
/// `path_segments`: the segments after appending `raw` to the URL `origin`
/// with the path `path`, percent-encoded as the `url` crate encodes path
/// segments (`/` and `%` included). They depend on the arguments alone, and
/// `path_segments` splits the path at every `/`.
#[verifier::external_body]
fn url_push_segment(origin: &str, path: &Vec<String>, raw: &str) -> (r: Option<Vec<String>>)
    ensures
        match r {
            Some(v) => url_pushed_segments_of(origin@, string_views(path@), raw@) == Some(
                string_views(v@),
            ),
            None => url_pushed_segments_of(origin@, string_views(path@), raw@) is None,
        },
        r matches Some(v) ==> no_slash_in_segments(string_views(v@)),
{
    let mut url = url::Url::parse(origin).ok()?;
    url.set_path(&path.iter().map(|s| format!("/{s}")).collect::<String>());
    url.path_segments_mut().ok()?.push(raw);
    Some(url.path_segments()?.map(str::to_owned).collect())
}

proof fn lemma_views_drop_last(v: Seq<String>)
    requires
        v.len() > 0,
    ensures
        string_views(v.drop_last()) == string_views(v).drop_last(),
{
    assert(string_views(v.drop_last()) =~= string_views(v).drop_last());
}

/// The path text of a sequence of segments: each one after a `/`.
pub open spec fn path_text(segs: Seq<Seq<char>>) -> Seq<char>
    decreases segs.len(),
{
    if segs.len() == 0 {
        Seq::empty()
    } else {
        path_text(segs.drop_last()) + seq!['/'] + segs.last()
    }
}

/// The last segment that is not empty.
pub open spec fn last_nonempty(segs: Seq<Seq<char>>) -> Option<Seq<char>>
    decreases segs.len(),
{
    if segs.len() == 0 {
        None
    } else if segs.last().len() > 0 {
        Some(segs.last())
    } else {
        last_nonempty(segs.drop_last())
    }
}

/// What makes a base URL unusable, in the order in which it is checked.
pub open spec fn base_url_problem(b: BaseUrl) -> Option<Seq<char>> {
    if b.segments is None {
        Some("base_url must be hierarchical"@)
    } else if b.scheme@ != "http"@ && b.scheme@ != "https"@ {
        Some("base_url scheme must be http or https"@)
    } else if !b.has_host {
        Some("base_url must include a host"@)
    } else if b.query is Some || b.fragment is Some {
        Some("base_url must not include query or fragment"@)
    } else {
        None
    }
}

fn copy_strings(v: &Vec<String>) -> (r: Vec<String>)
    ensures
        string_views(r@) == string_views(v@),
{
    let mut r: Vec<String> = Vec::new();
    for i in 0..v.len()
        invariant
            r.len() == i,
            forall|j: int| 0 <= j < i ==> #[trigger] r@[j]@ == v@[j]@,
    {
        r.push(copy_string(&v[i]));
    }
    assert(string_views(r@) =~= string_views(v@));
    r
}

fn copy_opt(s: &Option<String>) -> (r: Option<String>)
    ensures
        crate::error::opt_view(r) == crate::error::opt_view(*s),
{
    match s {
        Some(t) => Some(copy_string(t)),
        None => None,
    }
}

impl BaseUrl {
    /// A copy of this URL.
    pub fn copy(&self) -> (r: BaseUrl)
        ensures
            r.scheme@ == self.scheme@,
            r.origin@ == self.origin@,
            r.has_host == self.has_host,
            r.path_model() == self.path_model(),
            crate::error::opt_view(r.query) == crate::error::opt_view(self.query),
            crate::error::opt_view(r.fragment) == crate::error::opt_view(self.fragment),
    {
        BaseUrl {
            scheme: copy_string(&self.scheme),
            origin: copy_string(&self.origin),
            has_host: self.has_host,
            segments: match &self.segments {
                Some(v) => Some(copy_strings(v)),
                None => None,
            },
            query: copy_opt(&self.query),
            fragment: copy_opt(&self.fragment),
        }
    }

    /// Checks that the URL can be a base for endpoints: it takes path
    /// segments, is http or https, names a host and has neither query nor
    /// fragment.
    pub fn check(&self) -> (r: Result<(), Error>)
        ensures
            match base_url_problem(*self) {
                Some(m) => r matches Err(Error::InvalidConfig { message }) && message@ == m,
                None => r is Ok,
            },
    {
        if self.segments.is_none() {
            return Err(Error::invalid_config(String::from_str("base_url must be hierarchical")));
        }
        if !same_text(self.scheme.as_str(), "http") && !same_text(self.scheme.as_str(), "https") {
            return Err(
                Error::invalid_config(String::from_str("base_url scheme must be http or https")),
            );
        }
        if !self.has_host {
            return Err(Error::invalid_config(String::from_str("base_url must include a host")));
        }
        if self.query.is_some() || self.fragment.is_some() {
            return Err(
                Error::invalid_config(
                    String::from_str("base_url must not include query or fragment"),
                ),
            );
        }
        Ok(())
    }

    /// The path: each segment after a `/`.
    pub fn path(&self) -> (r: String)
        ensures
            match self.path_model() {
                Some(p) => r@ == path_text(p),
                None => r@.len() == 0,
            },
    {
        let mut out = String::new();
        match &self.segments {
            Some(v) => {
                let ghost p = string_views(v@);
                for i in 0..v.len()
                    invariant
                        p == string_views(v@),
                        out@ == path_text(p.take(i as int)),
                {
                    assert(p.take(i + 1).drop_last() =~= p.take(i as int));
                    assert(p.take(i + 1).last() == v@[i as int]@);
                    out.append("/");
                    proof {
                        reveal_strlit("/");
                    }
                    out.append(v[i].as_str());
                    assert(out@ =~= path_text(p.take(i + 1)));
                }
                assert(p.take(v.len() as int) =~= p);
            },
            None => {},
        }
        out
    }
}

/// The endpoint URL for `segments` under `base_url`, which must be usable as
/// a base (see `BaseUrl::check`): its path loses a trailing empty segment,
/// then takes each segment, percent-encoded, as one segment of its own.
pub fn endpoint(base_url: &BaseUrl, segments: &[&str]) -> (r: Result<BaseUrl, Error>)
    ensures
        base_url_problem(*base_url) matches Some(m) ==> (r matches Err(Error::InvalidConfig { message })
            && message@ == m),
        base_url_problem(*base_url) is None ==> match push_segments(
            base_url.origin@,
            pop_if_empty(base_url.path_model()->0),
            raw_segments(segments@),
        ) {
            Some(p) => r matches Ok(u) && u.scheme@ == base_url.scheme@ && u.origin@
                == base_url.origin@ && u.has_host == base_url.has_host && u.query is None
                && u.fragment is None && u.path_model() == Some(p),
            None => r matches Err(e) && e.kind_spec() == ErrorKind::InvalidConfig,
        },
        r is Ok && segments@.len() > 0 ==> no_slash_in_segments(r->Ok_0.path_model()->Some_0),
{
    match base_url.check() {
        Ok(()) => {},
        Err(e) => return Err(e),
    }
    let base_segments = match &base_url.segments {
        Some(v) => v,
        None => {
            return Err(Error::invalid_config(String::from_str("base_url must be hierarchical")));
        },
    };
    let mut path = copy_strings(base_segments);
    let n = path.len();
    if n > 1 && path[n - 1].as_str().unicode_len() == 0 {
        proof {
            lemma_views_drop_last(path@);
        }
        assert(string_views(path@).last() == path@[n - 1]@);
        assert(path@[n - 1]@ =~= Seq::<char>::empty());
        path.pop();
    } else {
        if n > 1 {
            assert(string_views(path@).last() == path@[n - 1]@);
        }
    }
    let ghost start = string_views(path@);
    assert(start == pop_if_empty(base_url.path_model()->0));
    let ghost raws = raw_segments(segments@);
    let ghost origin = base_url.origin@;
    for i in 0..segments.len()
        invariant
            raws == raw_segments(segments@),
            origin == base_url.origin@,
            base_url_problem(*base_url) is None,
            start == pop_if_empty(base_url.path_model()->0),
            push_segments(origin, start, raws.take(i as int)) == Some(string_views(path@)),
            i > 0 ==> no_slash_in_segments(string_views(path@)),
    {
        assert(raws.take(i + 1).drop_last() =~= raws.take(i as int));
        assert(raws.take(i + 1).last() == segments@[i as int]@);
        match url_push_segment(base_url.origin.as_str(), &path, segments[i]) {
            Some(next) => {
                path = next;
            },
            None => {
                proof {
                    lemma_push_segments_none(origin, start, raws, i + 1);
                }
                return Err(Error::invalid_config(String::from_str("base_url takes no path segments")));
            },
        }
    }
    assert(raws.take(segments.len() as int) =~= raws);
    Ok(
        BaseUrl {
            scheme: copy_string(&base_url.scheme),
            origin: copy_string(&base_url.origin),
            has_host: base_url.has_host,
            segments: Some(path),
            query: None,
            fragment: None,
        },
    )
}

/// Once appending fails, appending more fails too.
proof fn lemma_push_segments_none(
    origin: Seq<char>,
    p: Seq<Seq<char>>,
    segs: Seq<Seq<char>>,
    k: int,
)
    requires
        0 <= k <= segs.len(),
        push_segments(origin, p, segs.take(k)) is None,
    ensures
        push_segments(origin, p, segs) is None,
    decreases segs.len() - k,
{
    if k < segs.len() {
        assert(segs.take(k + 1).drop_last() =~= segs.take(k));
        lemma_push_segments_none(origin, p, segs, k + 1);
    } else {
        assert(segs.take(k) =~= segs);
    }
}

} // verus!
