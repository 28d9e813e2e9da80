use vstd::prelude::*;
use vstd::string::*;

verus! {

/// `s` with every trailing `/` removed.
pub open spec fn trim_end_slashes(s: Seq<char>) -> Seq<char>
    decreases s.len(),
{
    if s.len() > 0 && s.last() == '/' {
        trim_end_slashes(s.drop_last())
    } else {
        s
    }
}

/// `s` with every leading `/` removed.
pub open spec fn trim_start_slashes(s: Seq<char>) -> Seq<char>
    decreases s.len(),
{
    if s.len() > 0 && s[0] == '/' {
        trim_start_slashes(s.drop_first())
    } else {
        s
    }
}

/// A template prefix as the middleware stores it: no `/` at either end.
pub open spec fn normalized_prefix(s: Seq<char>) -> Seq<char> {
    trim_end_slashes(trim_start_slashes(s))
}

/// The template names tried for a request path (already stripped of its
/// trailing `/`), in the order in which they are tried.
pub open spec fn candidates(path: Seq<char>, prefix: Seq<char>) -> Seq<Seq<char>> {
    if path.len() > 0 {
        seq![prefix + path + ".html"@, prefix + path + "/index.html"@]
    } else {
        seq![prefix + "/index.html"@]
    }
}

/// Removes every trailing `/` of `s`.
pub fn trim_end_slashes_of(s: &str) -> (r: String)
    ensures
        r@ == trim_end_slashes(s@),
{
    let mut end: usize = s.unicode_len();
    assert(s@.subrange(0, end as int) =~= s@);
    while end > 0 && s.get_char(end - 1) == '/'
        invariant
            end <= s@.len(),
            trim_end_slashes(s@) == trim_end_slashes(s@.subrange(0, end as int)),
        decreases end,
    {
        proof {
            assert(s@.subrange(0, end as int).drop_last() =~= s@.subrange(0, end - 1));
        }
        end = end - 1;
    }
    s.substring_char(0, end).to_owned()
}

/// Removes every `/` at either end of `s`: the form in which the middleware
/// keeps its template prefix.
pub fn normalize_prefix(s: &str) -> (r: String)
    ensures
        r@ == normalized_prefix(s@),
{
    let len: usize = s.unicode_len();
    let mut start: usize = 0;
    assert(s@.subrange(0, len as int) =~= s@);
    while start < len && s.get_char(start) == '/'
        invariant
            len == s@.len(),
            start <= len,
            trim_start_slashes(s@) == trim_start_slashes(s@.subrange(start as int, len as int)),
        decreases len - start,
    {
        proof {
            assert(s@.subrange(start as int, len as int).drop_first() =~= s@.subrange(
                start + 1,
                len as int,
            ));
        }
        start = start + 1;
    }
    proof {
        let rest = s@.subrange(start as int, len as int);
        if start == len {
            assert(rest =~= Seq::<char>::empty());
        }
    }
    trim_end_slashes_of(s.substring_char(start, len))
}

/// The template names to try for `path`, a request path without its trailing
/// `/`, under `prefix`: `{prefix}{path}.html` then `{prefix}{path}/index.html`,
/// or `{prefix}/index.html` alone for the empty path.
pub fn resolve(path: &str, prefix: &str) -> (r: Vec<String>)
    ensures
        r.deep_view() == candidates(path@, prefix@),
{
    let mut base = prefix.to_owned();
    if path.unicode_len() > 0 {
        base.append(path);
        let mut file = base.clone();
        file.append(".html");
        let mut index = base;
        index.append("/index.html");
        let r = vec![file, index];
        proof {
            assert(r.deep_view() =~= candidates(path@, prefix@));
        }
        r
    } else {
        base.append("/index.html");
        let r = vec![base];
        proof {
            assert(r.deep_view() =~= candidates(path@, prefix@));
        }
        r
    }
}

/// Resolution is a function of its two inputs: two calls with the same path
/// and prefix give the same names in the same order.
pub proof fn resolve_is_deterministic(
    path: Seq<char>,
    prefix: Seq<char>,
    first: Vec<String>,
    second: Vec<String>,
)
    requires
        first.deep_view() == candidates(path, prefix),
        second.deep_view() == candidates(path, prefix),
    ensures
        first.deep_view() == second.deep_view(),
{
}

} // verus!
