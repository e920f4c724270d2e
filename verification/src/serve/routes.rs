//! The routes of the file service: which request asks for what.

use crate::serve::httpd::ROOT_ADDRESS;
use vstd::prelude::*;
use vstd::string::*;

verus! {

/// What a request asks for.
#[derive(Debug, PartialEq, Eq)]
pub enum Route {
    /// The listing of the directory at this address.
    Listing(String),
    /// The file at this address.
    File(String),
    /// Nothing that this service has.
    NotFound,
}

/// The mathematical value of a [`Route`].
pub enum RouteView {
    Listing(Seq<char>),
    File(Seq<char>),
    NotFound,
}

impl View for Route {
    type V = RouteView;

    open spec fn view(&self) -> RouteView {
        match self {
            Route::Listing(address) => RouteView::Listing(address@),
            Route::File(address) => RouteView::File(address@),
            Route::NotFound => RouteView::NotFound,
        }
    }
}

/// The text that the `percent_encoding` crate decodes `text` to, every `%`
/// with two hexadecimal digits after it read as one byte; `None` where the
/// bytes that come out are not UTF-8.
pub uninterp spec fn percent_decoded(text: Seq<char>) -> Option<Seq<char>>;

/// Whether `text` holds no `%`, so that nothing in it is encoded.
pub open spec fn is_plain(text: Seq<char>) -> bool {
    forall|i: int| 0 <= i < text.len() ==> text[i] != '%'
}

/// Decodes `text` with `percent_encoding::percent_decode_str` and reads the
/// bytes as UTF-8 with `PercentDecode::decode_utf8`. Both read nothing but
/// `text`, so the result is the one that `percent_decoded` names. One fact
/// is claimed of it, which the crate documents: only a `%` starts something
/// to decode, so a text without one comes out as it is.
#[verifier::external_body]
fn percent_decode(text: &str) -> (decoded: Option<String>)
    ensures
        match decoded {
            Some(plain) => percent_decoded(text@) == Some(plain@),
            None => percent_decoded(text@) is None,
        },
        is_plain(text@) ==> decoded is Some && decoded->Some_0@ == text@,
{
    percent_encoding::percent_decode_str(text).decode_utf8().ok().map(|plain| plain.into_owned())
}

/// The position of the first `/` in `s`, or the length of `s` where it
/// holds none.
pub open spec fn first_slash(s: Seq<char>) -> int
    decreases s.len(),
{
    if s.len() == 0 {
        0
    } else if first_slash(s.drop_last()) < s.len() - 1 {
        first_slash(s.drop_last())
    } else if s.last() == '/' {
        s.len() - 1
    } else {
        s.len() as int
    }
}

/// What a request that names an address asks for, given what the name
/// decodes to: the listing or the file at that address, or nothing where
/// the name cannot be decoded.
pub open spec fn named(address: Option<Seq<char>>, listing: bool) -> RouteView {
    match address {
        Some(address) => if listing {
            RouteView::Listing(address)
        } else {
            RouteView::File(address)
        },
        None => RouteView::NotFound,
    }
}

/// The segment of `path` that names an address, and whether a listing is
/// asked of it: what stands between the leading `/` and the end of the
/// path, or between the leading `/` and a `/` that ends the path, where
/// that is not empty and holds no `/` itself.
pub open spec fn segment(path: Seq<char>) -> Option<(Seq<char>, bool)> {
    let rest = path.drop_first();
    if path.len() < 2 || path[0] != '/' {
        None
    } else if first_slash(rest) == rest.len() {
        Some((rest, false))
    } else if first_slash(rest) == rest.len() - 1 && rest.len() > 1 {
        Some((rest.drop_last(), true))
    } else {
        None
    }
}

/// What a request with this method and this path asks for.
///
/// Only `GET` is served. The path `/` asks for the listing of the root. A
/// path of one segment, `/<name>`, asks for the file at the address that
/// `<name>` decodes to; with a `/` after the segment, `/<name>/`, it asks
/// for the listing of the directory there. Every other request asks for
/// nothing.
pub open spec fn routed(method: Seq<char>, path: Seq<char>) -> RouteView {
    if method != "GET"@ {
        RouteView::NotFound
    } else if path == seq!['/'] {
        RouteView::Listing(ROOT_ADDRESS@)
    } else {
        match segment(path) {
            Some((name, listing)) => named(percent_decoded(name), listing),
            None => RouteView::NotFound,
        }
    }
}

/// What a request asks for where its path holds no `%`: the same, with the
/// segment itself for the address.
pub open spec fn routed_plain(method: Seq<char>, path: Seq<char>) -> RouteView {
    if method != "GET"@ {
        RouteView::NotFound
    } else if path == seq!['/'] {
        RouteView::Listing(ROOT_ADDRESS@)
    } else {
        match segment(path) {
            Some((name, listing)) => named(Some(name), listing),
            None => RouteView::NotFound,
        }
    }
}

/// Tells whether `method` is `GET`.
fn is_get(method: &str) -> (get: bool)
    ensures
        get == (method@ == "GET"@),
{
    proof {
        reveal_strlit("GET");
    }
    let get = method.unicode_len() == 3 && method.get_char(0) == 'G' && method.get_char(1) == 'E'
        && method.get_char(2) == 'T';
    assert(get ==> method@ =~= "GET"@);
    get
}

/// Finds the first `/` of `s`.
fn find_first_slash(s: &str) -> (at: usize)
    ensures
        at == first_slash(s@),
        at <= s@.len(),
{
    let n = s.unicode_len();
    let mut at: usize = 0;
    let mut i: usize = 0;
    for c in it: s.chars()
        invariant
            it.seq() == s@,
            n == s@.len(),
            i == it.index(),
            at == first_slash(s@.subrange(0, i as int)),
            at <= i,
    {
        assert(s@.subrange(0, i + 1).drop_last() =~= s@.subrange(0, i as int));
        if at == i && c != '/' {
            at = i + 1;
        }
        i = i + 1;
    }
    assert(s@.subrange(0, n as int) =~= s@);
    at
}

/// Decodes the name of an address and says what is asked of the address.
fn route_to(name: &str, listing: bool) -> (route: Route)
    ensures
        route@ == named(percent_decoded(name@), listing),
        is_plain(name@) ==> route@ == named(Some(name@), listing),
{
    match percent_decode(name) {
        Some(address) => if listing {
            Route::Listing(address)
        } else {
            Route::File(address)
        },
        None => Route::NotFound,
    }
}

/// Reads what a request asks for from its method and the path of its
/// target, as `routed` describes. Where the path holds no `%`, the address
/// is the segment as it stands.
pub fn route(method: &str, path: &str) -> (route: Route)
    ensures
        route@ == routed(method@, path@),
        is_plain(path@) ==> route@ == routed_plain(method@, path@),
{
    if !is_get(method) {
        return Route::NotFound;
    }
    let len = path.unicode_len();
    if len == 0 || path.get_char(0) != '/' {
        return Route::NotFound;
    }
    if len == 1 {
        assert(path@ =~= seq!['/']);
        return Route::Listing(String::from_str(ROOT_ADDRESS));
    }
    let rest = path.substring_char(1, len);
    let at = find_first_slash(rest);
    if at == len - 1 {
        assert(is_plain(path@) ==> is_plain(rest@));
        route_to(rest, false)
    } else if at == len - 2 && len > 2 {
        let name = rest.substring_char(0, len - 2);
        assert(is_plain(path@) ==> is_plain(name@));
        route_to(name, true)
    } else {
        Route::NotFound
    }
}

/// The first `/` of a text lies inside it or at its end, nothing before it
/// is a `/`, and where it lies inside, a `/` stands there.
pub proof fn lemma_first_slash_bounds(s: Seq<char>)
    ensures
        0 <= first_slash(s) <= s.len(),
        first_slash(s) < s.len() ==> s[first_slash(s)] == '/',
        forall|i: int| 0 <= i < first_slash(s) ==> s[i] != '/',
    decreases s.len(),
{
    if s.len() > 0 {
        lemma_first_slash_bounds(s.drop_last());
        assert forall|i: int| 0 <= i < first_slash(s) implies s[i] != '/' by {
            if i < s.len() - 1 {
                assert(s.drop_last()[i] == s[i]);
            }
        }
    }
}

/// Only `GET` is served: a request with any other method asks for nothing,
/// whatever its path.
pub proof fn law_only_get_is_routed(method: Seq<char>, path: Seq<char>)
    requires
        method != "GET"@,
    ensures
        routed(method, path) == RouteView::NotFound,
{
}

/// A file or a listing is asked for by a path of one segment only: after
/// its leading `/` the path holds no other `/` where it asks for a file,
/// and exactly one, at its end, where it asks for the listing of a
/// directory other than the root. The address is what the segment decodes
/// to.
pub proof fn law_routes_take_one_segment(method: Seq<char>, path: Seq<char>)
    ensures
        routed(method, path) is File ==> path.len() > 1 && path[0] == '/' && (forall|i: int|
            1 <= i < path.len() ==> path[i] != '/') && percent_decoded(path.drop_first()) == Some(
            routed(method, path)->File_0,
        ),
        routed(method, path) is Listing && path.len() > 1 ==> path.len() > 2 && path[0] == '/'
            && path.last() == '/' && (forall|i: int| 1 <= i < path.len() - 1 ==> path[i] != '/')
            && percent_decoded(path.drop_first().drop_last()) == Some(
            routed(method, path)->Listing_0,
        ),
{
    if path.len() > 1 && path[0] == '/' {
        let rest = path.drop_first();
        lemma_first_slash_bounds(rest);
        if routed(method, path) is File {
            assert forall|i: int| 1 <= i < path.len() implies path[i] != '/' by {
                assert(path[i] == rest[i - 1]);
            }
        }
        if routed(method, path) is Listing {
            assert forall|i: int| 1 <= i < path.len() - 1 implies path[i] != '/' by {
                assert(path[i] == rest[i - 1]);
            }
        }
    }
}

} // verus!
