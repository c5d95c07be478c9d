//! The REST API's route table, the server's address configuration, and the
//! report given for a request that matches no route.

use vstd::prelude::*;
use vstd::string::StringExecFns;
use crate::text::{chars_of, str_eq};

verus! {

/// A route: its HTTP method and path pattern.
#[derive(Clone, Copy, Debug)]
pub struct RouteInfo {
    pub method: &'static str,
    pub path: &'static str,
}

/// Every route the API serves, in registration order.
pub open spec fn route_table() -> Seq<RouteInfo> {
    seq![
        RouteInfo { method: "GET", path: "/health" },
        RouteInfo { method: "GET", path: "/bots" },
        RouteInfo { method: "POST", path: "/bots" },
        RouteInfo { method: "DELETE", path: "/bots/{bot_id}" },
        RouteInfo { method: "GET", path: "/bots/{bot_id}/status" },
        RouteInfo { method: "GET", path: "/bots/{bot_id}/context" },
        RouteInfo { method: "POST", path: "/bots/{bot_id}/move" },
        RouteInfo { method: "POST", path: "/bots/{bot_id}/follow" },
        RouteInfo { method: "POST", path: "/bots/{bot_id}/stop" },
        RouteInfo { method: "POST", path: "/bots/{bot_id}/attack" },
        RouteInfo { method: "POST", path: "/bots/{bot_id}/skill" },
        RouteInfo { method: "POST", path: "/bots/{bot_id}/sit" },
        RouteInfo { method: "POST", path: "/bots/{bot_id}/stand" },
        RouteInfo { method: "POST", path: "/bots/{bot_id}/pickup" },
        RouteInfo { method: "POST", path: "/bots/{bot_id}/emote" },
        RouteInfo { method: "POST", path: "/bots/{bot_id}/chat" },
        RouteInfo { method: "GET", path: "/bots/{bot_id}/chat/history" },
        RouteInfo { method: "GET", path: "/bots/{bot_id}/nearby" },
        RouteInfo { method: "GET", path: "/bots/{bot_id}/skills" },
        RouteInfo { method: "GET", path: "/bots/{bot_id}/inventory" },
        RouteInfo { method: "GET", path: "/bots/{bot_id}/player_status" },
        RouteInfo { method: "POST", path: "/bots/{bot_id}/teleport_to_player" },
        RouteInfo { method: "GET", path: "/bots/{bot_id}/zone" },
        RouteInfo { method: "POST", path: "/bots/{bot_id}/execute" },
    ]
}

/// All routes the API serves.
pub fn get_route_info() -> (r: Vec<RouteInfo>)
    ensures
        r@ == route_table(),
{
    let r = vec![
        RouteInfo { method: "GET", path: "/health" },
        RouteInfo { method: "GET", path: "/bots" },
        RouteInfo { method: "POST", path: "/bots" },
        RouteInfo { method: "DELETE", path: "/bots/{bot_id}" },
        RouteInfo { method: "GET", path: "/bots/{bot_id}/status" },
        RouteInfo { method: "GET", path: "/bots/{bot_id}/context" },
        RouteInfo { method: "POST", path: "/bots/{bot_id}/move" },
        RouteInfo { method: "POST", path: "/bots/{bot_id}/follow" },
        RouteInfo { method: "POST", path: "/bots/{bot_id}/stop" },
        RouteInfo { method: "POST", path: "/bots/{bot_id}/attack" },
        RouteInfo { method: "POST", path: "/bots/{bot_id}/skill" },
        RouteInfo { method: "POST", path: "/bots/{bot_id}/sit" },
        RouteInfo { method: "POST", path: "/bots/{bot_id}/stand" },
        RouteInfo { method: "POST", path: "/bots/{bot_id}/pickup" },
        RouteInfo { method: "POST", path: "/bots/{bot_id}/emote" },
        RouteInfo { method: "POST", path: "/bots/{bot_id}/chat" },
        RouteInfo { method: "GET", path: "/bots/{bot_id}/chat/history" },
        RouteInfo { method: "GET", path: "/bots/{bot_id}/nearby" },
        RouteInfo { method: "GET", path: "/bots/{bot_id}/skills" },
        RouteInfo { method: "GET", path: "/bots/{bot_id}/inventory" },
        RouteInfo { method: "GET", path: "/bots/{bot_id}/player_status" },
        RouteInfo { method: "POST", path: "/bots/{bot_id}/teleport_to_player" },
        RouteInfo { method: "GET", path: "/bots/{bot_id}/zone" },
        RouteInfo { method: "POST", path: "/bots/{bot_id}/execute" },
    ];
    assert(r@ =~= route_table());
    r
}

/// Port the API listens on unless configured otherwise.
pub const DEFAULT_API_PORT: u16 = 8080;

/// Where the API server listens.
#[derive(Clone, Debug)]
pub struct ApiServerConfig {
    pub port: u16,
    pub host: String,
}

impl Default for ApiServerConfig {
    fn default() -> (r: ApiServerConfig)
        ensures
            r.port == DEFAULT_API_PORT,
            r.host@ == "127.0.0.1"@,
    {
        ApiServerConfig { port: DEFAULT_API_PORT, host: String::from_str("127.0.0.1") }
    }
}

impl ApiServerConfig {
    /// Listening on `port` of the default host.
    pub fn new(port: u16) -> (r: ApiServerConfig)
        ensures
            r.port == port,
            r.host@ == "127.0.0.1"@,
    {
        ApiServerConfig { port, ..Default::default() }
    }

    /// The same configuration bound to `host`.
    pub fn with_host(self, host: &str) -> (r: ApiServerConfig)
        ensures
            r.port == self.port,
            r.host@ == host@,
    {
        let mut c = self;
        c.host = String::from_str(host);
        c
    }
}

/// `s` without its leading slashes.
pub open spec fn strip_slashes(s: Seq<char>) -> Seq<char>
    decreases s.len(),
{
    if s.len() > 0 && s[0] == '/' {
        strip_slashes(s.drop_first())
    } else {
        s
    }
}

/// The characters of `s` up to its first slash.
pub open spec fn until_slash(s: Seq<char>) -> Seq<char>
    decreases s.len(),
{
    if s.len() == 0 || s[0] == '/' {
        Seq::empty()
    } else {
        seq![s[0]] + until_slash(s.drop_first())
    }
}

/// The first non-empty segment of a slash-separated path (empty when the
/// path has none).
pub open spec fn first_segment(s: Seq<char>) -> Seq<char> {
    until_slash(strip_slashes(s))
}

/// The first non-empty segment of `path`.
pub fn path_first_segment(path: &str) -> (r: Vec<char>)
    ensures
        r@ == first_segment(path@),
{
    let cs = chars_of(path);
    let n = cs.len();
    let mut i: usize = 0;
    assert(cs@.skip(0) =~= cs@);
    while i < n && cs[i] == '/'
        invariant
            i <= n,
            n == cs@.len(),
            strip_slashes(cs@.skip(i as int)) == strip_slashes(cs@),
        decreases n - i,
    {
        assert(cs@.skip(i as int).drop_first() =~= cs@.skip(i as int + 1));
        i = i + 1;
    }
    assert(strip_slashes(cs@.skip(i as int)) == cs@.skip(i as int));
    let start = i;
    let mut out: Vec<char> = Vec::new();
    while i < n && cs[i] != '/'
        invariant
            start <= i <= n,
            n == cs@.len(),
            out@ + until_slash(cs@.skip(i as int)) == until_slash(cs@.skip(start as int)),
        decreases n - i,
    {
        assert(cs@.skip(i as int).drop_first() =~= cs@.skip(i as int + 1));
        assert(until_slash(cs@.skip(i as int)) == seq![cs@[i as int]] + until_slash(cs@.skip(i as int + 1)));
        out.push(cs[i]);
        assert(out@ + until_slash(cs@.skip(i as int + 1)) =~= until_slash(cs@.skip(start as int)));
        i = i + 1;
    }
    assert(until_slash(cs@.skip(i as int)) == Seq::<char>::empty());
    assert(out@ =~= until_slash(cs@.skip(start as int)));
    out
}

fn same_chars(a: &Vec<char>, b: &Vec<char>) -> (r: bool)
    ensures
        r == (a@ == b@),
{
    if a.len() != b.len() {
        return false;
    }
    let mut i: usize = 0;
    while i < a.len()
        invariant
            i <= a@.len(),
            a@.len() == b@.len(),
            forall|k: int| 0 <= k < i ==> a@[k] == b@[k],
        decreases a@.len() - i,
    {
        if a[i] != b[i] {
            return false;
        }
        i = i + 1;
    }
    assert(a@ =~= b@);
    true
}

/// The paths of the routes served for `method`, in order.
pub open spec fn paths_for_method(routes: Seq<RouteInfo>, method: Seq<char>) -> Seq<&'static str> {
    routes.filter(|r: RouteInfo| r.method@ == method).map_values(|r: RouteInfo| r.path)
}

/// The paths among `paths` whose first segment is that of `path`, when
/// `path` has one.
pub open spec fn similar_paths(paths: Seq<&'static str>, path: Seq<char>) -> Seq<&'static str> {
    paths.filter(|p: &'static str| first_segment(path).len() > 0 && first_segment(p@) == first_segment(path))
}

fn routes_for_method(routes: &Vec<RouteInfo>, method: &str) -> (r: Vec<&'static str>)
    ensures
        r@ == paths_for_method(routes@, method@),
{
    let mut out: Vec<&'static str> = Vec::new();
    let mut i: usize = 0;
    while i < routes.len()
        invariant
            i <= routes@.len(),
            out@ == paths_for_method(routes@.take(i as int), method@),
        decreases routes@.len() - i,
    {
        let route = routes[i];
        proof {
            assert(routes@.take(i as int + 1).drop_last() == routes@.take(i as int));
            reveal(Seq::filter);
        }
        if str_eq(route.method, method) {
            out.push(route.path);
        }
        i = i + 1;
    }
    assert(routes@.take(routes@.len() as int) == routes@);
    out
}

fn routes_like(paths: &Vec<&'static str>, path: &str) -> (r: Vec<&'static str>)
    ensures
        r@ == similar_paths(paths@, path@),
{
    let wanted = path_first_segment(path);
    let mut out: Vec<&'static str> = Vec::new();
    let mut i: usize = 0;
    while i < paths.len()
        invariant
            i <= paths@.len(),
            wanted@ == first_segment(path@),
            out@ == similar_paths(paths@.take(i as int), path@),
        decreases paths@.len() - i,
    {
        let p = paths[i];
        proof {
            assert(paths@.take(i as int + 1).drop_last() == paths@.take(i as int));
            reveal(Seq::filter);
        }
        let seg = path_first_segment(p);
        if wanted.len() > 0 && same_chars(&seg, &wanted) {
            out.push(p);
        }
        i = i + 1;
    }
    assert(paths@.take(paths@.len() as int) == paths@);
    out
}

/// `items` joined with ", ".
pub open spec fn joined(items: Seq<&'static str>) -> Seq<char>
    decreases items.len(),
{
    if items.len() == 0 {
        Seq::empty()
    } else if items.len() == 1 {
        items[0]@
    } else {
        joined(items.drop_last()) + ", "@ + items.last()@
    }
}

fn join_paths(items: &Vec<&'static str>) -> (r: String)
    ensures
        r@ == joined(items@),
{
    let mut out = String::new();
    let mut i: usize = 0;
    while i < items.len()
        invariant
            i <= items@.len(),
            out@ == joined(items@.take(i as int)),
        decreases items@.len() - i,
    {
        proof {
            assert(items@.take(i as int + 1).drop_last() == items@.take(i as int));
        }
        if i > 0 {
            out.append(", ");
        }
        out.append(items[i]);
        i = i + 1;
    }
    assert(items@.take(items@.len() as int) == items@);
    out
}

/// What the API answers about a request that matches no route.
pub struct FallbackReport {
    /// "No route matches " followed by the method, a space and the path.
    pub message: String,
    /// The paths served for the request's method.
    pub available_routes: Vec<&'static str>,
    /// Those of them that share the request path's first segment.
    pub similar_routes: Vec<&'static str>,
    pub hint: String,
}

/// The hint for the similar routes found.
pub open spec fn fallback_hint(method: Seq<char>, similar: Seq<&'static str>) -> Seq<char> {
    if similar.len() == 1 {
        "Did you mean "@ + method + " "@ + similar[0]@ + "?"@
    } else if similar.len() > 1 {
        "Similar routes found: "@ + joined(similar)
    } else {
        "Check the API documentation for available routes"@
    }
}

/// The report for a `method` request to `path` that no route matches.
pub fn fallback_report(method: &str, path: &str) -> (r: FallbackReport)
    ensures
        r.message@ == "No route matches "@ + method@ + " "@ + path@,
        r.available_routes@ == paths_for_method(route_table(), method@),
        r.similar_routes@ == similar_paths(r.available_routes@, path@),
        r.hint@ == fallback_hint(method@, r.similar_routes@),
{
    let routes = get_route_info();
    let available = routes_for_method(&routes, method);
    let similar = routes_like(&available, path);
    let mut message = String::from_str("No route matches ");
    message.append(method);
    message.append(" ");
    message.append(path);
    let hint = if similar.len() == 1 {
        let mut h = String::from_str("Did you mean ");
        h.append(method);
        h.append(" ");
        h.append(similar[0]);
        h.append("?");
        h
    } else if similar.len() > 1 {
        let mut h = String::from_str("Similar routes found: ");
        let j = join_paths(&similar);
        h.append(j.as_str());
        h
    } else {
        String::from_str("Check the API documentation for available routes")
    };
    FallbackReport { message, available_routes: available, similar_routes: similar, hint }
}

} // verus!
