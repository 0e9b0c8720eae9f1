use vstd::prelude::*;
use vstd::string::StringSliceAdditionalSpecFns;

verus! {

/// Whether the regex crate compiles `pattern`.
pub uninterp spec fn regex_compiles(pattern: Seq<char>) -> bool;

/// Whether the regex that `pattern` compiles to matches somewhere in `text`.
pub uninterp spec fn regex_finds(pattern: Seq<char>, text: Seq<u8>) -> bool;

/// Relies on `regex::bytes::Regex::new`, which compiles `pattern` or returns
/// an error.
#[verifier::external_body]
fn pattern_compiles(pattern: &str) -> (r: bool)
    ensures
        r == regex_compiles(pattern@),
{
    regex::bytes::Regex::new(pattern).is_ok()
}

/// Relies on `regex::bytes::Regex::new`, as `pattern_compiles` does, and on
/// `regex::bytes::Regex::is_match`, which tells whether the compiled pattern
/// matches anywhere in `text`.
#[verifier::external_body]
fn pattern_verdict(pattern: &str, text: &[u8]) -> (r: Option<bool>)
    ensures
        r == (if regex_compiles(pattern@) {
            Some(regex_finds(pattern@, text@))
        } else {
            None
        }),
{
    match regex::bytes::Regex::new(pattern) {
        Ok(re) => Some(re.is_match(text)),
        Err(_) => None,
    }
}

/// One rule of the route table: the handler's name, the path pattern (a
/// regular expression over the target) and the method token it accepts.
pub struct Route {
    pub name: String,
    pub pattern: String,
    pub method: Vec<u8>,
}

pub struct RouteModel {
    pub name: Seq<char>,
    pub pattern: Seq<char>,
    pub method: Seq<u8>,
}

impl View for Route {
    type V = RouteModel;

    open spec fn view(&self) -> RouteModel {
        RouteModel { name: self.name@, pattern: self.pattern@, method: self.method@ }
    }
}

/// `r` takes a request with this method and target: the method is the same
/// token, byte for byte, and the pattern compiles and matches the target.
pub open spec fn route_takes(r: RouteModel, method: Seq<u8>, target: Seq<u8>) -> bool {
    r.method == method && regex_compiles(r.pattern) && regex_finds(r.pattern, target)
}

/// For each route of the table, whether it takes the request.
pub open spec fn takes_all(routes: Seq<RouteModel>, method: Seq<u8>, target: Seq<u8>) -> Seq<bool> {
    Seq::new(routes.len(), |i: int| route_takes(routes[i], method, target))
}

/// The first index at or after `i` whose flag is set.
pub open spec fn first_true_from(flags: Seq<bool>, i: int) -> Option<int>
    decreases flags.len() - i,
{
    if i < 0 || i >= flags.len() {
        None
    } else if flags[i] {
        Some(i)
    } else {
        first_true_from(flags, i + 1)
    }
}

/// The first index whose flag is set.
pub open spec fn first_true(flags: Seq<bool>) -> Option<int> {
    first_true_from(flags, 0)
}

/// The first route of the table that takes the request.
pub open spec fn first_route(routes: Seq<RouteModel>, method: Seq<u8>, target: Seq<u8>) -> Option<
    int,
> {
    first_true(takes_all(routes, method, target))
}

/// The first set flag from index `i` on is set, and none between `i` and it
/// is; when there is none, no flag from `i` on is set.
pub proof fn lemma_first_true_from(flags: Seq<bool>, i: int)
    requires
        0 <= i,
    ensures
        match first_true_from(flags, i) {
            Some(k) => i <= k < flags.len() && flags[k] && forall|l: int|
                i <= l < k ==> !#[trigger] flags[l],
            None => forall|l: int| i <= l < flags.len() ==> !#[trigger] flags[l],
        },
    decreases flags.len() - i,
{
    if i < flags.len() && !flags[i] {
        lemma_first_true_from(flags, i + 1);
    }
}

/// First match wins: when two routes of a table both take a request, the
/// answering route is the earlier one or one before it, never the later one.
pub proof fn earlier_route_wins(
    routes: Seq<RouteModel>,
    method: Seq<u8>,
    target: Seq<u8>,
    i: int,
    j: int,
)
    requires
        0 <= i < j < routes.len(),
        route_takes(routes[i], method, target),
        route_takes(routes[j], method, target),
    ensures
        first_route(routes, method, target) matches Some(k) && k <= i,
        first_route(routes, method, target) != Some(j),
{
    let flags = takes_all(routes, method, target);
    assert(flags[i]);
    lemma_first_true_from(flags, 0);
}

/// The index of the first set flag, or `None` when no flag is set: the
/// choice among routes once each is known to take the request or not.
pub fn first_taken(flags: &Vec<bool>) -> (r: Option<usize>)
    ensures
        match r {
            Some(i) => first_true(flags@) == Some(i as int) && i < flags@.len(),
            None => first_true(flags@) is None,
        },
{
    proof {
        lemma_first_true_from(flags@, 0);
    }
    let mut i: usize = 0;
    while i < flags.len()
        invariant
            i <= flags@.len(),
            first_true(flags@) == first_true_from(flags@, i as int),
        decreases flags@.len() - i,
    {
        if flags[i] {
            return Some(i);
        }
        i = i + 1;
    }
    None
}

/// Every route's pattern compiles.
pub open spec fn patterns_compile(routes: Seq<RouteModel>) -> bool {
    forall|i: int| 0 <= i < routes.len() ==> regex_compiles(#[trigger] routes[i].pattern)
}

/// The models of a sequence of routes.
pub open spec fn route_models(v: Seq<Route>) -> Seq<RouteModel> {
    Seq::new(v.len(), |i: int| v[i]@)
}

/// Why a route table was refused.
#[derive(PartialEq, Eq, Structural, Clone, Copy, Debug)]
pub enum TableError {
    /// The route at this index has a pattern that does not compile.
    InvalidPattern(usize),
}

/// The routes of the standard configuration, in order.
pub open spec fn standard_routes() -> Seq<RouteModel> {
    seq![
        RouteModel { name: "index"@, pattern: "^\\/$"@, method: "GET".spec_bytes() },
        RouteModel { name: "echo"@, pattern: "^\\/echo\\/(.*)$"@, method: "GET".spec_bytes() },
        RouteModel { name: "user_agent"@, pattern: "^\\/user-agent$"@, method: "GET".spec_bytes() },
        RouteModel { name: "get_file"@, pattern: "^\\/files\\/(.*)$"@, method: "GET".spec_bytes() },
        RouteModel {
            name: "post_file"@,
            pattern: "^\\/files\\/(.*)$"@,
            method: "POST".spec_bytes(),
        },
    ]
}

/// One route from its name, pattern and method token.
fn route(name: &str, pattern: &str, method: &str) -> (r: Route)
    ensures
        r@ == (RouteModel { name: name@, pattern: pattern@, method: method.spec_bytes() }),
{
    let m = method.as_bytes();
    let mut v: Vec<u8> = Vec::new();
    crate::handler::push_all(&mut v, m);
    assert(v@ =~= m@);
    Route { name: name.to_owned(), pattern: pattern.to_owned(), method: v }
}

/// An ordered, fixed sequence of routes; the first route that takes a request
/// is the one that answers it.
pub struct RouteTable {
    pub routes: Vec<Route>,
}

impl View for RouteTable {
    type V = Seq<RouteModel>;

    open spec fn view(&self) -> Seq<RouteModel> {
        route_models(self.routes@)
    }
}

impl RouteTable {
    /// A table of the given routes, in the given order, once every pattern
    /// is known to compile; otherwise the first route whose pattern does not.
    pub fn new(routes: Vec<Route>) -> (r: Result<RouteTable, TableError>)
        ensures
            match r {
                Ok(t) => t@ == route_models(routes@) && patterns_compile(t@),
                Err(TableError::InvalidPattern(i)) => i < routes@.len() && !regex_compiles(
                    routes@[i as int]@.pattern,
                ) && forall|j: int| 0 <= j < i ==> regex_compiles(#[trigger] routes@[j]@.pattern),
            },
    {
        let mut i: usize = 0;
        while i < routes.len()
            invariant
                i <= routes@.len(),
                forall|j: int| 0 <= j < i ==> regex_compiles(#[trigger] routes@[j]@.pattern),
            decreases routes@.len() - i,
        {
            if !pattern_compiles(routes[i].pattern.as_str()) {
                return Err(TableError::InvalidPattern(i));
            }
            i = i + 1;
        }
        let t = RouteTable { routes };
        assert forall|j: int| 0 <= j < t@.len() implies regex_compiles(#[trigger] t@[j].pattern) by {
            assert(t@[j] == t.routes@[j]@);
        }
        Ok(t)
    }

    /// The standard configuration: index, echo, user agent, file read and
    /// file write.
    pub fn standard() -> (r: Result<RouteTable, TableError>)
        ensures
            match r {
                Ok(t) => t@ == standard_routes() && patterns_compile(t@),
                Err(_) => !patterns_compile(standard_routes()),
            },
    {
        let mut routes: Vec<Route> = Vec::new();
        routes.push(route("index", "^\\/$", "GET"));
        routes.push(route("echo", "^\\/echo\\/(.*)$", "GET"));
        routes.push(route("user_agent", "^\\/user-agent$", "GET"));
        routes.push(route("get_file", "^\\/files\\/(.*)$", "GET"));
        routes.push(route("post_file", "^\\/files\\/(.*)$", "POST"));
        assert(route_models(routes@) =~= standard_routes());
        let r = RouteTable::new(routes);
        proof {
            if let Err(TableError::InvalidPattern(i)) = r {
                assert(standard_routes()[i as int] == routes@[i as int]@);
            }
        }
        r
    }

    /// For each route, whether it takes a request with this method and
    /// target.
    pub fn takes(&self, method: &[u8], target: &[u8]) -> (r: Vec<bool>)
        ensures
            r@ == takes_all(self@, method@, target@),
    {
        let mut flags: Vec<bool> = Vec::new();
        let mut i: usize = 0;
        while i < self.routes.len()
            invariant
                i <= self.routes@.len(),
                flags@ == takes_all(self@, method@, target@).subrange(0, i as int),
            decreases self.routes@.len() - i,
        {
            let r = &self.routes[i];
            let t = if crate::handler::same_bytes(r.method.as_slice(), method) {
                match pattern_verdict(r.pattern.as_str(), target) {
                    Some(found) => found,
                    None => false,
                }
            } else {
                false
            };
            assert(self@[i as int] == r@);
            flags.push(t);
            assert(flags@ =~= takes_all(self@, method@, target@).subrange(0, i + 1));
            i = i + 1;
        }
        assert(flags@ =~= takes_all(self@, method@, target@));
        flags
    }

    /// The index of the first route that takes a request with this method
    /// and target, or `None` when none does.
    pub fn find_route(&self, method: &[u8], target: &[u8]) -> (r: Option<usize>)
        ensures
            match r {
                Some(i) => first_route(self@, method@, target@) == Some(i as int) && i
                    < self.routes@.len(),
                None => first_route(self@, method@, target@) is None,
            },
    {
        let flags = self.takes(method, target);
        first_taken(&flags)
    }
}

} // verus!
