//! The request router: a fixed table from method and path to a handler, and
//! the response that each handler gives.

use vstd::prelude::*;
use vstd::string::StringSliceAdditionalSpecFns;
use vstd::string::StrSliceExecFns;
use crate::text::same_text;
use crate::transform::{chunks_view, echo, upper_chunks, uppercase_transform};

verus! {

/// The status of a response that a handler of the table produced.
pub const STATUS_OK: u16 = 200;

/// The status of the response to a request that no entry matches.
pub const STATUS_NOT_FOUND: u16 = 404;

/// The text served at the root path.
pub const INSTRUCTIONS: &'static str =
    "Try POSTing data to /echo such as: `curl localhost:3000/echo -XPOST -d 'hello world'`";

/// A request method. `Other` stands for every method without a name here.
#[derive(Clone, Copy, Debug, PartialEq, Eq, Structural)]
pub enum Method {
    Get,
    Post,
    Put,
    Delete,
    Head,
    Options,
    Connect,
    Patch,
    Trace,
    Other,
}

/// What the router selects for a request.
#[derive(Clone, Copy, Debug, PartialEq, Eq, Structural)]
pub enum Handler {
    /// Serve the fixed instructional text.
    Instructions,
    /// Return the request body unchanged.
    Echo,
    /// Return the request body uppercased, chunk by chunk.
    EchoUppercase,
    /// No entry matches.
    NotFound,
}

/// A response: a status code and a body as a sequence of chunks.
#[derive(Debug)]
pub struct Response {
    pub status: u16,
    pub body: Vec<Vec<u8>>,
}

impl Response {
    /// The chunks of the body as sequences of bytes.
    pub open spec fn chunks(&self) -> Seq<Seq<u8>> {
        chunks_view(self.body@)
    }
}

/// The route table, entry by entry in definition order. Matching is exact on
/// the method and on the literal path.
pub open spec fn route_of(method: Method, path: Seq<char>) -> Handler {
    if method == Method::Get && path == "/"@ {
        Handler::Instructions
    } else if method == Method::Post && path == "/echo"@ {
        Handler::Echo
    } else if method == Method::Get && path == "/echo"@ {
        Handler::Echo
    } else if method == Method::Post && path == "/echo/uppercase"@ {
        Handler::EchoUppercase
    } else {
        Handler::NotFound
    }
}

/// Whether some entry of the table has this method and this path.
pub open spec fn in_table(method: Method, path: Seq<char>) -> bool {
    ||| method == Method::Get && path == "/"@
    ||| method == Method::Post && path == "/echo"@
    ||| method == Method::Get && path == "/echo"@
    ||| method == Method::Post && path == "/echo/uppercase"@
}

/// The status that goes with a handler.
pub open spec fn status_of(handler: Handler) -> u16 {
    match handler {
        Handler::NotFound => STATUS_NOT_FOUND,
        _ => STATUS_OK,
    }
}

/// The body that a handler makes of a request body.
pub open spec fn body_of(handler: Handler, request: Seq<Seq<u8>>) -> Seq<Seq<u8>> {
    match handler {
        Handler::Instructions => seq![INSTRUCTIONS.spec_bytes()],
        Handler::Echo => request,
        Handler::EchoUppercase => upper_chunks(request),
        Handler::NotFound => Seq::empty(),
    }
}

/// One entry of a route table: a method, a literal path and the handler
/// bound to them.
#[derive(Clone, Copy, Debug)]
pub struct RouteEntry {
    pub method: Method,
    pub path: &'static str,
    pub handler: Handler,
}

impl RouteEntry {
    /// Whether this entry is for the given method and path. The match is
    /// exact on both: no wildcards, no path parameters.
    pub open spec fn matches(self, method: Method, path: Seq<char>) -> bool {
        self.method == method && self.path@ == path
    }
}

/// The handler of the first entry of a table that matches, `NotFound` where
/// none does.
pub open spec fn first_match(table: Seq<RouteEntry>, method: Method, path: Seq<char>) -> Handler
    decreases table.len(),
{
    if table.len() == 0 {
        Handler::NotFound
    } else if table[0].matches(method, path) {
        table[0].handler
    } else {
        first_match(table.drop_first(), method, path)
    }
}

/// Whether a table holds the four routes of the service, in definition order.
pub open spec fn is_fixed_table(table: Seq<RouteEntry>) -> bool {
    &&& table.len() == 4
    &&& table[0].method == Method::Get
    &&& table[0].path@ == "/"@
    &&& table[0].handler == Handler::Instructions
    &&& table[1].method == Method::Post
    &&& table[1].path@ == "/echo"@
    &&& table[1].handler == Handler::Echo
    &&& table[2].method == Method::Get
    &&& table[2].path@ == "/echo"@
    &&& table[2].handler == Handler::Echo
    &&& table[3].method == Method::Post
    &&& table[3].path@ == "/echo/uppercase"@
    &&& table[3].handler == Handler::EchoUppercase
}

/// Looks a request up in a table: the entries are tried in order and the
/// first that matches decides.
pub fn lookup(table: &[RouteEntry], method: Method, path: &str) -> (handler: Handler)
    ensures
        handler == first_match(table@, method, path@),
{
    let mut i: usize = 0;
    assert(table@.skip(0) =~= table@);
    while i < table.len()
        invariant
            i <= table@.len(),
            first_match(table@, method, path@) == first_match(
                table@.skip(i as int),
                method,
                path@,
            ),
        decreases table@.len() - i,
    {
        let entry = &table[i];
        proof {
            assert(table@.skip(i as int).drop_first() =~= table@.skip(i + 1));
        }
        if entry.method == method && same_text(entry.path, path) {
            return entry.handler;
        }
        i += 1;
    }
    Handler::NotFound
}

/// A lookup in the fixed table is the case analysis that `route_of` spells
/// out.
pub proof fn lemma_fixed_table_routes(table: Seq<RouteEntry>, method: Method, path: Seq<char>)
    requires
        is_fixed_table(table),
    ensures
        first_match(table, method, path) == route_of(method, path),
        first_match(table, method, path) == Handler::NotFound <==> !in_table(method, path),
{
    let t1 = table.drop_first();
    let t2 = t1.drop_first();
    let t3 = t2.drop_first();
    let t4 = t3.drop_first();
    assert(t1[0] == table[1] && t2[0] == table[2] && t3[0] == table[3] && t4.len() == 0);
    reveal_with_fuel(first_match, 5);
}

/// The router: the route table, built once and only read after that.
pub struct Router {
    table: Vec<RouteEntry>,
}

impl Router {
    #[verifier::type_invariant]
    spec fn holds_fixed_table(&self) -> bool {
        is_fixed_table(self.table@)
    }

    /// The entries of the table, in definition order.
    pub closed spec fn entries(&self) -> Seq<RouteEntry> {
        self.table@
    }

    /// Builds the router with the four routes of the service.
    pub fn new() -> (router: Router)
        ensures
            is_fixed_table(router.entries()),
    {
        let mut table: Vec<RouteEntry> = Vec::with_capacity(4);
        table.push(RouteEntry { method: Method::Get, path: "/", handler: Handler::Instructions });
        table.push(RouteEntry { method: Method::Post, path: "/echo", handler: Handler::Echo });
        table.push(RouteEntry { method: Method::Get, path: "/echo", handler: Handler::Echo });
        table.push(
            RouteEntry {
                method: Method::Post,
                path: "/echo/uppercase",
                handler: Handler::EchoUppercase,
            },
        );
        Router { table }
    }

    /// Selects the handler for a request: that of the first entry whose
    /// method and path both match, `NotFound` where none does.
    pub fn route(&self, method: Method, path: &str) -> (handler: Handler)
        ensures
            handler == first_match(self.entries(), method, path@),
            handler == route_of(method, path@),
            handler == Handler::NotFound <==> !in_table(method, path@),
    {
        proof {
            use_type_invariant(self);
            lemma_fixed_table_routes(self.table@, method, path@);
        }
        lookup(self.table.as_slice(), method, path)
    }

    /// Answers a request whose body is at hand as a whole: routes it and
    /// runs the selected handler.
    pub fn respond(&self, method: Method, path: &str, body: Vec<Vec<u8>>) -> (response: Response)
        ensures
            response.status == status_of(route_of(method, path@)),
            response.chunks() == body_of(route_of(method, path@), chunks_view(body@)),
            !in_table(method, path@) ==> response.status == STATUS_NOT_FOUND
                && response.body@.len() == 0,
    {
        let response = handle(self.route(method, path), body);
        assert(response.chunks().len() == response.body@.len());
        response
    }
}

/// The status code that goes with a handler.
pub fn status(handler: Handler) -> (code: u16)
    ensures
        code == status_of(handler),
{
    match handler {
        Handler::NotFound => STATUS_NOT_FOUND,
        _ => STATUS_OK,
    }
}

/// Runs a handler on a request body that is at hand as a whole.
pub fn handle(handler: Handler, body: Vec<Vec<u8>>) -> (response: Response)
    ensures
        response.status == status_of(handler),
        response.chunks() == body_of(handler, chunks_view(body@)),
{
    match handler {
        Handler::Instructions => {
            let mut chunks: Vec<Vec<u8>> = Vec::new();
            chunks.push(INSTRUCTIONS.as_bytes_vec());
            assert(chunks_view(chunks@) =~= seq![INSTRUCTIONS.spec_bytes()]);
            Response { status: STATUS_OK, body: chunks }
        },
        Handler::Echo => Response { status: STATUS_OK, body: echo(body) },
        Handler::EchoUppercase => Response { status: STATUS_OK, body: uppercase_transform(&body) },
        Handler::NotFound => {
            let chunks: Vec<Vec<u8>> = Vec::new();
            assert(chunks_view(chunks@) =~= Seq::<Seq<u8>>::empty());
            Response { status: STATUS_NOT_FOUND, body: chunks }
        },
    }
}

/// Every request outside the table is answered with the not-found status and
/// an empty body, whatever its body holds.
pub proof fn lemma_unrouted_is_not_found(method: Method, path: Seq<char>, request: Seq<Seq<u8>>)
    requires
        !in_table(method, path),
    ensures
        route_of(method, path) == Handler::NotFound,
        status_of(route_of(method, path)) == STATUS_NOT_FOUND,
        body_of(route_of(method, path), request) == Seq::<Seq<u8>>::empty(),
{
}

/// Every request inside the table is answered with the success status.
pub proof fn lemma_routed_is_ok(method: Method, path: Seq<char>)
    requires
        in_table(method, path),
    ensures
        route_of(method, path) != Handler::NotFound,
        status_of(route_of(method, path)) == STATUS_OK,
{
}

/// The echo hands every body back byte for byte.
pub proof fn lemma_echo_round_trip(request: Seq<Seq<u8>>)
    ensures
        body_of(Handler::Echo, request) == request,
        body_of(route_of(Method::Post, "/echo"@), request) == request,
        body_of(route_of(Method::Get, "/echo"@), request) == request,
{
    reveal_strlit("/");
    reveal_strlit("/echo");
    assert("/"@.len() == 1 && "/echo"@.len() == 5);
}

} // verus!
