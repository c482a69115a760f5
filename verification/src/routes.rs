//! Which request goes to which handler.
use vstd::prelude::*;

verus! {

/// The method of a request.
#[derive(Clone, Copy, Debug, PartialEq, Eq, Structural)]
pub enum Method {
    Get,
    Post,
}

/// The handler of a request.
#[derive(Clone, Copy, Debug, PartialEq, Eq, Structural)]
pub enum Endpoint {
    State,
    Heartbeat,
    Current,
    HookThinking,
    HookWorking,
    HookDone,
    HookIdle,
    HookPermission,
    UserInput,
    UserPending,
    UserMessage,
    UserMessagePending,
    SessionMessages,
}

/// A path with the method it is asked for by and its handler.
pub struct Route {
    pub path: String,
    pub method: Method,
    pub endpoint: Endpoint,
}

/// What a route holds.
pub struct RouteModel {
    pub path: Seq<char>,
    pub method: Method,
    pub endpoint: Endpoint,
}

impl View for Route {
    type V = RouteModel;

    open spec fn view(&self) -> RouteModel {
        RouteModel { path: self.path@, method: self.method, endpoint: self.endpoint }
    }
}

/// What each route holds.
pub open spec fn routes_view(v: Seq<Route>) -> Seq<RouteModel> {
    v.map_values(|r: Route| r@)
}

pub open spec fn to_get(path: Seq<char>, endpoint: Endpoint) -> RouteModel {
    RouteModel { path, method: Method::Get, endpoint }
}

pub open spec fn to_post(path: Seq<char>, endpoint: Endpoint) -> RouteModel {
    RouteModel { path, method: Method::Post, endpoint }
}

/// All routes.
pub open spec fn route_table() -> Seq<RouteModel> {
    seq![
        to_post("/api/state"@, Endpoint::State),
        to_get("/api/heartbeat"@, Endpoint::Heartbeat),
        to_get("/api/current"@, Endpoint::Current),
        to_post("/api/hook/thinking"@, Endpoint::HookThinking),
        to_post("/api/hook/working"@, Endpoint::HookWorking),
        to_post("/api/hook/done"@, Endpoint::HookDone),
        to_post("/api/hook/idle"@, Endpoint::HookIdle),
        to_post("/api/hook/permission"@, Endpoint::HookPermission),
        to_post("/api/user/input"@, Endpoint::UserInput),
        to_get("/api/user/pending"@, Endpoint::UserPending),
        to_post("/api/user/message"@, Endpoint::UserMessage),
        to_get("/api/user/message/pending"@, Endpoint::UserMessagePending),
        to_get("/api/session/messages"@, Endpoint::SessionMessages),
    ]
}

fn get(path: &str, endpoint: Endpoint) -> (r: Route)
    ensures
        r@ == to_get(path@, endpoint),
{
    Route { path: path.to_owned(), method: Method::Get, endpoint }
}

fn post(path: &str, endpoint: Endpoint) -> (r: Route)
    ensures
        r@ == to_post(path@, endpoint),
{
    Route { path: path.to_owned(), method: Method::Post, endpoint }
}

/// Lists all routes.
pub fn routes() -> (r: Vec<Route>)
    ensures
        routes_view(r@) == route_table(),
{
    let mut table: Vec<Route> = Vec::new();
    table.push(post("/api/state", Endpoint::State));
    table.push(get("/api/heartbeat", Endpoint::Heartbeat));
    table.push(get("/api/current", Endpoint::Current));
    table.push(post("/api/hook/thinking", Endpoint::HookThinking));
    table.push(post("/api/hook/working", Endpoint::HookWorking));
    table.push(post("/api/hook/done", Endpoint::HookDone));
    table.push(post("/api/hook/idle", Endpoint::HookIdle));
    table.push(post("/api/hook/permission", Endpoint::HookPermission));
    table.push(post("/api/user/input", Endpoint::UserInput));
    table.push(get("/api/user/pending", Endpoint::UserPending));
    table.push(post("/api/user/message", Endpoint::UserMessage));
    table.push(get("/api/user/message/pending", Endpoint::UserMessagePending));
    table.push(get("/api/session/messages", Endpoint::SessionMessages));
    assert(routes_view(table@) =~= route_table());
    table
}

/// No two routes share a path, so a path leads to one handler at most.
pub proof fn law_paths_differ(i: int, j: int)
    requires
        0 <= i < route_table().len(),
        0 <= j < route_table().len(),
        i != j,
    ensures
        route_table()[i].path != route_table()[j].path,
{
    reveal_strlit("/api/state");
    reveal_strlit("/api/heartbeat");
    reveal_strlit("/api/current");
    reveal_strlit("/api/hook/thinking");
    reveal_strlit("/api/hook/working");
    reveal_strlit("/api/hook/done");
    reveal_strlit("/api/hook/idle");
    reveal_strlit("/api/hook/permission");
    reveal_strlit("/api/user/input");
    reveal_strlit("/api/user/pending");
    reveal_strlit("/api/user/message");
    reveal_strlit("/api/user/message/pending");
    reveal_strlit("/api/session/messages");
    let a = route_table()[i].path;
    let b = route_table()[j].path;
    assert(a.len() != b.len() || a[5] != b[5] || a[10] != b[10]);
}

/// Every handler has one route.
pub proof fn law_endpoint_has_one_route(endpoint: Endpoint)
    ensures
        exists|i: int|
            0 <= i < route_table().len() && (#[trigger] route_table()[i]).endpoint == endpoint,
        forall|i: int, j: int|
            0 <= i < route_table().len() && 0 <= j < route_table().len() && (
            #[trigger] route_table()[i]).endpoint == endpoint && (#[trigger] route_table()[j]).endpoint
                == endpoint ==> i == j,
{
    let i: int = match endpoint {
        Endpoint::State => 0,
        Endpoint::Heartbeat => 1,
        Endpoint::Current => 2,
        Endpoint::HookThinking => 3,
        Endpoint::HookWorking => 4,
        Endpoint::HookDone => 5,
        Endpoint::HookIdle => 6,
        Endpoint::HookPermission => 7,
        Endpoint::UserInput => 8,
        Endpoint::UserPending => 9,
        Endpoint::UserMessage => 10,
        Endpoint::UserMessagePending => 11,
        Endpoint::SessionMessages => 12,
    };
    assert(route_table()[i].endpoint == endpoint);
}

} // verus!
