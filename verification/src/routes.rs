//! Where each endpoint of the server is found.

use vstd::prelude::*;

verus! {

/// An endpoint of the server.
#[derive(Debug, Clone, Copy, PartialEq, Eq, Structural)]
pub enum Endpoint {
    Screen,
    Cursor,
    Status,
    Scrollback,
    /// Top-level on purpose: wait is a synchronization primitive, neither a query
    /// nor a control.
    Wait,
    Send,
    Resize,
    Stop,
    /// The WebSocket.
    Socket,
}

/// The HTTP method of an endpoint.
#[derive(Debug, Clone, Copy, PartialEq, Eq, Structural)]
pub enum Method {
    Get,
    Post,
}

impl Endpoint {
    /// The path of the endpoint.
    pub open spec fn spec_path(self) -> Seq<char> {
        match self {
            Endpoint::Screen => "/query/screen"@,
            Endpoint::Cursor => "/query/cursor"@,
            Endpoint::Status => "/query/status"@,
            Endpoint::Scrollback => "/query/scrollback"@,
            Endpoint::Wait => "/wait"@,
            Endpoint::Send => "/control/send"@,
            Endpoint::Resize => "/control/resize"@,
            Endpoint::Stop => "/control/stop"@,
            Endpoint::Socket => "/ws"@,
        }
    }

    /// The HTTP method of the endpoint.
    pub open spec fn spec_method(self) -> Method {
        match self {
            Endpoint::Send => Method::Post,
            Endpoint::Resize => Method::Post,
            Endpoint::Stop => Method::Post,
            _ => Method::Get,
        }
    }

    /// The path of the endpoint.
    pub fn path(self) -> (path: &'static str)
        ensures
            path@ == self.spec_path(),
    {
        match self {
            Endpoint::Screen => "/query/screen",
            Endpoint::Cursor => "/query/cursor",
            Endpoint::Status => "/query/status",
            Endpoint::Scrollback => "/query/scrollback",
            Endpoint::Wait => "/wait",
            Endpoint::Send => "/control/send",
            Endpoint::Resize => "/control/resize",
            Endpoint::Stop => "/control/stop",
            Endpoint::Socket => "/ws",
        }
    }

    /// The HTTP method of the endpoint.
    pub fn method(self) -> (method: Method)
        ensures
            method == self.spec_method(),
    {
        match self {
            Endpoint::Send => Method::Post,
            Endpoint::Resize => Method::Post,
            Endpoint::Stop => Method::Post,
            _ => Method::Get,
        }
    }
}

/// All endpoints, each once.
pub fn endpoints() -> (all: Vec<Endpoint>)
    ensures
        forall|endpoint: Endpoint| all@.contains(endpoint),
        all@.no_duplicates(),
{
    let all: Vec<Endpoint> = vec![
        Endpoint::Screen,
        Endpoint::Cursor,
        Endpoint::Status,
        Endpoint::Scrollback,
        Endpoint::Wait,
        Endpoint::Send,
        Endpoint::Resize,
        Endpoint::Stop,
        Endpoint::Socket,
    ];
    proof {
        assert forall|endpoint: Endpoint| all@.contains(endpoint) by {
            let at: int = match endpoint {
                Endpoint::Screen => 0,
                Endpoint::Cursor => 1,
                Endpoint::Status => 2,
                Endpoint::Scrollback => 3,
                Endpoint::Wait => 4,
                Endpoint::Send => 5,
                Endpoint::Resize => 6,
                Endpoint::Stop => 7,
                Endpoint::Socket => 8,
            };
            assert(all@[at] == endpoint);
        }
    }
    all
}

/// Letters of the paths that tell them apart.
proof fn lemma_letters()
    ensures
        "/control/"@.len() == 9,
        "/control/"@[1] == 'c',
        "/query/screen"@.len() == 13,
        "/query/screen"@[1] == 'q',
        "/query/screen"@[7] == 's',
        "/query/screen"@[8] == 'c',
        "/query/cursor"@.len() == 13,
        "/query/cursor"@[1] == 'q',
        "/query/cursor"@[7] == 'c',
        "/query/status"@.len() == 13,
        "/query/status"@[1] == 'q',
        "/query/status"@[7] == 's',
        "/query/status"@[8] == 't',
        "/query/scrollback"@.len() == 17,
        "/query/scrollback"@[1] == 'q',
        "/wait"@.len() == 5,
        "/control/send"@.len() == 13,
        "/control/send"@[7] == 'l',
        "/control/send"@[10] == 'e',
        "/control/resize"@.len() == 15,
        "/control/stop"@.len() == 13,
        "/control/stop"@[7] == 'l',
        "/control/stop"@[10] == 't',
        "/ws"@.len() == 3,
        "/control/send"@.subrange(0, 9) == "/control/"@,
        "/control/resize"@.subrange(0, 9) == "/control/"@,
        "/control/stop"@.subrange(0, 9) == "/control/"@,
{
    reveal_strlit("/control/");
    reveal_strlit("/query/screen");
    reveal_strlit("/query/cursor");
    reveal_strlit("/query/status");
    reveal_strlit("/query/scrollback");
    reveal_strlit("/wait");
    reveal_strlit("/control/send");
    reveal_strlit("/control/resize");
    reveal_strlit("/control/stop");
    reveal_strlit("/ws");
}

/// No two endpoints share a path.
pub proof fn law_paths_are_distinct(a: Endpoint, b: Endpoint)
    requires
        a != b,
    ensures
        a.spec_path() != b.spec_path(),
{
    lemma_letters();
    let p = a.spec_path();
    let q = b.spec_path();
    assert(p.len() != q.len() || p[7] != q[7] || p[8] != q[8] || p[10] != q[10]);
}

/// The endpoints that are posted to are those below `/control/`.
pub proof fn law_controls_are_posts(endpoint: Endpoint)
    ensures
        endpoint.spec_method() == Method::Post <==> "/control/"@.is_prefix_of(
            endpoint.spec_path(),
        ),
{
    lemma_letters();
    let path = endpoint.spec_path();
    if "/control/"@.is_prefix_of(path) {
        assert(path.subrange(0, 9)[1] == path[1]);
    }
}

/// Queries are read below `/query/`, controls are posted below `/control/`, each under
/// its name; waiting and the socket stand at the top.
pub proof fn law_where_endpoints_are()
    ensures
        Endpoint::Screen.spec_path() == "/query/"@ + "screen"@,
        Endpoint::Cursor.spec_path() == "/query/"@ + "cursor"@,
        Endpoint::Status.spec_path() == "/query/"@ + "status"@,
        Endpoint::Scrollback.spec_path() == "/query/"@ + "scrollback"@,
        Endpoint::Wait.spec_path() == "/"@ + "wait"@,
        Endpoint::Send.spec_path() == "/control/"@ + "send"@,
        Endpoint::Resize.spec_path() == "/control/"@ + "resize"@,
        Endpoint::Stop.spec_path() == "/control/"@ + "stop"@,
        Endpoint::Socket.spec_path() == "/"@ + "ws"@,
{
    reveal_strlit("/");
    reveal_strlit("/query/");
    reveal_strlit("/control/");
    reveal_strlit("screen");
    reveal_strlit("cursor");
    reveal_strlit("status");
    reveal_strlit("scrollback");
    reveal_strlit("wait");
    reveal_strlit("send");
    reveal_strlit("resize");
    reveal_strlit("stop");
    reveal_strlit("ws");
    reveal_strlit("/query/screen");
    reveal_strlit("/query/cursor");
    reveal_strlit("/query/status");
    reveal_strlit("/query/scrollback");
    reveal_strlit("/wait");
    reveal_strlit("/control/send");
    reveal_strlit("/control/resize");
    reveal_strlit("/control/stop");
    reveal_strlit("/ws");
    assert("/query/screen"@ =~= "/query/"@ + "screen"@);
    assert("/query/cursor"@ =~= "/query/"@ + "cursor"@);
    assert("/query/status"@ =~= "/query/"@ + "status"@);
    assert("/query/scrollback"@ =~= "/query/"@ + "scrollback"@);
    assert("/wait"@ =~= "/"@ + "wait"@);
    assert("/control/send"@ =~= "/control/"@ + "send"@);
    assert("/control/resize"@ =~= "/control/"@ + "resize"@);
    assert("/control/stop"@ =~= "/control/"@ + "stop"@);
    assert("/ws"@ =~= "/"@ + "ws"@);
}

} // verus!
