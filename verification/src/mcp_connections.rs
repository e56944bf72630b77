//! The connections of a session to its tool servers, and the tools that each
//! server lists.
use vstd::prelude::*;

use crate::json::{items_view, lemma_items_view, or_null, Json, JsonView};
use crate::protocol::{
    failure, response_failure, response_success, success, DaemonResponse, ResponseView,
};
use crate::text::{concat2, is_text, texts};

verus! {

/// How long one server may take to list its tools.
pub const MCP_TOOL_LISTING_TIMEOUT_MS: u64 = 8_000;

/// How long a listing waits for the session to be built.
pub const SESSION_BUILD_WAIT_MS: u64 = 12_000;

/// How often a session that is being built is looked at.
pub const SESSION_BUILD_POLL_MS: u64 = 200;

/// A configured connection: its server, whether it is connected, whether its
/// tools are listed by the kernel, and the object it is shown by.
#[derive(Debug, PartialEq, Eq)]
pub struct Connection {
    pub server: String,
    pub connected: bool,
    pub generic: bool,
    pub entry: Json,
}

/// The servers whose tools the kernel can list: the connected generic ones.
pub open spec fn listable_of(roster: Seq<Connection>) -> Seq<Seq<char>>
    decreases roster.len(),
{
    if roster.len() == 0 {
        Seq::empty()
    } else {
        let before = listable_of(roster.drop_last());
        let connection = roster.last();
        if connection.connected && connection.generic {
            before.push(connection.server@)
        } else {
            before
        }
    }
}

/// The servers whose tools the kernel can list.
pub fn listable_servers(roster: &Vec<Connection>) -> (r: Vec<String>)
    ensures
        texts(r@) == listable_of(roster@),
{
    let mut out: Vec<String> = Vec::new();
    let mut i: usize = 0;
    assert(texts(out@) =~= listable_of(roster@.take(0)));
    while i < roster.len()
        invariant
            i <= roster@.len(),
            texts(out@) == listable_of(roster@.take(i as int)),
        decreases roster@.len() - i,
    {
        assert(roster@.take(i + 1).drop_last() =~= roster@.take(i as int));
        if roster[i].connected && roster[i].generic {
            let ghost before = texts(out@);
            out.push(roster[i].server.clone());
            assert(texts(out@) =~= before.push(roster@[i as int].server@));
        }
        i = i + 1;
    }
    assert(roster@.take(i as int) =~= roster@);
    out
}

/// What a listing that waits for its session does next.
#[derive(Debug, Clone, Copy, PartialEq, Eq, Structural)]
pub enum SessionWait {
    /// The roster is answered alone.
    GiveUp,
    /// The session lists the tools.
    Use,
    /// Look again after the pause.
    Poll { ms: u64 },
}

/// One look at the session.
pub open spec fn wait_look(deadline_passed: bool, locked: bool, built: bool) -> SessionWait {
    if deadline_passed || !locked {
        SessionWait::GiveUp
    } else if built {
        SessionWait::Use
    } else {
        SessionWait::Poll { ms: SESSION_BUILD_POLL_MS }
    }
}

/// One look at the session: it is given up past the deadline and where it could
/// not be had in time, and used once it is built.
pub fn session_wait(deadline_passed: bool, locked: bool, built: bool) -> (r: SessionWait)
    ensures
        r == wait_look(deadline_passed, locked, built),
{
    if deadline_passed || !locked {
        SessionWait::GiveUp
    } else if built {
        SessionWait::Use
    } else {
        SessionWait::Poll { ms: SESSION_BUILD_POLL_MS }
    }
}

/// What a listing says of a server: the last item that names it.
pub open spec fn listed(listing: Seq<JsonView>, server: Seq<char>) -> Option<JsonView>
    decreases listing.len(),
{
    if listing.len() == 0 {
        None
    } else if listing.last().get_str("server"@) == Some(server) {
        Some(listing.last())
    } else {
        listed(listing.drop_last(), server)
    }
}

fn find_listed<'a>(listing: &'a Vec<Json>, server: &str) -> (r: Option<&'a Json>)
    ensures
        crate::json::opt_ref_view(r) == listed(items_view(listing@), server@),
{
    let ghost all = items_view(listing@);
    proof {
        lemma_items_view(listing@);
    }
    let mut n: usize = listing.len();
    assert(all.take(n as int) =~= all);
    while n > 0
        invariant
            n <= listing@.len(),
            all == items_view(listing@),
            all.len() == listing@.len(),
            forall|j: int| 0 <= j < listing@.len() ==> #[trigger] all[j] == listing@[j]@,
            listed(all, server@) == listed(all.take(n as int), server@),
        decreases n,
    {
        assert(all.take(n as int).drop_last() =~= all.take(n - 1));
        assert(all.take(n as int).last() == listing@[n - 1]@);
        if is_text(listing[n - 1].get_str("server"), server) {
            return Some(&listing[n - 1]);
        }
        n = n - 1;
    }
    None
}

/// A connection as it is shown: with its tools and its error where it was
/// listed, and null in their place where it was not.
pub open spec fn shown(connection: Connection, listing: Seq<JsonView>) -> JsonView {
    let (tools, error) = match listed(listing, connection.server@) {
        Some(item) => (or_null(item.get("tools"@)), or_null(item.get("error"@))),
        None => (JsonView::Null, JsonView::Null),
    };
    connection.entry@.put("tools"@, tools).put("error"@, error)
}

/// The connections as they are shown, in the order of the roster.
pub open spec fn connections_json(roster: Seq<Connection>, listing: Seq<JsonView>) -> JsonView {
    JsonView::object().field(
        "connections"@,
        JsonView::Array(Seq::new(roster.len(), |i: int| shown(roster[i], listing))),
    )
}

/// The connections as they are shown.
pub fn overlay_connections(roster: &Vec<Connection>, listing: &Vec<Json>) -> (r: Json)
    ensures
        r@ == connections_json(roster@, items_view(listing@)),
{
    let ghost all = Seq::new(roster@.len(), |i: int| shown(roster@[i], items_view(listing@)));
    let mut out: Vec<Json> = Vec::new();
    let mut i: usize = 0;
    assert(items_view(out@) =~= all.take(0));
    while i < roster.len()
        invariant
            i <= roster@.len(),
            all == Seq::new(roster@.len(), |i: int| shown(roster@[i], items_view(listing@))),
            items_view(out@) == all.take(i as int),
        decreases roster@.len() - i,
    {
        let (tools, error) = match find_listed(listing, roster[i].server.as_str()) {
            Some(item) => (item.get_or_null("tools"), item.get_or_null("error")),
            None => (Json::Null, Json::Null),
        };
        let value = roster[i].entry.duplicate().put("tools", tools).put("error", error);
        let ghost before = out@;
        out.push(value);
        assert(out@.drop_last() =~= before);
        i = i + 1;
        assert(items_view(out@) =~= all.take(i as int));
    }
    assert(all.take(i as int) =~= all);
    Json::object().field("connections", Json::array(out))
}

/// How the session's connections could be read.
#[derive(Debug, PartialEq, Eq)]
pub enum RosterRead {
    /// The session is not created yet: the refusal of the command.
    NotCreated(DaemonResponse),
    /// The session has no tool servers.
    NoManager,
    /// The roster could not be read.
    Failed(String),
    Read(Vec<Connection>),
}

/// The answer to a request for the connections.
pub open spec fn connections_answer(read: RosterRead, listing: Seq<JsonView>) -> ResponseView {
    match read {
        RosterRead::NotCreated(response) => response@,
        RosterRead::NoManager => failure(
            None,
            "get_mcp_connections"@,
            "MCP connections are not available in this session"@,
        ),
        RosterRead::Failed(error) => failure(
            None,
            "get_mcp_connections"@,
            "MCP roster read failed: "@ + error@,
        ),
        RosterRead::Read(roster) => success(
            None,
            "get_mcp_connections"@,
            Some(connections_json(roster@, listing)),
        ),
    }
}

/// The answer to a request for the connections. The listing is empty where no
/// server is listable or the session could not be had.
pub fn handle_get_mcp_connections(read: RosterRead, listing: &Vec<Json>) -> (r: DaemonResponse)
    ensures
        r@ == connections_answer(read, items_view(listing@)),
{
    match read {
        RosterRead::NotCreated(response) => response,
        RosterRead::NoManager => response_failure(
            None,
            "get_mcp_connections",
            "MCP connections are not available in this session",
            None,
        ),
        RosterRead::Failed(error) => response_failure(
            None,
            "get_mcp_connections",
            concat2("MCP roster read failed: ", error.as_str()).as_str(),
            None,
        ),
        RosterRead::Read(roster) => response_success(
            None,
            "get_mcp_connections",
            Some(overlay_connections(&roster, listing)),
        ),
    }
}

/// Without a listing every connection is still shown, in its place, with its
/// tools and its error null.
pub proof fn law_unlisted_connections_are_shown(roster: Seq<Connection>, i: int)
    requires
        0 <= i < roster.len(),
        roster[i].entry@ is Object,
    ensures
        shown(roster[i], Seq::empty()).get("tools"@) == Some(JsonView::Null),
        shown(roster[i], Seq::empty()).get("error"@) == Some(JsonView::Null),
        connections_json(roster, Seq::empty()).get("connections"@) matches Some(
            JsonView::Array(items),
        ) && items.len() == roster.len() && items[i] == shown(roster[i], Seq::empty()),
{
    reveal_strlit("tools");
    reveal_strlit("error");
    assert("tools"@[0] == 't');
    assert("error"@[0] == 'e');
    let members = roster[i].entry@->Object_0;
    crate::json::law_put_then_get(roster[i].entry@, "tools"@, JsonView::Null, "tools"@);
    crate::json::law_put_then_get(
        roster[i].entry@.put("tools"@, JsonView::Null),
        "error"@,
        JsonView::Null,
        "tools"@,
    );
    crate::json::law_put_then_get(
        roster[i].entry@.put("tools"@, JsonView::Null),
        "error"@,
        JsonView::Null,
        "error"@,
    );
    let items = Seq::new(roster.len(), |i: int| shown(roster[i], Seq::empty()));
    let answer = connections_json(roster, Seq::empty());
    assert(answer->Object_0 =~= seq![("connections"@, JsonView::Array(items))]);
}

} // verus!
