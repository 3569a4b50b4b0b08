//! How the server is set up from its environment, and what it makes of a connecting browser.

use vstd::prelude::*;
use vstd::string::*;

verus! {

/// The port on which clients connect.
pub const WS_PORT: u16 = 3001;

/// The ports that media workers may use.
pub const WORKER_MIN_PORT: u16 = 40000;

pub const WORKER_MAX_PORT: u16 = 40100;

/// The port of the first media worker's server; the others follow.
pub const SERVER_PORT: u16 = 44444;

/// How many messages a peer's or a room's channel holds.
pub const CHANNEL_CAPACITY: usize = 1024;

/// What the environment decides.
#[derive(Debug, PartialEq, Eq)]
pub struct Settings {
    pub use_tls: bool,
    /// The address that the outside world sees.
    pub announced_ip: String,
    /// The address to listen on.
    pub local_ip: String,
}

/// A text, or the local host's address in its place.
pub open spec fn or_localhost(text: Option<String>) -> Seq<char> {
    match text {
        Some(text) => text@,
        None => "127.0.0.1"@,
    }
}

fn ip_or_localhost(text: Option<String>) -> (r: String)
    ensures
        r@ == or_localhost(text),
{
    match text {
        Some(text) => text,
        None => String::from_str("127.0.0.1"),
    }
}

impl Settings {
    /// Reads the settings from the values of `USE_TLS`, `ANNOUNCED_IP` and `LOCAL_IP`, as far
    /// as they are set. TLS is for who says `true`.
    pub fn read(
        use_tls: Option<String>,
        announced_ip: Option<String>,
        local_ip: Option<String>,
    ) -> (r: Self)
        ensures
            r.use_tls == (use_tls matches Some(text) && text@ == "true"@),
            r.announced_ip@ == or_localhost(announced_ip),
            r.local_ip@ == or_localhost(local_ip),
    {
        let yes = String::from_str("true");
        let use_tls = match use_tls {
            Some(text) => text == yes,
            None => false,
        };
        Settings {
            use_tls,
            announced_ip: ip_or_localhost(announced_ip),
            local_ip: ip_or_localhost(local_ip),
        }
    }
}

/// What to call a browser in the log: its own word for itself, if it gives one.
pub fn user_agent(header: Option<String>) -> (r: String)
    ensures
        r@ == match header {
            Some(text) => text@,
            None => "Unknown browser"@,
        },
{
    match header {
        Some(text) => text,
        None => String::from_str("Unknown browser"),
    }
}

/// What the environment says is taken as it is said. Where it says nothing, both addresses are
/// the local host's and there is no TLS; and there is TLS for the word `true` alone.
pub proof fn law_the_environment_decides(
    use_tls: Option<String>,
    announced_ip: Option<String>,
    local_ip: Option<String>,
    r: Settings,
)
    requires
        call_ensures(Settings::read, (use_tls, announced_ip, local_ip), r),
    ensures
        announced_ip is Some ==> r.announced_ip@ == announced_ip->0@,
        announced_ip is None ==> r.announced_ip@
            == seq!['1', '2', '7', '.', '0', '.', '0', '.', '1'],
        local_ip is Some ==> r.local_ip@ == local_ip->0@,
        local_ip is None ==> r.local_ip@ == seq!['1', '2', '7', '.', '0', '.', '0', '.', '1'],
        r.use_tls <==> use_tls is Some && use_tls->0@ == seq!['t', 'r', 'u', 'e'],
{
    reveal_strlit("127.0.0.1");
    reveal_strlit("true");
    let host = seq!['1', '2', '7', '.', '0', '.', '0', '.', '1'];
    assert("127.0.0.1"@ =~= host);
    assert("true"@ =~= seq!['t', 'r', 'u', 'e']);
}

/// A browser that names itself is called by that name.
pub proof fn law_browsers_are_called_by_their_name(header: Option<String>, r: String)
    requires
        call_ensures(user_agent, (header,), r),
    ensures
        header is Some ==> r@ == header->0@,
        header is None ==> r@ == "Unknown browser"@,
{
}

} // verus!
