//! How the server looks for clients.
//!
//! Trials to connect to clients at addresses that were entered by hand alternate with clients
//! that announce themselves on the local network.

use crate::clients::ClientTable;
use crate::error::{IntResult, InterruptibleError};
use crate::net::IpAddr;
use crate::packets::ClientListAction;
use crate::server::AddressBook;
use crate::session::{DiscoveryConfig, Switch};
use crate::table::Table;
use vstd::prelude::*;

verus! {

/// How long the server waits where nobody announced itself, in nanoseconds.
pub const RETRY_CONNECT_MIN_INTERVAL: u64 = 1_000_000_000;

/// A client of the client list, with the addresses that were entered for it.
#[derive(Debug, PartialEq)]
pub struct KnownClient {
    pub hostname: String,
    pub manual_ips: Vec<IpAddr>,
}

/// Where the search for clients stands.
#[derive(Debug, PartialEq)]
pub enum HandshakePhase {
    /// Opening the socket on which clients are heard.
    Opening,
    /// At the top of the loop.
    Start,
    /// Trying the addresses that were entered by hand.
    ManualTrial,
    /// Listening for a client that announces itself.
    Listening { auto_trust: bool },
    /// A client announced itself and was entered in the client list.
    Announced { hostname: String, ip: IpAddr },
    /// Trying to connect to the client that announced itself.
    Trial,
    /// Over.
    Stopped,
}

/// What the search for clients learns.
#[derive(Debug, PartialEq)]
pub enum HandshakeEvent {
    /// Whether the socket on which clients are heard could be opened, or why not.
    Opened(Result<(), String>),
    /// Whether the program is to go on, and the client list.
    Tick { alive: bool, known: Vec<KnownClient> },
    /// Whether a client was reached at an address that was entered by hand, and how clients are
    /// discovered otherwise.
    ManualTrialEnded { connected: bool, discovery: Switch<DiscoveryConfig> },
    /// A client announced itself.
    Announcement { hostname: String, ip: IpAddr },
    /// Nobody announced itself.
    Silence,
    /// Whether the client list trusts the client, if it is in the list.
    Lookup { trusted: Option<bool> },
    /// The trial to connect to the client that announced itself is over.
    TrialEnded,
}

/// What the search for clients does next.
#[derive(Debug)]
pub enum HandshakeAction {
    /// Try to connect to one of these clients.
    Connect(AddressBook),
    /// Listen for a client that announces itself, without waiting.
    Listen,
    /// Change the entry of the client in the client list, in this order, and look it up.
    EnterClient { hostname: String, changes: Vec<ClientListAction> },
    /// Wait for this many nanoseconds, and go on at the top of the loop.
    Pause(u64),
    /// Go on at the top of the loop.
    Again,
    /// End with this result.
    End(IntResult<()>),
}

/// What is done about the entry of a client that announced itself: it is made if it is missing,
/// and then trusted where clients are trusted on sight.
pub open spec fn entry_changes(auto_trust: bool) -> Seq<ClientListAction> {
    if auto_trust {
        seq![ClientListAction::AddIfMissing, ClientListAction::Trust]
    } else {
        seq![ClientListAction::AddIfMissing]
    }
}

fn enter_client(auto_trust: bool) -> (res: Vec<ClientListAction>)
    ensures
        res@ == entry_changes(auto_trust),
{
    let mut changes: Vec<ClientListAction> = Vec::new();
    changes.push(ClientListAction::AddIfMissing);
    if auto_trust {
        changes.push(ClientListAction::Trust);
    }
    changes
}

/// Whether the client at place `i` of the list can be reached at an address.
pub open spec fn lists(known: Seq<KnownClient>, i: int, ip: IpAddr) -> bool {
    0 <= i < known.len() && known[i].manual_ips@.contains(ip)
}

/// Whether the client at place `i` is the last one in the list that can be reached at an address.
pub open spec fn lists_last(known: Seq<KnownClient>, i: int, ip: IpAddr) -> bool {
    lists(known, i, ip) && forall|j: int| i < j ==> !lists(known, j, ip)
}

/// Whether `book` has the addresses of the client list, each with the last client listed there.
pub open spec fn is_manual_book(
    known: Seq<KnownClient>,
    book: Map<IpAddr, String>,
) -> bool {
    &&& forall|ip: IpAddr| #[trigger]
        book.contains_key(ip) ==> exists|i: int| lists_last(known, i, ip)
    &&& forall|ip: IpAddr, i: int| #[trigger]
        lists_last(known, i, ip) ==> book.contains_key(ip) && book[ip] == known[i].hostname
}

/// The addresses that were entered by hand, with the hostnames they were entered for. Of several
/// clients at one address the last one counts.
pub fn manual_client_ips(known: &Vec<KnownClient>) -> (res: AddressBook)
    ensures
        res.wf(),
        is_manual_book(known@, res@),
{
    let mut book: AddressBook = Table::new();
    let mut n: usize = 0;
    while n < known.len()
        invariant
            n <= known.len(),
            book.wf(),
            is_manual_book(known@.take(n as int), book@),
        decreases known.len() - n,
    {
        let ghost base = book@;
        let ghost ips = known[n as int].manual_ips@;
        let mut m: usize = 0;
        while m < known[n].manual_ips.len()
            invariant
                n < known.len(),
                ips == known[n as int].manual_ips@,
                m <= ips.len(),
                book.wf(),
                forall|ip: IpAddr| #[trigger]
                    book@.contains_key(ip) == (base.contains_key(ip) || ips.take(
                        m as int,
                    ).contains(ip)),
                forall|ip: IpAddr| #[trigger]
                    book@.contains_key(ip) ==> book@[ip] == if ips.take(m as int).contains(ip) {
                        known[n as int].hostname
                    } else {
                        base[ip]
                    },
            decreases ips.len() - m,
        {
            let ip = known[n].manual_ips[m];
            let hostname = known[n].hostname.clone();
            book.insert(ip, hostname);
            proof {
                let before = ips.take(m as int);
                let now = ips.take(m + 1);
                assert(now =~= before.push(ip));
                assert forall|other: IpAddr| #[trigger]
                    now.contains(other) == (before.contains(other) || other == ip) by {
                    if before.contains(other) {
                        let k = choose|k: int| 0 <= k < before.len() && before[k] == other;
                        assert(now[k] == other);
                    }
                    assert(now[m as int] == ip);
                    if now.contains(other) && other != ip {
                        let k = choose|k: int| 0 <= k < now.len() && now[k] == other;
                        assert(before[k] == other);
                    }
                }
            }
            m = m + 1;
        }
        proof {
            assert(ips.take(m as int) =~= ips);
            lemma_manual_book_grows(known@, n as int, base, book@);
        }
        n = n + 1;
    }
    assert(known@.take(n as int) =~= known@);
    book
}

proof fn lemma_manual_book_grows(
    known: Seq<KnownClient>,
    n: int,
    base: Map<IpAddr, String>,
    book: Map<IpAddr, String>,
)
    requires
        0 <= n < known.len(),
        is_manual_book(known.take(n), base),
        forall|ip: IpAddr| #[trigger]
            book.contains_key(ip) == (base.contains_key(ip) || known[n].manual_ips@.contains(ip)),
        forall|ip: IpAddr| #[trigger]
            book.contains_key(ip) ==> book[ip] == if known[n].manual_ips@.contains(ip) {
                known[n].hostname
            } else {
                base[ip]
            },
    ensures
        is_manual_book(known.take(n + 1), book),
{
    let old_list = known.take(n);
    let new_list = known.take(n + 1);
    assert forall|i: int, ip: IpAddr| i < n implies #[trigger] lists(new_list, i, ip) == lists(
        old_list,
        i,
        ip,
    ) by {
        if 0 <= i {
            assert(new_list[i] == old_list[i]);
        }
    }
    assert forall|ip: IpAddr| #[trigger] book.contains_key(ip) implies exists|i: int|
        lists_last(new_list, i, ip) by {
        if known[n].manual_ips@.contains(ip) {
            assert(new_list[n] == known[n]);
            assert(lists_last(new_list, n, ip));
        } else {
            let i = choose|i: int| lists_last(old_list, i, ip);
            assert forall|j: int| i < j implies !lists(new_list, j, ip) by {
                if j < n {
                    assert(!lists(old_list, j, ip));
                } else if j == n {
                    assert(new_list[n] == known[n]);
                }
            }
            assert(lists(new_list, i, ip));
            assert(lists_last(new_list, i, ip));
        }
    }
    assert forall|ip: IpAddr, i: int| #[trigger] lists_last(new_list, i, ip) implies
        book.contains_key(ip) && book[ip] == new_list[i].hostname by {
        assert(new_list[n] == known[n]);
        if i != n {
            assert(!lists(new_list, n, ip));
            assert(lists(old_list, i, ip));
            assert forall|j: int| i < j implies !lists(old_list, j, ip) by {
                if j < n {
                    assert(!lists(new_list, j, ip));
                }
            }
            assert(lists_last(old_list, i, ip));
            assert(base.contains_key(ip));
            assert(new_list[i] == old_list[i]);
        }
        assert(book.contains_key(ip));
    }
}

/// Whether an event can be the answer to what is being done.
pub open spec fn answers(phase: HandshakePhase, event: HandshakeEvent) -> bool {
    match phase {
        HandshakePhase::Opening => event is Opened,
        HandshakePhase::Start => event is Tick,
        HandshakePhase::ManualTrial => event is ManualTrialEnded,
        HandshakePhase::Listening { .. } => event is Announcement || event is Silence,
        HandshakePhase::Announced { .. } => event is Lookup,
        HandshakePhase::Trial => event is TrialEnded,
        HandshakePhase::Stopped => false,
    }
}

/// How the search for clients goes on. `connected` has the hostnames of the connected clients.
pub open spec fn goes_on(
    phase: HandshakePhase,
    event: HandshakeEvent,
    connected: Set<Seq<char>>,
    next: HandshakePhase,
    action: HandshakeAction,
) -> bool {
    match (phase, event) {
        (HandshakePhase::Opening, HandshakeEvent::Opened(Ok(_))) => next == HandshakePhase::Start
            && action == HandshakeAction::Again,
        (HandshakePhase::Opening, HandshakeEvent::Opened(Err(cause))) => next
            == HandshakePhase::Stopped && action == HandshakeAction::End(
            Err(InterruptibleError::Other(cause)),
        ),
        (HandshakePhase::Start, HandshakeEvent::Tick { alive, known }) => if alive {
            &&& next == HandshakePhase::ManualTrial
            &&& action matches HandshakeAction::Connect(book) && book.wf() && is_manual_book(
                known@,
                book@,
            )
        } else {
            next == HandshakePhase::Stopped && action == HandshakeAction::End(
                Err(InterruptibleError::Interrupted),
            )
        },
        (
            HandshakePhase::ManualTrial,
            HandshakeEvent::ManualTrialEnded { connected: true, .. },
        ) => next == HandshakePhase::Start && action == HandshakeAction::Again,
        (
            HandshakePhase::ManualTrial,
            HandshakeEvent::ManualTrialEnded { discovery: Switch::Disabled, .. },
        ) => next == HandshakePhase::Start && action == HandshakeAction::Again,
        (
            HandshakePhase::ManualTrial,
            HandshakeEvent::ManualTrialEnded { discovery: Switch::Enabled(config), .. },
        ) => next == (HandshakePhase::Listening { auto_trust: config.auto_trust_clients }) && action
            == HandshakeAction::Listen,
        (HandshakePhase::Listening { .. }, HandshakeEvent::Silence) => next
            == HandshakePhase::Start && action == HandshakeAction::Pause(
            RETRY_CONNECT_MIN_INTERVAL,
        ),
        (
            HandshakePhase::Listening { auto_trust },
            HandshakeEvent::Announcement { hostname, ip },
        ) => {
            &&& next == (HandshakePhase::Announced { hostname, ip })
            &&& action matches HandshakeAction::EnterClient { hostname: entered, changes }
                && entered == hostname && changes@ == entry_changes(auto_trust)
        },
        (
            HandshakePhase::Announced { hostname, ip },
            HandshakeEvent::Lookup { trusted },
        ) => if trusted == Some(true) && !connected.contains(hostname@) {
            &&& next == HandshakePhase::Trial
            &&& action matches HandshakeAction::Connect(book) && book.wf() && book@ == Map::<
                IpAddr,
                String,
            >::empty().insert(ip, hostname)
        } else {
            next == HandshakePhase::Start && action == HandshakeAction::Again
        },
        (HandshakePhase::Trial, HandshakeEvent::TrialEnded) => next == HandshakePhase::Start
            && action == HandshakeAction::Again,
        _ => false,
    }
}

/// Goes on with the search for clients after an event.
pub fn handshake_loop(
    phase: HandshakePhase,
    event: HandshakeEvent,
    clients: &ClientTable,
) -> (res: (HandshakePhase, HandshakeAction))
    requires
        answers(phase, event),
    ensures
        goes_on(phase, event, clients@.dom(), res.0, res.1),
{
    match phase {
        HandshakePhase::Opening => match event {
            HandshakeEvent::Opened(Ok(_)) => (HandshakePhase::Start, HandshakeAction::Again),
            HandshakeEvent::Opened(Err(cause)) => (
                HandshakePhase::Stopped,
                HandshakeAction::End(Err(InterruptibleError::Other(cause))),
            ),
            _ => unreached(),
        },
        HandshakePhase::Start => match event {
            HandshakeEvent::Tick { alive, known } => {
                if alive {
                    (
                        HandshakePhase::ManualTrial,
                        HandshakeAction::Connect(manual_client_ips(&known)),
                    )
                } else {
                    (
                        HandshakePhase::Stopped,
                        HandshakeAction::End(Err(InterruptibleError::Interrupted)),
                    )
                }
            },
            _ => unreached(),
        },
        HandshakePhase::ManualTrial => match event {
            HandshakeEvent::ManualTrialEnded { connected, discovery } => {
                if connected {
                    // Clients at addresses that were entered by hand follow each other quickly.
                    (HandshakePhase::Start, HandshakeAction::Again)
                } else {
                    match discovery {
                        Switch::Enabled(config) => (
                            HandshakePhase::Listening { auto_trust: config.auto_trust_clients },
                            HandshakeAction::Listen,
                        ),
                        Switch::Disabled => (HandshakePhase::Start, HandshakeAction::Again),
                    }
                }
            },
            _ => unreached(),
        },
        HandshakePhase::Listening { auto_trust } => match event {
            HandshakeEvent::Announcement { hostname, ip } => (
                HandshakePhase::Announced { hostname: hostname.clone(), ip },
                HandshakeAction::EnterClient { hostname, changes: enter_client(auto_trust) },
            ),
            HandshakeEvent::Silence => (
                HandshakePhase::Start,
                HandshakeAction::Pause(RETRY_CONNECT_MIN_INTERVAL),
            ),
            _ => unreached(),
        },
        HandshakePhase::Announced { hostname, ip } => match event {
            HandshakeEvent::Lookup { trusted } => {
                let is_trusted = match trusted {
                    Some(value) => value,
                    None => false,
                };
                if is_trusted && !clients.contains(&hostname) {
                    let mut book: AddressBook = Table::new();
                    book.insert(ip, hostname);
                    (HandshakePhase::Trial, HandshakeAction::Connect(book))
                } else {
                    (HandshakePhase::Start, HandshakeAction::Again)
                }
            },
            _ => unreached(),
        },
        HandshakePhase::Trial => (HandshakePhase::Start, HandshakeAction::Again),
        HandshakePhase::Stopped => unreached(),
    }
}

/// A client that announced itself is connected to only if it is trusted and not connected
/// already.
pub proof fn law_connects_to_trusted_strangers_only(
    hostname: String,
    ip: IpAddr,
    event: HandshakeEvent,
    connected: Set<Seq<char>>,
    next: HandshakePhase,
    action: HandshakeAction,
)
    requires
        goes_on(HandshakePhase::Announced { hostname, ip }, event, connected, next, action),
        action is Connect,
    ensures
        event == (HandshakeEvent::Lookup { trusted: Some(true) }),
        !connected.contains(hostname@),
{
}

/// A client that was connected to is not connected to again when it announces itself, as long as
/// its connection lasts.
pub proof fn law_connected_client_is_left_alone(
    state: crate::server::ServerView,
    sse_socket: u64,
    hostname: String,
    ip: IpAddr,
    event: HandshakeEvent,
    next: HandshakePhase,
    action: HandshakeAction,
)
    requires
        goes_on(
            HandshakePhase::Announced { hostname, ip },
            event,
            state.after(
                crate::server::ServerEvent::Connected { hostname: hostname@, sse_socket },
            ).clients.dom(),
            next,
            action,
        ),
    ensures
        next == HandshakePhase::Start,
        action == HandshakeAction::Again,
{
}

/// Listening alternates with trials of the addresses that were entered by hand: the server
/// listens only after such a trial reached nobody.
pub proof fn law_listening_follows_a_failed_manual_trial(
    phase: HandshakePhase,
    event: HandshakeEvent,
    connected: Set<Seq<char>>,
    next: HandshakePhase,
    action: HandshakeAction,
)
    requires
        goes_on(phase, event, connected, next, action),
        action is Listen,
    ensures
        phase is ManualTrial,
        event matches HandshakeEvent::ManualTrialEnded { connected: false, .. },
{
}

/// The server waits only where nobody announced itself. In particular clients at addresses that
/// were entered by hand are connected to in rapid succession.
pub proof fn law_only_silence_makes_the_server_wait(
    phase: HandshakePhase,
    event: HandshakeEvent,
    connected: Set<Seq<char>>,
    next: HandshakePhase,
    action: HandshakeAction,
)
    requires
        goes_on(phase, event, connected, next, action),
    ensures
        action is Pause <==> event is Silence,
{
}

/// A client that announced itself is looked up only after it was entered in the client list, and
/// it is trusted at that, after its entry was made, only where clients are trusted on sight.
pub proof fn law_announced_client_is_entered(
    phase: HandshakePhase,
    event: HandshakeEvent,
    connected: Set<Seq<char>>,
    next: HandshakePhase,
    action: HandshakeAction,
)
    requires
        goes_on(phase, event, connected, next, action),
        next is Announced,
    ensures
        phase is Listening,
        action matches HandshakeAction::EnterClient { hostname, changes } && {
            &&& hostname == next->hostname
            &&& changes@[0] == ClientListAction::AddIfMissing
            &&& changes@.contains(ClientListAction::Trust) <==> phase->auto_trust
        },
{
    let changes = action->changes@;
    if phase->auto_trust {
        assert(changes[1] == ClientListAction::Trust);
    }
}

/// The search never ends in success. It ends by an error where the socket on which clients are
/// heard cannot be opened, and by an interruption where the top of the loop finds that the program
/// is not to go on. Nothing else ends it, failed connections and silence included, and nothing
/// follows its end.
pub proof fn law_search_never_ends_in_success(
    phase: HandshakePhase,
    event: HandshakeEvent,
    connected: Set<Seq<char>>,
    next: HandshakePhase,
    action: HandshakeAction,
)
    requires
        goes_on(phase, event, connected, next, action),
    ensures
        action is End <==> next is Stopped,
        action is End ==> {
            ||| phase is Opening && (event matches HandshakeEvent::Opened(Err(cause)) && action
                == HandshakeAction::End(Err(InterruptibleError::Other(cause))))
            ||| phase is Start && (event matches HandshakeEvent::Tick { alive: false, .. })
                && action == HandshakeAction::End(Err(InterruptibleError::Interrupted))
        },
        event is Opened ==> !(action is Connect),
        !(next is Opening),
        !(phase is Stopped),
{
}

/// How many events it takes at most until the search is back at the top of the loop, or over.
pub open spec fn distance_to_start(phase: HandshakePhase) -> int {
    match phase {
        HandshakePhase::Start => 0,
        HandshakePhase::Opening => 1,
        HandshakePhase::Trial => 1,
        HandshakePhase::Announced { .. } => 2,
        HandshakePhase::Listening { .. } => 3,
        HandshakePhase::ManualTrial => 4,
        HandshakePhase::Stopped => 0,
    }
}

/// The search comes back to the top of the loop, where it is asked whether to go on, after at
/// most four events.
pub proof fn law_search_comes_back_to_the_top(
    phase: HandshakePhase,
    event: HandshakeEvent,
    connected: Set<Seq<char>>,
    next: HandshakePhase,
    action: HandshakeAction,
)
    requires
        goes_on(phase, event, connected, next, action),
        !(phase is Start),
    ensures
        0 <= distance_to_start(next) < distance_to_start(phase) <= 4,
{
}

/// The addresses that were entered by hand: an address is tried exactly where some client lists it,
/// and for a client that lists it, the one after which no other client does.
pub proof fn law_manual_addresses_are_those_of_the_list(
    clients: Vec<KnownClient>,
    res: AddressBook,
    known: Seq<KnownClient>,
    book: Map<IpAddr, String>,
    ip: IpAddr,
)
    requires
        call_ensures(manual_client_ips, (&clients,), res),
        known == clients@,
        book == res@,
    ensures
        book.contains_key(ip) <==> exists|i: int|
            0 <= i < known.len() && (#[trigger] known[i]).manual_ips@.contains(ip),
        book.contains_key(ip) ==> exists|i: int|
            0 <= i < known.len() && (#[trigger] known[i]).manual_ips@.contains(ip) && book[ip]
                == known[i].hostname && forall|j: int|
                i < j < known.len() ==> !(#[trigger] known[j]).manual_ips@.contains(ip),
{
    if book.contains_key(ip) {
        let i = choose|i: int| lists_last(known, i, ip);
        assert(lists_last(known, i, ip));
        assert(known[i].manual_ips@.contains(ip));
        assert forall|j: int| i < j < known.len() implies !(#[trigger]
        known[j]).manual_ips@.contains(ip) by {
            assert(!lists(known, j, ip));
        }
    }
    if exists|i: int| 0 <= i < known.len() && (#[trigger] known[i]).manual_ips@.contains(ip) {
        let i = choose|i: int|
            0 <= i < known.len() && (#[trigger] known[i]).manual_ips@.contains(ip);
        lemma_last_lister(known, i, ip);
    }
}

proof fn lemma_last_lister(known: Seq<KnownClient>, i: int, ip: IpAddr)
    requires
        lists(known, i, ip),
    ensures
        exists|k: int| #[trigger] lists_last(known, k, ip),
    decreases known.len() - i,
{
    if exists|j: int| i < j && #[trigger] lists(known, j, ip) {
        let j = choose|j: int| i < j && #[trigger] lists(known, j, ip);
        lemma_last_lister(known, j, ip);
    } else {
        assert(lists_last(known, i, ip));
    }
}

/// A client that announced itself is connected to at the address from which it was heard, under the
/// name that it gave, and nobody else is. It is connected to exactly where it is trusted and not
/// connected yet.
pub proof fn law_announced_client_is_met_where_it_was_heard(
    hostname: String,
    ip: IpAddr,
    trusted: Option<bool>,
    clients: ClientTable,
    next: HandshakePhase,
    action: HandshakeAction,
    other: IpAddr,
)
    requires
        call_ensures(
            handshake_loop,
            (
                HandshakePhase::Announced { hostname, ip },
                HandshakeEvent::Lookup { trusted },
                &clients,
            ),
            (next, action),
        ),
    ensures
        action is Connect <==> trusted == Some(true) && !clients@.contains_key(hostname@),
        action matches HandshakeAction::Connect(book) ==> {
            &&& next is Trial
            &&& book@.contains_key(other) <==> other == ip
            &&& book@[ip]@ == hostname@
        },
        !(action is Connect) ==> action is Again && next is Start,
{
}

/// What is announced is remembered as it was announced, by the very client and from the very
/// address.
pub proof fn law_announcements_are_remembered(
    auto_trust: bool,
    hostname: String,
    ip: IpAddr,
    clients: ClientTable,
    next: HandshakePhase,
    action: HandshakeAction,
)
    requires
        call_ensures(
            handshake_loop,
            (
                HandshakePhase::Listening { auto_trust },
                HandshakeEvent::Announcement { hostname, ip },
                &clients,
            ),
            (next, action),
        ),
    ensures
        next matches HandshakePhase::Announced { hostname: name, ip: at } && name@ == hostname@ && at
            == ip,
        action matches HandshakeAction::EnterClient { hostname: name, changes } && {
            &&& name@ == hostname@
            &&& changes@.len() == if auto_trust {
                2int
            } else {
                1
            }
            &&& changes@[0] is AddIfMissing
            &&& auto_trust ==> changes@[1] is Trust
        },
{
}

/// A round tries the addresses that were entered by hand. Where one of them was reached, the next
/// round follows at once. Where none was, clients are listened for exactly where they are to be
/// discovered, and they are trusted on sight exactly where that is set. Silence is followed by a
/// pause of one second, and every trial by the next round.
pub proof fn law_rounds_of_the_search(
    phase: HandshakePhase,
    event: HandshakeEvent,
    clients: ClientTable,
    next: HandshakePhase,
    action: HandshakeAction,
)
    requires
        call_ensures(handshake_loop, (phase, event, &clients), (next, action)),
    ensures
        event matches HandshakeEvent::Tick { alive, known } ==> {
            &&& alive <==> next is ManualTrial
            &&& alive <==> action is Connect
            &&& action matches HandshakeAction::Connect(book) ==> is_manual_book(known@, book@)
        },
        event matches HandshakeEvent::ManualTrialEnded { connected: reached, discovery } ==> {
            &&& reached || discovery is Disabled <==> next is Start && action is Again
            &&& !reached && discovery is Enabled <==> next is Listening && action is Listen
            &&& next matches HandshakePhase::Listening { auto_trust } ==> (discovery
                matches Switch::Enabled(config) && auto_trust == config.auto_trust_clients)
        },
        event is Silence ==> next is Start && action == HandshakeAction::Pause(1_000_000_000),
        event is TrialEnded ==> next is Start && action is Again,
        event matches HandshakeEvent::Opened(Ok(_)) ==> next is Start && action is Again,
{
}

} // verus!
