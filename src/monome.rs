use vstd::prelude::*;
use vstd::string::StringExecFns;
use crate::actions::{MonomeAction, MonomeEvent};
use crate::osc::{decode_packet, encode_message, osc_decoding, osc_encoding, Arg, CodecError, Message, Packet};

verus! {

/// Routes under this prefix are the device's system messages.
pub const SYS_PREFIX: &'static str = "/sys/";

/// The route of key events, below the client's prefix.
pub const KEY_ROUTE: &'static str = "/grid/key";

/// The broker's route for a device enumeration request.
pub const LIST_ROUTE: &'static str = "/serialosc/list";

/// The broker's route for a device announcement.
pub const DEVICE_ROUTE: &'static str = "/serialosc/device";

/// System route that registers the host's listen port.
pub const PORT_ROUTE: &'static str = "/sys/port";

/// System route that registers the host's address.
pub const HOST_ROUTE: &'static str = "/sys/host";

/// System route that registers the client's route prefix.
pub const PREFIX_ROUTE: &'static str = "/sys/prefix";

/// System route that asks the device for its information.
pub const INFO_ROUTE: &'static str = "/sys/info";

/// The broker's well-known port on the loopback interface.
pub const BROKER_PORT: u16 = 12002;

/// How long discovery waits for the broker's answer.
pub const DISCOVERY_TIMEOUT_MS: u64 = 3000;

/// How long discovery sleeps between two reads.
pub const DISCOVERY_POLL_MS: u64 = 10;

/// Failures of the device protocol.
#[derive(Debug)]
pub enum MonomeError {
    /// A datagram could not be encoded or decoded.
    Codec(CodecError),
    /// The broker did not answer before the deadline.
    DiscoveryTimeout,
    /// The broker's answer was not a device announcement with a port.
    MalformedDiscoveryResponse,
}

/// Whether the string `s` begins with `p`.
pub fn starts_with(s: &str, p: &str) -> (r: bool)
    ensures
        r == p@.is_prefix_of(s@),
{
    let n = s.unicode_len();
    let k = p.unicode_len();
    if k > n {
        return false;
    }
    let mut i: usize = 0;
    while i < k
        invariant
            k <= n,
            n == s@.len(),
            k == p@.len(),
            i <= k,
            forall|j: int| 0 <= j < i ==> s@[j] == p@[j],
        decreases k - i,
    {
        if s.get_char(i) != p.get_char(i) {
            return false;
        }
        i = i + 1;
    }
    proof {
        assert(p@ =~= s@.subrange(0, k as int));
    }
    true
}

/// The key event that a message with these arguments reports: three
/// integers x, y and state, a nonzero state meaning pressed.
pub open spec fn key_event(args: Seq<Arg>) -> Option<MonomeEvent> {
    if args.len() == 3 {
        match (args[0], args[1], args[2]) {
            (Arg::Int(x), Arg::Int(y), Arg::Int(s)) => Some(MonomeEvent::Key(x as u8, y as u8, s != 0)),
            _ => None,
        }
    } else {
        None
    }
}

/// The event that a message at `addr` reports to a client with route
/// prefix `prefix`. System messages and messages under another prefix
/// report none.
pub open spec fn message_event(addr: Seq<char>, args: Seq<Arg>, prefix: Seq<char>) -> Option<
    MonomeEvent,
> {
    if SYS_PREFIX@.is_prefix_of(addr) {
        None
    } else if prefix.is_prefix_of(addr) && (prefix + KEY_ROUTE@).is_prefix_of(addr) {
        key_event(args)
    } else {
        None
    }
}

/// The event that a decoded packet reports; bundles report none.
pub open spec fn packet_event(p: Packet, prefix: Seq<char>) -> Option<MonomeEvent> {
    match p {
        Packet::Message(m) => message_event(m.addr@, m.args@, prefix),
        Packet::Bundle(_) => None,
    }
}

/// The event carried by a message under the client's prefix, if it is a
/// key event with three integer arguments.
pub fn parse_prefixed(message: &Message, prefix: &str) -> (r: Option<MonomeEvent>)
    ensures
        r == (if (prefix@ + KEY_ROUTE@).is_prefix_of(message.addr@) {
            key_event(message.args@)
        } else {
            None
        }),
{
    let mut route = String::from_str(prefix);
    route.append(KEY_ROUTE);
    if starts_with(message.addr.as_str(), route.as_str()) && message.args.len() == 3 {
        match (&message.args[0], &message.args[1], &message.args[2]) {
            (Arg::Int(x), Arg::Int(y), Arg::Int(s)) => {
                return Some(MonomeEvent::Key(*x as u8, *y as u8, *s != 0));
            },
            _ => {},
        }
    }
    None
}

/// The event that a packet received by a client with route prefix
/// `prefix` reports, if any.
pub fn parse(packet: &Packet, prefix: &str) -> (r: Option<MonomeEvent>)
    ensures
        r == packet_event(*packet, prefix@),
{
    match packet {
        Packet::Message(message) => {
            if starts_with(message.addr.as_str(), SYS_PREFIX) {
                None
            } else if starts_with(message.addr.as_str(), prefix) {
                parse_prefixed(message, prefix)
            } else {
                None
            }
        },
        Packet::Bundle(_) => None,
    }
}

/// Decodes one received datagram and reads the event it reports.
pub fn event_from_datagram(bytes: &[u8], prefix: &str) -> (r: Result<
    Option<MonomeEvent>,
    MonomeError,
>)
    ensures
        match osc_decoding(bytes@) {
            Some(p) => r == Ok::<Option<MonomeEvent>, MonomeError>(packet_event(p, prefix@)),
            None => r matches Err(MonomeError::Codec(CodecError::Decoding(_))),
        },
{
    match decode_packet(bytes) {
        Ok(p) => Ok(parse(&p, prefix)),
        Err(e) => Err(MonomeError::Codec(e)),
    }
}

/// What one poll yields, given the datagram that was waiting, if any: no
/// datagram yields no event and no error, however often it is asked.
pub fn event_from_poll(datagram: Option<Vec<u8>>, prefix: &str) -> (r: Result<
    Option<MonomeEvent>,
    MonomeError,
>)
    ensures
        datagram is None ==> r == Ok::<Option<MonomeEvent>, MonomeError>(None),
        datagram matches Some(bytes) ==> match osc_decoding(bytes@) {
            Some(p) => r == Ok::<Option<MonomeEvent>, MonomeError>(packet_event(p, prefix@)),
            None => r matches Err(MonomeError::Codec(CodecError::Decoding(_))),
        },
{
    match datagram {
        Some(bytes) => event_from_datagram(bytes.as_slice(), prefix),
        None => Ok(None),
    }
}

/// A message with the given route and arguments.
pub fn message(addr: &str, args: Vec<Arg>) -> (r: Message)
    ensures
        r.addr@ == addr@,
        r.args == args,
{
    Message { addr: String::from_str(addr), args }
}

/// Whether `a` is a string argument that holds `s`.
pub open spec fn is_str_arg(a: Arg, s: Seq<char>) -> bool {
    a matches Arg::Str(v) && v@ == s
}

/// The request that asks the broker to announce devices to `host:port`.
pub fn discovery_request(host: &str, port: i32) -> (r: Message)
    ensures
        r.addr@ == LIST_ROUTE@,
        r.args@.len() == 2,
        is_str_arg(r.args@[0], host@),
        r.args@[1] == Arg::Int(port),
{
    message(LIST_ROUTE, vec![Arg::Str(String::from_str(host)), Arg::Int(port)])
}

/// The device port that a broker's answer announces: a message at the
/// device route with exactly three arguments, the third an integer that
/// is a valid port.
pub open spec fn announced_port(p: Packet) -> Option<u16> {
    match p {
        Packet::Message(m) => if m.addr@ == DEVICE_ROUTE@ && m.args@.len() == 3 {
            match m.args@[2] {
                Arg::Int(port) => if 0 <= port <= u16::MAX {
                    Some(port as u16)
                } else {
                    None
                },
                _ => None,
            }
        } else {
            None
        },
        Packet::Bundle(_) => None,
    }
}

/// A broker's answer at the device route with three arguments, the third
/// the integer port `port`, announces that port; whatever the first two
/// arguments are.
pub proof fn lemma_announced_port(m: Message, port: i32)
    requires
        m.addr@ == DEVICE_ROUTE@,
        m.args@.len() == 3,
        m.args@[2] == Arg::Int(port),
        0 <= port <= u16::MAX,
    ensures
        announced_port(Packet::Message(m)) == Some(port as u16),
{
}

/// Reads the device port from the broker's answer.
pub fn device_port_from_response(p: &Packet) -> (r: Result<u16, MonomeError>)
    ensures
        match announced_port(*p) {
            Some(port) => r == Ok::<u16, MonomeError>(port),
            None => r matches Err(MonomeError::MalformedDiscoveryResponse),
        },
{
    match p {
        Packet::Message(m) => {
            let route = String::from_str(DEVICE_ROUTE);
            if m.addr == route && m.args.len() == 3 {
                match &m.args[2] {
                    Arg::Int(port) => {
                        if 0 <= *port && *port <= 65535 {
                            return Ok(*port as u16);
                        }
                    },
                    _ => {},
                }
            }
            Err(MonomeError::MalformedDiscoveryResponse)
        },
        Packet::Bundle(_) => Err(MonomeError::MalformedDiscoveryResponse),
    }
}

/// One step of waiting for the broker: a packet read ends the wait;
/// without one, the wait fails once more than `timeout_ms` have elapsed
/// and otherwise goes on (`Ok(None)`: sleep, then read again).
pub fn discovery_wait_step(received: Option<Packet>, elapsed_ms: u64, timeout_ms: u64) -> (r: Result<
    Option<Packet>,
    MonomeError,
>)
    ensures
        match received {
            Some(p) => r == Ok::<Option<Packet>, MonomeError>(Some(p)),
            None => if elapsed_ms > timeout_ms {
                r matches Err(MonomeError::DiscoveryTimeout)
            } else {
                r == Ok::<Option<Packet>, MonomeError>(None)
            },
        },
{
    match received {
        Some(p) => Ok(Some(p)),
        None => if elapsed_ms > timeout_ms {
            Err(MonomeError::DiscoveryTimeout)
        } else {
            Ok(None)
        },
    }
}

/// The three registration messages, in the order they are sent: the
/// host's listen port, the host's address, and the client's route prefix.
pub fn registration_messages(host: &str, port: i32, prefix: &str) -> (r: Vec<Message>)
    ensures
        r@.len() == 3,
        r@[0].addr@ == PORT_ROUTE@,
        r@[0].args@ == seq![Arg::Int(port)],
        r@[1].addr@ == HOST_ROUTE@,
        r@[1].args@.len() == 1,
        is_str_arg(r@[1].args@[0], host@),
        r@[2].addr@ == PREFIX_ROUTE@,
        r@[2].args@.len() == 1,
        is_str_arg(r@[2].args@[0], prefix@),
{
    let port_msg = message(PORT_ROUTE, vec![Arg::Int(port)]);
    let host_msg = message(HOST_ROUTE, vec![Arg::Str(String::from_str(host))]);
    let prefix_msg = message(PREFIX_ROUTE, vec![Arg::Str(String::from_str(prefix))]);
    vec![port_msg, host_msg, prefix_msg]
}

/// The request for the device's information, answered to `host:port`.
pub fn info_message(host: &str, port: i32) -> (r: Message)
    ensures
        r.addr@ == INFO_ROUTE@,
        r.args@.len() == 2,
        is_str_arg(r.args@[0], host@),
        r.args@[1] == Arg::Int(port),
{
    message(INFO_ROUTE, vec![Arg::Str(String::from_str(host)), Arg::Int(port)])
}

/// The datagram that sends `action` under the route prefix `prefix`.
pub fn action_datagram(action: &MonomeAction, prefix: &str) -> (r: Result<Vec<u8>, MonomeError>)
    ensures
        r is Ok,
        r matches Ok(b) ==> b@ == osc_encoding(prefix@ + action.route(), action.arguments()),
{
    let m = action.to_message(prefix);
    match encode_message(&m) {
        Ok(b) => Ok(b),
        Err(e) => Err(MonomeError::Codec(e)),
    }
}

/// A key message at `prefix` followed by the key route reports the key
/// at x, y: pressed for state 1, released for state 0. Arguments of
/// another number, or that are not all integers, report no event.
pub proof fn lemma_key_message_event(prefix: Seq<char>, x: i32, y: i32, args: Seq<Arg>)
    requires
        !SYS_PREFIX@.is_prefix_of(prefix + KEY_ROUTE@),
    ensures
        message_event(prefix + KEY_ROUTE@, seq![Arg::Int(x), Arg::Int(y), Arg::Int(1)], prefix)
            == Some(MonomeEvent::Key(x as u8, y as u8, true)),
        message_event(prefix + KEY_ROUTE@, seq![Arg::Int(x), Arg::Int(y), Arg::Int(0)], prefix)
            == Some(MonomeEvent::Key(x as u8, y as u8, false)),
        args.len() != 3 ==> message_event(prefix + KEY_ROUTE@, args, prefix) is None,
        (exists|i: int| 0 <= i < args.len() && args[i] !is Int) ==> message_event(
            prefix + KEY_ROUTE@,
            args,
            prefix,
        ) is None,
{
    let addr = prefix + KEY_ROUTE@;
    assert(addr.subrange(0, prefix.len() as int) =~= prefix);
    assert(addr.subrange(0, addr.len() as int) =~= addr);
    if exists|i: int| 0 <= i < args.len() && args[i] !is Int {
        let i = choose|i: int| 0 <= i < args.len() && args[i] !is Int;
        if args.len() == 3 {
            assert(i == 0 || i == 1 || i == 2);
        }
    }
}

/// A system message reports no event, whatever it holds.
pub proof fn lemma_system_message_no_event(addr: Seq<char>, args: Seq<Arg>, prefix: Seq<char>)
    requires
        SYS_PREFIX@.is_prefix_of(addr),
    ensures
        message_event(addr, args, prefix) is None,
{
}

/// A message under neither the system prefix nor the client's prefix
/// reports no event.
pub proof fn lemma_foreign_message_no_event(addr: Seq<char>, args: Seq<Arg>, prefix: Seq<char>)
    requires
        !SYS_PREFIX@.is_prefix_of(addr),
        !prefix.is_prefix_of(addr),
    ensures
        message_event(addr, args, prefix) is None,
{
}

} // verus!
