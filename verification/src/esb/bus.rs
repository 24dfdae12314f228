use crate::hex::{bytes_digits, bytes_to_hex};
use std::fmt::{Debug, Display};
use std::hash::Hash;
use vstd::prelude::*;
use vstd::std_specs::convert::FromSpecImpl;
use vstd::slice::{slice_subrange, slice_to_vec};
use vstd::string::{StringExecFns, StringSliceAdditionalSpecFns};
use vstd::utf8::{decode_utf8, encode_utf8, valid_utf8};

verus! {

/// Identifier of a service bus, chosen by the host application.
pub trait BusId: Copy + Eq + Hash + Debug + Display {
    /// Service address type used by this bus
    type Address: ServiceAddress;
}

/// Address of a service: a value that goes into every routed frame as a
/// byte string, and is read back from one.
pub trait ServiceAddress: Clone + Eq + Hash + Debug + Into<Vec<u8>> + From<Vec<u8>> {

}

#[verifier::external_type_specification]
#[verifier::external_body]
pub struct ExZmqSocketType(internet2::ZmqSocketType);

#[verifier::external_type_specification]
#[verifier::external_body]
pub struct ExCarrier(internet2::zeromq::Carrier);

#[verifier::external_type_specification]
#[verifier::external_body]
pub struct ExServiceAddr(internet2::addr::ServiceAddr);

#[verifier::external_type_specification]
#[verifier::external_body]
pub struct ExSocket(zmq2::Socket);

/// The role that a socket plays on its bus.
#[derive(Clone, Copy, Debug, PartialEq, Eq, Structural)]
pub enum SocketRole {
    /// Listening end of a push/pull pair
    Pull,
    /// Connected end of a push/pull pair
    Push,
    /// Client side of request/reply
    Req,
    /// Server side of request/reply
    Rep,
    /// Publisher
    Pub,
    /// Subscriber
    Sub,
    /// Router socket that binds
    RouterBind,
    /// Router socket that connects
    RouterConnect,
}

/// The role that a socket type of internet2 stands for, if it is one of
/// the eight that this library knows.
pub uninterp spec fn role_of(api_type: internet2::ZmqSocketType) -> Option<SocketRole>;

/// The locator inside a carrier of internet2, if it is its `Locator`
/// variant; a carrier with a ready socket has none.
pub uninterp spec fn carrier_locator(carrier: internet2::zeromq::Carrier) -> Option<
    internet2::addr::ServiceAddr,
>;

/// Tells the variants of `internet2::ZmqSocketType` apart.
#[verifier::external_body]
pub(crate) fn socket_role(api_type: internet2::ZmqSocketType) -> (role: Option<SocketRole>)
    ensures
        role == role_of(api_type),
{
    match api_type {
        internet2::ZmqSocketType::Pull => Some(SocketRole::Pull),
        internet2::ZmqSocketType::Push => Some(SocketRole::Push),
        internet2::ZmqSocketType::Req => Some(SocketRole::Req),
        internet2::ZmqSocketType::Rep => Some(SocketRole::Rep),
        internet2::ZmqSocketType::Pub => Some(SocketRole::Pub),
        internet2::ZmqSocketType::Sub => Some(SocketRole::Sub),
        internet2::ZmqSocketType::RouterBind => Some(SocketRole::RouterBind),
        internet2::ZmqSocketType::RouterConnect => Some(SocketRole::RouterConnect),
        _ => None,
    }
}

/// `internet2::zeromq::Carrier::Locator` around an address.
#[verifier::external_body]
fn locator_carrier(addr: internet2::addr::ServiceAddr) -> (carrier: internet2::zeromq::Carrier)
    ensures
        carrier_locator(carrier) == Some(addr),
{
    internet2::zeromq::Carrier::Locator(addr)
}

/// `internet2::zeromq::Carrier::Socket` around a ready socket.
#[verifier::external_body]
fn socket_carrier(socket: zmq2::Socket) -> (carrier: internet2::zeromq::Carrier)
    ensures
        carrier_locator(carrier) is None,
{
    internet2::zeromq::Carrier::Socket(socket)
}

/// Whether a carrier of internet2 is its `Locator` variant.
#[verifier::external_body]
pub(crate) fn has_locator(carrier: &internet2::zeromq::Carrier) -> (yes: bool)
    ensures
        yes == carrier_locator(*carrier) is Some,
{
    match carrier {
        internet2::zeromq::Carrier::Locator(_) => true,
        internet2::zeromq::Carrier::Socket(_) => false,
    }
}

/// Describes one bus: how to reach it, in which role, through which router.
#[non_exhaustive]
pub struct BusConfig<A: ServiceAddress> {
    /// Role of the local socket
    pub api_type: internet2::ZmqSocketType,
    /// An address to connect to, or a socket that is already there
    pub carrier: internet2::zeromq::Carrier,
    /// Service to which outgoing frames are relayed
    pub router: Option<A>,
    /// Whether messages are queued for a peer that is not there; where
    /// they are not, sending to such a peer fails at once
    pub queued: bool,
    /// What a subscriber subscribes to
    pub topic: Option<String>,
}

impl<A: ServiceAddress> BusConfig<A> {
    /// A bus that is reached by connecting to an address.
    pub fn with_addr(
        addr: internet2::addr::ServiceAddr,
        api_type: internet2::ZmqSocketType,
        router: Option<A>,
    ) -> (config: Self)
        ensures
            config.api_type == api_type,
            carrier_locator(config.carrier) == Some(addr),
            config.router == router,
            !config.queued,
            config.topic is None,
    {
        BusConfig { api_type, carrier: locator_carrier(addr), router, queued: false, topic: None }
    }

    /// A bus that is reached by connecting to an address, with a topic to
    /// subscribe to.
    pub fn with_subscription(
        addr: internet2::addr::ServiceAddr,
        api_type: internet2::ZmqSocketType,
        router: Option<A>,
        topic: String,
    ) -> (config: Self)
        ensures
            config.api_type == api_type,
            carrier_locator(config.carrier) == Some(addr),
            config.router == router,
            !config.queued,
            config.topic == Some(topic),
    {
        BusConfig {
            api_type,
            carrier: locator_carrier(addr),
            router,
            queued: false,
            topic: Some(topic),
        }
    }

    /// A bus on a socket that is already there.
    pub fn with_socket(
        socket: zmq2::Socket,
        api_type: internet2::ZmqSocketType,
        router: Option<A>,
    ) -> (config: Self)
        ensures
            config.api_type == api_type,
            carrier_locator(config.carrier) is None,
            config.router == router,
            !config.queued,
            config.topic is None,
    {
        BusConfig { api_type, carrier: socket_carrier(socket), router, queued: false, topic: None }
    }
}

/// Identifier of a client.
pub type ClientId = u64;

/// Length of a service name in bytes.
pub const NAME_LEN: usize = 32;

/// A name of at most 32 bytes of UTF-8, held in a fixed buffer that zeros
/// fill up.
#[derive(Clone, Copy, PartialEq, Eq, PartialOrd, Ord, Hash, Debug)]
pub struct ServiceName(pub [u8; 32]);

/// The first 32 bytes of a byte string, filled up with zeros.
pub open spec fn padded(bytes: Seq<u8>) -> Seq<u8> {
    Seq::new(
        32,
        |i: int|
            if i < bytes.len() {
                bytes[i]
            } else {
                0u8
            },
    )
}

/// Where the first zero byte stands, or the length where there is none.
pub open spec fn first_nul(bytes: Seq<u8>) -> int
    decreases bytes.len(),
{
    if bytes.len() == 0 || bytes[0] == 0 {
        0
    } else {
        1 + first_nul(bytes.skip(1))
    }
}

/// The bytes before the first zero byte.
pub open spec fn until_nul(bytes: Seq<u8>) -> Seq<u8> {
    bytes.subrange(0, first_nul(bytes))
}

/// What `String::from_utf8_lossy` of std makes of a byte string.
pub uninterp spec fn utf8_lossy(bytes: Seq<u8>) -> Seq<char>;

/// `String::from_utf8_lossy` of std, as an owned string: the text that the
/// bytes encode where they are valid UTF-8.
#[verifier::external_body]
fn lossy_string(bytes: &[u8]) -> (s: String)
    ensures
        s@ == utf8_lossy(bytes@),
        valid_utf8(bytes@) ==> s@ == decode_utf8(bytes@),
{
    String::from_utf8_lossy(bytes).into_owned()
}

impl View for ServiceName {
    type V = Seq<u8>;

    open spec fn view(&self) -> Seq<u8> {
        self.0@
    }
}

impl ServiceName {
    /// The name as text: what its bytes before the first zero decode to,
    /// with a replacement character for what is no UTF-8.
    pub open spec fn text(self) -> Seq<char> {
        let bytes = until_nul(self@);
        if valid_utf8(bytes) {
            decode_utf8(bytes)
        } else {
            utf8_lossy(bytes)
        }
    }

    /// The short form of the name: the first and the last four bytes in
    /// lower-case hexadecimal digits, with two dots between them.
    pub open spec fn short_text(self) -> Seq<char> {
        bytes_digits(self@.subrange(0, 4)) + seq!['.', '.'] + bytes_digits(self@.subrange(28, 32))
    }

    /// Reads a name: the first 32 bytes of the text, filled up with zeros.
    pub fn from_str(s: &str) -> (name: Self)
        ensures
            name@ == padded(s.spec_bytes()),
    {
        Self::from_slice(s.as_bytes())
    }

    /// Reads a name: the first 32 of the bytes, filled up with zeros.
    pub fn from_slice(bytes: &[u8]) -> (name: Self)
        ensures
            name@ == padded(bytes@),
    {
        let mut buf = [0u8;32];
        let n: usize = if bytes.len() > 32 {
            32
        } else {
            bytes.len()
        };
        let mut i: usize = 0;
        while i < n
            invariant
                i <= n <= 32,
                n <= bytes@.len(),
                forall|j: int| 0 <= j < i ==> buf@[j] == bytes@[j],
                forall|j: int| i <= j < 32 ==> buf@[j] == 0,
            decreases n - i,
        {
            buf[i] = bytes[i];
            i += 1;
        }
        assert(buf@ =~= padded(bytes@));
        ServiceName(buf)
    }

    /// Number of bytes before the first zero byte.
    pub fn len(&self) -> (n: usize)
        ensures
            n == first_nul(self@),
            n <= 32,
    {
        let mut i: usize = 0;
        assert(self@.skip(0) =~= self@);
        while i < 32 && self.0[i] != 0
            invariant
                i <= 32,
                first_nul(self@) == i + first_nul(self@.skip(i as int)),
            decreases 32 - i,
        {
            assert(self@.skip(i as int).skip(1) =~= self@.skip(i + 1));
            i += 1;
        }
        i
    }

    /// Renders the name as text, up to its first zero byte.
    pub fn to_string(&self) -> (s: String)
        ensures
            s@ == self.text(),
    {
        let n = self.len();
        let bytes = slice_subrange(self.0.as_slice(), 0, n);
        lossy_string(bytes)
    }

    /// Renders the short form of the name, `xxxxxxxx..xxxxxxxx`.
    pub fn to_short_string(&self) -> (s: String)
        ensures
            s@ == self.short_text(),
            s@.len() == 18,
    {
        let head = bytes_to_hex(slice_subrange(self.0.as_slice(), 0, 4));
        let tail = bytes_to_hex(slice_subrange(self.0.as_slice(), 28, 32));
        let s = head.concat("..").concat(tail.as_str());
        proof {
            reveal_strlit("..");
            assert(".."@ =~= seq!['.', '.']);
        }
        s
    }
}

impl Default for ServiceName {
    fn default() -> (name: Self)
        ensures
            name@ == padded(Seq::empty()),
    {
        let name = ServiceName([0u8;32]);
        assert(name@ =~= padded(Seq::empty()));
        name
    }
}

impl From<Vec<u8>> for ServiceName {
    /// Reads a name as `from_bytes` does.
    fn from(bytes: Vec<u8>) -> (name: Self)
        ensures
            name@ == padded(bytes@),
    {
        Self::from_slice(bytes.as_slice())
    }
}

/// The conversion states nothing of its own: `from_bytes` says what the
/// name holds.
impl FromSpecImpl<Vec<u8>> for ServiceName {
    open spec fn obeys_from_spec() -> bool {
        false
    }

    open spec fn from_spec(bytes: Vec<u8>) -> Self {
        arbitrary()
    }
}

impl From<ServiceName> for Vec<u8> {
    /// Writes a name as `to_bytes` does.
    fn from(name: ServiceName) -> (bytes: Self)
        ensures
            bytes@ == name@,
    {
        name.to_bytes()
    }
}

/// The conversion states nothing of its own: `to_bytes` says what the
/// bytes are.
impl FromSpecImpl<ServiceName> for Vec<u8> {
    open spec fn obeys_from_spec() -> bool {
        false
    }

    open spec fn from_spec(name: ServiceName) -> Self {
        arbitrary()
    }
}

impl ServiceAddress for ServiceName {

}

impl ServiceName {
    /// The 32 bytes of the name.
    pub fn to_bytes(&self) -> (bytes: Vec<u8>)
        ensures
            bytes@ == self@,
    {
        slice_to_vec(self.0.as_slice())
    }

    /// Reads a name: the first 32 of the bytes, filled up with zeros.
    pub fn from_bytes(bytes: Vec<u8>) -> (name: Self)
        ensures
            name@ == padded(bytes@),
    {
        Self::from_slice(bytes.as_slice())
    }
}

/// The bytes of a name are a name: reading them gives the name back.
pub proof fn lemma_name_bytes_round_trip(name: ServiceName)
    ensures
        padded(name@) == name@,
{
    assert(padded(name@) =~= name@);
}

/// A name holds 32 bytes, whatever it was read from, and reading uses no
/// byte behind the first 32: two byte strings that agree there give one
/// name.
pub proof fn lemma_name_truncates(a: Seq<u8>, b: Seq<u8>)
    requires
        a.len() >= 32,
        b.len() >= 32,
        a.subrange(0, 32) == b.subrange(0, 32),
    ensures
        padded(a).len() == 32,
        padded(a) == padded(b),
        padded(a) == a.subrange(0, 32),
{
    assert forall|i: int| 0 <= i < 32 implies a[i] == b[i] by {
        assert(a.subrange(0, 32)[i] == a[i]);
        assert(b.subrange(0, 32)[i] == b[i]);
    }
    assert(padded(a) =~= padded(b));
    assert(padded(a) =~= a.subrange(0, 32));
}

/// The zero bytes that fill a name up do not count: the bytes before the
/// first zero of the name are those before the first zero of what it was
/// read from, as far as 32 bytes reach.
pub proof fn lemma_until_nul_padded(bytes: Seq<u8>)
    requires
        bytes.len() <= 32,
    ensures
        until_nul(padded(bytes)) == until_nul(bytes),
        first_nul(bytes) <= bytes.len(),
{
    lemma_first_nul_padded(bytes, 0);
    assert(padded(bytes).skip(0) =~= padded(bytes));
    assert(bytes.skip(0) =~= bytes);
    assert(until_nul(padded(bytes)) =~= until_nul(bytes));
}

proof fn lemma_first_nul_padded(bytes: Seq<u8>, k: int)
    requires
        bytes.len() <= 32,
        0 <= k <= bytes.len(),
    ensures
        first_nul(padded(bytes).skip(k)) == first_nul(bytes.skip(k)),
        0 <= first_nul(bytes.skip(k)) <= bytes.len() - k,
    decreases bytes.len() - k,
{
    let p = padded(bytes).skip(k);
    let b = bytes.skip(k);
    if k == bytes.len() {
        assert(b.len() == 0);
        if k < 32 {
            assert(p[0] == 0);
        } else {
            assert(p.len() == 0);
        }
    } else {
        assert(p[0] == b[0]);
        if b[0] != 0 {
            lemma_first_nul_padded(bytes, k + 1);
            assert(p.skip(1) =~= padded(bytes).skip(k + 1));
            assert(b.skip(1) =~= bytes.skip(k + 1));
        }
    }
}

/// Without a zero byte, nothing is cut off before the end.
pub proof fn lemma_first_nul_none(bytes: Seq<u8>)
    requires
        forall|i: int| 0 <= i < bytes.len() ==> bytes[i] != 0,
    ensures
        first_nul(bytes) == bytes.len(),
        until_nul(bytes) == bytes,
    decreases bytes.len(),
{
    if bytes.len() > 0 {
        assert(bytes[0] != 0);
        assert forall|i: int| 0 <= i < bytes.skip(1).len() implies bytes.skip(1)[i] != 0 by {
            assert(bytes.skip(1)[i] == bytes[i + 1]);
        }
        lemma_first_nul_none(bytes.skip(1));
    }
    assert(until_nul(bytes) =~= bytes);
}

/// A name renders as the text it was read from, where that text fits 32
/// bytes and holds no zero byte.
pub proof fn lemma_name_text(name: ServiceName, text: Seq<char>)
    requires
        name@ == padded(encode_utf8(text)),
        encode_utf8(text).len() <= 32,
        forall|i: int| 0 <= i < encode_utf8(text).len() ==> encode_utf8(text)[i] != 0,
    ensures
        name.text() == text,
{
    broadcast use vstd::utf8::encode_utf8_valid_utf8, vstd::utf8::encode_utf8_decode_utf8;

    let bytes = encode_utf8(text);
    lemma_until_nul_padded(bytes);
    lemma_first_nul_none(bytes);
    assert(until_nul(name@) == bytes);
    assert(valid_utf8(bytes));
    assert(decode_utf8(bytes) == text);
}

/// A name renders as the text that the first 32 bytes of what it was read
/// from encode, where those bytes hold no zero and are a text of their
/// own: a longer text is cut where a character ends.
pub proof fn lemma_name_text_prefix(name: ServiceName, bytes: Seq<u8>)
    requires
        name@ == padded(bytes),
        forall|i: int| 0 <= i < bytes.len() && i < 32 ==> bytes[i] != 0,
        valid_utf8(
            bytes.subrange(
                0,
                if bytes.len() <= 32 {
                    bytes.len() as int
                } else {
                    32
                },
            ),
        ),
    ensures
        name.text() == decode_utf8(
            bytes.subrange(
                0,
                if bytes.len() <= 32 {
                    bytes.len() as int
                } else {
                    32
                },
            ),
        ),
{
    if bytes.len() <= 32 {
        lemma_until_nul_padded(bytes);
        lemma_first_nul_none(bytes);
        assert(bytes.subrange(0, bytes.len() as int) =~= bytes);
    } else {
        lemma_name_truncates(bytes, bytes);
        let head = bytes.subrange(0, 32);
        lemma_first_nul_none(head);
    }
}

} // verus!
