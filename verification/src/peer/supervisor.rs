use internet2::addr::{InetSocketAddr, NodeId};
use internet2::session::noise::FramingProtocol;
use std::fmt::Debug;
use vstd::prelude::*;
use vstd::string::StringExecFns;

verus! {

#[verifier::external_type_specification]
#[verifier::external_body]
pub struct ExInetSocketAddr(internet2::addr::InetSocketAddr);

#[verifier::external_type_specification]
#[verifier::external_body]
pub struct ExAddrParseError(internet2::addr::AddrParseError);

#[verifier::external_type_specification]
#[verifier::external_body]
pub struct ExNodeId(internet2::addr::NodeId);

#[verifier::external_type_specification]
#[verifier::external_body]
pub struct ExFramingProtocol(internet2::session::noise::FramingProtocol);

/// `Default::default` of `internet2::addr::InetSocketAddr`.
#[verifier::external_body]
fn unset_socket() -> InetSocketAddr {
    InetSocketAddr::default()
}

/// How the daemon meets its peers: it waits for them at its own address,
/// or it goes to one of them.
pub enum PeerSocket {
    /// Listen at the address, under the node id.
    Listen(NodeId, InetSocketAddr),
    /// Connect to the node of the id at the address.
    Connect(NodeId, InetSocketAddr),
}

/// What the runtime of one peer connection is started with.
#[derive(Debug)]
pub struct RuntimeParams<Config: Clone + Debug> {
    pub config: Config,
    pub framing_protocol: FramingProtocol,
    pub local_id: NodeId,
    pub remote_id: Option<NodeId>,
    pub local_socket: Option<InetSocketAddr>,
    pub remote_socket: InetSocketAddr,
    pub connect: bool,
}

/// How the runtime of an accepted connection is started.
#[derive(Clone, Copy, Debug, PartialEq, Eq, Structural)]
pub enum SpawnMode {
    /// On a thread of this process.
    Thread,
    /// In a forked process.
    Fork,
}

impl<Config: Clone + Debug> RuntimeParams<Config> {
    /// Parameters of a daemon that neither listens nor connects yet.
    pub fn with(config: Config, local_id: NodeId, framing_protocol: FramingProtocol) -> (params:
        Self)
        ensures
            params.config == config,
            params.framing_protocol == framing_protocol,
            params.local_id == local_id,
            params.remote_id is None,
            params.local_socket is None,
            !params.connect,
    {
        RuntimeParams {
            config,
            framing_protocol,
            local_id,
            remote_id: None,
            local_socket: None,
            remote_socket: unset_socket(),
            connect: false,
        }
    }

    /// Parameters of a daemon for the way it meets its peers. One that
    /// listens does so under the id and at the address of the socket. One
    /// that connects keeps its own id and names the remote node.
    pub fn run(
        config: Config,
        local_id: NodeId,
        framing_protocol: FramingProtocol,
        peer_socket: PeerSocket,
    ) -> (params: Self)
        ensures
            params.config == config,
            params.framing_protocol == framing_protocol,
            match peer_socket {
                PeerSocket::Listen(id, addr) => {
                    &&& !params.connect
                    &&& params.local_id == id
                    &&& params.local_socket == Some(addr)
                    &&& params.remote_id is None
                },
                PeerSocket::Connect(id, addr) => {
                    &&& params.connect
                    &&& params.local_id == local_id
                    &&& params.local_socket is None
                    &&& params.remote_id == Some(id)
                    &&& params.remote_socket == addr
                },
            },
    {
        let mut params = Self::with(config, local_id, framing_protocol);
        match peer_socket {
            PeerSocket::Listen(id, addr) => {
                params.connect = false;
                params.local_id = id;
                params.local_socket = Some(addr);
            },
            PeerSocket::Connect(id, addr) => {
                params.connect = true;
                params.remote_id = Some(id);
                params.remote_socket = addr;
            },
        }
        params
    }

    /// The parameters for the connection that a listening daemon accepted
    /// from the given address: nothing else changes.
    pub fn accepted(self, remote_socket: InetSocketAddr) -> (params: Self)
        ensures
            params.config == self.config,
            params.framing_protocol == self.framing_protocol,
            params.local_id == self.local_id,
            params.remote_id == self.remote_id,
            params.local_socket == self.local_socket,
            params.remote_socket == remote_socket,
            params.connect == self.connect,
    {
        let mut params = self;
        params.remote_socket = remote_socket;
        params
    }
}

/// The name of the thread that serves the connections accepted at an
/// address.
pub open spec fn listener_name_of(addr: Seq<char>) -> Seq<char> {
    "peerd-listner<"@ + addr + seq!['>']
}

/// Names the thread that serves the connections accepted at an address.
pub fn listener_name(addr: &str) -> (name: String)
    ensures
        name@ == listener_name_of(addr@),
{
    let name = String::from_str("peerd-listner<").concat(addr).concat(">");
    proof {
        reveal_strlit(">");
        assert(">"@ =~= seq!['>']);
    }
    name
}

/// Decides how the runtime of an accepted connection is started: on a
/// thread where threads are asked for, else in a forked process, which
/// only a platform that can fork allows.
pub fn spawner(threaded: bool, can_fork: bool) -> (mode: Option<SpawnMode>)
    ensures
        mode == if threaded {
            Some(SpawnMode::Thread)
        } else if can_fork {
            Some(SpawnMode::Fork)
        } else {
            None
        },
{
    if threaded {
        Some(SpawnMode::Thread)
    } else if can_fork {
        Some(SpawnMode::Fork)
    } else {
        None
    }
}

} // verus!
