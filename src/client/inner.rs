//! The client runtime as a state machine: control requests come in one at a
//! time, each step names the socket work to do, and the outcomes of that work
//! come back as events.
use vstd::prelude::*;

use crate::error::Error;
use crate::protocol::message::MessageView;
use crate::protocol::{self, sd, Header, Message, MessageId};
use crate::server::{spec_sd_datagram, SocketAddress};
use crate::session::{spec_next_session, SessionCounter};

verus! {

/// A control request of the client façade, or the state of a request that
/// was sent and waits for its response.
#[derive(Debug, Clone)]
pub enum ControlMessage {
    SetInterface(u32),
    BindDiscovery,
    UnbindDiscovery,
    BindUnicast,
    UnbindUnicast,
    SendSD(SocketAddress, sd::Header),
    Send(SocketAddress, Message),
    /// A request was sent; the response carries this message ID.
    AwaitResponse(MessageId),
}

/// The socket work a step asks for.
#[derive(Debug)]
pub enum ClientAction {
    /// Nothing to do until the next event.
    Idle,
    /// Shut the discovery socket down, then step again.
    ReleaseDiscovery,
    /// Bind the discovery socket on the interface, then report with `discovery_bound`.
    BindDiscovery { interface: u32 },
    /// Shut the discovery socket down if there is one; reply `Ok`.
    UnbindDiscovery,
    /// Bind a unicast socket on an ephemeral port, then report with `unicast_bound`.
    BindUnicast,
    /// Drop the unicast socket; reply `Ok`.
    UnbindUnicast,
    /// Reply `Ok` to the finished request.
    ReplyDone,
    /// Reply with the port of the unicast socket.
    ReplyPort(u16),
    /// Reply with an error.
    ReplyError(Error),
    /// Send on the discovery socket and reply with the outcome.
    SendSd { target: SocketAddress, datagram: Vec<u8> },
    /// Send on the unicast socket; on failure report with `request_failed`.
    SendRequest { target: SocketAddress, datagram: Vec<u8> },
}

/// The request ID of a request: client ID above, session ID below.
pub open spec fn spec_request_id(client_id: u16, session_id: u16) -> u32 {
    (client_id as int * 65536 + session_id as int) as u32
}

/// The state the client runtime owns.
#[derive(Debug)]
pub struct ClientState {
    /// Interface of the discovery socket.
    pub interface: u32,
    /// A discovery socket is bound.
    pub discovery_bound: bool,
    /// Port of the unicast socket, if one is bound.
    pub unicast_port: Option<u16>,
    /// The request being served; at most one at a time.
    pub active_request: Option<ControlMessage>,
    /// Client ID of the request IDs; constant.
    pub client_id: u16,
    /// Session counter of requests.
    pub session: SessionCounter,
    /// Session counter of SD messages.
    pub discovery_session: SessionCounter,
}

impl ClientState {
    pub open spec fn wf(&self) -> bool {
        self.session.wf() && self.discovery_session.wf()
    }

    pub fn new(interface: u32, client_id: u16) -> (r: Self)
        ensures
            r.wf(),
            r.interface == interface,
            r.client_id == client_id,
            !r.discovery_bound,
            r.unicast_port is None,
            r.active_request is None,
            r.session.spec_next() == 1,
            r.discovery_session.spec_next() == 1,
    {
        ClientState {
            interface,
            discovery_bound: false,
            unicast_port: None,
            active_request: None,
            client_id,
            session: SessionCounter::new(),
            discovery_session: SessionCounter::new(),
        }
    }

    /// Takes a control request when none is being served; otherwise leaves
    /// everything as it is and returns false.
    pub fn accept(&mut self, request: ControlMessage) -> (r: bool)
        ensures
            r == old(self).active_request is None,
            r ==> final(self).active_request == Some(request),
            r ==> final(self).interface == old(self).interface && final(self).discovery_bound
                == old(self).discovery_bound && final(self).unicast_port == old(
                self,
            ).unicast_port && final(self).client_id == old(self).client_id && final(self).session
                == old(self).session && final(self).discovery_session == old(
                self,
            ).discovery_session,
            !r ==> *final(self) == *old(self),
    {
        if self.active_request.is_some() {
            return false;
        }
        self.active_request = Some(request);
        true
    }

    /// Advances the active request by one step. A datagram a step hands out
    /// carries the next session ID of its counter; the counter moves on only
    /// once the datagram is sent (`request_sent`, `sd_message_sent`).
    pub fn step(&mut self) -> (r: ClientAction)
        requires
            old(self).wf(),
        ensures
            final(self).wf(),
            final(self).client_id == old(self).client_id,
            !(old(self).active_request matches Some(ControlMessage::SetInterface(_)))
                ==> final(self).interface == old(self).interface,
            !(old(self).active_request matches Some(ControlMessage::SetInterface(_)))
                && !(old(self).active_request matches Some(ControlMessage::UnbindDiscovery))
                ==> final(self).discovery_bound == old(self).discovery_bound,
            !(old(self).active_request matches Some(ControlMessage::UnbindUnicast))
                ==> final(self).unicast_port == old(self).unicast_port,
            final(self).session == old(self).session,
            final(self).discovery_session == old(self).discovery_session,
            match old(self).active_request {
                None => r is Idle && *final(self) == *old(self),
                Some(ControlMessage::AwaitResponse(_)) => r is Idle && *final(self) == *old(self),
                Some(ControlMessage::SetInterface(ip)) => if old(self).discovery_bound {
                    &&& r is ReleaseDiscovery
                    &&& !final(self).discovery_bound
                    &&& final(self).active_request == old(self).active_request
                    &&& final(self).interface == old(self).interface
                } else {
                    &&& r == (ClientAction::BindDiscovery { interface: ip })
                    &&& final(self).interface == ip
                    &&& final(self).active_request == old(self).active_request
                    &&& !final(self).discovery_bound
                },
                Some(ControlMessage::BindDiscovery) => if old(self).discovery_bound {
                    r is ReplyDone && final(self).active_request is None
                } else {
                    &&& r == (ClientAction::BindDiscovery { interface: old(self).interface })
                    &&& final(self).active_request == old(self).active_request
                },
                Some(ControlMessage::UnbindDiscovery) => {
                    &&& r is UnbindDiscovery
                    &&& !final(self).discovery_bound
                    &&& final(self).active_request is None
                },
                Some(ControlMessage::BindUnicast) => match old(self).unicast_port {
                    Some(p) => r == ClientAction::ReplyPort(p) && final(self).active_request is None,
                    None => r is BindUnicast && final(self).active_request == old(
                        self,
                    ).active_request,
                },
                Some(ControlMessage::UnbindUnicast) => {
                    &&& r is UnbindUnicast
                    &&& final(self).unicast_port is None
                    &&& final(self).active_request is None
                },
                Some(ControlMessage::SendSD(target, h)) => if !old(self).discovery_bound {
                    &&& r == (ClientAction::BindDiscovery { interface: old(self).interface })
                    &&& final(self).active_request == old(self).active_request
                } else if !h@.wf() {
                    r == ClientAction::ReplyError(Error::InvalidSDHeader(h))
                        && final(self).active_request is None
                } else {
                    &&& r matches ClientAction::SendSd { target: t, datagram: d }
                    &&& r->SendSd_target == target
                    &&& r->SendSd_datagram@ == spec_sd_datagram(
                        old(self).discovery_session.spec_next(),
                        h@,
                    )
                    &&& final(self).active_request is None
                },
                Some(ControlMessage::Send(target, m)) => if old(self).unicast_port is None {
                    r == ClientAction::ReplyError(Error::UnicastSocketNotBound)
                        && final(self).active_request is None
                } else if !m@.wf() {
                    r == ClientAction::ReplyError(
                        Error::ProtocolError(protocol::Error::InvalidLength(m.header.length)),
                    ) && final(self).active_request is None
                } else {
                    let sid = old(self).session.spec_next();
                    &&& r matches ClientAction::SendRequest { target: t, datagram: d }
                    &&& r->SendRequest_target == target
                    &&& r->SendRequest_datagram@ == (MessageView {
                        header: Header {
                            session_id: spec_request_id(old(self).client_id, sid),
                            ..m.header
                        },
                        payload: m@.payload,
                    }).spec_encode()
                    &&& final(self).active_request == Some(
                        ControlMessage::AwaitResponse(m.header.message_id),
                    )
                },
            },
    {
        let active = self.active_request.take();
        match active {
            None => ClientAction::Idle,
            Some(ControlMessage::AwaitResponse(id)) => {
                self.active_request = Some(ControlMessage::AwaitResponse(id));
                ClientAction::Idle
            },
            Some(ControlMessage::SetInterface(ip)) => {
                self.active_request = Some(ControlMessage::SetInterface(ip));
                if self.discovery_bound {
                    self.discovery_bound = false;
                    ClientAction::ReleaseDiscovery
                } else {
                    self.interface = ip;
                    ClientAction::BindDiscovery { interface: ip }
                }
            },
            Some(ControlMessage::BindDiscovery) => {
                if self.discovery_bound {
                    ClientAction::ReplyDone
                } else {
                    self.active_request = Some(ControlMessage::BindDiscovery);
                    ClientAction::BindDiscovery { interface: self.interface }
                }
            },
            Some(ControlMessage::UnbindDiscovery) => {
                self.discovery_bound = false;
                ClientAction::UnbindDiscovery
            },
            Some(ControlMessage::BindUnicast) => match self.unicast_port {
                Some(p) => ClientAction::ReplyPort(p),
                None => {
                    self.active_request = Some(ControlMessage::BindUnicast);
                    ClientAction::BindUnicast
                },
            },
            Some(ControlMessage::UnbindUnicast) => {
                self.unicast_port = None;
                ClientAction::UnbindUnicast
            },
            Some(ControlMessage::SendSD(target, h)) => {
                if !self.discovery_bound {
                    let interface = self.interface;
                    self.active_request = Some(ControlMessage::SendSD(target, h));
                    ClientAction::BindDiscovery { interface }
                } else if !h.is_wf() {
                    ClientAction::ReplyError(Error::InvalidSDHeader(h))
                } else {
                    let sid = self.discovery_session.peek();
                    let message = Message::new_sd(sid as u32, &h);
                    let mut datagram: Vec<u8> = Vec::new();
                    message.encode(&mut datagram);
                    assert(datagram@ =~= spec_sd_datagram(sid, h@));
                    ClientAction::SendSd { target, datagram }
                }
            },
            Some(ControlMessage::Send(target, m)) => {
                if self.unicast_port.is_none() {
                    ClientAction::ReplyError(Error::UnicastSocketNotBound)
                } else if !m.is_wf() {
                    ClientAction::ReplyError(
                        Error::ProtocolError(protocol::Error::InvalidLength(m.header.length)),
                    )
                } else {
                    let sid = self.session.peek();
                    let request_id = (self.client_id as u32) * 65536 + (sid as u32);
                    let mut stamped = m;
                    stamped.set_session_id(request_id);
                    let message_id = stamped.header.message_id;
                    let mut datagram: Vec<u8> = Vec::new();
                    stamped.encode(&mut datagram);
                    self.active_request = Some(ControlMessage::AwaitResponse(message_id));
                    ClientAction::SendRequest { target, datagram }
                }
            },
        }
    }

    /// Outcome of a discovery bind asked for by a step: a finished
    /// SetInterface or BindDiscovery replies with it; a SendSD goes on where
    /// the bind succeeded and replies with the error where it failed.
    /// Returns whether the request is finished and its reply is the outcome
    /// of the bind.
    pub fn discovery_bound(&mut self, ok: bool) -> (r: bool)
        ensures
            r == final(self).active_request is None,
            final(self).discovery_bound == ok,
            final(self).active_request == match old(self).active_request {
                Some(ControlMessage::SendSD(t, h)) => if ok {
                    Some(ControlMessage::SendSD(t, h))
                } else {
                    None
                },
                _ => None,
            },
            final(self).interface == old(self).interface,
            final(self).unicast_port == old(self).unicast_port,
            final(self).client_id == old(self).client_id,
            final(self).session == old(self).session,
            final(self).discovery_session == old(self).discovery_session,
    {
        self.discovery_bound = ok;
        let keep = match &self.active_request {
            Some(ControlMessage::SendSD(_, _)) => ok,
            _ => false,
        };
        if !keep {
            self.active_request = None;
        }
        !keep
    }

    /// The datagram of a request was sent: the request session counter
    /// moves on.
    pub fn request_sent(&mut self)
        requires
            old(self).wf(),
        ensures
            final(self).wf(),
            final(self).session.spec_next() == spec_next_session(old(self).session.spec_next()),
            final(self).active_request == old(self).active_request,
            final(self).interface == old(self).interface,
            final(self).discovery_bound == old(self).discovery_bound,
            final(self).unicast_port == old(self).unicast_port,
            final(self).client_id == old(self).client_id,
            final(self).discovery_session == old(self).discovery_session,
    {
        self.session.next_session_id();
    }

    /// An SD datagram was sent: the SD session counter moves on.
    pub fn sd_message_sent(&mut self)
        requires
            old(self).wf(),
        ensures
            final(self).wf(),
            final(self).discovery_session.spec_next() == spec_next_session(
                old(self).discovery_session.spec_next(),
            ),
            final(self).active_request == old(self).active_request,
            final(self).interface == old(self).interface,
            final(self).discovery_bound == old(self).discovery_bound,
            final(self).unicast_port == old(self).unicast_port,
            final(self).client_id == old(self).client_id,
            final(self).session == old(self).session,
    {
        self.discovery_session.next_session_id();
    }

    /// Outcome of a unicast bind asked for by a step; the request is finished.
    pub fn unicast_bound(&mut self, port: Option<u16>)
        ensures
            final(self).unicast_port == port,
            final(self).active_request is None,
            final(self).interface == old(self).interface,
            final(self).discovery_bound == old(self).discovery_bound,
            final(self).client_id == old(self).client_id,
            final(self).session == old(self).session,
            final(self).discovery_session == old(self).discovery_session,
    {
        self.unicast_port = port;
        self.active_request = None;
    }

    /// A request could not be sent; it is finished.
    pub fn request_failed(&mut self)
        ensures
            final(self).active_request is None,
            final(self).interface == old(self).interface,
            final(self).discovery_bound == old(self).discovery_bound,
            final(self).unicast_port == old(self).unicast_port,
            final(self).client_id == old(self).client_id,
            final(self).session == old(self).session,
            final(self).discovery_session == old(self).discovery_session,
    {
        self.active_request = None;
    }

    /// Whether `received` answers the request that waits for its response:
    /// the message IDs (service and method) match. An answer finishes the
    /// request; anything else leaves the state as it is.
    pub fn correlate(&mut self, received: &Message) -> (r: bool)
        ensures
            r == (old(self).active_request matches Some(ControlMessage::AwaitResponse(id))
                && id == received.header.message_id),
            r ==> final(self).active_request is None,
            r ==> final(self).interface == old(self).interface && final(self).discovery_bound
                == old(self).discovery_bound && final(self).unicast_port == old(
                self,
            ).unicast_port && final(self).client_id == old(self).client_id && final(self).session
                == old(self).session && final(self).discovery_session == old(
                self,
            ).discovery_session,
            !r ==> *final(self) == *old(self),
    {
        let answers = match &self.active_request {
            Some(ControlMessage::AwaitResponse(id)) => *id == received.header.message_id,
            _ => false,
        };
        if answers {
            self.active_request = None;
        }
        answers
    }
}

} // verus!
