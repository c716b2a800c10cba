//! The raw link-layer socket: set-up, receive and send.
//!
//! A link-layer socket is created for one EtherType filter, the name of its
//! interface is resolved to an index, the socket is bound to that index and
//! filter, and it is registered with the reactor, in that order. The index
//! is checked before anything is bound: a name without an index is an error
//! of its own, not a socket on every interface. A step that fails ends the
//! set-up; the descriptor is released before the error is handed out.
//!
//! The operating system takes an EtherType in network byte order. What that
//! is depends on the machine, so it is asked of `libc` once, when the set-up
//! begins, and carried from then on.

use vstd::prelude::*;
use vstd::string::*;
use crate::descriptor::{SetupEvent, SetupEventView};
use crate::error::{SocketError, SocketErrorView};
use crate::transfer::{Direction, Transfer, TransferView};

verus! {

/// The EtherType of every protocol.
pub const ETHERTYPE_ALL: u16 = 0x0003;

/// The EtherType of IPv4.
pub const ETHERTYPE_IPV4: u16 = 0x0800;

/// The EtherType of IPv6.
pub const ETHERTYPE_IPV6: u16 = 0x86DD;

/// Which frames a link-layer socket captures.
#[derive(Debug, Clone, Copy, PartialEq, Eq, Structural)]
pub enum ProtocolFilter {
    /// Frames of every protocol.
    All,
    /// IPv4 frames only.
    Ipv4,
    /// IPv6 frames only.
    Ipv6,
}

/// A 16-bit number with its two bytes exchanged.
pub open spec fn swap_bytes(value: u16) -> u16 {
    ((value as int % 256) * 256 + value as int / 256) as u16
}

/// Whether `network` is `host` in network byte order on some machine: the
/// number itself where the machine is big-endian, its bytes exchanged where
/// it is little-endian.
pub open spec fn is_network_order(network: u16, host: u16) -> bool {
    network == host || network == swap_bytes(host)
}

/// `libc::htons`: a 16-bit number in network byte order. Which of the two
/// orders that is depends on the machine, so the contract allows both.
#[verifier::external_body]
fn htons(host: u16) -> (network: u16)
    ensures
        is_network_order(network, host),
{
    libc::htons(host)
}

impl ProtocolFilter {
    /// The EtherType the filter stands for, in host byte order.
    pub open spec fn spec_ethertype(self) -> u16 {
        match self {
            ProtocolFilter::All => ETHERTYPE_ALL,
            ProtocolFilter::Ipv4 => ETHERTYPE_IPV4,
            ProtocolFilter::Ipv6 => ETHERTYPE_IPV6,
        }
    }

    /// The EtherType the filter stands for, in host byte order.
    #[verifier::when_used_as_spec(spec_ethertype)]
    pub fn ethertype(self) -> (ethertype: u16)
        ensures
            ethertype == self.spec_ethertype(),
    {
        match self {
            ProtocolFilter::All => ETHERTYPE_ALL,
            ProtocolFilter::Ipv4 => ETHERTYPE_IPV4,
            ProtocolFilter::Ipv6 => ETHERTYPE_IPV6,
        }
    }
}

/// What the driver has to do to set up a link-layer socket. An EtherType is
/// given in network byte order.
#[derive(Debug, Clone, Copy, PartialEq, Eq, Structural)]
pub enum LinkAction {
    /// Create a raw packet socket for `protocol`.
    Open { protocol: u16 },
    /// Look up the index of the interface the socket is named for.
    ResolveInterface,
    /// Bind `fd` to the interface `ifindex` and to `protocol`.
    Bind { fd: i32, ifindex: u32, protocol: u16 },
    /// Register `fd` with the reactor.
    Register { fd: i32 },
    /// Release `fd`.
    Close { fd: i32 },
    /// Nothing: the set-up has ended.
    Finished,
}

/// How far the set-up of a link-layer socket has come.
#[derive(Debug, PartialEq, Eq)]
pub enum LinkStage {
    /// Nothing was done yet.
    Start,
    /// The socket exists.
    Opened { fd: i32 },
    /// The interface has the index `ifindex`, which is not 0.
    Resolved { fd: i32, ifindex: u32 },
    /// The socket is bound to its interface and filter.
    Bound { fd: i32, ifindex: u32 },
    /// The socket is registered with the reactor and can be used.
    Ready { fd: i32, ifindex: u32 },
    /// A step failed; the descriptor is still to be released.
    Releasing { fd: i32, error: SocketError },
    /// The set-up failed, and no descriptor is open.
    Failed { error: SocketError },
}

/// The mathematical value of a [`LinkStage`].
pub enum LinkStageView {
    Start,
    Opened { fd: i32 },
    Resolved { fd: i32, ifindex: u32 },
    Bound { fd: i32, ifindex: u32 },
    Ready { fd: i32, ifindex: u32 },
    Releasing { fd: i32, error: SocketErrorView },
    Failed { error: SocketErrorView },
}

impl View for LinkStage {
    type V = LinkStageView;

    open spec fn view(&self) -> LinkStageView {
        match self {
            LinkStage::Start => LinkStageView::Start,
            LinkStage::Opened { fd } => LinkStageView::Opened { fd: *fd },
            LinkStage::Resolved { fd, ifindex } => LinkStageView::Resolved {
                fd: *fd,
                ifindex: *ifindex,
            },
            LinkStage::Bound { fd, ifindex } => LinkStageView::Bound { fd: *fd, ifindex: *ifindex },
            LinkStage::Ready { fd, ifindex } => LinkStageView::Ready { fd: *fd, ifindex: *ifindex },
            LinkStage::Releasing { fd, error } => LinkStageView::Releasing {
                fd: *fd,
                error: error@,
            },
            LinkStage::Failed { error } => LinkStageView::Failed { error: error@ },
        }
    }
}

impl LinkStageView {
    /// The descriptor that is open at this stage, if any.
    pub open spec fn descriptor(self) -> Option<i32> {
        match self {
            LinkStageView::Start => None,
            LinkStageView::Opened { fd } => Some(fd),
            LinkStageView::Resolved { fd, .. } => Some(fd),
            LinkStageView::Bound { fd, .. } => Some(fd),
            LinkStageView::Ready { fd, .. } => Some(fd),
            LinkStageView::Releasing { fd, .. } => Some(fd),
            LinkStageView::Failed { .. } => None,
        }
    }

    /// The most operations the driver can still be asked for.
    pub open spec fn steps_left(self) -> nat {
        match self {
            LinkStageView::Start => 5,
            LinkStageView::Opened { .. } => 4,
            LinkStageView::Resolved { .. } => 3,
            LinkStageView::Bound { .. } => 2,
            LinkStageView::Releasing { .. } => 1,
            LinkStageView::Ready { .. } => 0,
            LinkStageView::Failed { .. } => 0,
        }
    }
}

/// The mathematical value of a [`LinkSetup`].
pub struct LinkSetupView {
    pub ifname: Seq<char>,
    pub filter: ProtocolFilter,
    /// The EtherType of the filter in network byte order.
    pub protocol: u16,
    pub stage: LinkStageView,
}

impl LinkSetupView {
    /// A set-up on which nothing was done yet.
    pub open spec fn start(
        ifname: Seq<char>,
        filter: ProtocolFilter,
        protocol: u16,
    ) -> LinkSetupView {
        LinkSetupView { ifname, filter, protocol, stage: LinkStageView::Start }
    }

    /// Whether this is a set-up on which nothing was done yet, for `filter`
    /// on `ifname`, with the EtherType of the filter in the byte order of
    /// the network.
    pub open spec fn starts(self, ifname: Seq<char>, filter: ProtocolFilter) -> bool {
        &&& self == Self::start(ifname, filter, self.protocol)
        &&& is_network_order(self.protocol, filter.spec_ethertype())
    }

    /// What the driver is asked to do.
    pub open spec fn action(self) -> LinkAction {
        match self.stage {
            LinkStageView::Start => LinkAction::Open { protocol: self.protocol },
            LinkStageView::Opened { .. } => LinkAction::ResolveInterface,
            LinkStageView::Resolved { fd, ifindex } => LinkAction::Bind {
                fd,
                ifindex,
                protocol: self.protocol,
            },
            LinkStageView::Bound { fd, .. } => LinkAction::Register { fd },
            LinkStageView::Ready { .. } => LinkAction::Finished,
            LinkStageView::Releasing { fd, .. } => LinkAction::Close { fd },
            LinkStageView::Failed { .. } => LinkAction::Finished,
        }
    }

    /// Whether the set-up has ended, well or not.
    pub open spec fn finished(self) -> bool {
        self.stage is Ready || self.stage is Failed
    }

    /// Whether `event` answers what the set-up asked for. A descriptor
    /// counts only if it is not negative; whether releasing a descriptor
    /// went through is not looked at.
    pub open spec fn expects(self, event: SetupEventView) -> bool {
        match self.stage {
            LinkStageView::Start => (event matches SetupEventView::Descriptor(fd) && fd >= 0)
                || event is Failed,
            LinkStageView::Opened { .. } => event is InterfaceIndex,
            LinkStageView::Ready { .. } | LinkStageView::Failed { .. } => false,
            _ => event is Completed || event is Failed,
        }
    }

    /// The stage after `event`. An event that was not asked for changes
    /// nothing.
    pub open spec fn next_stage(self, event: SetupEventView) -> LinkStageView {
        if !self.expects(event) {
            self.stage
        } else {
            match (self.stage, event) {
                (LinkStageView::Start, SetupEventView::Descriptor(fd)) => LinkStageView::Opened {
                    fd,
                },
                (LinkStageView::Start, SetupEventView::Failed(cause)) => LinkStageView::Failed {
                    error: SocketErrorView::creation(cause),
                },
                (LinkStageView::Opened { fd }, SetupEventView::InterfaceIndex(ifindex)) => if ifindex
                    == 0 {
                    LinkStageView::Releasing { fd, error: SocketErrorView::not_found(self.ifname) }
                } else {
                    LinkStageView::Resolved { fd, ifindex }
                },
                (
                    LinkStageView::Resolved { fd, ifindex },
                    SetupEventView::Completed,
                ) => LinkStageView::Bound { fd, ifindex },
                (LinkStageView::Bound { fd, ifindex }, SetupEventView::Completed) => LinkStageView::Ready {
                    fd,
                    ifindex,
                },
                (LinkStageView::Resolved { fd, .. }, SetupEventView::Failed(cause)) | (
                    LinkStageView::Bound { fd, .. },
                    SetupEventView::Failed(cause),
                ) => LinkStageView::Releasing { fd, error: SocketErrorView::Os(cause.code) },
                (LinkStageView::Releasing { error, .. }, _) => LinkStageView::Failed { error },
                _ => self.stage,
            }
        }
    }

    /// The set-up after `event`: only the stage moves.
    pub open spec fn next(self, event: SetupEventView) -> LinkSetupView {
        LinkSetupView { stage: self.next_stage(event), ..self }
    }

    /// The set-up after a run of events, oldest first.
    pub open spec fn run(self, events: Seq<SetupEventView>) -> LinkSetupView
        decreases events.len(),
    {
        if events.len() == 0 {
            self
        } else {
            self.run(events.drop_last()).next(events.last())
        }
    }

    /// How many descriptors the run of events created.
    pub open spec fn opens(self, events: Seq<SetupEventView>) -> nat
        decreases events.len(),
    {
        if events.len() == 0 {
            0
        } else {
            let before = self.run(events.drop_last());
            let opened: nat = if before.action() is Open && before.expects(events.last())
                && events.last() is Descriptor {
                1
            } else {
                0
            };
            self.opens(events.drop_last()) + opened
        }
    }

    /// How many times the run of events released a descriptor.
    pub open spec fn releases(self, events: Seq<SetupEventView>) -> nat
        decreases events.len(),
    {
        if events.len() == 0 {
            0
        } else {
            let before = self.run(events.drop_last());
            let released: nat = if before.action() is Close && before.expects(events.last()) {
                1
            } else {
                0
            };
            self.releases(events.drop_last()) + released
        }
    }

    /// The interface and the filter of a set-up never change.
    pub proof fn lemma_binding_is_kept(self, events: Seq<SetupEventView>)
        ensures
            self.run(events).ifname == self.ifname,
            self.run(events).filter == self.filter,
            self.run(events).protocol == self.protocol,
        decreases events.len(),
    {
        if events.len() > 0 {
            self.lemma_binding_is_kept(events.drop_last());
        }
    }

    /// A set-up that has ended stays as it is, whatever is reported later.
    pub proof fn lemma_finished_is_final(self, events: Seq<SetupEventView>)
        requires
            self.finished(),
        ensures
            self.run(events) == self,
        decreases events.len(),
    {
        if events.len() > 0 {
            self.lemma_finished_is_final(events.drop_last());
        }
    }

    /// Where the interface has an index and every step goes through, the
    /// set-up ends with a socket that is ready on the descriptor that was
    /// created, bound to that index.
    pub proof fn lemma_setup_succeeds(self, fd: i32, ifindex: u32)
        requires
            self.stage is Start,
            fd >= 0,
            ifindex != 0,
        ensures
            self.run(
                seq![
                    SetupEventView::Descriptor(fd),
                    SetupEventView::InterfaceIndex(ifindex),
                    SetupEventView::Completed,
                    SetupEventView::Completed,
                ],
            ).stage == (LinkStageView::Ready { fd, ifindex }),
    {
        let events = seq![
            SetupEventView::Descriptor(fd),
            SetupEventView::InterfaceIndex(ifindex),
            SetupEventView::Completed,
            SetupEventView::Completed,
        ];
        assert(events.take(0).len() == 0);
        assert(events.take(1).drop_last() =~= events.take(0));
        assert(events.take(2).drop_last() =~= events.take(1));
        assert(events.take(3).drop_last() =~= events.take(2));
        assert(events.drop_last() =~= events.take(3));
        assert(self.run(events.take(0)).stage is Start);
        assert(self.run(events.take(1)).stage == (LinkStageView::Opened { fd }));
        assert(self.run(events.take(2)).stage == (LinkStageView::Resolved { fd, ifindex }));
        assert(self.run(events.take(3)).stage == (LinkStageView::Bound { fd, ifindex }));
    }

    /// A name without an index fails the set-up with the error of its own,
    /// after the descriptor was released, and nothing is ever bound.
    pub proof fn lemma_missing_interface_is_not_found(self, fd: i32)
        requires
            self.stage is Start,
            fd >= 0,
        ensures
            self.run(seq![SetupEventView::Descriptor(fd), SetupEventView::InterfaceIndex(0)]).action()
                == (LinkAction::Close { fd }),
            self.run(
                seq![
                    SetupEventView::Descriptor(fd),
                    SetupEventView::InterfaceIndex(0),
                    SetupEventView::Completed,
                ],
            ).stage == (LinkStageView::Failed { error: SocketErrorView::not_found(self.ifname) }),
    {
        let events = seq![
            SetupEventView::Descriptor(fd),
            SetupEventView::InterfaceIndex(0),
            SetupEventView::Completed,
        ];
        let short = seq![SetupEventView::Descriptor(fd), SetupEventView::InterfaceIndex(0)];
        assert(events.take(0).len() == 0);
        assert(events.take(1).drop_last() =~= events.take(0));
        assert(events.take(2).drop_last() =~= events.take(1));
        assert(events.drop_last() =~= events.take(2));
        assert(short =~= events.take(2));
        assert(self.run(events.take(0)).stage is Start);
        assert(self.run(events.take(1)).stage == (LinkStageView::Opened { fd }));
        assert(self.run(events.take(2)).stage == (LinkStageView::Releasing {
            fd,
            error: SocketErrorView::not_found(self.ifname),
        }));
    }

    /// Every outcome that is taken brings the end nearer: the set-up ends
    /// after five operations at most, whatever their outcomes are, and it has
    /// ended exactly when nothing is left to do.
    pub proof fn lemma_every_step_brings_the_end_nearer(self, event: SetupEventView)
        ensures
            self.finished() <==> self.stage.steps_left() == 0,
            self.expects(event) ==> self.next(event).stage.steps_left() < self.stage.steps_left(),
            self.stage.steps_left() <= 5,
    {
    }

    /// A step that failed never ends in a usable socket: once a failure was
    /// reported for a step, the set-up is releasing its descriptor or has
    /// failed, for good.
    pub proof fn lemma_failure_never_yields_socket(self, events: Seq<SetupEventView>, i: int)
        requires
            0 <= i < events.len(),
            events[i] is Failed,
            self.run(events.take(i)).expects(events[i]),
        ensures
            self.run(events).stage is Releasing || self.run(events).stage is Failed,
        decreases events.len(),
    {
        if i == events.len() - 1 {
            assert(events.take(i) =~= events.drop_last());
        } else {
            assert(events.drop_last().take(i) =~= events.take(i));
            self.lemma_failure_never_yields_socket(events.drop_last(), i);
        }
    }

    /// No descriptor leaks and none is released twice: at most one descriptor
    /// is ever created; while one is open it has not been released; and when
    /// none is open, as after every failure, each descriptor that was created
    /// has been released exactly once.
    pub proof fn lemma_descriptor_released_once(self, events: Seq<SetupEventView>)
        requires
            self.stage is Start,
        ensures
            self.opens(events) <= 1,
            self.run(events).stage.descriptor() is Some ==> self.opens(events) == 1
                && self.releases(events) == 0,
            self.run(events).stage.descriptor() is None ==> self.releases(events) == self.opens(
                events,
            ),
            self.run(events).stage is Start ==> self.opens(events) == 0,
        decreases events.len(),
    {
        if events.len() > 0 {
            self.lemma_descriptor_released_once(events.drop_last());
        }
    }
}

/// The set-up of a link-layer socket, step by step.
#[derive(Debug)]
pub struct LinkSetup {
    ifname: String,
    filter: ProtocolFilter,
    protocol: u16,
    stage: LinkStage,
}

impl View for LinkSetup {
    type V = LinkSetupView;

    closed spec fn view(&self) -> LinkSetupView {
        LinkSetupView {
            ifname: self.ifname@,
            filter: self.filter,
            protocol: self.protocol,
            stage: self.stage@,
        }
    }
}

/// The mathematical value of an [`EthernetSocket`].
pub struct EthernetSocketView {
    pub fd: i32,
    pub ifname: Seq<char>,
    pub ifindex: u32,
    pub filter: ProtocolFilter,
}

/// A raw link-layer socket that is ready for use. Its descriptor, interface
/// and filter are fixed.
#[derive(Debug)]
pub struct EthernetSocket {
    fd: i32,
    ifname: String,
    ifindex: u32,
    filter: ProtocolFilter,
}

impl View for EthernetSocket {
    type V = EthernetSocketView;

    closed spec fn view(&self) -> EthernetSocketView {
        EthernetSocketView {
            fd: self.fd,
            ifname: self.ifname@,
            ifindex: self.ifindex,
            filter: self.filter,
        }
    }
}

impl LinkSetup {
    /// Begins the set-up of a link-layer socket with `filter` on the
    /// interface `ifname`, given the EtherType of the filter in network
    /// byte order.
    pub fn with_protocol(ifname: &str, filter: ProtocolFilter, protocol: u16) -> (setup: LinkSetup)
        ensures
            setup@ == LinkSetupView::start(ifname@, filter, protocol),
    {
        LinkSetup { ifname: String::from_str(ifname), filter, protocol, stage: LinkStage::Start }
    }

    /// Begins the set-up of a link-layer socket with `filter` on the
    /// interface `ifname`.
    pub fn new(ifname: &str, filter: ProtocolFilter) -> (setup: LinkSetup)
        ensures
            setup@.starts(ifname@, filter),
    {
        Self::with_protocol(ifname, filter, htons(filter.ethertype()))
    }

    /// The name of the interface the socket is set up on.
    pub fn interface(&self) -> (ifname: &str)
        ensures
            ifname@ == self@.ifname,
    {
        self.ifname.as_str()
    }

    /// The filter of the socket.
    pub fn filter(&self) -> (filter: ProtocolFilter)
        ensures
            filter == self@.filter,
    {
        self.filter
    }

    /// The EtherType of the filter in network byte order.
    pub fn protocol(&self) -> (protocol: u16)
        ensures
            protocol == self@.protocol,
    {
        self.protocol
    }

    /// How far the set-up has come.
    pub fn stage(&self) -> (stage: &LinkStage)
        ensures
            stage@ == self@.stage,
    {
        &self.stage
    }

    /// What the driver has to do now.
    pub fn action(&self) -> (action: LinkAction)
        ensures
            action == self@.action(),
    {
        match &self.stage {
            LinkStage::Start => LinkAction::Open { protocol: self.protocol },
            LinkStage::Opened { .. } => LinkAction::ResolveInterface,
            LinkStage::Resolved { fd, ifindex } => LinkAction::Bind {
                fd: *fd,
                ifindex: *ifindex,
                protocol: self.protocol,
            },
            LinkStage::Bound { fd, .. } => LinkAction::Register { fd: *fd },
            LinkStage::Ready { .. } => LinkAction::Finished,
            LinkStage::Releasing { fd, .. } => LinkAction::Close { fd: *fd },
            LinkStage::Failed { .. } => LinkAction::Finished,
        }
    }

    /// Takes the outcome of the last action. Returns whether the event was
    /// the one asked for; any other event is ignored.
    pub fn advance(&mut self, event: SetupEvent) -> (accepted: bool)
        ensures
            accepted == old(self)@.expects(event@),
            final(self)@ == old(self)@.next(event@),
    {
        let mut stage = LinkStage::Start;
        core::mem::swap(&mut self.stage, &mut stage);
        let (next, accepted) = match (stage, event) {
            (LinkStage::Start, SetupEvent::Descriptor(fd)) => if fd >= 0 {
                (LinkStage::Opened { fd }, true)
            } else {
                (LinkStage::Start, false)
            },
            (LinkStage::Start, SetupEvent::Failed(cause)) => (
                LinkStage::Failed { error: SocketError::creation(&cause) },
                true,
            ),
            (LinkStage::Opened { fd }, SetupEvent::InterfaceIndex(ifindex)) => if ifindex == 0 {
                (
                    LinkStage::Releasing {
                        fd,
                        error: SocketError::not_found(self.ifname.as_str()),
                    },
                    true,
                )
            } else {
                (LinkStage::Resolved { fd, ifindex }, true)
            },
            (LinkStage::Resolved { fd, ifindex }, SetupEvent::Completed) => (
                LinkStage::Bound { fd, ifindex },
                true,
            ),
            (LinkStage::Bound { fd, ifindex }, SetupEvent::Completed) => (
                LinkStage::Ready { fd, ifindex },
                true,
            ),
            (LinkStage::Resolved { fd, .. }, SetupEvent::Failed(cause)) => (
                LinkStage::Releasing { fd, error: SocketError::Os(cause.code) },
                true,
            ),
            (LinkStage::Bound { fd, .. }, SetupEvent::Failed(cause)) => (
                LinkStage::Releasing { fd, error: SocketError::Os(cause.code) },
                true,
            ),
            (LinkStage::Releasing { error, .. }, SetupEvent::Completed) => (
                LinkStage::Failed { error },
                true,
            ),
            (LinkStage::Releasing { error, .. }, SetupEvent::Failed(_)) => (
                LinkStage::Failed { error },
                true,
            ),
            (stage, _) => (stage, false),
        };
        self.stage = next;
        accepted
    }

    /// Ends the set-up: the socket where it is ready, the error where the
    /// set-up failed. A set-up that has not ended is handed back unchanged.
    pub fn finish(self) -> (outcome: Result<Result<EthernetSocket, SocketError>, LinkSetup>)
        ensures
            match self@.stage {
                LinkStageView::Ready { fd, ifindex } => outcome matches Ok(Ok(socket)) && socket@
                    == (EthernetSocketView {
                    fd,
                    ifname: self@.ifname,
                    ifindex,
                    filter: self@.filter,
                }),
                LinkStageView::Failed { error } => outcome matches Ok(Err(e)) && e@ == error,
                _ => outcome matches Err(setup) && setup@ == self@,
            },
    {
        match self.stage {
            LinkStage::Ready { fd, ifindex } => Ok(
                Ok(EthernetSocket { fd, ifname: self.ifname, ifindex, filter: self.filter }),
            ),
            LinkStage::Failed { error } => Ok(Err(error)),
            stage => Err(
                LinkSetup {
                    ifname: self.ifname,
                    filter: self.filter,
                    protocol: self.protocol,
                    stage,
                },
            ),
        }
    }
}

impl EthernetSocket {
    /// Begins the set-up of a socket for the frames of every protocol on
    /// the interface `ifname`.
    pub fn new(ifname: &str) -> (setup: LinkSetup)
        ensures
            setup@.starts(ifname@, ProtocolFilter::All),
    {
        LinkSetup::new(ifname, ProtocolFilter::All)
    }

    /// Begins the set-up of a socket for IPv4 frames on the interface
    /// `ifname`.
    pub fn new_ipv4(ifname: &str) -> (setup: LinkSetup)
        ensures
            setup@.starts(ifname@, ProtocolFilter::Ipv4),
    {
        LinkSetup::new(ifname, ProtocolFilter::Ipv4)
    }

    /// Begins the set-up of a socket for IPv6 frames on the interface
    /// `ifname`.
    pub fn new_ipv6(ifname: &str) -> (setup: LinkSetup)
        ensures
            setup@.starts(ifname@, ProtocolFilter::Ipv6),
    {
        LinkSetup::new(ifname, ProtocolFilter::Ipv6)
    }

    /// The descriptor of the socket.
    pub fn descriptor(&self) -> (fd: i32)
        ensures
            fd == self@.fd,
    {
        self.fd
    }

    /// The name of the interface the socket is bound to.
    pub fn interface(&self) -> (ifname: &str)
        ensures
            ifname@ == self@.ifname,
    {
        self.ifname.as_str()
    }

    /// The index the interface name was resolved to.
    pub fn interface_index(&self) -> (ifindex: u32)
        ensures
            ifindex == self@.ifindex,
    {
        self.ifindex
    }

    /// The filter of the socket.
    pub fn filter(&self) -> (filter: ProtocolFilter)
        ensures
            filter == self@.filter,
    {
        self.filter
    }

    /// Gives the socket up and hands out its descriptor, which is to be
    /// released now. The socket is gone with this call: nothing can be begun
    /// on it afterwards, and it cannot be given up twice.
    pub fn release(self) -> (fd: i32)
        ensures
            fd == self@.fd,
    {
        self.fd
    }

    /// Begins the receive of one frame into a buffer of `capacity` bytes.
    /// The socket is not changed: a receive that is given up leaves nothing
    /// behind, and the next one starts afresh.
    pub fn recv_frame(&self, capacity: usize) -> (transfer: Transfer)
        ensures
            transfer@ == TransferView::start(self@.fd, Direction::Read, capacity),
    {
        Transfer::new(self.fd, Direction::Read, capacity)
    }

    /// Begins the send of one frame of `len` bytes. The socket is not
    /// changed, and a send shares nothing with a receive under way.
    pub fn send_frame(&self, len: usize) -> (transfer: Transfer)
        ensures
            transfer@ == TransferView::start(self@.fd, Direction::Write, len),
    {
        Transfer::new(self.fd, Direction::Write, len)
    }
}

} // verus!
