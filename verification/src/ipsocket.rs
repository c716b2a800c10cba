//! The raw network-layer socket: set-up and receive.
//!
//! A raw IP socket is created for one IP version, restricted to one named
//! interface, switched to header inclusion, bound to the wildcard address of
//! its family and registered with the reactor, in that order. A step that
//! fails ends the set-up; a descriptor that was created by then is released
//! before the error is handed out.

use vstd::prelude::*;
use vstd::string::*;
use crate::descriptor::{SetupEvent, SetupEventView};
use crate::error::{SocketError, SocketErrorView};
use crate::transfer::{Direction, Transfer, TransferView};

verus! {

/// The IP version a raw network socket captures.
#[derive(Debug, Clone, Copy, PartialEq, Eq, Structural)]
pub enum IpVersion {
    V4,
    V6,
}

/// What the driver has to do to set up a raw network socket.
#[derive(Debug, Clone, Copy, PartialEq, Eq, Structural)]
pub enum IpAction {
    /// Create a raw socket of the family of `version`.
    Open { version: IpVersion },
    /// Restrict `fd` to the interface the socket is named for.
    BindToDevice { fd: i32 },
    /// Switch on header inclusion at the level of `version`.
    IncludeHeader { fd: i32, version: IpVersion },
    /// Bind `fd` to the wildcard address of the family of `version`.
    BindWildcard { fd: i32, version: IpVersion },
    /// Register `fd` with the reactor.
    Register { fd: i32 },
    /// Release `fd`.
    Close { fd: i32 },
    /// Nothing: the set-up has ended.
    Finished,
}

/// How far the set-up of a raw network socket has come.
#[derive(Debug, PartialEq, Eq)]
pub enum IpStage {
    /// Nothing was done yet.
    Start,
    /// The socket exists.
    Opened { fd: i32 },
    /// The socket is restricted to its interface.
    DeviceBound { fd: i32 },
    /// Buffers carry the IP header.
    HeaderIncluded { fd: i32 },
    /// The socket is bound to the wildcard address.
    Bound { fd: i32 },
    /// The socket is registered with the reactor and can be used.
    Ready { fd: i32 },
    /// A step failed; the descriptor is still to be released.
    Releasing { fd: i32, error: SocketError },
    /// The set-up failed, and no descriptor is open.
    Failed { error: SocketError },
}

/// The mathematical value of an [`IpStage`].
pub enum IpStageView {
    Start,
    Opened { fd: i32 },
    DeviceBound { fd: i32 },
    HeaderIncluded { fd: i32 },
    Bound { fd: i32 },
    Ready { fd: i32 },
    Releasing { fd: i32, error: SocketErrorView },
    Failed { error: SocketErrorView },
}

impl View for IpStage {
    type V = IpStageView;

    open spec fn view(&self) -> IpStageView {
        match self {
            IpStage::Start => IpStageView::Start,
            IpStage::Opened { fd } => IpStageView::Opened { fd: *fd },
            IpStage::DeviceBound { fd } => IpStageView::DeviceBound { fd: *fd },
            IpStage::HeaderIncluded { fd } => IpStageView::HeaderIncluded { fd: *fd },
            IpStage::Bound { fd } => IpStageView::Bound { fd: *fd },
            IpStage::Ready { fd } => IpStageView::Ready { fd: *fd },
            IpStage::Releasing { fd, error } => IpStageView::Releasing { fd: *fd, error: error@ },
            IpStage::Failed { error } => IpStageView::Failed { error: error@ },
        }
    }
}

impl IpStageView {
    /// The descriptor that is open at this stage, if any.
    pub open spec fn descriptor(self) -> Option<i32> {
        match self {
            IpStageView::Start => None,
            IpStageView::Opened { fd } => Some(fd),
            IpStageView::DeviceBound { fd } => Some(fd),
            IpStageView::HeaderIncluded { fd } => Some(fd),
            IpStageView::Bound { fd } => Some(fd),
            IpStageView::Ready { fd } => Some(fd),
            IpStageView::Releasing { fd, .. } => Some(fd),
            IpStageView::Failed { .. } => None,
        }
    }

    /// The most operations the driver can still be asked for.
    pub open spec fn steps_left(self) -> nat {
        match self {
            IpStageView::Start => 6,
            IpStageView::Opened { .. } => 5,
            IpStageView::DeviceBound { .. } => 4,
            IpStageView::HeaderIncluded { .. } => 3,
            IpStageView::Bound { .. } => 2,
            IpStageView::Releasing { .. } => 1,
            IpStageView::Ready { .. } => 0,
            IpStageView::Failed { .. } => 0,
        }
    }
}

/// The mathematical value of an [`IpSetup`].
pub struct IpSetupView {
    pub ifname: Seq<char>,
    pub version: IpVersion,
    pub stage: IpStageView,
}

impl IpSetupView {
    /// A set-up on which nothing was done yet.
    pub open spec fn start(ifname: Seq<char>, version: IpVersion) -> IpSetupView {
        IpSetupView { ifname, version, stage: IpStageView::Start }
    }

    /// What the driver is asked to do.
    pub open spec fn action(self) -> IpAction {
        match self.stage {
            IpStageView::Start => IpAction::Open { version: self.version },
            IpStageView::Opened { fd } => IpAction::BindToDevice { fd },
            IpStageView::DeviceBound { fd } => IpAction::IncludeHeader {
                fd,
                version: self.version,
            },
            IpStageView::HeaderIncluded { fd } => IpAction::BindWildcard {
                fd,
                version: self.version,
            },
            IpStageView::Bound { fd } => IpAction::Register { fd },
            IpStageView::Ready { .. } => IpAction::Finished,
            IpStageView::Releasing { fd, .. } => IpAction::Close { fd },
            IpStageView::Failed { .. } => IpAction::Finished,
        }
    }

    /// Whether the set-up has ended, well or not.
    pub open spec fn finished(self) -> bool {
        self.stage is Ready || self.stage is Failed
    }

    /// Whether `event` answers what the set-up asked for. A descriptor
    /// counts only if it is not negative; whether releasing a descriptor
    /// went through is not looked at.
    pub open spec fn expects(self, event: SetupEventView) -> bool {
        match self.stage {
            IpStageView::Start => (event matches SetupEventView::Descriptor(fd) && fd >= 0)
                || event is Failed,
            IpStageView::Ready { .. } | IpStageView::Failed { .. } => false,
            _ => event is Completed || event is Failed,
        }
    }

    /// The stage after `event`. An event that was not asked for changes
    /// nothing.
    pub open spec fn next_stage(self, event: SetupEventView) -> IpStageView {
        if !self.expects(event) {
            self.stage
        } else {
            match (self.stage, event) {
                (IpStageView::Start, SetupEventView::Descriptor(fd)) => IpStageView::Opened { fd },
                (IpStageView::Start, SetupEventView::Failed(cause)) => IpStageView::Failed {
                    error: SocketErrorView::creation(cause),
                },
                (IpStageView::Opened { fd }, SetupEventView::Completed) => IpStageView::DeviceBound {
                    fd,
                },
                (IpStageView::Opened { fd }, SetupEventView::Failed(cause)) => IpStageView::Releasing {
                    fd,
                    error: SocketErrorView::DeviceBindFailed { ifname: self.ifname, cause },
                },
                (
                    IpStageView::DeviceBound { fd },
                    SetupEventView::Completed,
                ) => IpStageView::HeaderIncluded { fd },
                (IpStageView::HeaderIncluded { fd }, SetupEventView::Completed) => IpStageView::Bound {
                    fd,
                },
                (IpStageView::Bound { fd }, SetupEventView::Completed) => IpStageView::Ready { fd },
                (IpStageView::DeviceBound { fd }, SetupEventView::Failed(cause)) | (
                    IpStageView::HeaderIncluded { fd },
                    SetupEventView::Failed(cause),
                ) | (IpStageView::Bound { fd }, SetupEventView::Failed(cause)) => IpStageView::Releasing {
                    fd,
                    error: SocketErrorView::Os(cause.code),
                },
                (IpStageView::Releasing { error, .. }, _) => IpStageView::Failed { error },
                _ => self.stage,
            }
        }
    }

    /// The set-up after `event`: only the stage moves.
    pub open spec fn next(self, event: SetupEventView) -> IpSetupView {
        IpSetupView { stage: self.next_stage(event), ..self }
    }

    /// The set-up after a run of events, oldest first.
    pub open spec fn run(self, events: Seq<SetupEventView>) -> IpSetupView
        decreases events.len(),
    {
        if events.len() == 0 {
            self
        } else {
            self.run(events.drop_last()).next(events.last())
        }
    }
}

impl IpSetupView {
    /// How many descriptors the run of events created.
    pub open spec fn opens(self, events: Seq<SetupEventView>) -> nat
        decreases events.len(),
    {
        if events.len() == 0 {
            0
        } else {
            let before = self.run(events.drop_last());
            let opened: nat = if before.action() is Open && before.expects(events.last())
                && events.last() is Descriptor {
                1
            } else {
                0
            };
            self.opens(events.drop_last()) + opened
        }
    }

    /// How many times the run of events released a descriptor.
    pub open spec fn releases(self, events: Seq<SetupEventView>) -> nat
        decreases events.len(),
    {
        if events.len() == 0 {
            0
        } else {
            let before = self.run(events.drop_last());
            let released: nat = if before.action() is Close && before.expects(events.last()) {
                1
            } else {
                0
            };
            self.releases(events.drop_last()) + released
        }
    }

    /// The interface and the IP version of a set-up never change.
    pub proof fn lemma_binding_is_kept(self, events: Seq<SetupEventView>)
        ensures
            self.run(events).ifname == self.ifname,
            self.run(events).version == self.version,
        decreases events.len(),
    {
        if events.len() > 0 {
            self.lemma_binding_is_kept(events.drop_last());
        }
    }

    /// A set-up that has ended stays as it is, whatever is reported later.
    pub proof fn lemma_finished_is_final(self, events: Seq<SetupEventView>)
        requires
            self.finished(),
        ensures
            self.run(events) == self,
        decreases events.len(),
    {
        if events.len() > 0 {
            self.lemma_finished_is_final(events.drop_last());
        }
    }

    /// Where every step goes through, the set-up ends with a socket that is
    /// ready on the descriptor that was created.
    pub proof fn lemma_setup_succeeds(self, fd: i32)
        requires
            self.stage is Start,
            fd >= 0,
        ensures
            self.run(
                seq![
                    SetupEventView::Descriptor(fd),
                    SetupEventView::Completed,
                    SetupEventView::Completed,
                    SetupEventView::Completed,
                    SetupEventView::Completed,
                ],
            ).stage == (IpStageView::Ready { fd }),
    {
        let events = seq![
            SetupEventView::Descriptor(fd),
            SetupEventView::Completed,
            SetupEventView::Completed,
            SetupEventView::Completed,
            SetupEventView::Completed,
        ];
        assert(events.take(0).len() == 0);
        assert(events.take(1).drop_last() =~= events.take(0));
        assert(events.take(2).drop_last() =~= events.take(1));
        assert(events.take(3).drop_last() =~= events.take(2));
        assert(events.take(4).drop_last() =~= events.take(3));
        assert(events.drop_last() =~= events.take(4));
        assert(self.run(events.take(0)).stage is Start);
        assert(self.run(events.take(1)).stage == (IpStageView::Opened { fd }));
        assert(self.run(events.take(2)).stage == (IpStageView::DeviceBound { fd }));
        assert(self.run(events.take(3)).stage == (IpStageView::HeaderIncluded { fd }));
        assert(self.run(events.take(4)).stage == (IpStageView::Bound { fd }));
    }

    /// Every outcome that is taken brings the end nearer: the set-up ends
    /// after six operations at most, whatever their outcomes are, and it has
    /// ended exactly when nothing is left to do.
    pub proof fn lemma_every_step_brings_the_end_nearer(self, event: SetupEventView)
        ensures
            self.finished() <==> self.stage.steps_left() == 0,
            self.expects(event) ==> self.next(event).stage.steps_left() < self.stage.steps_left(),
            self.stage.steps_left() <= 6,
    {
    }

    /// A step that failed never ends in a usable socket: once a failure was
    /// reported for a step, the set-up is releasing its descriptor or has
    /// failed, for good.
    pub proof fn lemma_failure_never_yields_socket(self, events: Seq<SetupEventView>, i: int)
        requires
            0 <= i < events.len(),
            events[i] is Failed,
            self.run(events.take(i)).expects(events[i]),
        ensures
            self.run(events).stage is Releasing || self.run(events).stage is Failed,
        decreases events.len(),
    {
        if i == events.len() - 1 {
            assert(events.take(i) =~= events.drop_last());
        } else {
            assert(events.drop_last().take(i) =~= events.take(i));
            self.lemma_failure_never_yields_socket(events.drop_last(), i);
        }
    }

    /// No descriptor leaks and none is released twice: at most one descriptor
    /// is ever created; while one is open it has not been released; and when
    /// none is open, as after every failure, each descriptor that was created
    /// has been released exactly once.
    pub proof fn lemma_descriptor_released_once(self, events: Seq<SetupEventView>)
        requires
            self.stage is Start,
        ensures
            self.opens(events) <= 1,
            self.run(events).stage.descriptor() is Some ==> self.opens(events) == 1
                && self.releases(events) == 0,
            self.run(events).stage.descriptor() is None ==> self.releases(events) == self.opens(
                events,
            ),
            self.run(events).stage is Start ==> self.opens(events) == 0,
        decreases events.len(),
    {
        if events.len() > 0 {
            self.lemma_descriptor_released_once(events.drop_last());
        }
    }
}

/// The set-up of a raw network socket, step by step.
#[derive(Debug)]
pub struct IpSetup {
    ifname: String,
    version: IpVersion,
    stage: IpStage,
}

impl View for IpSetup {
    type V = IpSetupView;

    closed spec fn view(&self) -> IpSetupView {
        IpSetupView { ifname: self.ifname@, version: self.version, stage: self.stage@ }
    }
}

impl IpSetup {
    /// Begins the set-up of a raw socket of `version` on the interface
    /// `ifname`.
    pub fn new(ifname: &str, version: IpVersion) -> (setup: IpSetup)
        ensures
            setup@ == IpSetupView::start(ifname@, version),
    {
        IpSetup { ifname: String::from_str(ifname), version, stage: IpStage::Start }
    }

    /// The name of the interface the socket is set up on.
    pub fn interface(&self) -> (ifname: &str)
        ensures
            ifname@ == self@.ifname,
    {
        self.ifname.as_str()
    }

    /// The IP version of the socket.
    pub fn version(&self) -> (version: IpVersion)
        ensures
            version == self@.version,
    {
        self.version
    }

    /// How far the set-up has come.
    pub fn stage(&self) -> (stage: &IpStage)
        ensures
            stage@ == self@.stage,
    {
        &self.stage
    }

    /// What the driver has to do now.
    pub fn action(&self) -> (action: IpAction)
        ensures
            action == self@.action(),
    {
        match &self.stage {
            IpStage::Start => IpAction::Open { version: self.version },
            IpStage::Opened { fd } => IpAction::BindToDevice { fd: *fd },
            IpStage::DeviceBound { fd } => IpAction::IncludeHeader {
                fd: *fd,
                version: self.version,
            },
            IpStage::HeaderIncluded { fd } => IpAction::BindWildcard {
                fd: *fd,
                version: self.version,
            },
            IpStage::Bound { fd } => IpAction::Register { fd: *fd },
            IpStage::Ready { .. } => IpAction::Finished,
            IpStage::Releasing { fd, .. } => IpAction::Close { fd: *fd },
            IpStage::Failed { .. } => IpAction::Finished,
        }
    }

    /// Takes the outcome of the last action. Returns whether the event was
    /// the one asked for; any other event is ignored.
    pub fn advance(&mut self, event: SetupEvent) -> (accepted: bool)
        ensures
            accepted == old(self)@.expects(event@),
            final(self)@ == old(self)@.next(event@),
    {
        let mut stage = IpStage::Start;
        core::mem::swap(&mut self.stage, &mut stage);
        let (next, accepted) = match (stage, event) {
            (IpStage::Start, SetupEvent::Descriptor(fd)) => if fd >= 0 {
                (IpStage::Opened { fd }, true)
            } else {
                (IpStage::Start, false)
            },
            (IpStage::Start, SetupEvent::Failed(cause)) => (
                IpStage::Failed { error: SocketError::creation(&cause) },
                true,
            ),
            (IpStage::Opened { fd }, SetupEvent::Completed) => (IpStage::DeviceBound { fd }, true),
            (IpStage::Opened { fd }, SetupEvent::Failed(cause)) => (
                IpStage::Releasing {
                    fd,
                    error: SocketError::device_bind(self.ifname.as_str(), cause),
                },
                true,
            ),
            (IpStage::DeviceBound { fd }, SetupEvent::Completed) => (
                IpStage::HeaderIncluded { fd },
                true,
            ),
            (IpStage::HeaderIncluded { fd }, SetupEvent::Completed) => (IpStage::Bound { fd }, true),
            (IpStage::Bound { fd }, SetupEvent::Completed) => (IpStage::Ready { fd }, true),
            (IpStage::DeviceBound { fd }, SetupEvent::Failed(cause)) => (
                IpStage::Releasing { fd, error: SocketError::Os(cause.code) },
                true,
            ),
            (IpStage::HeaderIncluded { fd }, SetupEvent::Failed(cause)) => (
                IpStage::Releasing { fd, error: SocketError::Os(cause.code) },
                true,
            ),
            (IpStage::Bound { fd }, SetupEvent::Failed(cause)) => (
                IpStage::Releasing { fd, error: SocketError::Os(cause.code) },
                true,
            ),
            (IpStage::Releasing { fd, error }, SetupEvent::Completed) => (
                IpStage::Failed { error },
                true,
            ),
            (IpStage::Releasing { fd, error }, SetupEvent::Failed(_)) => (
                IpStage::Failed { error },
                true,
            ),
            (stage, _) => (stage, false),
        };
        self.stage = next;
        accepted
    }
}

/// The mathematical value of an [`IpSocket`].
pub struct IpSocketView {
    pub fd: i32,
    pub ifname: Seq<char>,
    pub version: IpVersion,
}

/// A raw network-layer socket that is ready for use. Its descriptor,
/// interface and IP version are fixed.
#[derive(Debug)]
pub struct IpSocket {
    fd: i32,
    ifname: String,
    version: IpVersion,
}

impl View for IpSocket {
    type V = IpSocketView;

    closed spec fn view(&self) -> IpSocketView {
        IpSocketView { fd: self.fd, ifname: self.ifname@, version: self.version }
    }
}

impl IpSetup {
    /// Ends the set-up: the socket where it is ready, the error where the
    /// set-up failed. A set-up that has not ended is handed back unchanged.
    pub fn finish(self) -> (outcome: Result<Result<IpSocket, SocketError>, IpSetup>)
        ensures
            match self@.stage {
                IpStageView::Ready { fd } => outcome matches Ok(Ok(socket)) && socket@ == (
                IpSocketView { fd, ifname: self@.ifname, version: self@.version }),
                IpStageView::Failed { error } => outcome matches Ok(Err(e)) && e@ == error,
                _ => outcome matches Err(setup) && setup@ == self@,
            },
    {
        match self.stage {
            IpStage::Ready { fd } => Ok(
                Ok(IpSocket { fd, ifname: self.ifname, version: self.version }),
            ),
            IpStage::Failed { error } => Ok(Err(error)),
            stage => Err(IpSetup { ifname: self.ifname, version: self.version, stage }),
        }
    }
}

impl IpSocket {
    /// Begins the set-up of a raw IPv4 socket on the interface `ifname`.
    pub fn new_v4(ifname: &str) -> (setup: IpSetup)
        ensures
            setup@ == IpSetupView::start(ifname@, IpVersion::V4),
    {
        IpSetup::new(ifname, IpVersion::V4)
    }

    /// Begins the set-up of a raw IPv6 socket on the interface `ifname`.
    pub fn new_v6(ifname: &str) -> (setup: IpSetup)
        ensures
            setup@ == IpSetupView::start(ifname@, IpVersion::V6),
    {
        IpSetup::new(ifname, IpVersion::V6)
    }

    /// The descriptor of the socket.
    pub fn descriptor(&self) -> (fd: i32)
        ensures
            fd == self@.fd,
    {
        self.fd
    }

    /// The name of the interface the socket is restricted to.
    pub fn interface(&self) -> (ifname: &str)
        ensures
            ifname@ == self@.ifname,
    {
        self.ifname.as_str()
    }

    /// The IP version of the socket.
    pub fn version(&self) -> (version: IpVersion)
        ensures
            version == self@.version,
    {
        self.version
    }

    /// Gives the socket up and hands out its descriptor, which is to be
    /// released now. The socket is gone with this call: nothing can be begun
    /// on it afterwards, and it cannot be given up twice.
    pub fn release(self) -> (fd: i32)
        ensures
            fd == self@.fd,
    {
        self.fd
    }

    /// Begins the receive of one packet into a buffer of `capacity` bytes.
    /// The socket is not changed: a receive that is given up leaves nothing
    /// behind, and the next one starts afresh.
    pub fn recv_packet(&self, capacity: usize) -> (transfer: Transfer)
        ensures
            transfer@ == TransferView::start(self@.fd, Direction::Read, capacity),
    {
        Transfer::new(self.fd, Direction::Read, capacity)
    }
}

} // verus!
