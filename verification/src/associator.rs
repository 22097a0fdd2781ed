//! The temporary switch to the camera's wireless network: a call that joins
//! the network, waits for the link, has a routine run, and goes back to the
//! network it came from. The call is a state machine that is told what its
//! caller found and answers with what to do next.

use vstd::prelude::*;
use crate::config::{Config, WifiConfig};
use crate::error::{failure_of, Error};
use crate::text::same_text;
use crate::wifi::{
    first_match, interface_names, network_names, string_views, WifiInterface, WifiNetwork,
};

verus! {

/// How long to wait between two looks at the link, in milliseconds.
pub const POLL_INTERVAL_MS: u64 = 200;

/// How long the link may take to come up, in milliseconds.
pub const TIMEOUT_MS: u64 = 30_000;

/// The connection state that the network service reports once an interface
/// has joined a network.
pub const COMPLETED: &'static str = "completed";

/// What became of the attempt to go back to the network in use before.
#[derive(Debug, Clone, Copy, PartialEq, Eq, Structural)]
pub enum Reversion {
    /// The network was never left, or was left in a way that is not undone.
    NotAttempted,
    /// The interface is back on the network it came from.
    Restored,
    /// The attempt was made and failed.
    Failed(Error),
}

/// How a call ended.
#[derive(Debug, Clone, Copy, PartialEq, Eq, Structural)]
pub struct Verdict {
    /// What the call returns: the routine's own failure if it ran, else what
    /// kept it from running; nothing if all went well.
    pub failure: Option<Error>,
    /// Whether the routine was run.
    pub ran: bool,
    pub reversion: Reversion,
}

/// What the caller is asked to do next.
#[derive(Debug, Clone, Copy, PartialEq, Eq, Structural)]
pub enum WifiAction {
    /// Ask the network service for its interfaces.
    ListInterfaces,
    /// Ask the interface for its current network and for the networks it knows.
    ReadNetworks,
    /// Ask the interface to select the camera's network.
    SelectCamera,
    /// Wait that long, then read the interface's connection state.
    AwaitAssociation { wait_ms: u64 },
    /// Wait that long, then ask the operating system which interfaces have an address.
    AwaitLink { wait_ms: u64 },
    /// Run the routine.
    Run,
    /// Ask the interface to select the network that it was on at the start.
    SelectOriginal,
    /// Wait that long, then read the interface's connection state.
    AwaitReversion { wait_ms: u64 },
    /// Nothing: the call is over.
    Finish(Verdict),
}

/// The stretch of a call that an action belongs to.
#[derive(Debug, Clone, Copy, PartialEq, Eq, Structural)]
pub enum Phase {
    /// The interface is on its own network: before anything was selected,
    /// and again when the call is over.
    Idle,
    /// The camera's network was selected, or is about to be, and the
    /// interface has not joined it yet.
    Associating,
    /// The interface has joined the camera's network and has no address yet.
    AwaitingLinkUp,
    /// The routine runs.
    InUse,
    /// The interface is on its way back to the network it came from.
    Reverting,
}

impl WifiAction {
    /// The stretch of the call that the action belongs to.
    pub open spec fn phase(self) -> Phase {
        match self {
            WifiAction::ListInterfaces | WifiAction::ReadNetworks | WifiAction::Finish(_) => {
                Phase::Idle
            },
            WifiAction::SelectCamera | WifiAction::AwaitAssociation { .. } => Phase::Associating,
            WifiAction::AwaitLink { .. } => Phase::AwaitingLinkUp,
            WifiAction::Run => Phase::InUse,
            WifiAction::SelectOriginal | WifiAction::AwaitReversion { .. } => Phase::Reverting,
        }
    }

    /// How far into a call the action stands: the begin is 0, the end is 5.
    pub open spec fn progress(self) -> int {
        match self {
            WifiAction::ListInterfaces | WifiAction::ReadNetworks => 0,
            WifiAction::SelectCamera | WifiAction::AwaitAssociation { .. } => 1,
            WifiAction::AwaitLink { .. } => 2,
            WifiAction::Run => 3,
            WifiAction::SelectOriginal | WifiAction::AwaitReversion { .. } => 4,
            WifiAction::Finish(_) => 5,
        }
    }
}

/// What the caller reports, reduced to what the decisions rest on.
pub enum Signal {
    /// The interfaces were listed; whether the configured one is among them.
    Interfaces { found: bool },
    /// The networks were read; whether the interface has a current network,
    /// and whether it knows the camera's.
    Networks { current: bool, camera: bool },
    /// A network was selected, or the request failed.
    Selected(Option<Error>),
    /// The connection state was read: whether it is "completed".
    State(Result<bool, Error>),
    /// The operating system was asked: whether the interface has an address.
    Link(Result<bool, Error>),
    /// The routine returned, well or with a failure.
    Returned(Option<Error>),
}

/// Where a call stands.
pub struct Course {
    /// What the caller has been asked to do.
    pub pending: WifiAction,
    /// How long the link has been waited for, in milliseconds.
    pub spent_ms: int,
    /// What the call will return, as far as it is known.
    pub failure: Option<Error>,
    /// Whether the routine was run.
    pub ran: bool,
    /// Whether the routine runs on the network as it is, without a switch.
    pub direct: bool,
}

impl Course {
    /// The call ends before the routine could run and without a way back
    /// being tried.
    pub open spec fn fail(self, e: Error) -> Course {
        Course {
            pending: WifiAction::Finish(
                Verdict { failure: Some(e), ran: false, reversion: Reversion::NotAttempted },
            ),
            failure: Some(e),
            ..self
        }
    }

    /// The way back begins; the call will return `failure`.
    pub open spec fn revert(self, failure: Option<Error>) -> Course {
        Course { pending: WifiAction::SelectOriginal, failure, ..self }
    }

    /// The call ends after the way back was tried.
    pub open spec fn end(self, reversion: Reversion) -> Course {
        Course {
            pending: WifiAction::Finish(Verdict { failure: self.failure, ran: self.ran, reversion }),
            ..self
        }
    }

    /// One more look at the link went by without result: the time is up, or
    /// the wait goes on.
    pub open spec fn out_of_time(self) -> bool {
        self.spent_ms + POLL_INTERVAL_MS > TIMEOUT_MS
    }

    /// Whether the way back is under way.
    pub open spec fn reverting(self) -> bool {
        self.pending is SelectOriginal || self.pending is AwaitReversion
    }
}

/// What a report makes of a call. A report that does not answer the pending
/// action changes nothing.
pub open spec fn step(c: Course, signal: Signal) -> Course {
    match (c.pending, signal) {
        (WifiAction::ListInterfaces, Signal::Interfaces { found }) => if found {
            Course { pending: WifiAction::ReadNetworks, ..c }
        } else {
            c.fail(Error::AssociationPrecondition)
        },
        (WifiAction::ReadNetworks, Signal::Networks { current, camera }) => if current && camera {
            Course { pending: WifiAction::SelectCamera, ..c }
        } else {
            c.fail(Error::AssociationPrecondition)
        },
        (WifiAction::SelectCamera, Signal::Selected(failure)) => match failure {
            Some(e) => c.fail(e),
            None => Course { pending: WifiAction::AwaitAssociation { wait_ms: 0 }, spent_ms: 0, ..c },
        },
        (WifiAction::AwaitAssociation { .. }, Signal::State(report)) => match report {
            Err(e) => c.fail(e),
            Ok(true) => Course { pending: WifiAction::AwaitLink { wait_ms: 0 }, ..c },
            Ok(false) => if c.out_of_time() {
                c.fail(Error::AssociationTimeout)
            } else {
                Course {
                    pending: WifiAction::AwaitAssociation { wait_ms: POLL_INTERVAL_MS },
                    spent_ms: c.spent_ms + POLL_INTERVAL_MS,
                    ..c
                }
            },
        },
        (WifiAction::AwaitLink { .. }, Signal::Link(report)) => match report {
            Err(e) => c.revert(Some(e)),
            Ok(true) => Course { pending: WifiAction::Run, ..c },
            Ok(false) => if c.out_of_time() {
                c.revert(Some(Error::AssociationTimeout))
            } else {
                Course {
                    pending: WifiAction::AwaitLink { wait_ms: POLL_INTERVAL_MS },
                    spent_ms: c.spent_ms + POLL_INTERVAL_MS,
                    ..c
                }
            },
        },
        (WifiAction::Run, Signal::Returned(failure)) => if c.direct {
            Course { failure, ran: true, ..c }.end(Reversion::NotAttempted)
        } else {
            Course { ran: true, ..c }.revert(failure)
        },
        (WifiAction::SelectOriginal, Signal::Selected(failure)) => match failure {
            Some(e) => c.end(Reversion::Failed(e)),
            None => Course { pending: WifiAction::AwaitReversion { wait_ms: 0 }, spent_ms: 0, ..c },
        },
        (WifiAction::AwaitReversion { .. }, Signal::State(report)) => match report {
            Err(e) => c.end(Reversion::Failed(e)),
            Ok(true) => c.end(Reversion::Restored),
            Ok(false) => if c.out_of_time() {
                c.end(Reversion::Failed(Error::AssociationTimeout))
            } else {
                Course {
                    pending: WifiAction::AwaitReversion { wait_ms: POLL_INTERVAL_MS },
                    spent_ms: c.spent_ms + POLL_INTERVAL_MS,
                    ..c
                }
            },
        },
        _ => c,
    }
}

/// A call that runs a routine while the interface is on the camera's
/// network, and puts the interface back on its own network afterwards. The
/// call decides; its caller talks to the network service, waits, runs the
/// routine and reports.
#[derive(Debug)]
pub struct Associator {
    config: Option<WifiConfig>,
    interface: Option<WifiInterface>,
    original: Option<WifiNetwork>,
    camera: Option<WifiNetwork>,
    pending: WifiAction,
    spent_ms: u64,
    failure: Option<Error>,
    ran: bool,
}

impl View for Associator {
    type V = Course;

    closed spec fn view(&self) -> Course {
        Course {
            pending: self.pending,
            spent_ms: self.spent_ms as int,
            failure: self.failure,
            ran: self.ran,
            direct: self.config is None,
        }
    }
}

/// The path and the name of an interface, if there is one.
pub open spec fn interface_view(interface: Option<WifiInterface>) -> Option<(Seq<char>, Seq<char>)> {
    match interface {
        Some(i) => Some((i.path@, i.name@)),
        None => None,
    }
}

/// The path and the name, as the service writes it, of a network, if there is one.
pub open spec fn network_view(network: Option<WifiNetwork>) -> Option<(Seq<char>, Seq<char>)> {
    match network {
        Some(n) => Some((n.path@, n.raw_ssid@)),
        None => None,
    }
}

impl Associator {
    #[verifier::type_invariant]
    closed spec fn well_formed(self) -> bool {
        &&& self.spent_ms <= TIMEOUT_MS
        &&& self.config is None ==> !(self.pending is ListInterfaces || self.pending
            is ReadNetworks)
    }

    /// The name of the interface to use; empty where the call makes no switch.
    pub closed spec fn spec_interface_name(&self) -> Seq<char> {
        match self.config {
            Some(c) => c.interface@,
            None => Seq::empty(),
        }
    }

    /// The name of the camera's network; empty where the call makes no switch.
    pub closed spec fn spec_ssid(&self) -> Seq<char> {
        match self.config {
            Some(c) => c.ssid@,
            None => Seq::empty(),
        }
    }

    pub closed spec fn spec_interface(&self) -> Option<(Seq<char>, Seq<char>)> {
        interface_view(self.interface)
    }

    pub closed spec fn spec_original(&self) -> Option<(Seq<char>, Seq<char>)> {
        network_view(self.original)
    }

    pub closed spec fn spec_camera(&self) -> Option<(Seq<char>, Seq<char>)> {
        network_view(self.camera)
    }

    /// The two calls differ in nothing but where they stand.
    pub open spec fn same_call(&self, other: &Associator) -> bool {
        &&& self.spec_interface_name() == other.spec_interface_name()
        &&& self.spec_ssid() == other.spec_ssid()
        &&& self@.direct == other@.direct
    }

    /// The two calls hold the same interface and networks.
    pub open spec fn same_parties(&self, other: &Associator) -> bool {
        &&& self.spec_interface() == other.spec_interface()
        &&& self.spec_original() == other.spec_original()
        &&& self.spec_camera() == other.spec_camera()
    }

    /// What the caller is asked to do now.
    pub fn pending(&self) -> (action: WifiAction)
        ensures
            action == self@.pending,
    {
        self.pending
    }

    /// The stretch of the call that is under way.
    pub fn phase(&self) -> (phase: Phase)
        ensures
            phase == self@.pending.phase(),
    {
        match self.pending {
            WifiAction::ListInterfaces | WifiAction::ReadNetworks | WifiAction::Finish(_) => {
                Phase::Idle
            },
            WifiAction::SelectCamera | WifiAction::AwaitAssociation { .. } => Phase::Associating,
            WifiAction::AwaitLink { .. } => Phase::AwaitingLinkUp,
            WifiAction::Run => Phase::InUse,
            WifiAction::SelectOriginal | WifiAction::AwaitReversion { .. } => Phase::Reverting,
        }
    }

    /// The interface that the call works on, once it was found.
    pub fn interface(&self) -> (interface: Option<&WifiInterface>)
        ensures
            interface is Some <==> self.spec_interface() is Some,
            interface matches Some(i) ==> Some((i.path@, i.name@)) == self.spec_interface(),
    {
        self.interface.as_ref()
    }

    /// The network that the interface was on when the call began.
    pub fn original_network(&self) -> (network: Option<&WifiNetwork>)
        ensures
            network is Some <==> self.spec_original() is Some,
            network matches Some(n) ==> Some((n.path@, n.raw_ssid@)) == self.spec_original(),
    {
        self.original.as_ref()
    }

    /// The camera's network, once it was found among those that the interface knows.
    pub fn camera_network(&self) -> (network: Option<&WifiNetwork>)
        ensures
            network is Some <==> self.spec_camera() is Some,
            network matches Some(n) ==> Some((n.path@, n.raw_ssid@)) == self.spec_camera(),
    {
        self.camera.as_ref()
    }

    fn fail(&mut self, e: Error)
        ensures
            final(self)@ == old(self)@.fail(e),
            final(self).same_call(old(self)),
            final(self).same_parties(old(self)),
    {
        proof {
            use_type_invariant(&*self);
        }
        self.failure = Some(e);
        self.pending = WifiAction::Finish(
            Verdict { failure: Some(e), ran: false, reversion: Reversion::NotAttempted },
        );
    }

    fn end(&mut self, reversion: Reversion)
        ensures
            final(self)@ == old(self)@.end(reversion),
            final(self).same_call(old(self)),
            final(self).same_parties(old(self)),
    {
        proof {
            use_type_invariant(&*self);
        }
        self.pending = WifiAction::Finish(Verdict { failure: self.failure, ran: self.ran, reversion });
    }

    fn revert(&mut self, failure: Option<Error>)
        ensures
            final(self)@ == old(self)@.revert(failure),
            final(self).same_call(old(self)),
            final(self).same_parties(old(self)),
    {
        proof {
            use_type_invariant(&*self);
        }
        self.failure = failure;
        self.pending = WifiAction::SelectOriginal;
    }

    /// Waits on, or finds that the time is up.
    fn wait_on(&mut self) -> (in_time: bool)
        ensures
            in_time == !old(self)@.out_of_time(),
            in_time ==> final(self)@ == (Course {
                spent_ms: old(self)@.spent_ms + POLL_INTERVAL_MS,
                ..old(self)@
            }),
            !in_time ==> final(self)@ == old(self)@,
            final(self).same_call(old(self)),
            final(self).same_parties(old(self)),
    {
        proof {
            use_type_invariant(&*self);
        }
        if self.spent_ms + POLL_INTERVAL_MS > TIMEOUT_MS {
            false
        } else {
            self.spent_ms = self.spent_ms + POLL_INTERVAL_MS;
            true
        }
    }

    /// Takes a report and says what to do next.
    pub fn advance(&mut self, signal: Signal) -> (action: WifiAction)
        ensures
            final(self)@ == step(old(self)@, signal),
            action == final(self)@.pending,
            final(self).same_call(old(self)),
            final(self).same_parties(old(self)),
    {
        proof {
            use_type_invariant(&*self);
        }
        match (self.pending, signal) {
            (WifiAction::ListInterfaces, Signal::Interfaces { found }) => {
                if found {
                    self.pending = WifiAction::ReadNetworks;
                } else {
                    self.fail(Error::AssociationPrecondition);
                }
            },
            (WifiAction::ReadNetworks, Signal::Networks { current, camera }) => {
                if current && camera {
                    self.pending = WifiAction::SelectCamera;
                } else {
                    self.fail(Error::AssociationPrecondition);
                }
            },
            (WifiAction::SelectCamera, Signal::Selected(failure)) => {
                match failure {
                    Some(e) => self.fail(e),
                    None => {
                        self.spent_ms = 0;
                        self.pending = WifiAction::AwaitAssociation { wait_ms: 0 };
                    },
                }
            },
            (WifiAction::AwaitAssociation { .. }, Signal::State(report)) => {
                match report {
                    Err(e) => self.fail(e),
                    Ok(true) => {
                        self.pending = WifiAction::AwaitLink { wait_ms: 0 };
                    },
                    Ok(false) => {
                        if self.wait_on() {
                            self.pending = WifiAction::AwaitAssociation { wait_ms: POLL_INTERVAL_MS };
                        } else {
                            self.fail(Error::AssociationTimeout);
                        }
                    },
                }
            },
            (WifiAction::AwaitLink { .. }, Signal::Link(report)) => {
                match report {
                    Err(e) => self.revert(Some(e)),
                    Ok(true) => {
                        self.pending = WifiAction::Run;
                    },
                    Ok(false) => {
                        if self.wait_on() {
                            self.pending = WifiAction::AwaitLink { wait_ms: POLL_INTERVAL_MS };
                        } else {
                            self.revert(Some(Error::AssociationTimeout));
                        }
                    },
                }
            },
            (WifiAction::Run, Signal::Returned(failure)) => {
                self.ran = true;
                if self.config.is_none() {
                    self.failure = failure;
                    self.end(Reversion::NotAttempted);
                } else {
                    self.revert(failure);
                }
            },
            (WifiAction::SelectOriginal, Signal::Selected(failure)) => {
                match failure {
                    Some(e) => self.end(Reversion::Failed(e)),
                    None => {
                        self.spent_ms = 0;
                        self.pending = WifiAction::AwaitReversion { wait_ms: 0 };
                    },
                }
            },
            (WifiAction::AwaitReversion { .. }, Signal::State(report)) => {
                match report {
                    Err(e) => self.end(Reversion::Failed(e)),
                    Ok(true) => self.end(Reversion::Restored),
                    Ok(false) => {
                        if self.wait_on() {
                            self.pending = WifiAction::AwaitReversion { wait_ms: POLL_INTERVAL_MS };
                        } else {
                            self.end(Reversion::Failed(Error::AssociationTimeout));
                        }
                    },
                }
            },
            _ => {},
        }
        self.pending
    }

    /// Takes the interfaces that the network service lists. The first that
    /// has the configured name is the one to work on.
    pub fn interfaces_listed(&mut self, interfaces: &Vec<WifiInterface>) -> (action: WifiAction)
        ensures
            final(self)@ == step(
                old(self)@,
                Signal::Interfaces {
                    found: first_match(
                        interface_names(interfaces@),
                        old(self).spec_interface_name(),
                    ) is Some,
                },
            ),
            action == final(self)@.pending,
            final(self).same_call(old(self)),
            final(self).spec_original() == old(self).spec_original(),
            final(self).spec_camera() == old(self).spec_camera(),
            final(self).spec_interface() == if old(self)@.pending is ListInterfaces {
                match first_match(interface_names(interfaces@), old(self).spec_interface_name()) {
                    Some(at) => Some((interfaces@[at].path@, interfaces@[at].name@)),
                    None => old(self).spec_interface(),
                }
            } else {
                old(self).spec_interface()
            },
    {
        proof {
            use_type_invariant(&*self);
        }
        let found = match (self.pending, &self.config) {
            (WifiAction::ListInterfaces, Some(config)) => WifiInterface::find(
                interfaces,
                config.interface.as_str(),
            ),
            _ => None,
        };
        match found {
            Some(at) => {
                self.interface = Some(interfaces[at].clone());
                self.advance(Signal::Interfaces { found: true })
            },
            None => self.advance(Signal::Interfaces { found: false }),
        }
    }

    /// Takes the interface's current network and the networks that it knows.
    /// The first of them that has the configured name is the camera's.
    pub fn networks_read(&mut self, current: Option<WifiNetwork>, known: &Vec<WifiNetwork>) -> (action: WifiAction)
        ensures
            final(self)@ == step(
                old(self)@,
                Signal::Networks {
                    current: current is Some,
                    camera: first_match(network_names(known@), old(self).spec_ssid()) is Some,
                },
            ),
            action == final(self)@.pending,
            final(self).same_call(old(self)),
            final(self).spec_interface() == old(self).spec_interface(),
            final(self).spec_original() == if old(self)@.pending is ReadNetworks {
                network_view(current)
            } else {
                old(self).spec_original()
            },
            final(self).spec_camera() == if old(self)@.pending is ReadNetworks {
                match first_match(network_names(known@), old(self).spec_ssid()) {
                    Some(at) => Some((known@[at].path@, known@[at].raw_ssid@)),
                    None => old(self).spec_camera(),
                }
            } else {
                old(self).spec_camera()
            },
    {
        proof {
            use_type_invariant(&*self);
        }
        let found = match (self.pending, &self.config) {
            (WifiAction::ReadNetworks, Some(config)) => WifiInterface::find_network(
                known,
                config.ssid.as_str(),
            ),
            _ => None,
        };
        let has_current = current.is_some();
        if let WifiAction::ReadNetworks = self.pending {
            self.original = current;
        }
        match found {
            Some(at) => {
                self.camera = Some(known[at].clone());
                self.advance(Signal::Networks { current: has_current, camera: true })
            },
            None => self.advance(Signal::Networks { current: has_current, camera: false }),
        }
    }

    /// Takes the report on the request to select a network.
    pub fn selected(&mut self, report: Result<(), Error>) -> (action: WifiAction)
        ensures
            final(self)@ == step(old(self)@, Signal::Selected(failure_of(report))),
            action == final(self)@.pending,
            final(self).same_call(old(self)),
            final(self).same_parties(old(self)),
    {
        match report {
            Ok(_) => self.advance(Signal::Selected(None)),
            Err(e) => self.advance(Signal::Selected(Some(e))),
        }
    }

    /// Takes the interface's connection state as the service reports it.
    pub fn state_read(&mut self, report: Result<&str, Error>) -> (action: WifiAction)
        ensures
            final(self)@ == step(
                old(self)@,
                Signal::State(
                    match report {
                        Ok(state) => Ok(state@ == COMPLETED@),
                        Err(e) => Err(e),
                    },
                ),
            ),
            action == final(self)@.pending,
            final(self).same_call(old(self)),
            final(self).same_parties(old(self)),
    {
        match report {
            Ok(state) => {
                let completed = same_text(state, COMPLETED);
                self.advance(Signal::State(Ok(completed)))
            },
            Err(e) => self.advance(Signal::State(Err(e))),
        }
    }

    /// Takes the names of the interfaces that have an address, as the
    /// operating system lists them.
    pub fn link_checked(&mut self, report: Result<&Vec<String>, Error>) -> (action: WifiAction)
        ensures
            final(self)@ == step(
                old(self)@,
                Signal::Link(
                    match report {
                        Ok(addressed) => Ok(
                            old(self).spec_interface() matches Some(i) && string_views(
                                addressed@,
                            ).contains(i.1),
                        ),
                        Err(e) => Err(e),
                    },
                ),
            ),
            action == final(self)@.pending,
            final(self).same_call(old(self)),
            final(self).same_parties(old(self)),
    {
        match report {
            Ok(addressed) => {
                let up = match &self.interface {
                    Some(interface) => interface.is_up(addressed),
                    None => false,
                };
                self.advance(Signal::Link(Ok(up)))
            },
            Err(e) => self.advance(Signal::Link(Err(e))),
        }
    }

    /// Takes the routine's result.
    pub fn returned(&mut self, report: Result<(), Error>) -> (action: WifiAction)
        ensures
            final(self)@ == step(old(self)@, Signal::Returned(failure_of(report))),
            action == final(self)@.pending,
            final(self).same_call(old(self)),
            final(self).same_parties(old(self)),
    {
        match report {
            Ok(_) => self.advance(Signal::Returned(None)),
            Err(e) => self.advance(Signal::Returned(Some(e))),
        }
    }
}

/// Where every call begins that switches networks.
pub open spec fn switching_start() -> Course {
    Course {
        pending: WifiAction::ListInterfaces,
        spent_ms: 0,
        failure: None,
        ran: false,
        direct: false,
    }
}

/// Where every call begins that runs the routine on the network as it is.
pub open spec fn direct_start() -> Course {
    Course { pending: WifiAction::Run, spent_ms: 0, failure: None, ran: false, direct: true }
}

/// Begins a call that runs a routine on the camera's network.
pub fn with_temporary_network(config: &WifiConfig) -> (call: Associator)
    ensures
        call@ == switching_start(),
        call.spec_interface_name() == config.interface@,
        call.spec_ssid() == config.ssid@,
        call.spec_interface() is None,
        call.spec_original() is None,
        call.spec_camera() is None,
{
    Associator {
        config: Some(config.clone()),
        interface: None,
        original: None,
        camera: None,
        pending: WifiAction::ListInterfaces,
        spent_ms: 0,
        failure: None,
        ran: false,
    }
}

/// Begins a call that runs a routine as the configuration asks: on the
/// camera's network where it names one, else on the network as it is.
pub fn run_transfers(config: &Config) -> (call: Associator)
    ensures
        call.spec_interface() is None,
        call.spec_original() is None,
        call.spec_camera() is None,
        match config.wifi {
            Some(wifi) => call@ == switching_start() && call.spec_interface_name()
                == wifi.interface@ && call.spec_ssid() == wifi.ssid@,
            None => call@ == direct_start(),
        },
{
    match &config.wifi {
        Some(wifi) => with_temporary_network(wifi),
        None => Associator {
            config: None,
            interface: None,
            original: None,
            camera: None,
            pending: WifiAction::Run,
            spent_ms: 0,
            failure: None,
            ran: false,
        },
    }
}


/// A call only moves forward: from idle through associating, waiting for the
/// link, the routine and the way back to idle again. Stretches may be left
/// out (a call that fails ends at once, a link that does not come up is
/// followed by the way back), and none comes twice.
pub proof fn lemma_phases_follow_in_order(c: Course, signal: Signal)
    ensures
        step(c, signal).pending.progress() >= c.pending.progress(),
        c.pending is Finish ==> step(c, signal) == c,
        step(c, signal).direct == c.direct,
{
}

/// Waiting uses up time: a look at the link that finds it not ready, and
/// after which the call still waits for the same thing, has added an
/// interval to the time spent, which never exceeds the time allowed.
pub proof fn lemma_waiting_uses_time(c: Course, signal: Signal)
    requires
        c.pending is AwaitAssociation || c.pending is AwaitLink || c.pending is AwaitReversion,
        signal == Signal::State(Ok(false)) || signal == Signal::Link(Ok(false)),
        step(c, signal).pending.progress() == c.pending.progress(),
        step(c, signal) != c,
    ensures
        step(c, signal).spent_ms == c.spent_ms + POLL_INTERVAL_MS,
        step(c, signal).spent_ms <= TIMEOUT_MS,
{
}

/// The routine is asked for only once the link is up, and the link is
/// waited for only once the interface has joined the camera's network.
pub proof fn lemma_routine_needs_the_link(c: Course, signal: Signal)
    ensures
        step(c, signal).pending is Run ==> c.pending is Run || (c.pending is AwaitLink && signal
            == Signal::Link(Ok(true))),
        step(c, signal).pending is AwaitLink ==> c.pending is AwaitLink || (c.pending
            is AwaitAssociation && signal == Signal::State(Ok(true))),
        step(c, signal).ran ==> c.ran || c.pending is Run,
{
}

/// Once the routine has returned on the camera's network, however it went,
/// the next thing asked for is to select the network that the interface
/// came from; what the routine returned is kept for the end of the call.
pub proof fn lemma_routine_is_followed_by_reversion(c: Course, failure: Option<Error>)
    requires
        c.pending is Run,
        !c.direct,
    ensures
        step(c, Signal::Returned(failure)).pending is SelectOriginal,
        step(c, Signal::Returned(failure)).failure == failure,
        step(c, Signal::Returned(failure)).ran,
{
}

/// On the way back nothing changes what the call returns: every report
/// either leaves the call on the way back, or ends it with a verdict that
/// carries what the routine returned and says how the way back went.
pub proof fn lemma_reversion_keeps_the_failure(c: Course, signal: Signal)
    requires
        c.reverting(),
    ensures
        ({
            let next = step(c, signal);
            ||| next.reverting() && next.failure == c.failure && next.ran == c.ran
            ||| next.pending matches WifiAction::Finish(verdict) && verdict.failure == c.failure
                && verdict.ran == c.ran && verdict.reversion != Reversion::NotAttempted
        }),
{
}

/// A run without the switch asks for the routine and for nothing else.
pub proof fn lemma_direct_run(failure: Option<Error>)
    ensures
        step(direct_start(), Signal::Returned(failure)).pending == WifiAction::Finish(
            Verdict { failure, ran: true, reversion: Reversion::NotAttempted },
        ),
{
}

/// The call after the same report has come in a number of times in a row.
pub open spec fn after_reports(c: Course, signal: Signal, times: nat) -> Course
    decreases times,
{
    if times == 0 {
        c
    } else {
        step(after_reports(c, signal, (times - 1) as nat), signal)
    }
}

/// If the connection state is read again and again and never is
/// "completed", the call waits through 150 intervals, half a minute in all,
/// and ends at the next reading with a timeout: the routine has not run and
/// no way back is tried.
pub proof fn lemma_association_times_out(c: Course, readings: nat)
    requires
        c.pending is AwaitAssociation,
        c.spent_ms == 0,
        readings <= 151,
    ensures
        readings <= 150 ==> after_reports(c, Signal::State(Ok(false)), readings).pending
            is AwaitAssociation,
        after_reports(c, Signal::State(Ok(false)), readings).spent_ms == if readings <= 150 {
            POLL_INTERVAL_MS * readings
        } else {
            TIMEOUT_MS as int
        },
        after_reports(c, Signal::State(Ok(false)), readings).ran == c.ran,
        readings == 151 ==> after_reports(c, Signal::State(Ok(false)), readings).pending
            == WifiAction::Finish(
            Verdict {
                failure: Some(Error::AssociationTimeout),
                ran: false,
                reversion: Reversion::NotAttempted,
            },
        ),
    decreases readings,
{
    if readings > 0 {
        lemma_association_times_out(c, (readings - 1) as nat);
    }
}

/// While the interface has not joined the camera's network, no report
/// makes the call ask for the routine, and one that ends the call ends it
/// with a failure and without the routine having run.
pub proof fn lemma_no_routine_before_association(c: Course, signal: Signal)
    requires
        c.pending is AwaitAssociation,
        signal != Signal::State(Ok(true)),
    ensures
        ({
            let next = step(c, signal);
            ||| next.pending is AwaitAssociation && next.ran == c.ran
            ||| next.pending matches WifiAction::Finish(verdict) && verdict.failure is Some
                && !verdict.ran && verdict.reversion == Reversion::NotAttempted
        }),
{
}

} // verus!
