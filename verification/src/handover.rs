//! Taking over inherited descriptors.
//!
//! A [`Handover`] decides what has to be done to the descriptors and in which order. It asks
//! for one thing at a time, and what the operating system answers decides what comes next.
//! The caller owns the descriptors and carries out the requests.

use vstd::prelude::*;

use crate::activation_name::ActivationName;
use crate::activation_sockets::ActivationSockets;
use crate::error::{ActivationError, DescriptorProblem, Errno, ListenerProblem, Refusal};

verus! {

/// The first descriptor after the standard streams.
pub const FIRST_INHERITED_FD: i32 = 3;

/// The communication style of a socket.
#[derive(Clone, Copy, Debug, PartialEq, Eq, Structural)]
pub enum SocketType {
    Stream,
    Datagram,
    SeqPacket,
    Raw,
    Rdm,
    Unknown,
}

/// What can be asked for of a descriptor.
#[derive(Clone, Copy, Debug, PartialEq, Eq, Structural)]
pub enum Action {
    /// Find out whether `raw_fd` is open and, if so, take it over.
    CheckOpen { raw_fd: i32 },
    /// Read what type of socket the descriptor is.
    ReadSocketType,
    /// Read whether the socket accepts connections.
    ReadListenState,
    /// Turn the socket into a listener that does not block.
    SetNonblocking,
    /// Read the local address of the listener and, if there is one, hand the listener over.
    ReadLocalAddress,
    /// Close the descriptor.
    Close,
}

/// Something to be done to the descriptor at `index`.
#[derive(Clone, Copy, Debug, PartialEq, Eq, Structural)]
pub struct Request {
    pub index: usize,
    pub action: Action,
}

/// What came of a request.
#[derive(Debug, PartialEq, Eq)]
pub enum Reply<L> {
    Open(Result<(), Errno>),
    SocketType(Result<SocketType, Errno>),
    ListenState(Result<bool, Errno>),
    Nonblocking(Result<(), Errno>),
    LocalAddress(Result<L, Errno>),
    Closed,
}

/// What a handover is waiting for.
#[derive(Clone, Copy, Debug, PartialEq, Eq, Structural)]
pub enum Stage {
    CheckOpen,
    SocketType,
    ListenState,
    Nonblocking,
    LocalAddress,
    Close,
    Done,
}

/// A handover under way.
pub struct Handover<L> {
    fd_names: Vec<Option<ActivationName>>,
    position: usize,
    stage: Stage,
    sockets: ActivationSockets<L>,
}

/// The state of a [`Handover`].
#[verifier::ext_equal]
pub struct HandoverState<L> {
    /// The names of the descriptors.
    pub names: Seq<Option<ActivationName>>,
    /// The descriptor that it is about to deal with.
    pub position: nat,
    /// What it is waiting for.
    pub stage: Stage,
    /// The listeners taken over so far.
    pub sockets: Map<ActivationName, L>,
}

/// The number of the inherited descriptor at `index`. Past the largest `i32` it wraps around.
pub open spec fn raw_fd_at(index: usize) -> i32 {
    (index as i32).wrapping_add(FIRST_INHERITED_FD)
}

/// Why a socket of the type read is no TCP socket.
pub open spec fn type_problem(read: Result<SocketType, Errno>) -> Option<ListenerProblem> {
    match read {
        Err(cause) => Some(ListenerProblem::TypeUnreadable(cause)),
        Ok(SocketType::Stream) => None,
        Ok(_) => Some(ListenerProblem::NotTcp),
    }
}

/// Why a socket in the state read is no listener. A system that cannot tell is trusted.
pub open spec fn listen_problem(read: Result<bool, Errno>) -> Option<ListenerProblem> {
    match read {
        Err(Errno::NoProtocolOption) => None,
        Err(cause) => Some(ListenerProblem::ListenStateUnreadable(cause)),
        Ok(true) => None,
        Ok(false) => Some(ListenerProblem::NotListening),
    }
}

impl<L> Reply<L> {
    /// Tells whether this is the kind of reply that `action` calls for.
    pub open spec fn answers(self, action: Action) -> bool {
        match action {
            Action::CheckOpen { .. } => self is Open,
            Action::ReadSocketType => self is SocketType,
            Action::ReadListenState => self is ListenState,
            Action::SetNonblocking => self is Nonblocking,
            Action::ReadLocalAddress => self is LocalAddress,
            Action::Close => self is Closed,
        }
    }
}

impl<L> HandoverState<L> {
    /// The state in which the descriptor at `position` is looked at for the first time.
    pub open spec fn entering(
        names: Seq<Option<ActivationName>>,
        position: nat,
        sockets: Map<ActivationName, L>,
    ) -> Self {
        let stage = if position >= names.len() {
            Stage::Done
        } else if names[position as int] is Some {
            Stage::SocketType
        } else {
            Stage::Close
        };
        HandoverState { names, position, stage, sockets }
    }

    /// The state in which no descriptor has been checked yet.
    pub open spec fn start(names: Seq<Option<ActivationName>>) -> Self {
        if names.len() == 0 {
            HandoverState::entering(names, 0, Map::empty())
        } else {
            HandoverState { names, position: 0, stage: Stage::CheckOpen, sockets: Map::empty() }
        }
    }

    /// Every state that a handover can be in satisfies this.
    pub open spec fn valid(self) -> bool {
        match self.stage {
            Stage::Done => self.position == self.names.len(),
            Stage::CheckOpen => self.position < self.names.len() && self.sockets
                == Map::<ActivationName, L>::empty(),
            Stage::Close => self.position < self.names.len() && self.names[self.position as int]
                is None,
            _ => self.position < self.names.len() && self.names[self.position as int] is Some,
        }
    }

    /// The name of the descriptor being dealt with.
    pub open spec fn name(self) -> ActivationName {
        self.names[self.position as int]->0
    }

    /// What is to be done next, if anything is left.
    pub open spec fn request(self) -> Option<Request> {
        let index = self.position as usize;
        match self.stage {
            Stage::CheckOpen => Some(
                Request { index, action: Action::CheckOpen { raw_fd: raw_fd_at(index) } },
            ),
            Stage::SocketType => Some(Request { index, action: Action::ReadSocketType }),
            Stage::ListenState => Some(Request { index, action: Action::ReadListenState }),
            Stage::Nonblocking => Some(Request { index, action: Action::SetNonblocking }),
            Stage::LocalAddress => Some(Request { index, action: Action::ReadLocalAddress }),
            Stage::Close => Some(Request { index, action: Action::Close }),
            Stage::Done => None,
        }
    }

    /// This state with another stage.
    pub open spec fn at_stage(self, stage: Stage) -> Self {
        HandoverState { stage, ..self }
    }

    /// The problem `problem` of the listener being dealt with.
    pub open spec fn listener_problem(self, problem: ListenerProblem) -> DescriptorProblem {
        DescriptorProblem::Listener { name: self.name(), problem }
    }

    /// What follows from a reply: the next state, or the problem that ends the handover.
    pub open spec fn step(self, reply: Reply<L>) -> Result<Self, DescriptorProblem> {
        match reply {
            Reply::Open(Ok(_)) => if self.position + 1 < self.names.len() {
                Ok(HandoverState { position: self.position + 1, ..self })
            } else {
                Ok(HandoverState::entering(self.names, 0, self.sockets))
            },
            Reply::Open(Err(cause)) => Err(
                DescriptorProblem::NotOpen { raw_fd: raw_fd_at(self.position as usize), cause },
            ),
            Reply::SocketType(read) => match type_problem(read) {
                Some(problem) => Err(self.listener_problem(problem)),
                None => Ok(self.at_stage(Stage::ListenState)),
            },
            Reply::ListenState(read) => match listen_problem(read) {
                Some(problem) => Err(self.listener_problem(problem)),
                None => Ok(self.at_stage(Stage::Nonblocking)),
            },
            Reply::Nonblocking(Err(cause)) => Err(
                self.listener_problem(ListenerProblem::NonblockingFailed(cause)),
            ),
            Reply::Nonblocking(Ok(_)) => Ok(self.at_stage(Stage::LocalAddress)),
            Reply::LocalAddress(Err(cause)) => Err(
                self.listener_problem(ListenerProblem::AddressUnreadable(cause)),
            ),
            Reply::LocalAddress(Ok(listener)) => Ok(
                HandoverState::entering(
                    self.names,
                    self.position + 1,
                    self.sockets.insert(self.name(), listener),
                ),
            ),
            Reply::Closed => Ok(
                HandoverState::entering(self.names, self.position + 1, self.sockets),
            ),
        }
    }

    /// How many more requests there can be at most.
    pub open spec fn requests_left(self) -> nat {
        let per_descriptor: nat = 4;
        let done_here: nat = match self.stage {
            Stage::ListenState => 1,
            Stage::Nonblocking => 2,
            Stage::LocalAddress => 3,
            _ => 0,
        };
        let from_here = (self.names.len() - self.position) as nat;
        if self.stage is CheckOpen {
            from_here + per_descriptor * self.names.len()
        } else {
            (per_descriptor * from_here - done_here) as nat
        }
    }
}

impl<L> View for Handover<L> {
    type V = HandoverState<L>;

    closed spec fn view(&self) -> HandoverState<L> {
        HandoverState {
            names: self.fd_names@,
            position: self.position as nat,
            stage: self.stage,
            sockets: self.sockets@,
        }
    }
}

/// Checks that a descriptor is a TCP socket.
fn validate_socket_type(read: Result<SocketType, Errno>) -> (checked: Result<(), ListenerProblem>)
    ensures
        match checked {
            Ok(_) => type_problem(read) is None,
            Err(problem) => type_problem(read) == Some(problem),
        },
{
    match read {
        Ok(SocketType::Stream) => Ok(()),
        Ok(_) => Err(ListenerProblem::NotTcp),
        Err(cause) => Err(ListenerProblem::TypeUnreadable(cause)),
    }
}

/// Checks that a socket accepts connections.
fn validate_listen_state(read: Result<bool, Errno>) -> (checked: Result<(), ListenerProblem>)
    ensures
        match checked {
            Ok(_) => listen_problem(read) is None,
            Err(problem) => listen_problem(read) == Some(problem),
        },
{
    match read {
        Ok(accept_conn) => if accept_conn {
            Ok(())
        } else {
            Err(ListenerProblem::NotListening)
        },
        Err(Errno::NoProtocolOption) => Ok(()),
        Err(cause) => Err(ListenerProblem::ListenStateUnreadable(cause)),
    }
}

/// Returns the number of the inherited descriptor at `index`.
fn inherited_raw_fd(index: usize) -> (raw_fd: i32)
    ensures
        raw_fd == raw_fd_at(index),
{
    #[verifier::truncate]
    let offset: i32 = index as i32;
    offset.wrapping_add(FIRST_INHERITED_FD)
}

/// Reports a problem with the listener that the descriptor at `index` is named for.
fn listener_error(
    fd_names: &Vec<Option<ActivationName>>,
    index: usize,
    problem: ListenerProblem,
) -> (error: ActivationError)
    requires
        index < fd_names@.len(),
        fd_names@[index as int] is Some,
    ensures
        error@ == Refusal::Descriptors(
            DescriptorProblem::Listener { name: fd_names@[index as int]->0, problem },
        ),
{
    let name = fd_names[index].unwrap();
    ActivationError::Descriptors(DescriptorProblem::Listener { name, problem })
}

impl<L> Handover<L> {
    /// Every handover satisfies this.
    pub closed spec fn wf(&self) -> bool {
        &&& self@.valid()
        &&& self.sockets.wf()
    }

    /// Begins with descriptors that still have to be found open.
    pub fn start(fd_names: Vec<Option<ActivationName>>) -> (handover: Self)
        ensures
            handover.wf(),
            handover@ == HandoverState::<L>::start(fd_names@),
    {
        let stage = if fd_names.len() == 0 {
            Stage::Done
        } else {
            Stage::CheckOpen
        };
        Handover { fd_names, position: 0, stage, sockets: ActivationSockets::default() }
    }

    /// Begins with `fd_count` descriptors that are known to be open.
    pub fn adopt(fd_names: Vec<Option<ActivationName>>, fd_count: usize) -> (handover: Result<
        Self,
        ActivationError,
    >)
        ensures
            match handover {
                Ok(handover) => {
                    &&& fd_names@.len() == fd_count
                    &&& handover.wf()
                    &&& handover@ == HandoverState::<L>::entering(fd_names@, 0, Map::empty())
                },
                Err(error) => {
                    &&& fd_names@.len() != fd_count
                    &&& error@ == Refusal::Descriptors(
                        DescriptorProblem::CountMismatch {
                            expected: fd_names@.len() as usize,
                            received: fd_count,
                        },
                    )
                },
            },
    {
        if fd_names.len() != fd_count {
            return Err(
                ActivationError::Descriptors(
                    DescriptorProblem::CountMismatch {
                        expected: fd_names.len(),
                        received: fd_count,
                    },
                ),
            );
        }
        Ok(Handover::enter(fd_names, 0, ActivationSockets::default()))
    }

    /// Goes on to the descriptor at `position`.
    fn enter(
        fd_names: Vec<Option<ActivationName>>,
        position: usize,
        sockets: ActivationSockets<L>,
    ) -> (handover: Self)
        requires
            position <= fd_names@.len(),
            sockets.wf(),
        ensures
            handover.wf(),
            handover@ == HandoverState::entering(fd_names@, position as nat, sockets@),
    {
        let stage = if position >= fd_names.len() {
            Stage::Done
        } else if fd_names[position].is_some() {
            Stage::SocketType
        } else {
            Stage::Close
        };
        Handover { fd_names, position, stage, sockets }
    }

    /// Returns what is to be done next, if anything is left.
    pub fn request(&self) -> (request: Option<Request>)
        requires
            self.wf(),
        ensures
            request == self@.request(),
    {
        let index: usize = self.position;
        let action = match self.stage {
            Stage::CheckOpen => Action::CheckOpen { raw_fd: inherited_raw_fd(index) },
            Stage::SocketType => Action::ReadSocketType,
            Stage::ListenState => Action::ReadListenState,
            Stage::Nonblocking => Action::SetNonblocking,
            Stage::LocalAddress => Action::ReadLocalAddress,
            Stage::Close => Action::Close,
            Stage::Done => {
                return None;
            },
        };
        Some(Request { index, action })
    }

    /// Goes on with the reply to the request.
    ///
    /// A reply that reports a problem ends the handover: what was taken over so far is given
    /// up with it.
    pub fn step(self, reply: Reply<L>) -> (next: Result<Self, ActivationError>)
        requires
            self.wf(),
            self@.request() matches Some(request) && reply.answers(request.action),
        ensures
            match self@.step(reply) {
                Ok(state) => next matches Ok(handover) && handover.wf() && handover@ == state,
                Err(problem) => next matches Err(error) && error@ == Refusal::Descriptors(problem),
            },
    {
        let Handover { fd_names, position, stage, sockets } = self;
        let count: usize = fd_names.len();
        match reply {
            Reply::Open(Ok(_)) => {
                if position + 1 < count {
                    Ok(Handover { fd_names, position: position + 1, stage, sockets })
                } else {
                    Ok(Handover::enter(fd_names, 0, sockets))
                }
            },
            Reply::Open(Err(cause)) => Err(
                ActivationError::Descriptors(
                    DescriptorProblem::NotOpen { raw_fd: inherited_raw_fd(position), cause },
                ),
            ),
            Reply::SocketType(read) => match validate_socket_type(read) {
                Ok(_) => Ok(Handover { fd_names, position, stage: Stage::ListenState, sockets }),
                Err(problem) => Err(listener_error(&fd_names, position, problem)),
            },
            Reply::ListenState(read) => match validate_listen_state(read) {
                Ok(_) => Ok(Handover { fd_names, position, stage: Stage::Nonblocking, sockets }),
                Err(problem) => Err(listener_error(&fd_names, position, problem)),
            },
            Reply::Nonblocking(Ok(_)) => Ok(
                Handover { fd_names, position, stage: Stage::LocalAddress, sockets },
            ),
            Reply::Nonblocking(Err(cause)) => Err(
                listener_error(&fd_names, position, ListenerProblem::NonblockingFailed(cause)),
            ),
            Reply::LocalAddress(Ok(listener)) => {
                let mut sockets = sockets;
                if let Some(name) = fd_names[position] {
                    sockets.insert(name, listener);
                }
                Ok(Handover::enter(fd_names, position + 1, sockets))
            },
            Reply::LocalAddress(Err(cause)) => Err(
                listener_error(&fd_names, position, ListenerProblem::AddressUnreadable(cause)),
            ),
            Reply::Closed => Ok(Handover::enter(fd_names, position + 1, sockets)),
        }
    }

    /// Returns the listeners, once nothing is left to be done.
    pub fn finish(self) -> (sockets: ActivationSockets<L>)
        requires
            self.wf(),
            self@.request() is None,
        ensures
            sockets.wf(),
            sockets@ == self@.sockets,
    {
        self.sockets
    }
}

/// Every handover that the library gives out is in a valid state, which is what the laws
/// about its steps ask for.
pub proof fn law_handover_is_in_a_valid_state<L>(handover: Handover<L>)
    requires
        handover.wf(),
    ensures
        handover@.valid(),
{
}

/// Inherited descriptors are numbered one after another, the first one right after the
/// standard streams.
pub proof fn law_inherited_descriptors_are_consecutive(index: usize)
    requires
        index <= i32::MAX - FIRST_INHERITED_FD,
    ensures
        raw_fd_at(index) == FIRST_INHERITED_FD + index,
{
}

/// Once the descriptors have been found open, one without a supported name is closed and
/// nothing else is asked of it, and one with a supported name is never closed.
pub proof fn law_only_unsupported_descriptors_are_closed<L>(state: HandoverState<L>)
    requires
        state.valid(),
        !(state.stage is CheckOpen),
        state.request() is Some,
    ensures
        state.request()->0.action is Close <==> state.names[state.position as int] is None,
{
}

/// The names of a handover are no more than a machine can count.
proof fn lemma_names_fit<L>(handover: Handover<L>)
    ensures
        handover@.names.len() <= usize::MAX,
{
    assert(handover.fd_names.len() <= usize::MAX);
}

/// Whenever a handover asks for a descriptor to be found open, it asks for the number that
/// follows the three standard streams by as much as the descriptor follows the first.
pub proof fn law_open_check_is_for_the_descriptors_own_number<L>(
    handover: Handover<L>,
    request: Option<Request>,
    index: usize,
    raw_fd: i32,
)
    requires
        handover.wf(),
        call_ensures(Handover::<L>::request, (&handover,), request),
        request == Some(Request { index, action: Action::CheckOpen { raw_fd } }),
        index <= i32::MAX - 3,
    ensures
        raw_fd == 3 + index,
        index < handover@.names.len(),
{
    lemma_names_fit(handover);
}

/// A handover of any number of descriptors asks for each of them to be found open, once and
/// in order: first for number three at index zero, and after each that is open for the next
/// number at the next index.
pub proof fn law_every_descriptor_is_checked_in_order<L>(
    fd_names: Vec<Option<ActivationName>>,
    handovers: Seq<Handover<L>>,
    request: Option<Request>,
    at: int,
)
    requires
        handovers.len() == fd_names@.len(),
        0 <= at < handovers.len(),
        at <= i32::MAX - 3,
        call_ensures(Handover::<L>::start, (fd_names,), handovers[0]),
        forall|i: int|
            1 <= i <= at ==> call_ensures(
                Handover::<L>::step,
                (handovers[i - 1], Reply::Open(Ok(()))),
                Ok(#[trigger] handovers[i]),
            ),
        call_ensures(Handover::<L>::request, (&handovers[at],), request),
    ensures
        request matches Some(Request { index, action: Action::CheckOpen { raw_fd } }) && index == at
            && raw_fd == 3 + at,
        handovers[at]@.names == fd_names@,
        handovers[at]@.sockets == Map::<ActivationName, L>::empty(),
{
    lemma_state_after_open_replies(fd_names, handovers, at);
    lemma_names_fit(handovers[at]);
}

/// After as many open descriptors as `at`, the one at `at` is due.
proof fn lemma_state_after_open_replies<L>(
    fd_names: Vec<Option<ActivationName>>,
    handovers: Seq<Handover<L>>,
    at: int,
)
    requires
        handovers.len() == fd_names@.len(),
        0 <= at < handovers.len(),
        call_ensures(Handover::<L>::start, (fd_names,), handovers[0]),
        forall|i: int|
            1 <= i <= at ==> call_ensures(
                Handover::<L>::step,
                (handovers[i - 1], Reply::Open(Ok(()))),
                Ok(#[trigger] handovers[i]),
            ),
    ensures
        handovers[at]@ == (HandoverState {
            names: fd_names@,
            position: at as nat,
            stage: Stage::CheckOpen,
            sockets: Map::<ActivationName, L>::empty(),
        }),
    decreases at,
{
    if at > 0 {
        lemma_state_after_open_replies(fd_names, handovers, at - 1);
        assert(call_ensures(
            Handover::<L>::step,
            (handovers[at - 1], Reply::Open(Ok(()))),
            Ok(handovers[at]),
        ));
    }
}

/// A handover begins with no listener, and one without descriptors has nothing to ask for.
pub proof fn law_handover_begins_empty<L>(
    fd_names: Vec<Option<ActivationName>>,
    handover: Handover<L>,
    request: Option<Request>,
)
    requires
        call_ensures(Handover::<L>::start, (fd_names,), handover),
        call_ensures(Handover::<L>::request, (&handover,), request),
    ensures
        handover@.names == fd_names@,
        handover@.sockets == Map::<ActivationName, L>::empty(),
        request is None <==> fd_names@.len() == 0,
        fd_names@.len() > 0 ==> request == Some(
            Request { index: 0, action: Action::CheckOpen { raw_fd: 3 } },
        ),
{
}

/// Descriptors that are known to be open have to be as many as the names, and the first one
/// is then dealt with at once.
pub proof fn law_known_descriptors_are_counted<L>(
    fd_names: Vec<Option<ActivationName>>,
    fd_count: usize,
    begun: Result<Handover<L>, ActivationError>,
    request: Option<Request>,
)
    requires
        call_ensures(Handover::<L>::adopt, (fd_names, fd_count), begun),
        begun matches Ok(handover) ==> call_ensures(
            Handover::<L>::request,
            (&handover,),
            request,
        ),
    ensures
        begun is Ok <==> fd_names@.len() == fd_count,
        begun matches Ok(handover) ==> handover@.names == fd_names@ && handover@.sockets == Map::<
            ActivationName,
            L,
        >::empty() && request == (if fd_names@.len() == 0 {
            None
        } else if fd_names@[0] is Some {
            Some(Request { index: 0, action: Action::ReadSocketType })
        } else {
            Some(Request { index: 0, action: Action::Close })
        }),
        begun matches Err(error) ==> (error matches ActivationError::Descriptors(
            DescriptorProblem::CountMismatch { expected, received },
        ) && expected == fd_names.len() && received == fd_count),
{
}

/// A descriptor that is open lets the next one be checked, and after the last of them the
/// first one is dealt with; one that is not open ends the handover.
pub proof fn law_after_an_open_check<L>(
    handover: Handover<L>,
    index: usize,
    raw_fd: i32,
    found: Result<(), Errno>,
    next: Result<Handover<L>, ActivationError>,
    then: Option<Request>,
)
    requires
        handover.wf(),
        call_ensures(
            Handover::<L>::request,
            (&handover,),
            Some(Request { index, action: Action::CheckOpen { raw_fd } }),
        ),
        call_ensures(Handover::<L>::step, (handover, Reply::Open(found)), next),
        next matches Ok(following) ==> call_ensures(
            Handover::<L>::request,
            (&following,),
            then,
        ),
        index < i32::MAX - 3,
    ensures
        index < handover@.names.len(),
        found is Ok ==> (next matches Ok(following) && following.wf()
            && following@.names == handover@.names && following@.sockets == handover@.sockets),
        found is Ok && index + 1 < handover@.names.len() ==> then == Some(
            Request {
                index: (index + 1) as usize,
                action: Action::CheckOpen { raw_fd: (raw_fd + 1) as i32 },
            },
        ),
        found is Ok && index + 1 == handover@.names.len() ==> then == Some(
            Request {
                index: 0,
                action: if handover@.names[0] is Some {
                    Action::ReadSocketType
                } else {
                    Action::Close
                },
            },
        ),
        found matches Err(error) ==> (next matches Err(
            ActivationError::Descriptors(DescriptorProblem::NotOpen { raw_fd: closed, cause }),
        ) && closed == raw_fd && cause == error),
{
    lemma_names_fit(handover);
}

/// A stream socket is asked next whether it accepts connections; a socket of any other type
/// is no TCP socket; and one whose type cannot be read ends the handover too.
pub proof fn law_after_the_socket_type<L>(
    handover: Handover<L>,
    index: usize,
    read: Result<SocketType, Errno>,
    next: Result<Handover<L>, ActivationError>,
    then: Option<Request>,
)
    requires
        handover.wf(),
        call_ensures(
            Handover::<L>::request,
            (&handover,),
            Some(Request { index, action: Action::ReadSocketType }),
        ),
        call_ensures(Handover::<L>::step, (handover, Reply::SocketType(read)), next),
        next matches Ok(following) ==> call_ensures(
            Handover::<L>::request,
            (&following,),
            then,
        ),
    ensures
        index < handover@.names.len(),
        read == Ok::<SocketType, Errno>(SocketType::Stream) ==> then == Some(
            Request { index, action: Action::ReadListenState },
        ) && (next matches Ok(following) && following.wf()
            && following@.names == handover@.names && following@.sockets == handover@.sockets),
        read matches Ok(kind) ==> kind != SocketType::Stream ==> (next matches Err(
            ActivationError::Descriptors(DescriptorProblem::Listener { name, problem }),
        )
            && Some(name) == handover@.names[index as int]
            && problem == ListenerProblem::NotTcp),
        read matches Err(error) ==> (next matches Err(
            ActivationError::Descriptors(DescriptorProblem::Listener { name, problem }),
        )
            && Some(name) == handover@.names[index as int]
            && problem == ListenerProblem::TypeUnreadable(error)),
{
    lemma_names_fit(handover);
}

/// A socket that accepts connections is made nonblocking, and so is one of which the system
/// cannot tell; one that does not accept them, or whose state cannot be read, ends the
/// handover.
pub proof fn law_after_the_listen_state<L>(
    handover: Handover<L>,
    index: usize,
    read: Result<bool, Errno>,
    next: Result<Handover<L>, ActivationError>,
    then: Option<Request>,
)
    requires
        handover.wf(),
        call_ensures(
            Handover::<L>::request,
            (&handover,),
            Some(Request { index, action: Action::ReadListenState }),
        ),
        call_ensures(Handover::<L>::step, (handover, Reply::ListenState(read)), next),
        next matches Ok(following) ==> call_ensures(
            Handover::<L>::request,
            (&following,),
            then,
        ),
    ensures
        index < handover@.names.len(),
        read == Ok::<bool, Errno>(true) || read == Err::<bool, Errno>(Errno::NoProtocolOption)
            ==> then == Some(Request { index, action: Action::SetNonblocking }) && (
        next matches Ok(following) && following.wf()
            && following@.names == handover@.names && following@.sockets == handover@.sockets),
        read == Ok::<bool, Errno>(false) ==> (next matches Err(
            ActivationError::Descriptors(DescriptorProblem::Listener { name, problem }),
        )
            && Some(name) == handover@.names[index as int]
            && problem == ListenerProblem::NotListening),
        read matches Err(error) ==> error != Errno::NoProtocolOption ==> (next matches Err(
            ActivationError::Descriptors(DescriptorProblem::Listener { name, problem }),
        )
            && Some(name) == handover@.names[index as int]
            && problem == ListenerProblem::ListenStateUnreadable(error)),
{
    lemma_names_fit(handover);
}

/// A listener that has been made nonblocking is asked for its address; one that could not be
/// ends the handover.
pub proof fn law_after_nonblocking<L>(
    handover: Handover<L>,
    index: usize,
    done: Result<(), Errno>,
    next: Result<Handover<L>, ActivationError>,
    then: Option<Request>,
)
    requires
        handover.wf(),
        call_ensures(
            Handover::<L>::request,
            (&handover,),
            Some(Request { index, action: Action::SetNonblocking }),
        ),
        call_ensures(Handover::<L>::step, (handover, Reply::Nonblocking(done)), next),
        next matches Ok(following) ==> call_ensures(
            Handover::<L>::request,
            (&following,),
            then,
        ),
    ensures
        index < handover@.names.len(),
        done is Ok ==> then == Some(Request { index, action: Action::ReadLocalAddress }) && (
        next matches Ok(following) && following.wf()
            && following@.names == handover@.names && following@.sockets == handover@.sockets),
        done matches Err(error) ==> (next matches Err(
            ActivationError::Descriptors(DescriptorProblem::Listener { name, problem }),
        )
            && Some(name) == handover@.names[index as int]
            && problem == ListenerProblem::NonblockingFailed(error)),
{
    lemma_names_fit(handover);
}

/// A listener with an address is kept under the name of its descriptor, beside those kept
/// before, and the next descriptor is dealt with; one without an address ends the handover.
pub proof fn law_after_the_local_address<L>(
    handover: Handover<L>,
    index: usize,
    read: Result<L, Errno>,
    next: Result<Handover<L>, ActivationError>,
    then: Option<Request>,
)
    requires
        handover.wf(),
        call_ensures(
            Handover::<L>::request,
            (&handover,),
            Some(Request { index, action: Action::ReadLocalAddress }),
        ),
        call_ensures(Handover::<L>::step, (handover, Reply::LocalAddress(read)), next),
        next matches Ok(following) ==> call_ensures(
            Handover::<L>::request,
            (&following,),
            then,
        ),
    ensures
        index < handover@.names.len(),
        read matches Ok(listener) ==> (next matches Ok(following) && following.wf()
            && following@.names == handover@.names && handover@.names[index as int] is Some
            && following@.sockets == handover@.sockets.insert(
            handover@.names[index as int]->0,
            listener,
        )),
        read is Ok ==> then == (if index + 1 >= handover@.names.len() {
            None
        } else if handover@.names[index + 1] is Some {
            Some(Request { index: (index + 1) as usize, action: Action::ReadSocketType })
        } else {
            Some(Request { index: (index + 1) as usize, action: Action::Close })
        }),
        read matches Err(error) ==> (next matches Err(
            ActivationError::Descriptors(DescriptorProblem::Listener { name, problem }),
        )
            && Some(name) == handover@.names[index as int]
            && problem == ListenerProblem::AddressUnreadable(error)),
{
    lemma_names_fit(handover);
}

/// A descriptor without a supported name is closed, which changes nothing else, and the next
/// one is dealt with.
pub proof fn law_after_closing<L>(
    handover: Handover<L>,
    index: usize,
    next: Result<Handover<L>, ActivationError>,
    then: Option<Request>,
)
    requires
        handover.wf(),
        call_ensures(
            Handover::<L>::request,
            (&handover,),
            Some(Request { index, action: Action::Close }),
        ),
        call_ensures(Handover::<L>::step, (handover, Reply::<L>::Closed), next),
        next matches Ok(following) ==> call_ensures(
            Handover::<L>::request,
            (&following,),
            then,
        ),
    ensures
        index < handover@.names.len(),
        handover@.names[index as int] is None,
        next matches Ok(following) && following.wf()
            && following@.names == handover@.names && following@.sockets == handover@.sockets,
        then == (if index + 1 >= handover@.names.len() {
            None
        } else if handover@.names[index + 1] is Some {
            Some(Request { index: (index + 1) as usize, action: Action::ReadSocketType })
        } else {
            Some(Request { index: (index + 1) as usize, action: Action::Close })
        }),
{
    lemma_names_fit(handover);
}

/// A handover with nothing left to ask for has dealt with every descriptor, and gives out
/// the listeners it has kept.
pub proof fn law_finished_handover_gives_its_listeners<L>(
    handover: Handover<L>,
    sockets: ActivationSockets<L>,
)
    requires
        handover.wf(),
        call_ensures(Handover::<L>::request, (&handover,), None::<Request>),
        call_ensures(Handover::<L>::finish, (handover,), sockets),
    ensures
        handover@.position == handover@.names.len(),
        sockets.wf(),
        sockets@ == handover@.sockets,
{
}

} // verus!
