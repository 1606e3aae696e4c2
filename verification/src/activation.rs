//! From the environment to the listeners.

use vstd::prelude::*;

use crate::activation_env::{parse_activation_env, ActivationEnv, ProcessEnv};
use crate::activation_name::ActivationName;
use crate::activation_sockets::ActivationSockets;
use crate::error::{ActivationError, DescriptorProblem, Errno, ListenerProblem, Refusal};
use crate::handover::{Action, Handover, HandoverState, Reply, SocketType};

verus! {

/// All that the operating system has to say about one descriptor.
#[derive(Debug, PartialEq, Eq)]
pub struct FdReport<L> {
    /// Whether the descriptor is open.
    pub open: Result<(), Errno>,
    /// Which type of socket it is.
    pub socket_type: Result<SocketType, Errno>,
    /// Whether it accepts connections.
    pub listen_state: Result<bool, Errno>,
    /// Whether it can be made nonblocking.
    pub nonblocking: Result<(), Errno>,
    /// The listener, if it has a local address.
    pub local_address: Result<L, Errno>,
}

impl<L> FdReport<L> {
    /// The reply to `action` according to this report.
    pub open spec fn reply(self, action: Action) -> Reply<L> {
        match action {
            Action::CheckOpen { .. } => Reply::Open(self.open),
            Action::ReadSocketType => Reply::SocketType(self.socket_type),
            Action::ReadListenState => Reply::ListenState(self.listen_state),
            Action::SetNonblocking => Reply::Nonblocking(self.nonblocking),
            Action::ReadLocalAddress => Reply::LocalAddress(self.local_address),
            Action::Close => Reply::Closed,
        }
    }

    /// Why the descriptor is no socket that accepts connections.
    pub open spec fn socket_problem(self) -> Option<ListenerProblem> {
        match crate::handover::type_problem(self.socket_type) {
            Some(problem) => Some(problem),
            None => crate::handover::listen_problem(self.listen_state),
        }
    }

    /// Why the descriptor cannot be taken over as a listener.
    pub open spec fn listener_problem(self) -> Option<ListenerProblem> {
        match self.socket_problem() {
            Some(problem) => Some(problem),
            None => match (self.nonblocking, self.local_address) {
                (Err(cause), _) => Some(ListenerProblem::NonblockingFailed(cause)),
                (_, Err(cause)) => Some(ListenerProblem::AddressUnreadable(cause)),
                _ => None,
            },
        }
    }
}

/// What is wrong with the descriptor at `i` before its name matters.
pub open spec fn open_problem<L>(reports: Seq<FdReport<L>>, i: int) -> Option<DescriptorProblem> {
    match reports[i].open {
        Err(cause) => Some(
            DescriptorProblem::NotOpen { raw_fd: crate::handover::raw_fd_at(i as usize), cause },
        ),
        Ok(_) => None,
    }
}

/// The problem of the first descriptor among the first `n` that is not open.
pub open spec fn first_open_problem<L>(reports: Seq<FdReport<L>>, n: nat) -> Option<
    DescriptorProblem,
>
    decreases n,
{
    if n == 0 {
        None
    } else {
        match first_open_problem(reports, (n - 1) as nat) {
            Some(problem) => Some(problem),
            None => open_problem(reports, n - 1),
        }
    }
}

/// What is wrong with the descriptor at `i`, given the name it has. Nothing is wrong with a
/// descriptor that has no supported name.
pub open spec fn descriptor_problem<L>(
    names: Seq<Option<ActivationName>>,
    reports: Seq<FdReport<L>>,
    i: int,
) -> Option<DescriptorProblem> {
    match (names[i], reports[i].listener_problem()) {
        (Some(name), Some(problem)) => Some(DescriptorProblem::Listener { name, problem }),
        _ => None,
    }
}

/// The problem of the first unfit descriptor among the first `n`.
pub open spec fn first_descriptor_problem<L>(
    names: Seq<Option<ActivationName>>,
    reports: Seq<FdReport<L>>,
    n: nat,
) -> Option<DescriptorProblem>
    decreases n,
{
    if n == 0 {
        None
    } else {
        match first_descriptor_problem(names, reports, (n - 1) as nat) {
            Some(problem) => Some(problem),
            None => descriptor_problem(names, reports, n - 1),
        }
    }
}

/// The listeners among the first `n` descriptors, by name.
pub open spec fn listeners<L>(
    names: Seq<Option<ActivationName>>,
    reports: Seq<FdReport<L>>,
    n: nat,
) -> Map<ActivationName, L>
    decreases n,
{
    if n == 0 {
        Map::empty()
    } else {
        let earlier = listeners(names, reports, (n - 1) as nat);
        match names[n - 1] {
            Some(name) => earlier.insert(name, reports[n - 1].local_address->Ok_0),
            None => earlier,
        }
    }
}

/// What comes of taking over open descriptors.
pub open spec fn taken_over<L>(
    names: Seq<Option<ActivationName>>,
    reports: Seq<FdReport<L>>,
) -> Result<Map<ActivationName, L>, DescriptorProblem> {
    match first_descriptor_problem(names, reports, names.len()) {
        Some(problem) => Err(problem),
        None => Ok(listeners(names, reports, names.len())),
    }
}

/// What comes of taking over descriptors that have to be found open first.
pub open spec fn found_and_taken_over<L>(
    names: Seq<Option<ActivationName>>,
    reports: Seq<FdReport<L>>,
) -> Result<Map<ActivationName, L>, DescriptorProblem> {
    match first_open_problem(reports, names.len()) {
        Some(problem) => Err(problem),
        None => taken_over(names, reports),
    }
}

/// What comes of taking over the descriptors supplied, which must be as many as the names.
pub open spec fn supplied_and_taken_over<L>(
    names: Seq<Option<ActivationName>>,
    reports: Seq<FdReport<L>>,
) -> Result<Map<ActivationName, L>, DescriptorProblem> {
    if names.len() != reports.len() {
        Err(
            DescriptorProblem::CountMismatch {
                expected: names.len() as usize,
                received: reports.len() as usize,
            },
        )
    } else {
        taken_over(names, reports)
    }
}

/// Tells whether a handover could be in `state` with descriptors of which `reports` is true.
pub open spec fn agrees<L>(state: HandoverState<L>, reports: Seq<FdReport<L>>) -> bool {
    &&& state.valid()
    &&& state.names.len() == reports.len()
    &&& reports.len() <= usize::MAX
    &&& if state.stage is CheckOpen {
        first_open_problem(reports, state.position) is None
    } else {
        &&& first_descriptor_problem(state.names, reports, state.position) is None
        &&& state.sockets == listeners(state.names, reports, state.position)
        &&& state.stage is ListenState ==> crate::handover::type_problem(
            reports[state.position as int].socket_type,
        ) is None
        &&& state.stage is Nonblocking || state.stage is LocalAddress
            ==> reports[state.position as int].socket_problem() is None
        &&& state.stage is LocalAddress ==> reports[state.position as int].nonblocking is Ok
    }
}

/// What comes of a handover in `state` with descriptors of which `reports` is true.
pub open spec fn outcome<L>(state: HandoverState<L>, reports: Seq<FdReport<L>>) -> Result<
    Map<ActivationName, L>,
    DescriptorProblem,
> {
    if state.stage is CheckOpen {
        found_and_taken_over(state.names, reports)
    } else {
        taken_over(state.names, reports)
    }
}

/// The first problem stays the first one however many descriptors follow.
proof fn lemma_first_open_problem_stays<L>(reports: Seq<FdReport<L>>, n: nat, m: nat)
    requires
        n <= m,
        first_open_problem(reports, n) is Some,
    ensures
        first_open_problem(reports, m) == first_open_problem(reports, n),
    decreases m,
{
    if n < m {
        lemma_first_open_problem_stays(reports, n, (m - 1) as nat);
    }
}

/// The first problem stays the first one however many descriptors follow.
proof fn lemma_first_descriptor_problem_stays<L>(
    names: Seq<Option<ActivationName>>,
    reports: Seq<FdReport<L>>,
    n: nat,
    m: nat,
)
    requires
        n <= m,
        first_descriptor_problem(names, reports, n) is Some,
    ensures
        first_descriptor_problem(names, reports, m) == first_descriptor_problem(names, reports, n),
    decreases m,
{
    if n < m {
        lemma_first_descriptor_problem_stays(names, reports, n, (m - 1) as nat);
    }
}

/// Answering its requests truthfully keeps a handover on course: a step leads to a state
/// with the same outcome, or fails with the problem that is the outcome; and when there is
/// nothing left to ask, the listeners held are the outcome.
pub proof fn law_true_replies_lead_to_the_outcome<L>(
    state: HandoverState<L>,
    reports: Seq<FdReport<L>>,
)
    requires
        agrees(state, reports),
    ensures
        match state.request() {
            None => outcome(state, reports) == Ok::<Map<ActivationName, L>, DescriptorProblem>(
                state.sockets,
            ),
            Some(request) => {
                &&& request.index < reports.len()
                &&& match state.step(reports[request.index as int].reply(request.action)) {
                    Ok(next) => agrees(next, reports) && outcome(next, reports) == outcome(
                        state,
                        reports,
                    ),
                    Err(problem) => outcome(state, reports) == Err::<
                        Map<ActivationName, L>,
                        DescriptorProblem,
                    >(problem),
                }
            },
        },
{
    if let Some(request) = state.request() {
        let position = state.position;
        let report = reports[position as int];
        if state.stage is CheckOpen {
            if report.open is Err {
                lemma_first_open_problem_stays(reports, position + 1, state.names.len());
            }
        } else if state.stage is Close {
            assert(descriptor_problem(state.names, reports, position as int) is None);
        } else if report.listener_problem() is Some {
            lemma_first_descriptor_problem_stays(
                state.names,
                reports,
                position + 1,
                state.names.len(),
            );
        }
    }
}

/// Every step brings a handover closer to its end, so it asks for no more than five things
/// for each descriptor.
pub proof fn law_handover_ends<L>(state: HandoverState<L>, reply: Reply<L>)
    requires
        state.valid(),
        state.request() matches Some(request) && reply.answers(request.action),
    ensures
        state.step(reply) matches Ok(next) ==> next.valid() && next.requests_left()
            < state.requests_left(),
        HandoverState::<L>::start(state.names).requests_left() <= 5 * state.names.len(),
{
}

impl<L: Copy> FdReport<L> {
    /// Answers a request from this report.
    pub fn answer(&self, action: Action) -> (reply: Reply<L>)
        ensures
            reply == self.reply(action),
            reply.answers(action),
    {
        match action {
            Action::CheckOpen { .. } => Reply::Open(self.open),
            Action::ReadSocketType => Reply::SocketType(self.socket_type),
            Action::ReadListenState => Reply::ListenState(self.listen_state),
            Action::SetNonblocking => Reply::Nonblocking(self.nonblocking),
            Action::ReadLocalAddress => Reply::LocalAddress(self.local_address),
            Action::Close => Reply::Closed,
        }
    }
}

/// Carries a handover through with descriptors whose reports are known beforehand.
pub fn run_handover<L: Copy>(handover: Handover<L>, reports: &Vec<FdReport<L>>) -> (sockets: Result<
    ActivationSockets<L>,
    ActivationError,
>)
    requires
        handover.wf(),
        agrees(handover@, reports@),
    ensures
        match outcome(handover@, reports@) {
            Ok(listeners) => sockets matches Ok(sockets) && sockets.wf() && sockets@ == listeners,
            Err(problem) => sockets matches Err(error) && error@ == Refusal::Descriptors(problem),
        },
{
    let mut current = handover;
    loop
        invariant
            current.wf(),
            agrees(current@, reports@),
            outcome(current@, reports@) == outcome(handover@, reports@),
        decreases current@.requests_left(),
    {
        proof {
            law_true_replies_lead_to_the_outcome(current@, reports@);
        }
        match current.request() {
            None => {
                return Ok(current.finish());
            },
            Some(request) => {
                let reply = reports[request.index].answer(request.action);
                proof {
                    law_handover_ends(current@, reply);
                }
                match current.step(reply) {
                    Ok(next) => {
                        current = next;
                    },
                    Err(error) => {
                        return Err(error);
                    },
                }
            },
        }
    }
}

impl<L> ActivationSockets<L> {
    /// Begins to take over what the environment announces to the process `process_id`.
    ///
    /// The variables are unset once they have been read.
    pub fn parse_from_env(env: &mut ProcessEnv, process_id: u32) -> (begun: Result<
        Handover<L>,
        ActivationError,
    >)
        ensures
            match old(env).first_unreadable() {
                Some(key) => {
                    &&& begun matches Err(error) && error@ == (Refusal::Env {
                        key,
                        problem: crate::error::EnvProblem::NotUnicode,
                    })
                    &&& *final(env) == *old(env)
                },
                None => {
                    &&& final(env).is_clear()
                    &&& begins(old(env).texts(), process_id, begun)
                },
            },
    {
        match ActivationEnv::snapshot_from_process_env(env) {
            Ok(snapshot) => Self::from_snapshot(snapshot, process_id),
            Err(error) => Err(error),
        }
    }

    /// Begins to take over what `snapshot` announces to the process `process_id`.
    pub fn from_snapshot(snapshot: ActivationEnv, process_id: u32) -> (begun: Result<
        Handover<L>,
        ActivationError,
    >)
        ensures
            begins(snapshot@, process_id, begun),
    {
        match parse_activation_env(&snapshot, process_id) {
            Ok(Some(fd_names)) => Ok(Handover::start(fd_names)),
            Ok(None) => Ok(Handover::start(Vec::new())),
            Err(error) => Err(error),
        }
    }
}

/// Tells whether `begun` is how taking over what `env` announces begins: with the names
/// announced, none if nothing is, or not at all if `env` is faulty.
pub open spec fn begins<L>(
    env: crate::activation_env::EnvTexts,
    process_id: u32,
    begun: Result<Handover<L>, ActivationError>,
) -> bool {
    match crate::activation_env::announced_names(env, process_id) {
        Ok(Some(names)) => begun matches Ok(handover) && handover.wf() && handover@
            == HandoverState::<L>::start(names),
        Ok(None) => begun matches Ok(handover) && handover.wf() && handover@ == HandoverState::<
            L,
        >::start(Seq::empty()),
        Err(refusal) => begun matches Err(error) && error@ == refusal,
    }
}

impl<L: Copy> ActivationSockets<L> {
    /// Takes over what `snapshot` announces, with the descriptors supplied in place of the
    /// inherited ones.
    pub fn from_snapshot_and_owned_fds(
        snapshot: ActivationEnv,
        process_id: u32,
        owned_fds: Vec<FdReport<L>>,
    ) -> (sockets: Result<Self, ActivationError>)
        ensures
            match crate::activation_env::announced_names(snapshot@, process_id) {
                Ok(Some(names)) => match supplied_and_taken_over(names, owned_fds@) {
                    Ok(listeners) => sockets matches Ok(sockets) && sockets.wf() && sockets@
                        == listeners,
                    Err(problem) => sockets matches Err(error) && error@ == Refusal::Descriptors(
                        problem,
                    ),
                },
                Ok(None) => sockets matches Ok(sockets) && sockets.wf() && sockets@ == Map::<
                    ActivationName,
                    L,
                >::empty(),
                Err(refusal) => sockets matches Err(error) && error@ == refusal,
            },
    {
        match parse_activation_env(&snapshot, process_id) {
            Ok(Some(fd_names)) => Self::from_fd_names_and_owned_fds(fd_names, owned_fds),
            Ok(None) => Ok(ActivationSockets::default()),
            Err(error) => Err(error),
        }
    }

    /// Takes over the descriptors supplied under the names given.
    pub fn from_fd_names_and_owned_fds(
        fd_names: Vec<Option<ActivationName>>,
        owned_fds: Vec<FdReport<L>>,
    ) -> (sockets: Result<Self, ActivationError>)
        ensures
            match supplied_and_taken_over(fd_names@, owned_fds@) {
                Ok(listeners) => sockets matches Ok(sockets) && sockets.wf() && sockets@
                    == listeners,
                Err(problem) => sockets matches Err(error) && error@ == Refusal::Descriptors(
                    problem,
                ),
            },
    {
        match Handover::adopt(fd_names, owned_fds.len()) {
            Ok(handover) => run_handover(handover, &owned_fds),
            Err(error) => Err(error),
        }
    }
}

/// Descriptors are taken over all or none: they are if no supported one has a problem, and
/// otherwise the problem of the first one that has is reported.
pub proof fn law_first_problem_decides<L>(
    names: Seq<Option<ActivationName>>,
    reports: Seq<FdReport<L>>,
    n: nat,
)
    ensures
        first_descriptor_problem(names, reports, n) is None <==> forall|i: int|
            0 <= i < n ==> (#[trigger] descriptor_problem(names, reports, i)) is None,
        first_descriptor_problem(names, reports, n) is Some ==> exists|i: int|
            #![trigger descriptor_problem(names, reports, i)]
            {
                &&& 0 <= i < n
                &&& descriptor_problem(names, reports, i) == first_descriptor_problem(
                    names,
                    reports,
                    n,
                )
                &&& forall|j: int|
                    0 <= j < i ==> (#[trigger] descriptor_problem(names, reports, j)) is None
            },
    decreases n,
{
    if n > 0 {
        law_first_problem_decides(names, reports, (n - 1) as nat);
        if first_descriptor_problem(names, reports, (n - 1) as nat) is None {
            assert(descriptor_problem(names, reports, n - 1) == first_descriptor_problem(
                names,
                reports,
                n,
            ));
        }
    }
}

/// A descriptor that is not open is reported before anything else is looked at, and of
/// several the first one.
pub proof fn law_closed_descriptor_is_reported_first<L>(
    names: Seq<Option<ActivationName>>,
    reports: Seq<FdReport<L>>,
    i: nat,
)
    requires
        i < names.len(),
        reports[i as int].open is Err,
        forall|j: int| 0 <= j < i ==> (#[trigger] reports[j]).open is Ok,
    ensures
        found_and_taken_over(names, reports) == Err::<Map<ActivationName, L>, DescriptorProblem>(
            DescriptorProblem::NotOpen {
                raw_fd: crate::handover::raw_fd_at(i as usize),
                cause: reports[i as int].open->Err_0,
            },
        ),
{
    lemma_no_open_problem(reports, i);
    lemma_first_open_problem_stays(reports, i + 1, names.len());
}

/// Descriptors that are all open are taken over as if they had been supplied.
pub proof fn law_open_descriptors_are_as_supplied<L>(
    names: Seq<Option<ActivationName>>,
    reports: Seq<FdReport<L>>,
)
    requires
        names.len() == reports.len(),
        forall|j: int| 0 <= j < reports.len() ==> (#[trigger] reports[j]).open is Ok,
    ensures
        found_and_taken_over(names, reports) == supplied_and_taken_over(names, reports),
{
    lemma_no_open_problem(reports, names.len());
}

/// Open descriptors have no problem of not being open.
proof fn lemma_no_open_problem<L>(reports: Seq<FdReport<L>>, n: nat)
    requires
        forall|j: int| 0 <= j < n ==> (#[trigger] reports[j]).open is Ok,
    ensures
        first_open_problem(reports, n) is None,
    decreases n,
{
    if n > 0 {
        lemma_no_open_problem(reports, (n - 1) as nat);
    }
}

/// The listeners go by the supported names and no others, and each is the one of the last
/// descriptor of its name.
pub proof fn law_listeners_go_by_their_names<L>(
    names: Seq<Option<ActivationName>>,
    reports: Seq<FdReport<L>>,
    n: nat,
    name: ActivationName,
)
    ensures
        listeners(names, reports, n).contains_key(name) <==> exists|i: int|
            0 <= i < n && #[trigger] names[i] == Some(name),
        forall|i: int|
            0 <= i < n && #[trigger] names[i] == Some(name) && (forall|j: int|
                i < j < n ==> #[trigger] names[j] != Some(name)) ==> listeners(names, reports, n)[name]
                == reports[i].local_address->Ok_0,
    decreases n,
{
    if n > 0 {
        law_listeners_go_by_their_names(names, reports, (n - 1) as nat, name);
        assert forall|i: int|
            0 <= i < n && #[trigger] names[i] == Some(name) && (forall|j: int|
                i < j < n ==> #[trigger] names[j] != Some(name)) implies listeners(names, reports, n)[name]
            == reports[i].local_address->Ok_0 by {
            if i < n - 1 {
                assert(names[n - 1] != Some(name));
            }
        }
    }
}

/// Every listener taken over has passed every check: it is a TCP socket, it accepts
/// connections as far as the system can tell, it has been made nonblocking, and it has a
/// local address.
pub proof fn law_listeners_have_passed_every_check<L>(
    names: Seq<Option<ActivationName>>,
    reports: Seq<FdReport<L>>,
    i: int,
)
    requires
        taken_over(names, reports) is Ok,
        0 <= i < names.len(),
        names[i] is Some,
    ensures
        reports[i].socket_type == Ok::<SocketType, Errno>(SocketType::Stream),
        reports[i].listen_state == Ok::<bool, Errno>(true) || reports[i].listen_state == Err::<
            bool,
            Errno,
        >(Errno::NoProtocolOption),
        reports[i].nonblocking is Ok,
        reports[i].local_address is Ok,
{
    law_first_problem_decides(names, reports, names.len());
    assert(descriptor_problem(names, reports, i) is None);
}

/// Descriptors without a supported name do not matter: whatever is true of them, the
/// outcome is the same.
pub proof fn law_unsupported_descriptors_do_not_matter<L>(
    names: Seq<Option<ActivationName>>,
    reports: Seq<FdReport<L>>,
    others: Seq<FdReport<L>>,
)
    requires
        forall|i: int|
            0 <= i < names.len() && (#[trigger] names[i]) is Some ==> reports[i] == others[i],
    ensures
        taken_over(names, reports) == taken_over(names, others),
{
    lemma_only_supported_descriptors_matter(names, reports, others, names.len());
}

proof fn lemma_only_supported_descriptors_matter<L>(
    names: Seq<Option<ActivationName>>,
    reports: Seq<FdReport<L>>,
    others: Seq<FdReport<L>>,
    n: nat,
)
    requires
        n <= names.len(),
        forall|i: int|
            0 <= i < names.len() && (#[trigger] names[i]) is Some ==> reports[i] == others[i],
    ensures
        first_descriptor_problem(names, reports, n) == first_descriptor_problem(names, others, n),
        listeners(names, reports, n) == listeners(names, others, n),
    decreases n,
{
    if n > 0 {
        lemma_only_supported_descriptors_matter(names, reports, others, (n - 1) as nat);
        assert(names[n - 1] is Some ==> reports[n - 1] == others[n - 1]);
    }
}

/// What is announced is what is taken over: if it succeeds, there is a listener for every
/// supported name announced and for no other name, and it is the one of the descriptor that
/// was announced under that name.
pub proof fn law_announced_listeners_are_taken_over<L>(
    env: crate::activation_env::EnvTexts,
    process_id: u32,
    names: Seq<Option<ActivationName>>,
    reports: Seq<FdReport<L>>,
    sockets: Map<ActivationName, L>,
)
    requires
        crate::activation_env::announced_names(env, process_id) == Ok::<
            Option<Seq<Option<ActivationName>>>,
            Refusal,
        >(Some(names)),
        taken_over(names, reports) == Ok::<Map<ActivationName, L>, DescriptorProblem>(sockets),
    ensures
        forall|name: ActivationName| #[trigger]
            sockets.contains_key(name) <==> exists|i: int|
                0 <= i < names.len() && #[trigger] names[i] == Some(name),
        forall|i: int|
            0 <= i < names.len() && (#[trigger] names[i]) is Some ==> reports[i].local_address == Ok::<
                L,
                Errno,
            >(sockets[names[i]->0]),
{
    crate::activation_env::law_accepted_names(env, process_id, names);
    assert forall|name: ActivationName| #[trigger]
        sockets.contains_key(name) <==> exists|i: int|
            0 <= i < names.len() && #[trigger] names[i] == Some(name) by {
        law_listeners_go_by_their_names(names, reports, names.len(), name);
    }
    assert forall|i: int|
        0 <= i < names.len() && (#[trigger] names[i]) is Some implies reports[i].local_address == Ok::<
        L,
        Errno,
    >(sockets[names[i]->0]) by {
        law_listeners_go_by_their_names(names, reports, names.len(), names[i]->0);
        law_listeners_have_passed_every_check(names, reports, i);
    }
}

/// Descriptors are taken over exactly if they are as many as the names and every one with a
/// supported name is a TCP socket, accepts connections as far as the system can tell, could
/// be made nonblocking and has a local address. Nothing is asked of the others.
pub proof fn law_when_descriptors_are_taken_over<L: Copy>(
    fd_names: Vec<Option<ActivationName>>,
    owned_fds: Vec<FdReport<L>>,
    result: Result<ActivationSockets<L>, ActivationError>,
)
    requires
        call_ensures(
            ActivationSockets::<L>::from_fd_names_and_owned_fds,
            (fd_names, owned_fds),
            result,
        ),
    ensures
        result is Ok <==> fd_names@.len() == owned_fds@.len() && forall|i: int|
            0 <= i < fd_names@.len() && (#[trigger] fd_names@[i]) is Some
                ==> owned_fds@[i].socket_type == Ok::<
            SocketType,
            Errno,
        >(SocketType::Stream) && (owned_fds@[i].listen_state == Ok::<bool, Errno>(true)
            || owned_fds@[i].listen_state == Err::<bool, Errno>(Errno::NoProtocolOption))
            && owned_fds@[i].nonblocking is Ok && owned_fds@[i].local_address is Ok,
{
    law_first_problem_decides(fd_names@, owned_fds@, fd_names@.len());
    if fd_names@.len() == owned_fds@.len() {
        if result is Ok {
            assert forall|i: int|
                0 <= i < fd_names@.len() && (#[trigger] fd_names@[i]) is Some implies owned_fds@[i].socket_type == Ok::<
            SocketType,
            Errno,
        >(SocketType::Stream) && (owned_fds@[i].listen_state == Ok::<bool, Errno>(true)
            || owned_fds@[i].listen_state == Err::<bool, Errno>(Errno::NoProtocolOption))
            && owned_fds@[i].nonblocking is Ok && owned_fds@[i].local_address is Ok by {
                law_listeners_have_passed_every_check(fd_names@, owned_fds@, i);
            }
        } else {
            let i = choose|i: int|
                0 <= i < fd_names@.len() && (#[trigger] descriptor_problem(
                    fd_names@,
                    owned_fds@,
                    i,
                )) is Some;
            assert(descriptor_problem(fd_names@, owned_fds@, i) is Some);
            assert(fd_names@[i] is Some);
        }
    }
}

/// Of descriptors that are taken over, each listener goes by the name of its descriptor, the
/// last one if several have the same name, and there is none under any other name.
pub proof fn law_descriptors_are_kept_under_their_names<L: Copy>(
    fd_names: Vec<Option<ActivationName>>,
    owned_fds: Vec<FdReport<L>>,
    sockets: ActivationSockets<L>,
)
    requires
        call_ensures(
            ActivationSockets::<L>::from_fd_names_and_owned_fds,
            (fd_names, owned_fds),
            Ok(sockets),
        ),
    ensures
        forall|name: ActivationName| #[trigger]
            sockets@.contains_key(name) <==> exists|i: int|
                0 <= i < fd_names@.len() && #[trigger] fd_names@[i] == Some(name),
        forall|i: int|
            0 <= i < fd_names@.len() && (#[trigger] fd_names@[i]) is Some && (forall|j: int|
                i < j < fd_names@.len() ==> #[trigger] fd_names@[j] != fd_names@[i])
                ==> owned_fds@[i].local_address == Ok::<L, Errno>(sockets@[fd_names@[i]->0]),
{
    assert forall|name: ActivationName| #[trigger]
        sockets@.contains_key(name) <==> exists|i: int|
            0 <= i < fd_names@.len() && #[trigger] fd_names@[i] == Some(name) by {
        law_listeners_go_by_their_names(fd_names@, owned_fds@, fd_names@.len(), name);
    }
    assert forall|i: int|
        0 <= i < fd_names@.len() && (#[trigger] fd_names@[i]) is Some && (forall|j: int|
            i < j < fd_names@.len() ==> #[trigger] fd_names@[j] != fd_names@[i]) implies owned_fds@[i].local_address
        == Ok::<L, Errno>(sockets@[fd_names@[i]->0]) by {
        law_listeners_go_by_their_names(
            fd_names@,
            owned_fds@,
            fd_names@.len(),
            fd_names@[i]->0,
        );
        law_listeners_have_passed_every_check(fd_names@, owned_fds@, i);
    }
}

/// Descriptors that are more or fewer than the names are refused, with both numbers.
pub proof fn law_wrong_number_of_descriptors_is_refused<L: Copy>(
    fd_names: Vec<Option<ActivationName>>,
    owned_fds: Vec<FdReport<L>>,
    result: Result<ActivationSockets<L>, ActivationError>,
)
    requires
        fd_names@.len() != owned_fds@.len(),
        call_ensures(
            ActivationSockets::<L>::from_fd_names_and_owned_fds,
            (fd_names, owned_fds),
            result,
        ),
    ensures
        result matches Err(
            ActivationError::Descriptors(DescriptorProblem::CountMismatch { expected, received }),
        ) && expected == fd_names.len() && received == owned_fds.len(),
{
}

/// Of descriptors that are as many as the names, the first one with a supported name that
/// cannot be taken over is refused under that name, for the first thing that is wrong with
/// it: its type, its state, its mode, its address.
pub proof fn law_first_unfit_descriptor_is_refused<L: Copy>(
    fd_names: Vec<Option<ActivationName>>,
    owned_fds: Vec<FdReport<L>>,
    result: Result<ActivationSockets<L>, ActivationError>,
    at: int,
    name: ActivationName,
)
    requires
        call_ensures(
            ActivationSockets::<L>::from_fd_names_and_owned_fds,
            (fd_names, owned_fds),
            result,
        ),
        fd_names@.len() == owned_fds@.len(),
        0 <= at < fd_names@.len(),
        fd_names@[at] == Some(name),
        forall|i: int|
            0 <= i < at && (#[trigger] fd_names@[i]) is Some
                ==> owned_fds@[i].socket_type == Ok::<
            SocketType,
            Errno,
        >(SocketType::Stream) && (owned_fds@[i].listen_state == Ok::<bool, Errno>(true)
            || owned_fds@[i].listen_state == Err::<bool, Errno>(Errno::NoProtocolOption))
            && owned_fds@[i].nonblocking is Ok && owned_fds@[i].local_address is Ok,
    ensures
        owned_fds@[at].socket_type matches Err(cause) ==> (result matches Err(
            ActivationError::Descriptors(DescriptorProblem::Listener { name: unfit, problem }),
        ) && unfit == name && problem == ListenerProblem::TypeUnreadable(cause)),
        owned_fds@[at].socket_type matches Ok(kind) ==> kind != SocketType::Stream ==> (result matches Err(
            ActivationError::Descriptors(DescriptorProblem::Listener { name: unfit, problem }),
        ) && unfit == name && problem == ListenerProblem::NotTcp),
        owned_fds@[at].socket_type == Ok::<SocketType, Errno>(SocketType::Stream) ==> {
            &&& owned_fds@[at].listen_state matches Err(cause) ==> cause
                != Errno::NoProtocolOption ==> (result matches Err(
            ActivationError::Descriptors(DescriptorProblem::Listener { name: unfit, problem }),
        ) && unfit == name && problem == ListenerProblem::ListenStateUnreadable(cause))
            &&& owned_fds@[at].listen_state == Ok::<bool, Errno>(false) ==> (result matches Err(
            ActivationError::Descriptors(DescriptorProblem::Listener { name: unfit, problem }),
        ) && unfit == name && problem == ListenerProblem::NotListening)
            &&& owned_fds@[at].listen_state == Ok::<bool, Errno>(true)
                || owned_fds@[at].listen_state == Err::<bool, Errno>(Errno::NoProtocolOption) ==> {
                &&& owned_fds@[at].nonblocking matches Err(cause) ==> (result matches Err(
            ActivationError::Descriptors(DescriptorProblem::Listener { name: unfit, problem }),
        ) && unfit == name && problem == ListenerProblem::NonblockingFailed(cause))
                &&& owned_fds@[at].nonblocking is Ok ==> (
                owned_fds@[at].local_address matches Err(cause) ==> (result matches Err(
            ActivationError::Descriptors(DescriptorProblem::Listener { name: unfit, problem }),
        ) && unfit == name && problem == ListenerProblem::AddressUnreadable(cause)))
            }
        },
{
    assert forall|i: int| 0 <= i < at implies (#[trigger] descriptor_problem(
        fd_names@,
        owned_fds@,
        i,
    )) is None by {
        assert(fd_names@[i] is Some ==> owned_fds@[i].listener_problem() is None);
    }
    law_first_problem_decides(fd_names@, owned_fds@, at as nat);
    if descriptor_problem(fd_names@, owned_fds@, at) is Some {
        lemma_first_descriptor_problem_stays(
            fd_names@,
            owned_fds@,
            (at + 1) as nat,
            fd_names@.len(),
        );
    }
}

/// A snapshot with descriptors supplied is taken over as its names are: nothing is if it
/// announces nothing, and what is wrong with the announcement is what is reported.
pub proof fn law_supplied_descriptors_are_taken_over_as_announced<L: Copy>(
    snapshot: ActivationEnv,
    process_id: u32,
    owned_fds: Vec<FdReport<L>>,
    parsed: Result<Option<Vec<Option<ActivationName>>>, ActivationError>,
    by_name: Result<ActivationSockets<L>, ActivationError>,
    result: Result<ActivationSockets<L>, ActivationError>,
)
    requires
        call_ensures(parse_activation_env, (&snapshot, process_id), parsed),
        parsed matches Ok(Some(fd_names)) ==> call_ensures(
            ActivationSockets::<L>::from_fd_names_and_owned_fds,
            (fd_names, owned_fds),
            by_name,
        ),
        call_ensures(
            ActivationSockets::<L>::from_snapshot_and_owned_fds,
            (snapshot, process_id, owned_fds),
            result,
        ),
    ensures
        match parsed {
            Err(fault) => result matches Err(error) && error@ == fault@,
            Ok(None) => result matches Ok(sockets) && sockets@ == Map::<
                ActivationName,
                L,
            >::empty(),
            Ok(Some(_)) => match by_name {
                Ok(expected) => result matches Ok(sockets) && sockets@ == expected@,
                Err(fault) => result matches Err(error) && error@ == fault@,
            },
        },
{
}

/// Taking over what a snapshot announces begins with a check of descriptor number three, and
/// keeps the names announced; with nothing announced there is nothing to do, and a faulty
/// announcement is refused as such.
pub proof fn law_takeover_begins_as_announced<L>(
    snapshot: ActivationEnv,
    process_id: u32,
    parsed: Result<Option<Vec<Option<ActivationName>>>, ActivationError>,
    begun: Result<Handover<L>, ActivationError>,
    request: Option<crate::handover::Request>,
)
    requires
        call_ensures(parse_activation_env, (&snapshot, process_id), parsed),
        call_ensures(ActivationSockets::<L>::from_snapshot, (snapshot, process_id), begun),
        begun matches Ok(handover) ==> call_ensures(
            Handover::<L>::request,
            (&handover,),
            request,
        ),
    ensures
        match parsed {
            Err(fault) => begun matches Err(error) && error@ == fault@,
            Ok(None) => request is None && (begun matches Ok(handover) && handover.wf()
                && handover@.sockets == Map::<ActivationName, L>::empty()),
            Ok(Some(fd_names)) => request == Some(
                crate::handover::Request { index: 0, action: Action::CheckOpen { raw_fd: 3 } },
            ) && (begun matches Ok(handover) && handover.wf() && handover@.names == fd_names@
                && handover@.sockets == Map::<ActivationName, L>::empty()),
        },
{
    if let Ok(Some(fd_names)) = parsed {
        crate::activation_env::law_accepted_names(snapshot@, process_id, fd_names@);
    }
}

/// Of the descriptors that a snapshot announces, the first one that is not open is reported
/// by its number, which is three more than its place, whatever is true of the others.
pub proof fn law_first_closed_descriptor_is_reported<L: Copy>(
    snapshot: ActivationEnv,
    process_id: u32,
    fd_names: Vec<Option<ActivationName>>,
    handover: Handover<L>,
    reports: Vec<FdReport<L>>,
    result: Result<ActivationSockets<L>, ActivationError>,
    at: int,
)
    requires
        call_ensures(parse_activation_env, (&snapshot, process_id), Ok(Some(fd_names))),
        call_ensures(ActivationSockets::<L>::from_snapshot, (snapshot, process_id), Ok(handover)),
        call_ensures(run_handover::<L>, (handover, &reports), result),
        reports@.len() == fd_names@.len(),
        0 <= at < reports@.len(),
        at <= i32::MAX - 3,
        reports@[at].open is Err,
        forall|i: int| 0 <= i < at ==> (#[trigger] reports@[i]).open is Ok,
    ensures
        result matches Err(
            ActivationError::Descriptors(DescriptorProblem::NotOpen { raw_fd, cause }),
        ) && raw_fd == 3 + at && reports@[at].open == Err::<(), Errno>(cause),
{
    crate::activation_env::law_accepted_names(snapshot@, process_id, fd_names@);
    law_closed_descriptor_is_reported_first(fd_names@, reports@, at as nat);
    assert(reports.len() <= usize::MAX);
}

/// Descriptors that a snapshot announces and that are all open are taken over just as if
/// they had been supplied under the names announced.
pub proof fn law_inherited_descriptors_are_taken_over_as_supplied<L: Copy>(
    snapshot: ActivationEnv,
    process_id: u32,
    fd_names: Vec<Option<ActivationName>>,
    handover: Handover<L>,
    reports: Vec<FdReport<L>>,
    supplied: Result<ActivationSockets<L>, ActivationError>,
    result: Result<ActivationSockets<L>, ActivationError>,
)
    requires
        call_ensures(parse_activation_env, (&snapshot, process_id), Ok(Some(fd_names))),
        call_ensures(ActivationSockets::<L>::from_snapshot, (snapshot, process_id), Ok(handover)),
        call_ensures(run_handover::<L>, (handover, &reports), result),
        call_ensures(
            ActivationSockets::<L>::from_fd_names_and_owned_fds,
            (fd_names, reports),
            supplied,
        ),
        reports@.len() == fd_names@.len(),
        forall|i: int| 0 <= i < reports@.len() ==> (#[trigger] reports@[i]).open is Ok,
    ensures
        match supplied {
            Ok(expected) => result matches Ok(sockets) && sockets@ == expected@,
            Err(fault) => result matches Err(error) && error@ == fault@,
        },
{
    crate::activation_env::law_accepted_names(snapshot@, process_id, fd_names@);
    law_open_descriptors_are_as_supplied(fd_names@, reports@);
}

/// What is taken over from the environment is what its variables announce, to the letter,
/// and they are unset by it; a variable that is not valid text is named, and then they all
/// stay as they are.
pub proof fn law_environment_is_taken_over_once<L>(
    env: &mut ProcessEnv,
    process_id: u32,
    snapshot: ActivationEnv,
    from_snapshot: Result<Handover<L>, ActivationError>,
    begun: Result<Handover<L>, ActivationError>,
)
    requires
        call_ensures(ActivationSockets::<L>::parse_from_env, (env, process_id), begun),
        call_ensures(ActivationSockets::<L>::from_snapshot, (snapshot, process_id), from_snapshot),
    ensures
        ({
            let announced_alike = |set: crate::activation_env::EnvValue, held: Option<String>|
                match (set, held) {
                    (crate::activation_env::EnvValue::Text(text), Some(copy)) => copy@ == text@,
                    (crate::activation_env::EnvValue::Unset, None) => true,
                    _ => false,
                };
            announced_alike(old(env).listen_pid, snapshot.listen_pid) && announced_alike(
                old(env).listen_fds,
                snapshot.listen_fds,
            ) && announced_alike(old(env).listen_fdnames, snapshot.listen_fdnames) ==> {
                &&& final(env).listen_pid is Unset
                &&& final(env).listen_fds is Unset
                &&& final(env).listen_fdnames is Unset
                &&& match from_snapshot {
                    Ok(expected) => begun matches Ok(handover) && handover.wf() && handover@
                        == expected@,
                    Err(fault) => begun matches Err(error) && error@ == fault@,
                }
            }
        }),
        old(env).listen_pid is NotUnicode || old(env).listen_fds is NotUnicode
            || old(env).listen_fdnames is NotUnicode ==> {
            &&& *final(env) == *old(env)
            &&& begun matches Err(
                ActivationError::Env { key, problem: crate::error::EnvProblem::NotUnicode },
            )
            &&& key@ == (if old(env).listen_pid is NotUnicode {
                "LISTEN_PID"@
            } else if old(env).listen_fds is NotUnicode {
                "LISTEN_FDS"@
            } else {
                "LISTEN_FDNAMES"@
            })
        },
{
}

/// A report answers each request with what it says on that matter, and no other.
pub proof fn law_report_answers_what_it_says<L: Copy>(
    report: FdReport<L>,
    action: Action,
    reply: Reply<L>,
)
    requires
        call_ensures(FdReport::<L>::answer, (&report, action), reply),
    ensures
        action is CheckOpen ==> reply == Reply::<L>::Open(report.open),
        action is ReadSocketType ==> reply == Reply::<L>::SocketType(report.socket_type),
        action is ReadListenState ==> reply == Reply::<L>::ListenState(report.listen_state),
        action is SetNonblocking ==> reply == Reply::<L>::Nonblocking(report.nonblocking),
        action is ReadLocalAddress ==> reply == Reply::LocalAddress(report.local_address),
        action is Close ==> reply is Closed,
{
}

} // verus!
