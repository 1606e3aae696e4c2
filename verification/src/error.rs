//! What can go wrong while listeners are taken over.

use vstd::prelude::*;

use crate::activation_name::ActivationName;
use crate::decimal::{integer_text, number_text, NumberFault};

verus! {

/// An error code of the operating system.
#[derive(Clone, Copy, Debug, PartialEq, Eq, Structural)]
pub enum Errno {
    /// The option is unknown to the protocol.
    NoProtocolOption,
    /// Any other code.
    Code(i32),
}

/// What is wrong with an environment variable.
#[derive(Clone, Copy, Debug, PartialEq, Eq, Structural)]
pub enum EnvProblem {
    Missing,
    NotUnicode,
    BadNumber(NumberFault),
}

/// What is wrong with the list of descriptor names.
#[derive(Clone, Copy, Debug, PartialEq, Eq, Structural)]
pub enum NamesProblem {
    CountMismatch { expected: usize, received: usize },
    EmptyEntry,
    Duplicate(ActivationName),
}

/// Why a descriptor cannot serve as the listener it is named for.
#[derive(Clone, Copy, Debug, PartialEq, Eq, Structural)]
pub enum ListenerProblem {
    TypeUnreadable(Errno),
    NotTcp,
    ListenStateUnreadable(Errno),
    NotListening,
    NonblockingFailed(Errno),
    AddressUnreadable(Errno),
}

/// What is wrong with the inherited descriptors.
#[derive(Clone, Copy, Debug, PartialEq, Eq, Structural)]
pub enum DescriptorProblem {
    CountMismatch { expected: usize, received: usize },
    NotOpen { raw_fd: i32, cause: Errno },
    Listener { name: ActivationName, problem: ListenerProblem },
}

/// Why listeners could not be taken over.
#[derive(Debug, PartialEq, Eq)]
pub enum ActivationError {
    Env { key: String, problem: EnvProblem },
    Names(NamesProblem),
    Descriptors(DescriptorProblem),
}

/// An [`ActivationError`] with its text as a sequence of characters.
pub enum Refusal {
    Env { key: Seq<char>, problem: EnvProblem },
    Names(NamesProblem),
    Descriptors(DescriptorProblem),
}

impl View for ActivationError {
    type V = Refusal;

    open spec fn view(&self) -> Refusal {
        match *self {
            ActivationError::Env { key, problem } => Refusal::Env { key: key@, problem },
            ActivationError::Names(problem) => Refusal::Names(problem),
            ActivationError::Descriptors(problem) => Refusal::Descriptors(problem),
        }
    }
}

impl EnvProblem {
    /// The message for this problem with the variable `key`.
    pub open spec fn text(self, key: Seq<char>) -> Seq<char> {
        match self {
            EnvProblem::Missing => "socket activation env var "@ + key + " is required"@,
            EnvProblem::NotUnicode => "socket activation env var "@ + key
                + " is not valid UTF-8"@,
            EnvProblem::BadNumber(_) => "failed to parse socket activation env var "@ + key,
        }
    }

    /// Describes this problem with the variable `key`.
    pub fn message(self, key: &str) -> (text: String)
        ensures
            text@ == self.text(key@),
    {
        match self {
            EnvProblem::Missing => concat3("socket activation env var ", key, " is required"),
            EnvProblem::NotUnicode => concat3(
                "socket activation env var ",
                key,
                " is not valid UTF-8",
            ),
            EnvProblem::BadNumber(_) => concat2("failed to parse socket activation env var ", key),
        }
    }
}

impl NamesProblem {
    /// The message for this problem.
    pub open spec fn text(self) -> Seq<char> {
        match self {
            NamesProblem::CountMismatch { expected, received } => "socket activation expected "@
                + crate::decimal::numeral(expected as nat)
                + " entries in LISTEN_FDNAMES but received "@ + crate::decimal::numeral(
                received as nat,
            ),
            NamesProblem::EmptyEntry =>
                "socket activation does not allow empty entries in LISTEN_FDNAMES"@,
            NamesProblem::Duplicate(name) => "socket activation received duplicate listener name "@
                + name.text(),
        }
    }

    /// Describes this problem.
    pub fn message(self) -> (text: String)
        ensures
            text@ == self.text(),
    {
        match self {
            NamesProblem::CountMismatch { expected, received } => {
                let expected = number_text(expected as u64);
                let received = number_text(received as u64);
                let mut text = concat3(
                    "socket activation expected ",
                    expected.as_str(),
                    " entries in LISTEN_FDNAMES but received ",
                );
                text.append(received.as_str());
                text
            },
            NamesProblem::EmptyEntry =>
                "socket activation does not allow empty entries in LISTEN_FDNAMES".to_owned(),
            NamesProblem::Duplicate(name) => concat2(
                "socket activation received duplicate listener name ",
                name.as_str(),
            ),
        }
    }
}

impl ListenerProblem {
    /// The message for this problem with the listener `name`.
    pub open spec fn text(self, name: ActivationName) -> Seq<char> {
        match self {
            ListenerProblem::TypeUnreadable(_) =>
                "failed to inspect socket type for inherited listener "@ + name.text(),
            ListenerProblem::NotTcp => "inherited listener "@ + name.text()
                + " is not a TCP socket"@,
            ListenerProblem::ListenStateUnreadable(_) =>
                "failed to inspect listen state for inherited listener "@ + name.text(),
            ListenerProblem::NotListening => "inherited listener "@ + name.text()
                + " is not in a listening state"@,
            ListenerProblem::NonblockingFailed(_) => "failed to set "@ + name.text()
                + " listener to nonblocking"@,
            ListenerProblem::AddressUnreadable(_) =>
                "failed to inspect local address for inherited listener "@ + name.text(),
        }
    }

    /// Describes this problem with the listener `name`.
    pub fn message(self, name: ActivationName) -> (text: String)
        ensures
            text@ == self.text(name),
    {
        match self {
            ListenerProblem::TypeUnreadable(_) => concat2(
                "failed to inspect socket type for inherited listener ",
                name.as_str(),
            ),
            ListenerProblem::NotTcp => concat3(
                "inherited listener ",
                name.as_str(),
                " is not a TCP socket",
            ),
            ListenerProblem::ListenStateUnreadable(_) => concat2(
                "failed to inspect listen state for inherited listener ",
                name.as_str(),
            ),
            ListenerProblem::NotListening => concat3(
                "inherited listener ",
                name.as_str(),
                " is not in a listening state",
            ),
            ListenerProblem::NonblockingFailed(_) => concat3(
                "failed to set ",
                name.as_str(),
                " listener to nonblocking",
            ),
            ListenerProblem::AddressUnreadable(_) => concat2(
                "failed to inspect local address for inherited listener ",
                name.as_str(),
            ),
        }
    }
}

impl DescriptorProblem {
    /// The message for this problem.
    pub open spec fn text(self) -> Seq<char> {
        match self {
            DescriptorProblem::CountMismatch { expected, received } =>
                "socket activation expected "@ + crate::decimal::numeral(expected as nat)
                + " file descriptors but received "@ + crate::decimal::numeral(received as nat),
            DescriptorProblem::NotOpen { raw_fd, cause: _ } => "socket activation file descriptor "@
                + crate::decimal::signed_numeral(raw_fd as int) + " is not open"@,
            DescriptorProblem::Listener { name, problem } => problem.text(name),
        }
    }

    /// Describes this problem.
    pub fn message(self) -> (text: String)
        ensures
            text@ == self.text(),
    {
        match self {
            DescriptorProblem::CountMismatch { expected, received } => {
                let expected = number_text(expected as u64);
                let received = number_text(received as u64);
                let mut text = concat3(
                    "socket activation expected ",
                    expected.as_str(),
                    " file descriptors but received ",
                );
                text.append(received.as_str());
                text
            },
            DescriptorProblem::NotOpen { raw_fd, cause: _ } => {
                let raw_fd = integer_text(raw_fd);
                concat3("socket activation file descriptor ", raw_fd.as_str(), " is not open")
            },
            DescriptorProblem::Listener { name, problem } => problem.message(name),
        }
    }
}

impl Refusal {
    /// The message for this error.
    pub open spec fn text(self) -> Seq<char> {
        match self {
            Refusal::Env { key, problem } => problem.text(key),
            Refusal::Names(problem) => problem.text(),
            Refusal::Descriptors(problem) => problem.text(),
        }
    }
}

impl ActivationError {
    /// Describes this error.
    pub fn message(&self) -> (text: String)
        ensures
            text@ == self@.text(),
    {
        match self {
            ActivationError::Env { key, problem } => problem.message(key.as_str()),
            ActivationError::Names(problem) => problem.message(),
            ActivationError::Descriptors(problem) => problem.message(),
        }
    }
}

/// Puts two texts together.
fn concat2(a: &str, b: &str) -> (text: String)
    ensures
        text@ == a@ + b@,
{
    let mut text = a.to_owned();
    text.append(b);
    text
}

/// Puts three texts together.
fn concat3(a: &str, b: &str, c: &str) -> (text: String)
    ensures
        text@ == a@ + b@ + c@,
{
    let mut text = concat2(a, b);
    text.append(c);
    text
}

/// An error with an environment variable says which variable it is and what is wrong.
pub proof fn law_messages_on_variables(key: String, problem: EnvProblem, text: String)
    requires
        call_ensures(ActivationError::message, (&ActivationError::Env { key, problem },), text),
    ensures
        problem is Missing ==> text@ == "socket activation env var "@ + key@ + " is required"@,
        problem is NotUnicode ==> text@ == "socket activation env var "@ + key@
            + " is not valid UTF-8"@,
        problem is BadNumber ==> text@ == "failed to parse socket activation env var "@ + key@,
{
}

/// An error with the list of names says what is wrong, with the numbers or the name at fault.
pub proof fn law_messages_on_names(problem: NamesProblem, text: String)
    requires
        call_ensures(ActivationError::message, (&ActivationError::Names(problem),), text),
    ensures
        problem matches NamesProblem::CountMismatch { expected, received } ==> text@
            == "socket activation expected "@ + crate::decimal::numeral(expected as nat)
            + " entries in LISTEN_FDNAMES but received "@ + crate::decimal::numeral(
            received as nat,
        ),
        problem is EmptyEntry ==> text@
            == "socket activation does not allow empty entries in LISTEN_FDNAMES"@,
        problem matches NamesProblem::Duplicate(name) ==> text@
            == "socket activation received duplicate listener name "@ + name.text(),
{
}

/// An error with the descriptors as a whole says what is wrong, with the numbers at fault.
pub proof fn law_messages_on_descriptors(problem: DescriptorProblem, text: String)
    requires
        call_ensures(ActivationError::message, (&ActivationError::Descriptors(problem),), text),
    ensures
        problem matches DescriptorProblem::CountMismatch { expected, received } ==> text@
            == "socket activation expected "@ + crate::decimal::numeral(expected as nat)
            + " file descriptors but received "@ + crate::decimal::numeral(received as nat),
        problem matches DescriptorProblem::NotOpen { raw_fd, .. } ==> text@
            == "socket activation file descriptor "@ + crate::decimal::signed_numeral(
            raw_fd as int,
        ) + " is not open"@,
{
}

/// An error with one descriptor says for which listener it was meant and what is wrong.
pub proof fn law_messages_on_listeners(
    name: ActivationName,
    problem: ListenerProblem,
    text: String,
)
    requires
        call_ensures(
            ActivationError::message,
            (&ActivationError::Descriptors(DescriptorProblem::Listener { name, problem }),),
            text,
        ),
    ensures
        problem is TypeUnreadable ==> text@
            == "failed to inspect socket type for inherited listener "@ + name.text(),
        problem is NotTcp ==> text@ == "inherited listener "@ + name.text()
            + " is not a TCP socket"@,
        problem is ListenStateUnreadable ==> text@
            == "failed to inspect listen state for inherited listener "@ + name.text(),
        problem is NotListening ==> text@ == "inherited listener "@ + name.text()
            + " is not in a listening state"@,
        problem is NonblockingFailed ==> text@ == "failed to set "@ + name.text()
            + " listener to nonblocking"@,
        problem is AddressUnreadable ==> text@
            == "failed to inspect local address for inherited listener "@ + name.text(),
{
}

} // verus!
