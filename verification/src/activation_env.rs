//! The environment variables that announce inherited listeners.
//!
//! The service manager sets `LISTEN_PID` to the process that the listeners are meant for,
//! `LISTEN_FDS` to how many descriptors it hands over, and `LISTEN_FDNAMES` to their names,
//! separated by colons.

use std::collections::HashSet;

use vstd::prelude::*;

use crate::activation_name::ActivationName;
use crate::decimal::parse_number;
use crate::error::{ActivationError, EnvProblem, NamesProblem, Refusal};
use crate::text::split_text;

verus! {

broadcast use vstd::std_specs::hash::group_hash_axioms;

/// The variable that holds the process the listeners are meant for.
pub const LISTEN_PID_ENV_VAR: &'static str = "LISTEN_PID";

/// The variable that holds the number of descriptors.
pub const LISTEN_FDS_ENV_VAR: &'static str = "LISTEN_FDS";

/// The variable that holds the names of the descriptors.
pub const LISTEN_FDNAMES_ENV_VAR: &'static str = "LISTEN_FDNAMES";

/// The state of one environment variable.
#[derive(Debug, PartialEq, Eq)]
pub enum EnvValue {
    Unset,
    NotUnicode,
    Text(String),
}

/// The activation variables of the process.
#[derive(Debug, PartialEq, Eq)]
pub struct ProcessEnv {
    pub listen_pid: EnvValue,
    pub listen_fds: EnvValue,
    pub listen_fdnames: EnvValue,
}

/// The texts of the activation variables at one moment.
#[derive(Debug, PartialEq, Eq)]
pub struct ActivationEnv {
    pub listen_pid: Option<String>,
    pub listen_fds: Option<String>,
    pub listen_fdnames: Option<String>,
}

/// An [`ActivationEnv`] with its texts as sequences of characters.
pub struct EnvTexts {
    pub listen_pid: Option<Seq<char>>,
    pub listen_fds: Option<Seq<char>>,
    pub listen_fdnames: Option<Seq<char>>,
}

/// The characters of an optional text.
pub open spec fn optional_text(value: Option<String>) -> Option<Seq<char>> {
    match value {
        Some(text) => Some(text@),
        None => None,
    }
}

/// The characters of an optional text slice.
pub open spec fn optional_str(value: Option<&str>) -> Option<Seq<char>> {
    match value {
        Some(text) => Some(text@),
        None => None,
    }
}

impl View for ActivationEnv {
    type V = EnvTexts;

    open spec fn view(&self) -> EnvTexts {
        EnvTexts {
            listen_pid: optional_text(self.listen_pid),
            listen_fds: optional_text(self.listen_fds),
            listen_fdnames: optional_text(self.listen_fdnames),
        }
    }
}

impl Default for ActivationEnv {
    /// Holds no text.
    fn default() -> (env: Self)
        ensures
            env@ == (EnvTexts { listen_pid: None, listen_fds: None, listen_fdnames: None }),
            env.listen_pid is None,
            env.listen_fds is None,
            env.listen_fdnames is None,
    {
        ActivationEnv { listen_pid: None, listen_fds: None, listen_fdnames: None }
    }
}

impl EnvValue {
    /// The text that the variable is set to, if it is set to one.
    pub open spec fn text(self) -> Option<Seq<char>> {
        match self {
            EnvValue::Text(text) => Some(text@),
            _ => None,
        }
    }
}

impl ProcessEnv {
    /// The texts that the variables are set to.
    pub open spec fn texts(self) -> EnvTexts {
        EnvTexts {
            listen_pid: self.listen_pid.text(),
            listen_fds: self.listen_fds.text(),
            listen_fdnames: self.listen_fdnames.text(),
        }
    }

    /// The first variable, in reading order, whose value is not valid text.
    pub open spec fn first_unreadable(self) -> Option<Seq<char>> {
        if self.listen_pid is NotUnicode {
            Some(LISTEN_PID_ENV_VAR@)
        } else if self.listen_fds is NotUnicode {
            Some(LISTEN_FDS_ENV_VAR@)
        } else if self.listen_fdnames is NotUnicode {
            Some(LISTEN_FDNAMES_ENV_VAR@)
        } else {
            None
        }
    }

    /// Tells whether none of the variables is set.
    pub open spec fn is_clear(self) -> bool {
        &&& self.listen_pid is Unset
        &&& self.listen_fds is Unset
        &&& self.listen_fdnames is Unset
    }
}

/// The number, `max` at most, that the variable `key` has to hold.
pub open spec fn required_number(value: Option<Seq<char>>, key: Seq<char>, max: nat) -> Result<
    nat,
    Refusal,
> {
    match value {
        None => Err(Refusal::Env { key, problem: EnvProblem::Missing }),
        Some(text) => match crate::decimal::number(text, max) {
            Ok(n) => Ok(n),
            Err(fault) => Err(Refusal::Env { key, problem: EnvProblem::BadNumber(fault) }),
        },
    }
}

/// The listener that the entry at `i` stands for.
pub open spec fn listed_name(entries: Seq<Seq<char>>, i: int) -> Option<ActivationName> {
    crate::activation_name::named_listener(entries[i])
}

/// The listeners that a list of entries stands for.
pub open spec fn listed_names(entries: Seq<Seq<char>>) -> Seq<Option<ActivationName>> {
    Seq::new(entries.len(), |i: int| listed_name(entries, i))
}

/// What is wrong with the entry at `i`: it is empty, or it names a supported listener that
/// an earlier entry has named already. Entries for other listeners may repeat.
pub open spec fn entry_problem(entries: Seq<Seq<char>>, i: int) -> Option<NamesProblem> {
    if entries[i].len() == 0 {
        Some(NamesProblem::EmptyEntry)
    } else {
        match listed_name(entries, i) {
            Some(name) => if exists|j: int|
                0 <= j < i && #[trigger] listed_name(entries, j) == Some(name) {
                Some(NamesProblem::Duplicate(name))
            } else {
                None
            },
            None => None,
        }
    }
}

/// The problem of the first faulty entry among the first `n`.
pub open spec fn first_entry_problem(entries: Seq<Seq<char>>, n: nat) -> Option<NamesProblem>
    decreases n,
{
    if n == 0 {
        None
    } else {
        match first_entry_problem(entries, (n - 1) as nat) {
            Some(problem) => Some(problem),
            None => entry_problem(entries, n - 1),
        }
    }
}

/// The names of the descriptors handed to the process `process_id`, one for each descriptor
/// and `None` where it is not a supported one; or `None` altogether if nothing is handed to it.
pub open spec fn announced_names(env: EnvTexts, process_id: u32) -> Result<
    Option<Seq<Option<ActivationName>>>,
    Refusal,
> {
    if env.listen_pid is None && env.listen_fds is None && env.listen_fdnames is None {
        Ok(None)
    } else {
        match required_number(env.listen_pid, LISTEN_PID_ENV_VAR@, u32::MAX as nat) {
            Err(refusal) => Err(refusal),
            Ok(listen_pid) => if listen_pid != process_id {
                Ok(None)
            } else {
                announced_to_this_process(env)
            },
        }
    }
}

/// What [`announced_names`] is once `LISTEN_PID` is known to be this process.
pub open spec fn announced_to_this_process(env: EnvTexts) -> Result<
    Option<Seq<Option<ActivationName>>>,
    Refusal,
> {
    match required_number(env.listen_fds, LISTEN_FDS_ENV_VAR@, usize::MAX as nat) {
        Err(refusal) => Err(refusal),
        Ok(listen_fds) => if listen_fds == 0 {
            Ok(None)
        } else {
            match env.listen_fdnames {
                None => Err(
                    Refusal::Env { key: LISTEN_FDNAMES_ENV_VAR@, problem: EnvProblem::Missing },
                ),
                Some(fdnames) => match names_of_descriptors(
                    crate::text::split(fdnames, ':'),
                    listen_fds,
                ) {
                    Ok(names) => Ok(Some(names)),
                    Err(problem) => Err(Refusal::Names(problem)),
                },
            }
        },
    }
}

/// The names that a list of entries gives to `count` descriptors.
pub open spec fn names_of_descriptors(entries: Seq<Seq<char>>, count: nat) -> Result<
    Seq<Option<ActivationName>>,
    NamesProblem,
> {
    if entries.len() != count {
        Err(
            NamesProblem::CountMismatch {
                expected: count as usize,
                received: entries.len() as usize,
            },
        )
    } else {
        match first_entry_problem(entries, entries.len()) {
            Some(problem) => Err(problem),
            None => Ok(listed_names(entries)),
        }
    }
}

/// Takes the text of the variable `key` from its value.
pub fn read_env_var(key: &str, value: &EnvValue) -> (read: Result<Option<String>, ActivationError>)
    ensures
        match read {
            Ok(text) => !(value is NotUnicode) && optional_text(text) == value.text(),
            Err(error) => value is NotUnicode && error@ == (Refusal::Env {
                key: key@,
                problem: EnvProblem::NotUnicode,
            }),
        },
{
    match value {
        EnvValue::Text(text) => Ok(Some(text.clone())),
        EnvValue::Unset => Ok(None),
        EnvValue::NotUnicode => Err(
            ActivationError::Env { key: key.to_owned(), problem: EnvProblem::NotUnicode },
        ),
    }
}

impl ActivationEnv {
    /// Takes the activation variables out of the environment.
    ///
    /// Once all three are read they are unset. If one of them is not valid text, the
    /// environment stays as it is.
    pub fn snapshot_from_process_env(env: &mut ProcessEnv) -> (snapshot: Result<
        Self,
        ActivationError,
    >)
        ensures
            match snapshot {
                Ok(snapshot) => {
                    &&& old(env).first_unreadable() is None
                    &&& snapshot@ == old(env).texts()
                    &&& final(env).is_clear()
                },
                Err(error) => {
                    &&& old(env).first_unreadable() is Some
                    &&& error@ == (Refusal::Env {
                        key: old(env).first_unreadable()->0,
                        problem: EnvProblem::NotUnicode,
                    })
                    &&& *final(env) == *old(env)
                },
            },
    {
        let listen_pid = match read_env_var(LISTEN_PID_ENV_VAR, &env.listen_pid) {
            Ok(value) => value,
            Err(error) => return Err(error),
        };
        let listen_fds = match read_env_var(LISTEN_FDS_ENV_VAR, &env.listen_fds) {
            Ok(value) => value,
            Err(error) => return Err(error),
        };
        let listen_fdnames = match read_env_var(LISTEN_FDNAMES_ENV_VAR, &env.listen_fdnames) {
            Ok(value) => value,
            Err(error) => return Err(error),
        };
        env.listen_pid = EnvValue::Unset;
        env.listen_fds = EnvValue::Unset;
        env.listen_fdnames = EnvValue::Unset;
        Ok(ActivationEnv { listen_pid, listen_fds, listen_fdnames })
    }
}

/// Reads a number that the variable `key` has to hold.
fn parse_required(value: Option<&str>, key: &str, max: u64) -> (parsed: Result<
    u64,
    ActivationError,
>)
    ensures
        match parsed {
            Ok(n) => required_number(optional_str(value), key@, max as nat) == Ok::<nat, Refusal>(
                n as nat,
            ),
            Err(error) => required_number(optional_str(value), key@, max as nat) == Err::<
                nat,
                Refusal,
            >(error@),
        },
{
    match value {
        None => Err(ActivationError::Env { key: key.to_owned(), problem: EnvProblem::Missing }),
        Some(text) => match parse_number(text, max) {
            Ok(n) => Ok(n),
            Err(fault) => Err(
                ActivationError::Env {
                    key: key.to_owned(),
                    problem: EnvProblem::BadNumber(fault),
                },
            ),
        },
    }
}

/// Borrows an optional text.
fn as_text(value: &Option<String>) -> (text: Option<&str>)
    ensures
        optional_str(text) == optional_text(*value),
{
    match value {
        Some(text) => Some(text.as_str()),
        None => None,
    }
}

/// Reads the 32-bit number that the variable `key` has to hold.
pub fn parse_required_u32(value: Option<&str>, key: &str) -> (parsed: Result<u32, ActivationError>)
    ensures
        match parsed {
            Ok(n) => required_number(optional_str(value), key@, u32::MAX as nat) == Ok::<
                nat,
                Refusal,
            >(n as nat),
            Err(error) => required_number(optional_str(value), key@, u32::MAX as nat) == Err::<
                nat,
                Refusal,
            >(error@),
        },
{
    match parse_required(value, key, u32::MAX as u64) {
        Ok(n) => {
            proof {
                if let Some(text) = value {
                    crate::decimal::law_number_accepts_digits_in_range(text@, u32::MAX as nat);
                }
            }
            Ok(n as u32)
        },
        Err(error) => Err(error),
    }
}

/// Reads the pointer-sized number that the variable `key` has to hold.
pub fn parse_required_usize(value: Option<&str>, key: &str) -> (parsed: Result<
    usize,
    ActivationError,
>)
    ensures
        match parsed {
            Ok(n) => required_number(optional_str(value), key@, usize::MAX as nat) == Ok::<
                nat,
                Refusal,
            >(n as nat),
            Err(error) => required_number(optional_str(value), key@, usize::MAX as nat) == Err::<
                nat,
                Refusal,
            >(error@),
        },
{
    match parse_required(value, key, usize::MAX as u64) {
        Ok(n) => {
            proof {
                if let Some(text) = value {
                    crate::decimal::law_number_accepts_digits_in_range(text@, usize::MAX as nat);
                }
            }
            Ok(n as usize)
        },
        Err(error) => Err(error),
    }
}

/// Works out which descriptors were handed to the process `process_id`, and under which
/// names.
///
/// The result is `None` if the variables are not set, are meant for another process, or
/// announce no descriptor. A name that is not a supported one keeps its place as `None`.
pub fn parse_activation_env(snapshot: &ActivationEnv, process_id: u32) -> (parsed: Result<
    Option<Vec<Option<ActivationName>>>,
    ActivationError,
>)
    ensures
        match parsed {
            Ok(None) => announced_names(snapshot@, process_id) == Ok::<
                Option<Seq<Option<ActivationName>>>,
                Refusal,
            >(None),
            Ok(Some(names)) => announced_names(snapshot@, process_id) == Ok::<
                Option<Seq<Option<ActivationName>>>,
                Refusal,
            >(Some(names@)),
            Err(error) => announced_names(snapshot@, process_id) == Err::<
                Option<Seq<Option<ActivationName>>>,
                Refusal,
            >(error@),
        },
{
    if snapshot.listen_pid.is_none() && snapshot.listen_fds.is_none()
        && snapshot.listen_fdnames.is_none() {
        return Ok(None);
    }
    let listen_pid: u32 = match parse_required_u32(
        as_text(&snapshot.listen_pid),
        LISTEN_PID_ENV_VAR,
    ) {
        Ok(listen_pid) => listen_pid,
        Err(error) => return Err(error),
    };
    if listen_pid != process_id {
        return Ok(None);
    }
    let listen_fds: usize = match parse_required_usize(
        as_text(&snapshot.listen_fds),
        LISTEN_FDS_ENV_VAR,
    ) {
        Ok(listen_fds) => listen_fds,
        Err(error) => return Err(error),
    };
    if listen_fds == 0 {
        return Ok(None);
    }
    let fdnames: &str = match &snapshot.listen_fdnames {
        Some(fdnames) => fdnames.as_str(),
        None => {
            return Err(
                ActivationError::Env {
                    key: LISTEN_FDNAMES_ENV_VAR.to_owned(),
                    problem: EnvProblem::Missing,
                },
            );
        },
    };
    let split_names = split_text(fdnames, ':');
    if split_names.len() != listen_fds {
        return Err(
            ActivationError::Names(
                NamesProblem::CountMismatch { expected: listen_fds, received: split_names.len() },
            ),
        );
    }
    assert(split_names@.map_values(|entry: &str| entry@) =~= crate::text::split(fdnames@, ':'));
    match parse_entries(&split_names) {
        Ok(names) => Ok(Some(names)),
        Err(problem) => Err(ActivationError::Names(problem)),
    }
}

/// Looks up the listener of every entry.
fn parse_entries(entries: &Vec<&str>) -> (parsed: Result<Vec<Option<ActivationName>>, NamesProblem>)
    ensures
        ({
            let texts = entries@.map_values(|entry: &str| entry@);
            match parsed {
                Ok(names) => first_entry_problem(texts, texts.len()) is None && names@
                    == listed_names(texts),
                Err(problem) => first_entry_problem(texts, texts.len()) == Some(problem),
            }
        }),
{
    let ghost texts = entries@.map_values(|entry: &str| entry@);
    let mut seen_supported_names: HashSet<u8> = HashSet::new();
    let mut parsed_names: Vec<Option<ActivationName>> = Vec::with_capacity(entries.len());
    let mut i: usize = 0;
    while i < entries.len()
        invariant
            i <= entries@.len(),
            texts == entries@.map_values(|entry: &str| entry@),
            first_entry_problem(texts, i as nat) is None,
            parsed_names@ == listed_names(texts).take(i as int),
            forall|name: ActivationName| #[trigger]
                seen_supported_names@.contains(name.key()) <==> exists|j: int|
                    0 <= j < i && #[trigger] listed_name(texts, j) == Some(name),
        decreases entries@.len() - i,
    {
        let entry: &str = entries[i];
        assert(texts[i as int] == entry@);
        if entry.is_empty() {
            proof {
                lemma_first_entry_problem_stays(texts, (i + 1) as nat, texts.len());
            }
            return Err(NamesProblem::EmptyEntry);
        }
        let maybe_name = ActivationName::from_fd_name(entry);
        assert(maybe_name == listed_name(texts, i as int));
        let ghost seen = seen_supported_names@;
        if let Some(name) = maybe_name {
            if !seen_supported_names.insert(name.collection_key()) {
                assert(seen.contains(name.key()));
                proof {
                    lemma_first_entry_problem_stays(texts, (i + 1) as nat, texts.len());
                }
                return Err(NamesProblem::Duplicate(name));
            }
            assert(!seen.contains(name.key()));
        }
        parsed_names.push(maybe_name);
        proof {
            assert(entry_problem(texts, i as int) is None);
            assert(listed_names(texts).take(i + 1) =~= listed_names(texts).take(i as int).push(
                maybe_name,
            ));
            assert forall|name: ActivationName| #[trigger]
                seen_supported_names@.contains(name.key()) <==> exists|j: int|
                    0 <= j < i + 1 && #[trigger] listed_name(texts, j) == Some(name) by {
                if maybe_name == Some(name) {
                    assert(listed_name(texts, i as int) == Some(name));
                } else {
                    assert(seen.contains(name.key()) == seen_supported_names@.contains(name.key()));
                }
            }
        }
        i = i + 1;
    }
    assert(listed_names(texts).take(i as int) =~= listed_names(texts));
    Ok(parsed_names)
}

/// The first problem stays the first one however many entries follow.
proof fn lemma_first_entry_problem_stays(entries: Seq<Seq<char>>, n: nat, m: nat)
    requires
        n <= m,
        first_entry_problem(entries, n) is Some,
    ensures
        first_entry_problem(entries, m) == first_entry_problem(entries, n),
    decreases m,
{
    if n < m {
        lemma_first_entry_problem_stays(entries, n, (m - 1) as nat);
    }
}

/// There is no first problem exactly where no entry has one.
proof fn lemma_no_first_entry_problem(entries: Seq<Seq<char>>, n: nat)
    ensures
        first_entry_problem(entries, n) is None <==> forall|i: int|
            0 <= i < n ==> (#[trigger] entry_problem(entries, i)) is None,
    decreases n,
{
    if n > 0 {
        lemma_no_first_entry_problem(entries, (n - 1) as nat);
    }
}

/// The environment that a snapshot leaves behind announces nothing to any process: the
/// listeners are taken over at most once.
pub proof fn law_clear_env_announces_nothing(env: ProcessEnv, process_id: u32)
    requires
        env.is_clear(),
    ensures
        announced_names(env.texts(), process_id) == Ok::<
            Option<Seq<Option<ActivationName>>>,
            Refusal,
        >(None),
{
}

/// Variables that are meant for another process are ignored, whatever the other two hold.
pub proof fn law_other_process_is_ignored(env: EnvTexts, listen_pid: nat, process_id: u32)
    requires
        required_number(env.listen_pid, LISTEN_PID_ENV_VAR@, u32::MAX as nat) == Ok::<nat, Refusal>(
            listen_pid,
        ),
        listen_pid != process_id,
    ensures
        announced_names(env, process_id) == Ok::<Option<Seq<Option<ActivationName>>>, Refusal>(
            None,
        ),
{
}

/// Where no descriptor is announced there is nothing to take over, whatever the names say.
pub proof fn law_no_descriptors_is_nothing(env: EnvTexts, process_id: u32)
    requires
        required_number(env.listen_pid, LISTEN_PID_ENV_VAR@, u32::MAX as nat) == Ok::<nat, Refusal>(
            process_id as nat,
        ),
        required_number(env.listen_fds, LISTEN_FDS_ENV_VAR@, usize::MAX as nat) == Ok::<
            nat,
            Refusal,
        >(0),
    ensures
        announced_names(env, process_id) == Ok::<Option<Seq<Option<ActivationName>>>, Refusal>(
            None,
        ),
{
}

/// Whatever the variables hold, accepted names are as many as the descriptors announced, at
/// least one, and no supported name occurs twice.
pub proof fn law_accepted_names(env: EnvTexts, process_id: u32, names: Seq<Option<ActivationName>>)
    requires
        announced_names(env, process_id) == Ok::<Option<Seq<Option<ActivationName>>>, Refusal>(
            Some(names),
        ),
    ensures
        names.len() > 0,
        required_number(env.listen_pid, LISTEN_PID_ENV_VAR@, u32::MAX as nat) == Ok::<nat, Refusal>(
            process_id as nat,
        ),
        required_number(env.listen_fds, LISTEN_FDS_ENV_VAR@, usize::MAX as nat) == Ok::<
            nat,
            Refusal,
        >(names.len()),
        forall|i: int, j: int|
            0 <= i < j < names.len() && names[i] is Some ==> #[trigger] names[i]
                != #[trigger] names[j],
{
    let entries = crate::text::split(env.listen_fdnames->0, ':');
    lemma_no_first_entry_problem(entries, entries.len());
    assert forall|i: int, j: int| 0 <= i < j < names.len() && names[i] is Some implies #[trigger] names[i]
        != #[trigger] names[j] by {
        assert(listed_name(entries, i) == names[i]);
        assert(entry_problem(entries, j) is None);
        assert(listed_name(entries, j) == names[j]);
    }
}

/// What is announced is what is read: for any list of names, none of them empty or holding
/// a colon and no supported one twice, the variables that spell out the process, the number
/// of names and the names with colons between them are read as just those names.
pub proof fn law_announcement_is_read_back(entries: Seq<Seq<char>>, process_id: u32)
    requires
        1 <= entries.len() <= usize::MAX,
        forall|i: int|
            0 <= i < entries.len() ==> (#[trigger] entries[i]).len() > 0 && !entries[i].contains(
                ':',
            ),
        forall|i: int, j: int|
            0 <= i < j < entries.len() && listed_name(entries, i) is Some
                ==> #[trigger] listed_name(entries, i) != #[trigger] listed_name(entries, j),
    ensures
        announced_names(
            EnvTexts {
                listen_pid: Some(crate::decimal::numeral(process_id as nat)),
                listen_fds: Some(crate::decimal::numeral(entries.len())),
                listen_fdnames: Some(crate::text::join(entries, ':')),
            },
            process_id,
        ) == Ok::<Option<Seq<Option<ActivationName>>>, Refusal>(Some(listed_names(entries))),
{
    crate::decimal::law_number_reads_numeral(process_id as nat, u32::MAX as nat);
    crate::decimal::law_number_reads_numeral(entries.len(), usize::MAX as nat);
    crate::text::law_split_undoes_join(entries, ':');
    assert forall|i: int| 0 <= i < entries.len() implies (#[trigger] entry_problem(
        entries,
        i,
    )) is None by {
        assert(entries[i].len() > 0);
    }
    lemma_no_first_entry_problem(entries, entries.len());
}

/// Distinct supported listeners, announced by their names, are read back as just those
/// listeners.
pub proof fn law_supported_names_are_read_back(names: Seq<ActivationName>, process_id: u32)
    requires
        1 <= names.len() <= usize::MAX,
        names.no_duplicates(),
    ensures
        announced_names(
            EnvTexts {
                listen_pid: Some(crate::decimal::numeral(process_id as nat)),
                listen_fds: Some(crate::decimal::numeral(names.len())),
                listen_fdnames: Some(
                    crate::text::join(names.map_values(|name: ActivationName| name.text()), ':'),
                ),
            },
            process_id,
        ) == Ok::<Option<Seq<Option<ActivationName>>>, Refusal>(
            Some(names.map_values(|name: ActivationName| Some(name))),
        ),
{
    let entries = names.map_values(|name: ActivationName| name.text());
    assert forall|i: int| 0 <= i < entries.len() implies (#[trigger] entries[i]).len() > 0
        && !entries[i].contains(':') && listed_name(entries, i) == Some(names[i]) by {
        crate::activation_name::law_names_can_be_listed(names[i]);
        crate::activation_name::law_lookup_inverts_naming(names[i], entries[i]);
    }
    assert forall|i: int, j: int|
        0 <= i < j < entries.len() && listed_name(entries, i) is Some implies #[trigger] listed_name(
        entries,
        i,
    ) != #[trigger] listed_name(entries, j) by {
        assert(entries[i].len() > 0 && entries[j].len() > 0);
    }
    law_announcement_is_read_back(entries, process_id);
    assert(listed_names(entries) =~= names.map_values(|name: ActivationName| Some(name))) by {
        assert forall|i: int| 0 <= i < names.len() implies listed_name(entries, i) == Some(
            names[i],
        ) by {
            assert(entries[i].len() > 0);
        }
    }
}

/// A variable that is set to a text is read as just that text, one that is not set as none,
/// and one that is not valid text is refused under its own name.
pub proof fn law_variable_is_read_as_it_is_set(
    key: &str,
    value: EnvValue,
    read: Result<Option<String>, ActivationError>,
)
    requires
        call_ensures(read_env_var, (key, &value), read),
    ensures
        value matches EnvValue::Text(text) ==> (read matches Ok(Some(t)) && t@ == text@),
        value is Unset ==> (read matches Ok(None)),
        value is NotUnicode ==> (read matches Err(ActivationError::Env { key: k, problem }) && k@
            == key@ && problem is NotUnicode),
{
}

/// A snapshot holds the text of a variable exactly where the variable is set, and that text
/// to the letter; and then none of the variables is set any more.
pub proof fn law_snapshot_holds_what_was_set(
    env: &mut ProcessEnv,
    taken: Result<ActivationEnv, ActivationError>,
    snapshot: ActivationEnv,
)
    requires
        call_ensures(ActivationEnv::snapshot_from_process_env, (env,), taken),
        taken == Ok::<ActivationEnv, ActivationError>(snapshot),
    ensures
        match (old(env).listen_pid, snapshot.listen_pid) {
            (EnvValue::Text(set), Some(read)) => read@ == set@,
            (EnvValue::Unset, None) => true,
            _ => false,
        },
        match (old(env).listen_fds, snapshot.listen_fds) {
            (EnvValue::Text(set), Some(read)) => read@ == set@,
            (EnvValue::Unset, None) => true,
            _ => false,
        },
        match (old(env).listen_fdnames, snapshot.listen_fdnames) {
            (EnvValue::Text(set), Some(read)) => read@ == set@,
            (EnvValue::Unset, None) => true,
            _ => false,
        },
        final(env).listen_pid is Unset,
        final(env).listen_fds is Unset,
        final(env).listen_fdnames is Unset,
{
}

/// A snapshot is refused exactly if a variable is not valid text; the first such one is
/// named, and every variable stays as it is.
pub proof fn law_snapshot_is_refused_for_invalid_text(
    env: &mut ProcessEnv,
    taken: Result<ActivationEnv, ActivationError>,
)
    requires
        call_ensures(ActivationEnv::snapshot_from_process_env, (env,), taken),
    ensures
        taken is Err <==> (old(env).listen_pid is NotUnicode || old(env).listen_fds is NotUnicode
            || old(env).listen_fdnames is NotUnicode),
        taken matches Err(error) ==> {
            &&& *final(env) == *old(env)
            &&& error matches ActivationError::Env { key, problem: EnvProblem::NotUnicode }
            &&& key@ == (if old(env).listen_pid is NotUnicode {
                "LISTEN_PID"@
            } else if old(env).listen_fds is NotUnicode {
                "LISTEN_FDS"@
            } else {
                "LISTEN_FDNAMES"@
            })
        },
{
}

/// A required 32-bit number is refused if there is no text, and otherwise it is the number
/// that the text spells, or the fault of that text.
pub proof fn law_required_u32(
    value: Option<&str>,
    key: &str,
    parsed: Result<u32, ActivationError>,
)
    requires
        call_ensures(parse_required_u32, (value, key), parsed),
    ensures
        value is None ==> (parsed matches Err(ActivationError::Env { key: k, problem }) && k@
            == key@ && problem is Missing),
        value matches Some(text) ==> match crate::decimal::number(text@, 4294967295) {
            Ok(n) => parsed matches Ok(m) && m == n,
            Err(fault) => parsed matches Err(ActivationError::Env { key: k, problem }) && k@
                == key@ && problem == EnvProblem::BadNumber(fault),
        },
{
}

/// A required pointer-sized number is refused if there is no text, and otherwise it is the
/// number that the text spells, or the fault of that text.
pub proof fn law_required_usize(
    value: Option<&str>,
    key: &str,
    parsed: Result<usize, ActivationError>,
)
    requires
        call_ensures(parse_required_usize, (value, key), parsed),
    ensures
        value is None ==> (parsed matches Err(ActivationError::Env { key: k, problem }) && k@
            == key@ && problem is Missing),
        value matches Some(text) ==> match crate::decimal::number(text@, usize::MAX as nat) {
            Ok(n) => parsed matches Ok(m) && m == n,
            Err(fault) => parsed matches Err(ActivationError::Env { key: k, problem }) && k@
                == key@ && problem == EnvProblem::BadNumber(fault),
        },
{
}

/// An announcement is accepted only if it is meant for this process, it counts as many
/// descriptors as there are entries between the colons, and no entry is empty; the names are
/// then those of the entries, all of them and in order, and no supported one occurs twice.
pub proof fn law_accepted_names_are_the_entries(
    snapshot: ActivationEnv,
    process_id: u32,
    parsed: Result<Option<Vec<Option<ActivationName>>>, ActivationError>,
    names: Vec<Option<ActivationName>>,
)
    requires
        call_ensures(parse_activation_env, (&snapshot, process_id), parsed),
        parsed == Ok::<Option<Vec<Option<ActivationName>>>, ActivationError>(Some(names)),
    ensures
        snapshot.listen_pid matches Some(pid) && crate::decimal::number(pid@, 4294967295) == Ok::<
            nat,
            crate::decimal::NumberFault,
        >(process_id as nat),
        snapshot.listen_fds matches Some(fds) && crate::decimal::number(fds@, usize::MAX as nat)
            == Ok::<nat, crate::decimal::NumberFault>(names@.len()),
        snapshot.listen_fdnames matches Some(fdnames) && {
            let entries = crate::text::split(fdnames@, ':');
            &&& names@.len() == entries.len()
            &&& forall|i: int|
                0 <= i < entries.len() ==> (#[trigger] entries[i]).len() > 0 && names@[i]
                    == crate::activation_name::named_listener(entries[i])
        },
        forall|i: int, j: int|
            0 <= i < j < names@.len() && (#[trigger] names@[i]) is Some ==> names@[i]
                != #[trigger] names@[j],
{
    law_accepted_names(snapshot@, process_id, names@);
    let entries = crate::text::split(snapshot.listen_fdnames->0@, ':');
    lemma_no_first_entry_problem(entries, entries.len());
    assert forall|i: int| 0 <= i < entries.len() implies (#[trigger] entries[i]).len() > 0
        && names@[i] == crate::activation_name::named_listener(entries[i]) by {
        assert(entry_problem(entries, i) is None);
    }
}

/// An announcement that is meant for this process, that counts as many descriptors as there
/// are entries between the colons, and in which no entry is empty and no supported name
/// occurs twice, is accepted.
pub proof fn law_sound_announcement_is_accepted(
    snapshot: ActivationEnv,
    process_id: u32,
    parsed: Result<Option<Vec<Option<ActivationName>>>, ActivationError>,
)
    requires
        call_ensures(parse_activation_env, (&snapshot, process_id), parsed),
        snapshot.listen_pid is Some,
        snapshot.listen_fds is Some,
        snapshot.listen_fdnames is Some,
        crate::decimal::number(snapshot.listen_pid->0@, 4294967295) == Ok::<
            nat,
            crate::decimal::NumberFault,
        >(process_id as nat),
        ({
            let entries = crate::text::split(snapshot.listen_fdnames->0@, ':');
            &&& crate::decimal::number(snapshot.listen_fds->0@, usize::MAX as nat) == Ok::<
                nat,
                crate::decimal::NumberFault,
            >(entries.len())
            &&& forall|i: int| 0 <= i < entries.len() ==> (#[trigger] entries[i]).len() > 0
            &&& forall|i: int, j: int|
                0 <= i < j < entries.len() && crate::activation_name::named_listener(
                    #[trigger] entries[i],
                ) is Some ==> crate::activation_name::named_listener(entries[i])
                    != crate::activation_name::named_listener(#[trigger] entries[j])
        }),
    ensures
        parsed matches Ok(Some(_)),
{
    let entries = crate::text::split(snapshot.listen_fdnames->0@, ':');
    crate::text::law_every_separator_adds_a_piece(snapshot.listen_fdnames->0@, ':');
    assert forall|i: int| 0 <= i < entries.len() implies (#[trigger] entry_problem(
        entries,
        i,
    )) is None by {
        assert(entries[i].len() > 0);
        assert forall|j: int|
            0 <= j < i && listed_name(entries, i) is Some implies #[trigger] listed_name(entries, j)
            != listed_name(entries, i) by {
            assert(entries[j].len() > 0);
        }
    }
    lemma_no_first_entry_problem(entries, entries.len());
}

/// There is nothing to take over exactly if no variable is set, or they are meant for another
/// process, or they are meant for this one and count no descriptor.
pub proof fn law_when_there_is_nothing_to_take_over(
    snapshot: ActivationEnv,
    process_id: u32,
    parsed: Result<Option<Vec<Option<ActivationName>>>, ActivationError>,
)
    requires
        call_ensures(parse_activation_env, (&snapshot, process_id), parsed),
    ensures
        (parsed matches Ok(None)) <==> {
            ||| snapshot.listen_pid is None && snapshot.listen_fds is None
                && snapshot.listen_fdnames is None
            ||| snapshot.listen_pid matches Some(pid) && crate::decimal::number(
                pid@,
                4294967295,
            ) matches Ok(n) && (n != process_id || (snapshot.listen_fds matches Some(fds)
                && crate::decimal::number(fds@, usize::MAX as nat) == Ok::<
                nat,
                crate::decimal::NumberFault,
            >(0)))
        },
{
}

/// Variables that are missing or spell no number are refused by name, in the order in which
/// they are needed: the process, the count, the names.
pub proof fn law_faulty_variable_is_named(
    snapshot: ActivationEnv,
    process_id: u32,
    parsed: Result<Option<Vec<Option<ActivationName>>>, ActivationError>,
)
    requires
        call_ensures(parse_activation_env, (&snapshot, process_id), parsed),
        snapshot.listen_pid is Some || snapshot.listen_fds is Some || snapshot.listen_fdnames
            is Some,
    ensures
        snapshot.listen_pid is None ==> (parsed matches Err(ActivationError::Env { key, problem })
            && key@ == "LISTEN_PID"@ && problem is Missing),
        snapshot.listen_pid matches Some(pid) ==> match crate::decimal::number(pid@, 4294967295) {
            Err(fault) => parsed matches Err(ActivationError::Env { key, problem }) && key@
                == "LISTEN_PID"@ && problem == EnvProblem::BadNumber(fault),
            Ok(n) => n == process_id ==> {
                &&& snapshot.listen_fds is None ==> (parsed matches Err(
                    ActivationError::Env { key, problem },
                ) && key@ == "LISTEN_FDS"@ && problem is Missing)
                &&& snapshot.listen_fds matches Some(fds) ==> match crate::decimal::number(
                    fds@,
                    usize::MAX as nat,
                ) {
                    Err(fault) => parsed matches Err(ActivationError::Env { key, problem })
                        && key@ == "LISTEN_FDS"@ && problem == EnvProblem::BadNumber(fault),
                    Ok(count) => count > 0 && snapshot.listen_fdnames is None ==> (
                    parsed matches Err(ActivationError::Env { key, problem }) && key@
                        == "LISTEN_FDNAMES"@ && problem is Missing),
                }
            },
        },
{
}

/// A count that is smaller or larger than the number of entries between the colons is
/// refused, with both numbers, whatever the entries are.
pub proof fn law_wrong_count_is_refused(
    snapshot: ActivationEnv,
    process_id: u32,
    parsed: Result<Option<Vec<Option<ActivationName>>>, ActivationError>,
    count: nat,
)
    requires
        call_ensures(parse_activation_env, (&snapshot, process_id), parsed),
        snapshot.listen_pid is Some,
        snapshot.listen_fds is Some,
        snapshot.listen_fdnames is Some,
        crate::decimal::number(snapshot.listen_pid->0@, 4294967295) == Ok::<
            nat,
            crate::decimal::NumberFault,
        >(process_id as nat),
        crate::decimal::number(snapshot.listen_fds->0@, usize::MAX as nat) == Ok::<
            nat,
            crate::decimal::NumberFault,
        >(count),
        count > 0,
        count != crate::text::split(snapshot.listen_fdnames->0@, ':').len(),
    ensures
        parsed matches Err(
            ActivationError::Names(NamesProblem::CountMismatch { expected, received }),
        ) && expected == count && received == crate::text::split(
            snapshot.listen_fdnames->0@,
            ':',
        ).len() as usize,
{
    crate::decimal::law_number_accepts_digits_in_range(
        snapshot.listen_fds->0@,
        usize::MAX as nat,
    );
}

/// Where the count is right, the first entry that is empty or repeats a supported name is
/// refused, whatever follows it.
pub proof fn law_first_faulty_entry_is_refused(
    snapshot: ActivationEnv,
    process_id: u32,
    parsed: Result<Option<Vec<Option<ActivationName>>>, ActivationError>,
    at: int,
)
    requires
        call_ensures(parse_activation_env, (&snapshot, process_id), parsed),
        snapshot.listen_pid is Some,
        snapshot.listen_fds is Some,
        snapshot.listen_fdnames is Some,
        crate::decimal::number(snapshot.listen_pid->0@, 4294967295) == Ok::<
            nat,
            crate::decimal::NumberFault,
        >(process_id as nat),
        ({
            let entries = crate::text::split(snapshot.listen_fdnames->0@, ':');
            &&& crate::decimal::number(snapshot.listen_fds->0@, usize::MAX as nat) == Ok::<
                nat,
                crate::decimal::NumberFault,
            >(entries.len())
            &&& 0 <= at < entries.len()
            &&& forall|i: int| 0 <= i < at ==> (#[trigger] entries[i]).len() > 0
            &&& forall|i: int, j: int|
                0 <= i < j < at && crate::activation_name::named_listener(
                    #[trigger] entries[i],
                ) is Some ==> crate::activation_name::named_listener(entries[i])
                    != crate::activation_name::named_listener(#[trigger] entries[j])
        }),
    ensures
        ({
            let entries = crate::text::split(snapshot.listen_fdnames->0@, ':');
            let named = crate::activation_name::named_listener(entries[at]);
            &&& entries[at].len() == 0 ==> (parsed matches Err(
                ActivationError::Names(NamesProblem::EmptyEntry),
            ))
            &&& entries[at].len() > 0 && named is Some && (exists|i: int|
                0 <= i < at && crate::activation_name::named_listener(#[trigger] entries[i])
                    == named) ==> (parsed matches Err(
                ActivationError::Names(NamesProblem::Duplicate(name)),
            ) && Some(name) == named)
        }),
{
    let entries = crate::text::split(snapshot.listen_fdnames->0@, ':');
    let named = crate::activation_name::named_listener(entries[at]);
    assert forall|i: int| 0 <= i < at implies (#[trigger] entry_problem(entries, i)) is None by {
        assert(entries[i].len() > 0);
        assert forall|j: int|
            0 <= j < i && listed_name(entries, i) is Some implies #[trigger] listed_name(entries, j)
            != listed_name(entries, i) by {
            assert(entries[j].len() > 0);
        }
    }
    lemma_no_first_entry_problem(entries, at as nat);
    if entries[at].len() > 0 && named is Some && (exists|i: int|
        0 <= i < at && crate::activation_name::named_listener(#[trigger] entries[i]) == named) {
        let i = choose|i: int|
            0 <= i < at && crate::activation_name::named_listener(#[trigger] entries[i]) == named;
        assert(listed_name(entries, i) == named);
    }
    if first_entry_problem(entries, (at + 1) as nat) is Some {
        lemma_first_entry_problem_stays(entries, (at + 1) as nat, entries.len());
    }
}

} // verus!
