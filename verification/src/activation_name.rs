//! The names under which listeners can be inherited.

use vstd::prelude::*;

use crate::text::same_text;

verus! {

/// A listener that the service manager can hand over.
#[derive(Clone, Copy, Debug, Eq, Hash, PartialEq, Structural)]
pub enum ActivationName {
    RpcMain,
    RpcSpeculative,
    SsePublish,
    RestApi,
    AdminApi,
}

/// The listener that a descriptor name stands for, if it is a supported one.
pub open spec fn named_listener(text: Seq<char>) -> Option<ActivationName> {
    if text == ActivationName::RpcMain.text() {
        Some(ActivationName::RpcMain)
    } else if text == ActivationName::RpcSpeculative.text() {
        Some(ActivationName::RpcSpeculative)
    } else if text == ActivationName::SsePublish.text() {
        Some(ActivationName::SsePublish)
    } else if text == ActivationName::RestApi.text() {
        Some(ActivationName::RestApi)
    } else if text == ActivationName::AdminApi.text() {
        Some(ActivationName::AdminApi)
    } else {
        None
    }
}

impl ActivationName {
    /// The descriptor name of this listener.
    pub open spec fn text(self) -> Seq<char> {
        match self {
            ActivationName::RpcMain => "rpc-main"@,
            ActivationName::RpcSpeculative => "rpc-speculative"@,
            ActivationName::SsePublish => "sse-publish"@,
            ActivationName::RestApi => "rest-api"@,
            ActivationName::AdminApi => "admin-api"@,
        }
    }

    /// The number under which this listener is kept in integer-keyed collections.
    pub open spec fn key(self) -> u8 {
        match self {
            ActivationName::RpcMain => 0,
            ActivationName::RpcSpeculative => 1,
            ActivationName::SsePublish => 2,
            ActivationName::RestApi => 3,
            ActivationName::AdminApi => 4,
        }
    }

    /// Looks up the listener that a descriptor name stands for.
    pub fn from_fd_name(value: &str) -> (name: Option<Self>)
        ensures
            name == named_listener(value@),
    {
        if same_text(value, "rpc-main") {
            Some(ActivationName::RpcMain)
        } else if same_text(value, "rpc-speculative") {
            Some(ActivationName::RpcSpeculative)
        } else if same_text(value, "sse-publish") {
            Some(ActivationName::SsePublish)
        } else if same_text(value, "rest-api") {
            Some(ActivationName::RestApi)
        } else if same_text(value, "admin-api") {
            Some(ActivationName::AdminApi)
        } else {
            None
        }
    }

    /// Returns the descriptor name of this listener.
    pub fn as_str(self) -> (text: &'static str)
        ensures
            text@ == self.text(),
    {
        match self {
            ActivationName::RpcMain => "rpc-main",
            ActivationName::RpcSpeculative => "rpc-speculative",
            ActivationName::SsePublish => "sse-publish",
            ActivationName::RestApi => "rest-api",
            ActivationName::AdminApi => "admin-api",
        }
    }

    /// Returns the collection key of this listener.
    pub fn collection_key(self) -> (key: u8)
        ensures
            key == self.key(),
    {
        match self {
            ActivationName::RpcMain => 0,
            ActivationName::RpcSpeculative => 1,
            ActivationName::SsePublish => 2,
            ActivationName::RestApi => 3,
            ActivationName::AdminApi => 4,
        }
    }
}

/// Looking up the descriptor name of a listener finds that listener, and a name that finds
/// a listener is that listener's own: the two directions undo each other.
pub proof fn law_lookup_inverts_naming(name: ActivationName, text: Seq<char>)
    ensures
        named_listener(name.text()) == Some(name),
        named_listener(text) == Some(name) <==> text == name.text(),
{
    reveal_strlit("rpc-main");
    reveal_strlit("rpc-speculative");
    reveal_strlit("sse-publish");
    reveal_strlit("rest-api");
    reveal_strlit("admin-api");
    // The names differ in length or, for the two of length eight, in the second character.
    assert("rpc-main"@.len() == 8 && "rest-api"@.len() == 8 && "admin-api"@.len() == 9);
    assert("sse-publish"@.len() == 11 && "rpc-speculative"@.len() == 15);
    assert("rpc-main"@[1] == 'p' && "rest-api"@[1] == 'e');
}

/// No two listeners share a descriptor name.
pub proof fn law_names_are_distinct(a: ActivationName, b: ActivationName)
    ensures
        a.text() == b.text() <==> a == b,
{
    law_lookup_inverts_naming(a, b.text());
    law_lookup_inverts_naming(b, b.text());
}

/// A descriptor name is neither empty nor does it hold the list separator, so a list of
/// names can be split again.
pub proof fn law_names_can_be_listed(name: ActivationName)
    ensures
        name.text().len() > 0,
        !name.text().contains(':'),
{
    reveal_strlit("rpc-main");
    reveal_strlit("rpc-speculative");
    reveal_strlit("sse-publish");
    reveal_strlit("rest-api");
    reveal_strlit("admin-api");
}

/// A descriptor name finds a listener exactly if it is, to the letter, one of the five.
pub proof fn law_five_names_are_supported(value: &str, found: Option<ActivationName>)
    requires
        call_ensures(ActivationName::from_fd_name, (value,), found),
    ensures
        found == Some(ActivationName::RpcMain) <==> value@ == "rpc-main"@,
        found == Some(ActivationName::RpcSpeculative) <==> value@ == "rpc-speculative"@,
        found == Some(ActivationName::SsePublish) <==> value@ == "sse-publish"@,
        found == Some(ActivationName::RestApi) <==> value@ == "rest-api"@,
        found == Some(ActivationName::AdminApi) <==> value@ == "admin-api"@,
{
    law_lookup_inverts_naming(ActivationName::RpcMain, value@);
    law_lookup_inverts_naming(ActivationName::RpcSpeculative, value@);
    law_lookup_inverts_naming(ActivationName::SsePublish, value@);
    law_lookup_inverts_naming(ActivationName::RestApi, value@);
    law_lookup_inverts_naming(ActivationName::AdminApi, value@);
}

/// A listener goes by its own name, to the letter, and that name finds it again.
pub proof fn law_name_is_found_by_its_text(
    name: ActivationName,
    text: &'static str,
    found: Option<ActivationName>,
)
    requires
        call_ensures(ActivationName::as_str, (name,), text),
        call_ensures(ActivationName::from_fd_name, (text,), found),
    ensures
        found == Some(name),
        text@ == name.text(),
        name is RpcMain ==> text@ == "rpc-main"@,
        name is RpcSpeculative ==> text@ == "rpc-speculative"@,
        name is SsePublish ==> text@ == "sse-publish"@,
        name is RestApi ==> text@ == "rest-api"@,
        name is AdminApi ==> text@ == "admin-api"@,
{
    law_lookup_inverts_naming(name, text@);
}

} // verus!
