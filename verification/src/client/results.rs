//! Reading the responses of the client's operations into domain values.

use crate::client::{Client, result_of};
use crate::error::Error;
use crate::json::opt_view;
use crate::protocol::completion::CompleteResult;
use crate::protocol::json_rpc::{JSONRPCMessage, MessageView};
use crate::protocol::prompts::{Prompt, PromptMessage};
use crate::protocol::resources::{Resource, ResourceContent, ResourceTemplate};
use crate::protocol::roots::Root;
use crate::protocol::tools::{CallToolResult, Tool};
use crate::protocol::wire::{list_member, required_list, views, Wire};
use vstd::prelude::*;

verus! {

/// The error that a message which is no successful response gives its
/// waiter: `ServerError` with the code, message and data of an error
/// response, `ProtocolError` for any other message.
pub open spec fn answer_error(response: MessageView, e: Error) -> bool {
    match response {
        MessageView::Response(_) => false,
        MessageView::Error(err) => {
            e matches Error::ServerError(code, message, data) && code == err.error.code
                && message@ == err.error.message && opt_view(data) == err.error.data
        },
        _ => e is ProtocolError,
    }
}

/// Reads the list under `key` of the result of a response.
pub fn list_result<T: Wire>(response: JSONRPCMessage, key: &str) -> (r: Result<Vec<T>, Error>)
    ensures
        match r {
            Ok(v) => {
                response@ matches MessageView::Response(resp) && list_member::<T>(
                    resp.result,
                    key@,
                ) == Some(views(v@))
            },
            Err(e) => match response@ {
                MessageView::Response(resp) => list_member::<T>(resp.result, key@) is None
                    && e is ParseError,
                _ => answer_error(response@, e),
            },
        },
{
    let result = result_of(response)?;
    required_list::<T>(&result, key)
}

/// Reads the result of a response as a value.
pub fn value_result<T: Wire>(response: JSONRPCMessage) -> (r: Result<T, Error>)
    ensures
        match r {
            Ok(v) => {
                response@ matches MessageView::Response(resp) && T::decode(resp.result) == Some(
                    v@,
                )
            },
            Err(e) => match response@ {
                MessageView::Response(resp) => T::decode(resp.result) is None && e is ParseError,
                _ => answer_error(response@, e),
            },
        },
{
    let result = result_of(response)?;
    T::from_json(&result)
}

impl Client {
    /// The resources that a response to `resources/list` holds.
    pub fn list_resources_result(response: JSONRPCMessage) -> (r: Result<Vec<Resource>, Error>)
        ensures
            match r {
                Ok(v) => {
                    response@ matches MessageView::Response(resp) && list_member::<Resource>(
                        resp.result,
                        "resources"@,
                    ) == Some(views(v@))
                },
                Err(e) => match response@ {
                    MessageView::Response(resp) => list_member::<Resource>(
                        resp.result,
                        "resources"@,
                    ) is None && e is ParseError,
                    _ => answer_error(response@, e),
                },
            },
    {
        list_result::<Resource>(response, "resources")
    }

    /// The templates that a response to `resources/templates/list` holds.
    pub fn list_resource_templates_result(response: JSONRPCMessage) -> (r: Result<
        Vec<ResourceTemplate>,
        Error,
    >)
        ensures
            match r {
                Ok(v) => {
                    response@ matches MessageView::Response(resp) && list_member::<
                        ResourceTemplate,
                    >(resp.result, "resourceTemplates"@) == Some(views(v@))
                },
                Err(e) => match response@ {
                    MessageView::Response(resp) => list_member::<ResourceTemplate>(
                        resp.result,
                        "resourceTemplates"@,
                    ) is None && e is ParseError,
                    _ => answer_error(response@, e),
                },
            },
    {
        list_result::<ResourceTemplate>(response, "resourceTemplates")
    }

    /// The contents that a response to `resources/read` holds.
    pub fn read_resource_result(response: JSONRPCMessage) -> (r: Result<
        Vec<ResourceContent>,
        Error,
    >)
        ensures
            match r {
                Ok(v) => {
                    response@ matches MessageView::Response(resp) && list_member::<
                        ResourceContent,
                    >(resp.result, "contents"@) == Some(views(v@))
                },
                Err(e) => match response@ {
                    MessageView::Response(resp) => list_member::<ResourceContent>(
                        resp.result,
                        "contents"@,
                    ) is None && e is ParseError,
                    _ => answer_error(response@, e),
                },
            },
    {
        list_result::<ResourceContent>(response, "contents")
    }

    /// The prompts that a response to `prompts/list` holds.
    pub fn list_prompts_result(response: JSONRPCMessage) -> (r: Result<Vec<Prompt>, Error>)
        ensures
            match r {
                Ok(v) => {
                    response@ matches MessageView::Response(resp) && list_member::<Prompt>(
                        resp.result,
                        "prompts"@,
                    ) == Some(views(v@))
                },
                Err(e) => match response@ {
                    MessageView::Response(resp) => list_member::<Prompt>(
                        resp.result,
                        "prompts"@,
                    ) is None && e is ParseError,
                    _ => answer_error(response@, e),
                },
            },
    {
        list_result::<Prompt>(response, "prompts")
    }

    /// The messages that a response to `prompts/get` holds.
    pub fn get_prompt_result(response: JSONRPCMessage) -> (r: Result<Vec<PromptMessage>, Error>)
        ensures
            match r {
                Ok(v) => {
                    response@ matches MessageView::Response(resp) && list_member::<
                        PromptMessage,
                    >(resp.result, "messages"@) == Some(views(v@))
                },
                Err(e) => match response@ {
                    MessageView::Response(resp) => list_member::<PromptMessage>(
                        resp.result,
                        "messages"@,
                    ) is None && e is ParseError,
                    _ => answer_error(response@, e),
                },
            },
    {
        list_result::<PromptMessage>(response, "messages")
    }

    /// The tools that a response to `tools/list` holds.
    pub fn list_tools_result(response: JSONRPCMessage) -> (r: Result<Vec<Tool>, Error>)
        ensures
            match r {
                Ok(v) => {
                    response@ matches MessageView::Response(resp) && list_member::<Tool>(
                        resp.result,
                        "tools"@,
                    ) == Some(views(v@))
                },
                Err(e) => match response@ {
                    MessageView::Response(resp) => list_member::<Tool>(resp.result, "tools"@)
                        is None && e is ParseError,
                    _ => answer_error(response@, e),
                },
            },
    {
        list_result::<Tool>(response, "tools")
    }

    /// The result that a response to `tools/call` holds. An error of the
    /// tool itself arrives here, as a result whose `is_error` is set.
    pub fn call_tool_result(response: JSONRPCMessage) -> (r: Result<CallToolResult, Error>)
        ensures
            match r {
                Ok(v) => {
                    response@ matches MessageView::Response(resp) && CallToolResult::decode(
                        resp.result,
                    ) == Some(v@)
                },
                Err(e) => match response@ {
                    MessageView::Response(resp) => CallToolResult::decode(resp.result) is None
                        && e is ParseError,
                    _ => answer_error(response@, e),
                },
            },
    {
        value_result::<CallToolResult>(response)
    }

    /// The completions that a response to `completion/complete` holds.
    pub fn get_completions_result(response: JSONRPCMessage) -> (r: Result<CompleteResult, Error>)
        ensures
            match r {
                Ok(v) => {
                    response@ matches MessageView::Response(resp) && CompleteResult::decode(
                        resp.result,
                    ) == Some(v@)
                },
                Err(e) => match response@ {
                    MessageView::Response(resp) => CompleteResult::decode(resp.result) is None
                        && e is ParseError,
                    _ => answer_error(response@, e),
                },
            },
    {
        value_result::<CompleteResult>(response)
    }

    /// The roots that a response to `roots/list` holds.
    pub fn list_roots_result(response: JSONRPCMessage) -> (r: Result<Vec<Root>, Error>)
        ensures
            match r {
                Ok(v) => {
                    response@ matches MessageView::Response(resp) && list_member::<Root>(
                        resp.result,
                        "roots"@,
                    ) == Some(views(v@))
                },
                Err(e) => match response@ {
                    MessageView::Response(resp) => list_member::<Root>(resp.result, "roots"@)
                        is None && e is ParseError,
                    _ => answer_error(response@, e),
                },
            },
    {
        list_result::<Root>(response, "roots")
    }

    /// Reads a response whose result carries nothing: that of
    /// `resources/subscribe`, `resources/unsubscribe`, `logging/setLevel`
    /// and `ping`.
    pub fn empty_result(response: JSONRPCMessage) -> (r: Result<(), Error>)
        ensures
            match r {
                Ok(_) => response@ is Response,
                Err(e) => answer_error(response@, e),
            },
    {
        match result_of(response) {
            Ok(_) => Ok(()),
            Err(e) => Err(e),
        }
    }
}

} // verus!
