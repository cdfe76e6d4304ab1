//! The requests of the protocol, the shape of a reply, and what one call
//! makes of what the transport reports.

use crate::hex::{encode_quantity, quantity_text};
use vstd::prelude::*;
use vstd::string::StringExecFns;

verus! {

/// The protocol version that every request carries.
pub const PROTOCOL_VERSION: &'static str = "2.0";

/// The identifier that every request carries.
pub const REQUEST_ID: i64 = 1;

/// The method that asks for the current height of the chain.
pub const METHOD_BLOCK_NUMBER: &'static str = "eth_blockNumber";

/// The method that asks for a block by its number.
pub const METHOD_GET_BLOCK: &'static str = "eth_getBlockByNumber";

/// The method that asks for the receipts of a block.
pub const METHOD_GET_RECEIPTS: &'static str = "eth_getBlockReceipts";

/// One positional parameter of a request.
#[derive(Clone, Debug, PartialEq, Eq)]
pub enum Param {
    /// A string, such as a block number written as a quantity.
    Text(String),
    /// A boolean switch.
    Flag(bool),
}

/// A parameter as a mathematical value.
pub enum ParamView {
    Text(Seq<char>),
    Flag(bool),
}

impl View for Param {
    type V = ParamView;

    open spec fn view(&self) -> ParamView {
        match self {
            Param::Text(text) => ParamView::Text(text@),
            Param::Flag(flag) => ParamView::Flag(*flag),
        }
    }
}

/// One request: version tag, identifier, method name and the parameters in
/// their order. A request is made fresh for each call and never changed.
#[derive(Clone, Debug, PartialEq, Eq)]
pub struct JsonRpcRequest {
    pub jsonrpc: &'static str,
    pub id: i64,
    pub method: String,
    pub params: Vec<Param>,
}

/// A request as a mathematical value.
pub struct RequestView {
    pub jsonrpc: Seq<char>,
    pub id: int,
    pub method: Seq<char>,
    pub params: Seq<ParamView>,
}

impl View for JsonRpcRequest {
    type V = RequestView;

    open spec fn view(&self) -> RequestView {
        RequestView {
            jsonrpc: self.jsonrpc@,
            id: self.id as int,
            method: self.method@,
            params: self.params@.map_values(|p: Param| p@),
        }
    }
}

/// The request for `method` with `params`, under the fixed version tag and
/// identifier.
pub open spec fn request_for(method: Seq<char>, params: Seq<ParamView>) -> RequestView {
    RequestView { jsonrpc: PROTOCOL_VERSION@, id: REQUEST_ID as int, method, params }
}

impl JsonRpcRequest {
    /// Makes the request for `method` with `params`.
    pub fn new(method: String, params: Vec<Param>) -> (request: Self)
        ensures
            request@ == request_for(method@, params@.map_values(|p: Param| p@)),
    {
        Self { jsonrpc: PROTOCOL_VERSION, id: REQUEST_ID, method, params }
    }
}

/// The request for the current height of the chain: no parameters.
pub open spec fn height_request_spec() -> RequestView {
    request_for(METHOD_BLOCK_NUMBER@, Seq::empty())
}

/// The request for block `block_number` with its transactions in full: the
/// number as a quantity, then `true`.
pub open spec fn block_request_spec(block_number: i64) -> RequestView {
    request_for(
        METHOD_GET_BLOCK@,
        seq![ParamView::Text(quantity_text(block_number)), ParamView::Flag(true)],
    )
}

/// The request for the receipts of block `block_number`: the number as a
/// quantity.
pub open spec fn receipts_request_spec(block_number: i64) -> RequestView {
    request_for(METHOD_GET_RECEIPTS@, seq![ParamView::Text(quantity_text(block_number))])
}

/// Makes the request for the current height of the chain.
pub fn height_request() -> (request: JsonRpcRequest)
    ensures
        request@ == height_request_spec(),
{
    let params: Vec<Param> = Vec::new();
    assert(params@.map_values(|p: Param| p@) =~= Seq::empty());
    JsonRpcRequest::new(String::from_str(METHOD_BLOCK_NUMBER), params)
}

/// Makes the request for block `block_number` with its transactions in full.
pub fn block_request(block_number: i64) -> (request: JsonRpcRequest)
    ensures
        request@ == block_request_spec(block_number),
{
    let mut params: Vec<Param> = Vec::new();
    params.push(Param::Text(encode_quantity(block_number)));
    params.push(Param::Flag(true));
    assert(params@.map_values(|p: Param| p@) =~= seq![
        ParamView::Text(quantity_text(block_number)),
        ParamView::Flag(true),
    ]);
    JsonRpcRequest::new(String::from_str(METHOD_GET_BLOCK), params)
}

/// Makes the request for the receipts of block `block_number`.
pub fn receipts_request(block_number: i64) -> (request: JsonRpcRequest)
    ensures
        request@ == receipts_request_spec(block_number),
{
    let mut params: Vec<Param> = Vec::new();
    params.push(Param::Text(encode_quantity(block_number)));
    assert(params@.map_values(|p: Param| p@) =~= seq![
        ParamView::Text(quantity_text(block_number)),
    ]);
    JsonRpcRequest::new(String::from_str(METHOD_GET_RECEIPTS), params)
}

/// A decoded reply, of which only the result is kept.
#[derive(Clone, Debug, PartialEq, Eq)]
pub struct JsonRpcResponse<T> {
    pub result: T,
}

/// How loudly the caller should log what happened.
#[derive(Clone, Copy, Debug, PartialEq, Eq, Structural)]
pub enum Level {
    Info,
    Warn,
}

/// What the transport reports while one call is under way. `B` is whatever
/// the transport holds a body in; it is handed through unread.
#[derive(Clone, Debug, PartialEq, Eq)]
pub enum CallEvent<B> {
    /// The request brought no response: the connection failed or the time
    /// ran out.
    SendFailed,
    /// A response has begun, with this status code.
    Responded { status: u16 },
    /// The body of the response could not be read to its end.
    BodyFailed,
    /// The whole body of the response.
    BodyRead { body: B },
}

/// What the caller does next with the call.
#[derive(Clone, Debug, PartialEq, Eq)]
pub enum CallAction<B> {
    /// Read the body of the response.
    ReadBody,
    /// The call is over: hand back the body, or nothing.
    Return(Option<B>),
}

/// The next step of a call after `event`.
///
/// A response is read whatever its status code. A failure of the transport
/// ends the call with nothing, and nothing is tried again.
pub open spec fn call_action<B>(event: CallEvent<B>) -> CallAction<B> {
    match event {
        CallEvent::SendFailed => CallAction::Return(None),
        CallEvent::Responded { status } => CallAction::ReadBody,
        CallEvent::BodyFailed => CallAction::Return(None),
        CallEvent::BodyRead { body } => CallAction::Return(Some(body)),
    }
}

/// How loudly `event` is logged: a failure of the transport is a warning,
/// everything else is information.
pub open spec fn call_level<B>(event: CallEvent<B>) -> Level {
    match event {
        CallEvent::SendFailed => Level::Warn,
        CallEvent::Responded { status } => Level::Info,
        CallEvent::BodyFailed => Level::Warn,
        CallEvent::BodyRead { body } => Level::Info,
    }
}

/// A call that ends with nothing has logged one warning, at the event that
/// ended it, and no other event of a call is a warning: the warnings of a
/// run are as many as its calls that failed.
pub proof fn law_one_warning_for_each_failed_call<B>(event: CallEvent<B>)
    ensures
        call_level(event) == Level::Warn <==> call_action(event) == CallAction::<B>::Return(None),
{
}

/// Decides how a call goes on after `event`, and how loudly to log it.
pub fn call_step<B>(event: CallEvent<B>) -> (step: (CallAction<B>, Level))
    ensures
        step.0 == call_action(event),
        step.1 == call_level(event),
{
    match event {
        CallEvent::SendFailed => (CallAction::Return(None), Level::Warn),
        CallEvent::Responded { status: _ } => (CallAction::ReadBody, Level::Info),
        CallEvent::BodyFailed => (CallAction::Return(None), Level::Warn),
        CallEvent::BodyRead { body } => (CallAction::Return(Some(body)), Level::Info),
    }
}

} // verus!
