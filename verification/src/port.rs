//! The parameter access port: what the core asks of a host, and the writes
//! it sends there.
//!
//! A host implements `GyroflowPluginParams` over its own parameter system.
//! Nothing is assumed of an implementation: every answer is taken as it
//! comes, and every write may fail. What the core decides to write is
//! therefore computed first, as a list of `PortWrite`s with an exact
//! contract, and sent afterwards.

use crate::fixed::Fixed;
use crate::params::Params;
use crate::time::TimeType;
use vstd::prelude::*;
use vstd::string::StringExecFns;

verus! {

/// Why a call into the core did not give a result.
#[derive(Debug, Clone, PartialEq, Eq)]
pub enum PluginError {
    /// No project or media file is set. Not a fault: the instance is not
    /// ready yet.
    EmptyPath,
    /// The project or media file could not be loaded; the reason.
    LoadFailed(String),
    /// The host refused a read or a write; the reason.
    ParameterAccessFailed(String),
    /// A stored instance could not be read back.
    DeserializeFailed,
}

/// The result of a call that may fail.
pub type PluginResult<T> = Result<T, PluginError>;

impl PluginError {
    /// The text of the error, for a log or a status line.
    pub fn message(&self) -> (text: String)
        ensures
            self is EmptyPath ==> text@ == "Path is empty"@,
            self is DeserializeFailed ==> text@ == "Stored instance is unreadable"@,
            self matches PluginError::LoadFailed(reason) ==> text@ == reason@,
            self matches PluginError::ParameterAccessFailed(reason) ==> text@ == reason@,
    {
        match self {
            PluginError::EmptyPath => String::from_str("Path is empty"),
            PluginError::LoadFailed(reason) => reason.clone(),
            PluginError::ParameterAccessFailed(reason) => reason.clone(),
            PluginError::DeserializeFailed => String::from_str("Stored instance is unreadable"),
        }
    }
}

/// The parameter system of a host.
pub trait GyroflowPluginParams {
    fn set_enabled(&mut self, param: Params, enabled: bool) -> PluginResult<()>;

    fn set_label(&mut self, param: Params, label: &str) -> PluginResult<()>;

    fn set_hint(&mut self, param: Params, hint: &str) -> PluginResult<()>;

    fn set_f64(&mut self, param: Params, value: Fixed) -> PluginResult<()>;

    fn get_f64(&self, param: Params) -> PluginResult<Fixed>;

    fn get_f64_at_time(&self, param: Params, time: TimeType) -> PluginResult<Fixed>;

    fn set_bool(&mut self, param: Params, value: bool) -> PluginResult<()>;

    fn get_bool(&self, param: Params) -> PluginResult<bool>;

    fn get_bool_at_time(&self, param: Params, time: TimeType) -> PluginResult<bool>;

    fn set_string(&mut self, param: Params, value: &str) -> PluginResult<()>;

    fn get_string(&self, param: Params) -> PluginResult<String>;

    fn set_i32(&mut self, param: Params, value: i32) -> PluginResult<()>;

    fn get_i32(&self, param: Params) -> PluginResult<i32>;

    fn is_keyframed(&self, param: Params) -> bool;

    fn get_keyframes(&self, param: Params) -> Vec<(TimeType, Fixed)>;

    fn clear_keyframes(&mut self, param: Params) -> PluginResult<()>;

    fn set_f64_at_time(&mut self, param: Params, time: TimeType, value: Fixed) -> PluginResult<()>;
}

/// One write to the host's parameters.
#[derive(Debug, Clone, PartialEq, Eq)]
pub enum PortWrite {
    Enabled(Params, bool),
    Label(Params, String),
    Hint(Params, String),
    Number(Params, Fixed),
    Flag(Params, bool),
    Text(Params, String),
    Choice(Params, i32),
    ClearKeyframes(Params),
    NumberAtTime(Params, TimeType, Fixed),
}

/// What a write says, with its text as a sequence of characters.
pub enum WriteModel {
    Enabled(Params, bool),
    Label(Params, Seq<char>),
    Hint(Params, Seq<char>),
    Number(Params, Fixed),
    Flag(Params, bool),
    Text(Params, Seq<char>),
    Choice(Params, i32),
    ClearKeyframes(Params),
    NumberAtTime(Params, TimeType, Fixed),
}

impl View for PortWrite {
    type V = WriteModel;

    open spec fn view(&self) -> WriteModel {
        match self {
            PortWrite::Enabled(p, on) => WriteModel::Enabled(*p, *on),
            PortWrite::Label(p, text) => WriteModel::Label(*p, text@),
            PortWrite::Hint(p, text) => WriteModel::Hint(*p, text@),
            PortWrite::Number(p, v) => WriteModel::Number(*p, *v),
            PortWrite::Flag(p, v) => WriteModel::Flag(*p, *v),
            PortWrite::Text(p, text) => WriteModel::Text(*p, text@),
            PortWrite::Choice(p, v) => WriteModel::Choice(*p, *v),
            PortWrite::ClearKeyframes(p) => WriteModel::ClearKeyframes(*p),
            PortWrite::NumberAtTime(p, t, v) => WriteModel::NumberAtTime(*p, *t, *v),
        }
    }
}

/// What a list of writes says, write by write.
pub open spec fn models(writes: Seq<PortWrite>) -> Seq<WriteModel> {
    Seq::new(writes.len(), |i: int| writes[i]@)
}

/// Sends one write to the host and hands back the host's answer.
pub fn send<P: GyroflowPluginParams>(params: &mut P, write: &PortWrite) -> (done: PluginResult<()>) {
    match write {
        PortWrite::Enabled(p, on) => params.set_enabled(*p, *on),
        PortWrite::Label(p, text) => params.set_label(*p, text.as_str()),
        PortWrite::Hint(p, text) => params.set_hint(*p, text.as_str()),
        PortWrite::Number(p, v) => params.set_f64(*p, *v),
        PortWrite::Flag(p, v) => params.set_bool(*p, *v),
        PortWrite::Text(p, text) => params.set_string(*p, text.as_str()),
        PortWrite::Choice(p, v) => params.set_i32(*p, *v),
        PortWrite::ClearKeyframes(p) => params.clear_keyframes(*p),
        PortWrite::NumberAtTime(p, t, v) => params.set_f64_at_time(*p, *t, *v),
    }
}

/// Sends the writes in order and goes on after a write that fails. Returns
/// how many writes the host refused.
pub fn send_all<P: GyroflowPluginParams>(params: &mut P, writes: &Vec<PortWrite>) -> (refused: usize)
    ensures
        refused <= writes@.len(),
{
    let mut refused: usize = 0;
    let n: usize = writes.len();
    let mut i: usize = 0;
    while i < n
        invariant
            n == writes@.len(),
            i <= n,
            refused <= i,
        decreases n - i,
    {
        match send(params, &writes[i]) {
            Ok(_) => {},
            Err(_) => {
                refused = refused + 1;
            },
        }
        i = i + 1;
    }
    refused
}

/// Sends the writes in order and stops at the first that fails, with the
/// host's error. Where there is nothing to send the host is not asked, and
/// the call succeeds.
pub fn send_until_refused<P: GyroflowPluginParams>(params: &mut P, writes: &Vec<PortWrite>) -> (done:
    PluginResult<()>)
    ensures
        writes@.len() == 0 ==> done is Ok,
{
    let n: usize = writes.len();
    let mut i: usize = 0;
    while i < n
        invariant
            n == writes@.len(),
            i <= n,
        decreases n - i,
    {
        match send(params, &writes[i]) {
            Ok(_) => {},
            Err(e) => {
                return Err(e);
            },
        }
        i = i + 1;
    }
    Ok(())
}

} // verus!
