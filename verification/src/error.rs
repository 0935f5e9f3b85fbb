//! Errors of the proxy.

use vstd::prelude::*;

use crate::text::join2;

verus! {

/// What can go wrong in the proxy.
///
/// `Io` and `AddrParse` hold the text of the operating system's or the address parser's error.
#[derive(Debug)]
pub enum ProxyError {
    Io(String),
    AddrParse(String),
    SessionNotFound(String),
    InvalidProtocol(String),
    Transport(String),
    ConnectionTimeout,
    SessionExists(String),
    InvalidConfig(String),
}

/// The mathematical counterpart of [`ProxyError`].
pub enum ProxyErrorView {
    Io(Seq<char>),
    AddrParse(Seq<char>),
    SessionNotFound(Seq<char>),
    InvalidProtocol(Seq<char>),
    Transport(Seq<char>),
    ConnectionTimeout,
    SessionExists(Seq<char>),
    InvalidConfig(Seq<char>),
}

impl View for ProxyError {
    type V = ProxyErrorView;

    open spec fn view(&self) -> ProxyErrorView {
        match self {
            ProxyError::Io(e) => ProxyErrorView::Io(e@),
            ProxyError::AddrParse(e) => ProxyErrorView::AddrParse(e@),
            ProxyError::SessionNotFound(id) => ProxyErrorView::SessionNotFound(id@),
            ProxyError::InvalidProtocol(p) => ProxyErrorView::InvalidProtocol(p@),
            ProxyError::Transport(e) => ProxyErrorView::Transport(e@),
            ProxyError::ConnectionTimeout => ProxyErrorView::ConnectionTimeout,
            ProxyError::SessionExists(id) => ProxyErrorView::SessionExists(id@),
            ProxyError::InvalidConfig(e) => ProxyErrorView::InvalidConfig(e@),
        }
    }
}

impl ProxyErrorView {
    /// The message shown to people.
    pub open spec fn text(self) -> Seq<char> {
        match self {
            ProxyErrorView::Io(e) => "IO error: "@ + e,
            ProxyErrorView::AddrParse(e) => "Address parse error: "@ + e,
            ProxyErrorView::SessionNotFound(id) => "Session not found: "@ + id,
            ProxyErrorView::InvalidProtocol(p) => "Invalid protocol: "@ + p,
            ProxyErrorView::Transport(e) => "Transport error: "@ + e,
            ProxyErrorView::ConnectionTimeout => "Connection timeout"@,
            ProxyErrorView::SessionExists(id) => "Session already exists: "@ + id,
            ProxyErrorView::InvalidConfig(e) => "Invalid configuration: "@ + e,
        }
    }
}

impl ProxyError {
    /// The message shown to people.
    pub fn message(&self) -> (text: String)
        ensures
            text@ == self@.text(),
    {
        match self {
            ProxyError::Io(e) => join2("IO error: ", e.as_str()),
            ProxyError::AddrParse(e) => join2("Address parse error: ", e.as_str()),
            ProxyError::SessionNotFound(id) => join2("Session not found: ", id.as_str()),
            ProxyError::InvalidProtocol(p) => join2("Invalid protocol: ", p.as_str()),
            ProxyError::Transport(e) => join2("Transport error: ", e.as_str()),
            ProxyError::ConnectionTimeout => "Connection timeout".to_string(),
            ProxyError::SessionExists(id) => join2("Session already exists: ", id.as_str()),
            ProxyError::InvalidConfig(e) => join2("Invalid configuration: ", e.as_str()),
        }
    }

    /// A transport error with the given text.
    pub fn transport(text: &str) -> (error: ProxyError)
        ensures
            error@ == ProxyErrorView::Transport(text@),
    {
        ProxyError::Transport(text.to_string())
    }
}

} // verus!
