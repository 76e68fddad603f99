//! Errors of the high-level node API and of its foreign-function bindings.

use vstd::prelude::*;
use crate::text::push_str;

verus! {

/// Errors from a node.
#[derive(Debug)]
pub enum PoError {
    Config(String),
    Transport(String),
    Handshake(String),
    Session(String),
}

/// The human-readable text of a node error.
pub open spec fn spec_po_error_text(e: PoError) -> Seq<char> {
    match e {
        PoError::Config(m) => "config: "@ + m@,
        PoError::Transport(m) => "transport: "@ + m@,
        PoError::Handshake(m) => "handshake: "@ + m@,
        PoError::Session(m) => "session: "@ + m@,
    }
}

impl PoError {
    /// The human-readable text of this error.
    pub fn to_display_string(&self) -> (s: String)
        ensures
            s@ == spec_po_error_text(*self),
    {
        let mut s = String::new();
        match self {
            PoError::Config(m) => {
                push_str(&mut s, "config: ");
                push_str(&mut s, m.as_str());
            },
            PoError::Transport(m) => {
                push_str(&mut s, "transport: ");
                push_str(&mut s, m.as_str());
            },
            PoError::Handshake(m) => {
                push_str(&mut s, "handshake: ");
                push_str(&mut s, m.as_str());
            },
            PoError::Session(m) => {
                push_str(&mut s, "session: ");
                push_str(&mut s, m.as_str());
            },
        }
        s
    }
}

/// Errors reported through the foreign-function bindings.
#[derive(Debug)]
pub enum PoFfiError {
    Config(String),
    Transport(String),
    Handshake(String),
    Session(String),
    Generic(String),
}

/// The human-readable text of a binding error.
pub open spec fn spec_po_ffi_error_text(e: PoFfiError) -> Seq<char> {
    match e {
        PoFfiError::Config(m) => "Config error: "@ + m@,
        PoFfiError::Transport(m) => "Transport error: "@ + m@,
        PoFfiError::Handshake(m) => "Handshake error: "@ + m@,
        PoFfiError::Session(m) => "Session error: "@ + m@,
        PoFfiError::Generic(m) => "Generic error: "@ + m@,
    }
}

impl PoFfiError {
    /// The human-readable text of this error.
    pub fn to_display_string(&self) -> (s: String)
        ensures
            s@ == spec_po_ffi_error_text(*self),
    {
        let mut s = String::new();
        match self {
            PoFfiError::Config(m) => {
                push_str(&mut s, "Config error: ");
                push_str(&mut s, m.as_str());
            },
            PoFfiError::Transport(m) => {
                push_str(&mut s, "Transport error: ");
                push_str(&mut s, m.as_str());
            },
            PoFfiError::Handshake(m) => {
                push_str(&mut s, "Handshake error: ");
                push_str(&mut s, m.as_str());
            },
            PoFfiError::Session(m) => {
                push_str(&mut s, "Session error: ");
                push_str(&mut s, m.as_str());
            },
            PoFfiError::Generic(m) => {
                push_str(&mut s, "Generic error: ");
                push_str(&mut s, m.as_str());
            },
        }
        s
    }

    /// The binding error for a node error: each kind of node error keeps its kind.
    pub fn from_po_error(e: PoError) -> (r: Self)
        ensures
            e matches PoError::Config(m) ==> r == PoFfiError::Config(m),
            e matches PoError::Transport(m) ==> r == PoFfiError::Transport(m),
            e matches PoError::Handshake(m) ==> r == PoFfiError::Handshake(m),
            e matches PoError::Session(m) ==> r == PoFfiError::Session(m),
    {
        match e {
            PoError::Config(m) => PoFfiError::Config(m),
            PoError::Transport(m) => PoFfiError::Transport(m),
            PoError::Handshake(m) => PoFfiError::Handshake(m),
            PoError::Session(m) => PoFfiError::Session(m),
        }
    }
}

} // verus!
