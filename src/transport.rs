//! The transport switch: one stream type over a raw or a TLS-wrapped stream.
use vstd::prelude::*;
use crate::mode::Mode;

verus! {

/// A stream carried either as it is (`Plain`) or inside a TLS session that
/// wraps it (`Tls`). Exactly one of the two is alive.
pub enum Transport<S, T> {
    Plain(S),
    Tls(T),
}

impl<S, T> Transport<S, T> {
    /// The mode that the live variant stands for.
    pub open spec fn spec_mode(&self) -> Mode {
        match self {
            Transport::Plain(_) => Mode::Plain,
            Transport::Tls(_) => Mode::Tls,
        }
    }

    pub fn mode(&self) -> (r: Mode)
        ensures
            r == self.spec_mode(),
    {
        match self {
            Transport::Plain(_) => Mode::Plain,
            Transport::Tls(_) => Mode::Tls,
        }
    }

    pub fn get_plain(&self) -> (r: Option<&S>)
        ensures
            match self {
                Transport::Plain(s) => r == Some(s),
                Transport::Tls(_) => r is None,
            },
    {
        match self {
            Transport::Plain(s) => Some(s),
            Transport::Tls(_) => None,
        }
    }

    pub fn get_tls(&self) -> (r: Option<&T>)
        ensures
            match self {
                Transport::Plain(_) => r is None,
                Transport::Tls(t) => r == Some(t),
            },
    {
        match self {
            Transport::Plain(_) => None,
            Transport::Tls(t) => Some(t),
        }
    }
}

} // verus!
