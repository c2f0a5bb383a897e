//! The system service: the endpoint every deployment answers on, and the
//! message shape errors are reported with.

use vstd::prelude::*;

verus! {

/// An error as reported over the wire.
#[derive(Clone, Debug)]
pub struct ErrorMessage {
    pub code: u16,
    pub message: String,
}

/// Common endpoints every deployment serves.
pub trait SystemService {
    /// The health check body. A healthy service answers with a quoted Ok.
    fn healthcheck(&self) -> String;
}

/// The stock system service.
#[derive(Clone, Copy, Debug, Default)]
pub struct SystemServiceImpl;

impl SystemServiceImpl {
    /// The health check body: always the quoted word Ok.
    pub fn healthcheck_body(&self) -> (r: String)
        ensures
            r@ == "\"Ok\""@,
    {
        String::from_str("\"Ok\"")
    }
}

impl SystemService for SystemServiceImpl {
    fn healthcheck(&self) -> String {
        self.healthcheck_body()
    }
}

} // verus!
