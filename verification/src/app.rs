//! The worker object and its start-up.

use vstd::prelude::*;
use crate::console::error_doing_weird_stuff;
use crate::progress::Progress;
use crate::request::Request;
use crate::value::Value;

verus! {

/// A worker object around the message port `P` that it was given, together
/// with the state of its start-up.
///
/// The object asks for nothing by itself. Its owner takes the pending
/// request, has the host carry it out on the port, and records how that
/// went, until nothing is pending. The object is then either ready, and
/// keeps the port for as long as it lives, or its construction has failed.
pub struct WasmApp<P> {
    port: P,
    made: usize,
    refused: bool,
}

impl<P> WasmApp<P> {
    /// The port that the object holds.
    pub closed spec fn spec_port(&self) -> P {
        self.port
    }

    /// The state of the start-up.
    pub closed spec fn progress(&self) -> Progress {
        Progress { made: self.made as nat, refused: self.refused }
    }

    /// Takes the port and begins the start-up: nothing has been asked yet.
    pub fn new(port: P) -> (app: Self)
        ensures
            app.spec_port() == port,
            app.progress() == Progress::start(),
    {
        WasmApp { port, made: 0, refused: false }
    }

    /// The port, on which the host carries out what is sent.
    pub fn port(&self) -> (port: &P)
        ensures
            *port == self.spec_port(),
    {
        &self.port
    }

    /// The request that the host is to carry out now; `None` once the
    /// start-up is finished.
    pub fn pending(&self) -> (request: Option<Request>)
        ensures
            match request {
                Some(q) => self.progress().pending() == Some(q@),
                None => self.progress().pending() is None,
            },
    {
        if self.refused {
            None
        } else if self.made < 3 {
            let mut calls = error_doing_weird_stuff();
            assert(calls@.len() == calls.deep_view().len());
            assert(calls@[self.made as int]@ == calls.deep_view()[self.made as int]);
            Some(Request::Console(calls.remove(self.made)))
        } else if self.made == 3 {
            let err1 = Value::error("JsError inside worker, rust");
            Some(Request::Post(err1))
        } else if self.made == 4 {
            Some(Request::Post(Value::text("Hello, World")))
        } else {
            None
        }
    }

    /// Records how the pending request went. A send that was not delivered
    /// ends the start-up in failure; what is reported of a console call is
    /// ignored. Once the start-up is finished, nothing changes.
    pub fn record(&mut self, delivered: bool)
        ensures
            final(self).spec_port() == old(self).spec_port(),
            final(self).progress() == old(self).progress().record(delivered),
    {
        if !self.refused && self.made < 5 {
            self.refused = self.made >= 3 && !delivered;
            self.made = self.made + 1;
        }
    }

    /// Whether every request was made and no send was refused: the object
    /// is built and holds its port.
    pub fn is_ready(&self) -> (ready: bool)
        ensures
            ready == self.progress().ready(),
    {
        !self.refused && self.made >= 5
    }

    /// The words with which the construction is abandoned, once a send has
    /// been refused; `None` as long as none has.
    pub fn failure(&self) -> (message: Option<String>)
        ensures
            message is Some <==> self.progress().refused,
            message matches Some(m) ==> m@ == "sent message"@,
    {
        if self.refused {
            Some("sent message".to_owned())
        } else {
            None
        }
    }
}

} // verus!
