//! What the host is asked to do while a worker object is built.

use vstd::prelude::*;
use crate::console::{error_report, worker_error, ConsoleCall, ConsoleCallView};
use crate::value::{Value, ValueView};

verus! {

/// One request to the host.
#[derive(Debug, PartialEq, Eq)]
pub enum Request {
    /// Make this console call. The console reports nothing back.
    Console(ConsoleCall),
    /// Send this value over the message port. The host may refuse.
    Post(Value),
}

/// What a [`Request`] stands for.
pub enum RequestView {
    Console(ConsoleCallView),
    Post(ValueView),
}

impl View for Request {
    type V = RequestView;

    open spec fn view(&self) -> RequestView {
        match self {
            Request::Console(call) => RequestView::Console(call@),
            Request::Post(value) => RequestView::Post(value@),
        }
    }
}

/// Everything a start-up asks of the host, in order: the error diagnostic,
/// then the error object over the port, then a greeting over the port.
pub open spec fn startup_script() -> Seq<RequestView> {
    seq![
        RequestView::Console(error_report()[0]),
        RequestView::Console(error_report()[1]),
        RequestView::Console(error_report()[2]),
        RequestView::Post(worker_error()),
        RequestView::Post(ValueView::Text("Hello, World"@)),
    ]
}

} // verus!
