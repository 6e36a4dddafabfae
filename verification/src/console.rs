//! Calls of the host's console, and the error diagnostic made of them.

use vstd::prelude::*;
use crate::value::{Value, ValueView};

verus! {

/// One call of the host's console.
#[derive(Debug, PartialEq, Eq)]
pub enum ConsoleCall {
    /// An informational line with one argument.
    Info(Value),
    /// An error line with two arguments.
    Error(Value, Value),
}

/// What a [`ConsoleCall`] stands for.
pub enum ConsoleCallView {
    Info(ValueView),
    Error(ValueView, ValueView),
}

impl View for ConsoleCall {
    type V = ConsoleCallView;

    open spec fn view(&self) -> ConsoleCallView {
        match self {
            ConsoleCall::Info(a) => ConsoleCallView::Info(a@),
            ConsoleCall::Error(a, b) => ConsoleCallView::Error(a@, b@),
        }
    }
}

impl DeepView for ConsoleCall {
    type V = ConsoleCallView;

    open spec fn deep_view(&self) -> ConsoleCallView {
        self@
    }
}

/// The error object that the worker builds: an error with a fixed message.
pub open spec fn worker_error() -> ValueView {
    ValueView::Error("JsError inside worker, rust"@)
}

/// The console calls of the error diagnostic: an opening line, the error
/// object logged as an error under a label, and a closing line.
pub open spec fn error_report() -> Seq<ConsoleCallView> {
    seq![
        ConsoleCallView::Info(ValueView::Text("<Expecting JsError>"@)),
        ConsoleCallView::Error(ValueView::Text("JsError inside worker"@), worker_error()),
        ConsoleCallView::Info(ValueView::Text("</Expecting JsError>"@)),
    ]
}

/// The error diagnostic: the console calls to make, in the order in which
/// they are to be made.
pub fn error_doing_weird_stuff() -> (calls: Vec<ConsoleCall>)
    ensures
        calls.deep_view() == error_report(),
{
    let err0 = Value::error("JsError inside worker, rust");
    let mut calls: Vec<ConsoleCall> = Vec::new();
    calls.push(ConsoleCall::Info(Value::text("<Expecting JsError>")));
    calls.push(ConsoleCall::Error(Value::text("JsError inside worker"), err0));
    calls.push(ConsoleCall::Info(Value::text("</Expecting JsError>")));
    assert(calls.deep_view() =~= error_report());
    calls
}

} // verus!
