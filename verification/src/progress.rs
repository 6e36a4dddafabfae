//! How far a start-up has come, as a mathematical value.

use vstd::prelude::*;
use crate::request::{startup_script, RequestView};

verus! {

/// The state of a start-up: how many requests of the script the host has
/// answered, and whether it refused the last of them.
pub struct Progress {
    pub made: nat,
    pub refused: bool,
}

impl Progress {
    /// Nothing has been asked yet.
    pub open spec fn start() -> Progress {
        Progress { made: 0, refused: false }
    }

    /// Nothing more will be asked: a send was refused, or the script is
    /// through.
    pub open spec fn finished(self) -> bool {
        self.refused || self.made >= startup_script().len()
    }

    /// The script is through and no send was refused.
    pub open spec fn ready(self) -> bool {
        !self.refused && self.made >= startup_script().len()
    }

    /// The request that is to be made now, if any.
    pub open spec fn pending(self) -> Option<RequestView> {
        if self.finished() {
            None
        } else {
            Some(startup_script()[self.made as int])
        }
    }

    /// The state after the host has answered the pending request. Only a
    /// send can be refused: what is reported of a console call is ignored.
    /// Once finished, nothing changes.
    pub open spec fn record(self, delivered: bool) -> Progress {
        if self.finished() {
            self
        } else {
            Progress {
                made: self.made + 1,
                refused: startup_script()[self.made as int] is Post && !delivered,
            }
        }
    }

    /// The state after the host has given these answers, one after another.
    pub open spec fn run(self, outcomes: Seq<bool>) -> Progress
        decreases outcomes.len(),
    {
        if outcomes.len() == 0 {
            self
        } else {
            self.run(outcomes.drop_last()).record(outcomes.last())
        }
    }
}

/// A start-up stops at the first send that the host refuses, and at the end
/// of the script otherwise. Whatever the host answers, and however many
/// answers it gives: a send was refused exactly if the host refused the
/// first send, or delivered it and refused the second; the number of
/// requests made is four in the first case, and otherwise the number of
/// answers, up to five; and the start-up is ready exactly if there were at
/// least five answers and both sends were delivered.
pub proof fn lemma_run(outcomes: Seq<bool>)
    ensures
        Progress::start().run(outcomes).refused <==> (outcomes.len() > 3 && !outcomes[3]) || (
        outcomes.len() > 4 && outcomes[3] && !outcomes[4]),
        Progress::start().run(outcomes).made == (if outcomes.len() > 3 && !outcomes[3] {
            4
        } else if outcomes.len() > 5 {
            5
        } else {
            outcomes.len()
        }),
        Progress::start().run(outcomes).ready() <==> outcomes.len() >= 5 && outcomes[3]
            && outcomes[4],
    decreases outcomes.len(),
{
    if outcomes.len() > 0 {
        lemma_run(outcomes.drop_last());
    }
}

} // verus!
