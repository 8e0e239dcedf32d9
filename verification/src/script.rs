use crate::connector::{bound_secs, Attempt, Connector};
use crate::errors::{ProbeError, TransportKind};
use crate::utils::Timeout;
use vstd::prelude::*;
use vstd::string::*;

verus! {

/// One attempt as the scripted connector records it at run time.
struct Recorded {
    target: String,
    bound: Option<u64>,
    outcome: Result<(), ProbeError>,
}

impl Recorded {
    /// The attempt this record stands for.
    spec fn as_attempt(&self) -> Attempt {
        Attempt { target: self.target@, bound: self.bound, outcome: self.outcome }
    }
}

/// A scripted bounded connector: a test double that needs no network. Each
/// call to `connect` consumes the next outcome of the script (once the script
/// is exhausted, every further attempt fails with an unspecific transport
/// error) and records the attempt, so a caller can observe exactly which
/// endpoints were contacted, in which order and under which bound.
pub struct ScriptedConnector {
    script: Vec<Result<(), ProbeError>>,
    next: usize,
    recorded: Vec<Recorded>,
}

impl ScriptedConnector {
    /// The scripted outcomes, in the order they will be played.
    pub closed spec fn planned(&self) -> Seq<Result<(), ProbeError>> {
        self.script@
    }

    /// How many scripted outcomes have been consumed so far.
    pub closed spec fn cursor(&self) -> int {
        self.next as int
    }

    /// A fresh connector that will play `script` outcome by outcome.
    pub fn new(script: Vec<Result<(), ProbeError>>) -> (r: ScriptedConnector)
        ensures
            r.log() == Seq::<Attempt>::empty(),
            r.planned() == script@,
            r.cursor() == 0,
    {
        let r = ScriptedConnector { script, next: 0, recorded: Vec::new() };
        proof {
            assert(r.log() =~= Seq::<Attempt>::empty());
        }
        r
    }

    /// How many connection attempts have been made through this connector.
    pub fn attempts_made(&self) -> (n: usize)
        ensures
            n == self.log().len(),
    {
        self.recorded.len()
    }

    /// The endpoint the `i`-th attempt contacted.
    pub fn attempt_target(&self, i: usize) -> (t: &str)
        requires
            i < self.log().len(),
        ensures
            t@ == self.log()[i as int].target,
    {
        self.recorded[i].target.as_str()
    }

    /// The bound, in whole seconds, the `i`-th attempt was made under.
    pub fn attempt_bound(&self, i: usize) -> (b: Option<u64>)
        requires
            i < self.log().len(),
        ensures
            b == self.log()[i as int].bound,
    {
        self.recorded[i].bound
    }

    /// What the `i`-th attempt returned.
    pub fn attempt_outcome(&self, i: usize) -> (o: Result<(), ProbeError>)
        requires
            i < self.log().len(),
        ensures
            o == self.log()[i as int].outcome,
    {
        self.recorded[i].outcome
    }
}

impl Connector for ScriptedConnector {
    closed spec fn log(&self) -> Seq<Attempt> {
        Seq::new(self.recorded@.len(), |i: int| self.recorded@[i].as_attempt())
    }

    fn connect(&mut self, target: &str, bound: Option<Timeout>) -> (r: Result<(), ProbeError>)
        ensures
            final(self).planned() == old(self).planned(),
            old(self).cursor() < old(self).planned().len() ==> r == old(self).planned()[old(
                self,
            ).cursor()] && final(self).cursor() == old(self).cursor() + 1,
            old(self).cursor() >= old(self).planned().len() ==> r == Err::<(), ProbeError>(
                ProbeError::Transport(TransportKind::Other),
            ) && final(self).cursor() == old(self).cursor(),
    {
        let outcome: Result<(), ProbeError> = if self.next < self.script.len() {
            let o = self.script[self.next];
            self.next = self.next + 1;
            o
        } else {
            Err(ProbeError::Transport(TransportKind::Other))
        };
        let b: Option<u64> = match bound {
            Some(t) => Some(t.secs),
            None => None,
        };
        self.recorded.push(Recorded { target: String::from_str(target), bound: b, outcome });
        proof {
            assert(self.log() =~= old(self).log().push(
                Attempt { target: target@, bound: bound_secs(bound), outcome: outcome },
            ));
        }
        outcome
    }
}

} // verus!
