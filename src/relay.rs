//! The process-wide broadcast medium and the state that every connection
//! shares: the medium and one credential per backend.

use vstd::prelude::*;
use tokio::sync::broadcast::Sender;
use tokio::sync::broadcast::error::SendError;
use crate::message::Model;

verus! {

#[verifier::external_type_specification]
#[verifier::external_body]
#[verifier::reject_recursive_types(T)]
pub struct ExSender<T>(Sender<T>);

#[verifier::external_type_specification]
#[verifier::external_body]
#[verifier::reject_recursive_types(T)]
pub struct ExSendError<T>(SendError<T>);

/// Relies on tokio's `broadcast::Sender::new`, which makes a channel with
/// no receiver that buffers at least `capacity` messages (rounded up to a
/// power of two); it panics on a capacity of zero or above `usize::MAX / 2`.
#[verifier::external_body]
fn new_sender(capacity: usize) -> (r: Sender<String>)
    requires
        0 < capacity <= usize::MAX / 2,
{
    Sender::new(capacity)
}

/// Relies on tokio's `broadcast::Sender::send`, which never blocks: it
/// returns the number of receivers subscribed, and fails only when there
/// are none.
#[verifier::external_body]
fn send_line(tx: &Sender<String>, line: String) -> (r: Result<usize, SendError<String>>)
    ensures
        r is Ok ==> r->Ok_0 >= 1,
{
    tx.send(line)
}

/// How many lines the process-wide medium buffers for each subscriber.
pub const MEDIUM_CAPACITY: usize = 256;

/// The single fan-out channel that carries every published line to every
/// current subscriber.  A subscriber that falls further behind than the
/// buffer holds loses the oldest lines; publishers never wait.
pub struct Medium {
    tx: Sender<String>,
    capacity: usize,
}

impl Medium {
    pub closed spec fn spec_capacity(&self) -> usize {
        self.capacity
    }

    /// A medium that buffers at least `capacity` lines for each subscriber.
    pub fn new(capacity: usize) -> (r: Medium)
        requires
            0 < capacity <= usize::MAX / 2,
        ensures
            r.spec_capacity() == capacity,
    {
        Medium { tx: new_sender(capacity), capacity }
    }

    pub fn capacity(&self) -> (r: usize)
        ensures
            r == self.spec_capacity(),
    {
        self.capacity
    }

    /// The sending half, from which subscriptions are taken.
    pub fn sender(&self) -> &Sender<String> {
        &self.tx
    }

    /// Publishes one line and returns how many subscribers it reached.  With
    /// no subscriber the line is dropped, which is no failure.
    pub fn publish(&self, line: String) -> (reached: usize) {
        match send_line(&self.tx, line) {
            Ok(n) => n,
            Err(_) => 0,
        }
    }

    /// Publishes `lines` one after another, in order, and returns how many
    /// it handed to the medium: all of them.
    pub fn publish_all(&self, lines: &Vec<String>) -> (n: usize)
        ensures
            n == lines.len(),
    {
        let mut i: usize = 0;
        while i < lines.len()
            invariant
                i <= lines.len(),
            decreases lines.len() - i,
        {
            self.publish(lines[i].clone());
            i = i + 1;
        }
        i
    }
}

/// One secret per backend, read once at start.
#[derive(Clone, Debug)]
pub struct Credentials {
    pub gemini: String,
    pub openai: String,
    pub deepseek: String,
}

impl Credentials {
    pub open spec fn spec_key(self, m: Model) -> Seq<char> {
        match m {
            Model::Gemini => self.gemini@,
            Model::OpenAi => self.openai@,
            Model::DeepSeek => self.deepseek@,
        }
    }

    /// The secret that backend `m` is called with.
    pub fn key_for(&self, m: Model) -> (r: &str)
        ensures
            r@ == self.spec_key(m),
    {
        match m {
            Model::Gemini => self.gemini.as_str(),
            Model::OpenAi => self.openai.as_str(),
            Model::DeepSeek => self.deepseek.as_str(),
        }
    }
}

/// What every connection shares: the medium and the credentials.
pub struct RelayState {
    pub medium: Medium,
    pub credentials: Credentials,
}

} // verus!
