//! The transport capability the driver writes through, and a recording
//! transport for exercising the protocol without hardware.
//!
//! The controller distinguishes two transmission phases: command-phase
//! payloads configure registers and the write cursor, data-phase payloads
//! land in display memory. A transport's history is modelled as a sequence
//! of [`Transmission`] values, most recent last; every contract of the
//! driver speaks of how an operation extends that history.

use vstd::prelude::*;

verus! {

/// One bus transaction as the controller sees it: a command-phase payload
/// or a data-phase payload.
pub enum Transmission {
    Commands(Seq<u8>),
    Data(Seq<u8>),
}

/// The transport could not deliver a transmission.
#[derive(Clone, Copy, Debug, PartialEq, Eq, Structural)]
pub struct TransportError;

/// A write-only command/data channel to the controller.
///
/// An implementation must account for every delivered transmission in
/// [`DisplayTransport::log`]: a successful send appends exactly the bytes it
/// was given, under the phase it was asked for, and a failed send delivers
/// nothing. The driver never retries and never reorders; everything it
/// proves about emitted byte sequences rests on these two clauses.
pub trait DisplayTransport: Sized {
    /// The transmissions delivered so far, most recent last.
    ///
    /// The default stands for a transport that accounts for nothing; an
    /// implementation inside the verified core overrides it, or nothing can
    /// be proved about what the implementation delivers. An unverified bus
    /// adapter may leave it in place, since no proof rests on its history.
    open spec fn log(&self) -> Seq<Transmission> {
        Seq::empty()
    }

    /// Sends one command-phase payload.
    fn send_commands(&mut self, bytes: &[u8]) -> (r: Result<(), TransportError>)
        ensures
            r is Ok ==> final(self).log() == old(self).log().push(
                Transmission::Commands(bytes@),
            ),
            r is Err ==> final(self).log() == old(self).log(),
    ;

    /// Sends one data-phase payload.
    fn send_data(&mut self, bytes: &[u8]) -> (r: Result<(), TransportError>)
        ensures
            r is Ok ==> final(self).log() == old(self).log().push(Transmission::Data(bytes@)),
            r is Err ==> final(self).log() == old(self).log(),
    ;
}

/// An owned copy of one transmission, as a recording transport stores it.
#[derive(Debug, PartialEq, Eq)]
pub enum RecordedTransmission {
    Commands(Vec<u8>),
    Data(Vec<u8>),
}

impl View for RecordedTransmission {
    type V = Transmission;

    open spec fn view(&self) -> Transmission {
        match self {
            RecordedTransmission::Commands(bytes) => Transmission::Commands(bytes@),
            RecordedTransmission::Data(bytes) => Transmission::Data(bytes@),
        }
    }
}

/// The abstract history a sequence of recorded transmissions stands for.
pub open spec fn recorded_log(sent: Seq<RecordedTransmission>) -> Seq<Transmission> {
    sent.map(|i: int, t: RecordedTransmission| t@)
}

/// A transport that delivers nowhere and keeps every transmission, with an
/// optional injected failure.
///
/// `attempts` counts every send that was asked for, delivered or not, and
/// saturates; a send fails exactly when `fail_on_attempt` names its attempt
/// number. `sent` holds the delivered transmissions in order.
pub struct RecordingTransport {
    pub sent: Vec<RecordedTransmission>,
    pub attempts: u64,
    pub fail_on_attempt: Option<u64>,
}

impl RecordingTransport {
    /// A fresh transport with an empty history that never fails.
    pub fn new() -> (t: RecordingTransport)
        ensures
            t.log() == Seq::<Transmission>::empty(),
            t.sent@ == Seq::<RecordedTransmission>::empty(),
            t.attempts == 0,
            t.fail_on_attempt is None,
    {
        let t = RecordingTransport { sent: Vec::new(), attempts: 0, fail_on_attempt: None };
        proof {
            assert(recorded_log(t.sent@) =~= Seq::<Transmission>::empty());
        }
        t
    }

    /// A fresh transport whose send numbered `attempt` (counting from zero)
    /// will fail; every other send succeeds.
    pub fn failing_on(attempt: u64) -> (t: RecordingTransport)
        ensures
            t.log() == Seq::<Transmission>::empty(),
            t.sent@ == Seq::<RecordedTransmission>::empty(),
            t.attempts == 0,
            t.fail_on_attempt == Some(attempt),
    {
        let t = RecordingTransport {
            sent: Vec::new(),
            attempts: 0,
            fail_on_attempt: Some(attempt),
        };
        proof {
            assert(recorded_log(t.sent@) =~= Seq::<Transmission>::empty());
        }
        t
    }

    /// Whether the send being attempted now is the one set up to fail; also
    /// advances the attempt counter.
    fn note_attempt(&mut self) -> (fail: bool)
        ensures
            final(self).sent == old(self).sent,
            final(self).fail_on_attempt == old(self).fail_on_attempt,
            fail == (old(self).fail_on_attempt == Some(old(self).attempts)),
            old(self).attempts < u64::MAX ==> final(self).attempts == old(self).attempts + 1,
            old(self).attempts == u64::MAX ==> final(self).attempts == u64::MAX,
    {
        let fail = match self.fail_on_attempt {
            Some(n) => n == self.attempts,
            None => false,
        };
        if self.attempts < u64::MAX {
            self.attempts = self.attempts + 1;
        }
        fail
    }

    /// Appends one delivered transmission to the record.
    fn record(&mut self, rec: RecordedTransmission)
        ensures
            final(self).log() == old(self).log().push(rec@),
            final(self).sent@ == old(self).sent@.push(rec),
            final(self).fail_on_attempt == old(self).fail_on_attempt,
            final(self).attempts == old(self).attempts,
    {
        let ghost previous = self.sent@;
        self.sent.push(rec);
        proof {
            assert(recorded_log(self.sent@) =~= recorded_log(previous).push(rec@));
        }
    }
}

impl DisplayTransport for RecordingTransport {
    open spec fn log(&self) -> Seq<Transmission> {
        recorded_log(self.sent@)
    }

    fn send_commands(&mut self, bytes: &[u8]) -> (r: Result<(), TransportError>)
        ensures
            r is Ok <==> old(self).fail_on_attempt != Some(old(self).attempts),
            final(self).fail_on_attempt == old(self).fail_on_attempt,
            old(self).attempts < u64::MAX ==> final(self).attempts == old(self).attempts + 1,
            old(self).attempts == u64::MAX ==> final(self).attempts == u64::MAX,
    {
        if self.note_attempt() {
            Err(TransportError)
        } else {
            let copied = vstd::slice::slice_to_vec(bytes);
            self.record(RecordedTransmission::Commands(copied));
            Ok(())
        }
    }

    fn send_data(&mut self, bytes: &[u8]) -> (r: Result<(), TransportError>)
        ensures
            r is Ok <==> old(self).fail_on_attempt != Some(old(self).attempts),
            final(self).fail_on_attempt == old(self).fail_on_attempt,
            old(self).attempts < u64::MAX ==> final(self).attempts == old(self).attempts + 1,
            old(self).attempts == u64::MAX ==> final(self).attempts == u64::MAX,
    {
        if self.note_attempt() {
            Err(TransportError)
        } else {
            let copied = vstd::slice::slice_to_vec(bytes);
            self.record(RecordedTransmission::Data(copied));
            Ok(())
        }
    }
}

} // verus!
