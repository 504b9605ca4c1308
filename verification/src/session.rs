use vstd::prelude::*;

use crate::errors::ErrorKind;

verus! {

/// A negotiated stream that can be divided into a read half and a write half.
pub trait SplitStream: Sized {
    type Reader;
    type Writer;

    /// Divides the stream into its two halves.
    fn split_halves(self) -> (Self::Reader, Self::Writer);
}

/// Where a session's stream stands.
#[derive(Debug, Clone, Copy, PartialEq, Eq, Structural)]
pub enum StreamPhase {
    /// No stream is held (not negotiated yet, or lost by a refused take).
    Empty,
    /// The whole negotiated stream is held.
    Full,
    /// The stream has been split into a reader and a writer.
    Split,
    /// The stream has been taken out by `take_stream`.
    Taken,
}

/// Outcome of handing out the whole stream from a phase.
pub open spec fn take_outcome(p: StreamPhase) -> Result<(), ErrorKind> {
    match p {
        StreamPhase::Full => Ok(()),
        StreamPhase::Split => Err(ErrorKind::TransportStreamAlreadySplit),
        _ => Err(ErrorKind::TransportStreamNotAvailable),
    }
}

/// Phase left behind by `take_stream`.
pub open spec fn phase_after_take(p: StreamPhase) -> StreamPhase {
    if p == StreamPhase::Full {
        StreamPhase::Taken
    } else {
        StreamPhase::Empty
    }
}

/// Phase left behind by a read or write access: a full stream gets split.
pub open spec fn phase_after_split(p: StreamPhase) -> StreamPhase {
    if p == StreamPhase::Full {
        StreamPhase::Split
    } else {
        p
    }
}

/// Outcome of a read or write access from a phase.
pub open spec fn io_outcome(p: StreamPhase) -> Result<(), ErrorKind> {
    if p == StreamPhase::Full || p == StreamPhase::Split {
        Ok(())
    } else {
        Err(ErrorKind::TransportStreamNotAvailable)
    }
}

/// Before negotiation no stream is available: it can be neither taken nor read or written.
pub proof fn lemma_nothing_before_negotiation()
    ensures
        take_outcome(StreamPhase::Empty) == Err::<(), ErrorKind>(ErrorKind::TransportStreamNotAvailable),
        io_outcome(StreamPhase::Empty) == Err::<(), ErrorKind>(ErrorKind::TransportStreamNotAvailable),
{
}

/// A negotiated stream can be taken whole, or read and written.
pub proof fn lemma_negotiated_stream_available()
    ensures
        take_outcome(StreamPhase::Full) is Ok,
        io_outcome(StreamPhase::Full) is Ok,
{
}

/// The stream is handed out at most once: after a successful take, neither another take
/// nor a read or write succeeds.
pub proof fn lemma_stream_taken_at_most_once(p: StreamPhase)
    requires
        take_outcome(p) is Ok,
    ensures
        phase_after_take(p) == StreamPhase::Taken,
        take_outcome(phase_after_take(p)) == Err::<(), ErrorKind>(ErrorKind::TransportStreamNotAvailable),
        io_outcome(phase_after_take(p)) == Err::<(), ErrorKind>(ErrorKind::TransportStreamNotAvailable),
{
}

/// Once a read or write has succeeded, the stream stays split: it can no longer be
/// taken whole.
pub proof fn lemma_split_precludes_take(p: StreamPhase)
    requires
        io_outcome(p) is Ok,
    ensures
        phase_after_split(p) == StreamPhase::Split,
        take_outcome(phase_after_split(p)) == Err::<(), ErrorKind>(ErrorKind::TransportStreamAlreadySplit),
{
}

/// Reads and writes can be repeated: an access leaves a phase in which the next access
/// has the same outcome, and a second access changes the phase no further.
pub proof fn lemma_io_repeatable(p: StreamPhase)
    ensures
        io_outcome(phase_after_split(p)) == io_outcome(p),
        phase_after_split(phase_after_split(p)) == phase_after_split(p),
{
}

/// The split step is idempotent: splitting a second time leaves the session exactly as
/// the first split left it.
pub proof fn lemma_split_twice_is_split_once<S: SplitStream>(
    s0: SessionStream<S>,
    s1: SessionStream<S>,
    s2: SessionStream<S>,
)
    requires
        s0.split_step(s1),
        s1.split_step(s2),
    ensures
        s2 == s1,
{
}

/// Handing out the whole stream and reading or writing never both succeed from the
/// phase left by the other.
pub proof fn lemma_take_and_io_exclusive(p: StreamPhase)
    ensures
        take_outcome(p) is Ok ==> io_outcome(phase_after_take(p)) is Err,
        io_outcome(p) is Ok ==> take_outcome(phase_after_split(p)) is Err,
{
}

enum NegotiatedState<S: SplitStream> {
    Split { reader: S::Reader, writer: S::Writer },
    Full(S),
    Taken,
}

/// The negotiated stream of a client or a server, and what has been done with it.
pub struct SessionStream<S: SplitStream> {
    state: Option<NegotiatedState<S>>,
}

impl<S: SplitStream> View for SessionStream<S> {
    type V = StreamPhase;

    closed spec fn view(&self) -> StreamPhase {
        match self.state {
            None => StreamPhase::Empty,
            Some(NegotiatedState::Full(_)) => StreamPhase::Full,
            Some(NegotiatedState::Split { .. }) => StreamPhase::Split,
            Some(NegotiatedState::Taken) => StreamPhase::Taken,
        }
    }
}

impl<S: SplitStream> SessionStream<S> {
    /// The whole stream, while one is held.
    pub closed spec fn held(&self) -> Option<S> {
        match self.state {
            Some(NegotiatedState::Full(s)) => Some(s),
            _ => None,
        }
    }

    /// The read half and the write half, while the stream is split.
    pub closed spec fn halves(&self) -> Option<(S::Reader, S::Writer)> {
        match self.state {
            Some(NegotiatedState::Split { reader, writer }) => Some((reader, writer)),
            _ => None,
        }
    }

    /// `after` is what the split step makes of `self`: a full stream is split into its
    /// two halves, and any other session is left exactly as it is.
    pub open spec fn split_step(self, after: Self) -> bool {
        &&& after@ == phase_after_split(self@)
        &&& after.held() == None::<S>
        &&& self@ == StreamPhase::Full ==> after.halves() is Some
        &&& self@ != StreamPhase::Full ==> after == self
    }

    pub fn new() -> (res: Self)
        ensures
            res@ == StreamPhase::Empty,
            res.held() == None::<S>,
    {
        SessionStream { state: None }
    }

    pub fn phase(&self) -> (p: StreamPhase)
        ensures
            p == self@,
    {
        match &self.state {
            None => StreamPhase::Empty,
            Some(NegotiatedState::Full(_)) => StreamPhase::Full,
            Some(NegotiatedState::Split { .. }) => StreamPhase::Split,
            Some(NegotiatedState::Taken) => StreamPhase::Taken,
        }
    }

    /// Stores a freshly negotiated stream; it is split on the first read or write.
    pub fn install(&mut self, stream: S)
        ensures
            final(self)@ == StreamPhase::Full,
            final(self).held() == Some(stream),
    {
        self.state = Some(NegotiatedState::Full(stream));
    }

    pub fn into_stream(self) -> (r: Result<S, ErrorKind>)
        ensures
            r is Ok <==> self@ == StreamPhase::Full,
            r matches Ok(s) ==> self.held() == Some(s),
            r matches Err(e) ==> take_outcome(self@) == Err::<(), ErrorKind>(e),
    {
        let mut this = self;
        match this.state.take() {
            Some(NegotiatedState::Full(stream)) => Ok(stream),
            Some(NegotiatedState::Split { .. }) => Err(ErrorKind::TransportStreamAlreadySplit),
            _ => Err(ErrorKind::TransportStreamNotAvailable),
        }
    }

    pub fn take_stream(&mut self) -> (r: Result<S, ErrorKind>)
        ensures
            r is Ok <==> old(self)@ == StreamPhase::Full,
            r matches Ok(s) ==> old(self).held() == Some(s),
            r matches Err(e) ==> take_outcome(old(self)@) == Err::<(), ErrorKind>(e),
            final(self)@ == phase_after_take(old(self)@),
            final(self).held() == None::<S>,
    {
        match self.state.take() {
            Some(NegotiatedState::Full(stream)) => {
                self.state = Some(NegotiatedState::Taken);
                Ok(stream)
            },
            Some(NegotiatedState::Split { .. }) => Err(ErrorKind::TransportStreamAlreadySplit),
            _ => Err(ErrorKind::TransportStreamNotAvailable),
        }
    }

    /// Splits a full stream into its read and write halves; leaves any other session as it is.
    pub fn ensure_split(&mut self)
        ensures
            old(self).split_step(*final(self)),
    {
        match self.state.take() {
            Some(NegotiatedState::Full(stream)) => {
                let (reader, writer) = stream.split_halves();
                self.state = Some(NegotiatedState::Split { reader, writer });
            },
            other => {
                self.state = other;
            },
        }
    }

    /// The write half of the stream, splitting a full stream first.
    pub fn writer(&mut self) -> (r: Result<&mut S::Writer, ErrorKind>)
        ensures
            r is Ok <==> io_outcome(old(self)@) is Ok,
            r matches Err(e) ==> io_outcome(old(self)@) == Err::<(), ErrorKind>(e),
            r is Err ==> *final(self) == *old(self),
            final(self)@ == phase_after_split(old(self)@),
            final(self).held() == None::<S>,
            old(self)@ == StreamPhase::Split ==> (r matches Ok(h) && *h == old(self).halves().unwrap().1),
            r matches Ok(h) ==> (final(self).halves() matches Some(hs) && hs.1 == *final(h)),
            old(self)@ == StreamPhase::Split ==> (final(self).halves() matches Some(hs) && hs.0
                == old(self).halves().unwrap().0),
    {
        self.ensure_split();
        match &mut self.state {
            Some(NegotiatedState::Split { writer, .. }) => Ok(writer),
            _ => Err(ErrorKind::TransportStreamNotAvailable),
        }
    }

    /// The read half of the stream, splitting a full stream first.
    pub fn reader(&mut self) -> (r: Result<&mut S::Reader, ErrorKind>)
        ensures
            r is Ok <==> io_outcome(old(self)@) is Ok,
            r matches Err(e) ==> io_outcome(old(self)@) == Err::<(), ErrorKind>(e),
            r is Err ==> *final(self) == *old(self),
            final(self)@ == phase_after_split(old(self)@),
            final(self).held() == None::<S>,
            old(self)@ == StreamPhase::Split ==> (r matches Ok(h) && *h == old(self).halves().unwrap().0),
            r matches Ok(h) ==> (final(self).halves() matches Some(hs) && hs.0 == *final(h)),
            old(self)@ == StreamPhase::Split ==> (final(self).halves() matches Some(hs) && hs.1
                == old(self).halves().unwrap().1),
    {
        self.ensure_split();
        match &mut self.state {
            Some(NegotiatedState::Split { reader, .. }) => Ok(reader),
            _ => Err(ErrorKind::TransportStreamNotAvailable),
        }
    }
}

} // verus!
