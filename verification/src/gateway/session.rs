//! The identity of a session: what a shard must remember to take the session
//! up again after a disconnect.

use vstd::prelude::*;

verus! {

/// An established session, as mathematical values.
pub struct Session {
    /// The identifier that the service gave the session.
    pub id: Seq<u8>,
    /// The sequence number of the last dispatch frame seen.
    pub sequence: u64,
    /// The address at which the session can be resumed, if the service named
    /// one.
    pub resume_url: Option<Seq<u8>>,
}

/// Why a sequence number was not recorded.
#[derive(Clone, Copy, Debug, PartialEq, Eq, Structural, Hash)]
pub enum SequenceError {
    /// There is no session to record it for.
    NoSession,
    /// It is smaller than the one recorded last.
    OutOfOrder { last: u64, got: u64 },
}

/// What recording a dispatch frame's sequence number answers.
pub open spec fn record_outcome(state: Option<Session>, sequence: u64) -> Result<
    (),
    SequenceError,
> {
    match state {
        None => Err(SequenceError::NoSession),
        Some(session) => if sequence < session.sequence {
            Err(SequenceError::OutOfOrder { last: session.sequence, got: sequence })
        } else {
            Ok(())
        },
    }
}

/// The state after recording a dispatch frame's sequence number: the number
/// is taken where it is in order, and nothing changes where it is not.
pub open spec fn recorded(state: Option<Session>, sequence: u64) -> Option<Session> {
    match state {
        Some(session) if sequence >= session.sequence => Some(Session { sequence, ..session }),
        _ => state,
    }
}

/// The state after recording the sequence numbers of several dispatch
/// frames, first to last.
pub open spec fn recorded_all(state: Option<Session>, sequences: Seq<u64>) -> Option<Session>
    decreases sequences.len(),
{
    if sequences.len() == 0 {
        state
    } else {
        recorded(recorded_all(state, sequences.drop_last()), sequences.last())
    }
}

/// Whether dispatch frames with these sequence numbers arrive in order on a
/// session whose last recorded number is `last`.
pub open spec fn in_order(last: u64, sequences: Seq<u64>) -> bool {
    &&& forall|i: int| 0 <= i < sequences.len() ==> last <= #[trigger] sequences[i]
    &&& forall|i: int, j: int|
        0 <= i <= j < sequences.len() ==> #[trigger] sequences[i] <= #[trigger] sequences[j]
}

/// Whatever frames arrive, a session stays the session it is, and its
/// recorded sequence number never decreases.
pub proof fn lemma_sequence_never_decreases(state: Option<Session>, sequences: Seq<u64>, i: int)
    requires
        state is Some,
        0 <= i <= sequences.len(),
    ensures
        recorded_all(state, sequences.take(i)) is Some,
        recorded_all(state, sequences) is Some,
        recorded_all(state, sequences)->0.id == state->0.id,
        recorded_all(state, sequences)->0.resume_url == state->0.resume_url,
        recorded_all(state, sequences.take(i))->0.sequence <= recorded_all(
            state,
            sequences,
        )->0.sequence,
    decreases sequences.len(),
{
    if i == sequences.len() {
        assert(sequences.take(i) =~= sequences);
        if sequences.len() > 0 {
            lemma_sequence_never_decreases(
                state,
                sequences.drop_last(),
                sequences.len() - 1,
            );
        }
    } else {
        assert(sequences.drop_last().take(i) =~= sequences.take(i));
        lemma_sequence_never_decreases(state, sequences.drop_last(), i);
    }
}

/// After dispatch frames that arrive in order, the recorded sequence number
/// is that of the frame that arrived last.
pub proof fn lemma_in_order_dispatches(state: Option<Session>, sequences: Seq<u64>)
    requires
        state is Some,
        in_order(state->0.sequence, sequences),
    ensures
        recorded_all(state, sequences) is Some,
        recorded_all(state, sequences)->0.sequence == if sequences.len() == 0 {
            state->0.sequence
        } else {
            sequences.last()
        },
    decreases sequences.len(),
{
    if sequences.len() > 0 {
        let front = sequences.drop_last();
        assert(in_order(state->0.sequence, front)) by {
            assert forall|i: int| 0 <= i < front.len() implies state->0.sequence
                <= #[trigger] front[i] by {
                assert(front[i] == sequences[i]);
            }
            assert forall|i: int, j: int| 0 <= i <= j < front.len() implies #[trigger] front[i]
                <= #[trigger] front[j] by {
                assert(front[i] == sequences[i]);
                assert(front[j] == sequences[j]);
            }
        }
        lemma_in_order_dispatches(state, front);
        if front.len() > 0 {
            assert(front.last() == sequences[sequences.len() - 2]);
            assert(sequences[sequences.len() - 2] <= sequences[sequences.len() - 1]);
        } else {
            assert(state->0.sequence <= sequences[0]);
        }
    }
}

struct Established {
    id: Vec<u8>,
    sequence: u64,
    resume_url: Option<Vec<u8>>,
}

/// The resumable identity of a shard's session.
///
/// It is empty until a handshake succeeds, then holds the session's
/// identifier together with the sequence number of the last dispatch frame.
/// The two are set together and cleared together.
pub struct SessionState {
    current: Option<Established>,
}

impl View for SessionState {
    type V = Option<Session>;

    closed spec fn view(&self) -> Option<Session> {
        match self.current {
            Some(e) => Some(
                Session {
                    id: e.id@,
                    sequence: e.sequence,
                    resume_url: match e.resume_url {
                        Some(url) => Some(url@),
                        None => None,
                    },
                },
            ),
            None => None,
        }
    }
}

impl SessionState {
    /// The state of a shard that never had a session.
    pub fn new() -> (state: Self)
        ensures
            state@ is None,
    {
        SessionState { current: None }
    }

    /// Takes up the session `id`, whose last dispatch frame had the number
    /// `sequence`. Whatever was held before is replaced.
    pub fn establish(&mut self, id: Vec<u8>, sequence: u64, resume_url: Option<Vec<u8>>)
        ensures
            final(self)@ == Some(
                Session {
                    id: id@,
                    sequence,
                    resume_url: match resume_url {
                        Some(url) => Some(url@),
                        None => None,
                    },
                },
            ),
    {
        self.current = Some(Established { id, sequence, resume_url });
    }

    /// Records the sequence number of a dispatch frame. To be called for
    /// every dispatch frame, in the order received.
    ///
    /// A number smaller than the last one recorded is a protocol violation:
    /// it is refused, and so is any number while there is no session. The
    /// state then stays as it is.
    pub fn record_dispatch(&mut self, sequence: u64) -> (outcome: Result<(), SequenceError>)
        ensures
            outcome == record_outcome(old(self)@, sequence),
            final(self)@ == recorded(old(self)@, sequence),
    {
        match &mut self.current {
            None => Err(SequenceError::NoSession),
            Some(e) => {
                if sequence < e.sequence {
                    Err(SequenceError::OutOfOrder { last: e.sequence, got: sequence })
                } else {
                    e.sequence = sequence;
                    Ok(())
                }
            },
        }
    }

    /// What a resume attempt needs: the session's identifier and the last
    /// sequence number. `None` where no session is held.
    pub fn snapshot_for_resume(&self) -> (snapshot: Option<(Vec<u8>, u64)>)
        ensures
            match snapshot {
                Some((id, sequence)) => self@ matches Some(session) && id@ == session.id
                    && sequence == session.sequence,
                None => self@ is None,
            },
    {
        match &self.current {
            Some(e) => Some((e.id.clone(), e.sequence)),
            None => None,
        }
    }

    /// Forgets the session: its identifier, its sequence number and its
    /// resume address go together. The next connection has to identify anew.
    pub fn invalidate(&mut self)
        ensures
            final(self)@ is None,
    {
        self.current = None;
    }

    /// Whether a session is held.
    pub fn is_active(&self) -> (active: bool)
        ensures
            active == (self@ is Some),
    {
        self.current.is_some()
    }

    /// The sequence number of the last dispatch frame recorded.
    pub fn sequence(&self) -> (sequence: Option<u64>)
        ensures
            sequence == match self@ {
                Some(session) => Some(session.sequence),
                None => None,
            },
    {
        match &self.current {
            Some(e) => Some(e.sequence),
            None => None,
        }
    }

    /// The identifier of the session.
    pub fn session_id(&self) -> (id: Option<Vec<u8>>)
        ensures
            match id {
                Some(id) => self@ matches Some(session) && id@ == session.id,
                None => self@ is None,
            },
    {
        match &self.current {
            Some(e) => Some(e.id.clone()),
            None => None,
        }
    }

    /// The address at which the session can be resumed.
    pub fn resume_url(&self) -> (url: Option<Vec<u8>>)
        ensures
            match url {
                Some(url) => self@ matches Some(session) && session.resume_url == Some(url@),
                None => self@ is None || self@->0.resume_url is None,
            },
    {
        match &self.current {
            Some(e) => match &e.resume_url {
                Some(url) => Some(url.clone()),
                None => None,
            },
            None => None,
        }
    }
}

} // verus!
