//! The response body: a state machine over the host's incremental reader.
//!
//! The reader lets one read be outstanding at a time. A body is `Active`
//! while exactly one read is in flight and `Absent` once nothing more will
//! come. Whoever drives it asks `poll_data` what to do, awaits the read
//! where told to, and hands its outcome to `on_read`, which says whether
//! the next read is to be issued.
use vstd::prelude::*;
use crate::error::Error;

verus! {

/// What the host's reader answered to one read.
pub enum HostRead {
    /// A chunk of the body.
    Chunk(Vec<u8>),
    /// The stream is complete.
    Done,
    /// The read itself failed.
    Failed,
}

/// Where a body stands.
#[derive(Clone, Copy, Debug, PartialEq, Eq, Structural)]
pub enum BodyState {
    /// Nothing more will be read: every poll ends the stream.
    Absent,
    /// One read is in flight.
    Active,
}

/// What a poll asks of the driver.
#[derive(Clone, Copy, Debug, PartialEq, Eq, Structural)]
pub enum PollStep {
    /// The stream has ended; no read is made.
    End,
    /// Await the read in flight and hand its outcome to `on_read`.
    AwaitRead,
}

/// What `on_read` makes of a resolved read.
pub struct ReadStep {
    /// The item the poll yields: a chunk, the end (`None`), or an error.
    pub item: Option<Result<Vec<u8>, Error>>,
    /// Whether the driver is to issue the next read now.
    pub read_next: bool,
}

/// A response body, read lazily from the host.
pub struct Body {
    state: BodyState,
}

impl View for Body {
    type V = BodyState;

    closed spec fn view(&self) -> BodyState {
        self.state
    }
}

/// The item of the sequence that a resolved read stands for.
pub open spec fn item_of(ev: HostRead) -> Option<Result<Seq<u8>, Error>> {
    match ev {
        HostRead::Chunk(c) => Some(Ok(c@)),
        HostRead::Done => None,
        HostRead::Failed => Some(Err(Error::TransportError)),
    }
}

/// The state a body is in after a read resolved: only a chunk keeps it going.
pub open spec fn state_after(ev: HostRead) -> BodyState {
    if ev is Chunk {
        BodyState::Active
    } else {
        BodyState::Absent
    }
}

/// The item that an executable item stands for.
pub open spec fn item_view(i: Option<Result<Vec<u8>, Error>>) -> Option<Result<Seq<u8>, Error>> {
    match i {
        Some(Ok(c)) => Some(Ok(c@)),
        Some(Err(e)) => Some(Err(e)),
        None => None,
    }
}

/// What `n` polls of a body in state `s` yield when the host answers its
/// reads with `script`, in order, and how many of those reads they used. A
/// read that the script does not answer never resolves, and the polls stop
/// there.
pub open spec fn polls(s: BodyState, script: Seq<HostRead>, n: nat) -> (Seq<
    Option<Result<Seq<u8>, Error>>,
>, nat)
    decreases n,
{
    if n == 0 {
        (seq![], 0)
    } else if s == BodyState::Absent {
        let rest = polls(BodyState::Absent, script, (n - 1) as nat);
        (seq![None].add(rest.0), rest.1)
    } else if script.len() == 0 {
        (seq![], 0)
    } else {
        let rest = polls(state_after(script[0]), script.drop_first(), (n - 1) as nat);
        (seq![item_of(script[0])].add(rest.0), rest.1 + 1)
    }
}

impl Body {
    /// A body that the host reported absent.
    pub fn empty() -> (b: Body)
        ensures
            b@ == BodyState::Absent,
    {
        Body { state: BodyState::Absent }
    }

    /// A body whose first read has just been issued.
    pub fn streaming() -> (b: Body)
        ensures
            b@ == BodyState::Active,
    {
        Body { state: BodyState::Active }
    }

    /// Whether a read is in flight.
    pub fn is_active(&self) -> (r: bool)
        ensures
            r == (self@ == BodyState::Active),
    {
        match self.state {
            BodyState::Active => true,
            BodyState::Absent => false,
        }
    }

    /// What a poll of the body asks: the end at once where it is absent, or
    /// the outcome of the read in flight.
    pub fn poll_data(&self) -> (r: PollStep)
        ensures
            self@ == BodyState::Absent ==> r == PollStep::End,
            self@ == BodyState::Active ==> r == PollStep::AwaitRead,
    {
        match self.state {
            BodyState::Absent => PollStep::End,
            BodyState::Active => PollStep::AwaitRead,
        }
    }

    /// Takes the outcome of the read in flight. A chunk is yielded and the
    /// next read is to be issued; completion ends the stream and a failure
    /// yields `TransportError`, and in both the body is absent from then on
    /// and no read is issued again.
    pub fn on_read(&mut self, ev: HostRead) -> (r: ReadStep)
        requires
            old(self)@ == BodyState::Active,
        ensures
            item_view(r.item) == item_of(ev),
            r.read_next == ev is Chunk,
            final(self)@ == state_after(ev),
    {
        match ev {
            HostRead::Chunk(c) => {
                self.state = BodyState::Active;
                ReadStep { item: Some(Ok(c)), read_next: true }
            },
            HostRead::Done => {
                self.state = BodyState::Absent;
                ReadStep { item: None, read_next: false }
            },
            HostRead::Failed => {
                self.state = BodyState::Absent;
                ReadStep { item: Some(Err(Error::TransportError)), read_next: false }
            },
        }
    }

    /// A body carries no trailers.
    pub fn poll_trailers(&self) -> (r: Option<Vec<(String, String)>>)
        ensures
            r is None,
    {
        None
    }
}

/// An absent body ends the stream on every poll, however many there are,
/// and reads nothing.
pub proof fn lemma_absent_stays_ended(script: Seq<HostRead>, n: nat)
    ensures
        polls(BodyState::Absent, script, n).0 == Seq::new(n, |j: int| None::<Result<Seq<u8>, Error>>),
        polls(BodyState::Absent, script, n).1 == 0,
    decreases n,
{
    if n > 0 {
        lemma_absent_stays_ended(script, (n - 1) as nat);
        assert(polls(BodyState::Absent, script, n).0 =~= Seq::new(n, |j: int| None::<Result<Seq<u8>, Error>>));
    }
}

/// A streaming body yields the host's chunks in the order they came, then
/// the end (or `TransportError`) at the first read that brought no chunk,
/// then only ends; it uses exactly the reads up to that one and issues none
/// after it.
pub proof fn lemma_yields_host_chunks(script: Seq<HostRead>, k: nat, n: nat)
    requires
        k < script.len(),
        forall|j: int| 0 <= j < k ==> (#[trigger] script[j]) is Chunk,
        !(script[k as int] is Chunk),
        k < n,
    ensures
        polls(BodyState::Active, script, n).0 == Seq::new(
            n,
            |j: int| if j <= k { item_of(script[j]) } else { None },
        ),
        polls(BodyState::Active, script, n).1 == k + 1,
    decreases k,
{
    let expected = Seq::new(
        n,
        |j: int| if j <= k { item_of(script[j]) } else { None },
    );
    if k == 0 {
        lemma_absent_stays_ended(script.drop_first(), (n - 1) as nat);
        assert(polls(BodyState::Active, script, n).0 =~= expected);
    } else {
        let tail = script.drop_first();
        assert forall|j: int| 0 <= j < k - 1 implies (#[trigger] tail[j]) is Chunk by {
            assert(script[j + 1] is Chunk);
        }
        lemma_yields_host_chunks(tail, (k - 1) as nat, (n - 1) as nat);
        assert(polls(BodyState::Active, script, n).0 =~= expected);
    }
}

} // verus!
