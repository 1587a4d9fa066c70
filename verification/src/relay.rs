use vstd::prelude::*;

verus! {

/// Size of the buffer that each readiness event starts reading into.
pub const INITIAL_READ_CAPACITY: usize = 4096;

/// How much the buffer grows each time a read fills it.
pub const READ_GROWTH: usize = 1024;

/// What one `read` call on a non-blocking source reported.
#[derive(Clone, Copy, Debug, PartialEq, Eq, Structural)]
pub enum ReadOutcome {
    /// `Ok(n)`: `n` bytes were read (0 means end of stream).
    Bytes(usize),
    /// The source has nothing more for now.
    WouldBlock,
    /// The call was interrupted before reading anything.
    Interrupted,
    /// Any other error.
    Failed,
}

/// What to do after a read.
#[derive(Clone, Copy, Debug, PartialEq, Eq, Structural)]
pub enum ReadAction {
    /// Read again into the buffer's free part.
    ReadMore,
    /// Stop reading; what was collected is complete.
    Done,
    /// Stop and report the error.
    Abort,
}

/// What a read buffer holds: the bytes collected so far and the buffer's size.
pub ghost struct ReadBufferView {
    pub received: Seq<u8>,
    pub capacity: nat,
}

/// A buffer that collects what a non-blocking source yields during one
/// readiness event. Reads go into its free part; when a read fills it, it
/// grows, so that the free part is never empty.
pub struct ReadBuffer {
    data: Vec<u8>,
    filled: usize,
}

/// `n` zero bytes.
pub open spec fn zeros(n: nat) -> Seq<u8> {
    Seq::new(n, |i: int| 0u8)
}

/// A buffer is well formed when it has room left, has the initial size plus
/// a whole number of growth steps, and holds zeros past the collected bytes.
pub open spec fn read_buffer_wf(v: ReadBufferView) -> bool {
    &&& v.received.len() < v.capacity
    &&& v.capacity >= INITIAL_READ_CAPACITY
    &&& (v.capacity - INITIAL_READ_CAPACITY) % (READ_GROWTH as int) == 0
}

/// One step of the read loop: the next state of the buffer, and the action.
pub open spec fn spec_read_step(v: ReadBufferView, outcome: ReadOutcome, chunk: Seq<u8>) -> (
    ReadBufferView,
    ReadAction,
) {
    match outcome {
        ReadOutcome::Bytes(n) => if n == 0 {
            (v, ReadAction::Done)
        } else {
            let received = v.received + chunk;
            let capacity = if received.len() == v.capacity {
                v.capacity + READ_GROWTH as nat
            } else {
                v.capacity
            };
            (ReadBufferView { received, capacity }, ReadAction::ReadMore)
        },
        ReadOutcome::WouldBlock => (v, ReadAction::Done),
        ReadOutcome::Interrupted => (v, ReadAction::ReadMore),
        ReadOutcome::Failed => (v, ReadAction::Abort),
    }
}

impl View for ReadBuffer {
    type V = ReadBufferView;

    closed spec fn view(&self) -> ReadBufferView {
        ReadBufferView { received: self.data@.take(self.filled as int), capacity: self.data@.len() }
    }
}

impl ReadBuffer {
    #[verifier::type_invariant]
    spec fn inv(self) -> bool {
        &&& self.filled < self.data@.len()
        &&& self.data@.len() >= INITIAL_READ_CAPACITY
        &&& (self.data@.len() - INITIAL_READ_CAPACITY) % (READ_GROWTH as int) == 0
        &&& forall|j: int| self.filled <= j < self.data@.len() ==> self.data@[j] == 0u8
    }

    /// An empty buffer of the initial size, all zeros.
    pub fn new() -> (r: ReadBuffer)
        ensures
            r@ == (ReadBufferView { received: seq![], capacity: INITIAL_READ_CAPACITY as nat }),
            read_buffer_wf(r@),
    {
        let mut data: Vec<u8> = Vec::new();
        let mut i: usize = 0;
        while i < INITIAL_READ_CAPACITY
            invariant
                i <= INITIAL_READ_CAPACITY,
                data@.len() == i,
                forall|j: int| 0 <= j < i ==> data@[j] == 0u8,
            decreases INITIAL_READ_CAPACITY - i,
        {
            data.push(0u8);
            i = i + 1;
        }
        let r = ReadBuffer { data, filled: 0 };
        proof {
            assert(r@.received =~= seq![]);
        }
        r
    }

    /// The size of the free part that the next read goes into; never zero.
    pub fn window_len(&self) -> (r: usize)
        ensures
            r == self@.capacity - self@.received.len(),
            r > 0,
    {
        proof {
            use_type_invariant(self);
        }
        self.data.len() - self.filled
    }

    /// The number of bytes collected so far.
    pub fn len(&self) -> (r: usize)
        ensures
            r == self@.received.len(),
    {
        proof {
            use_type_invariant(self);
        }
        self.filled
    }

    /// The bytes collected so far.
    pub fn received(&self) -> (r: &[u8])
        ensures
            r@ == self@.received,
    {
        proof {
            use_type_invariant(self);
        }
        vstd::slice::slice_subrange(self.data.as_slice(), 0, self.filled)
    }

    /// The whole buffer: the bytes collected, then zeros up to its size.
    pub fn contents(&self) -> (r: &[u8])
        ensures
            r@ == self@.received + zeros((self@.capacity - self@.received.len()) as nat),
    {
        proof {
            use_type_invariant(self);
            assert(self.data@ =~= self@.received + zeros(
                (self@.capacity - self@.received.len()) as nat,
            ));
        }
        self.data.as_slice()
    }

    /// Takes in the outcome of one read into the free part, where `chunk`
    /// holds the bytes that the read delivered: end of stream and "would
    /// block" finish the loop, an interruption reads again, another error
    /// aborts, and bytes are appended (growing the buffer when it is full)
    /// before reading again.
    pub fn step(&mut self, outcome: ReadOutcome, chunk: &[u8]) -> (r: ReadAction)
        requires
            outcome matches ReadOutcome::Bytes(n) ==> chunk@.len() == n && n <= old(
                self,
            )@.capacity - old(self)@.received.len(),
        ensures
            (final(self)@, r) == spec_read_step(old(self)@, outcome, chunk@),
            read_buffer_wf(final(self)@),
            outcome == ReadOutcome::Bytes(0) ==> r == ReadAction::Done && final(self)@ == old(
                self,
            )@,
            outcome == ReadOutcome::WouldBlock ==> r == ReadAction::Done && final(self)@ == old(
                self,
            )@,
            outcome == ReadOutcome::Interrupted ==> r == ReadAction::ReadMore && final(self)@
                == old(self)@,
            outcome == ReadOutcome::Failed ==> r == ReadAction::Abort && final(self)@ == old(
                self,
            )@,
            outcome matches ReadOutcome::Bytes(n) && n > 0 ==> r == ReadAction::ReadMore
                && final(self)@.received == old(self)@.received + chunk@,
    {
        proof {
            use_type_invariant(&*self);
        }
        match outcome {
            ReadOutcome::Bytes(n) => {
                if n == 0 {
                    return ReadAction::Done;
                }
                let mut cur = ReadBuffer::new();
                core::mem::swap(&mut cur, self);
                proof {
                    use_type_invariant(&cur);
                }
                let ghost old_view = cur@;
                let ReadBuffer { mut data, filled } = cur;
                let cap: usize = data.len();
                let mut j: usize = 0;
                while j < n
                    invariant
                        j <= n,
                        n == chunk@.len(),
                        filled + n <= data@.len(),
                        data@.len() == old_view.capacity,
                        data@.len() == cap,
                        forall|k: int| 0 <= k < filled ==> data@[k] == old_view.received[k],
                        old_view.received.len() == filled,
                        forall|k: int| 0 <= k < j ==> data@[filled + k] == chunk@[k],
                        forall|k: int| filled + n <= k < data@.len() ==> data@[k] == 0u8,
                    decreases n - j,
                {
                    data.set(filled + j, chunk[j]);
                    j = j + 1;
                }
                let new_filled = filled + n;
                if new_filled == data.len() {
                    let mut g: usize = 0;
                    while g < READ_GROWTH
                        invariant
                            g <= READ_GROWTH,
                            data@.len() == new_filled + g,
                            new_filled == (old_view.received + chunk@).len(),
                            forall|k: int| 0 <= k < new_filled ==> data@[k] == (old_view.received
                                + chunk@)[k],
                            forall|k: int| new_filled <= k < data@.len() ==> data@[k] == 0u8,
                        decreases READ_GROWTH - g,
                    {
                        data.push(0u8);
                        g = g + 1;
                    }
                }
                proof {
                    assert(data@.take(new_filled as int) =~= old_view.received + chunk@);
                }
                *self = ReadBuffer { data, filled: new_filled };
                ReadAction::ReadMore
            },
            ReadOutcome::WouldBlock => ReadAction::Done,
            ReadOutcome::Interrupted => ReadAction::ReadMore,
            ReadOutcome::Failed => ReadAction::Abort,
        }
    }
}

/// What each read outcome makes the loop do, whatever the buffer holds: end
/// of stream and "would block" finish it and change nothing, an
/// interruption reads again and changes nothing, another error aborts and
/// changes nothing, and delivered bytes are appended and reading goes on.
pub proof fn lemma_read_step_actions(v: ReadBufferView, outcome: ReadOutcome, chunk: Seq<u8>)
    ensures
        outcome == ReadOutcome::Bytes(0) ==> spec_read_step(v, outcome, chunk) == (
            v,
            ReadAction::Done,
        ),
        outcome == ReadOutcome::WouldBlock ==> spec_read_step(v, outcome, chunk) == (
            v,
            ReadAction::Done,
        ),
        outcome == ReadOutcome::Interrupted ==> spec_read_step(v, outcome, chunk) == (
            v,
            ReadAction::ReadMore,
        ),
        outcome == ReadOutcome::Failed ==> spec_read_step(v, outcome, chunk) == (
            v,
            ReadAction::Abort,
        ),
        outcome matches ReadOutcome::Bytes(n) && n > 0 ==> {
            let (w, a) = spec_read_step(v, outcome, chunk);
            &&& a == ReadAction::ReadMore
            &&& w.received == v.received + chunk
            &&& w.capacity >= v.capacity
        },
        spec_read_step(v, outcome, chunk).1 == ReadAction::Done <==> (outcome
            == ReadOutcome::Bytes(0) || outcome == ReadOutcome::WouldBlock),
        spec_read_step(v, outcome, chunk).1 == ReadAction::Abort <==> outcome
            == ReadOutcome::Failed,
{
}

/// Every step keeps a buffer well formed: in particular it always keeps
/// room for the next read.
pub proof fn lemma_step_keeps_wf(v: ReadBufferView, outcome: ReadOutcome, chunk: Seq<u8>)
    requires
        read_buffer_wf(v),
        outcome matches ReadOutcome::Bytes(n) ==> chunk.len() == n && n <= v.capacity
            - v.received.len(),
    ensures
        read_buffer_wf(spec_read_step(v, outcome, chunk).0),
{
    if let ReadOutcome::Bytes(n) = outcome {
        if n > 0 && v.received.len() + n == v.capacity {
            let c = v.capacity - INITIAL_READ_CAPACITY;
            assert((c + READ_GROWTH) % (READ_GROWTH as int) == c % (READ_GROWTH as int)) by {
                vstd::arithmetic::div_mod::lemma_mod_add_multiples_vanish(c, READ_GROWTH as int);
            }
        }
    }
}

/// The buffer after a series of reads, each given by its outcome and the
/// bytes it delivered.
pub open spec fn spec_read_run(v: ReadBufferView, events: Seq<(ReadOutcome, Seq<u8>)>) -> ReadBufferView
    decreases events.len(),
{
    if events.len() == 0 {
        v
    } else {
        spec_read_run(spec_read_step(v, events[0].0, events[0].1).0, events.drop_first())
    }
}

/// The bytes that a series of reads delivered, in order.
pub open spec fn delivered(events: Seq<(ReadOutcome, Seq<u8>)>) -> Seq<u8>
    decreases events.len(),
{
    if events.len() == 0 {
        seq![]
    } else {
        let first = match events[0].0 {
            ReadOutcome::Bytes(n) => if n == 0 {
                Seq::<u8>::empty()
            } else {
                events[0].1
            },
            _ => Seq::<u8>::empty(),
        };
        first + delivered(events.drop_first())
    }
}

/// What a buffer collects over a series of reads is what it held before,
/// followed by every byte the reads delivered, in order, with nothing lost,
/// repeated or reordered.
pub proof fn lemma_collects_all_delivered(v: ReadBufferView, events: Seq<(ReadOutcome, Seq<u8>)>)
    ensures
        spec_read_run(v, events).received == v.received + delivered(events),
    decreases events.len(),
{
    if events.len() > 0 {
        let next = spec_read_step(v, events[0].0, events[0].1).0;
        lemma_collects_all_delivered(next, events.drop_first());
        assert(v.received + delivered(events) =~= next.received + delivered(events.drop_first()));
    }
}

} // verus!
