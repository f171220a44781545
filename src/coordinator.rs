//! The background writer's decisions: it drains sample batches into an
//! accumulation buffer and says when the buffer goes to a file, when the next
//! file is opened and when recording is over. The caller performs the file work.

use vstd::prelude::*;
use crate::policy::{flush_due, should_flush};

verus! {

/// Concatenation of the samples of `files`, in file order.
pub open spec fn flatten(files: Seq<Seq<u32>>) -> Seq<u32>
    decreases files.len(),
{
    if files.len() == 0 {
        Seq::empty()
    } else {
        flatten(files.drop_last()) + files.last()
    }
}

/// What the caller must do after a step. Samples are carried as the bit
/// patterns of 32-bit floats.
#[derive(Debug)]
pub enum Action {
    /// Nothing to write; poll again.
    Idle,
    /// Write these samples to the active file, finalize it, then open the next file.
    Rotate(Vec<u32>),
    /// Write these samples to the active file, finalize it, then stop.
    Finish(Vec<u32>),
    /// Stop; the active file received no samples and is not created.
    Stop,
}

/// The pipeline coordinator's state: the accumulation buffer and whether
/// recording has stopped, with the history of samples received and of the
/// files handed out for writing.
pub struct Coordinator {
    buffer: Vec<u32>,
    sample_bytes: usize,
    threshold: usize,
    stopped: bool,
    received: Ghost<Seq<u32>>,
    files: Ghost<Seq<Seq<u32>>>,
}

impl Coordinator {
    /// Samples accumulated and not yet handed out for writing.
    pub closed spec fn pending(&self) -> Seq<u32> {
        self.buffer@
    }

    /// Every sample received so far, in arrival order.
    pub closed spec fn received(&self) -> Seq<u32> {
        self.received@
    }

    /// The contents of each file handed out for writing, in creation order.
    pub closed spec fn files(&self) -> Seq<Seq<u32>> {
        self.files@
    }

    /// Whether the coordinator has reached its terminal state.
    pub closed spec fn stopped(&self) -> bool {
        self.stopped
    }

    /// Size in bytes of one sample.
    pub closed spec fn sample_bytes(&self) -> nat {
        self.sample_bytes as nat
    }

    /// Flush threshold in bytes.
    pub closed spec fn threshold(&self) -> nat {
        self.threshold as nat
    }

    /// Well-formedness: nothing is lost or reordered, and a stopped
    /// coordinator holds nothing.
    pub closed spec fn wf(&self) -> bool {
        &&& flatten(self.files@) + self.buffer@ == self.received@
        &&& self.stopped ==> self.buffer@.len() == 0
    }

    /// A coordinator in the draining state, with an empty buffer, for samples
    /// of `sample_bytes` bytes and the given flush threshold in bytes.
    pub fn new(threshold: usize, sample_bytes: usize) -> (r: Coordinator)
        ensures
            r.wf(),
            r.pending() == Seq::<u32>::empty(),
            r.received() == Seq::<u32>::empty(),
            r.files() == Seq::<Seq<u32>>::empty(),
            !r.stopped(),
            r.threshold() == threshold,
            r.sample_bytes() == sample_bytes,
    {
        let r = Coordinator {
            buffer: Vec::new(),
            sample_bytes,
            threshold,
            stopped: false,
            received: Ghost(Seq::empty()),
            files: Ghost(Seq::empty()),
        };
        assert(flatten(r.files@) + r.buffer@ =~= r.received@);
        r
    }

    /// Number of samples in the accumulation buffer.
    pub fn buffered_samples(&self) -> (r: usize)
        ensures
            r == self.pending().len(),
    {
        self.buffer.len()
    }

    /// Whether the coordinator has reached its terminal state.
    pub fn is_stopped(&self) -> (r: bool)
        ensures
            r == self.stopped(),
    {
        self.stopped
    }

    /// One iteration of the writer loop. `batch` is what the channel poll gave
    /// (`None`: nothing now), `shutdown` the shutdown flag as read now.
    ///
    /// The batch joins the buffer. If the rotation rule then asks for a flush,
    /// the whole buffer is handed out: as `Finish` under shutdown (the
    /// coordinator stops), else as `Rotate`. Without a flush, shutdown means
    /// the buffer is empty and the coordinator stops with `Stop`; otherwise
    /// `Idle`. Once stopped, a step changes nothing and returns `Stop`.
    pub fn step(&mut self, batch: Option<Vec<u32>>, shutdown: bool) -> (r: Action)
        requires
            old(self).wf(),
        ensures
            final(self).wf(),
            final(self).sample_bytes() == old(self).sample_bytes(),
            final(self).threshold() == old(self).threshold(),
            old(self).stopped() ==> r is Stop && *final(self) == *old(self),
            !old(self).stopped() ==> ({
                let incoming = match batch {
                    Some(b) => b@,
                    None => Seq::<u32>::empty(),
                };
                let buf = old(self).pending() + incoming;
                let due = flush_due(buf.len(), old(self).sample_bytes(), old(self).threshold(), shutdown);
                &&& final(self).received() == old(self).received() + incoming
                &&& final(self).stopped() == shutdown
                &&& due ==> final(self).pending().len() == 0
                    && final(self).files() == old(self).files().push(buf)
                &&& !due ==> final(self).pending() == buf
                    && final(self).files() == old(self).files()
                &&& (due && shutdown) ==> (r matches Action::Finish(v) && v@ == buf)
                &&& (due && !shutdown) ==> (r matches Action::Rotate(v) && v@ == buf)
                &&& (!due && shutdown) ==> r is Stop && buf.len() == 0
                &&& (!due && !shutdown) ==> r is Idle
            }),
    {
        if self.stopped {
            return Action::Stop;
        }
        match batch {
            Some(b) => {
                let mut b = b;
                let ghost incoming = b@;
                self.buffer.append(&mut b);
                self.received = Ghost(self.received@ + incoming);
                assert(flatten(self.files@) + self.buffer@ =~= self.received@);
            },
            None => {
                assert(self.buffer@ + Seq::<u32>::empty() =~= self.buffer@);
                assert(self.received@ + Seq::<u32>::empty() =~= self.received@);
            },
        }
        if should_flush(self.buffer.len(), self.sample_bytes, self.threshold, shutdown) {
            let mut out: Vec<u32> = Vec::new();
            std::mem::swap(&mut out, &mut self.buffer);
            let ghost old_files = self.files@;
            self.files = Ghost(self.files@.push(out@));
            assert(self.files@.drop_last() =~= old_files);
            assert(flatten(self.files@) + self.buffer@ =~= self.received@);
            if shutdown {
                self.stopped = true;
                Action::Finish(out)
            } else {
                Action::Rotate(out)
            }
        } else if shutdown {
            self.stopped = true;
            Action::Stop
        } else {
            Action::Idle
        }
    }
}

/// Nothing is lost or reordered: the files handed out so far, in creation
/// order, followed by the samples still buffered, are exactly the samples
/// received, in arrival order. Since each step appends its batch to what was
/// received, this is the concatenation of the batches fed in.
pub proof fn lemma_lossless_ordering(c: &Coordinator)
    requires
        c.wf(),
    ensures
        flatten(c.files()) + c.pending() == c.received(),
{
}

/// Final drain: a stopped coordinator has no buffered sample left, and every
/// received sample went to a finalized file.
pub proof fn lemma_final_drain(c: &Coordinator)
    requires
        c.wf(),
        c.stopped(),
    ensures
        c.pending().len() == 0,
        flatten(c.files()) == c.received(),
{
    assert(flatten(c.files()) + c.pending() =~= flatten(c.files()));
}

} // verus!
