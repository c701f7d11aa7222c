//! Buffering decorator: wraps any character-I/O capability, drains it
//! into a bounded ring buffer when the wrapped device signals data,
//! and re-publishes a "data ready" event to its own subscribers —
//! decoupling interrupt-context byte production from thread-context
//! consumption, absorbing bursts up to the buffer capacity.

use vstd::prelude::*;
use vstd::math::min;
use vstd::string::StringExecFns;

use std::collections::VecDeque;

use vstd::string::StringSliceAdditionalSpecFns;

use crate::event::{EventListener, Subscriber, ids_of, persistent_of};
use crate::scheme::{nl_translated, PciScheme};
use crate::DeviceResult;

verus! {

/// Capacity of the ring buffer: once full, newly drained bytes are
/// discarded, not queued and not blocked on.
pub const BUF_CAPACITY: usize = 4096;

/// Buffer contents after draining `incoming` into a buffer holding
/// `buf`: the drained bytes are appended in order until the buffer is
/// full, and the remainder is dropped silently.
pub open spec fn drained(buf: Seq<u8>, incoming: Seq<u8>) -> Seq<u8>
    recommends
        buf.len() <= BUF_CAPACITY,
{
    buf + incoming.take(min(incoming.len() as int, BUF_CAPACITY - buf.len()))
}

/// Ring-buffer capacity law: draining `incoming` into an empty buffer
/// keeps everything, in order, when it fits, and keeps exactly the
/// first `BUF_CAPACITY` bytes when it does not.
pub proof fn lemma_drain_capacity(incoming: Seq<u8>)
    ensures
        incoming.len() <= BUF_CAPACITY ==> drained(Seq::<u8>::empty(), incoming) == incoming,
        incoming.len() > BUF_CAPACITY ==> drained(Seq::<u8>::empty(), incoming) == incoming.take(
            BUF_CAPACITY as int,
        ),
{
    if incoming.len() <= BUF_CAPACITY {
        assert(drained(Seq::<u8>::empty(), incoming) =~= incoming);
    } else {
        assert(drained(Seq::<u8>::empty(), incoming) =~= incoming.take(BUF_CAPACITY as int));
    }
}

/// Event propagation law: a drain into an empty buffer leaves the
/// buffer non-empty — and so triggers the decorator's listener — if
/// and only if at least one byte came in.
pub proof fn lemma_trigger_iff_drained(incoming: Seq<u8>)
    ensures
        drained(Seq::<u8>::empty(), incoming).len() > 0 <==> incoming.len() > 0,
{
    if incoming.len() > 0 {
        assert(drained(Seq::<u8>::empty(), incoming).len() > 0);
    } else {
        assert(drained(Seq::<u8>::empty(), incoming) =~= Seq::<u8>::empty());
    }
}

/// The bytes returned by `k` successive pops from a buffer holding
/// `buf`: pops past the end return nothing.
pub open spec fn pops_of(buf: Seq<u8>, k: nat) -> Seq<u8>
    decreases k,
{
    if k == 0 || buf.len() == 0 {
        Seq::empty()
    } else {
        seq![buf[0]] + pops_of(buf.drop_first(), (k - 1) as nat)
    }
}

/// FIFO ordering law: successive pops return the buffered bytes in
/// exactly the order they were pushed. Draining appends to the back
/// of `pending` and `try_recv` pops its front, so `k` pops from a
/// buffer yield precisely its first `k` bytes.
pub proof fn lemma_fifo_order(buf: Seq<u8>, k: nat)
    ensures
        pops_of(buf, k) == buf.take(min(k as int, buf.len() as int)),
    decreases k,
{
    if k == 0 || buf.len() == 0 {
        assert(buf.take(min(k as int, buf.len() as int)) =~= Seq::<u8>::empty());
    } else {
        lemma_fifo_order(buf.drop_first(), (k - 1) as nat);
        assert(seq![buf[0]] + buf.drop_first().take(
            min(k as int - 1, buf.len() as int - 1),
        ) =~= buf.take(min(k as int, buf.len() as int)));
    }
}

/// Name composition law: wrapping the `"pci-mmio"` device yields the
/// identity `"pci-mmio-buffered"`.
pub proof fn lemma_name_composition()
    ensures
        "pci-mmio"@ + "-buffered"@ == "pci-mmio-buffered"@,
{
    reveal_strlit("pci-mmio");
    reveal_strlit("-buffered");
    reveal_strlit("pci-mmio-buffered");
    assert("pci-mmio"@ + "-buffered"@ =~= "pci-mmio-buffered"@);
}

/// The buffering decorator around a character-I/O capability `D`.
///
/// Its identity is the wrapped device's name with `-buffered`
/// appended, preserving traceability through layering.
pub struct BufferedPci<D: PciScheme> {
    inner: D,
    buf: VecDeque<u8>,
    listener: EventListener,
    name: String,
}

impl<D: PciScheme> BufferedPci<D> {
    /// The wrapped device as the decorator sees it.
    pub closed spec fn device(&self) -> D {
        self.inner
    }

    /// Wrap `pci`, registering the decorator's drain entry point as a
    /// persistent subscriber of the wrapped device's events under
    /// `sub_id`.
    pub fn new(pci: D, sub_id: u64) -> (r: Self)
        requires
            pci.wf(),
        ensures
            r.wf(),
            r.pending() == Seq::<u8>::empty(),
            r.name_spec() == pci.name_spec() + "-buffered"@,
            r.sent() == pci.sent(),
            r.subscribers() == Seq::<Subscriber>::empty(),
            r.device().pending() == pci.pending(),
            r.device().sent() == pci.sent(),
            r.device().name_spec() == pci.name_spec(),
            r.device().subscribers() == pci.subscribers().push(
                Subscriber { id: sub_id, oneshot: false },
            ),
    {
        let mut pci = pci;
        pci.subscribe(sub_id, false);
        let mut name = pci.name().to_owned();
        name.append("-buffered");
        BufferedPci {
            inner: pci,
            buf: VecDeque::with_capacity(BUF_CAPACITY),
            listener: EventListener::new(),
            name,
        }
    }

    /// Drain entry point, run when the wrapped device signals data:
    /// repeatedly receive until the device reports no data, pushing
    /// each byte onto the ring buffer and silently discarding bytes
    /// once it is full; then, if the buffer is non-empty, report the
    /// decorator's own subscribers for dispatch (and discard the
    /// oneshot ones), else report that no event was published.
    pub fn handle_irq(&mut self) -> (fired: Option<Vec<u64>>)
        requires
            old(self).wf(),
        ensures
            final(self).wf(),
            final(self).pending() == drained(old(self).pending(), old(self).device().pending()),
            final(self).device().pending() == Seq::<u8>::empty(),
            final(self).device().sent() == old(self).device().sent(),
            final(self).device().subscribers() == old(self).device().subscribers(),
            final(self).device().name_spec() == old(self).device().name_spec(),
            final(self).sent() == old(self).sent(),
            final(self).name_spec() == old(self).name_spec(),
            match fired {
                Some(ids) => final(self).pending().len() > 0 && ids@ == ids_of(
                    old(self).subscribers(),
                ) && final(self).subscribers() == persistent_of(old(self).subscribers()),
                None => final(self).pending().len() == 0 && final(self).subscribers() == old(
                    self,
                ).subscribers(),
            },
    {
        let ghost p0 = self.inner.pending();
        let ghost b0 = self.buf@;
        let ghost mut i: int = 0;
        proof {
            assert(self.buf@ =~= drained(b0, p0.take(0)));
        }
        loop
            invariant
                0 <= i <= p0.len(),
                self.inner.wf(),
                self.inner.pending() == p0.skip(i),
                self.inner.sent() == old(self).device().sent(),
                self.inner.name_spec() == old(self).device().name_spec(),
                self.inner.subscribers() == old(self).device().subscribers(),
                self.buf@ == drained(b0, p0.take(i)),
                self.buf@.len() <= BUF_CAPACITY,
                self.name@ == old(self).name_spec(),
                self.name@ == self.inner.name_spec() + "-buffered"@,
                self.listener == old(self).listener_state(),
                b0.len() <= BUF_CAPACITY,
            ensures
                self.inner.pending() == Seq::<u8>::empty(),
                self.buf@ == drained(b0, p0),
                self.buf@.len() <= BUF_CAPACITY,
                self.inner.wf(),
                self.inner.sent() == old(self).device().sent(),
                self.inner.name_spec() == old(self).device().name_spec(),
                self.inner.subscribers() == old(self).device().subscribers(),
                self.name@ == old(self).name_spec(),
                self.name@ == self.inner.name_spec() + "-buffered"@,
                self.listener == old(self).listener_state(),
            decreases p0.len() - i,
        {
            let r = self.inner.try_recv();
            match r {
                Ok(Some(c)) => {
                    proof {
                        assert(p0.skip(i)[0] == p0[i]);
                        assert(p0.skip(i).drop_first() =~= p0.skip(i + 1));
                    }
                    let full = self.buf.len() >= BUF_CAPACITY;
                    if !full {
                        self.buf.push_back(c);
                    }
                    proof {
                        let av: int = BUF_CAPACITY - b0.len();
                        assert(p0.take(i).take(min(i, av)) =~= p0.take(min(i, av)));
                        assert(p0.take(i + 1).take(min(i + 1, av)) =~= p0.take(min(i + 1, av)));
                        if !full {
                            assert(min(i, av) == i);
                            assert(b0 + p0.take(min(i, av)).push(p0[i]) =~= b0 + p0.take(
                                min(i + 1, av),
                            ));
                            assert(self.buf@ =~= drained(b0, p0.take(i + 1)));
                        } else {
                            assert(min(i, av) == av && min(i + 1, av) == av);
                            assert(self.buf@ =~= drained(b0, p0.take(i + 1)));
                        }
                        i = i + 1;
                    }
                },
                _ => {
                    proof {
                        assert(p0.skip(i).len() == 0);
                        assert(p0.take(i) =~= p0);
                    }
                    break ;
                },
            }
        }
        if self.buf.len() > 0 {
            let fired = self.listener.trigger();
            Some(fired)
        } else {
            None
        }
    }

    /// The decorator's own listener state, for contracts that relate
    /// it across operations.
    pub closed spec fn listener_state(&self) -> EventListener {
        self.listener
    }

    /// Borrow the wrapped device, e.g. to inspect its transmit side.
    pub fn device_ref(&self) -> (r: &D)
        ensures
            *r == self.device(),
    {
        &self.inner
    }

    /// Borrow the wrapped device mutably: the dispatch layer delivers
    /// hardware interrupts to it and feeds a simulated wire through
    /// it. A caller that changes the device's identity through this
    /// borrow loses the decorator's well-formedness.
    pub fn device_mut(&mut self) -> (r: &mut D)
        ensures
            *r == old(self).device(),
            final(self).device() == *final(r),
            final(self).pending() == old(self).pending(),
            final(self).name_spec() == old(self).name_spec(),
            final(self).subscribers() == old(self).subscribers(),
    {
        &mut self.inner
    }
}

impl<D: PciScheme> PciScheme for BufferedPci<D> {
    /// Well-formed when the ring buffer respects its capacity, the
    /// identity string is the wrapped device's name with the suffix
    /// appended, and the wrapped device is itself well-formed.
    closed spec fn wf(&self) -> bool {
        &&& self.buf@.len() <= BUF_CAPACITY
        &&& self.name@ == self.inner.name_spec() + "-buffered"@
        &&& self.inner.wf()
    }

    closed spec fn name_spec(&self) -> Seq<char> {
        self.name@
    }

    closed spec fn pending(&self) -> Seq<u8> {
        self.buf@
    }

    closed spec fn sent(&self) -> Seq<u8> {
        self.inner.sent()
    }

    closed spec fn subscribers(&self) -> Seq<Subscriber> {
        self.listener.subscribers()
    }

    fn name(&self) -> (r: &str) {
        self.name.as_str()
    }

    /// Registers a subscriber with the decorator's own listener; the
    /// wrapped device is untouched.
    fn subscribe(&mut self, id: u64, oneshot: bool)
        ensures
            final(self).device() == old(self).device(),
    {
        self.listener.subscribe(id, oneshot);
    }

    /// Non-blocking pop of the oldest buffered byte; no data when the
    /// buffer is empty, leaving it untouched. The wrapped device is
    /// never consulted: bytes reach the buffer only through the
    /// interrupt-driven drain.
    fn try_recv(&mut self) -> (r: DeviceResult<Option<u8>>)
        ensures
            final(self).device() == old(self).device(),
    {
        let v = self.buf.pop_front();
        proof {
            if v is Some {
                assert(self.buf@ =~= old(self).pending().drop_first());
            }
        }
        Ok(v)
    }

    /// Pure pass-through to the wrapped device's send: no transmit
    /// buffering, and the device's receive queue and subscribers are
    /// left alone.
    fn send(&mut self, ch: u8) -> (r: DeviceResult<()>)
        ensures
            final(self).device().sent() == old(self).device().sent().push(ch),
            final(self).device().pending() == old(self).device().pending(),
            final(self).device().subscribers() == old(self).device().subscribers(),
            final(self).device().name_spec() == old(self).device().name_spec(),
    {
        self.inner.send(ch)
    }

    /// Pure pass-through to the wrapped device's string write: no
    /// transmit buffering, and the device's receive queue and
    /// subscribers are left alone.
    fn write_str(&mut self, s: &str) -> (r: DeviceResult<()>)
        ensures
            final(self).device().sent() == old(self).device().sent() + nl_translated(
                s.spec_bytes(),
            ),
            final(self).device().pending() == old(self).device().pending(),
            final(self).device().subscribers() == old(self).device().subscribers(),
            final(self).device().name_spec() == old(self).device().name_spec(),
    {
        self.inner.write_str(s)
    }
}

} // verus!
