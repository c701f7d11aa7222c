//! The character-I/O capability: a named, interrupt-aware device
//! offering non-blocking receive, blocking send, and string write
//! with newline translation. Drivers and decorators implement it;
//! every operation reserves the kernel's device-error path even
//! though none produces a failure today.

use vstd::prelude::*;
use vstd::string::StringSliceAdditionalSpecFns;

use crate::event::Subscriber;
use crate::{DeviceError, DeviceResult};

verus! {

/// The byte sequence a serial terminal receives for `s`: each
/// line-feed becomes carriage-return then line-feed, every other
/// byte passes through unchanged.
pub open spec fn nl_translated(s: Seq<u8>) -> Seq<u8>
    decreases s.len(),
{
    if s.len() == 0 {
        Seq::empty()
    } else if s[0] == 10u8 {
        seq![13u8, 10u8] + nl_translated(s.drop_first())
    } else {
        seq![s[0]] + nl_translated(s.drop_first())
    }
}

/// Newline translation distributes over concatenation.
pub proof fn lemma_nl_translated_concat(a: Seq<u8>, b: Seq<u8>)
    ensures
        nl_translated(a + b) == nl_translated(a) + nl_translated(b),
    decreases a.len(),
{
    if a.len() == 0 {
        assert(a + b =~= b);
        assert(nl_translated(a) + nl_translated(b) =~= nl_translated(b));
    } else {
        assert((a + b).drop_first() =~= a.drop_first() + b);
        lemma_nl_translated_concat(a.drop_first(), b);
        assert((a + b)[0] == a[0]);
        if a[0] == 10u8 {
            assert(seq![13u8, 10u8] + (nl_translated(a.drop_first()) + nl_translated(b)) =~= (
            seq![13u8, 10u8] + nl_translated(a.drop_first())) + nl_translated(b));
        } else {
            assert(seq![a[0]] + (nl_translated(a.drop_first()) + nl_translated(b)) =~= (seq![
                a[0],
            ] + nl_translated(a.drop_first())) + nl_translated(b));
        }
    }
}

/// Translating one byte yields one or two bytes.
pub proof fn lemma_nl_translated_one(b: u8)
    ensures
        nl_translated(seq![b]) == if b == 10u8 {
            seq![13u8, 10u8]
        } else {
            seq![b]
        },
{
    assert(seq![b].drop_first() =~= Seq::<u8>::empty());
    assert(nl_translated(Seq::<u8>::empty()) == Seq::<u8>::empty());
    if b == 10u8 {
        assert(seq![13u8, 10u8] + Seq::<u8>::empty() =~= seq![13u8, 10u8]);
    } else {
        assert(seq![b] + Seq::<u8>::empty() =~= seq![b]);
    }
}

/// A named, interrupt-aware character-I/O capability.
///
/// The view a device presents:
/// - `name_spec()`: its identity string;
/// - `pending()`: bytes ready to be received, oldest first;
/// - `sent()`: bytes handed to its transmit side so far;
/// - `subscribers()`: the event subscribers registered with it;
/// - `wf()`: its internal invariant, established at construction and
///   preserved by every operation.
pub trait PciScheme: Sized {
    spec fn wf(&self) -> bool;

    spec fn name_spec(&self) -> Seq<char>;

    spec fn pending(&self) -> Seq<u8>;

    spec fn sent(&self) -> Seq<u8>;

    spec fn subscribers(&self) -> Seq<Subscriber>;

    /// The device's identity string.
    fn name(&self) -> (r: &str)
        requires
            self.wf(),
        ensures
            r@ == self.name_spec(),
    ;

    /// Register an event subscriber under `id`; a oneshot subscriber
    /// is invoked at most once.
    fn subscribe(&mut self, id: u64, oneshot: bool)
        requires
            old(self).wf(),
        ensures
            final(self).wf(),
            final(self).subscribers() == old(self).subscribers().push(
                Subscriber { id, oneshot },
            ),
            final(self).name_spec() == old(self).name_spec(),
            final(self).pending() == old(self).pending(),
            final(self).sent() == old(self).sent(),
    ;

    /// Non-blocking receive: the oldest pending byte, or no data.
    /// Never blocks and never errors.
    fn try_recv(&mut self) -> (r: DeviceResult<Option<u8>>)
        requires
            old(self).wf(),
        ensures
            final(self).wf(),
            final(self).name_spec() == old(self).name_spec(),
            final(self).sent() == old(self).sent(),
            final(self).subscribers() == old(self).subscribers(),
            match r {
                Ok(Some(b)) => old(self).pending().len() > 0 && b == old(self).pending()[0]
                    && final(self).pending() == old(self).pending().drop_first(),
                Ok(None) => old(self).pending().len() == 0 && final(self).pending() == old(
                    self,
                ).pending(),
                Err(_) => false,
            },
    ;

    /// Blocking send: waits for the device to accept a byte, then
    /// hands it exactly one.
    fn send(&mut self, ch: u8) -> (r: DeviceResult<()>)
        requires
            old(self).wf(),
        ensures
            final(self).wf(),
            final(self).name_spec() == old(self).name_spec(),
            final(self).pending() == old(self).pending(),
            final(self).subscribers() == old(self).subscribers(),
            final(self).sent() == old(self).sent().push(ch),
            r == Ok::<(), DeviceError>(()),
    ;

    /// Send every byte of `s`, translating each line-feed into
    /// carriage-return then line-feed.
    fn write_str(&mut self, s: &str) -> (r: DeviceResult<()>)
        requires
            old(self).wf(),
        ensures
            final(self).wf(),
            final(self).name_spec() == old(self).name_spec(),
            final(self).pending() == old(self).pending(),
            final(self).subscribers() == old(self).subscribers(),
            final(self).sent() == old(self).sent() + nl_translated(s.spec_bytes()),
            r == Ok::<(), DeviceError>(()),
    ;
}

} // verus!
