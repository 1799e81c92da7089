//! The poll-based UDP socket core.
//!
//! The socket's I/O layer owns the non-blocking OS handle and performs the
//! actual `sendto` / `recvfrom` calls; each call's outcome comes back into
//! this module as an event (`SendEvent`, `RecvEvent`). The functions here
//! decide, from the event and the progress so far, what one poll of the
//! batched send or the single-packet receive reports — and they are where
//! the accounting rules live: partial progress is reported, never lost, and
//! never overstated.

use vstd::prelude::*;
use crate::addr::SockAddr;
use crate::packet::{RecvMeta, Transmit};

verus! {

/// The outcome of one non-blocking send attempt, as the I/O layer saw it.
#[derive(Clone, Copy, Debug, PartialEq, Eq, Structural)]
pub enum SendEvent {
    /// The datagram was handed to the kernel.
    Sent,
    /// The socket is not writable yet; the attempt made no progress.
    Blocked,
    /// The attempt failed with a fatal error; the I/O layer holds the
    /// error value.
    Fatal,
}

/// The outcome of one non-blocking receive attempt, as the I/O layer saw it.
#[derive(Clone, Copy, Debug, PartialEq, Eq, Structural)]
pub enum RecvEvent {
    /// A datagram arrived: `len` payload bytes were written into the first
    /// buffer, and `addr` is the sender's address.
    Received { len: usize, addr: SockAddr },
    /// The socket is not readable yet.
    Blocked,
    /// The attempt failed with a fatal error; the I/O layer holds the
    /// error value.
    Fatal,
}

/// The verdict of one poll of a socket operation.
///
/// `Failed` asks the I/O layer to surface the fatal error it observed on
/// this call; the error value itself never passes through the core.
#[derive(Clone, Copy, Debug, PartialEq, Eq, Structural)]
pub enum UdpPoll {
    /// The operation completed for this many packets.
    Ready(usize),
    /// No progress was possible; the caller retries when the socket is
    /// ready again.
    Pending,
    /// No progress was made and the attempt's error must reach the caller.
    Failed,
}

/// What the send loop does after one attempt: try the next packet, with the
/// new count of packets sent, or stop with a verdict.
#[derive(Clone, Copy, Debug, PartialEq, Eq, Structural)]
pub enum SendStep {
    /// The attempt succeeded and packets remain: attempt the next one.
    Continue(usize),
    /// The poll is over; no further packet may be attempted in this call.
    Done(UdpPoll),
}

/// How a batched send proceeds after one attempt, given how many packets of
/// a `total`-packet batch were already sent in this call.
///
/// A success either finishes the batch or moves to the next packet. A
/// would-block or a fatal error ends the call: with partial progress the
/// progress is reported (a would-block will be retried and a fatal error is
/// expected to resurface on the caller's next call); with no progress a
/// would-block yields `Pending` and a fatal error is surfaced.
pub open spec fn send_step(sent: usize, total: usize, event: SendEvent) -> SendStep
    recommends
        sent < total,
{
    match event {
        SendEvent::Sent => if sent + 1 == total {
            SendStep::Done(UdpPoll::Ready(total))
        } else {
            SendStep::Continue((sent + 1) as usize)
        },
        SendEvent::Blocked => if sent == 0 {
            SendStep::Done(UdpPoll::Pending)
        } else {
            SendStep::Done(UdpPoll::Ready(sent))
        },
        SendEvent::Fatal => if sent == 0 {
            SendStep::Done(UdpPoll::Failed)
        } else {
            SendStep::Done(UdpPoll::Ready(sent))
        },
    }
}

/// The verdict of one whole batched-send poll, as a function of the
/// outcomes the socket produces: starting with `sent` packets already sent
/// out of `total`, attempts are made in order, each consuming the next
/// event, until `send_step` stops or the batch is exhausted. A run whose
/// events run out before a verdict has not observed one yet and counts as
/// still pending.
pub open spec fn send_run(events: Seq<SendEvent>, sent: usize, total: usize) -> UdpPoll
    decreases events.len(),
{
    if sent >= total {
        UdpPoll::Ready(total)
    } else if events.len() == 0 {
        UdpPoll::Pending
    } else {
        match send_step(sent, total, events[0]) {
            SendStep::Continue(next) => send_run(events.drop_first(), next, total),
            SendStep::Done(verdict) => verdict,
        }
    }
}

/// The fallback UDP socket, as the transport core sees it: the one piece of
/// state the core answers for is the address the underlying handle was
/// bound to. The non-blocking OS handle itself lives with the I/O layer,
/// which drives every poll through this value; no method mutates it, so
/// nothing a poll does can disturb the bound address.
#[derive(Clone, Copy, Debug, PartialEq, Eq, Structural)]
pub struct UdpSocket {
    local: SockAddr,
}

impl UdpSocket {
    /// The address the underlying socket was bound to at construction.
    pub closed spec fn bound_addr(&self) -> SockAddr {
        self.local
    }

    /// Records a socket whose underlying OS handle — already switched to
    /// non-blocking mode and registered with the readiness notifier — is
    /// bound to `local`.
    pub fn new(local: SockAddr) -> (s: UdpSocket)
        ensures
            s.bound_addr() == local,
    {
        UdpSocket { local }
    }

    /// Returns the locally bound address: a pure query, always the address
    /// given at construction.
    pub fn local_addr(&self) -> (r: SockAddr)
        ensures
            r == self.bound_addr(),
    {
        self.local
    }

    /// Decides how the batched send of `transmits` proceeds after the
    /// attempt on packet `sent` (the packets before it were all sent in
    /// this call) came back with `event`. The I/O layer attempts packets
    /// strictly in order, one at a time, and obeys the step it is handed:
    /// `Continue(n)` means exactly `n` packets have been sent and packet
    /// `n` is attempted next; `Done` ends the call with its verdict.
    pub fn poll_send(
        &self,
        transmits: &Vec<Transmit>,
        sent: usize,
        event: SendEvent,
    ) -> (r: SendStep)
        requires
            sent < transmits.len(),
        ensures
            r == send_step(sent, transmits.len(), event),
    {
        match event {
            SendEvent::Sent => {
                let next = sent + 1;
                if next == transmits.len() {
                    SendStep::Done(UdpPoll::Ready(next))
                } else {
                    SendStep::Continue(next)
                }
            },
            SendEvent::Blocked => if sent == 0 {
                SendStep::Done(UdpPoll::Pending)
            } else {
                SendStep::Done(UdpPoll::Ready(sent))
            },
            SendEvent::Fatal => if sent == 0 {
                SendStep::Done(UdpPoll::Failed)
            } else {
                SendStep::Done(UdpPoll::Ready(sent))
            },
        }
    }

    /// Completes one single-packet receive poll. This path reads at most
    /// one datagram per call, whatever the caller's capacity: on a
    /// received datagram the first metadata slot is filled with the
    /// payload length and the sender's address, with the ECN codepoint and
    /// the destination IP marked absent (this path cannot recover them),
    /// every other slot is untouched, and the verdict is `Ready(1)`. A
    /// would-block leaves every slot untouched and yields `Pending`; a
    /// fatal error leaves every slot untouched and is surfaced.
    pub fn poll_recv(&self, meta: &mut Vec<RecvMeta>, event: RecvEvent) -> (r: UdpPoll)
        requires
            old(meta).len() >= 1,
        ensures
            final(meta)@.len() == old(meta)@.len(),
            (event matches RecvEvent::Received { len, addr } ==> {
                &&& r == UdpPoll::Ready(1usize)
                &&& final(meta)@ == old(meta)@.update(
                    0,
                    (RecvMeta { len, addr, ecn: None, dst_ip: None }),
                )
            }),
            (event is Blocked ==> r == UdpPoll::Pending && final(meta)@ == old(meta)@),
            (event is Fatal ==> r == UdpPoll::Failed && final(meta)@ == old(meta)@),
    {
        match event {
            RecvEvent::Received { len, addr } => {
                meta[0] = RecvMeta { len, addr, ecn: None, dst_ip: None };
                UdpPoll::Ready(1)
            },
            RecvEvent::Blocked => UdpPoll::Pending,
            RecvEvent::Fatal => UdpPoll::Failed,
        }
    }
}

/// Law: the reported local address is stable. Every query the contract of
/// `local_addr` admits returns the bound address recorded at construction,
/// and no poll mutates the socket value (every method takes it by shared
/// reference), so any two queries of the same socket agree.
pub proof fn lemma_local_addr_stable(s: &UdpSocket, a: SockAddr, b: SockAddr)
    requires
        a == s.bound_addr(),
        b == s.bound_addr(),
    ensures
        a == b,
{
}

/// Law: a batch in which every send attempt succeeds is reported in full —
/// the poll's verdict is `Ready` with the whole batch length, every packet
/// having been attempted exactly once, in submission order.
pub proof fn lemma_send_all_succeed(events: Seq<SendEvent>, total: usize)
    requires
        events.len() == total,
        forall|i: int| 0 <= i < events.len() ==> events[i] == SendEvent::Sent,
    ensures
        send_run(events, 0, total) == UdpPoll::Ready(total),
{
    lemma_send_all_succeed_from(events, 0, total);
}

/// Induction step for `lemma_send_all_succeed`: from any progress point,
/// a run of nothing but successes finishes the batch.
proof fn lemma_send_all_succeed_from(events: Seq<SendEvent>, sent: usize, total: usize)
    requires
        sent <= total,
        events.len() == total - sent,
        forall|i: int| 0 <= i < events.len() ==> events[i] == SendEvent::Sent,
    ensures
        send_run(events, sent, total) == UdpPoll::Ready(total),
    decreases events.len(),
{
    if sent < total {
        let rest = events.drop_first();
        assert forall|i: int| 0 <= i < rest.len() implies rest[i] == SendEvent::Sent by {
            assert(rest[i] == events[i + 1]);
        }
        lemma_send_all_succeed_from(rest, (sent + 1) as usize, total);
    }
}

/// Law: when the attempt on packet `k` (counted from one) would block after
/// the first `k - 1` packets of the call all went out, the poll reports
/// exactly that partial progress: `Ready(k - 1)`. Nothing sent is dropped
/// from the count and nothing unsent is counted.
pub proof fn lemma_send_partial_block(events: Seq<SendEvent>, k: usize, total: usize)
    requires
        2 <= k <= total,
        events.len() >= k,
        forall|i: int| 0 <= i < k - 1 ==> events[i] == SendEvent::Sent,
        events[k - 1] == SendEvent::Blocked,
    ensures
        send_run(events, 0, total) == UdpPoll::Ready((k - 1) as usize),
{
    lemma_send_blocked_after(events, 0, (k - 1) as usize, total);
}

/// Induction step for the partial-progress laws: with `sent` packets
/// already out, `j` further successes followed by a would-block end the
/// poll at `Ready(sent + j)`, provided some packet went out overall.
proof fn lemma_send_blocked_after(events: Seq<SendEvent>, sent: usize, j: usize, total: usize)
    requires
        events.len() > j,
        sent + j < total,
        sent + j > 0,
        forall|i: int| 0 <= i < j ==> events[i] == SendEvent::Sent,
        events[j as int] == SendEvent::Blocked,
    ensures
        send_run(events, sent, total) == UdpPoll::Ready((sent + j) as usize),
    decreases j,
{
    if j > 0 {
        let rest = events.drop_first();
        assert forall|i: int| 0 <= i < j - 1 implies rest[i] == SendEvent::Sent by {
            assert(rest[i] == events[i + 1]);
        }
        assert(rest[j - 1] == events[j as int]);
        lemma_send_blocked_after(rest, (sent + 1) as usize, (j - 1) as usize, total);
    }
}

/// Law: a batch whose very first attempt would block is untouched — the
/// poll's verdict is `Pending`, no packet is counted as sent, and no later
/// packet is attempted in that call.
pub proof fn lemma_send_first_blocked(events: Seq<SendEvent>, total: usize)
    requires
        total >= 1,
        events.len() >= 1,
        events[0] == SendEvent::Blocked,
    ensures
        send_run(events, 0, total) == UdpPoll::Pending,
{
}

/// Law: retrying after partial progress loses nothing and duplicates
/// nothing. If the first poll of an `n`-packet batch sends `k - 1` packets
/// and then would block, it reports `Ready(k - 1)`; a second poll over the
/// remaining `n - (k - 1)` packets in which every attempt succeeds reports
/// all of them; the two counts together cover every packet of the original
/// batch exactly once.
pub proof fn lemma_send_retry_completes(
    first: Seq<SendEvent>,
    retry: Seq<SendEvent>,
    k: usize,
    n: usize,
)
    requires
        2 <= k <= n,
        first.len() >= k,
        forall|i: int| 0 <= i < k - 1 ==> first[i] == SendEvent::Sent,
        first[k - 1] == SendEvent::Blocked,
        retry.len() == n - (k - 1),
        forall|i: int| 0 <= i < retry.len() ==> retry[i] == SendEvent::Sent,
    ensures
        send_run(first, 0, n) == UdpPoll::Ready((k - 1) as usize),
        send_run(retry, 0, (n - (k - 1)) as usize) == UdpPoll::Ready((n - (k - 1)) as usize),
        (k - 1) + (n - (k - 1)) == n,
{
    lemma_send_partial_block(first, k, n);
    lemma_send_all_succeed(retry, (n - (k - 1)) as usize);
}

} // verus!
