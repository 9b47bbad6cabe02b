//! The subscribing side of the sharing protocol.
//!
//! A client connects to one host, receives frame-ready notifications in
//! publish order, and resolves them into frame references counted against
//! the host's slot.  A notification whose serial is not newer than the last
//! one resolved, or whose slot has already been reclaimed or reused, is
//! dropped silently.  Every later access through a resolved reference is
//! checked against the slot's current occupant, so a force-reclaimed frame
//! is reported stale rather than read.

use vstd::prelude::*;

use crate::error::VsError;
use crate::host::{copy_queue, Endpoint, Host, Notification, Slot, SlotState};

verus! {

/// A resolved frame reference: the slot and serial that name one occupancy
/// generation of a host buffer, plus a copy of the frame's metadata.
#[derive(Clone, Copy, Debug)]
pub struct FrameRef {
    pub slot: usize,
    pub serial: i64,
    pub code: u32,
    pub width: u32,
    pub height: u32,
    pub stride: u32,
    pub size: u64,
    pub pts: i64,
    pub dts: i64,
    pub duration: i64,
    pub expires: i64,
}

/// The frame reference a notification resolves to.
pub open spec fn frame_ref_of(n: Notification) -> FrameRef {
    FrameRef {
        slot: n.slot,
        serial: n.serial,
        code: n.code,
        width: n.width,
        height: n.height,
        stride: n.stride,
        size: n.size,
        pts: n.pts,
        dts: n.dts,
        duration: n.duration,
        expires: n.expires,
    }
}

/// Whether a pending notification still resolves: it is newer than the last
/// serial the client saw, and its slot's published occupant is still the
/// one the notification was sent for (and can take one more reference).
pub open spec fn resolvable(slots: Seq<Slot>, last: i64, n: Notification) -> bool {
    &&& n.serial > last
    &&& 0 <= (n.slot as int) < slots.len()
    &&& slots[n.slot as int].state is Published
    &&& slots[n.slot as int].serial == n.serial
    &&& slots[n.slot as int].refs < u64::MAX
}

/// A subscription to one host: the endpoint id the host assigned and the
/// serial of the newest frame resolved so far, used to drop duplicates.
pub struct Client {
    pub id: usize,
    pub last_serial: i64,
}

impl Client {
    /// Whether this client names an endpoint of `h`.
    pub open spec fn attached(self, h: Host) -> bool {
        self.id < h.endpoints@.len()
    }

    /// Connects to a host.  Fails with `ConnectionFailed`, changing
    /// nothing, if and only if the host is no longer accepting; otherwise
    /// the host gains one open, empty endpoint owned by the new client,
    /// which starts with no resolved serial.
    pub fn connect(host: &mut Host) -> (r: Result<Client, VsError>)
        requires
            old(host).wf(),
        ensures
            final(host).wf(),
            !old(host).accepting <==> r == Err::<Client, VsError>(VsError::ConnectionFailed),
            r is Err ==> r == Err::<Client, VsError>(VsError::ConnectionFailed) && *final(host)
                == *old(host),
            r matches Ok(c) ==> c.id == old(host).endpoints@.len() && c.last_serial == 0
                && c.attached(*final(host)) && final(host).endpoints@.len() == old(
                host,
            ).endpoints@.len() + 1 && (forall|e: int|
                0 <= e < old(host).endpoints@.len() ==> final(host).endpoints@[e] == old(
                    host,
                ).endpoints@[e]) && final(host).endpoints@[c.id as int].open && final(host).endpoints@[c.id as int].queue@.len() == 0 && final(host).slots@ == old(host).slots@
                && final(host).next_serial == old(host).next_serial && final(host).lease == old(
                host,
            ).lease && final(host).queue_cap == old(host).queue_cap && final(host).accepting,
    {
        match host.subscribe() {
            Ok(id) => Ok(Client { id, last_serial: 0 }),
            Err(e) => Err(e),
        }
    }

    /// Takes the next frame from the pending queue, dropping duplicate and
    /// stale notifications silently on the way.  Fails with
    /// `ConnectionClosed`, changing nothing, if and only if the host has
    /// closed this client's endpoint; otherwise fails with `Timeout` if and
    /// only if no pending notification resolves — the queue is then fully
    /// drained.  On success the first resolvable notification, in publish
    /// order, becomes a frame reference: its slot gains one reference, the
    /// entries up to and including it leave the queue, and the client
    /// remembers its serial.  `timeout` is the caller's deadline; this call
    /// itself never waits, it reports `Timeout` as soon as nothing is
    /// pending.
    #[verifier::loop_isolation(false)]
    #[allow(unused_variables)]
    pub fn get_frame(&mut self, host: &mut Host, timeout: i64) -> (r: Result<FrameRef, VsError>)
        requires
            old(self).attached(*old(host)),
            old(host).wf(),
        ensures
            final(host).wf(),
            final(self).id == old(self).id,
            final(self).attached(*final(host)),
            !old(host).endpoints@[old(self).id as int].open <==> r == Err::<FrameRef, VsError>(
                VsError::ConnectionClosed,
            ),
            r == Err::<FrameRef, VsError>(VsError::ConnectionClosed) ==> *final(host) == *old(host)
                && *final(self) == *old(self),
            r is Err ==> r == Err::<FrameRef, VsError>(VsError::ConnectionClosed) || r == Err::<
                FrameRef,
                VsError,
            >(VsError::Timeout),
            old(host).endpoints@[old(self).id as int].open ==> ({
                let q = old(host).endpoints@[old(self).id as int].queue@;
                let last = old(self).last_serial;
                &&& (r == Err::<FrameRef, VsError>(VsError::Timeout) <==> (forall|k: int|
                    0 <= k < q.len() ==> !resolvable(old(host).slots@, last, #[trigger] q[k])))
                &&& (r == Err::<FrameRef, VsError>(VsError::Timeout) ==> final(host).slots@ == old(
                    host,
                ).slots@ && final(host).endpoints@[old(self).id as int].queue@.len() == 0
                    && *final(self) == *old(self))
                &&& (r matches Ok(fr) ==> final(self).last_serial == fr.serial && (exists|k: int|
                    0 <= k < q.len() && #[trigger] resolvable(old(host).slots@, last, q[k]) && (
                    forall|j: int|
                        0 <= j < k ==> !resolvable(old(host).slots@, last, #[trigger] q[j])) && fr
                        == frame_ref_of(q[k]) && final(host).slots@ == old(host).slots@.update(
                        q[k].slot as int,
                        (Slot {
                            refs: (old(host).slots@[q[k].slot as int].refs + 1) as u64,
                            ..old(host).slots@[q[k].slot as int]
                        }),
                    ) && final(host).endpoints@[old(self).id as int].queue@ == q.skip(k + 1)))
            }),
            final(host).endpoints@.len() == old(host).endpoints@.len(),
            forall|e: int|
                0 <= e < old(host).endpoints@.len() && e != old(self).id ==> final(host).endpoints@[e] == old(host).endpoints@[e],
            final(host).endpoints@[old(self).id as int].open == old(host).endpoints@[old(
                self,
            ).id as int].open,
            final(host).next_serial == old(host).next_serial,
            final(host).lease == old(host).lease,
            final(host).queue_cap == old(host).queue_cap,
            final(host).accepting == old(host).accepting,
    {
        let id: usize = self.id;
        if !host.endpoints[id].open {
            return Err(VsError::ConnectionClosed);
        }
        let ghost q0 = host.endpoints@[id as int].queue@;
        let ghost last0 = self.last_serial;
        let mut processed: usize = 0;
        while host.endpoints[id].queue.len() > 0
            invariant
                host.wf(),
                id == self.id,
                id < host.endpoints@.len(),
                *self == *old(self),
                host.slots@ == old(host).slots@,
                host.endpoints@.len() == old(host).endpoints@.len(),
                host.next_serial == old(host).next_serial,
                host.lease == old(host).lease,
                host.queue_cap == old(host).queue_cap,
                host.accepting == old(host).accepting,
                forall|e: int|
                    0 <= e < old(host).endpoints@.len() && e != id ==> host.endpoints@[e] == old(
                        host,
                    ).endpoints@[e],
                host.endpoints@[id as int].open,
                processed <= q0.len(),
                host.endpoints@[id as int].queue@ == q0.skip(processed as int),
                forall|j: int|
                    0 <= j < processed ==> !resolvable(old(host).slots@, last0, #[trigger] q0[j]),
            decreases q0.len() - processed,
        {
            let n: Notification = host.endpoints[id].queue[0];
            proof {
                assert(n == q0[processed as int]);
            }
            let nq: Vec<Notification> = copy_queue(&host.endpoints[id].queue, 1);
            host.endpoints.set(id, Endpoint { open: true, queue: nq });
            proof {
                assert(host.endpoints@[id as int].queue@ =~= q0.skip(processed as int + 1));
            }
            if n.serial > self.last_serial && n.slot < host.slots.len() {
                let s: Slot = host.slots[n.slot];
                let published: bool = match s.state {
                    SlotState::Published => true,
                    _ => false,
                };
                if published && s.serial == n.serial && s.refs < u64::MAX {
                    host.slots.set(n.slot, Slot { refs: s.refs + 1, ..s });
                    self.last_serial = n.serial;
                    proof {
                        assert(resolvable(old(host).slots@, last0, q0[processed as int]));
                    }
                    return Ok(
                        FrameRef {
                            slot: n.slot,
                            serial: n.serial,
                            code: n.code,
                            width: n.width,
                            height: n.height,
                            stride: n.stride,
                            size: n.size,
                            pts: n.pts,
                            dts: n.dts,
                            duration: n.duration,
                            expires: n.expires,
                        },
                    );
                }
            }
            proof {
                assert(!resolvable(old(host).slots@, last0, q0[processed as int]));
            }
            processed += 1;
        }
        Err(VsError::Timeout)
    }

    /// The generation check before reading resolved frame data: the buffer
    /// size exactly when the reference still names the published occupant,
    /// `StaleReference` otherwise — staleness is observed, never the new
    /// occupant's data.
    pub fn read(&self, host: &Host, fr: &FrameRef) -> (r: Result<u64, VsError>)
        ensures
            r is Ok <==> host.valid_ref(fr.slot as int, fr.serial),
            r matches Ok(n) ==> n == host.slots@[fr.slot as int].size,
            r is Err ==> r == Err::<u64, VsError>(VsError::StaleReference),
    {
        host.access(fr.slot, fr.serial)
    }

    /// Non-blocking advisory lock on the resolved frame, owned by this
    /// client's endpoint id.  `StaleReference` if the reference no longer
    /// names the occupant; `AlreadyLocked`, touching nothing, if any other
    /// owner holds the lock.
    pub fn trylock(&self, host: &mut Host, fr: &FrameRef) -> (r: Result<(), VsError>)
        requires
            old(host).wf(),
        ensures
            final(host).wf(),
            r == Err::<(), VsError>(VsError::StaleReference) <==> !old(host).valid_ref(
                fr.slot as int,
                fr.serial,
            ),
            r == Err::<(), VsError>(VsError::AlreadyLocked) <==> old(host).valid_ref(
                fr.slot as int,
                fr.serial,
            ) && old(host).slots@[fr.slot as int].lock is Some,
            r is Err ==> (r == Err::<(), VsError>(VsError::StaleReference) || r == Err::<
                (),
                VsError,
            >(VsError::AlreadyLocked)) && *final(host) == *old(host),
            r is Ok ==> final(host).slots@ == old(host).slots@.update(
                fr.slot as int,
                (Slot { lock: Some(self.id as u64), ..old(host).slots@[fr.slot as int] }),
            ),
    {
        host.lock_frame(fr.slot, fr.serial, self.id as u64)
    }

    /// Releases the advisory lock this client holds on the resolved frame.
    /// `StaleReference` if the reference no longer names the occupant;
    /// `NotLocked` if this client is not the holder.
    pub fn unlock(&self, host: &mut Host, fr: &FrameRef) -> (r: Result<(), VsError>)
        requires
            old(host).wf(),
        ensures
            final(host).wf(),
            r == Err::<(), VsError>(VsError::StaleReference) <==> !old(host).valid_ref(
                fr.slot as int,
                fr.serial,
            ),
            r == Err::<(), VsError>(VsError::NotLocked) <==> old(host).valid_ref(
                fr.slot as int,
                fr.serial,
            ) && old(host).slots@[fr.slot as int].lock != Some(self.id as u64),
            r is Err ==> (r == Err::<(), VsError>(VsError::StaleReference) || r == Err::<
                (),
                VsError,
            >(VsError::NotLocked)) && *final(host) == *old(host),
            r is Ok ==> final(host).slots@ == old(host).slots@.update(
                fr.slot as int,
                (Slot { lock: None, ..old(host).slots@[fr.slot as int] }),
            ),
    {
        host.unlock_frame(fr.slot, fr.serial, self.id as u64)
    }

    /// Returns one reference on the resolved frame to the host.  On the
    /// last reference the slot becomes free.  Releasing a stale reference
    /// changes nothing: release is idempotent.
    pub fn release(&self, host: &mut Host, fr: FrameRef)
        requires
            old(host).wf(),
        ensures
            final(host).wf(),
            !(old(host).valid_ref(fr.slot as int, fr.serial) && old(host).slots@[fr.slot as int].refs
                > 0) ==> *final(host) == *old(host),
            old(host).valid_ref(fr.slot as int, fr.serial) && old(host).slots@[fr.slot as int].refs
                > 0 ==> ({
                let prev = old(host).slots@[fr.slot as int];
                let ns = (if prev.refs == 1 {
                    (Slot { state: SlotState::Free, refs: 0, lock: None, ..prev })
                } else {
                    (Slot { refs: (prev.refs - 1) as u64, ..prev })
                });
                &&& final(host).slots@ == old(host).slots@.update(fr.slot as int, ns)
                &&& final(host).endpoints@ == old(host).endpoints@
                &&& final(host).next_serial == old(host).next_serial
            }),
    {
        host.release_ref(fr.slot, fr.serial);
    }

    /// Ends the subscription: the endpoint is closed and its pending
    /// notifications are discarded.  Frames already resolved are untouched.
    pub fn disconnect(&self, host: &mut Host)
        requires
            old(host).wf(),
            self.attached(*old(host)),
        ensures
            final(host).wf(),
            final(host).endpoints@.len() == old(host).endpoints@.len(),
            !final(host).endpoints@[self.id as int].open,
            final(host).endpoints@[self.id as int].queue@.len() == 0,
            forall|e: int|
                0 <= e < old(host).endpoints@.len() && e != self.id ==> final(host).endpoints@[e]
                    == old(host).endpoints@[e],
            final(host).slots@ == old(host).slots@,
            final(host).next_serial == old(host).next_serial,
            final(host).lease == old(host).lease,
            final(host).queue_cap == old(host).queue_cap,
            final(host).accepting == old(host).accepting,
    {
        host.endpoints.set(self.id, Endpoint { open: false, queue: Vec::new() });
    }
}

} // verus!
