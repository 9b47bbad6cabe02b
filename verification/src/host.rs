//! The publishing side of the sharing protocol.
//!
//! A host owns a fixed pool of buffer slots.  A producer obtains a slot,
//! fills it, and publishes it; publishing assigns a fresh serial — strictly
//! greater than every serial the host ever assigned — and appends a
//! notification to the queue of every endpoint that is connected at that
//! moment.  A slot returns to the pool when its last client reference is
//! released, or, so that a client that never releases cannot starve the
//! pool, when its lease expires and the host force-reclaims it.  Every
//! client access is checked against the slot's current occupant, so a
//! handle kept across a force-reclaim is reported stale rather than reading
//! the new occupant's data.

use vstd::prelude::*;
use vstd::string::StringSliceAdditionalSpecFns;

use crate::error::VsError;
use crate::fourcc_of;

verus! {

/// The lifecycle state of one buffer slot.
#[derive(Clone, Copy, Debug, PartialEq, Eq, Structural)]
pub enum SlotState {
    /// Unoccupied: the slot may be handed out by `new_frame`.
    Free,
    /// Handed to a producer and not yet published.
    Allocated,
    /// Published: clients may resolve the slot's notification.
    Published,
}

/// One buffer slot: occupancy state, the serial of its occupant, the
/// outstanding client reference count, an advisory lock, and the occupant
/// frame's metadata.
#[derive(Clone, Copy, Debug)]
pub struct Slot {
    pub state: SlotState,
    pub serial: i64,
    pub refs: u64,
    pub lock: Option<u64>,
    pub code: u32,
    pub width: u32,
    pub height: u32,
    pub stride: u32,
    pub size: u64,
    pub timestamp: i64,
    pub pts: i64,
    pub dts: i64,
    pub duration: i64,
    pub expires: i64,
}

impl Slot {
    /// Slot sanity relative to the host's serial counter: the occupant's
    /// serial was assigned in the past, and a free slot holds no references.
    pub open spec fn inv(self, next_serial: i64) -> bool {
        &&& 0 <= self.serial < next_serial
        &&& self.state is Free ==> self.refs == 0
    }

    /// A slot the host may hand out: never or no longer occupied, or
    /// published so long ago that its lease has run out.
    pub open spec fn available(self, now: i64) -> bool {
        self.state is Free || (self.state is Published && self.expires <= now)
    }

    /// The slot after a force-reclaim: unoccupied, no references, no lock;
    /// the metadata of the evicted occupant is left behind but its serial
    /// will never match a later occupant's.
    pub open spec fn reclaimed(self) -> Slot {
        Slot { state: SlotState::Free, refs: 0, lock: None, ..self }
    }
}

/// What a host broadcasts when a frame becomes ready: the fresh serial, the
/// slot that resolves to the shared backing memory, and the frame metadata.
#[derive(Clone, Copy, Debug)]
pub struct Notification {
    pub serial: i64,
    pub slot: usize,
    pub code: u32,
    pub width: u32,
    pub height: u32,
    pub stride: u32,
    pub size: u64,
    pub pts: i64,
    pub dts: i64,
    pub duration: i64,
    pub expires: i64,
}

/// The notification describing a published slot.
pub open spec fn notification_for(s: Slot, i: usize) -> Notification {
    Notification {
        serial: s.serial,
        slot: i,
        code: s.code,
        width: s.width,
        height: s.height,
        stride: s.stride,
        size: s.size,
        pts: s.pts,
        dts: s.dts,
        duration: s.duration,
        expires: s.expires,
    }
}

/// One connected client's end of the channel: whether it is still open and
/// the pending notifications, oldest first.
pub struct Endpoint {
    pub open: bool,
    pub queue: Vec<Notification>,
}

impl Endpoint {
    /// Queue sanity: bounded by the host's queue capacity, every entry names
    /// an assigned serial and an existing slot, and serials increase from
    /// front to back — notifications sit in publish order.
    pub open spec fn inv(self, next_serial: i64, nslots: int, cap: usize) -> bool {
        &&& self.queue@.len() <= cap
        &&& forall|k: int|
            0 <= k < self.queue@.len() ==> 1 <= (#[trigger] self.queue@[k]).serial < next_serial
                && self.queue@[k].slot < nslots
        &&& forall|k1: int, k2: int|
            0 <= k1 < k2 < self.queue@.len() ==> (#[trigger] self.queue@[k1]).serial < (
            #[trigger] self.queue@[k2]).serial
    }
}

/// The publish side: a pool of slots, a monotonic serial counter, the
/// connected endpoints, the lease after which a published slot may be
/// force-reclaimed, and the per-endpoint queue bound.
pub struct Host {
    pub slots: Vec<Slot>,
    pub next_serial: i64,
    pub endpoints: Vec<Endpoint>,
    pub lease: i64,
    pub queue_cap: usize,
    pub accepting: bool,
}

impl Host {
    /// Host sanity: serials already assigned are below the counter, free
    /// slots hold no references, and every pending notification names an
    /// assigned serial and an existing slot, in publish order.
    pub open spec fn wf(self) -> bool {
        &&& 1 <= self.next_serial
        &&& 0 <= self.lease
        &&& forall|i: int|
            0 <= i < self.slots@.len() ==> (#[trigger] self.slots@[i]).inv(self.next_serial)
        &&& forall|e: int|
            0 <= e < self.endpoints@.len() ==> (#[trigger] self.endpoints@[e]).inv(
                self.next_serial,
                self.slots@.len() as int,
                self.queue_cap,
            )
    }

    /// Whether `serial` is the current occupant of `slot` and that occupant
    /// is published: the generation check made on every client access.
    pub open spec fn valid_ref(self, slot: int, serial: i64) -> bool {
        &&& 0 <= slot < self.slots@.len()
        &&& self.slots@[slot].state is Published
        &&& self.slots@[slot].serial == serial
    }

    /// Creates a host with `pool_size` free slots, no connections yet, the
    /// given force-reclaim lease, and the given per-client queue bound.
    pub fn create(pool_size: usize, lease: i64, queue_cap: usize) -> (r: Host)
        requires
            0 <= lease,
        ensures
            r.wf(),
            r.slots@.len() == pool_size,
            forall|i: int|
                0 <= i < pool_size ==> (#[trigger] r.slots@[i]).state is Free && r.slots@[i].refs
                    == 0 && r.slots@[i].serial == 0,
            r.next_serial == 1,
            r.endpoints@.len() == 0,
            r.lease == lease,
            r.queue_cap == queue_cap,
            r.accepting,
    {
        let mut slots: Vec<Slot> = Vec::new();
        let mut i: usize = 0;
        while i < pool_size
            invariant
                i <= pool_size,
                slots@.len() == i,
                forall|j: int|
                    0 <= j < i ==> (#[trigger] slots@[j]).state is Free && slots@[j].refs == 0
                        && slots@[j].serial == 0,
            decreases pool_size - i,
        {
            slots.push(
                Slot {
                    state: SlotState::Free,
                    serial: 0,
                    refs: 0,
                    lock: None,
                    code: 0,
                    width: 0,
                    height: 0,
                    stride: 0,
                    size: 0,
                    timestamp: 0,
                    pts: 0,
                    dts: 0,
                    duration: 0,
                    expires: 0,
                },
            );
            i += 1;
        }
        Host {
            slots,
            next_serial: 1,
            endpoints: Vec::new(),
            lease,
            queue_cap,
            accepting: true,
        }
    }

    /// Obtains a slot for a new frame: the lowest-numbered available slot —
    /// free, or published past its lease, which is force-reclaimed by being
    /// overwritten.  Fails with `InvalidFormat` if and only if the format
    /// string is not exactly 4 bytes, and otherwise with `AllocationFailed`
    /// if and only if no slot is available; the host is unchanged on
    /// failure.  The returned slot is allocated, unpublished, unlocked and
    /// unreferenced, and carries the given metadata with a buffer of
    /// `stride * height` bytes.
    #[verifier::loop_isolation(false)]
    pub fn new_frame(
        &mut self,
        width: u32,
        height: u32,
        stride: u32,
        fourcc_str: &str,
        pts: i64,
        dts: i64,
        duration: i64,
        now: i64,
    ) -> (r: Result<usize, VsError>)
        requires
            old(self).wf(),
        ensures
            final(self).wf(),
            fourcc_str.spec_bytes().len() != 4 <==> r == Err::<usize, VsError>(
                VsError::InvalidFormat,
            ),
            (fourcc_str.spec_bytes().len() == 4 && (forall|j: int|
                0 <= j < old(self).slots@.len() ==> !(#[trigger] old(self).slots@[j]).available(
                    now,
                ))) <==> r == Err::<usize, VsError>(VsError::AllocationFailed),
            r is Err ==> (r == Err::<usize, VsError>(VsError::InvalidFormat) || r == Err::<
                usize,
                VsError,
            >(VsError::AllocationFailed)) && *final(self) == *old(self),
            r matches Ok(i) ==> i < old(self).slots@.len() && old(self).slots@[i as int].available(
                now,
            ) && (forall|j: int|
                0 <= j < i ==> !(#[trigger] old(self).slots@[j]).available(now)) && final(self).slots@ == old(self).slots@.update(
                i as int,
                (Slot {
                    state: SlotState::Allocated,
                    serial: old(self).slots@[i as int].serial,
                    refs: 0,
                    lock: None,
                    code: fourcc_of(fourcc_str.spec_bytes()),
                    width,
                    height,
                    stride,
                    size: (stride as u64 * height as u64) as u64,
                    timestamp: now,
                    pts,
                    dts,
                    duration,
                    expires: 0,
                }),
            ) && final(self).next_serial == old(self).next_serial && final(self).endpoints@ == old(
                self,
            ).endpoints@ && final(self).lease == old(self).lease && final(self).queue_cap == old(
                self,
            ).queue_cap && final(self).accepting == old(self).accepting,
    {
        let bytes: &[u8] = fourcc_str.as_bytes();
        if bytes.len() != 4 {
            return Err(VsError::InvalidFormat);
        }
        let code: u32 = (bytes[0] as u32) | ((bytes[1] as u32) << 8) | ((bytes[2] as u32) << 16) | (
        (bytes[3] as u32) << 24);
        proof {
            let s = stride as int;
            let h = height as int;
            assert(s * h <= 0xffff_ffff * 0xffff_ffff) by (nonlinear_arith)
                requires
                    0 <= s <= 0xffff_ffff,
                    0 <= h <= 0xffff_ffff,
            ;
        }
        let size: u64 = (stride as u64) * (height as u64);
        let mut i: usize = 0;
        while i < self.slots.len()
            invariant
                i <= self.slots@.len(),
                *self == *old(self),
                self.wf(),
                forall|j: int| 0 <= j < i ==> !(#[trigger] self.slots@[j]).available(now),
            decreases self.slots@.len() - i,
        {
            let avail: bool = match self.slots[i].state {
                SlotState::Free => true,
                SlotState::Allocated => false,
                SlotState::Published => self.slots[i].expires <= now,
            };
            if avail {
                let prev_serial: i64 = self.slots[i].serial;
                self.slots.set(
                    i,
                    Slot {
                        state: SlotState::Allocated,
                        serial: prev_serial,
                        refs: 0,
                        lock: None,
                        code,
                        width,
                        height,
                        stride,
                        size,
                        timestamp: now,
                        pts,
                        dts,
                        duration,
                        expires: 0,
                    },
                );
                return Ok(i);
            }
            i += 1;
        }
        Err(VsError::AllocationFailed)
    }

    /// Publishes an allocated slot: assigns the fresh serial — strictly
    /// greater than every serial this host has ever assigned — stamps the
    /// lease expiry at `now + lease`, and appends the ready notification to
    /// every endpoint that is open and has queue room.  Fails with
    /// `AllocationFailed`, leaving the host unchanged, if and only if the
    /// serial space is exhausted.
    pub fn publish(&mut self, slot: usize, now: i64) -> (r: Result<i64, VsError>)
        requires
            old(self).wf(),
            slot < old(self).slots@.len(),
            old(self).slots@[slot as int].state is Allocated,
            now + old(self).lease <= i64::MAX,
        ensures
            final(self).wf(),
            old(self).next_serial == i64::MAX <==> r == Err::<i64, VsError>(
                VsError::AllocationFailed,
            ),
            r is Err ==> r == Err::<i64, VsError>(VsError::AllocationFailed) && *final(self)
                == *old(self),
            r matches Ok(s) ==> ({
                let ns = (Slot {
                    state: SlotState::Published,
                    serial: s,
                    refs: 0,
                    lock: old(self).slots@[slot as int].lock,
                    code: old(self).slots@[slot as int].code,
                    width: old(self).slots@[slot as int].width,
                    height: old(self).slots@[slot as int].height,
                    stride: old(self).slots@[slot as int].stride,
                    size: old(self).slots@[slot as int].size,
                    timestamp: old(self).slots@[slot as int].timestamp,
                    pts: old(self).slots@[slot as int].pts,
                    dts: old(self).slots@[slot as int].dts,
                    duration: old(self).slots@[slot as int].duration,
                    expires: (now + old(self).lease) as i64,
                });
                &&& s == old(self).next_serial
                &&& (forall|j: int|
                    0 <= j < old(self).slots@.len() ==> (#[trigger] old(self).slots@[j]).serial
                        < s)
                &&& final(self).next_serial == s + 1
                &&& final(self).slots@ == old(self).slots@.update(slot as int, ns)
                &&& final(self).endpoints@.len() == old(self).endpoints@.len()
                &&& (forall|e: int|
                    0 <= e < old(self).endpoints@.len() ==> (#[trigger] final(self).endpoints@[e]).open == old(self).endpoints@[e].open && final(self).endpoints@[e].queue@ == (if old(self).endpoints@[e].open && old(
                        self,
                    ).endpoints@[e].queue@.len() < old(self).queue_cap {
                        old(self).endpoints@[e].queue@.push(notification_for(ns, slot))
                    } else {
                        old(self).endpoints@[e].queue@
                    }))
                &&& final(self).lease == old(self).lease
                &&& final(self).queue_cap == old(self).queue_cap
                &&& final(self).accepting == old(self).accepting
            }),
    {
        if self.next_serial == i64::MAX {
            return Err(VsError::AllocationFailed);
        }
        let s: i64 = self.next_serial;
        self.next_serial = s + 1;
        let prev: Slot = self.slots[slot];
        let ns = Slot {
            state: SlotState::Published,
            serial: s,
            refs: 0,
            lock: prev.lock,
            code: prev.code,
            width: prev.width,
            height: prev.height,
            stride: prev.stride,
            size: prev.size,
            timestamp: prev.timestamp,
            pts: prev.pts,
            dts: prev.dts,
            duration: prev.duration,
            expires: now + self.lease,
        };
        self.slots.set(slot, ns);
        let n = Notification {
            serial: s,
            slot,
            code: ns.code,
            width: ns.width,
            height: ns.height,
            stride: ns.stride,
            size: ns.size,
            pts: ns.pts,
            dts: ns.dts,
            duration: ns.duration,
            expires: ns.expires,
        };
        let mut e: usize = 0;
        while e < self.endpoints.len()
            invariant
                old(self).wf(),
                self.wf(),
                e <= self.endpoints@.len(),
                self.endpoints@.len() == old(self).endpoints@.len(),
                self.next_serial == s + 1,
                s == old(self).next_serial,
                s < i64::MAX,
                self.slots@ == old(self).slots@.update(slot as int, ns),
                self.lease == old(self).lease,
                self.queue_cap == old(self).queue_cap,
                self.accepting == old(self).accepting,
                n == notification_for(ns, slot),
                ns.serial == s,
                slot < self.slots@.len(),
                forall|e2: int|
                    0 <= e2 < e ==> (#[trigger] self.endpoints@[e2]).open == old(
                        self,
                    ).endpoints@[e2].open && self.endpoints@[e2].queue@ == (if old(
                        self,
                    ).endpoints@[e2].open && old(self).endpoints@[e2].queue@.len() < old(
                        self,
                    ).queue_cap {
                        old(self).endpoints@[e2].queue@.push(n)
                    } else {
                        old(self).endpoints@[e2].queue@
                    }),
                forall|e2: int|
                    e <= e2 < self.endpoints@.len() ==> (#[trigger] self.endpoints@[e2]).open
                        == old(self).endpoints@[e2].open && self.endpoints@[e2].queue@ == old(
                        self,
                    ).endpoints@[e2].queue@,
            decreases self.endpoints@.len() - e,
        {
            let is_open: bool = self.endpoints[e].open;
            let room: bool = self.endpoints[e].queue.len() < self.queue_cap;
            if is_open && room {
                proof {
                    assert(old(self).endpoints@[e as int].inv(
                        s,
                        old(self).slots@.len() as int,
                        old(self).queue_cap,
                    ));
                }
                let ghost oldq = self.endpoints@[e as int].queue@;
                let mut nq: Vec<Notification> = copy_queue(&self.endpoints[e].queue, 0);
                proof {
                    assert(nq@ =~= oldq);
                }
                nq.push(n);
                self.endpoints.set(e, Endpoint { open: true, queue: nq });
                proof {
                    assert(self.endpoints@[e as int].queue@ == oldq.push(n));
                    assert(self.endpoints@[e as int].inv(
                        self.next_serial,
                        self.slots@.len() as int,
                        self.queue_cap,
                    ));
                }
            }
            e += 1;
        }
        Ok(s)
    }

    /// Returns an allocated, never-published slot straight to the pool: the
    /// producer decided not to publish it.
    pub fn abandon(&mut self, slot: usize)
        requires
            old(self).wf(),
            slot < old(self).slots@.len(),
            old(self).slots@[slot as int].state is Allocated,
        ensures
            final(self).wf(),
            final(self).slots@ == old(self).slots@.update(
                slot as int,
                (Slot { state: SlotState::Free, refs: 0, lock: None, ..old(self).slots@[slot as int] }),
            ),
            final(self).next_serial == old(self).next_serial,
            final(self).endpoints@ == old(self).endpoints@,
            final(self).lease == old(self).lease,
            final(self).queue_cap == old(self).queue_cap,
            final(self).accepting == old(self).accepting,
    {
        let prev: Slot = self.slots[slot];
        self.slots.set(slot, Slot { state: SlotState::Free, refs: 0, lock: None, ..prev });
    }

    /// Releases one client reference on the occupant named by `serial`.  On
    /// the last reference the slot becomes free — eligible for reuse — with
    /// its lock cleared.  A release against a slot whose occupant has
    /// changed, or that holds no references, changes nothing: release is
    /// idempotent.
    pub fn release_ref(&mut self, slot: usize, serial: i64)
        requires
            old(self).wf(),
        ensures
            final(self).wf(),
            !(old(self).valid_ref(slot as int, serial) && old(self).slots@[slot as int].refs > 0)
                ==> *final(self) == *old(self),
            old(self).valid_ref(slot as int, serial) && old(self).slots@[slot as int].refs > 0
                ==> ({
                let prev = old(self).slots@[slot as int];
                let ns = (if prev.refs == 1 {
                    (Slot { state: SlotState::Free, refs: 0, lock: None, ..prev })
                } else {
                    (Slot { refs: (prev.refs - 1) as u64, ..prev })
                });
                &&& final(self).slots@ == old(self).slots@.update(slot as int, ns)
                &&& final(self).next_serial == old(self).next_serial
                &&& final(self).endpoints@ == old(self).endpoints@
                &&& final(self).lease == old(self).lease
                &&& final(self).queue_cap == old(self).queue_cap
                &&& final(self).accepting == old(self).accepting
            }),
    {
        if slot >= self.slots.len() {
            return ;
        }
        let prev: Slot = self.slots[slot];
        let published: bool = match prev.state {
            SlotState::Published => true,
            _ => false,
        };
        if !published || prev.serial != serial || prev.refs == 0 {
            return ;
        }
        if prev.refs == 1 {
            self.slots.set(slot, Slot { state: SlotState::Free, refs: 0, lock: None, ..prev });
        } else {
            self.slots.set(slot, Slot { refs: prev.refs - 1, ..prev });
        }
    }

    /// Force-reclaims every published slot whose lease has expired, whether
    /// or not references are outstanding: each such slot becomes free with
    /// no references and no lock.  All other slots are untouched.
    pub fn reclaim_expired(&mut self, now: i64)
        requires
            old(self).wf(),
        ensures
            final(self).wf(),
            final(self).slots@.len() == old(self).slots@.len(),
            forall|j: int|
                0 <= j < old(self).slots@.len() ==> final(self).slots@[j] == (if old(
                    self,
                ).slots@[j].state is Published && (#[trigger] old(self).slots@[j]).expires <= now {
                    old(self).slots@[j].reclaimed()
                } else {
                    old(self).slots@[j]
                }),
            final(self).next_serial == old(self).next_serial,
            final(self).endpoints@ == old(self).endpoints@,
            final(self).lease == old(self).lease,
            final(self).queue_cap == old(self).queue_cap,
            final(self).accepting == old(self).accepting,
    {
        let mut i: usize = 0;
        while i < self.slots.len()
            invariant
                old(self).wf(),
                self.wf(),
                i <= self.slots@.len(),
                self.slots@.len() == old(self).slots@.len(),
                self.next_serial == old(self).next_serial,
                self.endpoints@ == old(self).endpoints@,
                self.lease == old(self).lease,
                self.queue_cap == old(self).queue_cap,
                self.accepting == old(self).accepting,
                forall|j: int|
                    0 <= j < i ==> self.slots@[j] == (if old(self).slots@[j].state is Published
                        && (#[trigger] old(self).slots@[j]).expires <= now {
                        old(self).slots@[j].reclaimed()
                    } else {
                        old(self).slots@[j]
                    }),
                forall|j: int|
                    i <= j < self.slots@.len() ==> #[trigger] self.slots@[j] == old(
                        self,
                    ).slots@[j],
            decreases self.slots@.len() - i,
        {
            let prev: Slot = self.slots[i];
            let expired: bool = match prev.state {
                SlotState::Published => prev.expires <= now,
                _ => false,
            };
            if expired {
                self.slots.set(i, Slot { state: SlotState::Free, refs: 0, lock: None, ..prev });
            }
            i += 1;
        }
    }

    /// Accepts a new subscription and returns its endpoint id.  Fails with
    /// `ConnectionFailed`, leaving the host unchanged, if and only if the
    /// host is no longer accepting connections.
    pub fn subscribe(&mut self) -> (r: Result<usize, VsError>)
        requires
            old(self).wf(),
        ensures
            final(self).wf(),
            !old(self).accepting <==> r == Err::<usize, VsError>(VsError::ConnectionFailed),
            r is Err ==> r == Err::<usize, VsError>(VsError::ConnectionFailed) && *final(self)
                == *old(self),
            r matches Ok(id) ==> id == old(self).endpoints@.len() && final(self).endpoints@.len()
                == old(self).endpoints@.len() + 1 && (forall|e: int|
                0 <= e < old(self).endpoints@.len() ==> final(self).endpoints@[e] == old(
                    self,
                ).endpoints@[e]) && final(self).endpoints@[id as int].open && final(self).endpoints@[id as int].queue@.len() == 0 && final(self).slots@ == old(self).slots@
                && final(self).next_serial == old(self).next_serial && final(self).lease == old(
                self,
            ).lease && final(self).queue_cap == old(self).queue_cap && final(self).accepting,
    {
        if !self.accepting {
            return Err(VsError::ConnectionFailed);
        }
        let id: usize = self.endpoints.len();
        self.endpoints.push(Endpoint { open: true, queue: Vec::new() });
        Ok(id)
    }

    /// Closes the channel: no further subscriptions are accepted and every
    /// endpoint is marked closed, so pending and future `get_frame` calls
    /// fail with `ConnectionClosed`.  Slots and pending queues are left as
    /// they are: frames already resolved stay valid until released or
    /// force-reclaimed.
    pub fn shutdown(&mut self)
        requires
            old(self).wf(),
        ensures
            final(self).wf(),
            !final(self).accepting,
            final(self).endpoints@.len() == old(self).endpoints@.len(),
            forall|e: int|
                0 <= e < old(self).endpoints@.len() ==> !(#[trigger] final(self).endpoints@[e]).open && final(self).endpoints@[e].queue@ == old(
                    self,
                ).endpoints@[e].queue@,
            final(self).slots@ == old(self).slots@,
            final(self).next_serial == old(self).next_serial,
            final(self).lease == old(self).lease,
            final(self).queue_cap == old(self).queue_cap,
    {
        self.accepting = false;
        let mut e: usize = 0;
        while e < self.endpoints.len()
            invariant
                old(self).wf(),
                self.wf(),
                e <= self.endpoints@.len(),
                self.endpoints@.len() == old(self).endpoints@.len(),
                self.slots@ == old(self).slots@,
                self.next_serial == old(self).next_serial,
                self.lease == old(self).lease,
                self.queue_cap == old(self).queue_cap,
                !self.accepting,
                forall|e2: int|
                    0 <= e2 < e ==> !(#[trigger] self.endpoints@[e2]).open
                        && self.endpoints@[e2].queue@ == old(self).endpoints@[e2].queue@,
                forall|e2: int|
                    e <= e2 < self.endpoints@.len() ==> (#[trigger] self.endpoints@[e2]).open
                        == old(self).endpoints@[e2].open && self.endpoints@[e2].queue@ == old(
                        self,
                    ).endpoints@[e2].queue@,
            decreases self.endpoints@.len() - e,
        {
            let ghost oldq = self.endpoints@[e as int].queue@;
            let q: Vec<Notification> = copy_queue(&self.endpoints[e].queue, 0);
            proof {
                assert(q@ =~= oldq);
            }
            self.endpoints.set(e, Endpoint { open: false, queue: q });
            e += 1;
        }
    }

    /// The generation check a client makes before touching resolved frame
    /// data: succeeds with the buffer size exactly when `serial` still names
    /// the published occupant of `slot`, and fails with `StaleReference`
    /// otherwise — a reclaimed or reused slot is reported, never read.
    pub fn access(&self, slot: usize, serial: i64) -> (r: Result<u64, VsError>)
        ensures
            r is Ok <==> self.valid_ref(slot as int, serial),
            r matches Ok(n) ==> n == self.slots@[slot as int].size,
            r is Err ==> r == Err::<u64, VsError>(VsError::StaleReference),
    {
        if slot >= self.slots.len() {
            return Err(VsError::StaleReference);
        }
        let s: Slot = self.slots[slot];
        let published: bool = match s.state {
            SlotState::Published => true,
            _ => false,
        };
        if !published || s.serial != serial {
            return Err(VsError::StaleReference);
        }
        Ok(s.size)
    }

    /// Non-blocking advisory lock on a resolved frame's slot, for `owner`.
    /// Fails with `StaleReference` if the reference no longer names the
    /// occupant, with `AlreadyLocked` — touching nothing — if any other
    /// owner holds the lock, and otherwise records `owner` as holder.
    pub fn lock_frame(&mut self, slot: usize, serial: i64, owner: u64) -> (r: Result<(), VsError>)
        requires
            old(self).wf(),
        ensures
            final(self).wf(),
            r == Err::<(), VsError>(VsError::StaleReference) <==> !old(self).valid_ref(
                slot as int,
                serial,
            ),
            r == Err::<(), VsError>(VsError::AlreadyLocked) <==> old(self).valid_ref(
                slot as int,
                serial,
            ) && old(self).slots@[slot as int].lock is Some,
            r is Err ==> (r == Err::<(), VsError>(VsError::StaleReference) || r == Err::<
                (),
                VsError,
            >(VsError::AlreadyLocked)) && *final(self) == *old(self),
            r is Ok ==> final(self).slots@ == old(self).slots@.update(
                slot as int,
                (Slot { lock: Some(owner), ..old(self).slots@[slot as int] }),
            ) && final(self).next_serial == old(self).next_serial && final(self).endpoints@ == old(
                self,
            ).endpoints@ && final(self).lease == old(self).lease && final(self).queue_cap == old(
                self,
            ).queue_cap && final(self).accepting == old(self).accepting,
    {
        if slot >= self.slots.len() {
            return Err(VsError::StaleReference);
        }
        let prev: Slot = self.slots[slot];
        let published: bool = match prev.state {
            SlotState::Published => true,
            _ => false,
        };
        if !published || prev.serial != serial {
            return Err(VsError::StaleReference);
        }
        match prev.lock {
            Some(_) => Err(VsError::AlreadyLocked),
            None => {
                self.slots.set(slot, Slot { lock: Some(owner), ..prev });
                Ok(())
            },
        }
    }

    /// Releases the advisory lock `owner` holds on a resolved frame's slot.
    /// Fails with `StaleReference` if the reference no longer names the
    /// occupant and with `NotLocked` if `owner` is not the holder; the host
    /// is unchanged on failure.
    pub fn unlock_frame(&mut self, slot: usize, serial: i64, owner: u64) -> (r: Result<
        (),
        VsError,
    >)
        requires
            old(self).wf(),
        ensures
            final(self).wf(),
            r == Err::<(), VsError>(VsError::StaleReference) <==> !old(self).valid_ref(
                slot as int,
                serial,
            ),
            r == Err::<(), VsError>(VsError::NotLocked) <==> old(self).valid_ref(slot as int, serial)
                && old(self).slots@[slot as int].lock != Some(owner),
            r is Err ==> (r == Err::<(), VsError>(VsError::StaleReference) || r == Err::<
                (),
                VsError,
            >(VsError::NotLocked)) && *final(self) == *old(self),
            r is Ok ==> final(self).slots@ == old(self).slots@.update(
                slot as int,
                (Slot { lock: None, ..old(self).slots@[slot as int] }),
            ) && final(self).next_serial == old(self).next_serial && final(self).endpoints@ == old(
                self,
            ).endpoints@ && final(self).lease == old(self).lease && final(self).queue_cap == old(
                self,
            ).queue_cap && final(self).accepting == old(self).accepting,
    {
        if slot >= self.slots.len() {
            return Err(VsError::StaleReference);
        }
        let prev: Slot = self.slots[slot];
        let published: bool = match prev.state {
            SlotState::Published => true,
            _ => false,
        };
        if !published || prev.serial != serial {
            return Err(VsError::StaleReference);
        }
        let held: bool = match prev.lock {
            Some(holder) => holder == owner,
            None => false,
        };
        if !held {
            return Err(VsError::NotLocked);
        }
        self.slots.set(slot, Slot { lock: None, ..prev });
        Ok(())
    }
}

/// Notifications are observed in publish order: within any endpoint's
/// pending queue the serials increase strictly from front to back, and
/// `get_frame` takes from the front.
pub proof fn lemma_queue_in_publish_order(h: Host, e: int, k1: int, k2: int)
    requires
        h.wf(),
        0 <= e < h.endpoints@.len(),
        0 <= k1 < k2 < h.endpoints@[e].queue@.len(),
    ensures
        h.endpoints@[e].queue@[k1].serial < h.endpoints@[e].queue@[k2].serial,
{
}

/// A slot whose last reference was released — `release_ref` leaves it free
/// — is eligible for reuse at any instant, and the serial of its released
/// occupant lies below the host's counter, so the serial assigned when the
/// slot is next published is strictly greater.
pub proof fn lemma_freed_slot_reusable(h: Host, slot: int, now: i64)
    requires
        h.wf(),
        0 <= slot < h.slots@.len(),
        h.slots@[slot].state is Free,
    ensures
        h.slots@[slot].available(now),
        h.slots@[slot].serial < h.next_serial,
{
}

/// Serials are never reused: every serial a host has assigned to a slot
/// lies strictly below its counter, and `publish` hands out the counter's
/// value, so no two occupancy generations ever share a serial.
pub proof fn lemma_serials_below_counter(h: Host, slot: int)
    requires
        h.wf(),
        0 <= slot < h.slots@.len(),
    ensures
        h.slots@[slot].serial < h.next_serial,
{
}

/// A reference kept across a force-reclaim never passes the generation
/// check again: right after the reclaim the slot is free, and any occupant
/// published later carries a different serial, so `access` reports
/// `StaleReference` rather than the new occupant's data.
pub proof fn lemma_stale_ref_rejected(h: Host, slot: int, serial: i64)
    requires
        h.wf(),
        0 <= slot < h.slots@.len(),
        h.slots@[slot].state is Free || h.slots@[slot].serial != serial,
    ensures
        !h.valid_ref(slot, serial),
{
}

/// Copies the tail of a notification queue, from index `from` on.
pub(crate) fn copy_queue(v: &Vec<Notification>, from: usize) -> (r: Vec<Notification>)
    requires
        from <= v@.len(),
    ensures
        r@ == v@.skip(from as int),
{
    let mut r: Vec<Notification> = Vec::new();
    let mut j: usize = from;
    while j < v.len()
        invariant
            from <= j <= v@.len(),
            r@ == v@.subrange(from as int, j as int),
        decreases v@.len() - j,
    {
        let n: Notification = v[j];
        r.push(n);
        j += 1;
    }
    proof {
        assert(r@ =~= v@.skip(from as int));
    }
    r
}

} // verus!
