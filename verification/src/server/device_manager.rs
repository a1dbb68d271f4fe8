//! Device attachments and sessions: which client holds which device, under
//! which session id, with which interfaces claimed and kernel drivers detached.
//!
//! The manager is generic over the handle of an opened device, `H`. The
//! operations on a handle (`HandleOp`) are run by the caller's device function,
//! which the manager is given; its contracts say which operations ran on which
//! handle, and what became of their outcome.
use crate::error::WolfUsbError;
use crate::protocol::types::{ConfigurationInfo, DeviceId, InterfaceInfo};
use std::collections::HashMap;
use vstd::prelude::*;

verus! {

broadcast use vstd::std_specs::hash::group_hash_axioms;

/// An operation on an opened device that the manager runs.
#[derive(Debug, Clone, Copy, PartialEq, Eq, Structural)]
pub enum HandleOp {
    ClaimInterface(u8),
    ReleaseInterface(u8),
    AttachKernelDriver(u8),
    SetConfiguration(u8),
}

/// The operations a detach runs on the device's handle: each claimed
/// interface is released, in order, then each detached kernel driver is
/// reattached, in order.
pub open spec fn spec_detach_actions(claimed: Seq<u8>, detached: Seq<u8>) -> Seq<HandleOp> {
    claimed.map_values(|n: u8| HandleOp::ReleaseInterface(n)) + detached.map_values(
        |n: u8| HandleOp::AttachKernelDriver(n),
    )
}

/// Whether the device function `device` ran each of `ops` on `handle` (each
/// has an outcome that the function may give).
pub open spec fn ran_all<H, F: Fn(&H, HandleOp) -> Result<(), WolfUsbError>>(
    device: F,
    handle: H,
    ops: Seq<HandleOp>,
) -> bool {
    forall|i: int|
        #![trigger ops[i]]
        0 <= i < ops.len() ==> exists|r: Result<(), WolfUsbError>| #[trigger]
            device.ensures((&handle, ops[i]), r)
}

/// An attached device: its open handle, the interfaces whose kernel drivers
/// were detached, the interfaces claimed since, and the client that holds it.
pub struct AttachmentInfo<H> {
    pub handle: H,
    pub detached_kernel_drivers: Vec<u8>,
    pub claimed_interfaces: Vec<u8>,
    pub client_addr: String,
}

/// The key of a device in the attachment table: `bus * 256 + address`.
pub open spec fn device_key(id: DeviceId) -> u16 {
    (id.bus_number * 256 + id.address) as u16
}

/// Distinct devices have distinct keys, so the attachment table keeps one
/// entry per device.
pub proof fn lemma_device_key_injective(a: DeviceId, b: DeviceId)
    ensures
        device_key(a) == device_key(b) ==> a == b,
{
}

fn key_of(id: DeviceId) -> (k: u16)
    ensures
        k == device_key(id),
{
    (id.bus_number as u16) * 256u16 + (id.address as u16)
}

pub struct DeviceManager<H> {
    attachments: HashMap<u16, AttachmentInfo<H>>,
    next_session_id: u64,
    session_to_device: HashMap<u64, DeviceId>,
}

/// The sessions and attachments left after detaching the session `sid`: when
/// the session is known and its device is attached, both are removed; otherwise
/// nothing changes.
pub open spec fn after_session_detach<H>(
    state: (Map<u16, AttachmentInfo<H>>, Map<u64, DeviceId>),
    sid: u64,
) -> (Map<u16, AttachmentInfo<H>>, Map<u64, DeviceId>) {
    let (atts, sess) = state;
    if sess.contains_key(sid) && atts.contains_key(device_key(sess[sid])) {
        (atts.remove(device_key(sess[sid])), sess.remove(sid))
    } else {
        state
    }
}

/// The state after detaching each of `ids` in turn.
pub open spec fn after_sessions_detach<H>(
    state: (Map<u16, AttachmentInfo<H>>, Map<u64, DeviceId>),
    ids: Seq<u64>,
) -> (Map<u16, AttachmentInfo<H>>, Map<u64, DeviceId>)
    decreases ids.len(),
{
    if ids.len() == 0 {
        state
    } else {
        after_session_detach(after_sessions_detach(state, ids.drop_last()), ids.last())
    }
}

/// What a granted attach of `d` under session `sid` does to the tables: `sid`
/// is the next id (unused so far) and is recorded for `d`, the next id moves
/// on, and `d` gains an attachment while every other attachment stays.
pub open spec fn attach_granted<H>(
    before: DeviceManager<H>,
    after: DeviceManager<H>,
    d: DeviceId,
    sid: u64,
) -> bool {
    &&& sid == before.next_session_id()
    &&& !before.sessions().contains_key(sid)
    &&& after.next_session_id() == before.next_session_id() + 1
    &&& after.sessions() == before.sessions().insert(sid, d)
    &&& after.attachments().dom() == before.attachments().dom().insert(device_key(d))
    &&& forall|k: u16|
        k != device_key(d) ==> #[trigger] after.attachments().contains_key(k)
            ==> after.attachments()[k] == before.attachments()[k]
}

/// What a detach of an attached `d` under session `sid` does to the tables:
/// `d`'s attachment and the session `sid` are dropped, nothing else changes.
pub open spec fn detach_done<H>(
    before: DeviceManager<H>,
    after: DeviceManager<H>,
    d: DeviceId,
    sid: u64,
) -> bool {
    &&& after.attachments() == before.attachments().remove(device_key(d))
    &&& after.sessions() == before.sessions().remove(sid)
}

/// Detaching a device with the session id its attach granted undoes the
/// attach: the attachment and session tables are as they were before it.
pub proof fn lemma_attach_then_detach<H>(
    m0: DeviceManager<H>,
    m1: DeviceManager<H>,
    m2: DeviceManager<H>,
    d: DeviceId,
    sid: u64,
)
    requires
        !m0.attached(d),
        attach_granted(m0, m1, d, sid),
        detach_done(m1, m2, d, sid),
    ensures
        m2.attachments() == m0.attachments(),
        m2.sessions() == m0.sessions(),
{
    assert(m2.attachments() =~= m0.attachments());
    assert(m2.sessions() =~= m0.sessions());
}

/// The state after a cleanup only loses attachments and sessions: it gains no
/// attachment, and a session it keeps names the same device; a session that
/// was never in the list is kept.
proof fn lemma_cleanup_shrinks<H>(
    state: (Map<u16, AttachmentInfo<H>>, Map<u64, DeviceId>),
    ids: Seq<u64>,
)
    ensures
        after_sessions_detach(state, ids).0.dom().subset_of(state.0.dom()),
        forall|s: u64| #[trigger]
            after_sessions_detach(state, ids).1.contains_key(s) ==> state.1.contains_key(s)
                && after_sessions_detach(state, ids).1[s] == state.1[s],
        forall|s: u64| #[trigger]
            state.1.contains_key(s) && !ids.contains(s) ==> after_sessions_detach(
                state,
                ids,
            ).1.contains_key(s),
    decreases ids.len(),
{
    if ids.len() > 0 {
        lemma_cleanup_shrinks(state, ids.drop_last());
        let mid = after_sessions_detach(state, ids.drop_last());
        assert forall|s: u64| #[trigger]
            state.1.contains_key(s) && !ids.contains(s) implies after_sessions_detach(
            state,
            ids,
        ).1.contains_key(s) by {
            if ids.drop_last().contains(s) {
                let i = choose|i: int| 0 <= i < ids.drop_last().len() && ids.drop_last()[i] == s;
                assert(ids[i] == s);
            }
            assert(s != ids.last());
        }
    }
}

/// When a client goes away, the cleanup over its sessions leaves none of their
/// devices attached: for every listed session that named a device, that device
/// has no attachment afterwards; and the cleanup attaches nothing.
pub proof fn lemma_cleanup_releases_devices<H>(
    state: (Map<u16, AttachmentInfo<H>>, Map<u64, DeviceId>),
    ids: Seq<u64>,
)
    ensures
        after_sessions_detach(state, ids).0.dom().subset_of(state.0.dom()),
        forall|i: int|
            0 <= i < ids.len() && state.1.contains_key(#[trigger] ids[i]) ==> !after_sessions_detach(
                state,
                ids,
            ).0.contains_key(device_key(state.1[ids[i]])),
    decreases ids.len(),
{
    lemma_cleanup_shrinks(state, ids);
    if ids.len() > 0 {
        let prefix = ids.drop_last();
        lemma_cleanup_releases_devices(state, prefix);
        lemma_cleanup_shrinks(state, prefix);
        let mid = after_sessions_detach(state, prefix);
        let fin = after_sessions_detach(state, ids);
        assert(fin == after_session_detach(mid, ids.last()));
        assert forall|i: int|
            0 <= i < ids.len() && state.1.contains_key(#[trigger] ids[i]) implies !fin.0.contains_key(
            device_key(state.1[ids[i]]),
        ) by {
            if i < ids.len() - 1 {
                assert(prefix[i] == ids[i]);
                assert(!mid.0.contains_key(device_key(state.1[ids[i]])));
            } else {
                let x = ids.last();
                if mid.1.contains_key(x) {
                    assert(mid.1[x] == state.1[x]);
                } else {
                    assert(prefix.contains(x));
                    let j = choose|j: int| 0 <= j < prefix.len() && prefix[j] == x;
                    assert(prefix[j] == x);
                    assert(!mid.0.contains_key(device_key(state.1[prefix[j]])));
                }
            }
        }
    }
}

/// One call on a manager, as its next session id sees it: every operation
/// keeps the next id, except a granted attach, which grants the next id and
/// moves it on by one.
pub open spec fn manager_step<H>(before: DeviceManager<H>, after: DeviceManager<H>) -> bool {
    after.next_session_id() == before.next_session_id() || grants_id(before, after)
}

/// The step from `before` to `after` granted the session id `before.next_session_id()`.
pub open spec fn grants_id<H>(before: DeviceManager<H>, after: DeviceManager<H>) -> bool {
    after.next_session_id() == before.next_session_id() + 1
}

/// Along a run of calls, the next session id never goes down.
proof fn lemma_next_id_grows<H>(ms: Seq<DeviceManager<H>>, i: int, j: int)
    requires
        forall|k: int|
            #![trigger ms[k]]
            0 <= k < ms.len() - 1 ==> manager_step(ms[k], ms[k + 1]),
        0 <= i <= j < ms.len(),
    ensures
        ms[i].next_session_id() <= ms[j].next_session_id(),
    decreases j - i,
{
    if i < j {
        lemma_next_id_grows(ms, i, j - 1);
        assert(manager_step(ms[j - 1], ms[j]));
    }
}

/// Session ids are never handed out twice: along any run of calls on a
/// manager (each one an attach, a detach or another operation, so each a
/// `manager_step`, as their contracts give), the ids granted at two different
/// steps differ, and each is below the next id of every later state.
pub proof fn lemma_session_ids_never_reused<H>(ms: Seq<DeviceManager<H>>, i: int, j: int)
    requires
        forall|k: int|
            #![trigger ms[k]]
            0 <= k < ms.len() - 1 ==> manager_step(ms[k], ms[k + 1]),
        0 <= i < j,
        j + 1 < ms.len(),
        grants_id(ms[i], ms[i + 1]),
        grants_id(ms[j], ms[j + 1]),
    ensures
        ms[i].next_session_id() != ms[j].next_session_id(),
        ms[i].next_session_id() < ms[j].next_session_id(),
{
    lemma_next_id_grows(ms, i + 1, j);
}

/// `claimed` without any `n`.
pub open spec fn without(claimed: Seq<u8>, n: u8) -> Seq<u8> {
    claimed.filter(|x: u8| x != n)
}

impl<H> DeviceManager<H> {
    /// The attachment table, by device key.
    pub closed spec fn attachments(&self) -> Map<u16, AttachmentInfo<H>> {
        self.attachments@
    }

    /// The session table.
    pub closed spec fn sessions(&self) -> Map<u64, DeviceId> {
        self.session_to_device@
    }

    /// The id the next attach grants.
    pub closed spec fn next_session_id(&self) -> u64 {
        self.next_session_id
    }

    /// Whether `id` is attached.
    pub open spec fn attached(&self, id: DeviceId) -> bool {
        self.attachments().contains_key(device_key(id))
    }

    /// Every session id in use is below the next one to grant, so ids are never reused.
    pub open spec fn wf(&self) -> bool {
        &&& forall|sid: u64| #[trigger] self.sessions().contains_key(sid) ==> sid < self.next_session_id()
        &&& self.next_session_id() >= 1
    }

    /// Keeping every session or dropping some, with the same next id, keeps `wf`.
    proof fn lemma_wf_keep(a: &Self, b: &Self)
        requires
            a.wf(),
            b.sessions().dom().subset_of(a.sessions().dom()),
            b.next_session_id() == a.next_session_id(),
        ensures
            b.wf(),
    {
        assert forall|sid: u64| #[trigger] b.sessions().contains_key(sid) implies sid < b.next_session_id() by {
            assert(a.sessions().contains_key(sid));
        }
    }

    pub fn new() -> (m: Self)
        ensures
            m.wf(),
            m.attachments() == Map::<u16, AttachmentInfo<H>>::empty(),
            m.sessions() == Map::<u64, DeviceId>::empty(),
            m.next_session_id() == 1,
    {
        DeviceManager {
            attachments: HashMap::new(),
            next_session_id: 1,
            session_to_device: HashMap::new(),
        }
    }

    /// The id the next attach grants.
    pub fn peek_next_session_id(&self) -> (id: u64)
        ensures
            id == self.next_session_id(),
    {
        self.next_session_id
    }

    /// Whether `device_id` is attached.
    pub fn is_attached(&self, device_id: DeviceId) -> (b: bool)
        ensures
            b == self.attached(device_id),
    {
        self.attachments.contains_key(&key_of(device_id))
    }

    /// Records that `device_id` was opened for `client_addr`: grants it the next
    /// session id. A device that is attached already stays with its holder.
    pub fn attach(
        &mut self,
        device_id: DeviceId,
        client_addr: String,
        handle: H,
        detached_kernel_drivers: Vec<u8>,
    ) -> (r: Result<u64, WolfUsbError>)
        requires
            old(self).wf(),
            old(self).next_session_id() < u64::MAX,
        ensures
            final(self).wf(),
            manager_step(*old(self), *final(self)),
            r is Ok <==> grants_id(*old(self), *final(self)),
            old(self).attached(device_id) ==> {
                &&& r matches Err(WolfUsbError::DeviceAlreadyAttached)
                &&& final(self).attachments() == old(self).attachments()
                &&& final(self).sessions() == old(self).sessions()
                &&& final(self).next_session_id() == old(self).next_session_id()
            },
            !old(self).attached(device_id) ==> {
                &&& r == Ok::<u64, WolfUsbError>(old(self).next_session_id())
                &&& attach_granted(*old(self), *final(self), device_id, old(self).next_session_id())
                &&& final(self).attachments()[device_key(device_id)].handle == handle
                &&& final(self).attachments()[device_key(device_id)].detached_kernel_drivers@
                    == detached_kernel_drivers@
                &&& final(self).attachments()[device_key(device_id)].claimed_interfaces@
                    == Seq::<u8>::empty()
                &&& final(self).attachments()[device_key(device_id)].client_addr@ == client_addr@
            },
    {
        let ghost pre = *self;
        let key = key_of(device_id);
        if self.attachments.contains_key(&key) {
            proof { Self::lemma_wf_keep(&pre, self); }
            return Err(WolfUsbError::DeviceAlreadyAttached);
        }
        let session_id = self.next_session_id;
        self.next_session_id = self.next_session_id + 1;
        self.session_to_device.insert(session_id, device_id);
        self.attachments.insert(
            key,
            AttachmentInfo {
                handle,
                detached_kernel_drivers,
                claimed_interfaces: Vec::new(),
                client_addr,
            },
        );
        proof {
            assert forall|sid: u64| #[trigger] self.sessions().contains_key(sid) implies sid
                < self.next_session_id() by {
                if sid != session_id {
                    assert(pre.sessions().contains_key(sid));
                }
            }
        }
        Ok(session_id)
    }

    /// Whether `session_id` is a session on `device_id`.
    pub fn validate_session(&self, session_id: u64, device_id: DeviceId) -> (r: Result<(), WolfUsbError>)
        ensures
            self.sessions().contains_key(session_id) && self.sessions()[session_id] == device_id
                ==> r is Ok,
            !(self.sessions().contains_key(session_id) && self.sessions()[session_id] == device_id)
                ==> (r matches Err(WolfUsbError::InvalidSession(s)) && s == session_id),
    {
        match self.session_to_device.get(&session_id) {
            Some(id) => {
                if *id == device_id {
                    Ok(())
                } else {
                    Err(WolfUsbError::InvalidSession(session_id))
                }
            },
            None => Err(WolfUsbError::InvalidSession(session_id)),
        }
    }

    /// The handle of an attached device.
    pub fn get_handle(&self, device_id: DeviceId) -> (r: Result<&H, WolfUsbError>)
        ensures
            self.attached(device_id) ==> (r matches Ok(h) && *h == self.attachments()[device_key(
                device_id,
            )].handle),
            !self.attached(device_id) ==> (r matches Err(WolfUsbError::DeviceNotAttached)),
    {
        match self.attachments.get(&key_of(device_id)) {
            Some(a) => Ok(&a.handle),
            None => Err(WolfUsbError::DeviceNotAttached),
        }
    }
}

/// In `state`, detaching session `sid` ran the detach operations of its
/// device's attachment, if the session was known and its device attached.
pub open spec fn detached_with<H, F: Fn(&H, HandleOp) -> Result<(), WolfUsbError>>(
    device: F,
    state: (Map<u16, AttachmentInfo<H>>, Map<u64, DeviceId>),
    sid: u64,
) -> bool {
    state.1.contains_key(sid) && state.0.contains_key(device_key(state.1[sid])) ==> {
        let a = state.0[device_key(state.1[sid])];
        ran_all(
            device,
            a.handle,
            spec_detach_actions(a.claimed_interfaces@, a.detached_kernel_drivers@),
        )
    }
}

/// The operations a detach of an attachment runs, in order.
pub fn detach_actions<H>(a: &AttachmentInfo<H>) -> (ops: Vec<HandleOp>)
    ensures
        ops@ == spec_detach_actions(a.claimed_interfaces@, a.detached_kernel_drivers@),
{
    let mut ops: Vec<HandleOp> = Vec::new();
    let mut i: usize = 0;
    while i < a.claimed_interfaces.len()
        invariant
            i <= a.claimed_interfaces@.len(),
            ops@ == a.claimed_interfaces@.take(i as int).map_values(
                |n: u8| HandleOp::ReleaseInterface(n),
            ),
        decreases a.claimed_interfaces@.len() - i,
    {
        ops.push(HandleOp::ReleaseInterface(a.claimed_interfaces[i]));
        i = i + 1;
        assert(ops@ =~= a.claimed_interfaces@.take(i as int).map_values(
            |n: u8| HandleOp::ReleaseInterface(n),
        ));
    }
    assert(a.claimed_interfaces@.take(i as int) =~= a.claimed_interfaces@);
    let ghost head = ops@;
    let mut j: usize = 0;
    while j < a.detached_kernel_drivers.len()
        invariant
            j <= a.detached_kernel_drivers@.len(),
            ops@ == head + a.detached_kernel_drivers@.take(j as int).map_values(
                |n: u8| HandleOp::AttachKernelDriver(n),
            ),
        decreases a.detached_kernel_drivers@.len() - j,
    {
        ops.push(HandleOp::AttachKernelDriver(a.detached_kernel_drivers[j]));
        j = j + 1;
        assert(ops@ =~= head + a.detached_kernel_drivers@.take(j as int).map_values(
            |n: u8| HandleOp::AttachKernelDriver(n),
        ));
    }
    assert(a.detached_kernel_drivers@.take(j as int) =~= a.detached_kernel_drivers@);
    ops
}

/// Whether session `sid` is the one that holds `d` in `sessions`.
pub open spec fn holds(sessions: Map<u64, DeviceId>, sid: u64, d: DeviceId) -> bool {
    sessions.contains_key(sid) && sessions[sid] == d
}

impl<H> DeviceManager<H> {
    /// Releases `device_id` for the session that holds it: the device
    /// function releases its claimed interfaces and reattaches its detached
    /// kernel drivers (failures there are not fatal), the attachment is
    /// dropped and the session forgotten. A device that is not attached, or a
    /// session that does not hold it, is refused and nothing changes.
    pub fn detach<F: Fn(&H, HandleOp) -> Result<(), WolfUsbError>>(
        &mut self,
        device: &F,
        device_id: DeviceId,
        session_id: u64,
    ) -> (r: Result<(), WolfUsbError>)
        requires
            old(self).wf(),
            forall|h: &H, op: HandleOp| device.requires((h, op)),
        ensures
            final(self).wf(),
            final(self).next_session_id() == old(self).next_session_id(),
            !old(self).attached(device_id) ==> {
                &&& r matches Err(WolfUsbError::DeviceNotAttached)
                &&& final(self).attachments() == old(self).attachments()
                &&& final(self).sessions() == old(self).sessions()
            },
            old(self).attached(device_id) && !holds(old(self).sessions(), session_id, device_id)
                ==> {
                &&& r matches Err(WolfUsbError::InvalidSession(s)) && s == session_id
                &&& final(self).attachments() == old(self).attachments()
                &&& final(self).sessions() == old(self).sessions()
            },
            old(self).attached(device_id) && holds(old(self).sessions(), session_id, device_id)
                ==> {
                let a = old(self).attachments()[device_key(device_id)];
                &&& r is Ok
                &&& detach_done(*old(self), *final(self), device_id, session_id)
                &&& ran_all(
                    *device,
                    a.handle,
                    spec_detach_actions(a.claimed_interfaces@, a.detached_kernel_drivers@),
                )
            },
    {
        let ghost pre = *self;
        let key = key_of(device_id);
        if !self.attachments.contains_key(&key) {
            return Err(WolfUsbError::DeviceNotAttached);
        }
        let owns = match self.session_to_device.get(&session_id) {
            Some(d) => *d == device_id,
            None => false,
        };
        if !owns {
            return Err(WolfUsbError::InvalidSession(session_id));
        }
        let attachment = match self.attachments.remove(&key) {
            Some(a) => a,
            None => {
                proof { Self::lemma_wf_keep(&pre, self); }
                return Err(WolfUsbError::DeviceNotAttached);
            },
        };
        let ops = detach_actions(&attachment);
        let mut i: usize = 0;
        while i < ops.len()
            invariant
                i <= ops@.len(),
                forall|h: &H, op: HandleOp| device.requires((h, op)),
                forall|k: int|
                    #![trigger ops@[k]]
                    0 <= k < i ==> exists|r: Result<(), WolfUsbError>| #[trigger]
                        device.ensures((&attachment.handle, ops@[k]), r),
            decreases ops@.len() - i,
        {
            let _ = device(&attachment.handle, ops[i]);
            i = i + 1;
        }
        self.session_to_device.remove(&session_id);
        proof { Self::lemma_wf_keep(&pre, self); }
        Ok(())
    }

    /// Detaches the device of session `sid`, if the session is known and its
    /// device attached.
    fn detach_session<F: Fn(&H, HandleOp) -> Result<(), WolfUsbError>>(
        &mut self,
        device: &F,
        session_id: u64,
    )
        requires
            old(self).wf(),
            forall|h: &H, op: HandleOp| device.requires((h, op)),
        ensures
            final(self).wf(),
            final(self).next_session_id() == old(self).next_session_id(),
            (final(self).attachments(), final(self).sessions()) == after_session_detach(
                (old(self).attachments(), old(self).sessions()),
                session_id,
            ),
            detached_with(*device, (old(self).attachments(), old(self).sessions()), session_id),
    {
        let found = match self.session_to_device.get(&session_id) {
            Some(d) => Some(*d),
            None => None,
        };
        if let Some(device_id) = found {
            let _ = self.detach(device, device_id, session_id);
        }
        proof {
            reveal(detached_with);
        }
    }

    /// Detaches the device of each listed session, in order (the cleanup when a
    /// client goes away); a session whose device is not attached is skipped.
    pub fn detach_all_for_sessions<F: Fn(&H, HandleOp) -> Result<(), WolfUsbError>>(
        &mut self,
        device: &F,
        session_ids: &[u64],
    )
        requires
            old(self).wf(),
            forall|h: &H, op: HandleOp| device.requires((h, op)),
        ensures
            final(self).wf(),
            final(self).next_session_id() == old(self).next_session_id(),
            (final(self).attachments(), final(self).sessions()) == after_sessions_detach(
                (old(self).attachments(), old(self).sessions()),
                session_ids@,
            ),
            forall|i: int|
                #![trigger session_ids@[i]]
                0 <= i < session_ids@.len() ==> detached_with(
                    *device,
                    after_sessions_detach(
                        (old(self).attachments(), old(self).sessions()),
                        session_ids@.take(i),
                    ),
                    session_ids@[i],
                ),
    {
        let mut i: usize = 0;
        while i < session_ids.len()
            invariant
                i <= session_ids@.len(),
                self.wf(),
                forall|h: &H, op: HandleOp| device.requires((h, op)),
                self.next_session_id() == old(self).next_session_id(),
                (self.attachments(), self.sessions()) == after_sessions_detach(
                    (old(self).attachments(), old(self).sessions()),
                    session_ids@.take(i as int),
                ),
                forall|j: int|
                    #![trigger session_ids@[j]]
                    0 <= j < i ==> detached_with(
                        *device,
                        after_sessions_detach(
                            (old(self).attachments(), old(self).sessions()),
                            session_ids@.take(j),
                        ),
                        session_ids@[j],
                    ),
            decreases session_ids@.len() - i,
        {
            let session_id = session_ids[i];
            let ghost before = (self.attachments(), self.sessions());
            self.detach_session(device, session_id);
            assert(session_ids@.take(i + 1).drop_last() =~= session_ids@.take(i as int));
            assert(detached_with(*device, before, session_ids@[i as int]));
            i = i + 1;
        }
        assert(session_ids@.take(session_ids@.len() as int) =~= session_ids@);
    }

    /// Claims an interface of an attached device (the device function runs
    /// `ClaimInterface` on its handle) and remembers a granted claim for
    /// release at detach.
    pub fn claim_interface<F: Fn(&H, HandleOp) -> Result<(), WolfUsbError>>(
        &mut self,
        device: &F,
        device_id: DeviceId,
        interface_number: u8,
    ) -> (r: Result<(), WolfUsbError>)
        requires
            old(self).wf(),
            forall|h: &H, op: HandleOp| device.requires((h, op)),
        ensures
            final(self).wf(),
            final(self).sessions() == old(self).sessions(),
            final(self).next_session_id() == old(self).next_session_id(),
            final(self).attachments().dom() == old(self).attachments().dom(),
            !old(self).attached(device_id) ==> (r matches Err(WolfUsbError::DeviceNotAttached))
                && final(self).attachments() == old(self).attachments(),
            old(self).attached(device_id) ==> {
                let a = old(self).attachments()[device_key(device_id)];
                let b = final(self).attachments()[device_key(device_id)];
                &&& device.ensures((&a.handle, HandleOp::ClaimInterface(interface_number)), r)
                &&& final(self).attachments() == old(self).attachments().insert(device_key(device_id), b)
                &&& b.handle == a.handle
                &&& b.detached_kernel_drivers == a.detached_kernel_drivers
                &&& b.client_addr == a.client_addr
                &&& r is Ok ==> b.claimed_interfaces@ == a.claimed_interfaces@.push(interface_number)
                &&& r is Err ==> b.claimed_interfaces@ == a.claimed_interfaces@
            },
    {
        let ghost pre = *self;
        let key = key_of(device_id);
        let mut attachment = match self.attachments.remove(&key) {
            Some(a) => a,
            None => {
                proof { Self::lemma_wf_keep(&pre, self); }
                return Err(WolfUsbError::DeviceNotAttached);
            },
        };
        let r = device(&attachment.handle, HandleOp::ClaimInterface(interface_number));
        if r.is_ok() {
            attachment.claimed_interfaces.push(interface_number);
        }
        self.attachments.insert(key, attachment);
        proof { Self::lemma_wf_keep(&pre, self); }
        r
    }

    /// Releases an interface of an attached device (the device function runs
    /// `ReleaseInterface` on its handle) and forgets the claim once released.
    pub fn release_interface<F: Fn(&H, HandleOp) -> Result<(), WolfUsbError>>(
        &mut self,
        device: &F,
        device_id: DeviceId,
        interface_number: u8,
    ) -> (r: Result<(), WolfUsbError>)
        requires
            old(self).wf(),
            forall|h: &H, op: HandleOp| device.requires((h, op)),
        ensures
            final(self).wf(),
            final(self).sessions() == old(self).sessions(),
            final(self).next_session_id() == old(self).next_session_id(),
            final(self).attachments().dom() == old(self).attachments().dom(),
            !old(self).attached(device_id) ==> (r matches Err(WolfUsbError::DeviceNotAttached))
                && final(self).attachments() == old(self).attachments(),
            old(self).attached(device_id) ==> {
                let a = old(self).attachments()[device_key(device_id)];
                let b = final(self).attachments()[device_key(device_id)];
                &&& device.ensures((&a.handle, HandleOp::ReleaseInterface(interface_number)), r)
                &&& final(self).attachments() == old(self).attachments().insert(device_key(device_id), b)
                &&& b.handle == a.handle
                &&& b.detached_kernel_drivers == a.detached_kernel_drivers
                &&& b.client_addr == a.client_addr
                &&& r is Ok ==> b.claimed_interfaces@ == without(
                    a.claimed_interfaces@,
                    interface_number,
                )
                &&& r is Err ==> b.claimed_interfaces@ == a.claimed_interfaces@
            },
    {
        let ghost pre = *self;
        let key = key_of(device_id);
        let mut attachment = match self.attachments.remove(&key) {
            Some(a) => a,
            None => {
                proof { Self::lemma_wf_keep(&pre, self); }
                return Err(WolfUsbError::DeviceNotAttached);
            },
        };
        let r = device(&attachment.handle, HandleOp::ReleaseInterface(interface_number));
        if r.is_ok() {
            attachment.claimed_interfaces = remove_all(&attachment.claimed_interfaces, interface_number);
        }
        self.attachments.insert(key, attachment);
        proof { Self::lemma_wf_keep(&pre, self); }
        r
    }

    /// Sets the active configuration of an attached device (the device
    /// function runs `SetConfiguration` on its handle).
    pub fn set_configuration<F: Fn(&H, HandleOp) -> Result<(), WolfUsbError>>(
        &mut self,
        device: &F,
        device_id: DeviceId,
        configuration: u8,
    ) -> (r: Result<(), WolfUsbError>)
        requires
            forall|h: &H, op: HandleOp| device.requires((h, op)),
        ensures
            final(self).attachments() == old(self).attachments(),
            final(self).sessions() == old(self).sessions(),
            final(self).next_session_id() == old(self).next_session_id(),
            !old(self).attached(device_id) ==> (r matches Err(WolfUsbError::DeviceNotAttached)),
            old(self).attached(device_id) ==> device.ensures(
                (
                    &old(self).attachments()[device_key(device_id)].handle,
                    HandleOp::SetConfiguration(configuration),
                ),
                r,
            ),
    {
        match self.attachments.get(&key_of(device_id)) {
            Some(a) => device(&a.handle, HandleOp::SetConfiguration(configuration)),
            None => Err(WolfUsbError::DeviceNotAttached),
        }
    }
}

/// `v` without any `n` (what `retain(|&x| x != n)` leaves).
fn remove_all(v: &Vec<u8>, n: u8) -> (r: Vec<u8>)
    ensures
        r@ == without(v@, n),
{
    let mut r: Vec<u8> = Vec::new();
    let mut i: usize = 0;
    while i < v.len()
        invariant
            i <= v@.len(),
            r@ == without(v@.take(i as int), n),
        decreases v@.len() - i,
    {
        assert(v@.take(i + 1).drop_last() =~= v@.take(i as int));
        proof {
            reveal_with_fuel(Seq::<u8>::filter, 1);
        }
        if v[i] != n {
            r.push(v[i]);
        }
        i = i + 1;
    }
    assert(v@.take(v@.len() as int) =~= v@);
    r
}

/// The entry of a descriptor tree for one configuration: its number, its
/// interface count, twice the `max_power()` that rusb reports (rusb's value is
/// already in mA, at most 510; doubling it must fit in a `u16`), no power
/// flags, no description, and the settings of its interfaces in order.
pub fn configuration_info(
    number: u8,
    num_interfaces: u8,
    max_power: u16,
    interfaces: Vec<InterfaceInfo>,
) -> (c: ConfigurationInfo)
    requires
        max_power * 2 <= u16::MAX,
    ensures
        c.number == number,
        c.num_interfaces == num_interfaces,
        c.max_power_ma == max_power * 2,
        !c.self_powered,
        !c.remote_wakeup,
        c.description is None,
        c.interfaces@ == interfaces@,
{
    ConfigurationInfo {
        number,
        num_interfaces,
        max_power_ma: max_power * 2,
        self_powered: false,
        remote_wakeup: false,
        description: None,
        interfaces,
    }
}

} // verus!
