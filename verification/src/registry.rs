//! The process-wide registry: devices with their sessions, and media
//! players, mutated as one unit so that cross-entity invariants hold in
//! every observable state.

use vstd::prelude::*;

use crate::domain::{DeviceRole, MediaDevice, MediaDeviceSession, MediaDeviceType, MediaPlayer};
use crate::domain::{
    role_uses_multimedia_flag, same_device_shell, session_base, session_with_volume,
    volume_in_range, VOLUME_SCALE,
};
use crate::errors::{PolicyError, SessionError};

verus! {

/// The device with the multimedia default flag recomputed: among devices of
/// type `t`, the flag becomes "this is the target"; other devices keep their
/// flag.
pub open spec fn with_multimedia_default(d: MediaDevice, t: MediaDeviceType, target: Seq<char>)
    -> MediaDevice {
    if d.device_type == t {
        MediaDevice { is_default_multimedia: d.id@ == target, ..d }
    } else {
        d
    }
}

/// The device with the communications default flag recomputed, as
/// `with_multimedia_default` does for the multimedia flag.
pub open spec fn with_communications_default(d: MediaDevice, t: MediaDeviceType, target: Seq<char>)
    -> MediaDevice {
    if d.device_type == t {
        MediaDevice { is_default_communications: d.id@ == target, ..d }
    } else {
        d
    }
}

/// The flag rewrite a successful default-endpoint assignment applies to one
/// tracked device: the flag of the requested role is recomputed among
/// devices of the target's type.
pub open spec fn with_role_default(
    d: MediaDevice,
    t: MediaDeviceType,
    role: DeviceRole,
    target: Seq<char>,
) -> MediaDevice {
    if role_uses_multimedia_flag(role) {
        with_multimedia_default(d, t, target)
    } else {
        with_communications_default(d, t, target)
    }
}

/// The flag rewrite a device arrival applies to the devices already
/// tracked: each default flag the arriving device claims is cleared on the
/// other devices of its type.
pub open spec fn arrival_adjusted(d: MediaDevice, arrived: MediaDevice) -> MediaDevice {
    let d1 = if arrived.is_default_multimedia {
        with_multimedia_default(d, arrived.device_type, arrived.id@)
    } else {
        d
    };
    if arrived.is_default_communications {
        with_communications_default(d1, arrived.device_type, arrived.id@)
    } else {
        d1
    }
}

/// The shared registry of devices, sessions and media players.
pub struct MediaRegistry {
    /// Tracked endpoints, in discovery order.
    pub devices: Vec<MediaDevice>,
    /// Known media players, in registration order.
    pub players: Vec<MediaPlayer>,
}

impl MediaRegistry {
    /// Device ids are unique across the registry.
    pub open spec fn device_ids_unique(self) -> bool {
        forall|i: int, j: int|
            0 <= i < j < self.devices@.len() ==> (#[trigger] self.devices@[i]).id@ != (
            #[trigger] self.devices@[j]).id@
    }

    /// Among devices of one type, at most one holds the multimedia default
    /// flag and at most one the communications default flag.
    pub open spec fn defaults_unique(self) -> bool {
        forall|i: int, j: int|
            0 <= i < j < self.devices@.len() && (#[trigger] self.devices@[i]).device_type == (
            #[trigger] self.devices@[j]).device_type ==> !(self.devices@[i].is_default_multimedia
                && self.devices@[j].is_default_multimedia) && !(
            self.devices@[i].is_default_communications
                && self.devices@[j].is_default_communications)
    }

    /// Player umids are unique across the registry.
    pub open spec fn player_umids_unique(self) -> bool {
        forall|i: int, j: int|
            0 <= i < j < self.players@.len() ==> (#[trigger] self.players@[i]).umid@ != (
            #[trigger] self.players@[j]).umid@
    }

    /// At most one player carries the default flag.
    pub open spec fn player_default_unique(self) -> bool {
        forall|i: int, j: int|
            0 <= i < j < self.players@.len() ==> !((#[trigger] self.players@[i]).is_default && (
            #[trigger] self.players@[j]).is_default)
    }

    /// Registry invariant: every device is well formed and the cross-entity
    /// uniqueness properties hold.
    pub open spec fn wf(self) -> bool {
        &&& forall|i: int| 0 <= i < self.devices@.len() ==> (#[trigger] self.devices@[i]).wf()
        &&& self.device_ids_unique()
        &&& self.defaults_unique()
        &&& self.player_umids_unique()
        &&& self.player_default_unique()
    }

    /// Whether a device with the given id is tracked.
    pub open spec fn has_device(self, id: Seq<char>) -> bool {
        exists|i: int|
            0 <= i < self.devices@.len() && (#[trigger] self.devices@[i]).id@ == id
    }

    /// The set of tracked device ids.
    pub open spec fn device_ids(self) -> Set<Seq<char>> {
        Set::new(|id: Seq<char>| self.has_device(id))
    }

    /// Whether a player with the given umid is known.
    pub open spec fn has_player(self, umid: Seq<char>) -> bool {
        exists|i: int|
            0 <= i < self.players@.len() && (#[trigger] self.players@[i]).umid@ == umid
    }

    /// An empty registry.
    pub fn new() -> (r: Self)
        ensures
            r.wf(),
            r.devices@.len() == 0,
            r.players@.len() == 0,
    {
        MediaRegistry { devices: Vec::new(), players: Vec::new() }
    }

    /// Index of the tracked device with the given id.
    fn find_device(&self, id: &String) -> (r: Option<usize>)
        ensures
            match r {
                Some(i) => i < self.devices@.len() && self.devices@[i as int].id@ == id@,
                None => !self.has_device(id@),
            },
    {
        let mut i: usize = 0;
        while i < self.devices.len()
            invariant
                i <= self.devices@.len(),
                forall|j: int| 0 <= j < i ==> (#[trigger] self.devices@[j]).id@ != id@,
            decreases self.devices@.len() - i,
        {
            if self.devices[i].id == *id {
                return Some(i);
            }
            i = i + 1;
        }
        None
    }

    /// Index of the tracked device carrying `id`; meaningful only when
    /// `has_device(id)` holds (unique by `device_ids_unique`).
    pub open spec fn device_index(self, id: Seq<char>) -> int {
        choose|i: int| 0 <= i < self.devices@.len() && (#[trigger] self.devices@[i]).id@ == id
    }

    /// The tracked device carrying `id`; meaningful only when
    /// `has_device(id)` holds.
    pub open spec fn device_at(self, id: Seq<char>) -> MediaDevice {
        self.devices@[self.device_index(id)]
    }

    /// The sessions bound to the device carrying `id`, and the empty
    /// sequence when no such device is tracked: a session cannot outlive
    /// its owning device.
    pub open spec fn sessions_of(self, id: Seq<char>) -> Seq<crate::domain::MediaDeviceSession> {
        if self.has_device(id) {
            self.device_at(id).sessions@
        } else {
            Seq::empty()
        }
    }

    /// Applies a device-removal notification: the device carrying `id` is
    /// dropped, together with every session it owns.  Unknown ids are
    /// ignored: the mirror already agrees with the OS.
    pub fn on_device_removed(&mut self, id: &String)
        requires
            old(self).wf(),
        ensures
            final(self).wf(),
            final(self).players == old(self).players,
            !old(self).has_device(id@) ==> *final(self) == *old(self),
            old(self).has_device(id@) ==> final(self).devices@ == old(self).devices@.remove(
                old(self).device_index(id@),
            ),
            forall|x: Seq<char>|
                final(self).has_device(x) <==> (old(self).has_device(x) && x != id@),
            !final(self).has_device(id@),
            final(self).sessions_of(id@) == Seq::<crate::domain::MediaDeviceSession>::empty(),
    {
        let found = self.find_device(id);
        match found {
            None => {
                proof {
                    assert(forall|x: Seq<char>|
                        self.has_device(x) <==> (old(self).has_device(x) && x != id@));
                }
            },
            Some(idx) => {
                let ghost pre = self.devices@;
                self.devices.remove(idx);
                proof {
                    let ci = old(self).device_index(id@);
                    assert(0 <= ci < pre.len() && pre[ci].id@ == id@);
                    assert(ci == idx as int);
                    assert forall|x: Seq<char>|
                        self.has_device(x) implies (old(self).has_device(x) && x != id@) by {
                        let j = choose|j: int|
                            0 <= j < self.devices@.len() && (#[trigger] self.devices@[j]).id@ == x;
                        let i = if j < idx as int {
                            j
                        } else {
                            j + 1
                        };
                        assert(pre[i].id@ == x);
                        assert(pre[i].id@ != id@);
                    }
                    assert forall|x: Seq<char>|
                        old(self).has_device(x) && x != id@ implies self.has_device(x) by {
                        let i = choose|i: int|
                            0 <= i < pre.len() && (#[trigger] pre[i]).id@ == x;
                        let j = if i < idx as int {
                            i
                        } else {
                            i - 1
                        };
                        assert(self.devices@[j].id@ == x);
                    }
                    assert forall|i: int| 0 <= i < self.devices@.len() implies (
                    #[trigger] self.devices@[i]).wf() by {
                        if i < idx as int {
                            assert(self.devices@[i] == pre[i]);
                        } else {
                            assert(self.devices@[i] == pre[i + 1]);
                        }
                    }
                    assert(self.wf());
                }
            },
        }
    }

    /// Recomputes the multimedia default flag among devices of type `t`:
    /// exactly the device carrying `target` (if tracked and of that type)
    /// keeps it.
    fn set_multimedia_default(&mut self, t: MediaDeviceType, target: &String)
        requires
            old(self).wf(),
        ensures
            final(self).wf(),
            final(self).players == old(self).players,
            final(self).devices@.len() == old(self).devices@.len(),
            forall|j: int|
                0 <= j < old(self).devices@.len() ==> final(self).devices@[j]
                    == with_multimedia_default(old(self).devices@[j], t, target@),
    {
        let n = self.devices.len();
        let mut i: usize = 0;
        while i < n
            invariant
                i <= n,
                n == self.devices@.len(),
                self.devices@.len() == old(self).devices@.len(),
                self.players == old(self).players,
                forall|j: int|
                    0 <= j < i ==> self.devices@[j] == with_multimedia_default(
                        old(self).devices@[j],
                        t,
                        target@,
                    ),
                forall|j: int| i <= j < n ==> self.devices@[j] == old(self).devices@[j],
            decreases n - i,
        {
            if self.devices[i].device_type == t {
                let is_target = self.devices[i].id == *target;
                let d = &mut self.devices[i];
                d.is_default_multimedia = is_target;
            }
            i = i + 1;
        }
        proof {
            lemma_flag_rewrite_wf(*old(self), *self, t, target@, true);
        }
    }

    /// Recomputes the communications default flag among devices of type
    /// `t`, as `set_multimedia_default` does for the multimedia flag.
    fn set_communications_default(&mut self, t: MediaDeviceType, target: &String)
        requires
            old(self).wf(),
        ensures
            final(self).wf(),
            final(self).players == old(self).players,
            final(self).devices@.len() == old(self).devices@.len(),
            forall|j: int|
                0 <= j < old(self).devices@.len() ==> final(self).devices@[j]
                    == with_communications_default(old(self).devices@[j], t, target@),
    {
        let n = self.devices.len();
        let mut i: usize = 0;
        while i < n
            invariant
                i <= n,
                n == self.devices@.len(),
                self.devices@.len() == old(self).devices@.len(),
                self.players == old(self).players,
                forall|j: int|
                    0 <= j < i ==> self.devices@[j] == with_communications_default(
                        old(self).devices@[j],
                        t,
                        target@,
                    ),
                forall|j: int| i <= j < n ==> self.devices@[j] == old(self).devices@[j],
            decreases n - i,
        {
            if self.devices[i].device_type == t {
                let is_target = self.devices[i].id == *target;
                let d = &mut self.devices[i];
                d.is_default_communications = is_target;
            }
            i = i + 1;
        }
        proof {
            lemma_flag_rewrite_wf(*old(self), *self, t, target@, false);
        }
    }

    /// Applies a default-endpoint assignment to the mirror.
    ///
    /// Fails with `DeviceNotFound`, changing nothing, when `device_id` is
    /// not tracked.  On success the default flag of the requested role is
    /// recomputed among the devices of the target's type: the target gains
    /// it and the previous holder loses it, in the same step.
    pub fn set_default_endpoint(&mut self, device_id: &String, role: DeviceRole) -> (r: Result<
        (),
        PolicyError,
    >)
        requires
            old(self).wf(),
        ensures
            final(self).wf(),
            final(self).players == old(self).players,
            !old(self).has_device(device_id@) ==> r == Err::<(), PolicyError>(
                PolicyError::DeviceNotFound,
            ) && *final(self) == *old(self),
            old(self).has_device(device_id@) ==> r == Ok::<(), PolicyError>(())
                && final(self).devices@.len() == old(self).devices@.len() && (forall|j: int|
                0 <= j < old(self).devices@.len() ==> final(self).devices@[j] == with_role_default(
                    old(self).devices@[j],
                    old(self).device_at(device_id@).device_type,
                    role,
                    device_id@,
                )),
            forall|x: Seq<char>| final(self).has_device(x) <==> old(self).has_device(x),
    {
        let found = self.find_device(device_id);
        match found {
            None => Err(PolicyError::DeviceNotFound),
            Some(idx) => {
                proof {
                    let ci = old(self).device_index(device_id@);
                    assert(0 <= ci < old(self).devices@.len() && old(self).devices@[ci].id@
                        == device_id@);
                    assert(ci == idx as int);
                }
                let t = self.devices[idx].device_type;
                match role {
                    DeviceRole::Communications => self.set_communications_default(t, device_id),
                    _ => self.set_multimedia_default(t, device_id),
                }
                proof {
                    assert forall|x: Seq<char>|
                        self.has_device(x) <==> old(self).has_device(x) by {
                        if self.has_device(x) {
                            let j = choose|j: int|
                                0 <= j < self.devices@.len() && (#[trigger] self.devices@[j]).id@
                                    == x;
                            assert(self.devices@[j] == with_role_default(
                                old(self).devices@[j],
                                t,
                                role,
                                device_id@,
                            ));
                            assert(old(self).devices@[j].id@ == x);
                        }
                        if old(self).has_device(x) {
                            let j = choose|j: int|
                                0 <= j < old(self).devices@.len() && (
                                #[trigger] old(self).devices@[j]).id@ == x;
                            assert(self.devices@[j] == with_role_default(
                                old(self).devices@[j],
                                t,
                                role,
                                device_id@,
                            ));
                            assert(self.devices@[j].id@ == x);
                        }
                    }
                }
                Ok(())
            },
        }
    }

    /// Applies a device-arrival notification (or one step of enumeration).
    ///
    /// A stale entry with the same id is dropped first; every default flag
    /// the arriving device claims is cleared on the other devices of its
    /// type; then the device is tracked with exactly the reported fields.
    pub fn on_device_added(&mut self, device: MediaDevice)
        requires
            old(self).wf(),
            device.wf(),
        ensures
            final(self).wf(),
            final(self).players == old(self).players,
            forall|x: Seq<char>|
                final(self).has_device(x) <==> (old(self).has_device(x) || x == device.id@),
            final(self).device_ids() == old(self).device_ids().insert(device.id@),
            final(self).devices@.len() >= 1,
            final(self).devices@.last() == device,
            final(self).devices@ == arrival_base(*old(self), device).map_values(
                |d: MediaDevice| arrival_adjusted(d, device),
            ).push(device),
    {
        let ghost pre = *old(self);
        self.on_device_removed(&device.id);
        let ghost removed = *self;
        let ghost base = self.devices@;
        proof {
            assert(base == arrival_base(pre, device));
        }
        if device.is_default_multimedia {
            self.set_multimedia_default(device.device_type, &device.id);
        }
        let ghost mid = self.devices@;
        proof {
            assert forall|j: int| 0 <= j < base.len() implies mid[j] == (
            if device.is_default_multimedia {
                with_multimedia_default(base[j], device.device_type, device.id@)
            } else {
                base[j]
            }) by {}
        }
        if device.is_default_communications {
            self.set_communications_default(device.device_type, &device.id);
        }
        let ghost adjusted = self.devices@;
        proof {
            assert forall|j: int| 0 <= j < base.len() implies adjusted[j] == arrival_adjusted(
                base[j],
                device,
            ) by {
                assert(mid[j] == (if device.is_default_multimedia {
                    with_multimedia_default(base[j], device.device_type, device.id@)
                } else {
                    base[j]
                }));
            }
            assert(adjusted.len() == base.len());
            assert(adjusted =~= base.map_values(|d: MediaDevice| arrival_adjusted(d, device)));
            // No survivor carries the arriving id: the stale entry was
            // dropped first.
            assert forall|j: int| 0 <= j < adjusted.len() implies (#[trigger] adjusted[j]).id@
                != device.id@ by {
                assert(adjusted[j].id@ == base[j].id@);
                if base[j].id@ == device.id@ {
                    assert(removed.devices@[j].id@ == device.id@);
                    assert(removed.has_device(device.id@));
                }
            }
        }
        self.devices.push(device);
        proof {
            let post = *self;
            let n = adjusted.len() as int;
            assert(post.devices@ == adjusted.push(device));
            assert(post.devices@[n] == device);
            assert forall|x: Seq<char>|
                post.has_device(x) <==> (pre.has_device(x) || x == device.id@) by {
                if post.has_device(x) && x != device.id@ {
                    let j = choose|j: int|
                        0 <= j < post.devices@.len() && (#[trigger] post.devices@[j]).id@ == x;
                    assert(j < n);
                    assert(adjusted[j].id@ == base[j].id@);
                    assert(removed.devices@[j].id@ == x);
                    assert(removed.has_device(x));
                }
                if pre.has_device(x) && x != device.id@ {
                    assert(removed.has_device(x));
                    let j = choose|j: int|
                        0 <= j < base.len() && (#[trigger] base[j]).id@ == x;
                    assert(adjusted[j].id@ == x);
                    assert(post.devices@[j].id@ == x);
                }
            }
            assert(post.device_ids() =~= pre.device_ids().insert(device.id@));
            assert forall|i: int| 0 <= i < post.devices@.len() implies (
            #[trigger] post.devices@[i]).wf() by {
                if i < n {
                    assert(adjusted[i] == arrival_adjusted(base[i], device));
                    assert(base[i].wf());
                }
            }
            assert forall|i: int, j: int| 0 <= i < j < post.devices@.len() implies (
            #[trigger] post.devices@[i]).id@ != (#[trigger] post.devices@[j]).id@ by {
                if j < n {
                    assert(adjusted[i].id@ == base[i].id@ && adjusted[j].id@ == base[j].id@);
                    assert(removed.devices@[i].id@ != removed.devices@[j].id@);
                } else {
                    assert(adjusted[i].id@ != device.id@);
                }
            }
            assert forall|i: int, j: int|
                0 <= i < j < post.devices@.len() && (#[trigger] post.devices@[i]).device_type == (
            #[trigger] post.devices@[j]).device_type implies !(
            post.devices@[i].is_default_multimedia && post.devices@[j].is_default_multimedia) && !(
            post.devices@[i].is_default_communications
                && post.devices@[j].is_default_communications) by {
                if j < n {
                    assert(adjusted[i] == arrival_adjusted(base[i], device));
                    assert(adjusted[j] == arrival_adjusted(base[j], device));
                    assert(removed.devices@[i].wf() && removed.devices@[j].wf());
                    assert(!(base[i].is_default_multimedia && base[j].is_default_multimedia) && !(
                    base[i].is_default_communications && base[j].is_default_communications));
                } else {
                    assert(post.devices@[j] == device);
                    assert(adjusted[i] == arrival_adjusted(base[i], device));
                    assert(adjusted[i].id@ != device.id@);
                }
            }
            assert(post.wf());
        }
    }

    /// Applies a session-created notification from the session manager of
    /// the device carrying `device_id`.  A notification for an untracked
    /// device is dropped.
    pub fn on_session_created(&mut self, device_id: &String, session: MediaDeviceSession)
        requires
            old(self).wf(),
            session.wf(),
        ensures
            final(self).wf(),
            final(self).players == old(self).players,
            forall|x: Seq<char>| final(self).has_device(x) <==> old(self).has_device(x),
            !old(self).has_device(device_id@) ==> *final(self) == *old(self),
            old(self).has_device(device_id@) ==> {
                let di = old(self).device_index(device_id@);
                &&& final(self).devices@.len() == old(self).devices@.len()
                &&& (forall|j: int|
                    0 <= j < old(self).devices@.len() && j != di ==> final(self).devices@[j]
                        == old(self).devices@[j])
                &&& same_device_shell(final(self).devices@[di], old(self).devices@[di])
                &&& final(self).devices@[di].sessions@ == session_base(
                    old(self).device_at(device_id@),
                    session,
                ).push(session)
                &&& final(self).sessions_of(device_id@) == session_base(
                    old(self).device_at(device_id@),
                    session,
                ).push(session)
                &&& (forall|x: Seq<char>|
                    final(self).device_at(device_id@).has_session(x) <==> (old(self).device_at(
                        device_id@,
                    ).has_session(x) || x == session.instance_id@))
            },
    {
        let found = self.find_device(device_id);
        match found {
            None => {},
            Some(idx) => {
                let ghost pre = *self;
                proof {
                    lemma_found_is_index(*old(self), device_id@, idx as int);
                }
                let mut d = self.devices.remove(idx);
                d.upsert_session(session);
                self.devices.insert(idx, d);
                proof {
                    assert(self.devices@ =~= pre.devices@.update(
                        idx as int,
                        self.devices@[idx as int],
                    ));
                    lemma_update_device_keeps_wf(pre, *self, idx as int);
                    assert(self.device_index(device_id@) == idx as int) by {
                        lemma_found_is_index(*self, device_id@, idx as int);
                    }
                }
            },
        }
    }

    /// Applies a session-disconnected (or expired) notification: the
    /// session carrying `instance_id` is dropped from the device carrying
    /// `device_id`.  Notifications for untracked devices or sessions are
    /// dropped.
    pub fn on_session_disconnected(&mut self, device_id: &String, instance_id: &String)
        requires
            old(self).wf(),
        ensures
            final(self).wf(),
            final(self).players == old(self).players,
            forall|x: Seq<char>| final(self).has_device(x) <==> old(self).has_device(x),
            !old(self).has_device(device_id@) ==> *final(self) == *old(self),
            old(self).has_device(device_id@) ==> {
                let di = old(self).device_index(device_id@);
                &&& final(self).devices@.len() == old(self).devices@.len()
                &&& (forall|j: int|
                    0 <= j < old(self).devices@.len() && j != di ==> final(self).devices@[j]
                        == old(self).devices@[j])
                &&& same_device_shell(final(self).devices@[di], old(self).devices@[di])
                &&& !final(self).device_at(device_id@).has_session(instance_id@)
                &&& (forall|x: Seq<char>|
                    final(self).device_at(device_id@).has_session(x) <==> (old(self).device_at(
                        device_id@,
                    ).has_session(x) && x != instance_id@))
                &&& (old(self).device_at(device_id@).has_session(instance_id@) ==> final(self).devices@[di].sessions@ == old(self).devices@[di].sessions@.remove(
                    old(self).devices@[di].session_index(instance_id@),
                ))
                &&& (!old(self).device_at(device_id@).has_session(instance_id@) ==> final(self).devices@[di] == old(self).devices@[di])
            },
    {
        let found = self.find_device(device_id);
        match found {
            None => {},
            Some(idx) => {
                let ghost pre = *self;
                proof {
                    lemma_found_is_index(*old(self), device_id@, idx as int);
                }
                let mut d = self.devices.remove(idx);
                d.remove_session(instance_id);
                self.devices.insert(idx, d);
                proof {
                    assert(self.devices@ =~= pre.devices@.update(
                        idx as int,
                        self.devices@[idx as int],
                    ));
                    lemma_update_device_keeps_wf(pre, *self, idx as int);
                    assert(self.device_index(device_id@) == idx as int) by {
                        lemma_found_is_index(*self, device_id@, idx as int);
                    }
                }
            },
        }
    }

    /// Applies an echoed session volume/mute change.  Notifications for
    /// untracked devices or sessions are dropped.
    pub fn on_session_volume_changed(
        &mut self,
        device_id: &String,
        instance_id: &String,
        level: u32,
        muted: bool,
    )
        requires
            old(self).wf(),
            level <= VOLUME_SCALE,
        ensures
            final(self).wf(),
            final(self).players == old(self).players,
            forall|x: Seq<char>| final(self).has_device(x) <==> old(self).has_device(x),
            !old(self).has_device(device_id@) ==> *final(self) == *old(self),
            old(self).has_device(device_id@) ==> {
                let di = old(self).device_index(device_id@);
                &&& final(self).devices@.len() == old(self).devices@.len()
                &&& (forall|j: int|
                    0 <= j < old(self).devices@.len() && j != di ==> final(self).devices@[j]
                        == old(self).devices@[j])
                &&& same_device_shell(final(self).devices@[di], old(self).devices@[di])
                &&& (old(self).device_at(device_id@).has_session(instance_id@) ==> final(self).devices@[di].sessions@ == old(self).devices@[di].sessions@.update(
                    old(self).devices@[di].session_index(instance_id@),
                    session_with_volume(
                        old(self).devices@[di].session_at(instance_id@),
                        level,
                        muted,
                    ),
                ))
                &&& (!old(self).device_at(device_id@).has_session(instance_id@) ==> final(self).devices@[di] == old(self).devices@[di])
            },
    {
        let found = self.find_device(device_id);
        match found {
            None => {},
            Some(idx) => {
                let ghost pre = *self;
                proof {
                    lemma_found_is_index(*old(self), device_id@, idx as int);
                }
                let mut d = self.devices.remove(idx);
                d.apply_session_volume(instance_id, level, muted);
                self.devices.insert(idx, d);
                proof {
                    assert(self.devices@ =~= pre.devices@.update(
                        idx as int,
                        self.devices@[idx as int],
                    ));
                    lemma_update_device_keeps_wf(pre, *self, idx as int);
                }
            },
        }
    }

    /// Applies an echoed endpoint volume/mute change.  Notifications for
    /// untracked devices are dropped.
    pub fn on_device_volume_changed(&mut self, device_id: &String, level: u32, muted: bool)
        requires
            old(self).wf(),
            level <= VOLUME_SCALE,
        ensures
            final(self).wf(),
            final(self).players == old(self).players,
            forall|x: Seq<char>| final(self).has_device(x) <==> old(self).has_device(x),
            !old(self).has_device(device_id@) ==> *final(self) == *old(self),
            old(self).has_device(device_id@) ==> {
                let di = old(self).device_index(device_id@);
                &&& final(self).devices@.len() == old(self).devices@.len()
                &&& (forall|j: int|
                    0 <= j < old(self).devices@.len() && j != di ==> final(self).devices@[j]
                        == old(self).devices@[j])
                &&& final(self).devices@[di] == device_with_volume(
                    old(self).devices@[di],
                    level,
                    muted,
                )
            },
    {
        let found = self.find_device(device_id);
        match found {
            None => {},
            Some(idx) => {
                let ghost pre = *self;
                proof {
                    lemma_found_is_index(*old(self), device_id@, idx as int);
                }
                let mut d = self.devices.remove(idx);
                d.on_volume_changed(level, muted);
                self.devices.insert(idx, d);
                proof {
                    assert(self.devices@ =~= pre.devices@.update(
                        idx as int,
                        self.devices@[idx as int],
                    ));
                    assert(self.devices@[idx as int] == device_with_volume(
                        pre.devices@[idx as int],
                        level,
                        muted,
                    ));
                    lemma_update_device_keeps_wf(pre, *self, idx as int);
                }
            },
        }
    }

    /// Requests a session volume change: validates the level, confirms the
    /// session is still live, and leaves the mirror to the echoed
    /// notification.  An out-of-range level is rejected before anything
    /// else, a torn-down session with `SessionGone`.
    pub fn set_session_volume(&mut self, device_id: &String, instance_id: &String, level: i64)
        -> (r: Result<(), SessionError>)
        requires
            old(self).wf(),
        ensures
            *final(self) == *old(self),
            !volume_in_range(level) ==> r == Err::<(), SessionError>(SessionError::OutOfRange),
            volume_in_range(level) && !(old(self).has_device(device_id@) && old(self).device_at(
                device_id@,
            ).has_session(instance_id@)) ==> r == Err::<(), SessionError>(
                SessionError::SessionGone,
            ),
            volume_in_range(level) && old(self).has_device(device_id@) && old(self).device_at(
                device_id@,
            ).has_session(instance_id@) ==> r == Ok::<(), SessionError>(()),
    {
        if level < 0 || level > VOLUME_SCALE as i64 {
            return Err(SessionError::OutOfRange);
        }
        let found = self.find_device(device_id);
        match found {
            None => Err(SessionError::SessionGone),
            Some(idx) => {
                proof {
                    lemma_found_is_index(*old(self), device_id@, idx as int);
                }
                let d = &self.devices[idx];
                match d.find_session(instance_id) {
                    None => Err(SessionError::SessionGone),
                    Some(_) => Ok(()),
                }
            },
        }
    }

    /// Requests a session mute change; fails with `SessionGone` when the
    /// session is no longer live.  The mirror follows the echo.
    pub fn set_session_muted(&mut self, device_id: &String, instance_id: &String, _muted: bool)
        -> (r: Result<(), SessionError>)
        requires
            old(self).wf(),
        ensures
            *final(self) == *old(self),
            r == Ok::<(), SessionError>(()) <==> (old(self).has_device(device_id@) && old(self).device_at(device_id@).has_session(instance_id@)),
            r is Err ==> r == Err::<(), SessionError>(SessionError::SessionGone),
    {
        let found = self.find_device(device_id);
        match found {
            None => Err(SessionError::SessionGone),
            Some(idx) => {
                proof {
                    lemma_found_is_index(*old(self), device_id@, idx as int);
                }
                let d = &self.devices[idx];
                match d.find_session(instance_id) {
                    None => Err(SessionError::SessionGone),
                    Some(_) => Ok(()),
                }
            },
        }
    }

    /// Requests an endpoint volume change: validates the level first, then
    /// confirms the device is tracked.  The mirror follows the echo.
    pub fn set_device_volume(&mut self, device_id: &String, level: i64) -> (r: Result<
        (),
        PolicyError,
    >)
        requires
            old(self).wf(),
        ensures
            *final(self) == *old(self),
            !volume_in_range(level) ==> r == Err::<(), PolicyError>(PolicyError::OutOfRange),
            volume_in_range(level) && !old(self).has_device(device_id@) ==> r == Err::<
                (),
                PolicyError,
            >(PolicyError::DeviceNotFound),
            volume_in_range(level) && old(self).has_device(device_id@) ==> r == Ok::<
                (),
                PolicyError,
            >(()),
    {
        if level < 0 || level > VOLUME_SCALE as i64 {
            return Err(PolicyError::OutOfRange);
        }
        let found = self.find_device(device_id);
        match found {
            None => Err(PolicyError::DeviceNotFound),
            Some(_) => Ok(()),
        }
    }

    /// Requests an endpoint mute change; fails with `DeviceNotFound` for an
    /// untracked device.  The mirror follows the echo.
    pub fn set_device_muted(&mut self, device_id: &String, _muted: bool) -> (r: Result<
        (),
        PolicyError,
    >)
        requires
            old(self).wf(),
        ensures
            *final(self) == *old(self),
            r == Ok::<(), PolicyError>(()) <==> old(self).has_device(device_id@),
            r is Err ==> r == Err::<(), PolicyError>(PolicyError::DeviceNotFound),
    {
        let found = self.find_device(device_id);
        match found {
            None => Err(PolicyError::DeviceNotFound),
            Some(_) => Ok(()),
        }
    }

    /// The default device of the given type for the given role, if any is
    /// tracked: the device whose corresponding default flag is set.  After
    /// a successful default-endpoint assignment this query reflects the
    /// change.
    pub fn default_device(&self, device_type: MediaDeviceType, role: DeviceRole) -> (r: Option<
        &MediaDevice,
    >)
        ensures
            match r {
                Some(d) => d.device_type == device_type && d.default_flag(role) && (exists|i: int|
                    0 <= i < self.devices@.len() && #[trigger] self.devices@[i] == *d),
                None => forall|i: int|
                    0 <= i < self.devices@.len() && (#[trigger] self.devices@[i]).device_type
                        == device_type ==> !self.devices@[i].default_flag(role),
            },
    {
        let mut i: usize = 0;
        while i < self.devices.len()
            invariant
                i <= self.devices@.len(),
                forall|j: int|
                    0 <= j < i && (#[trigger] self.devices@[j]).device_type == device_type
                        ==> !self.devices@[j].default_flag(role),
            decreases self.devices@.len() - i,
        {
            if self.devices[i].device_type == device_type && self.devices[i].reads_default_flag(
                role,
            ) {
                return Some(&self.devices[i]);
            }
            i = i + 1;
        }
        None
    }

    /// The tracked devices, each with its live sessions.
    pub fn list_devices(&self) -> (r: &Vec<MediaDevice>)
        ensures
            r == &self.devices,
    {
        &self.devices
    }

    /// The known media players, evicted entries excluded by the sweep.
    pub fn list_players(&self) -> (r: &Vec<MediaPlayer>)
        ensures
            r == &self.players,
    {
        &self.players
    }

    /// Index of the known player carrying `umid`; meaningful only when
    /// `has_player(umid)` holds (unique by `player_umids_unique`).
    pub open spec fn player_index(self, umid: Seq<char>) -> int {
        choose|i: int| 0 <= i < self.players@.len() && (#[trigger] self.players@[i]).umid@ == umid
    }

    /// The known player carrying `umid`; meaningful only when
    /// `has_player(umid)` holds.
    pub open spec fn player_at(self, umid: Seq<char>) -> MediaPlayer {
        self.players@[self.player_index(umid)]
    }

    /// Index of the known player with the given umid.
    fn find_player(&self, umid: &String) -> (r: Option<usize>)
        ensures
            match r {
                Some(i) => i < self.players@.len() && self.players@[i as int].umid@ == umid@,
                None => !self.has_player(umid@),
            },
    {
        let mut i: usize = 0;
        while i < self.players.len()
            invariant
                i <= self.players@.len(),
                forall|j: int| 0 <= j < i ==> (#[trigger] self.players@[j]).umid@ != umid@,
            decreases self.players@.len() - i,
        {
            if self.players[i].umid == *umid {
                return Some(i);
            }
            i = i + 1;
        }
        None
    }

    /// Drops the entry carrying `umid`, if one is known.
    fn drop_player(&mut self, umid: &String)
        requires
            old(self).wf(),
        ensures
            final(self).wf(),
            final(self).devices == old(self).devices,
            !old(self).has_player(umid@) ==> *final(self) == *old(self),
            old(self).has_player(umid@) ==> final(self).players@ == old(self).players@.remove(
                old(self).player_index(umid@),
            ),
            forall|x: Seq<char>|
                final(self).has_player(x) <==> (old(self).has_player(x) && x != umid@),
            !final(self).has_player(umid@),
    {
        let found = self.find_player(umid);
        match found {
            None => {
                proof {
                    assert(forall|x: Seq<char>|
                        self.has_player(x) <==> (old(self).has_player(x) && x != umid@));
                }
            },
            Some(idx) => {
                let ghost pre = self.players@;
                self.players.remove(idx);
                proof {
                    let ci = old(self).player_index(umid@);
                    assert(0 <= ci < pre.len() && pre[ci].umid@ == umid@);
                    assert(ci == idx as int);
                    assert forall|x: Seq<char>|
                        self.has_player(x) implies (old(self).has_player(x) && x != umid@) by {
                        let j = choose|j: int|
                            0 <= j < self.players@.len() && (#[trigger] self.players@[j]).umid@
                                == x;
                        let i = if j < idx as int {
                            j
                        } else {
                            j + 1
                        };
                        assert(pre[i].umid@ == x);
                        assert(pre[i].umid@ != umid@);
                    }
                    assert forall|x: Seq<char>|
                        old(self).has_player(x) && x != umid@ implies self.has_player(x) by {
                        let i = choose|i: int|
                            0 <= i < pre.len() && (#[trigger] pre[i]).umid@ == x;
                        let j = if i < idx as int {
                            i
                        } else {
                            i - 1
                        };
                        assert(self.players@[j].umid@ == x);
                    }
                    assert(self.wf());
                }
            },
        }
    }

    /// Clears the default flag on every known player.
    fn clear_player_defaults(&mut self)
        requires
            old(self).wf(),
        ensures
            final(self).wf(),
            final(self).devices == old(self).devices,
            final(self).players@.len() == old(self).players@.len(),
            forall|j: int|
                0 <= j < old(self).players@.len() ==> final(self).players@[j]
                    == crate::domain::player_cleared(old(self).players@[j]),
    {
        let n = self.players.len();
        let mut i: usize = 0;
        while i < n
            invariant
                i <= n,
                n == self.players@.len(),
                self.players@.len() == old(self).players@.len(),
                self.devices == old(self).devices,
                forall|j: int|
                    0 <= j < i ==> self.players@[j] == crate::domain::player_cleared(
                        old(self).players@[j],
                    ),
                forall|j: int| i <= j < n ==> self.players@[j] == old(self).players@[j],
            decreases n - i,
        {
            let p = &mut self.players[i];
            p.is_default = false;
            i = i + 1;
        }
        proof {
            assert forall|i2: int, j2: int| 0 <= i2 < j2 < self.players@.len() implies (
            #[trigger] self.players@[i2]).umid@ != (#[trigger] self.players@[j2]).umid@ by {
                assert(old(self).players@[i2].umid@ != old(self).players@[j2].umid@);
            }
            assert(self.wf());
        }
    }

    /// Replaces or inserts the entry carrying the reported player's umid.
    ///
    /// The stored entry carries exactly the reported fields with the
    /// removal mark cleared: an upsert is the OS actively reporting the
    /// source again.  When the report claims the default flag, every other
    /// entry loses it in the same step.
    pub fn upsert_player(&mut self, player: MediaPlayer)
        requires
            old(self).wf(),
        ensures
            final(self).wf(),
            final(self).devices == old(self).devices,
            forall|x: Seq<char>|
                final(self).has_player(x) <==> (old(self).has_player(x) || x == player.umid@),
            final(self).players@.len() >= 1,
            final(self).players@.last() == crate::domain::player_stored(player),
            final(self).players@ == player_base(*old(self), player).map_values(
                |q: MediaPlayer|
                    if player.is_default {
                        crate::domain::player_cleared(q)
                    } else {
                        q
                    },
            ).push(crate::domain::player_stored(player)),
    {
        let ghost pre = *old(self);
        self.drop_player(&player.umid);
        let ghost removed = *self;
        let ghost base = self.players@;
        proof {
            assert(base == player_base(pre, player));
        }
        let is_default = player.is_default;
        if is_default {
            self.clear_player_defaults();
        }
        let ghost adjusted = self.players@;
        proof {
            assert forall|j: int| 0 <= j < base.len() implies adjusted[j] == (
            if player.is_default {
                crate::domain::player_cleared(base[j])
            } else {
                base[j]
            }) by {}
            assert(adjusted =~= base.map_values(
                |q: MediaPlayer|
                    if player.is_default {
                        crate::domain::player_cleared(q)
                    } else {
                        q
                    },
            ));
            assert forall|j: int| 0 <= j < adjusted.len() implies (#[trigger] adjusted[j]).umid@
                != player.umid@ by {
                assert(adjusted[j].umid@ == base[j].umid@);
                if base[j].umid@ == player.umid@ {
                    assert(removed.players@[j].umid@ == player.umid@);
                    assert(removed.has_player(player.umid@));
                }
            }
        }
        let mut stored = player;
        stored.removed_at = None;
        self.players.push(stored);
        proof {
            let post = *self;
            let n = adjusted.len() as int;
            assert(post.players@[n] == crate::domain::player_stored(player));
            assert forall|x: Seq<char>|
                post.has_player(x) <==> (pre.has_player(x) || x == player.umid@) by {
                if post.has_player(x) && x != player.umid@ {
                    let j = choose|j: int|
                        0 <= j < post.players@.len() && (#[trigger] post.players@[j]).umid@ == x;
                    assert(j < n);
                    assert(removed.players@[j].umid@ == x);
                    assert(removed.has_player(x));
                }
                if pre.has_player(x) && x != player.umid@ {
                    assert(removed.has_player(x));
                    let j = choose|j: int|
                        0 <= j < base.len() && (#[trigger] base[j]).umid@ == x;
                    assert(adjusted[j].umid@ == x);
                    assert(post.players@[j].umid@ == x);
                }
            }
            assert forall|i: int, j: int| 0 <= i < j < post.players@.len() implies (
            #[trigger] post.players@[i]).umid@ != (#[trigger] post.players@[j]).umid@ by {
                if j < n {
                    assert(removed.players@[i].umid@ != removed.players@[j].umid@);
                } else {
                    assert(adjusted[i].umid@ != player.umid@);
                }
            }
            assert forall|i: int, j: int| 0 <= i < j < post.players@.len() implies !((
            #[trigger] post.players@[i]).is_default && (
            #[trigger] post.players@[j]).is_default) by {
                if j < n {
                    assert(removed.players@[i].is_default == adjusted[i].is_default || (
                    !adjusted[i].is_default));
                } else {
                    if player.is_default {
                        assert(adjusted[i] == crate::domain::player_cleared(base[i]));
                        assert(!adjusted[i].is_default);
                    } else {
                        assert(!post.players@[j].is_default);
                    }
                }
            }
            assert(post.wf());
        }
    }

    /// Marks the entry carrying `umid` as removed at `now`, unless it
    /// already carries a removal mark; an unknown umid is ignored.  The
    /// entry stays visible until the sweep finds its grace window passed.
    pub fn mark_player_removed(&mut self, umid: &String, now: u64)
        requires
            old(self).wf(),
        ensures
            final(self).wf(),
            final(self).devices == old(self).devices,
            forall|x: Seq<char>| final(self).has_player(x) <==> old(self).has_player(x),
            !old(self).has_player(umid@) ==> *final(self) == *old(self),
            old(self).has_player(umid@) ==> final(self).players@ == old(self).players@.update(
                old(self).player_index(umid@),
                crate::domain::player_marked(old(self).player_at(umid@), now),
            ),
    {
        let found = self.find_player(umid);
        match found {
            None => {},
            Some(idx) => {
                let ghost pre = self.players@;
                proof {
                    let ci = old(self).player_index(umid@);
                    assert(0 <= ci < pre.len() && pre[ci].umid@ == umid@);
                    assert(ci == idx as int);
                }
                let already_marked = self.players[idx].removed_at.is_some();
                if !already_marked {
                    let p = &mut self.players[idx];
                    p.removed_at = Some(now);
                }
                proof {
                    assert(self.players@ =~= pre.update(
                        idx as int,
                        crate::domain::player_marked(pre[idx as int], now),
                    ));
                    assert forall|x: Seq<char>|
                        self.has_player(x) <==> old(self).has_player(x) by {
                        assert(forall|l: int|
                            0 <= l < self.players@.len() ==> (#[trigger] self.players@[l]).umid@
                                == pre[l].umid@);
                        if self.has_player(x) {
                            let l = choose|l: int|
                                0 <= l < self.players@.len() && (
                                #[trigger] self.players@[l]).umid@ == x;
                            assert(pre[l].umid@ == x);
                        }
                        if old(self).has_player(x) {
                            let l = choose|l: int|
                                0 <= l < pre.len() && (#[trigger] pre[l]).umid@ == x;
                            assert(self.players@[l].umid@ == x);
                        }
                    }
                    assert forall|i2: int, j2: int| 0 <= i2 < j2 < self.players@.len() implies (
                    #[trigger] self.players@[i2]).umid@ != (
                    #[trigger] self.players@[j2]).umid@ by {
                        assert(pre[i2].umid@ != pre[j2].umid@);
                    }
                    assert forall|i2: int, j2: int|
                        0 <= i2 < j2 < self.players@.len() implies !((
                    #[trigger] self.players@[i2]).is_default && (
                    #[trigger] self.players@[j2]).is_default) by {
                        assert(!(pre[i2].is_default && pre[j2].is_default));
                    }
                    assert(self.wf());
                }
            },
        }
    }

    /// Evicts every entry whose removal mark is set and whose grace window
    /// has fully passed at `now`; everything else survives in order.
    pub fn sweep_players(&mut self, now: u64)
        requires
            old(self).wf(),
        ensures
            final(self).wf(),
            final(self).devices == old(self).devices,
            final(self).players@ == old(self).players@.filter(player_keep(now)),
    {
        let ghost orig = self.players@;
        let ghost pred = player_keep(now);
        let mut m_exec: Ghost<int> = Ghost(0int);
        let mut i: usize = 0;
        while i < self.players.len()
            invariant
                old(self).wf(),
                self.wf(),
                self.devices == old(self).devices,
                orig == old(self).players@,
                pred == player_keep(now),
                0 <= m_exec@ <= orig.len(),
                i as int == orig.take(m_exec@).filter(pred).len(),
                self.players@ == orig.take(m_exec@).filter(pred) + orig.skip(m_exec@),
            decreases self.players@.len() - i,
        {
            let ghost m = m_exec@;
            proof {
                assert(self.players@[i as int] == orig.skip(m)[0]);
                assert(orig.skip(m)[0] == orig[m]);
                assert(orig.take(m + 1) =~= orig.take(m).push(orig[m]));
                reveal(Seq::filter);
                assert(orig.take(m).push(orig[m]).drop_last() =~= orig.take(m));
                assert(orig.take(m + 1).filter(pred) == (if pred(orig[m]) {
                    orig.take(m).filter(pred).push(orig[m])
                } else {
                    orig.take(m).filter(pred)
                }));
            }
            let keep = self.players[i].is_kept_at(now);
            proof {
                assert(pred(orig[m]) == orig[m].kept_at(now));
            }
            if keep {
                proof {
                    assert(self.players@ =~= orig.take(m + 1).filter(pred) + orig.skip(m + 1));
                }
                i = i + 1;
            } else {
                let ghost pre = self.players@;
                self.players.remove(i);
                proof {
                    assert(self.players@ =~= orig.take(m + 1).filter(pred) + orig.skip(m + 1));
                    assert forall|i2: int, j2: int| 0 <= i2 < j2 < self.players@.len() implies (
                    #[trigger] self.players@[i2]).umid@ != (
                    #[trigger] self.players@[j2]).umid@ by {
                        let a = if i2 < i as int {
                            i2
                        } else {
                            i2 + 1
                        };
                        let b = if j2 < i as int {
                            j2
                        } else {
                            j2 + 1
                        };
                        assert(self.players@[i2] == pre[a] && self.players@[j2] == pre[b]);
                        assert(pre[a].umid@ != pre[b].umid@);
                    }
                    assert forall|i2: int, j2: int|
                        0 <= i2 < j2 < self.players@.len() implies !((
                    #[trigger] self.players@[i2]).is_default && (
                    #[trigger] self.players@[j2]).is_default) by {
                        let a = if i2 < i as int {
                            i2
                        } else {
                            i2 + 1
                        };
                        let b = if j2 < i as int {
                            j2
                        } else {
                            j2 + 1
                        };
                        assert(self.players@[i2] == pre[a] && self.players@[j2] == pre[b]);
                        assert(!(pre[a].is_default && pre[b].is_default));
                    }
                    assert(self.wf());
                }
            }
            m_exec = Ghost(m + 1);
        }
        proof {
            let m = m_exec@;
            assert(orig.skip(m).len() == 0);
            assert(m == orig.len());
            assert(orig.take(m) =~= orig);
            assert(self.players@ =~= orig.filter(pred));
        }
    }

    /// Makes the entry carrying `umid` the single default player: it gains
    /// the flag and every other entry loses it, in the same step.  Returns
    /// whether the umid was known; an unknown umid changes nothing.
    pub fn set_default_player(&mut self, umid: &String) -> (found: bool)
        requires
            old(self).wf(),
        ensures
            final(self).wf(),
            final(self).devices == old(self).devices,
            found == old(self).has_player(umid@),
            !found ==> *final(self) == *old(self),
            found ==> final(self).players@.len() == old(self).players@.len() && (forall|j: int|
                0 <= j < old(self).players@.len() ==> final(self).players@[j]
                    == crate::domain::player_with_default(old(self).players@[j], umid@)),
    {
        let found = self.find_player(umid);
        match found {
            None => false,
            Some(_) => {
                let n = self.players.len();
                let mut i: usize = 0;
                while i < n
                    invariant
                        i <= n,
                        n == self.players@.len(),
                        self.players@.len() == old(self).players@.len(),
                        self.devices == old(self).devices,
                        forall|j: int|
                            0 <= j < i ==> self.players@[j] == crate::domain::player_with_default(
                                old(self).players@[j],
                                umid@,
                            ),
                        forall|j: int| i <= j < n ==> self.players@[j] == old(self).players@[j],
                    decreases n - i,
                {
                    let is_target = self.players[i].umid == *umid;
                    let p = &mut self.players[i];
                    p.is_default = is_target;
                    i = i + 1;
                }
                proof {
                    assert forall|i2: int, j2: int| 0 <= i2 < j2 < self.players@.len() implies (
                    #[trigger] self.players@[i2]).umid@ != (
                    #[trigger] self.players@[j2]).umid@ by {
                        assert(old(self).players@[i2].umid@ != old(self).players@[j2].umid@);
                    }
                    assert forall|i2: int, j2: int|
                        0 <= i2 < j2 < self.players@.len() implies !((
                    #[trigger] self.players@[i2]).is_default && (
                    #[trigger] self.players@[j2]).is_default) by {
                        assert(old(self).players@[i2].umid@ != old(self).players@[j2].umid@);
                    }
                    assert(self.wf());
                }
                true
            },
        }
    }
}

/// One OS endpoint notification, as the enumeration and notification
/// callbacks deliver them.
pub enum DeviceEvent {
    /// A device arrived (or was enumerated), with its reported state.
    Arrived(MediaDevice),
    /// The device carrying this id was removed.
    Removed(String),
}

/// The set of device ids the OS reports as present after a run of
/// notifications: arrivals add an id, removals take it away, later
/// notifications win.
pub open spec fn spec_present_after(initial: Set<Seq<char>>, events: Seq<DeviceEvent>) -> Set<
    Seq<char>,
>
    decreases events.len(),
{
    if events.len() == 0 {
        initial
    } else {
        let prev = spec_present_after(initial, events.drop_last());
        match events.last() {
            DeviceEvent::Arrived(d) => prev.insert(d.id@),
            DeviceEvent::Removed(id) => prev.remove(id@),
        }
    }
}

impl MediaRegistry {
    /// Applies a run of arrival/removal notifications in order.  Afterwards
    /// the tracked ids are exactly the ids the OS last reported as present.
    pub fn process_device_events(&mut self, events: Vec<DeviceEvent>)
        requires
            old(self).wf(),
            forall|i: int|
                0 <= i < events@.len() ==> ((#[trigger] events@[i]) matches DeviceEvent::Arrived(d)
                    ==> d.wf()),
        ensures
            final(self).wf(),
            final(self).players == old(self).players,
            final(self).device_ids() == spec_present_after(old(self).device_ids(), events@),
    {
        let ghost all = events@;
        let ghost initial = old(self).device_ids();
        let mut events = events;
        let mut m_exec: Ghost<int> = Ghost(0int);
        while events.len() > 0
            invariant
                self.wf(),
                self.players == old(self).players,
                0 <= m_exec@ <= all.len(),
                events@ == all.skip(m_exec@),
                self.device_ids() == spec_present_after(initial, all.take(m_exec@)),
                initial == old(self).device_ids(),
                forall|i: int|
                    0 <= i < all.len() ==> ((#[trigger] all[i]) matches DeviceEvent::Arrived(d)
                        ==> d.wf()),
            decreases events@.len(),
        {
            let ghost m = m_exec@;
            let ghost prev = self.device_ids();
            proof {
                assert(events@[0] == all.skip(m)[0]);
                assert(all.skip(m)[0] == all[m]);
                assert(all.take(m + 1).drop_last() =~= all.take(m));
                assert(all.take(m + 1).last() == all[m]);
            }
            let e = events.remove(0);
            proof {
                assert(events@ =~= all.skip(m + 1));
            }
            match e {
                DeviceEvent::Arrived(d) => {
                    proof {
                        assert(all[m] matches DeviceEvent::Arrived(a) ==> a.wf());
                    }
                    let ghost id = d.id@;
                    self.on_device_added(d);
                    proof {
                        assert(self.device_ids() == prev.insert(id));
                        assert(spec_present_after(initial, all.take(m + 1)) == prev.insert(id));
                    }
                },
                DeviceEvent::Removed(id) => {
                    self.on_device_removed(&id);
                    proof {
                        assert(self.device_ids() =~= prev.remove(id@));
                        assert(spec_present_after(initial, all.take(m + 1)) == prev.remove(id@));
                    }
                },
            }
            m_exec = Ghost(m + 1);
        }
        proof {
            let m = m_exec@;
            assert(all.skip(m).len() == 0);
            assert(m == all.len());
            assert(all.take(m) =~= all);
        }
    }
}

/// The survival predicate of a sweep at time `now`: a player is kept when
/// it carries no removal mark or its grace window has not yet fully
/// passed.
pub open spec fn player_keep(now: u64) -> spec_fn(MediaPlayer) -> bool {
    |p: MediaPlayer| p.kept_at(now)
}

/// The known players that survive an upsert: the previous entries, less
/// any stale entry carrying the reported player's umid.
pub open spec fn player_base(pre: MediaRegistry, player: MediaPlayer) -> Seq<MediaPlayer> {
    if pre.has_player(player.umid@) {
        pre.players@.remove(pre.player_index(player.umid@))
    } else {
        pre.players@
    }
}

/// The device with its mirrored volume and mute state replaced.
pub open spec fn device_with_volume(d: MediaDevice, level: u32, muted: bool) -> MediaDevice {
    MediaDevice { volume: level, muted, ..d }
}

/// A found index is the index `device_index` denotes: device ids are
/// unique under the registry invariant.
proof fn lemma_found_is_index(r: MediaRegistry, id: Seq<char>, idx: int)
    requires
        r.wf(),
        0 <= idx < r.devices@.len(),
        r.devices@[idx].id@ == id,
    ensures
        r.device_index(id) == idx,
        r.device_at(id) == r.devices@[idx],
        r.has_device(id),
{
    let ci = r.device_index(id);
    assert(0 <= ci < r.devices@.len() && r.devices@[ci].id@ == id);
}

/// Replacing one tracked device with a well-formed device of the same
/// identity (id, type and default flags) keeps the registry invariant and
/// the tracked id set.
proof fn lemma_update_device_keeps_wf(pre: MediaRegistry, post: MediaRegistry, di: int)
    requires
        pre.wf(),
        0 <= di < pre.devices@.len(),
        post.players == pre.players,
        post.devices@.len() == pre.devices@.len(),
        forall|j: int|
            0 <= j < pre.devices@.len() && j != di ==> #[trigger] post.devices@[j]
                == pre.devices@[j],
        post.devices@[di].wf(),
        post.devices@[di].id == pre.devices@[di].id,
        post.devices@[di].device_type == pre.devices@[di].device_type,
        post.devices@[di].is_default_multimedia == pre.devices@[di].is_default_multimedia,
        post.devices@[di].is_default_communications == pre.devices@[di].is_default_communications,
    ensures
        post.wf(),
        forall|x: Seq<char>| post.has_device(x) <==> pre.has_device(x),
{
    assert(forall|j: int|
        0 <= j < post.devices@.len() ==> (#[trigger] post.devices@[j]).id@
            == pre.devices@[j].id@);
    assert forall|x: Seq<char>| post.has_device(x) <==> pre.has_device(x) by {
        if post.has_device(x) {
            let j = choose|j: int|
                0 <= j < post.devices@.len() && (#[trigger] post.devices@[j]).id@ == x;
            assert(pre.devices@[j].id@ == x);
        }
        if pre.has_device(x) {
            let j = choose|j: int|
                0 <= j < pre.devices@.len() && (#[trigger] pre.devices@[j]).id@ == x;
            assert(post.devices@[j].id@ == x);
        }
    }
    assert forall|i: int| 0 <= i < post.devices@.len() implies (
    #[trigger] post.devices@[i]).wf() by {
        if i != di {
            assert(pre.devices@[i].wf());
        }
    }
    assert(post.wf());
}

/// The tracked devices that survive an arrival: the previous entries, less
/// any stale entry carrying the arriving device's id.
pub open spec fn arrival_base(pre: MediaRegistry, device: MediaDevice) -> Seq<MediaDevice> {
    if pre.has_device(device.id@) {
        pre.devices@.remove(pre.device_index(device.id@))
    } else {
        pre.devices@
    }
}


/// Both flag-rewrite loops keep the registry invariant: ids, volumes and
/// sessions are untouched, and a recomputed flag ends up held by at most
/// the one device whose id equals the target.
proof fn lemma_flag_rewrite_wf(
    pre: MediaRegistry,
    post: MediaRegistry,
    t: MediaDeviceType,
    target: Seq<char>,
    mm: bool,
)
    requires
        pre.wf(),
        post.devices@.len() == pre.devices@.len(),
        post.players == pre.players,
        mm ==> forall|j: int|
            0 <= j < pre.devices@.len() ==> #[trigger] post.devices@[j]
                == with_multimedia_default(pre.devices@[j], t, target),
        !mm ==> forall|j: int|
            0 <= j < pre.devices@.len() ==> #[trigger] post.devices@[j]
                == with_communications_default(pre.devices@[j], t, target),
    ensures
        post.wf(),
{
    assert forall|i: int| 0 <= i < post.devices@.len() implies (
    #[trigger] post.devices@[i]).wf() by {
        assert(pre.devices@[i].wf());
    }
    assert forall|i: int, j: int| 0 <= i < j < post.devices@.len() implies (
    #[trigger] post.devices@[i]).id@ != (#[trigger] post.devices@[j]).id@ by {
        assert(pre.devices@[i].id@ != pre.devices@[j].id@);
    }
    assert forall|i: int, j: int|
        0 <= i < j < post.devices@.len() && (#[trigger] post.devices@[i]).device_type == (
    #[trigger] post.devices@[j]).device_type implies !(post.devices@[i].is_default_multimedia
        && post.devices@[j].is_default_multimedia) && !(post.devices@[i].is_default_communications
        && post.devices@[j].is_default_communications) by {
        assert(pre.devices@[i].id@ != pre.devices@[j].id@);
        assert(pre.devices@[i].device_type == pre.devices@[j].device_type);
    }
}

} // verus!
