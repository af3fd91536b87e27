//! Data model: devices, sessions and media players.
//!
//! Volume is carried as a fixed-point level: `VOLUME_SCALE` stands for a
//! full volume of one, so the valid range is `0 ..= VOLUME_SCALE`.  Callers
//! at the process boundary convert the OS's fractional volume to this scale.
//! Times are carried as milliseconds on a monotonic clock.
//!
//! Local mutation requests (`set_volume`, `set_muted`) validate and leave the
//! mirror untouched: the OS executes the change and echoes it back through a
//! change notification, and only that notification (`on_volume_changed`)
//! updates the mirrored state.  This keeps the mirror honest when the OS
//! rejects a change.

use vstd::prelude::*;

use crate::errors::SessionError;

verus! {

/// Fixed-point volume denominator: this level stands for a volume of one.
pub const VOLUME_SCALE: u32 = 10000;

/// Grace window, in milliseconds, during which a media player reported as
/// removed is still kept, to absorb unregister/re-register churn during
/// track changes.  Configuration constant, chosen inside the one-to-three
/// second window the design allows.
pub const MEDIA_PLAYER_GRACE_MS: u64 = 2000;

/// A requested volume level is valid when it lies in `0 ..= VOLUME_SCALE`,
/// the fixed-point image of the real interval from zero to one.
pub open spec fn volume_in_range(level: i64) -> bool {
    0 <= level <= VOLUME_SCALE as i64
}

/// Direction of an endpoint.
#[derive(Debug, Clone, Copy, PartialEq, Eq, Structural)]
pub enum MediaDeviceType {
    Input,
    Output,
}

/// Default-device category the OS routes sound by.
#[derive(Debug, Clone, Copy, PartialEq, Eq, Structural)]
pub enum DeviceRole {
    Console,
    Multimedia,
    Communications,
}

/// The mirror keeps one default flag shared by the console and multimedia
/// roles and a second one for the communications role.
pub open spec fn role_uses_multimedia_flag(role: DeviceRole) -> bool {
    role is Console || role is Multimedia
}

/// One process's audio stream bound to an endpoint.
#[derive(Debug)]
pub struct MediaDeviceSession {
    /// Session identifier reported by the OS.
    pub id: String,
    /// Instance identifier; unique among the sessions of one device.
    pub instance_id: String,
    /// Identifier of the owning process.
    pub process_id: u32,
    /// Display name.
    pub name: String,
    /// Path of the display icon, when one is known.
    pub icon_path: Option<String>,
    /// Whether this is the system sounds session.
    pub is_system: bool,
    /// Mirrored volume, in `0 ..= VOLUME_SCALE`.
    pub volume: u32,
    /// Mirrored mute state.
    pub muted: bool,
}

impl MediaDeviceSession {
    /// A session is well formed when its mirrored volume is a valid level.
    pub open spec fn wf(self) -> bool {
        self.volume <= VOLUME_SCALE
    }

    /// Requests a session volume change.
    ///
    /// An out-of-range level is rejected before any OS call; a valid level
    /// is accepted for forwarding to the OS.  The mirror is never changed
    /// here: it follows the echoed change notification.
    pub fn set_volume(&mut self, level: i64) -> (r: Result<(), SessionError>)
        ensures
            *final(self) == *old(self),
            volume_in_range(level) ==> r == Ok::<(), SessionError>(()),
            !volume_in_range(level) ==> r == Err::<(), SessionError>(SessionError::OutOfRange),
    {
        if level < 0 || level > VOLUME_SCALE as i64 {
            Err(SessionError::OutOfRange)
        } else {
            Ok(())
        }
    }

    /// Requests a session mute change.  As with `set_volume`, the mirror
    /// follows the echoed notification, not the request.
    pub fn set_muted(&mut self, _muted: bool) -> (r: Result<(), SessionError>)
        ensures
            *final(self) == *old(self),
            r == Ok::<(), SessionError>(()),
    {
        Ok(())
    }

    /// Applies an echoed volume/mute change notification to the mirror.
    pub fn on_volume_changed(&mut self, level: u32, muted: bool)
        requires
            level <= VOLUME_SCALE,
        ensures
            final(self).volume == level,
            final(self).muted == muted,
            final(self).id == old(self).id,
            final(self).instance_id == old(self).instance_id,
            final(self).process_id == old(self).process_id,
            final(self).name == old(self).name,
            final(self).icon_path == old(self).icon_path,
            final(self).is_system == old(self).is_system,
            final(self).wf(),
    {
        self.volume = level;
        self.muted = muted;
    }
}

/// One physical or virtual audio endpoint, owning its live sessions.
#[derive(Debug)]
pub struct MediaDevice {
    /// Stable endpoint identifier.
    pub id: String,
    /// Display name.
    pub name: String,
    /// Direction of the endpoint.
    pub device_type: MediaDeviceType,
    /// Whether this device is the default for the console/multimedia roles
    /// among devices of its type.
    pub is_default_multimedia: bool,
    /// Whether this device is the default for the communications role among
    /// devices of its type.
    pub is_default_communications: bool,
    /// Live sessions bound to this endpoint, in creation order.
    pub sessions: Vec<MediaDeviceSession>,
    /// Mirrored endpoint volume, in `0 ..= VOLUME_SCALE`.
    pub volume: u32,
    /// Mirrored endpoint mute state.
    pub muted: bool,
}

impl MediaDevice {
    /// A device is well formed when its volume is a valid level, every
    /// session is well formed, and session instance ids are unique.
    pub open spec fn wf(self) -> bool {
        &&& self.volume <= VOLUME_SCALE
        &&& forall|k: int| 0 <= k < self.sessions@.len() ==> (#[trigger] self.sessions@[k]).wf()
        &&& forall|k: int, l: int|
            0 <= k < l < self.sessions@.len() ==> (#[trigger] self.sessions@[k]).instance_id@ != (
            #[trigger] self.sessions@[l]).instance_id@
    }

    /// Whether a session with the given instance id is bound to the device.
    pub open spec fn has_session(self, instance_id: Seq<char>) -> bool {
        exists|k: int|
            0 <= k < self.sessions@.len() && (#[trigger] self.sessions@[k]).instance_id@
                == instance_id
    }

    /// The default flag the given role reads on this device.
    pub open spec fn default_flag(self, role: DeviceRole) -> bool {
        if role_uses_multimedia_flag(role) {
            self.is_default_multimedia
        } else {
            self.is_default_communications
        }
    }

    /// Run-time form of `default_flag`.
    pub fn reads_default_flag(&self, role: DeviceRole) -> (b: bool)
        ensures
            b == self.default_flag(role),
    {
        match role {
            DeviceRole::Communications => self.is_default_communications,
            _ => self.is_default_multimedia,
        }
    }

    /// Requests an endpoint volume change; same validation and echo
    /// discipline as for sessions.
    pub fn set_volume(&mut self, level: i64) -> (r: Result<(), SessionError>)
        ensures
            *final(self) == *old(self),
            volume_in_range(level) ==> r == Ok::<(), SessionError>(()),
            !volume_in_range(level) ==> r == Err::<(), SessionError>(SessionError::OutOfRange),
    {
        if level < 0 || level > VOLUME_SCALE as i64 {
            Err(SessionError::OutOfRange)
        } else {
            Ok(())
        }
    }

    /// Requests an endpoint mute change; the mirror follows the echo.
    pub fn set_muted(&mut self, _muted: bool) -> (r: Result<(), SessionError>)
        ensures
            *final(self) == *old(self),
            r == Ok::<(), SessionError>(()),
    {
        Ok(())
    }

    /// Applies an echoed endpoint volume/mute change to the mirror.
    pub fn on_volume_changed(&mut self, level: u32, muted: bool)
        requires
            level <= VOLUME_SCALE,
        ensures
            final(self).volume == level,
            final(self).muted == muted,
            final(self).id == old(self).id,
            final(self).name == old(self).name,
            final(self).device_type == old(self).device_type,
            final(self).is_default_multimedia == old(self).is_default_multimedia,
            final(self).is_default_communications == old(self).is_default_communications,
            final(self).sessions == old(self).sessions,
            old(self).wf() ==> final(self).wf(),
    {
        self.volume = level;
        self.muted = muted;
    }

    /// The live sessions bound to this endpoint.
    pub fn list_sessions(&self) -> (r: &Vec<MediaDeviceSession>)
        ensures
            r == &self.sessions,
    {
        &self.sessions
    }

    /// Index of the session carrying `instance_id`; meaningful only when
    /// `has_session(instance_id)` holds (unique under `wf`).
    pub open spec fn session_index(self, instance_id: Seq<char>) -> int {
        choose|k: int|
            0 <= k < self.sessions@.len() && (#[trigger] self.sessions@[k]).instance_id@
                == instance_id
    }

    /// The session carrying `instance_id`; meaningful only when
    /// `has_session(instance_id)` holds.
    pub open spec fn session_at(self, instance_id: Seq<char>) -> MediaDeviceSession {
        self.sessions@[self.session_index(instance_id)]
    }

    /// Index of the live session with the given instance id.
    pub fn find_session(&self, instance_id: &String) -> (r: Option<usize>)
        ensures
            match r {
                Some(k) => k < self.sessions@.len() && self.sessions@[k as int].instance_id@
                    == instance_id@,
                None => !self.has_session(instance_id@),
            },
    {
        let mut k: usize = 0;
        while k < self.sessions.len()
            invariant
                k <= self.sessions@.len(),
                forall|l: int| 0 <= l < k ==> (#[trigger] self.sessions@[l]).instance_id@
                    != instance_id@,
            decreases self.sessions@.len() - k,
        {
            if self.sessions[k].instance_id == *instance_id {
                return Some(k);
            }
            k = k + 1;
        }
        None
    }

    /// Drops the session carrying `instance_id`, if it is live; its event
    /// callback is unregistered by the caller at the process boundary.
    pub fn remove_session(&mut self, instance_id: &String)
        requires
            old(self).wf(),
        ensures
            final(self).wf(),
            same_device_shell(*final(self), *old(self)),
            !old(self).has_session(instance_id@) ==> *final(self) == *old(self),
            old(self).has_session(instance_id@) ==> final(self).sessions@
                == old(self).sessions@.remove(old(self).session_index(instance_id@)),
            forall|x: Seq<char>|
                final(self).has_session(x) <==> (old(self).has_session(x) && x != instance_id@),
            !final(self).has_session(instance_id@),
    {
        let found = self.find_session(instance_id);
        match found {
            None => {
                proof {
                    assert(forall|x: Seq<char>|
                        self.has_session(x) <==> (old(self).has_session(x) && x != instance_id@));
                }
            },
            Some(k) => {
                let ghost pre = self.sessions@;
                self.sessions.remove(k);
                proof {
                    let ck = old(self).session_index(instance_id@);
                    assert(0 <= ck < pre.len() && pre[ck].instance_id@ == instance_id@);
                    assert(ck == k as int);
                    assert forall|x: Seq<char>|
                        self.has_session(x) implies (old(self).has_session(x) && x
                        != instance_id@) by {
                        let l = choose|l: int|
                            0 <= l < self.sessions@.len() && (
                            #[trigger] self.sessions@[l]).instance_id@ == x;
                        let i = if l < k as int {
                            l
                        } else {
                            l + 1
                        };
                        assert(pre[i].instance_id@ == x);
                        assert(pre[i].instance_id@ != instance_id@);
                    }
                    assert forall|x: Seq<char>|
                        old(self).has_session(x) && x != instance_id@ implies self.has_session(
                        x,
                    ) by {
                        let i = choose|i: int|
                            0 <= i < pre.len() && (#[trigger] pre[i]).instance_id@ == x;
                        let l = if i < k as int {
                            i
                        } else {
                            i - 1
                        };
                        assert(self.sessions@[l].instance_id@ == x);
                    }
                    assert forall|l: int| 0 <= l < self.sessions@.len() implies (
                    #[trigger] self.sessions@[l]).wf() by {
                        if l < k as int {
                            assert(self.sessions@[l] == pre[l]);
                        } else {
                            assert(self.sessions@[l] == pre[l + 1]);
                        }
                    }
                    assert(self.wf());
                }
            },
        }
    }

    /// Tracks a newly created session, replacing any stale entry that still
    /// carries the same instance id.
    pub fn upsert_session(&mut self, session: MediaDeviceSession)
        requires
            old(self).wf(),
            session.wf(),
        ensures
            final(self).wf(),
            same_device_shell(*final(self), *old(self)),
            final(self).sessions@ == session_base(*old(self), session).push(session),
            forall|x: Seq<char>|
                final(self).has_session(x) <==> (old(self).has_session(x) || x
                    == session.instance_id@),
            final(self).has_session(session.instance_id@),
            final(self).sessions@.len() >= 1,
            final(self).sessions@.last() == session,
    {
        self.remove_session(&session.instance_id);
        let ghost removed = *self;
        let ghost base = self.sessions@;
        proof {
            assert(base == session_base(*old(self), session));
        }
        self.sessions.push(session);
        proof {
            let n = base.len() as int;
            assert(self.sessions@[n] == session);
            assert forall|x: Seq<char>|
                self.has_session(x) <==> (old(self).has_session(x) || x
                    == session.instance_id@) by {
                if self.has_session(x) && x != session.instance_id@ {
                    let l = choose|l: int|
                        0 <= l < self.sessions@.len() && (
                        #[trigger] self.sessions@[l]).instance_id@ == x;
                    assert(l < n);
                    assert(removed.has_session(x));
                }
                if old(self).has_session(x) && x != session.instance_id@ {
                    assert(removed.has_session(x));
                    let l = choose|l: int|
                        0 <= l < base.len() && (#[trigger] base[l]).instance_id@ == x;
                    assert(self.sessions@[l].instance_id@ == x);
                }
            }
            assert forall|k: int, l: int| 0 <= k < l < self.sessions@.len() implies (
            #[trigger] self.sessions@[k]).instance_id@ != (
            #[trigger] self.sessions@[l]).instance_id@ by {
                if l < n {
                    assert(removed.sessions@[k].instance_id@ != removed.sessions@[l].instance_id@);
                } else {
                    assert(self.sessions@[k] == base[k]);
                    if base[k].instance_id@ == session.instance_id@ {
                        assert(removed.has_session(session.instance_id@));
                    }
                }
            }
            assert forall|k: int| 0 <= k < self.sessions@.len() implies (
            #[trigger] self.sessions@[k]).wf() by {
                if k < n {
                    assert(removed.sessions@[k].wf());
                }
            }
            assert(self.wf());
        }
    }

    /// Applies an echoed session volume/mute change to the session carrying
    /// `instance_id`; a notification for a session no longer live is
    /// dropped.
    pub fn apply_session_volume(&mut self, instance_id: &String, level: u32, muted: bool)
        requires
            old(self).wf(),
            level <= VOLUME_SCALE,
        ensures
            final(self).wf(),
            same_device_shell(*final(self), *old(self)),
            !old(self).has_session(instance_id@) ==> *final(self) == *old(self),
            old(self).has_session(instance_id@) ==> final(self).sessions@
                == old(self).sessions@.update(
                old(self).session_index(instance_id@),
                session_with_volume(old(self).session_at(instance_id@), level, muted),
            ),
            forall|x: Seq<char>| final(self).has_session(x) <==> old(self).has_session(x),
    {
        let found = self.find_session(instance_id);
        match found {
            None => {
                proof {
                    assert(forall|x: Seq<char>|
                        self.has_session(x) <==> old(self).has_session(x));
                }
            },
            Some(k) => {
                let ghost pre = self.sessions@;
                proof {
                    let ck = old(self).session_index(instance_id@);
                    assert(0 <= ck < pre.len() && pre[ck].instance_id@ == instance_id@);
                    assert(ck == k as int);
                }
                let mut s = self.sessions.remove(k);
                s.on_volume_changed(level, muted);
                self.sessions.insert(k, s);
                proof {
                    assert(self.sessions@ =~= pre.update(
                        k as int,
                        session_with_volume(old(self).session_at(instance_id@), level, muted),
                    ));
                    assert forall|x: Seq<char>|
                        self.has_session(x) <==> old(self).has_session(x) by {
                        assert(forall|l: int|
                            0 <= l < self.sessions@.len() ==> (
                            #[trigger] self.sessions@[l]).instance_id@ == pre[l].instance_id@);
                        if self.has_session(x) {
                            let l = choose|l: int|
                                0 <= l < self.sessions@.len() && (
                                #[trigger] self.sessions@[l]).instance_id@ == x;
                            assert(pre[l].instance_id@ == x);
                        }
                        if old(self).has_session(x) {
                            let l = choose|l: int|
                                0 <= l < pre.len() && (#[trigger] pre[l]).instance_id@ == x;
                            assert(self.sessions@[l].instance_id@ == x);
                        }
                    }
                    assert(self.wf());
                }
            },
        }
    }
}

/// Two devices agree on everything but their session list.
pub open spec fn same_device_shell(a: MediaDevice, b: MediaDevice) -> bool {
    &&& a.id == b.id
    &&& a.name == b.name
    &&& a.device_type == b.device_type
    &&& a.is_default_multimedia == b.is_default_multimedia
    &&& a.is_default_communications == b.is_default_communications
    &&& a.volume == b.volume
    &&& a.muted == b.muted
}

/// The sessions that survive an upsert: the previous entries, less any
/// stale entry carrying the new session's instance id.
pub open spec fn session_base(d: MediaDevice, session: MediaDeviceSession)
    -> Seq<MediaDeviceSession> {
    if d.has_session(session.instance_id@) {
        d.sessions@.remove(d.session_index(session.instance_id@))
    } else {
        d.sessions@
    }
}

/// The session with its mirrored volume and mute state replaced.
pub open spec fn session_with_volume(s: MediaDeviceSession, level: u32, muted: bool)
    -> MediaDeviceSession {
    MediaDeviceSession { volume: level, muted, ..s }
}

/// Structured description of an endpoint's stream format, as the policy
/// surface's format operations report and accept it.
#[derive(Debug, Clone, Copy, PartialEq, Eq, Structural)]
pub struct DeviceFormat {
    /// Sample rate, in frames per second.
    pub sample_rate: u32,
    /// Bit depth of one sample.
    pub bits_per_sample: u16,
    /// Number of channels of the stream.
    pub channels: u16,
    /// Channel mask naming the speaker positions the stream addresses.
    pub channel_mask: u32,
}

impl DeviceFormat {
    /// A format description is coherent when it has a positive rate and
    /// depth and its channel count names exactly the positions of its
    /// mask.
    pub open spec fn coherent(self) -> bool {
        &&& self.sample_rate > 0
        &&& self.bits_per_sample > 0
        &&& self.channels as nat == crate::channels::spec_bit_count(self.channel_mask as int)
    }

    /// Run-time form of `coherent`.
    pub fn is_coherent(&self) -> (b: bool)
        ensures
            b == self.coherent(),
    {
        self.sample_rate > 0 && self.bits_per_sample > 0 && crate::channels::channel_count(
            self.channel_mask,
        ) == self.channels as u32
    }

    /// The canonical layout this format addresses exactly, if any.
    pub fn layout(&self) -> (r: Option<crate::channels::CanonicalLayout>)
        ensures
            r == crate::channels::spec_classify_exact(self.channel_mask),
    {
        crate::channels::classify_exact(self.channel_mask)
    }
}

/// Identity of the application owning a media source.
#[derive(Debug)]
pub struct MediaPlayerOwner {
    /// Display name of the owning application, when known.
    pub name: Option<String>,
}

/// Position, length and rate of a media source's timeline.  The rate is a
/// fixed-point factor in thousandths: one thousand stands for normal speed.
#[derive(Debug, Clone, Copy, PartialEq, Eq, Structural)]
pub struct MediaPlayerTimeline {
    /// Current position, in milliseconds.
    pub position_ms: i64,
    /// Total duration, in milliseconds.
    pub duration_ms: i64,
    /// Playback rate in thousandths of normal speed.
    pub rate_milli: i64,
}

/// One OS-reported media-transport source, independent of audio endpoints.
#[derive(Debug)]
pub struct MediaPlayer {
    /// Unique model identifier of the source application.
    pub umid: String,
    /// Current track title.
    pub title: String,
    /// Current track author.
    pub author: String,
    /// Path of the thumbnail image, when one is known.
    pub thumbnail: Option<String>,
    /// Identity of the owning application.
    pub owner: MediaPlayerOwner,
    /// Timeline of the current track.
    pub timeline: MediaPlayerTimeline,
    /// Whether the source is currently playing.
    pub playing: bool,
    /// Whether this player is the system's current in-focus media source.
    pub is_default: bool,
    /// Time, in milliseconds, at which the OS reported the source removed;
    /// `None` while the source is actively reported.  A removed entry is
    /// kept until the grace window has passed, then evicted by the sweep.
    pub removed_at: Option<u64>,
}

impl MediaPlayer {
    /// Whether the player survives a sweep at time `now`: it was never
    /// reported removed, or the grace window has not yet fully passed.
    pub open spec fn kept_at(self, now: u64) -> bool {
        match self.removed_at {
            None => true,
            Some(t) => now < t + MEDIA_PLAYER_GRACE_MS,
        }
    }

    /// Run-time form of `kept_at`.
    pub fn is_kept_at(&self, now: u64) -> (b: bool)
        ensures
            b == self.kept_at(now),
    {
        match self.removed_at {
            None => true,
            Some(t) => {
                if now >= t {
                    now - t < MEDIA_PLAYER_GRACE_MS
                } else {
                    true
                }
            },
        }
    }
}

/// The player as an upsert stores it: the fields the OS just reported,
/// with the removal timestamp cleared.
pub open spec fn player_stored(p: MediaPlayer) -> MediaPlayer {
    MediaPlayer { removed_at: None, ..p }
}

/// The player with its default flag recomputed against a target umid.
pub open spec fn player_with_default(p: MediaPlayer, target: Seq<char>) -> MediaPlayer {
    MediaPlayer { is_default: p.umid@ == target, ..p }
}

/// The player with its default flag cleared.
pub open spec fn player_cleared(p: MediaPlayer) -> MediaPlayer {
    MediaPlayer { is_default: false, ..p }
}

/// The player marked removed at `now`, unless an earlier removal mark is
/// still standing.
pub open spec fn player_marked(p: MediaPlayer, now: u64) -> MediaPlayer {
    if p.removed_at is None {
        MediaPlayer { removed_at: Some(now), ..p }
    } else {
        p
    }
}

} // verus!
