//! Cross-cutting laws of the registry, stated and proved once.

use vstd::prelude::*;

use crate::domain::{DeviceRole, MediaDeviceSession, MediaPlayer, MEDIA_PLAYER_GRACE_MS};
use crate::registry::{player_keep, MediaRegistry};

verus! {

/// Among the tracked devices of one type, at most one holds the default
/// flag of any given role: a new default can only be set by clearing the
/// previous holder in the same step.
pub proof fn lemma_single_default_per_type_and_role(
    r: MediaRegistry,
    i: int,
    j: int,
    role: DeviceRole,
)
    requires
        r.wf(),
        0 <= i < r.devices@.len(),
        0 <= j < r.devices@.len(),
        i != j,
        r.devices@[i].device_type == r.devices@[j].device_type,
    ensures
        !(r.devices@[i].default_flag(role) && r.devices@[j].default_flag(role)),
{
    if i < j {
        assert(!(r.devices@[i].is_default_multimedia && r.devices@[j].is_default_multimedia) && !(
        r.devices@[i].is_default_communications && r.devices@[j].is_default_communications));
    } else {
        assert(!(r.devices@[j].is_default_multimedia && r.devices@[i].is_default_multimedia) && !(
        r.devices@[j].is_default_communications && r.devices@[i].is_default_communications));
    }
}

/// A session never outlives its owning device: once no device carries an
/// id, no session is associated with that id either.  Removing a device
/// therefore removes all its sessions in the same step.
pub proof fn lemma_session_requires_device(r: MediaRegistry, id: Seq<char>)
    requires
        !r.has_device(id),
    ensures
        r.sessions_of(id) == Seq::<MediaDeviceSession>::empty(),
{
}

/// Every element a filter keeps comes from the underlying sequence.
proof fn lemma_filter_is_subset<A>(s: Seq<A>, pred: spec_fn(A) -> bool)
    ensures
        forall|j: int|
            0 <= j < s.filter(pred).len() ==> s.contains(#[trigger] s.filter(pred)[j]),
    decreases s.len(),
{
    reveal(Seq::filter);
    if s.len() > 0 {
        lemma_filter_is_subset(s.drop_last(), pred);
        let f = s.filter(pred);
        let fd = s.drop_last().filter(pred);
        assert forall|j: int| 0 <= j < f.len() implies s.contains(f[j]) by {
            if pred(s.last()) && j == f.len() - 1 {
                assert(s[s.len() - 1] == f[j]);
            } else {
                assert(f[j] == fd[j]);
                assert(s.drop_last().contains(fd[j]));
                let w = choose|w: int| 0 <= w < s.drop_last().len() && s.drop_last()[w] == fd[j];
                assert(s[w] == f[j]);
            }
        }
    }
}

/// The grace window of a removed player: marked removed at `t` and not
/// reported again, the player survives every sweep strictly before
/// `t + MEDIA_PLAYER_GRACE_MS` and no sweep from that time on.
pub proof fn lemma_removed_player_grace(r: MediaRegistry, i: int, t: u64, now: u64)
    requires
        r.wf(),
        0 <= i < r.players@.len(),
        r.players@[i].removed_at == Some(t),
    ensures
        now < t + MEDIA_PLAYER_GRACE_MS ==> r.players@.filter(player_keep(now)).contains(
            r.players@[i],
        ),
        now >= t + MEDIA_PLAYER_GRACE_MS ==> forall|j: int|
            0 <= j < r.players@.filter(player_keep(now)).len() ==> (#[trigger] r.players@.filter(
                player_keep(now),
            )[j]).umid@ != r.players@[i].umid@,
{
    broadcast use vstd::seq_lib::group_filter_ensures;

    let pred = player_keep(now);
    let f = r.players@.filter(pred);
    if now < t + MEDIA_PLAYER_GRACE_MS {
        assert(pred(r.players@[i]));
        assert(f.contains(r.players@[i]));
    } else {
        lemma_filter_is_subset(r.players@, pred);
        assert forall|j: int| 0 <= j < f.len() implies (#[trigger] f[j]).umid@
            != r.players@[i].umid@ by {
            assert(r.players@.contains(f[j]));
            let w = choose|w: int| 0 <= w < r.players@.len() && r.players@[w] == f[j];
            assert(pred(f[j]));
            if f[j].umid@ == r.players@[i].umid@ {
                if w < i {
                    assert(r.players@[w].umid@ != r.players@[i].umid@);
                } else if w > i {
                    assert(r.players@[i].umid@ != r.players@[w].umid@);
                } else {
                    assert(f[j] == r.players@[i]);
                    assert(!f[j].kept_at(now));
                }
            }
        }
    }
}

/// A removal mark is not overwritten: marking an already marked player
/// again keeps the first timestamp, so the grace window is measured
/// from the first removal report.
pub proof fn lemma_mark_keeps_first_timestamp(p: MediaPlayer, t: u64, now: u64)
    requires
        p.removed_at == Some(t),
    ensures
        crate::domain::player_marked(p, now) == p,
{
}

} // verus!
