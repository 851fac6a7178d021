//! The refresh cycle's units of work. Each unit is run, and its failure
//! logged, independently of the others: one subject's outage never keeps
//! the rest from being refreshed.
use vstd::prelude::*;
use vstd::string::StringExecFns;
use crate::naming::FrameKind;
use crate::text::names;

verus! {

/// What a unit of the refresh cycle does.
#[derive(Clone, Copy, Debug, PartialEq, Eq, Structural)]
pub enum RefreshTask {
    /// Rebuild the radar subject's base composite from its layers.
    BaseComposite,
    /// Cache every listed frame of the subject.
    CacheFrames,
    /// Regenerate the subject's timelapse for the current minute.
    Timelapse,
    /// Sweep the family's cache prefix of expired frames (no subject).
    Sweep,
}

/// One unit of the refresh cycle.
pub struct RefreshUnit {
    pub kind: FrameKind,
    pub subject: String,
    pub task: RefreshTask,
}

/// Whether `u` is the unit `task` of the `kind` subject `subject`.
pub open spec fn is_unit(u: RefreshUnit, kind: FrameKind, subject: Seq<char>, task: RefreshTask) -> bool {
    u.kind == kind && u.subject@ == subject && u.task == task
}

/// How many units a cycle over these subjects has.
pub open spec fn plan_len(radar: nat, satellite: nat) -> nat {
    3 * radar + 2 * satellite + 2
}

fn unit(kind: FrameKind, subject: &str, task: RefreshTask) -> (r: RefreshUnit)
    ensures
        is_unit(r, kind, subject@, task),
{
    RefreshUnit { kind, subject: String::from_str(subject), task }
}

/// The units of one refresh cycle: for each radar subject in order, its base
/// composite, its frames, then its timelapse; then, for each satellite
/// subject, its frames then its timelapse; last, one sweep of the radar
/// cache and one of the satellite cache.
pub fn refresh_plan(radar: &Vec<String>, satellite: &Vec<String>) -> (r: Vec<RefreshUnit>)
    requires
        plan_len(radar.len() as nat, satellite.len() as nat) <= usize::MAX,
    ensures
        r.len() == plan_len(radar.len() as nat, satellite.len() as nat),
        forall|i: int|
            0 <= i < radar.len() ==> {
                &&& is_unit(
                    #[trigger] r[3 * i],
                    FrameKind::Radar,
                    names(radar@)[i],
                    RefreshTask::BaseComposite,
                )
                &&& is_unit(r[3 * i + 1], FrameKind::Radar, names(radar@)[i], RefreshTask::CacheFrames)
                &&& is_unit(r[3 * i + 2], FrameKind::Radar, names(radar@)[i], RefreshTask::Timelapse)
            },
        forall|j: int|
            0 <= j < satellite.len() ==> {
                &&& is_unit(
                    #[trigger] r[3 * radar.len() + 2 * j],
                    FrameKind::Satellite,
                    names(satellite@)[j],
                    RefreshTask::CacheFrames,
                )
                &&& is_unit(
                    r[3 * radar.len() + 2 * j + 1],
                    FrameKind::Satellite,
                    names(satellite@)[j],
                    RefreshTask::Timelapse,
                )
            },
        is_unit(
            r[3 * radar.len() + 2 * satellite.len()],
            FrameKind::Radar,
            Seq::empty(),
            RefreshTask::Sweep,
        ),
        is_unit(
            r[3 * radar.len() + 2 * satellite.len() + 1],
            FrameKind::Satellite,
            Seq::empty(),
            RefreshTask::Sweep,
        ),
{
    let mut r: Vec<RefreshUnit> = Vec::new();
    let mut i: usize = 0;
    while i < radar.len()
        invariant
            0 <= i <= radar.len(),
            plan_len(radar.len() as nat, satellite.len() as nat) <= usize::MAX,
            r.len() == 3 * i,
            forall|k: int|
                0 <= k < i ==> {
                    &&& is_unit(
                        #[trigger] r[3 * k],
                        FrameKind::Radar,
                        names(radar@)[k],
                        RefreshTask::BaseComposite,
                    )
                    &&& is_unit(r[3 * k + 1], FrameKind::Radar, names(radar@)[k], RefreshTask::CacheFrames)
                    &&& is_unit(r[3 * k + 2], FrameKind::Radar, names(radar@)[k], RefreshTask::Timelapse)
                },
        decreases radar.len() - i,
    {
        let subject = radar[i].as_str();
        let ghost before = r@;
        r.push(unit(FrameKind::Radar, subject, RefreshTask::BaseComposite));
        r.push(unit(FrameKind::Radar, subject, RefreshTask::CacheFrames));
        r.push(unit(FrameKind::Radar, subject, RefreshTask::Timelapse));
        proof {
            assert forall|k: int| 0 <= k < i implies {
                &&& is_unit(
                    #[trigger] r[3 * k],
                    FrameKind::Radar,
                    names(radar@)[k],
                    RefreshTask::BaseComposite,
                )
                &&& is_unit(r[3 * k + 1], FrameKind::Radar, names(radar@)[k], RefreshTask::CacheFrames)
                &&& is_unit(r[3 * k + 2], FrameKind::Radar, names(radar@)[k], RefreshTask::Timelapse)
            } by {
                assert(r[3 * k] == before[3 * k]);
                assert(r[3 * k + 1] == before[3 * k + 1]);
                assert(r[3 * k + 2] == before[3 * k + 2]);
            }
        }
        i = i + 1;
    }
    let base = r.len();
    let mut j: usize = 0;
    while j < satellite.len()
        invariant
            0 <= j <= satellite.len(),
            base == 3 * radar.len(),
            plan_len(radar.len() as nat, satellite.len() as nat) <= usize::MAX,
            r.len() == base + 2 * j,
            forall|k: int|
                0 <= k < radar.len() ==> {
                    &&& is_unit(
                        #[trigger] r[3 * k],
                        FrameKind::Radar,
                        names(radar@)[k],
                        RefreshTask::BaseComposite,
                    )
                    &&& is_unit(r[3 * k + 1], FrameKind::Radar, names(radar@)[k], RefreshTask::CacheFrames)
                    &&& is_unit(r[3 * k + 2], FrameKind::Radar, names(radar@)[k], RefreshTask::Timelapse)
                },
            forall|k: int|
                0 <= k < j ==> {
                    &&& is_unit(
                        #[trigger] r[base + 2 * k],
                        FrameKind::Satellite,
                        names(satellite@)[k],
                        RefreshTask::CacheFrames,
                    )
                    &&& is_unit(
                        r[base + 2 * k + 1],
                        FrameKind::Satellite,
                        names(satellite@)[k],
                        RefreshTask::Timelapse,
                    )
                },
        decreases satellite.len() - j,
    {
        let subject = satellite[j].as_str();
        let ghost before = r@;
        r.push(unit(FrameKind::Satellite, subject, RefreshTask::CacheFrames));
        r.push(unit(FrameKind::Satellite, subject, RefreshTask::Timelapse));
        proof {
            assert forall|k: int| 0 <= k < radar.len() implies {
                &&& is_unit(
                    #[trigger] r[3 * k],
                    FrameKind::Radar,
                    names(radar@)[k],
                    RefreshTask::BaseComposite,
                )
                &&& is_unit(r[3 * k + 1], FrameKind::Radar, names(radar@)[k], RefreshTask::CacheFrames)
                &&& is_unit(r[3 * k + 2], FrameKind::Radar, names(radar@)[k], RefreshTask::Timelapse)
            } by {
                assert(r[3 * k] == before[3 * k]);
                assert(r[3 * k + 1] == before[3 * k + 1]);
                assert(r[3 * k + 2] == before[3 * k + 2]);
            }
            assert forall|k: int| 0 <= k < j implies {
                &&& is_unit(
                    #[trigger] r[base + 2 * k],
                    FrameKind::Satellite,
                    names(satellite@)[k],
                    RefreshTask::CacheFrames,
                )
                &&& is_unit(
                    r[base + 2 * k + 1],
                    FrameKind::Satellite,
                    names(satellite@)[k],
                    RefreshTask::Timelapse,
                )
            } by {
                assert(r[base + 2 * k] == before[base + 2 * k]);
                assert(r[base + 2 * k + 1] == before[base + 2 * k + 1]);
            }
        }
        j = j + 1;
    }
    let ghost before = r@;
    proof {
        reveal_strlit("");
    }
    r.push(unit(FrameKind::Radar, "", RefreshTask::Sweep));
    r.push(unit(FrameKind::Satellite, "", RefreshTask::Sweep));
    proof {
        assert("".view() =~= Seq::<char>::empty());
        assert forall|k: int| 0 <= k < before.len() implies r[k] == before[k] by {}
        assert forall|k: int| 0 <= k < satellite.len() implies {
            &&& is_unit(
                #[trigger] r[3 * radar.len() + 2 * k],
                FrameKind::Satellite,
                names(satellite@)[k],
                RefreshTask::CacheFrames,
            )
            &&& is_unit(
                r[3 * radar.len() + 2 * k + 1],
                FrameKind::Satellite,
                names(satellite@)[k],
                RefreshTask::Timelapse,
            )
        } by {
            assert(r[base + 2 * k] == before[base + 2 * k]);
            assert(r[base + 2 * k + 1] == before[base + 2 * k + 1]);
        }
    }
    r
}

} // verus!
