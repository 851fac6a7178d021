//! Timelapse assembly, as a step function driven by the outcomes of storage,
//! listing and frame-gathering operations.
//!
//! An artifact is keyed by subject and generation minute: when it already
//! exists it is returned as stored; otherwise the most recent frames are
//! gathered through the gateway, (for radar) drawn over the subject's base
//! composite, encoded as a looping GIF, uploaded and returned.
use vstd::prelude::*;
use vstd::string::StringExecFns;
use crate::clock::{minute_key, utc_minute_key};
use crate::composer::{base_path, base_path_of};
use crate::error::BOMError;
use crate::gateway::Store;
use crate::naming::{remote_dir, remote_dir_of, FrameKind};
use crate::raster::{
    decode_rgba, decoded_rgba, encode_gif, gif_encoded, models, overlaid, overlay_at_origin, Raster,
    RasterModel,
};
use crate::text::names;
use crate::window::{recent_frames, window_ok};

verus! {

/// Host under which stored artifacts are publicly served.
pub open spec fn image_host() -> Seq<char> {
    "https://bom-images.anurag.sh"@
}

pub open spec fn artifact_suffix(kind: FrameKind) -> Seq<char> {
    match kind {
        FrameKind::Radar => ".radar.gif"@,
        FrameKind::Satellite => ".satellite.gif"@,
    }
}

/// Storage key of the artifact of `subject` for the generation key `key`.
pub open spec fn artifact_path(kind: FrameKind, subject: Seq<char>, key: Seq<char>) -> Seq<char> {
    "external/"@ + subject + "."@ + key + artifact_suffix(kind)
}

/// Public URL of a stored artifact.
pub open spec fn public_url(path: Seq<char>) -> Seq<char> {
    image_host() + "/"@ + path
}

/// How many of the most recent frames make up a timelapse.
pub open spec fn window_len(kind: FrameKind) -> nat {
    match kind {
        FrameKind::Radar => 7,
        FrameKind::Satellite => 30,
    }
}

/// How long each frame is shown, in milliseconds.
pub open spec fn frame_delay(kind: FrameKind) -> u32 {
    match kind {
        FrameKind::Radar => 350,
        FrameKind::Satellite => 215,
    }
}

/// GIF encoder speed: radar is built on demand and favours quality,
/// satellite may run unattended and favours speed.
pub open spec fn encoder_speed(kind: FrameKind) -> i32 {
    match kind {
        FrameKind::Radar => 1,
        FrameKind::Satellite => 15,
    }
}

pub fn window_len_of(kind: FrameKind) -> (r: usize)
    ensures
        r == window_len(kind),
{
    match kind {
        FrameKind::Radar => 7,
        FrameKind::Satellite => 30,
    }
}

/// One timelapse to produce: a subject at one generation minute.
pub struct TimelapseJob {
    pub kind: FrameKind,
    pub subject: String,
    pub key: String,
    pub path: String,
    pub url: String,
}

pub struct TimelapseJobView {
    pub kind: FrameKind,
    pub subject: Seq<char>,
    pub key: Seq<char>,
    pub path: Seq<char>,
    pub url: Seq<char>,
}

impl View for TimelapseJob {
    type V = TimelapseJobView;

    open spec fn view(&self) -> TimelapseJobView {
        TimelapseJobView {
            kind: self.kind,
            subject: self.subject@,
            key: self.key@,
            path: self.path@,
            url: self.url@,
        }
    }
}

/// The job of `subject` for the generation key `key`.
pub open spec fn job_for(kind: FrameKind, subject: Seq<char>, key: Seq<char>) -> TimelapseJobView {
    TimelapseJobView {
        kind,
        subject,
        key,
        path: artifact_path(kind, subject, key),
        url: public_url(artifact_path(kind, subject, key)),
    }
}

impl TimelapseJob {
    /// The job of `subject` for an explicit generation key.
    pub fn for_key(kind: FrameKind, subject: &str, key: &str) -> (r: TimelapseJob)
        ensures
            r@ == job_for(kind, subject@, key@),
    {
        let mut path = String::from_str("external/");
        path.append(subject);
        path.append(".");
        path.append(key);
        match kind {
            FrameKind::Radar => path.append(".radar.gif"),
            FrameKind::Satellite => path.append(".satellite.gif"),
        }
        let mut url = String::from_str("https://bom-images.anurag.sh");
        url.append("/");
        url.append(path.as_str());
        TimelapseJob {
            kind,
            subject: String::from_str(subject),
            key: String::from_str(key),
            path,
            url,
        }
    }

    /// The job of `subject` at `now` (seconds since the epoch): the
    /// generation key is the UTC minute of `now` as `YYYYMMDDHHmm`.
    pub fn new(kind: FrameKind, subject: &str, now: i64) -> (r: Option<TimelapseJob>)
        ensures
            r is None <==> utc_minute_key(now as int) is None,
            r matches Some(j) ==> j@ == job_for(kind, subject@, utc_minute_key(now as int)->0),
    {
        match minute_key(now) {
            Some(key) => Some(TimelapseJob::for_key(kind, subject, key.as_str())),
            None => None,
        }
    }
}

/// The frames decoded in order; `None` when any does not decode.
pub open spec fn decoded_all(frames: Seq<Seq<u8>>) -> Option<Seq<RasterModel>>
    decreases frames.len(),
{
    if frames.len() == 0 {
        Some(Seq::empty())
    } else {
        match (decoded_all(frames.drop_last()), decoded_rgba(frames.last())) {
            (Some(done), Some(f)) => Some(done.push(f)),
            _ => None,
        }
    }
}

/// Each frame drawn over a copy of the base composite.
pub open spec fn over_base(base: RasterModel, frames: Seq<RasterModel>) -> Seq<RasterModel> {
    frames.map_values(|f: RasterModel| (base.0, base.1, overlaid(base, f)))
}

/// The images that make up the animation: radar frames over the base,
/// satellite frames as they are.
pub open spec fn animation_frames(base: Option<RasterModel>, frames: Seq<RasterModel>) -> Seq<
    RasterModel,
> {
    match base {
        Some(b) => over_base(b, frames),
        None => frames,
    }
}

/// What the driver reports back.
pub enum TimelapseEvent {
    Start,
    /// Whether the storage head found the key.
    Presence(bool),
    /// Bytes read from storage.
    Cached(Vec<u8>),
    /// The remote directory's listing.
    Listed(Vec<String>),
    /// The bytes that the gateway delivered for each gathered frame, in order.
    Frames(Vec<Vec<u8>>),
    /// The last `Put` went through.
    Stored,
}

pub enum TimelapseEventView {
    Start,
    Presence(bool),
    Cached(Seq<u8>),
    Listed(Seq<Seq<char>>),
    Frames(Seq<Seq<u8>>),
    Stored,
}

impl View for TimelapseEvent {
    type V = TimelapseEventView;

    open spec fn view(&self) -> TimelapseEventView {
        match self {
            TimelapseEvent::Start => TimelapseEventView::Start,
            TimelapseEvent::Presence(b) => TimelapseEventView::Presence(*b),
            TimelapseEvent::Cached(v) => TimelapseEventView::Cached(v@),
            TimelapseEvent::Listed(v) => TimelapseEventView::Listed(names(v@)),
            TimelapseEvent::Frames(v) => TimelapseEventView::Frames(
                v@.map_values(|f: Vec<u8>| f@),
            ),
            TimelapseEvent::Stored => TimelapseEventView::Stored,
        }
    }
}

/// What the driver is asked to do next.
pub enum TimelapseAction {
    /// Ask storage whether the key exists.
    Head(String),
    /// Read the key's bytes from storage.
    Get(String),
    /// List the remote directory.
    List(String),
    /// Serve each remote frame through the gateway, in order.
    Gather(Vec<String>),
    /// Store bytes under a key with a content type.
    Put(String, Vec<u8>, String),
    /// Done: the artifact's URL and bytes.
    Finish(String, Vec<u8>),
    /// Done: the job failed.
    Fail(BOMError),
}

pub enum TimelapseActionView {
    Head(Seq<char>),
    Get(Seq<char>),
    List(Seq<char>),
    Gather(Seq<Seq<char>>),
    Put(Seq<char>, Seq<u8>, Seq<char>),
    Finish(Seq<char>, Seq<u8>),
    Fail(BOMError),
}

impl View for TimelapseAction {
    type V = TimelapseActionView;

    open spec fn view(&self) -> TimelapseActionView {
        match self {
            TimelapseAction::Head(k) => TimelapseActionView::Head(k@),
            TimelapseAction::Get(k) => TimelapseActionView::Get(k@),
            TimelapseAction::List(d) => TimelapseActionView::List(d@),
            TimelapseAction::Gather(w) => TimelapseActionView::Gather(names(w@)),
            TimelapseAction::Put(k, b, m) => TimelapseActionView::Put(k@, b@, m@),
            TimelapseAction::Finish(u, b) => TimelapseActionView::Finish(u@, b@),
            TimelapseAction::Fail(e) => TimelapseActionView::Fail(*e),
        }
    }
}

/// Where a job stands.
pub enum TimelapsePhase {
    Begin,
    AwaitPresence,
    AwaitArtifact,
    AwaitListing,
    /// Waiting for the base composite; the frames to gather afterwards.
    AwaitBase(Vec<String>),
    /// Waiting for the frames; the decoded base composite, for radar.
    AwaitFrames(Option<Raster>),
    /// Waiting for the upload of this artifact.
    AwaitStored(Vec<u8>),
    Done,
}

pub enum TimelapsePhaseView {
    Begin,
    AwaitPresence,
    AwaitArtifact,
    AwaitListing,
    AwaitBase(Seq<Seq<char>>),
    AwaitFrames(Option<RasterModel>),
    AwaitStored(Seq<u8>),
    Done,
}

impl View for TimelapsePhase {
    type V = TimelapsePhaseView;

    open spec fn view(&self) -> TimelapsePhaseView {
        match self {
            TimelapsePhase::Begin => TimelapsePhaseView::Begin,
            TimelapsePhase::AwaitPresence => TimelapsePhaseView::AwaitPresence,
            TimelapsePhase::AwaitArtifact => TimelapsePhaseView::AwaitArtifact,
            TimelapsePhase::AwaitListing => TimelapsePhaseView::AwaitListing,
            TimelapsePhase::AwaitBase(w) => TimelapsePhaseView::AwaitBase(names(w@)),
            TimelapsePhase::AwaitFrames(b) => TimelapsePhaseView::AwaitFrames(
                match b {
                    Some(r) => Some(r.model()),
                    None => None,
                },
            ),
            TimelapsePhase::AwaitStored(g) => TimelapsePhaseView::AwaitStored(g@),
            TimelapsePhase::Done => TimelapsePhaseView::Done,
        }
    }
}

/// Rasters that the phase holds are well formed.
pub open spec fn phase_wf(phase: TimelapsePhase) -> bool {
    match phase {
        TimelapsePhase::AwaitFrames(Some(b)) => b.wf(),
        _ => true,
    }
}

/// The assembler's rule: the next phase and action, given the phase and the
/// driver's event. `window` is the frame window chosen from a listing; it
/// is read only when the event is that listing.
pub open spec fn timelapse_step_spec(
    job: TimelapseJobView,
    phase: TimelapsePhaseView,
    ev: TimelapseEventView,
    window: Seq<Seq<char>>,
) -> (TimelapsePhaseView, TimelapseActionView) {
    match (phase, ev) {
        (TimelapsePhaseView::Begin, TimelapseEventView::Start) => (
            TimelapsePhaseView::AwaitPresence,
            TimelapseActionView::Head(job.path),
        ),
        (TimelapsePhaseView::AwaitPresence, TimelapseEventView::Presence(found)) => if found {
            (TimelapsePhaseView::AwaitArtifact, TimelapseActionView::Get(job.path))
        } else {
            (TimelapsePhaseView::AwaitListing, TimelapseActionView::List(remote_dir(job.kind)))
        },
        (TimelapsePhaseView::AwaitArtifact, TimelapseEventView::Cached(b)) => (
            TimelapsePhaseView::Done,
            TimelapseActionView::Finish(job.url, b),
        ),
        (TimelapsePhaseView::AwaitListing, TimelapseEventView::Listed(_)) => match job.kind {
            FrameKind::Radar => (
                TimelapsePhaseView::AwaitBase(window),
                TimelapseActionView::Get(base_path(job.subject)),
            ),
            FrameKind::Satellite => (
                TimelapsePhaseView::AwaitFrames(None),
                TimelapseActionView::Gather(window),
            ),
        },
        (TimelapsePhaseView::AwaitBase(w), TimelapseEventView::Cached(b)) => match decoded_rgba(b) {
            Some(base) => (
                TimelapsePhaseView::AwaitFrames(Some(base)),
                TimelapseActionView::Gather(w),
            ),
            None => (TimelapsePhaseView::Done, TimelapseActionView::Fail(BOMError::ImageDecode)),
        },
        (TimelapsePhaseView::AwaitFrames(base), TimelapseEventView::Frames(fs)) => match decoded_all(
            fs,
        ) {
            Some(frames) => match gif_encoded(
                animation_frames(base, frames),
                frame_delay(job.kind),
                encoder_speed(job.kind),
            ) {
                Some(gif) => (
                    TimelapsePhaseView::AwaitStored(gif),
                    TimelapseActionView::Put(job.path, gif, "image/gif"@),
                ),
                None => (
                    TimelapsePhaseView::Done,
                    TimelapseActionView::Fail(BOMError::ImageEncode),
                ),
            },
            None => (TimelapsePhaseView::Done, TimelapseActionView::Fail(BOMError::ImageDecode)),
        },
        (TimelapsePhaseView::AwaitStored(gif), TimelapseEventView::Stored) => (
            TimelapsePhaseView::Done,
            TimelapseActionView::Finish(job.url, gif),
        ),
        _ => (TimelapsePhaseView::Done, TimelapseActionView::Fail(BOMError::OutOfSequence)),
    }
}

/// The window that a step took from a listing: what it gathers or keeps.
pub open spec fn window_taken(act: TimelapseActionView, next: TimelapsePhaseView) -> Seq<Seq<char>> {
    match (act, next) {
        (TimelapseActionView::Gather(w), _) => w,
        (_, TimelapsePhaseView::AwaitBase(w)) => w,
        _ => Seq::empty(),
    }
}

proof fn lemma_decoded_all_fails_on(all: Seq<Seq<u8>>, j: nat, k: nat)
    requires
        j <= k <= all.len(),
        decoded_all(all.subrange(0, j as int)) is None,
    ensures
        decoded_all(all.subrange(0, k as int)) is None,
    decreases k - j,
{
    if k > j {
        lemma_decoded_all_fails_on(all, j, (k - 1) as nat);
        assert(all.subrange(0, k as int).drop_last() =~= all.subrange(0, k - 1));
    }
}

/// Decodes every frame, in order.
pub fn decode_frames(frames: &Vec<Vec<u8>>) -> (r: Result<Vec<Raster>, BOMError>)
    ensures
        r is Ok <==> decoded_all(frames@.map_values(|f: Vec<u8>| f@)) is Some,
        r matches Ok(v) ==> decoded_all(frames@.map_values(|f: Vec<u8>| f@)) == Some(models(v@))
            && forall|i: int| 0 <= i < v.len() ==> (#[trigger] v[i]).wf(),
        r matches Err(e) ==> e == BOMError::ImageDecode,
{
    let ghost all = frames@.map_values(|f: Vec<u8>| f@);
    let mut out: Vec<Raster> = Vec::new();
    let mut i: usize = 0;
    assert(all.subrange(0, 0) =~= Seq::<Seq<u8>>::empty());
    assert(models(out@) =~= Seq::<RasterModel>::empty());
    while i < frames.len()
        invariant
            0 <= i <= frames.len(),
            all == frames@.map_values(|f: Vec<u8>| f@),
            decoded_all(all.subrange(0, i as int)) == Some(models(out@)),
            forall|k: int| 0 <= k < out.len() ==> (#[trigger] out[k]).wf(),
        decreases frames.len() - i,
    {
        let ghost upto = all.subrange(0, i + 1);
        assert(upto.drop_last() =~= all.subrange(0, i as int));
        assert(upto.last() == frames[i as int]@);
        match decode_rgba(frames[i].as_slice()) {
            Ok(f) => {
                let ghost before = out@;
                out.push(f);
                assert(models(out@) =~= models(before).push(f.model()));
            },
            Err(e) => {
                proof {
                    lemma_decoded_all_fails_on(all, (i + 1) as nat, all.len());
                    assert(all.subrange(0, all.len() as int) =~= all);
                }
                return Err(e);
            },
        }
        i = i + 1;
    }
    assert(all.subrange(0, all.len() as int) =~= all);
    Ok(out)
}

/// Draws each frame over its own copy of `base`, at the origin.
pub fn frames_over_base(base: &Raster, frames: &Vec<Raster>) -> (r: Vec<Raster>)
    requires
        base.wf(),
        forall|i: int| 0 <= i < frames.len() ==> (#[trigger] frames[i]).wf(),
    ensures
        models(r@) == over_base(base.model(), models(frames@)),
        forall|i: int| 0 <= i < r.len() ==> (#[trigger] r[i]).wf(),
{
    let mut out: Vec<Raster> = Vec::new();
    let mut i: usize = 0;
    while i < frames.len()
        invariant
            0 <= i <= frames.len(),
            base.wf(),
            forall|k: int| 0 <= k < frames.len() ==> (#[trigger] frames[k]).wf(),
            out.len() == i,
            forall|k: int| 0 <= k < out.len() ==> (#[trigger] out[k]).wf(),
            forall|k: int|
                0 <= k < i ==> (#[trigger] out[k]).model() == (
                    base.width,
                    base.height,
                    overlaid(base.model(), frames[k].model()),
                ),
        decreases frames.len() - i,
    {
        let mut canvas = base.copy();
        overlay_at_origin(&mut canvas, &frames[i]);
        out.push(canvas);
        i = i + 1;
    }
    assert(models(out@) =~= over_base(base.model(), models(frames@)));
    out
}

/// Encodes the animation of a job from its decoded frames and, for radar,
/// the decoded base composite.
fn animate(job: &TimelapseJob, base: &Option<Raster>, frames: &Vec<Raster>) -> (r: Result<
    Vec<u8>,
    BOMError,
>)
    requires
        forall|i: int| 0 <= i < frames.len() ==> (#[trigger] frames[i]).wf(),
        base matches Some(b) ==> b.wf(),
    ensures
        ({
            let bm = match base {
                Some(b) => Some(b.model()),
                None => None,
            };
            let g = gif_encoded(
                animation_frames(bm, models(frames@)),
                frame_delay(job.kind),
                encoder_speed(job.kind),
            );
            &&& r is Ok <==> g is Some
            &&& r matches Ok(b) ==> g == Some(b@)
            &&& r matches Err(e) ==> e == BOMError::ImageEncode
        }),
{
    let (delay, speed): (u32, i32) = match job.kind {
        FrameKind::Radar => (350, 1),
        FrameKind::Satellite => (215, 15),
    };
    match base {
        Some(b) => encode_gif(&frames_over_base(b, frames), delay, speed),
        None => encode_gif(frames, delay, speed),
    }
}

/// One step of the assembler. On a listing it takes the window of the most
/// recent frames of the job's subject.
pub fn timelapse_step(job: &TimelapseJob, phase: TimelapsePhase, ev: TimelapseEvent) -> (r: (
    TimelapsePhase,
    TimelapseAction,
))
    requires
        phase_wf(phase),
    ensures
        phase_wf(r.0),
        (r.0@, r.1@) == timelapse_step_spec(job@, phase@, ev@, window_taken(r.1@, r.0@)),
        phase@ is AwaitListing ==> (ev@ matches TimelapseEventView::Listed(l) ==> window_ok(
            job.kind,
            job.subject@,
            l,
            window_len(job.kind),
            window_taken(r.1@, r.0@),
        )),
{
    match (phase, ev) {
        (TimelapsePhase::Begin, TimelapseEvent::Start) => (
            TimelapsePhase::AwaitPresence,
            TimelapseAction::Head(job.path.clone()),
        ),
        (TimelapsePhase::AwaitPresence, TimelapseEvent::Presence(found)) => if found {
            (TimelapsePhase::AwaitArtifact, TimelapseAction::Get(job.path.clone()))
        } else {
            (
                TimelapsePhase::AwaitListing,
                TimelapseAction::List(String::from_str(remote_dir_of(job.kind))),
            )
        },
        (TimelapsePhase::AwaitArtifact, TimelapseEvent::Cached(b)) => (
            TimelapsePhase::Done,
            TimelapseAction::Finish(job.url.clone(), b),
        ),
        (TimelapsePhase::AwaitListing, TimelapseEvent::Listed(listed)) => {
            let window = recent_frames(
                job.kind,
                job.subject.as_str(),
                &listed,
                window_len_of(job.kind),
            );
            match job.kind {
                FrameKind::Radar => (
                    TimelapsePhase::AwaitBase(window),
                    TimelapseAction::Get(base_path_of(job.subject.as_str())),
                ),
                FrameKind::Satellite => (
                    TimelapsePhase::AwaitFrames(None),
                    TimelapseAction::Gather(window),
                ),
            }
        },
        (TimelapsePhase::AwaitBase(w), TimelapseEvent::Cached(b)) => match decode_rgba(
            b.as_slice(),
        ) {
            Ok(base) => (TimelapsePhase::AwaitFrames(Some(base)), TimelapseAction::Gather(w)),
            Err(_) => (TimelapsePhase::Done, TimelapseAction::Fail(BOMError::ImageDecode)),
        },
        (TimelapsePhase::AwaitFrames(base), TimelapseEvent::Frames(fs)) => match decode_frames(
            &fs,
        ) {
            Ok(frames) => match animate(job, &base, &frames) {
                Ok(gif) => {
                    let copy = gif.clone();
                    (
                        TimelapsePhase::AwaitStored(gif),
                        TimelapseAction::Put(job.path.clone(), copy, String::from_str("image/gif")),
                    )
                },
                Err(_) => (TimelapsePhase::Done, TimelapseAction::Fail(BOMError::ImageEncode)),
            },
            Err(_) => (TimelapsePhase::Done, TimelapseAction::Fail(BOMError::ImageDecode)),
        },
        (TimelapsePhase::AwaitStored(gif), TimelapseEvent::Stored) => (
            TimelapsePhase::Done,
            TimelapseAction::Finish(job.url.clone(), gif),
        ),
        _ => (TimelapsePhase::Done, TimelapseAction::Fail(BOMError::OutOfSequence)),
    }
}

/// The listing a drive hands back for a directory.
pub type Listings = Map<Seq<char>, Seq<Seq<char>>>;

/// Runs the assembler against `store` and the remote `listings` for at most
/// `fuel` steps. `pick` stands for the window chosen from a listing and
/// `gather` for the bytes that the gateway delivers for a window. The
/// result: the store afterwards, how many remote listings were made, and
/// the URL and bytes the job finished with.
pub open spec fn timelapse_drive(
    job: TimelapseJobView,
    phase: TimelapsePhaseView,
    ev: TimelapseEventView,
    store: Store,
    listings: Listings,
    pick: spec_fn(Seq<Seq<char>>) -> Seq<Seq<char>>,
    gather: spec_fn(Seq<Seq<char>>) -> Seq<Seq<u8>>,
    fuel: nat,
) -> (Store, nat, Option<(Seq<char>, Seq<u8>)>)
    decreases fuel,
{
    if fuel == 0 {
        (store, 0, None)
    } else {
        let window = match ev {
            TimelapseEventView::Listed(l) => pick(l),
            _ => Seq::empty(),
        };
        let (next, act) = timelapse_step_spec(job, phase, ev, window);
        let f = (fuel - 1) as nat;
        match act {
            TimelapseActionView::Head(k) => timelapse_drive(
                job,
                next,
                TimelapseEventView::Presence(store.contains_key(k)),
                store,
                listings,
                pick,
                gather,
                f,
            ),
            TimelapseActionView::Get(k) => timelapse_drive(
                job,
                next,
                TimelapseEventView::Cached(store[k]),
                store,
                listings,
                pick,
                gather,
                f,
            ),
            TimelapseActionView::List(d) => {
                let r = timelapse_drive(
                    job,
                    next,
                    TimelapseEventView::Listed(listings[d]),
                    store,
                    listings,
                    pick,
                    gather,
                    f,
                );
                (r.0, r.1 + 1, r.2)
            },
            TimelapseActionView::Gather(w) => timelapse_drive(
                job,
                next,
                TimelapseEventView::Frames(gather(w)),
                store,
                listings,
                pick,
                gather,
                f,
            ),
            TimelapseActionView::Put(k, b, m) => timelapse_drive(
                job,
                next,
                TimelapseEventView::Stored,
                store.insert(k, b),
                listings,
                pick,
                gather,
                f,
            ),
            TimelapseActionView::Finish(u, b) => (store, 0, Some((u, b))),
            TimelapseActionView::Fail(e) => (store, 0, None),
        }
    }
}

/// One request for a timelapse, from start to finish.
pub open spec fn request_timelapse(
    job: TimelapseJobView,
    store: Store,
    listings: Listings,
    pick: spec_fn(Seq<Seq<char>>) -> Seq<Seq<char>>,
    gather: spec_fn(Seq<Seq<char>>) -> Seq<Seq<u8>>,
) -> (Store, nat, Option<(Seq<char>, Seq<u8>)>) {
    timelapse_drive(
        job,
        TimelapsePhaseView::Begin,
        TimelapseEventView::Start,
        store,
        listings,
        pick,
        gather,
        8,
    )
}

/// When the artifact of the job's generation minute is stored, a request
/// lists nothing, changes nothing, and returns the job's URL with the
/// stored bytes.
pub proof fn law_existing_artifact_is_returned(
    job: TimelapseJobView,
    store: Store,
    listings: Listings,
    pick: spec_fn(Seq<Seq<char>>) -> Seq<Seq<char>>,
    gather: spec_fn(Seq<Seq<char>>) -> Seq<Seq<u8>>,
)
    requires
        store.contains_key(job.path),
    ensures
        request_timelapse(job, store, listings, pick, gather) == (
            store,
            0nat,
            Some((job.url, store[job.path])),
        ),
{
    reveal_with_fuel(timelapse_drive, 4);
}

/// Two requests for one subject within one generation minute (one job):
/// whatever frames were listed and chosen, when the first succeeds the
/// second makes no remote listing and returns the identical URL and bytes,
/// which the first left in storage under the job's path.
pub proof fn law_same_minute_dedup(
    job: TimelapseJobView,
    store: Store,
    listings: Listings,
    pick: spec_fn(Seq<Seq<char>>) -> Seq<Seq<char>>,
    gather: spec_fn(Seq<Seq<char>>) -> Seq<Seq<u8>>,
)
    ensures
        ({
            let first = request_timelapse(job, store, listings, pick, gather);
            let second = request_timelapse(job, first.0, listings, pick, gather);
            first.2 is Some ==> {
                &&& first.0.contains_key(job.path)
                &&& first.2 == Some((job.url, first.0[job.path]))
                &&& second.1 == 0
                &&& second.2 == first.2
            }
        }),
{
    reveal_with_fuel(timelapse_drive, 9);
    let first = request_timelapse(job, store, listings, pick, gather);
    if first.2 is Some {
        law_existing_artifact_is_returned(job, first.0, listings, pick, gather);
    }
}

/// Two jobs for one subject made at instants of the same UTC minute name
/// the same artifact path and URL.
pub proof fn law_same_minute_same_artifact(kind: FrameKind, subject: Seq<char>, a: int, b: int)
    requires
        utc_minute_key(a) is Some,
        utc_minute_key(a) == utc_minute_key(b),
    ensures
        job_for(kind, subject, utc_minute_key(a)->0) == job_for(
            kind,
            subject,
            utc_minute_key(b)->0,
        ),
{
}

/// A request that finds no artifact and succeeds writes exactly one object:
/// the artifact it returns, under the job's path.
pub proof fn law_miss_writes_only_the_artifact(
    job: TimelapseJobView,
    store: Store,
    listings: Listings,
    pick: spec_fn(Seq<Seq<char>>) -> Seq<Seq<char>>,
    gather: spec_fn(Seq<Seq<char>>) -> Seq<Seq<u8>>,
)
    requires
        !store.contains_key(job.path),
    ensures
        ({
            let run = request_timelapse(job, store, listings, pick, gather);
            run.2 matches Some(done) ==> done.0 == job.url && run.0 == store.insert(
                job.path,
                done.1,
            ) && run.1 == 1
        }),
{
    reveal_with_fuel(timelapse_drive, 9);
}

/// Two requests for one job that race, both seeing no artifact in the same
/// storage: they return the same URL and bytes, and their two uploads,
/// in either order, leave storage as a single upload would.
pub proof fn law_racing_requests_agree(
    job: TimelapseJobView,
    store: Store,
    listings: Listings,
    pick: spec_fn(Seq<Seq<char>>) -> Seq<Seq<char>>,
    gather: spec_fn(Seq<Seq<char>>) -> Seq<Seq<u8>>,
)
    requires
        !store.contains_key(job.path),
    ensures
        ({
            let a = request_timelapse(job, store, listings, pick, gather);
            let b = request_timelapse(job, store, listings, pick, gather);
            a.2 matches Some(done) ==> {
                &&& b.2 == a.2
                &&& b.0 == a.0
                &&& a.0.insert(job.path, done.1) == a.0
            }
        }),
{
    law_miss_writes_only_the_artifact(job, store, listings, pick, gather);
    let a = request_timelapse(job, store, listings, pick, gather);
    if let Some(done) = a.2 {
        assert(a.0.insert(job.path, done.1) =~= a.0);
    }
}

} // verus!
