//! The cache-aside frame gateway, as a step function from what the last
//! outside operation reported to the next operation to perform.
//!
//! A driver performs each action (a storage head, get or put, a remote
//! download, a JPEG compression) and hands the outcome back as the next
//! event, until the gateway delivers the frame's bytes or fails.
use vstd::prelude::*;
use vstd::string::StringExecFns;
use crate::error::BOMError;
use crate::naming::{cache_prefix, cache_prefix_of, FrameKind};
use crate::raster::{decode_rgba, decoded_rgba, resize_to, rgb_of, strip_alpha, Raster, RasterModel};
use crate::text::{basename, basename_of};

verus! {

/// Side of the square box that satellite frames are resized to.
pub const THUMB_SIDE: u32 = 300;

/// How the gateway treats a frame on a cache miss.
#[derive(Clone, Copy, Debug, PartialEq, Eq, Structural)]
pub enum CacheMode {
    /// Stored verbatim, with its own content type.
    Passthrough,
    /// Decoded, resized to the fixed box, re-encoded as JPEG; only that is stored.
    Shrink,
}

pub open spec fn mode_of(kind: FrameKind) -> CacheMode {
    match kind {
        FrameKind::Radar => CacheMode::Passthrough,
        FrameKind::Satellite => CacheMode::Shrink,
    }
}

/// Content type under which frames of the family are stored.
pub open spec fn mime_of(kind: FrameKind) -> Seq<char> {
    match kind {
        FrameKind::Radar => "image/png"@,
        FrameKind::Satellite => "image/jpg"@,
    }
}

/// Cache key of a remote frame: its basename under the family's prefix.
pub open spec fn cache_key_for(kind: FrameKind, remote_path: Seq<char>) -> Seq<char> {
    cache_prefix(kind) + "/"@ + basename(remote_path)
}

/// One frame to serve through the cache.
pub struct FrameJob {
    pub kind: FrameKind,
    pub remote_path: String,
    pub cache_key: String,
    /// Whether the caller wants the frame's bytes, or only wants it cached.
    pub deliver: bool,
}

pub struct FrameJobView {
    pub kind: FrameKind,
    pub remote_path: Seq<char>,
    pub cache_key: Seq<char>,
    pub deliver: bool,
}

impl View for FrameJob {
    type V = FrameJobView;

    open spec fn view(&self) -> FrameJobView {
        FrameJobView {
            kind: self.kind,
            remote_path: self.remote_path@,
            cache_key: self.cache_key@,
            deliver: self.deliver,
        }
    }
}

impl FrameJob {
    /// The job for the remote frame at `remote_path`, cached under the
    /// prefix of `kind` and treated in that family's mode; `deliver` says
    /// whether its bytes are wanted or it is only to be cached.
    pub fn new(kind: FrameKind, remote_path: &str, deliver: bool) -> (r: FrameJob)
        ensures
            r@ == (FrameJobView {
                kind,
                remote_path: remote_path@,
                cache_key: cache_key_for(kind, remote_path@),
                deliver,
            }),
    {
        let mut key = String::from_str(cache_prefix_of(kind));
        key.append("/");
        key.append(basename_of(remote_path));
        FrameJob { kind, remote_path: String::from_str(remote_path), cache_key: key, deliver }
    }

    pub fn mime(&self) -> (r: &'static str)
        ensures
            r@ == mime_of(self.kind),
    {
        match self.kind {
            FrameKind::Radar => "image/png",
            FrameKind::Satellite => "image/jpg",
        }
    }
}

/// RGB pixels, three bytes each, row by row, ready for JPEG compression.
pub struct RgbFrame {
    pub width: u32,
    pub height: u32,
    pub rgb: Vec<u8>,
}

pub type RgbModel = (u32, u32, Seq<u8>);

impl View for RgbFrame {
    type V = RgbModel;

    open spec fn view(&self) -> RgbModel {
        (self.width, self.height, self.rgb@)
    }
}

/// What may come back from shrinking a download: nothing exactly when the
/// download does not decode, else a well-formed raster of the 300 × 300 box.
/// Which pixels the resampling gives is left open: it computes with
/// floating-point functions whose last bits may differ between machines.
pub open spec fn shrink_ok(raw: Seq<u8>, thumb: Option<RasterModel>) -> bool {
    &&& (thumb is Some <==> decoded_rgba(raw) is Some)
    &&& (thumb matches Some(img) ==> img.0 == 300 && img.1 == 300 && img.2.len() == 4 * 300 * 300)
}

pub proof fn lemma_rgb_len(s: Seq<u8>)
    requires
        s.len() % 4 == 0,
    ensures
        rgb_of(s).len() * 4 == s.len() * 3,
    decreases s.len(),
{
    if s.len() >= 4 {
        lemma_rgb_len(s.subrange(0, s.len() - 4));
    }
}

/// Decodes a downloaded frame and resizes it to the fixed box, whatever its
/// proportions.
pub fn shrink_to_box(raw: &[u8]) -> (r: Result<Raster, BOMError>)
    ensures
        r is Ok <==> decoded_rgba(raw@) is Some,
        r matches Ok(img) ==> img.width == 300 && img.height == 300 && img.wf(),
        r matches Err(e) ==> e == BOMError::ImageDecode,
{
    let img = decode_rgba(raw)?;
    Ok(resize_to(&img, THUMB_SIDE, THUMB_SIDE))
}

/// The RGB pixels of a raster, ready for compression.
pub fn rgb_frame(img: &Raster) -> (r: RgbFrame)
    requires
        img.wf(),
    ensures
        r@ == (img.width, img.height, rgb_of(img.rgba@)),
{
    RgbFrame { width: img.width, height: img.height, rgb: strip_alpha(img) }
}

/// What the driver reports back.
pub enum FrameEvent {
    /// Nothing yet: the job begins.
    Start,
    /// Whether the storage head found the cache key.
    Presence(bool),
    /// The bytes read from the cache.
    Cached(Vec<u8>),
    /// The bytes downloaded from the remote source.
    Downloaded(Vec<u8>),
    /// The JPEG that the compressor made of the last `Compress`.
    Compressed(Vec<u8>),
    /// The last `Put` went through.
    Stored,
}

pub enum FrameEventView {
    Start,
    Presence(bool),
    Cached(Seq<u8>),
    Downloaded(Seq<u8>),
    Compressed(Seq<u8>),
    Stored,
}

impl View for FrameEvent {
    type V = FrameEventView;

    open spec fn view(&self) -> FrameEventView {
        match self {
            FrameEvent::Start => FrameEventView::Start,
            FrameEvent::Presence(b) => FrameEventView::Presence(*b),
            FrameEvent::Cached(v) => FrameEventView::Cached(v@),
            FrameEvent::Downloaded(v) => FrameEventView::Downloaded(v@),
            FrameEvent::Compressed(v) => FrameEventView::Compressed(v@),
            FrameEvent::Stored => FrameEventView::Stored,
        }
    }
}

/// What the driver is asked to do next.
pub enum FrameAction {
    /// Ask storage whether the key exists.
    Head(String),
    /// Read the key's bytes from storage.
    Get(String),
    /// Download the remote path.
    Fetch(String),
    /// Compress the pixels to JPEG at the fixed quality and subsampling.
    Compress(RgbFrame),
    /// Store bytes under a key with a content type.
    Put(String, Vec<u8>, String),
    /// Done: decode these bytes and hand the image to the caller.
    Deliver(Vec<u8>),
    /// Done: the frame is in the cache, and its bytes were not wanted.
    Ready,
    /// Done: the job failed.
    Fail(BOMError),
}

pub enum FrameActionView {
    Head(Seq<char>),
    Get(Seq<char>),
    Fetch(Seq<char>),
    Compress(RgbModel),
    Put(Seq<char>, Seq<u8>, Seq<char>),
    Deliver(Seq<u8>),
    Ready,
    Fail(BOMError),
}

impl View for FrameAction {
    type V = FrameActionView;

    open spec fn view(&self) -> FrameActionView {
        match self {
            FrameAction::Head(k) => FrameActionView::Head(k@),
            FrameAction::Get(k) => FrameActionView::Get(k@),
            FrameAction::Fetch(p) => FrameActionView::Fetch(p@),
            FrameAction::Compress(f) => FrameActionView::Compress(f@),
            FrameAction::Put(k, b, m) => FrameActionView::Put(k@, b@, m@),
            FrameAction::Deliver(b) => FrameActionView::Deliver(b@),
            FrameAction::Ready => FrameActionView::Ready,
            FrameAction::Fail(e) => FrameActionView::Fail(*e),
        }
    }
}

/// Where a job stands.
pub enum FramePhase {
    Begin,
    AwaitPresence,
    AwaitCached,
    AwaitDownload,
    /// Waiting for the compressor; the resized raster it was handed.
    AwaitCompressed(Raster),
    /// Waiting for a put of these bytes to go through.
    AwaitStored(Vec<u8>),
    Done,
}

pub enum FramePhaseView {
    Begin,
    AwaitPresence,
    AwaitCached,
    AwaitDownload,
    AwaitCompressed(RasterModel),
    AwaitStored(Seq<u8>),
    Done,
}

impl View for FramePhase {
    type V = FramePhaseView;

    open spec fn view(&self) -> FramePhaseView {
        match self {
            FramePhase::Begin => FramePhaseView::Begin,
            FramePhase::AwaitPresence => FramePhaseView::AwaitPresence,
            FramePhase::AwaitCached => FramePhaseView::AwaitCached,
            FramePhase::AwaitDownload => FramePhaseView::AwaitDownload,
            FramePhase::AwaitCompressed(img) => FramePhaseView::AwaitCompressed(img.model()),
            FramePhase::AwaitStored(b) => FramePhaseView::AwaitStored(b@),
            FramePhase::Done => FramePhaseView::Done,
        }
    }
}

/// The resized raster that a phase holds, if any.
pub open spec fn thumb_held(phase: FramePhaseView) -> Option<RasterModel> {
    match phase {
        FramePhaseView::AwaitCompressed(img) => Some(img),
        _ => None,
    }
}

/// The gateway's rule: the next phase and action, given the phase and the
/// event that the driver reports. `thumb` is what shrinking a download gave;
/// it is read only when a download arrives in shrink mode.
pub open spec fn frame_step_spec(
    job: FrameJobView,
    phase: FramePhaseView,
    ev: FrameEventView,
    thumb: Option<RasterModel>,
) -> (FramePhaseView, FrameActionView) {
    match (phase, ev) {
        (FramePhaseView::Begin, FrameEventView::Start) => (
            FramePhaseView::AwaitPresence,
            FrameActionView::Head(job.cache_key),
        ),
        (FramePhaseView::AwaitPresence, FrameEventView::Presence(found)) => if found && job.deliver {
            (FramePhaseView::AwaitCached, FrameActionView::Get(job.cache_key))
        } else if found {
            (FramePhaseView::Done, FrameActionView::Ready)
        } else {
            (FramePhaseView::AwaitDownload, FrameActionView::Fetch(job.remote_path))
        },
        (FramePhaseView::AwaitCached, FrameEventView::Cached(b)) => (
            FramePhaseView::Done,
            FrameActionView::Deliver(b),
        ),
        (FramePhaseView::AwaitDownload, FrameEventView::Downloaded(raw)) => match mode_of(
            job.kind,
        ) {
            CacheMode::Passthrough => (
                FramePhaseView::AwaitStored(raw),
                FrameActionView::Put(job.cache_key, raw, mime_of(job.kind)),
            ),
            CacheMode::Shrink => match thumb {
                Some(img) => (
                    FramePhaseView::AwaitCompressed(img),
                    FrameActionView::Compress((img.0, img.1, rgb_of(img.2))),
                ),
                None => (FramePhaseView::Done, FrameActionView::Fail(BOMError::ImageDecode)),
            },
        },
        (FramePhaseView::AwaitCompressed(_), FrameEventView::Compressed(jpeg)) => (
            FramePhaseView::AwaitStored(jpeg),
            FrameActionView::Put(job.cache_key, jpeg, mime_of(job.kind)),
        ),
        (FramePhaseView::AwaitStored(b), FrameEventView::Stored) => if job.deliver {
            (FramePhaseView::Done, FrameActionView::Deliver(b))
        } else {
            (FramePhaseView::Done, FrameActionView::Ready)
        },
        _ => (FramePhaseView::Done, FrameActionView::Fail(BOMError::OutOfSequence)),
    }
}

/// One step of the gateway.
pub fn frame_step(job: &FrameJob, phase: FramePhase, ev: FrameEvent) -> (r: (FramePhase, FrameAction))
    ensures
        (r.0@, r.1@) == frame_step_spec(job@, phase@, ev@, thumb_held(r.0@)),
        phase@ is AwaitDownload && mode_of(job.kind) == CacheMode::Shrink ==> (
        ev@ matches FrameEventView::Downloaded(raw) ==> shrink_ok(raw, thumb_held(r.0@))),
{
    match (phase, ev) {
        (FramePhase::Begin, FrameEvent::Start) => (
            FramePhase::AwaitPresence,
            FrameAction::Head(job.cache_key.clone()),
        ),
        (FramePhase::AwaitPresence, FrameEvent::Presence(found)) => if found && job.deliver {
            (FramePhase::AwaitCached, FrameAction::Get(job.cache_key.clone()))
        } else if found {
            (FramePhase::Done, FrameAction::Ready)
        } else {
            (FramePhase::AwaitDownload, FrameAction::Fetch(job.remote_path.clone()))
        },
        (FramePhase::AwaitCached, FrameEvent::Cached(b)) => (
            FramePhase::Done,
            FrameAction::Deliver(b),
        ),
        (FramePhase::AwaitDownload, FrameEvent::Downloaded(raw)) => match job.kind {
            FrameKind::Radar => {
                let copy = raw.clone();
                (
                    FramePhase::AwaitStored(raw),
                    FrameAction::Put(job.cache_key.clone(), copy, String::from_str(job.mime())),
                )
            },
            FrameKind::Satellite => match shrink_to_box(raw.as_slice()) {
                Ok(img) => {
                    let f = rgb_frame(&img);
                    (FramePhase::AwaitCompressed(img), FrameAction::Compress(f))
                },
                Err(_) => (FramePhase::Done, FrameAction::Fail(BOMError::ImageDecode)),
            },
        },
        (FramePhase::AwaitCompressed(_), FrameEvent::Compressed(jpeg)) => {
            let copy = jpeg.clone();
            (
                FramePhase::AwaitStored(jpeg),
                FrameAction::Put(job.cache_key.clone(), copy, String::from_str(job.mime())),
            )
        },
        (FramePhase::AwaitStored(b), FrameEvent::Stored) => if job.deliver {
            (FramePhase::Done, FrameAction::Deliver(b))
        } else {
            (FramePhase::Done, FrameAction::Ready)
        },
        _ => (FramePhase::Done, FrameAction::Fail(BOMError::OutOfSequence)),
    }
}

/// A job that wants the frame's bytes never ends without them unless it
/// fails: the gateway does not silently drop a requested frame.
pub proof fn law_requested_frame_is_never_dropped(
    job: FrameJobView,
    phase: FramePhaseView,
    ev: FrameEventView,
)
    requires
        job.deliver,
    ensures
        forall|thumb: Option<RasterModel>| !(#[trigger] frame_step_spec(job, phase, ev, thumb).1 is Ready),
{
}

/// An object store and a remote source, as maps from key or path to bytes.
pub type Store = Map<Seq<char>, Seq<u8>>;

/// Stands for the resize of a download (any outcome `shrink_ok` allows).
pub type Shrinker = spec_fn(Seq<u8>) -> Option<RasterModel>;

/// Stands for the JPEG compressor.
pub type Squeezer = spec_fn(RgbModel) -> Seq<u8>;

/// Runs the gateway against `store` and `remote` for at most `fuel` steps,
/// with `shrink` and `squeeze` giving what the resize and the compressor
/// return. The result: the store afterwards, how many remote downloads were
/// made, and the bytes delivered.
pub open spec fn frame_drive(
    job: FrameJobView,
    phase: FramePhaseView,
    ev: FrameEventView,
    store: Store,
    remote: Store,
    shrink: Shrinker,
    squeeze: Squeezer,
    fuel: nat,
) -> (Store, nat, Option<Seq<u8>>)
    decreases fuel,
{
    if fuel == 0 {
        (store, 0, None)
    } else {
        let thumb = match ev {
            FrameEventView::Downloaded(raw) => shrink(raw),
            _ => None,
        };
        let (next, act) = frame_step_spec(job, phase, ev, thumb);
        let f = (fuel - 1) as nat;
        match act {
            FrameActionView::Head(k) => frame_drive(
                job,
                next,
                FrameEventView::Presence(store.contains_key(k)),
                store,
                remote,
                shrink,
                squeeze,
                f,
            ),
            FrameActionView::Get(k) => frame_drive(
                job,
                next,
                FrameEventView::Cached(store[k]),
                store,
                remote,
                shrink,
                squeeze,
                f,
            ),
            FrameActionView::Fetch(p) => {
                let r = frame_drive(
                    job,
                    next,
                    FrameEventView::Downloaded(remote[p]),
                    store,
                    remote,
                    shrink,
                    squeeze,
                    f,
                );
                (r.0, r.1 + 1, r.2)
            },
            FrameActionView::Compress(px) => frame_drive(
                job,
                next,
                FrameEventView::Compressed(squeeze(px)),
                store,
                remote,
                shrink,
                squeeze,
                f,
            ),
            FrameActionView::Put(k, b, m) => frame_drive(
                job,
                next,
                FrameEventView::Stored,
                store.insert(k, b),
                remote,
                shrink,
                squeeze,
                f,
            ),
            FrameActionView::Deliver(b) => (store, 0, Some(b)),
            FrameActionView::Ready => (store, 0, None),
            FrameActionView::Fail(e) => (store, 0, None),
        }
    }
}

/// One request for a frame, from start to finish.
pub open spec fn serve_frame(
    job: FrameJobView,
    store: Store,
    remote: Store,
    shrink: Shrinker,
    squeeze: Squeezer,
) -> (Store, nat, Option<Seq<u8>>) {
    frame_drive(job, FramePhaseView::Begin, FrameEventView::Start, store, remote, shrink, squeeze, 6)
}

/// A request that only caches: when the key is already cached it
/// downloads and stores nothing; otherwise it downloads once and leaves the
/// key cached.
pub proof fn law_warming_fills_cache_once(
    job: FrameJobView,
    store: Store,
    remote: Store,
    shrink: Shrinker,
    squeeze: Squeezer,
)
    requires
        !job.deliver,
    ensures
        store.contains_key(job.cache_key) ==> serve_frame(job, store, remote, shrink, squeeze) == (
            store,
            0nat,
            None::<Seq<u8>>,
        ),
        mode_of(job.kind) == CacheMode::Passthrough && !store.contains_key(job.cache_key)
            ==> serve_frame(job, store, remote, shrink, squeeze) == (
            store.insert(job.cache_key, remote[job.remote_path]),
            1nat,
            None::<Seq<u8>>,
        ),
{
    reveal_with_fuel(frame_drive, 5);
}

/// A hit: when the cache holds the key, a request downloads nothing,
/// leaves the store as it is, and delivers exactly the cached bytes.
pub proof fn law_hit_delivers_cached(
    job: FrameJobView,
    store: Store,
    remote: Store,
    shrink: Shrinker,
    squeeze: Squeezer,
)
    requires
        job.deliver,
        store.contains_key(job.cache_key),
    ensures
        serve_frame(job, store, remote, shrink, squeeze) == (
            store,
            0nat,
            Some(store[job.cache_key]),
        ),
{
    reveal_with_fuel(frame_drive, 4);
}

/// A miss in passthrough mode downloads once, stores the downloaded bytes
/// verbatim under the key, and delivers those same bytes.
pub proof fn law_passthrough_miss_stores_download(
    job: FrameJobView,
    store: Store,
    remote: Store,
    shrink: Shrinker,
    squeeze: Squeezer,
)
    requires
        job.deliver,
        !store.contains_key(job.cache_key),
        mode_of(job.kind) == CacheMode::Passthrough,
    ensures
        serve_frame(job, store, remote, shrink, squeeze) == (
            store.insert(job.cache_key, remote[job.remote_path]),
            1nat,
            Some(remote[job.remote_path]),
        ),
{
    reveal_with_fuel(frame_drive, 5);
}

/// Two requests in a row for one frame: the second is a hit that downloads
/// nothing and delivers the same bytes as the first, which are the bytes
/// the first left in the cache. This holds whatever the resize and the
/// compressor returned on the first request.
pub proof fn law_repeat_request_hits(
    job: FrameJobView,
    store: Store,
    remote: Store,
    shrink: Shrinker,
    squeeze: Squeezer,
    shrink_again: Shrinker,
    squeeze_again: Squeezer,
)
    requires
        job.deliver,
    ensures
        ({
            let first = serve_frame(job, store, remote, shrink, squeeze);
            let second = serve_frame(job, first.0, remote, shrink_again, squeeze_again);
            first.2 is Some ==> {
                &&& first.0.contains_key(job.cache_key)
                &&& first.0[job.cache_key] == first.2->0
                &&& second.1 == 0
                &&& second.2 == first.2
            }
        }),
{
    reveal_with_fuel(frame_drive, 7);
    let first = serve_frame(job, store, remote, shrink, squeeze);
    if first.2 is Some {
        law_hit_delivers_cached(job, first.0, remote, shrink_again, squeeze_again);
    }
}

/// In shrink mode a download that decodes is handed to the compressor as the
/// RGB pixels of a 300 × 300 raster, whatever the download's proportions,
/// and one that does not decode fails the job; and the only bytes ever put
/// in the cache are what the compressor returned, never a download.
pub proof fn law_shrink_stores_only_compressed(
    job: FrameJobView,
    phase: FramePhaseView,
    ev: FrameEventView,
    raw: Seq<u8>,
    thumb: Option<RasterModel>,
    other: Option<RasterModel>,
)
    requires
        mode_of(job.kind) == CacheMode::Shrink,
        shrink_ok(raw, thumb),
    ensures
        ({
            let (p, a) = frame_step_spec(
                job,
                FramePhaseView::AwaitDownload,
                FrameEventView::Downloaded(raw),
                thumb,
            );
            match a {
                FrameActionView::Compress(f) => f.0 == 300 && f.1 == 300 && f.2.len() == 3 * 300
                    * 300 && (thumb matches Some(img) && f.2 == rgb_of(img.2)),
                FrameActionView::Fail(e) => e == BOMError::ImageDecode && decoded_rgba(raw) is None,
                _ => false,
            }
        }),
        frame_step_spec(job, phase, ev, other).1 matches FrameActionView::Put(k, b, m) ==> (
        ev matches FrameEventView::Compressed(j) && b == j && k == job.cache_key),
{
    if let Some(img) = thumb {
        assert(img.2.len() % 4 == 0);
        lemma_rgb_len(img.2);
    }
}

/// A request that misses and succeeds writes one object: the frame's key,
/// holding the bytes it delivers. Racing requests therefore each leave the
/// key holding their own delivered bytes, the last writer's winning.
pub proof fn law_miss_writes_only_the_frame(
    job: FrameJobView,
    store: Store,
    remote: Store,
    shrink: Shrinker,
    squeeze: Squeezer,
)
    requires
        job.deliver,
        !store.contains_key(job.cache_key),
    ensures
        ({
            let a = serve_frame(job, store, remote, shrink, squeeze);
            a.2 matches Some(bytes) ==> a.0 == store.insert(job.cache_key, bytes) && a.1 == 1
        }),
{
    reveal_with_fuel(frame_drive, 7);
}

/// Two passthrough requests for one frame that race, both seeing a miss in
/// the same store: they deliver the same bytes, the remote file's, so
/// whichever upload lands last the store ends as after a single request.
pub proof fn law_racing_misses_agree(
    job: FrameJobView,
    store: Store,
    remote: Store,
    shrink: Shrinker,
    squeeze: Squeezer,
    shrink_b: Shrinker,
    squeeze_b: Squeezer,
)
    requires
        job.deliver,
        !store.contains_key(job.cache_key),
        mode_of(job.kind) == CacheMode::Passthrough,
    ensures
        ({
            let a = serve_frame(job, store, remote, shrink, squeeze);
            let b = serve_frame(job, store, remote, shrink_b, squeeze_b);
            &&& a.2 == Some(remote[job.remote_path])
            &&& b.2 == a.2
            &&& b.0.insert(job.cache_key, remote[job.remote_path]) == a.0
        }),
{
    law_passthrough_miss_stores_download(job, store, remote, shrink, squeeze);
    law_passthrough_miss_stores_download(job, store, remote, shrink_b, squeeze_b);
    assert(store.insert(job.cache_key, remote[job.remote_path]).insert(
        job.cache_key,
        remote[job.remote_path],
    ) =~= store.insert(job.cache_key, remote[job.remote_path]));
}

} // verus!
