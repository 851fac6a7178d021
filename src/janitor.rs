//! The cache janitor's sweep: which cached frames have outlived retention.
use vstd::prelude::*;
use crate::clock::{stamp_seconds, utc_stamp_seconds};
use vstd::string::StrSliceExecFns;
use crate::naming::{cache_prefix, cache_prefix_of, frame_shape, frame_stamp, is_frame_name, stamp_of, FrameKind};
use crate::text::{basename, basename_of, basename_start, lemma_basename_start_bounds, names, spells_at};

verus! {

/// How long a cached frame is kept, in seconds: one day.
pub const RETENTION_SECONDS: i64 = 86400;

/// Whether `key` lies under the family's cache prefix: the prefix, then `/`.
pub open spec fn under_prefix(kind: FrameKind, key: Seq<char>) -> bool {
    let n = cache_prefix(kind).len() as int;
    key.len() > n && key.subrange(0, n) == cache_prefix(kind) && key[n] == '/'
}

/// Whether the cached object `key` is past retention at `now` (epoch seconds):
/// it lies under the family's cache prefix, its basename has the family's
/// frame shape, its stamp names a real UTC minute, and that minute lies more
/// than a day before `now`.
pub open spec fn expired(kind: FrameKind, key: Seq<char>, now: int) -> bool {
    let b = basename(key);
    under_prefix(kind, key) && frame_shape(kind, b) && match utc_stamp_seconds(stamp_of(b)) {
        Some(t) => now - t > 86400,
        None => false,
    }
}

/// Decides whether the janitor deletes the cached object `key`.
pub fn is_expired(kind: FrameKind, key: &str, now: i64) -> (r: bool)
    ensures
        r == expired(kind, key@, now as int),
{
    let prefix = cache_prefix_of(kind);
    let n = prefix.unicode_len();
    if key.unicode_len() <= n || !spells_at(key, 0, prefix) || key.get_char(n) != '/' {
        return false;
    }
    let b = basename_of(key);
    if !is_frame_name(kind, b) {
        return false;
    }
    match stamp_seconds(frame_stamp(kind, b)) {
        Some(t) => now as i128 - t as i128 > RETENTION_SECONDS as i128,
        None => false,
    }
}

/// The keys among `keys` that are past retention, in their order.
pub open spec fn expired_keys(kind: FrameKind, keys: Seq<Seq<char>>, now: int) -> Seq<Seq<char>>
    decreases keys.len(),
{
    if keys.len() == 0 {
        Seq::empty()
    } else {
        let rest = expired_keys(kind, keys.drop_last(), now);
        if expired(kind, keys.last(), now) {
            rest.push(keys.last())
        } else {
            rest
        }
    }
}

/// One sweep of a cache prefix: of the listed object keys, those to delete.
pub fn plan_cleanup(kind: FrameKind, keys: &Vec<String>, now: i64) -> (r: Vec<String>)
    ensures
        names(r@) == expired_keys(kind, names(keys@), now as int),
{
    let mut r: Vec<String> = Vec::new();
    let mut i: usize = 0;
    while i < keys.len()
        invariant
            0 <= i <= keys.len(),
            names(r@) == expired_keys(kind, names(keys@).subrange(0, i as int), now as int),
        decreases keys.len() - i,
    {
        let key = &keys[i];
        assert(names(keys@).subrange(0, i + 1).drop_last() =~= names(keys@).subrange(0, i as int));
        if is_expired(kind, key.as_str(), now) {
            let ghost before = r@;
            r.push(key.clone());
            assert(names(r@) =~= names(before).push(key@));
        }
        i = i + 1;
    }
    assert(names(keys@).subrange(0, keys@.len() as int) =~= names(keys@));
    r
}

/// The sweep's rule: an object under the family's cache prefix whose
/// basename has the family's frame shape is deleted exactly when its stamp
/// is more than a day before `now`; an object outside the prefix, or whose
/// basename does not have that shape, is never deleted, whatever its age.
pub proof fn law_sweep_by_age(kind: FrameKind, key: Seq<char>, now: int)
    ensures
        !under_prefix(kind, key) ==> !expired(kind, key, now),
        under_prefix(kind, key) && frame_shape(kind, basename(key)) ==> (expired(kind, key, now)
            <==> (utc_stamp_seconds(stamp_of(basename(key))) matches Some(t) && now - t > 86400)),
        !frame_shape(kind, basename(key)) ==> !expired(kind, key, now),
{
}

/// A sweep deletes exactly the listed keys that are past retention: each
/// key it returns was listed and is expired, and each listed expired key is
/// returned.
pub proof fn law_sweep_selects_expired(kind: FrameKind, keys: Seq<Seq<char>>, now: int)
    ensures
        forall|k: Seq<char>| #[trigger]
            expired_keys(kind, keys, now).contains(k) <==> (keys.contains(k) && expired(
                kind,
                k,
                now,
            )),
    decreases keys.len(),
{
    if keys.len() > 0 {
        law_sweep_selects_expired(kind, keys.drop_last(), now);
        assert forall|k: Seq<char>| #[trigger] keys.contains(k) <==> (keys.drop_last().contains(k)
            || k == keys.last()) by {
            if keys.contains(k) {
                let j = choose|j: int| 0 <= j < keys.len() && keys[j] == k;
                if j < keys.len() - 1 {
                    assert(keys.drop_last()[j] == k);
                }
            }
            if keys.drop_last().contains(k) {
                let j = choose|j: int| 0 <= j < keys.len() - 1 && keys.drop_last()[j] == k;
                assert(keys[j] == k);
            }
            if k == keys.last() {
                assert(keys[keys.len() - 1] == k);
            }
        }
        let rest = expired_keys(kind, keys.drop_last(), now);
        if expired(kind, keys.last(), now) {
            assert forall|k: Seq<char>| #[trigger] rest.push(keys.last()).contains(k) <==> (
            rest.contains(k) || k == keys.last()) by {
                if rest.push(keys.last()).contains(k) {
                    let j = choose|j: int|
                        0 <= j < rest.len() + 1 && rest.push(keys.last())[j] == k;
                    if j < rest.len() {
                        assert(rest[j] == k);
                    }
                }
                if rest.contains(k) {
                    let j = choose|j: int| 0 <= j < rest.len() && rest[j] == k;
                    assert(rest.push(keys.last())[j] == k);
                }
                if k == keys.last() {
                    assert(rest.push(keys.last())[rest.len() as int] == k);
                }
            }
        }
    }
}

proof fn lemma_basename_keeps_plain_tail(p: Seq<char>, q: Seq<char>)
    requires
        forall|i: int| 0 <= i < q.len() ==> q[i] != '/',
    ensures
        basename_start(p + q) <= p.len(),
    decreases q.len(),
{
    if q.len() > 0 {
        assert((p + q).drop_last() =~= p + q.drop_last());
        assert((p + q).last() == q.last());
        lemma_basename_keeps_plain_tail(p, q.drop_last());
    } else {
        assert(p + q =~= p);
        lemma_basename_start_bounds(p);
    }
}

/// Objects whose key ends in `tail`, a string without `/` that rules out
/// the frame shapes at its position, are never deleted by a sweep.
proof fn lemma_tail_is_kept(kind: FrameKind, p: Seq<char>, tail: Seq<char>, now: int)
    requires
        forall|i: int| 0 <= i < tail.len() ==> tail[i] != '/',
        4 <= tail.len() <= 25,
        tail.subrange(tail.len() - 4, tail.len() as int) != ".png"@ || tail.len() >= 9
            && tail[tail.len() - 9] == '.',
        tail.subrange(tail.len() - 4, tail.len() as int) != ".jpg"@ || tail.len() >= 9
            && tail[tail.len() - 9] == '.',
    ensures
        !expired(kind, p + tail, now),
{
    let s = p + tail;
    lemma_basename_keeps_plain_tail(p, tail);
    lemma_basename_start_bounds(s);
    let b = basename(s);
    let k = basename_start(s);
    if b.len() == 25 {
        let t = tail.len() as int;
        assert forall|i: int| 0 <= i < t implies b[25 - t + i] == tail[i] by {
            assert(b[25 - t + i] == s[k + 25 - t + i]);
            assert(s[p.len() + i] == tail[i]);
        }
        assert(b.subrange(21, 25) =~= tail.subrange(t - 4, t));
        if tail.len() >= 9 && tail[t - 9] == '.' {
            assert(b[16] == '.');
            assert(b.subrange(9, 21)[7] == '.');
        }
    }
}

/// The sweep never deletes a base composite (`{subject}.base.png`) or a
/// generated timelapse (`external/{subject}.{key}.radar.gif` or
/// `.satellite.gif`), whatever its age: their names never have a frame shape.
pub proof fn law_sweep_spares_composites_and_artifacts(
    kind: FrameKind,
    subject: Seq<char>,
    key: Seq<char>,
    now: int,
)
    ensures
        !expired(kind, subject + ".base.png"@, now),
        !expired(kind, "external/"@ + subject + "."@ + key + ".radar.gif"@, now),
        !expired(kind, "external/"@ + subject + "."@ + key + ".satellite.gif"@, now),
{
    reveal_strlit(".base.png");
    reveal_strlit(".radar.gif");
    reveal_strlit(".satellite.gif");
    reveal_strlit(".png");
    reveal_strlit(".jpg");
    assert(".base.png"@.subrange(5, 9) =~= ".png"@);
    lemma_tail_is_kept(kind, subject, ".base.png"@, now);
    assert(".radar.gif"@.subrange(6, 10) != ".png"@) by {
        assert(".radar.gif"@.subrange(6, 10)[1] == 'g');
    }
    assert(".radar.gif"@.subrange(6, 10) != ".jpg"@) by {
        assert(".radar.gif"@.subrange(6, 10)[1] == 'g');
    }
    lemma_tail_is_kept(kind, "external/"@ + subject + "."@ + key, ".radar.gif"@, now);
    assert(".satellite.gif"@.subrange(10, 14) != ".png"@) by {
        assert(".satellite.gif"@.subrange(10, 14)[1] == 'g');
    }
    assert(".satellite.gif"@.subrange(10, 14) != ".jpg"@) by {
        assert(".satellite.gif"@.subrange(10, 14)[1] == 'g');
    }
    lemma_tail_is_kept(kind, "external/"@ + subject + "."@ + key, ".satellite.gif"@, now);
}

} // verus!
