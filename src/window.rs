//! Choosing the most recent frames of a subject from a remote listing.
use vstd::prelude::*;
use vstd::string::StrSliceExecFns;
use crate::naming::{frame_shape, is_frame_name, remote_dir, remote_dir_of, FrameKind};
use crate::text::{is_digit, names, spells_at};

verus! {

/// Length of a subject identifier of the family (`IDR703`, `IDE00416`).
pub open spec fn subject_len(kind: FrameKind) -> nat {
    match kind {
        FrameKind::Radar => 6,
        FrameKind::Satellite => 8,
    }
}

/// The number that a string of decimal digits spells.
pub open spec fn decimal(s: Seq<char>) -> nat
    decreases s.len(),
{
    if s.len() == 0 {
        0
    } else {
        decimal(s.drop_last()) * 10 + (s.last() as nat - '0' as nat) as nat
    }
}

/// Where the basename begins in a listed path of the family.
pub open spec fn name_start(kind: FrameKind) -> int {
    remote_dir(kind).len() as int + 1
}

/// The stamp, as a number, of a remote path that names a frame of `subject`:
/// the family's directory, a `/`, then a frame basename that begins with the
/// subject's identifier. `None` for any other path.
pub open spec fn listed_stamp(kind: FrameKind, subject: Seq<char>, path: Seq<char>) -> Option<nat> {
    let s = name_start(kind);
    let b = path.subrange(s, path.len() as int);
    if path.len() == s + 25 && path.subrange(0, s - 1) == remote_dir(kind) && path[s - 1] == '/'
        && frame_shape(kind, b) && subject.len() == subject_len(kind) && b.subrange(
        0,
        subject.len() as int,
    ) == subject {
        Some(decimal(b.subrange(9, 21)))
    } else {
        None
    }
}

/// Ten to the power `n`.
pub open spec fn pow10(n: nat) -> nat
    decreases n,
{
    if n == 0 {
        1
    } else {
        10 * pow10((n - 1) as nat)
    }
}

proof fn lemma_decimal_bound(s: Seq<char>)
    requires
        forall|i: int| 0 <= i < s.len() ==> is_digit(#[trigger] s[i]),
    ensures
        decimal(s) < pow10(s.len()),
    decreases s.len(),
{
    if s.len() > 0 {
        let p = s.drop_last();
        assert(forall|i: int| 0 <= i < p.len() ==> p[i] == s[i]);
        lemma_decimal_bound(p);
        assert(is_digit(s[s.len() - 1]));
        let d = decimal(p);
        let q = pow10(p.len());
        let e = (s.last() as nat - '0' as nat) as nat;
        assert(d * 10 + e < q * 10) by (nonlinear_arith)
            requires
                d < q,
                e <= 9,
        ;
    }
}

proof fn lemma_pow10_mono(a: nat, b: nat)
    requires
        a <= b,
    ensures
        pow10(a) <= pow10(b),
    decreases b,
{
    if a < b {
        lemma_pow10_mono(a, (b - 1) as nat);
    }
}

/// The number spelled by the characters of `s` in `from..to`, all digits.
fn decimal_between(s: &str, from: usize, to: usize) -> (r: u64)
    requires
        from <= to <= s@.len(),
        to - from <= 12,
        forall|i: int| from <= i < to ==> is_digit(#[trigger] s@[i]),
    ensures
        r as nat == decimal(s@.subrange(from as int, to as int)),
{
    let mut v: u64 = 0;
    let mut i: usize = from;
    while i < to
        invariant
            from <= i <= to <= s@.len(),
            to - from <= 12,
            forall|k: int| from <= k < to ==> is_digit(#[trigger] s@[k]),
            v as nat == decimal(s@.subrange(from as int, i as int)),
        decreases to - i,
    {
        let c = s.get_char(i);
        let ghost next = s@.subrange(from as int, i + 1);
        proof {
            assert(next.drop_last() =~= s@.subrange(from as int, i as int));
            assert forall|k: int| 0 <= k < next.len() implies is_digit(#[trigger] next[k]) by {
                assert(next[k] == s@[from + k]);
            }
            lemma_decimal_bound(next);
            reveal_with_fuel(pow10, 13);
            assert(pow10(12) == 1_000_000_000_000);
            assert(pow10(next.len()) <= pow10(12)) by {
                lemma_pow10_mono(next.len(), 12);
            }
        }
        v = v * 10 + (c as u64 - '0' as u64);
        i = i + 1;
    }
    v
}

/// The stamp of a listed remote path, when it names a frame of `subject`.
pub fn stamp_of_listed(kind: FrameKind, subject: &str, path: &str) -> (r: Option<u64>)
    ensures
        r matches Some(t) ==> listed_stamp(kind, subject@, path@) == Some(t as nat),
        r is None ==> listed_stamp(kind, subject@, path@) is None,
{
    proof {
        reveal_strlit("/anon/gen/radar");
        reveal_strlit("/anon/gen/gms");
    }
    let dir = remote_dir_of(kind);
    let s = dir.unicode_len() + 1;
    let n = path.unicode_len();
    let m = subject.unicode_len();
    let want: usize = match kind {
        FrameKind::Radar => 6,
        FrameKind::Satellite => 8,
    };
    proof {
        reveal_strlit("/anon/gen/radar");
        reveal_strlit("/anon/gen/gms");
    }
    if n != s + 25 || m != want {
        return None;
    }
    if !spells_at(path, 0, dir) || path.get_char(s - 1) != '/' {
        return None;
    }
    let b = path.substring_char(s, n);
    if !is_frame_name(kind, b) || !spells_at(b, 0, subject) {
        return None;
    }
    assert forall|i: int| 9 <= i < 21 implies is_digit(#[trigger] b@[i]) by {
        assert(b@.subrange(9, 21)[i - 9] == b@[i]);
    }
    Some(decimal_between(b, 9, 21))
}

/// The stamp of the listed path at index `i`.
pub open spec fn stamp_at(kind: FrameKind, subject: Seq<char>, listed: Seq<Seq<char>>, i: int) -> Option<
    nat,
> {
    listed_stamp(kind, subject, listed[i])
}

/// Whether `w` is the window of the `count` most recent frames of `subject`
/// among the `listed` paths, oldest first: it holds only listed frame paths,
/// in strictly increasing stamp order; it holds `count` of them unless it
/// holds every listed stamp; and any listed stamp it leaves out is older
/// than all it holds.
pub open spec fn window_ok(
    kind: FrameKind,
    subject: Seq<char>,
    listed: Seq<Seq<char>>,
    count: nat,
    w: Seq<Seq<char>>,
) -> bool {
    &&& w.len() <= count
    &&& forall|j: int|
        0 <= j < w.len() ==> #[trigger] listed_stamp(kind, subject, w[j]) is Some
            && listed.contains(w[j])
    &&& forall|j: int, k: int|
        0 <= j < k < w.len() ==> listed_stamp(kind, subject, #[trigger] w[j])->0 < listed_stamp(
            kind,
            subject,
            #[trigger] w[k],
        )->0
    &&& forall|i: int|
        0 <= i < listed.len() && #[trigger] stamp_at(kind, subject, listed, i) is Some ==> (exists|
            j: int,
        |
            0 <= j < w.len() && listed_stamp(kind, subject, #[trigger] w[j]) == stamp_at(
                kind,
                subject,
                listed,
                i,
            )) || (w.len() == count && (count == 0 || stamp_at(kind, subject, listed, i)->0
            < listed_stamp(kind, subject, w[0])->0))
}

/// The most recent `count` frames of `subject` among the `listed` remote
/// paths, oldest first. Paths that do not name a frame of the subject are
/// passed over. The result holds only listed frame paths, in strictly
/// increasing stamp order; it holds `count` of them unless it holds every
/// listed stamp; and any listed stamp it leaves out is older than all it holds.
pub fn recent_frames(kind: FrameKind, subject: &str, listed: &Vec<String>, count: usize) -> (r: Vec<
    String,
>)
    ensures
        window_ok(kind, subject@, names(listed@), count as nat, names(r@)),
{
    // Distinct stamps seen so far, increasing, each with the index of a path that bears it.
    let mut seen: Vec<(u64, usize)> = Vec::new();
    let mut i: usize = 0;
    while i < listed.len()
        invariant
            0 <= i <= listed.len(),
            forall|a: int, b: int| 0 <= a < b < seen.len() ==> seen[a].0 < seen[b].0,
            forall|a: int|
                0 <= a < seen.len() ==> #[trigger] seen[a].1 < listed.len() && stamp_at(
                    kind,
                    subject@,
                    names(listed@),
                    seen[a].1 as int,
                ) == Some(seen[a].0 as nat),
            forall|k: int|
                0 <= k < i && #[trigger] stamp_at(kind, subject@, names(listed@), k) is Some ==> exists|
                    a: int,
                | 0 <= a < seen.len() && Some(seen[a].0 as nat) == stamp_at(
                    kind,
                    subject@,
                    names(listed@),
                    k,
                ),
        decreases listed.len() - i,
    {
        match stamp_of_listed(kind, subject, listed[i].as_str()) {
            None => {},
            Some(t) => {
                // Position of the first stamp not below `t`.
                let mut p: usize = 0;
                while p < seen.len() && seen[p].0 < t
                    invariant
                        0 <= p <= seen.len(),
                        forall|a: int| 0 <= a < p ==> seen[a].0 < t,
                    decreases seen.len() - p,
                {
                    p = p + 1;
                }
                if p == seen.len() || seen[p].0 != t {
                    let ghost before = seen@;
                    seen.insert(p, (t, i));
                    assert forall|k: int|
                        0 <= k < i && #[trigger] stamp_at(kind, subject@, names(listed@), k)
                            is Some implies exists|a: int|
                        0 <= a < seen.len() && Some(seen[a].0 as nat) == stamp_at(
                            kind,
                            subject@,
                            names(listed@),
                            k,
                        ) by {
                        let a = choose|a: int|
                            0 <= a < before.len() && Some(before[a].0 as nat) == stamp_at(
                                kind,
                                subject@,
                                names(listed@),
                                k,
                            );
                        if a < p {
                            assert(seen[a] == before[a]);
                        } else {
                            assert(seen[a + 1] == before[a]);
                        }
                    }
                    assert(seen[p as int].0 == t);
                }
            },
        }
        i = i + 1;
    }
    let len = seen.len();
    let start: usize = if len > count {
        len - count
    } else {
        0
    };
    let mut r: Vec<String> = Vec::new();
    let mut a: usize = start;
    while a < len
        invariant
            start <= a <= len == seen.len(),
            len - start <= count,
            r.len() == a - start,
            forall|x: int, y: int| 0 <= x < y < seen.len() ==> seen[x].0 < seen[y].0,
            forall|x: int|
                0 <= x < seen.len() ==> #[trigger] seen[x].1 < listed.len() && stamp_at(
                    kind,
                    subject@,
                    names(listed@),
                    seen[x].1 as int,
                ) == Some(seen[x].0 as nat),
            forall|j: int|
                0 <= j < r.len() ==> r[j]@ == listed[seen[start + j].1 as int]@,
        decreases len - a,
    {
        r.push(listed[seen[a].1].clone());
        a = a + 1;
    }
    let ghost w = names(r@);
    let ghost all = names(listed@);
    assert forall|j: int| 0 <= j < w.len() implies #[trigger] listed_stamp(kind, subject@, w[j])
        == Some(seen[start + j].0 as nat) && all.contains(w[j]) by {
        let x = seen[start + j].1 as int;
        assert(w[j] == r[j]@);
        assert(all[x] == w[j]);
    }
    assert forall|j: int, k: int| 0 <= j < k < w.len() implies listed_stamp(
        kind,
        subject@,
        #[trigger] w[j],
    )->0 < listed_stamp(kind, subject@, #[trigger] w[k])->0 by {
        assert(listed_stamp(kind, subject@, w[j]) == Some(seen[start + j].0 as nat));
        assert(listed_stamp(kind, subject@, w[k]) == Some(seen[start + k].0 as nat));
    }
    assert forall|i: int|
        0 <= i < all.len() && #[trigger] stamp_at(kind, subject@, all, i) is Some implies (exists|
        j: int,
    | 0 <= j < w.len() && listed_stamp(kind, subject@, #[trigger] w[j]) == stamp_at(
        kind,
        subject@,
        all,
        i,
    )) || (w.len() == count && (count == 0 || stamp_at(kind, subject@, all, i)->0 < listed_stamp(
        kind,
        subject@,
        w[0],
    )->0)) by {
        let x = choose|x: int|
            0 <= x < seen.len() && Some(seen[x].0 as nat) == stamp_at(kind, subject@, all, i);
        if x >= start {
            assert(listed_stamp(kind, subject@, w[x - start]) == stamp_at(kind, subject@, all, i));
        } else {
            if count > 0 {
                assert(listed_stamp(kind, subject@, w[0]) == Some(seen[start as int].0 as nat));
            }
        }
    }
    r
}

/// The listed paths that name frames of `subject`, in listing order.
pub open spec fn subject_paths(kind: FrameKind, subject: Seq<char>, listed: Seq<Seq<char>>) -> Seq<
    Seq<char>,
>
    decreases listed.len(),
{
    if listed.len() == 0 {
        Seq::empty()
    } else {
        let rest = subject_paths(kind, subject, listed.drop_last());
        if listed_stamp(kind, subject, listed.last()) is Some {
            rest.push(listed.last())
        } else {
            rest
        }
    }
}

/// Every listed path that names a frame of `subject`, in listing order.
pub fn frames_of_subject(kind: FrameKind, subject: &str, listed: &Vec<String>) -> (r: Vec<String>)
    ensures
        names(r@) == subject_paths(kind, subject@, names(listed@)),
{
    let mut r: Vec<String> = Vec::new();
    let mut i: usize = 0;
    while i < listed.len()
        invariant
            0 <= i <= listed.len(),
            names(r@) == subject_paths(kind, subject@, names(listed@).subrange(0, i as int)),
        decreases listed.len() - i,
    {
        assert(names(listed@).subrange(0, i + 1).drop_last() =~= names(listed@).subrange(
            0,
            i as int,
        ));
        if stamp_of_listed(kind, subject, listed[i].as_str()).is_some() {
            let ghost before = r@;
            r.push(listed[i].clone());
            assert(names(r@) =~= names(before).push(listed[i as int]@));
        }
        i = i + 1;
    }
    assert(names(listed@).subrange(0, listed@.len() as int) =~= names(listed@));
    r
}

} // verus!
