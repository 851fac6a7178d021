//! Naming conventions of remote frames, cache objects and generated artifacts.
use vstd::prelude::*;
use vstd::string::StrSliceExecFns;
use crate::text::{all_digits, digits_between, spells_at};

verus! {

/// The two families of frames that are fetched and cached.
#[derive(Clone, Copy, Debug, PartialEq, Eq, Structural)]
pub enum FrameKind {
    Radar,
    Satellite,
}

/// Length of every frame basename of either family.
pub const FRAME_NAME_LEN: usize = 25;

/// Where a frame basename's twelve-digit `YYYYMMDDHHmm` stamp begins.
pub const STAMP_START: usize = 9;

/// Where a frame basename's stamp ends.
pub const STAMP_END: usize = 21;

/// `IDR{3 digits}.T.{12 digits}.png`
pub open spec fn radar_shape(b: Seq<char>) -> bool {
    &&& b.len() == 25
    &&& b.subrange(0, 3) == "IDR"@
    &&& all_digits(b.subrange(3, 6))
    &&& b.subrange(6, 9) == ".T."@
    &&& all_digits(b.subrange(9, 21))
    &&& b.subrange(21, 25) == ".png"@
}

/// `IDE{5 digits}.{12 digits}.jpg`
pub open spec fn satellite_shape(b: Seq<char>) -> bool {
    &&& b.len() == 25
    &&& b.subrange(0, 3) == "IDE"@
    &&& all_digits(b.subrange(3, 8))
    &&& b.subrange(8, 9) == "."@
    &&& all_digits(b.subrange(9, 21))
    &&& b.subrange(21, 25) == ".jpg"@
}

/// Whether `b` is the basename of a generated frame of the given family.
pub open spec fn frame_shape(kind: FrameKind, b: Seq<char>) -> bool {
    match kind {
        FrameKind::Radar => radar_shape(b),
        FrameKind::Satellite => satellite_shape(b),
    }
}

/// The embedded generation stamp of a frame basename.
pub open spec fn stamp_of(b: Seq<char>) -> Seq<char> {
    b.subrange(9, 21)
}

/// Checks a basename against the radar frame pattern.
pub fn is_radar_frame_name(b: &str) -> (r: bool)
    ensures
        r == radar_shape(b@),
{
    if b.unicode_len() != FRAME_NAME_LEN {
        return false;
    }
    proof {
        reveal_strlit("IDR");
        reveal_strlit(".T.");
        reveal_strlit(".png");
    }
    spells_at(b, 0, "IDR") && digits_between(b, 3, 6) && spells_at(b, 6, ".T.")
        && digits_between(b, 9, 21) && spells_at(b, 21, ".png")
}

/// Checks a basename against the satellite frame pattern.
pub fn is_satellite_frame_name(b: &str) -> (r: bool)
    ensures
        r == satellite_shape(b@),
{
    if b.unicode_len() != FRAME_NAME_LEN {
        return false;
    }
    proof {
        reveal_strlit("IDE");
        reveal_strlit(".");
        reveal_strlit(".jpg");
    }
    spells_at(b, 0, "IDE") && digits_between(b, 3, 8) && spells_at(b, 8, ".")
        && digits_between(b, 9, 21) && spells_at(b, 21, ".jpg")
}

/// Checks a basename against the pattern of the given family.
pub fn is_frame_name(kind: FrameKind, b: &str) -> (r: bool)
    ensures
        r == frame_shape(kind, b@),
{
    match kind {
        FrameKind::Radar => is_radar_frame_name(b),
        FrameKind::Satellite => is_satellite_frame_name(b),
    }
}

/// The stamp of a basename that has a frame shape.
pub fn frame_stamp(kind: FrameKind, b: &str) -> (r: &str)
    requires
        frame_shape(kind, b@),
    ensures
        r@ == stamp_of(b@),
{
    b.substring_char(STAMP_START, STAMP_END)
}

/// Cache prefix under which frames of a family are stored.
pub open spec fn cache_prefix(kind: FrameKind) -> Seq<char> {
    match kind {
        FrameKind::Radar => "radar_cache"@,
        FrameKind::Satellite => "satellite_cache"@,
    }
}

pub fn cache_prefix_of(kind: FrameKind) -> (r: &'static str)
    ensures
        r@ == cache_prefix(kind),
{
    match kind {
        FrameKind::Radar => "radar_cache",
        FrameKind::Satellite => "satellite_cache",
    }
}

/// Remote directory that lists the frames of a family.
pub open spec fn remote_dir(kind: FrameKind) -> Seq<char> {
    match kind {
        FrameKind::Radar => "/anon/gen/radar"@,
        FrameKind::Satellite => "/anon/gen/gms"@,
    }
}

pub fn remote_dir_of(kind: FrameKind) -> (r: &'static str)
    ensures
        r@ == remote_dir(kind),
{
    match kind {
        FrameKind::Radar => "/anon/gen/radar",
        FrameKind::Satellite => "/anon/gen/gms",
    }
}

/// Remote directory of the fixed overlay layers and the shared legend.
pub open spec fn layer_dir() -> Seq<char> {
    "/anon/gen/radar_transparencies"@
}

pub fn layer_dir_of() -> (r: &'static str)
    ensures
        r@ == layer_dir(),
{
    "/anon/gen/radar_transparencies"
}

} // verus!
