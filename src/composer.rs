//! The per-subject base composite: overlay layers stacked on the legend.
use vstd::prelude::*;
use vstd::string::StringExecFns;
use crate::error::BOMError;
use crate::naming::{layer_dir, layer_dir_of};
use crate::raster::{
    decode_rgba, decoded_rgba, encode_png, overlaid, overlay_at_origin, png_encoded, Raster,
    RasterModel,
};

verus! {

/// The legend and the layers decoded, each layer drawn over what lies below
/// it in order; `None` when any of them does not decode.
pub open spec fn stacked(legend: Seq<u8>, layers: Seq<Seq<u8>>) -> Option<RasterModel>
    decreases layers.len(),
{
    if layers.len() == 0 {
        decoded_rgba(legend)
    } else {
        match (stacked(legend, layers.drop_last()), decoded_rgba(layers.last())) {
            (Some(below), Some(top)) => Some((below.0, below.1, overlaid(below, top))),
            _ => None,
        }
    }
}

/// The PNG bytes of the base composite made of these legend and layer bytes.
pub open spec fn base_composite(legend: Seq<u8>, layers: Seq<Seq<u8>>) -> Option<Seq<u8>> {
    match stacked(legend, layers) {
        Some(img) => png_encoded(img),
        None => None,
    }
}

/// Stacks the layers, in order, over the legend and encodes the result as PNG.
pub fn compose_base(legend: &Vec<u8>, layers: &Vec<Vec<u8>>) -> (r: Result<Vec<u8>, BOMError>)
    ensures
        r is Ok <==> base_composite(legend@, layers@.map_values(|l: Vec<u8>| l@)) is Some,
        r matches Ok(png) ==> base_composite(legend@, layers@.map_values(|l: Vec<u8>| l@))
            == Some(png@),
        r matches Err(e) ==> (e == BOMError::ImageDecode <==> stacked(
            legend@,
            layers@.map_values(|l: Vec<u8>| l@),
        ) is None) && (e == BOMError::ImageDecode || e == BOMError::ImageEncode),
{
    let ghost all = layers@.map_values(|l: Vec<u8>| l@);
    assert(all.subrange(0, 0) =~= Seq::<Seq<u8>>::empty());
    assert(all.subrange(0, all.len() as int) =~= all);
    let mut canvas: Raster = match decode_rgba(legend.as_slice()) {
        Ok(img) => img,
        Err(e) => {
            proof {
                lemma_stacked_fails_on(legend@, all, 0, all.len());
            }
            return Err(e);
        },
    };
    let mut i: usize = 0;
    while i < layers.len()
        invariant
            0 <= i <= layers.len(),
            all == layers@.map_values(|l: Vec<u8>| l@),
            canvas.wf(),
            stacked(legend@, all.subrange(0, i as int)) == Some(canvas.model()),
        decreases layers.len() - i,
    {
        let ghost upto = all.subrange(0, i + 1);
        assert(upto.drop_last() =~= all.subrange(0, i as int));
        assert(upto.last() == layers[i as int]@);
        match decode_rgba(layers[i].as_slice()) {
            Ok(top) => {
                overlay_at_origin(&mut canvas, &top);
            },
            Err(e) => {
                assert(stacked(legend@, upto) is None);
                assert forall|k: nat| k >= i + 1 && k <= all.len() implies stacked(
                    legend@,
                    #[trigger] all.subrange(0, k as int),
                ) is None by {
                    lemma_stacked_fails_on(legend@, all, (i + 1) as nat, k);
                }
                assert(all.subrange(0, all.len() as int) =~= all);
                return Err(e);
            },
        }
        i = i + 1;
    }
    assert(all.subrange(0, all.len() as int) =~= all);
    encode_png(&canvas)
}

proof fn lemma_stacked_fails_on(legend: Seq<u8>, all: Seq<Seq<u8>>, j: nat, k: nat)
    requires
        j <= k <= all.len(),
        stacked(legend, all.subrange(0, j as int)) is None,
    ensures
        stacked(legend, all.subrange(0, k as int)) is None,
    decreases k - j,
{
    if k > j {
        lemma_stacked_fails_on(legend, all, j, (k - 1) as nat);
        assert(all.subrange(0, k as int).drop_last() =~= all.subrange(0, k - 1));
    }
}

/// Rebuilding the base composite from unchanged legend and layer bytes
/// gives byte-identical PNG output: the composite depends on those bytes
/// alone.
pub proof fn law_base_is_stable(
    legend: Seq<u8>,
    layers: Seq<Seq<u8>>,
    legend_again: Seq<u8>,
    layers_again: Seq<Seq<u8>>,
)
    requires
        legend_again == legend,
        layers_again == layers,
    ensures
        base_composite(legend_again, layers_again) == base_composite(legend, layers),
{
}

/// Remote path of the shared legend that every base composite starts from.
pub open spec fn legend_path() -> Seq<char> {
    layer_dir() + "/IDR.legend.0.png"@
}

pub fn legend_path_of() -> (r: String)
    ensures
        r@ == legend_path(),
{
    let mut p = String::from_str(layer_dir_of());
    p.append("/IDR.legend.0.png");
    p
}

/// Remote path of one overlay layer of a radar subject.
pub open spec fn layer_path(subject: Seq<char>, layer: Seq<char>) -> Seq<char> {
    layer_dir() + "/"@ + subject + "."@ + layer + ".png"@
}

/// Remote paths of the subject's overlay layers, in drawing order:
/// background, topography, locations, range rings.
pub fn layer_paths(subject: &str) -> (r: Vec<String>)
    ensures
        r@.len() == 4,
        r[0]@ == layer_path(subject@, "background"@),
        r[1]@ == layer_path(subject@, "topography"@),
        r[2]@ == layer_path(subject@, "locations"@),
        r[3]@ == layer_path(subject@, "range"@),
{
    let mut r: Vec<String> = Vec::new();
    r.push(one_layer_path(subject, "background"));
    r.push(one_layer_path(subject, "topography"));
    r.push(one_layer_path(subject, "locations"));
    r.push(one_layer_path(subject, "range"));
    r
}

fn one_layer_path(subject: &str, layer: &str) -> (r: String)
    ensures
        r@ == layer_path(subject@, layer@),
{
    let mut p = String::from_str(layer_dir_of());
    p.append("/");
    p.append(subject);
    p.append(".");
    p.append(layer);
    p.append(".png");
    p
}

/// Storage key of the subject's base composite, outside the frame caches.
pub open spec fn base_path(subject: Seq<char>) -> Seq<char> {
    subject + ".base.png"@
}

pub fn base_path_of(subject: &str) -> (r: String)
    ensures
        r@ == base_path(subject@),
{
    let mut p = String::from_str(subject);
    p.append(".base.png");
    p
}

} // verus!
