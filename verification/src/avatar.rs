//! Avatar images: where they are fetched from, and how a downloaded image
//! becomes the RGBA pixels the overlay uploads as a texture.

use vstd::prelude::*;
use crate::discord::{DiscordEvent, DiscordEventV, UserId};

verus! {

/// The CDN that serves Discord avatars.
pub open spec fn default_avatar_base() -> Seq<char> {
    "https://cdn.discordapp.com/avatars"@
}

/// The avatar base URL: the override when one is set, the Discord CDN otherwise.
pub fn avatar_base_url(override_url: Option<&str>) -> (r: String)
    ensures
        r@ == match override_url {
            Some(u) => u@,
            None => default_avatar_base(),
        },
{
    match override_url {
        Some(u) => u.to_owned(),
        None => {
            let r = "https://cdn.discordapp.com/avatars".to_owned();
            proof { reveal_strlit("https://cdn.discordapp.com/avatars"); }
            r
        },
    }
}

/// The URL of a user's avatar as a 64-pixel PNG.
pub fn avatar_url(base: &str, user_id: &UserId, hash: &str) -> (r: String)
    ensures
        r@ == base@ + "/"@ + user_id.0@ + "/"@ + hash@ + ".png?size=64"@,
{
    let mut s = base.to_owned();
    s.append("/");
    s.append(user_id.as_str());
    s.append("/");
    s.append(hash);
    s.append(".png?size=64");
    s
}

/// The RGBA8 pixels, width and height of the image encoded in `bytes`, or
/// `None` when the bytes are not an image the decoder recognises.
pub uninterp spec fn decoded_rgba(bytes: Seq<u8>) -> Option<(Seq<u8>, u32, u32)>;

/// Decodes an image with `image::load_from_memory` and converts it with
/// `DynamicImage::to_rgba8`. Claimed: the result is `decoded_rgba` of the bytes,
/// and the pixel buffer holds at least four bytes per pixel (an `ImageBuffer`
/// is never smaller than its dimensions require).
#[verifier::external_body]
fn decode_rgba(bytes: &[u8]) -> (r: Option<(Vec<u8>, u32, u32)>)
    ensures
        match r {
            Some((px, w, h)) => decoded_rgba(bytes@) == Some((px@, w, h)) && px@.len() >= 4 * w * h,
            None => decoded_rgba(bytes@) is None,
        },
{
    match image::load_from_memory(bytes) {
        Ok(img) => {
            let rgba = img.to_rgba8();
            let (w, h) = rgba.dimensions();
            Some((rgba.into_raw(), w, h))
        },
        Err(_) => None,
    }
}

/// The pixels of a `w` by `h` RGBA image with its rows in reverse order:
/// row `y` of the result is row `h - 1 - y` of `px`.
pub open spec fn flipped_rows(px: Seq<u8>, w: nat, h: nat) -> Seq<u8> {
    let stride: int = 4 * (w as int);
    Seq::new((stride * h) as nat, |i: int| px[(h - 1 - i / stride) * stride + i % stride])
}

proof fn lemma_row_index(y: int, x: int, stride: int, h: int)
    requires
        0 <= y < h,
        0 <= x < stride,
    ensures
        (y * stride + x) / stride == y,
        (y * stride + x) % stride == x,
        0 <= y * stride + x < stride * h,
        0 <= (h - 1 - y) * stride + x < stride * h,
{
    assert((y * stride + x) / stride == y && (y * stride + x) % stride == x) by (nonlinear_arith)
        requires 0 <= x < stride, 0 <= y;
    assert(y * stride + x < stride * h) by (nonlinear_arith)
        requires 0 <= y < h, 0 <= x < stride;
    assert(0 <= y * stride) by (nonlinear_arith)
        requires 0 <= y, 0 <= stride;
    assert(0 <= (h - 1 - y) * stride && (h - 1 - y) * stride + x < stride * h) by (nonlinear_arith)
        requires 0 <= y < h, 0 <= x < stride;
}

/// Flips an RGBA image vertically (the overlay's texture origin is the bottom row).
pub fn flip_rows(px: &[u8], w: u32, h: u32) -> (r: Vec<u8>)
    requires
        px@.len() >= 4 * w * h,
    ensures
        r@ == flipped_rows(px@, w as nat, h as nat),
{
    let ghost stride_i: int = 4 * w;
    assert(4 * w * h == stride_i * h) by (nonlinear_arith)
        requires stride_i == 4 * w;
    let n: usize = px.len();
    assert(stride_i * h <= usize::MAX) by {
        assert(stride_i * h <= px@.len());
        assert(n == px@.len());
    }
    let mut out: Vec<u8> = Vec::new();
    if h == 0 || w == 0 {
        assert(stride_i * h == 0) by (nonlinear_arith)
            requires h == 0 || stride_i == 0;
        assert(out@ =~= flipped_rows(px@, w as nat, h as nat));
        return out;
    }
    assert(stride_i <= stride_i * h) by (nonlinear_arith)
        requires h >= 1, stride_i >= 0;
    let stride: usize = 4 * (w as usize);
    let mut y: u32 = 0;
    while y < h
        invariant
            stride as int == stride_i,
            stride_i == 4 * w,
            stride_i * h <= px@.len(),
            stride_i * h <= usize::MAX,
            y <= h,
            h >= 1,
            w >= 1,
            out@.len() == y * stride_i,
            forall|i: int| 0 <= i < out@.len() ==> out@[i] == #[trigger] flipped_rows(px@, w as nat, h as nat)[i],
        decreases h - y,
    {
        let src_row: usize = (h - 1 - y) as usize;
        proof {
            lemma_row_index(y as int, 0, stride_i, h as int);
            assert((h - 1 - y) * stride_i + stride_i <= stride_i * h) by (nonlinear_arith)
                requires 0 <= y < h, stride_i >= 0;
        }
        assert(src_row as int * stride as int == (h - 1 - y) * stride_i);
        assert(src_row as int * stride as int <= usize::MAX);
        let start: usize = src_row * stride;
        let mut x: usize = 0;
        while x < stride
            invariant
                stride as int == stride_i,
                stride_i == 4 * w,
                stride_i * h <= px@.len(),
                y < h,
                w >= 1,
                start as int == (h - 1 - y) * stride_i,
                start + stride_i <= stride_i * h,
                stride_i * h <= usize::MAX,
                x <= stride,
                out@.len() == y * stride_i + x,
                forall|i: int| 0 <= i < out@.len() ==> out@[i] == #[trigger] flipped_rows(px@, w as nat, h as nat)[i],
            decreases stride - x,
        {
            proof { lemma_row_index(y as int, x as int, stride_i, h as int); }
            out.push(px[start + x]);
            x += 1;
        }
        proof {
            assert((y + 1) * stride_i == y * stride_i + stride_i) by (nonlinear_arith);
        }
        y += 1;
    }
    assert(h * stride_i == stride_i * h) by (nonlinear_arith);
    assert(out@ =~= flipped_rows(px@, w as nat, h as nat));
    out
}

/// The event for a decoded avatar: its pixels flipped vertically and its width
/// as the texture size; nothing when the image could not be decoded or has
/// zero width.
pub open spec fn spec_avatar_loaded(user_id: Seq<char>, decoded: Option<(Seq<u8>, u32, u32)>) -> Option<DiscordEventV> {
    match decoded {
        Some((px, w, h)) => if w > 0 {
            Some(DiscordEventV::AvatarLoaded { user_id, rgba: flipped_rows(px, w as nat, h as nat), size: w })
        } else {
            None
        },
        None => None,
    }
}

pub open spec fn opt_event_view(e: Option<DiscordEvent>) -> Option<DiscordEventV> {
    match e {
        Some(x) => Some(x@),
        None => None,
    }
}

/// The event for a decoded image, given what the decoder returned.
pub fn avatar_loaded(user_id: UserId, decoded: Option<(Vec<u8>, u32, u32)>) -> (r: Option<DiscordEvent>)
    requires
        decoded matches Some((px, w, h)) ==> px@.len() >= 4 * w * h,
    ensures
        opt_event_view(r) == spec_avatar_loaded(
            user_id.0@,
            match decoded {
                Some((px, w, h)) => Some((px@, w, h)),
                None => None,
            },
        ),
{
    match decoded {
        Some((px, w, h)) => {
            if w > 0 {
                let rgba = flip_rows(px.as_slice(), w, h);
                Some(DiscordEvent::AvatarLoaded { user_id, rgba, size: w })
            } else {
                None
            }
        },
        None => None,
    }
}

/// The event for a downloaded avatar image.
pub fn avatar_event(user_id: UserId, bytes: &[u8]) -> (r: Option<DiscordEvent>)
    ensures
        opt_event_view(r) == spec_avatar_loaded(user_id.0@, decoded_rgba(bytes@)),
{
    let decoded = decode_rgba(bytes);
    avatar_loaded(user_id, decoded)
}

} // verus!
