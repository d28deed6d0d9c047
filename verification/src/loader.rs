use vstd::prelude::*;

use crate::aseprite::{
    aseprite_frames, aseprite_load, aseprite_render, header_size, load_aseprite, render_frame,
    render_sizes_fit, rgba_len, sprite_frames, sprite_size,
};

verus! {

/// Nanoseconds in one millisecond.
pub const NANOS_PER_MILLI: u64 = 1_000_000;

/// Why an Aseprite file could not be turned into animation frames.
#[derive(Clone, Copy, Debug, PartialEq, Eq, Structural)]
pub enum AnimationLoadError {
    /// The bytes are not an Aseprite file the loader accepts.
    Parse,
    /// A buffer the loader would size for this file (the sprite's or a cel's
    /// RGBA image) does not fit in `usize` on this machine.
    FrameTooLarge,
}

/// The rendered frames of an Aseprite file and how long each is shown.
pub struct DecodedAnimation {
    /// Sprite width in pixels.
    pub width: u16,
    /// Sprite height in pixels.
    pub height: u16,
    /// One RGBA8 buffer of `width * height * 4` bytes per frame, in order.
    pub frames: Vec<Vec<u8>>,
    /// How long each frame stays on screen, in nanoseconds.
    pub frame_durations: Vec<u64>,
}

/// `n` zero bytes.
pub open spec fn zeroed(n: int) -> Seq<u8> {
    Seq::new(n as nat, |i: int| 0u8)
}

/// Bytes in one RGBA8 frame of the sprite whose file these bytes are.
pub open spec fn sprite_frame_len(data: Seq<u8>) -> int {
    rgba_len(header_size(data).0, header_size(data).1)
}

/// Every buffer the loader sizes for any frame of the file fits in `usize`.
pub open spec fn all_render_sizes_fit(data: Seq<u8>) -> bool {
    forall|i: int| 0 <= i < aseprite_frames(data).len() ==> #[trigger] render_sizes_fit(data, i)
}

/// The loader returns normally on these bytes: parsing does not panic, and
/// when the bytes parse, neither does rendering any of their frames onto a
/// cleared RGBA buffer.
pub open spec fn aseprite_decodes_without_panic(data: Seq<u8>) -> bool {
    &&& aseprite_load(data) is Some
    &&& aseprite_load(data) == Some(true) ==> forall|i: int|
        0 <= i < aseprite_frames(data).len() ==> #[trigger] aseprite_render(
            data,
            i,
            zeroed(sprite_frame_len(data)),
        ) is Some
}

/// Converts frame durations from milliseconds (as Aseprite stores them) to
/// nanoseconds.
pub fn durations_to_nanos(millis: &[u16]) -> (nanos: Vec<u64>)
    ensures
        nanos@.len() == millis@.len(),
        forall|i: int|
            0 <= i < millis@.len() ==> nanos@[i] == millis@[i] as int * NANOS_PER_MILLI as int,
{
    let mut nanos: Vec<u64> = Vec::new();
    let mut i: usize = 0;
    while i < millis.len()
        invariant
            i <= millis@.len(),
            nanos@.len() == i,
            forall|j: int| 0 <= j < i ==> nanos@[j] == millis@[j] as int * NANOS_PER_MILLI as int,
        decreases millis@.len() - i,
    {
        let ms: u64 = millis[i] as u64;
        assert(ms * NANOS_PER_MILLI <= 65535 * 1_000_000) by (nonlinear_arith)
            requires
                ms <= 65535,
        ;
        nanos.push(ms * NANOS_PER_MILLI);
        i = i + 1;
    }
    nanos
}

/// Whether an RGBA image of `width` by `height` pixels fits in `usize`.
fn rgba_fits(width: u16, height: u16) -> (fits: bool)
    ensures
        fits <==> rgba_len(width as int, height as int) <= usize::MAX,
{
    let w: u64 = width as u64;
    let h: u64 = height as u64;
    assert(w * h <= 65535 * 65535) by (nonlinear_arith)
        requires
            w <= 65535,
            h <= 65535,
    ;
    let len: u64 = w * h * 4;
    len <= usize::MAX as u64
}

/// Whether every buffer the loader sizes while rendering any of `frames`
/// fits in `usize` (see `render_sizes_fit`).
fn frames_fit(
    data_len: usize,
    width: u16,
    height: u16,
    frames: &Vec<(u16, Vec<(u16, u16)>)>,
    data: Ghost<Seq<u8>>,
) -> (fits: bool)
    requires
        data@.len() == data_len,
        data@.len() >= 128,
        width as int == header_size(data@).0,
        height as int == header_size(data@).1,
        frames@.len() == aseprite_frames(data@).len(),
        forall|i: int|
            0 <= i < frames@.len() ==> (#[trigger] frames@[i]).1@ == aseprite_frames(data@)[i].1,
    ensures
        fits <==> all_render_sizes_fit(data@),
{
    let sprite_fits = rgba_fits(width, height);
    let bytes_fit = data_len <= usize::MAX / 4;
    if !sprite_fits || !bytes_fit {
        if frames.len() > 0 {
            assert(!render_sizes_fit(data@, 0));
        }
        return frames.len() == 0;
    }
    assert(data_len * 4 <= usize::MAX) by (nonlinear_arith)
        requires
            data_len <= usize::MAX / 4,
    ;
    let mut i: usize = 0;
    while i < frames.len()
        invariant
            data@.len() * 4 <= usize::MAX,
            rgba_len(header_size(data@).0, header_size(data@).1) <= usize::MAX,
            data@.len() == data_len,
            width as int == header_size(data@).0,
            height as int == header_size(data@).1,
            frames@.len() == aseprite_frames(data@).len(),
            forall|k: int|
                0 <= k < frames@.len() ==> (#[trigger] frames@[k]).1@ == aseprite_frames(data@)[k].1,
            i <= frames@.len(),
            forall|k: int| 0 <= k < i ==> #[trigger] render_sizes_fit(data@, k),
        decreases frames@.len() - i,
    {
        let cels = &frames[i].1;
        let ghost cel_sizes = aseprite_frames(data@)[i as int].1;
        let mut j: usize = 0;
        while j < cels.len()
            invariant
                cels@ == cel_sizes,
                cel_sizes == aseprite_frames(data@)[i as int].1,
                0 <= i < frames@.len(),
                frames@.len() == aseprite_frames(data@).len(),
                data@.len() * 4 <= usize::MAX,
                rgba_len(header_size(data@).0, header_size(data@).1) <= usize::MAX,
                data@.len() == data_len,
                width as int == header_size(data@).0,
                height as int == header_size(data@).1,
                j <= cels@.len(),
                forall|m: int|
                    0 <= m < j ==> rgba_len(#[trigger] cel_sizes[m].0 as int, cel_sizes[m].1 as int)
                        <= usize::MAX,
            decreases cels@.len() - j,
        {
            let (cel_width, cel_height) = cels[j];
            if !rgba_fits(cel_width, cel_height) {
                assert(!render_sizes_fit(data@, i as int));
                return false;
            }
            j = j + 1;
        }
        assert(forall|m: int|
            0 <= m < cel_sizes.len() ==> rgba_len(#[trigger] cel_sizes[m].0 as int, cel_sizes[m].1 as int)
                <= usize::MAX);
        assert(render_sizes_fit(data@, i as int));
        i = i + 1;
    }
    true
}

/// Decodes an Aseprite file into RGBA frames and their display times.
///
/// Each frame is rendered from the layers visible in the file onto a cleared
/// buffer of `width * height * 4` bytes. Durations are converted from
/// milliseconds to nanoseconds. A file for which some buffer the loader would
/// size does not fit in `usize` is refused with `FrameTooLarge`.
///
/// The Aseprite loader panics on some malformed files (a cel on a layer that
/// does not exist, cel pixels that cannot be decoded); `requires` leaves those
/// bytes out.
pub fn decode_aseprite_animation(data: &[u8]) -> (res: Result<DecodedAnimation, AnimationLoadError>)
    requires
        aseprite_decodes_without_panic(data@),
    ensures
        aseprite_load(data@) == Some(false) ==> res == Err::<DecodedAnimation, _>(
            AnimationLoadError::Parse,
        ),
        aseprite_load(data@) == Some(true) ==> ({
            let frames = aseprite_frames(data@);
            let frame_len = sprite_frame_len(data@);
            &&& (!all_render_sizes_fit(data@) <==> res == Err::<DecodedAnimation, _>(
                AnimationLoadError::FrameTooLarge,
            ))
            &&& (all_render_sizes_fit(data@) <==> res is Ok)
            &&& res matches Ok(decoded) ==> {
                &&& decoded.width as int == header_size(data@).0
                &&& decoded.height as int == header_size(data@).1
                &&& decoded.frames@.len() == frames.len()
                &&& decoded.frame_durations@.len() == frames.len()
                &&& forall|i: int|
                    0 <= i < frames.len() ==> (#[trigger] decoded.frames@[i])@.len() == frame_len
                &&& forall|i: int|
                    0 <= i < frames.len() ==> Some(#[trigger] decoded.frames@[i]@)
                        == aseprite_render(data@, i, zeroed(frame_len))
                &&& forall|i: int|
                    0 <= i < frames.len() ==> #[trigger] decoded.frame_durations@[i]
                        == frames[i].0 as int * NANOS_PER_MILLI as int
            }
        }),
{
    let source = match load_aseprite(data) {
        Ok(source) => source,
        Err(_) => {
            return Err(AnimationLoadError::Parse);
        },
    };
    let (width, height) = sprite_size(&source);
    let frames_info = sprite_frames(&source);
    if !frames_fit(data.len(), width, height, &frames_info, Ghost(data@)) {
        return Err(AnimationLoadError::FrameTooLarge);
    }
    let ghost frame_len = sprite_frame_len(data@);
    let frame_size: usize = if frames_info.len() > 0 {
        assert(render_sizes_fit(data@, 0));
        let w: usize = width as usize;
        let h: usize = height as usize;
        assert(w * h * 4 <= usize::MAX);
        assert(w * h <= usize::MAX) by (nonlinear_arith)
            requires
                w * h * 4 <= usize::MAX,
                w >= 0,
                h >= 0,
        ;
        w * h * 4
    } else {
        0
    };

    let mut frames: Vec<Vec<u8>> = Vec::new();
    let mut millis: Vec<u16> = Vec::new();
    let mut frame_index: usize = 0;
    while frame_index < frames_info.len()
        invariant
            source.bytes() == data@,
            data@.len() >= 128,
            width as int == header_size(data@).0,
            height as int == header_size(data@).1,
            frames_info@.len() == aseprite_frames(data@).len(),
            forall|k: int|
                0 <= k < frames_info@.len() ==> (#[trigger] frames_info@[k]).0 == aseprite_frames(
                    data@,
                )[k].0,
            frames_info@.len() > 0 ==> frame_size == frame_len,
            frame_len == sprite_frame_len(data@),
            all_render_sizes_fit(data@),
            frame_index <= frames_info@.len(),
            frames@.len() == frame_index,
            millis@.len() == frame_index,
            forall|i: int| 0 <= i < frame_index ==> (#[trigger] frames@[i])@.len() == frame_len,
            forall|i: int|
                0 <= i < frame_index ==> Some(#[trigger] frames@[i]@) == aseprite_render(
                    data@,
                    i,
                    zeroed(frame_len),
                ),
            forall|i: int| 0 <= i < frame_index ==> #[trigger] millis@[i] == aseprite_frames(data@)[i].0,
            aseprite_decodes_without_panic(data@),
            aseprite_load(data@) == Some(true),
        decreases frames_info@.len() - frame_index,
    {
        // One cleared RGBA buffer per frame: four bytes per pixel.
        let mut rgba: Vec<u8> = vec![0u8; frame_size];
        assert(rgba@ =~= zeroed(frame_len));
        assert(render_sizes_fit(data@, frame_index as int));
        match render_frame(&source, frame_index, &mut rgba) {
            Ok(()) => {},
            Err(_) => {
                assert(false);
            },
        }
        frames.push(rgba);
        millis.push(frames_info[frame_index].0);
        frame_index = frame_index + 1;
    }

    let frame_durations = durations_to_nanos(millis.as_slice());
    Ok(DecodedAnimation { width, height, frames, frame_durations })
}

} // verus!
