//! The calls into `aseprite_loader` that decoding makes, with what they
//! promise.
//!
//! An `AsepriteFile` is opaque to Verus. It is therefore kept together with
//! the bytes it was parsed from, in an `AsepriteSource`, and what the file
//! reports is stated as a function of those bytes. `load_aseprite` is the only
//! place that builds an `AsepriteSource`.
use vstd::prelude::*;

use aseprite_loader::loader::{AsepriteFile, LayerSelection, LoadImageError, LoadSpriteError};

verus! {

#[verifier::external_type_specification]
#[verifier::external_body]
pub struct ExAsepriteFile<'a>(AsepriteFile<'a>);

#[verifier::external_type_specification]
#[verifier::external_body]
pub struct ExLoadSpriteError(LoadSpriteError);

#[verifier::external_type_specification]
#[verifier::external_body]
pub struct ExLoadImageError(LoadImageError);

/// What `AsepriteFile::load` does with these bytes: `Some(true)` when it
/// returns a file, `Some(false)` when it returns an error, and `None` when it
/// panics (as it does, for one, on a cel whose layer index equals the number
/// of layers).
pub uninterp spec fn aseprite_load(data: Seq<u8>) -> Option<bool>;

/// The little-endian 16-bit word at byte `at`.
pub open spec fn le_word(data: Seq<u8>, at: int) -> int {
    data[at] as int + 256 * data[at + 1] as int
}

/// The sprite size `(width, height)` in the header of an Aseprite file: the
/// words at bytes 8 and 10.
pub open spec fn header_size(data: Seq<u8>) -> (int, int) {
    (le_word(data, 8), le_word(data, 10))
}

/// The frames that `AsepriteFile::frames` lists for the file parsed from
/// these bytes, in order: each frame's duration in milliseconds and the
/// `(width, height)` of each of its cels.
pub uninterp spec fn aseprite_frames(data: Seq<u8>) -> Seq<(u16, Seq<(u16, u16)>)>;

/// What `AsepriteFile::render_frame` does when it blends the visible layers of
/// frame `frame` of the file parsed from these bytes onto `target`: `None`
/// when it panics (as it does when the pixel data of a cel it draws cannot be
/// decoded, or has the wrong length), otherwise `Some` of the buffer it leaves
/// when it succeeds.
pub uninterp spec fn aseprite_render(data: Seq<u8>, frame: int, target: Seq<u8>) -> Option<
    Seq<u8>,
>;

/// Bytes in one RGBA8 image of `width` by `height` pixels.
pub open spec fn rgba_len(width: int, height: int) -> int {
    width * height * 4
}

/// Every buffer size the loader computes in `usize` while rendering frame
/// `frame` fits there: the sprite's and each cel's RGBA size, and four bytes
/// per byte of the file (the most any pixel conversion asks for).
pub open spec fn render_sizes_fit(data: Seq<u8>, frame: int) -> bool {
    let (width, height) = header_size(data);
    let cels = aseprite_frames(data)[frame].1;
    &&& rgba_len(width, height) <= usize::MAX
    &&& data.len() * 4 <= usize::MAX
    &&& forall|j: int|
        0 <= j < cels.len() ==> rgba_len(#[trigger] cels[j].0 as int, cels[j].1 as int)
            <= usize::MAX
}

/// A parsed Aseprite file together with the bytes it was parsed from.
pub(crate) struct AsepriteSource<'a> {
    data: &'a [u8],
    file: AsepriteFile<'a>,
}

impl<'a> AsepriteSource<'a> {
    /// The bytes the file was parsed from.
    pub(crate) closed spec fn bytes(&self) -> Seq<u8> {
        self.data@
    }
}

/// Calls `AsepriteFile::load`, which parses the whole file (header, layers,
/// frames, cels, tags).
///
/// Claims: on the bytes on which it returns (`aseprite_load` is `Some`, which
/// `requires` demands), it succeeds exactly when `aseprite_load` says so, and
/// the result remembers those bytes, which hold at least the 128-byte header.
/// Which bytes parse, and on which it panics, is not spelled out.
#[verifier::external_body]
pub(crate) fn load_aseprite(data: &[u8]) -> (res: Result<AsepriteSource<'_>, LoadSpriteError>)
    requires
        aseprite_load(data@) is Some,
    ensures
        res is Ok <==> aseprite_load(data@) == Some(true),
        res matches Ok(source) ==> source.bytes() == data@ && data@.len() >= 128,
{
    match AsepriteFile::load(data) {
        Ok(file) => Ok(AsepriteSource { data, file }),
        Err(error) => Err(error),
    }
}

/// Calls `AsepriteFile::size`, which returns the width and height that the
/// parser read from the file header.
///
/// Claims: they are the little-endian words at bytes 8 and 10.
#[verifier::external_body]
pub(crate) fn sprite_size(source: &AsepriteSource) -> (size: (u16, u16))
    requires
        source.bytes().len() >= 128,
    ensures
        size.0 as int == header_size(source.bytes()).0,
        size.1 as int == header_size(source.bytes()).1,
{
    source.file.size()
}

/// Calls `AsepriteFile::frames` and keeps, for each frame in order, its
/// `duration` field (milliseconds) and the `size` field of each of its cels.
///
/// Claims: the result is `aseprite_frames` of the source bytes.
#[verifier::external_body]
pub(crate) fn sprite_frames(source: &AsepriteSource) -> (frames: Vec<(u16, Vec<(u16, u16)>)>)
    ensures
        frames@.len() == aseprite_frames(source.bytes()).len(),
        forall|i: int|
            0 <= i < frames@.len() ==> (#[trigger] frames@[i]).0 == aseprite_frames(
                source.bytes(),
            )[i].0 && frames@[i].1@ == aseprite_frames(source.bytes())[i].1,
{
    source
        .file
        .frames()
        .iter()
        .map(|frame| (frame.duration, frame.cels.iter().map(|cel| cel.size).collect()))
        .collect()
}

/// Calls `AsepriteFile::render_frame` with the layers that are visible in the
/// file.
///
/// Claims, as its source shows: it fails exactly when `target` is shorter than
/// `width * height * 4` bytes, and then leaves `target` untouched; otherwise
/// `target` becomes the buffer `aseprite_render` names. Its length never
/// changes. It is only called where `usize` holds every buffer size it
/// computes (`render_sizes_fit`). An index past the last frame panics, and so does a frame whose
/// cel pixels cannot be decoded (`aseprite_render` is `None`): `requires`
/// leaves both out. On which bytes the second happens is not spelled out.
#[verifier::external_body]
pub(crate) fn render_frame(source: &AsepriteSource, frame_index: usize, target: &mut Vec<u8>) -> (res:
    Result<(), LoadImageError>)
    requires
        source.bytes().len() >= 128,
        frame_index < aseprite_frames(source.bytes()).len(),
        aseprite_render(source.bytes(), frame_index as int, old(target)@) is Some,
        render_sizes_fit(source.bytes(), frame_index as int),
    ensures
        final(target)@.len() == old(target)@.len(),
        res is Ok <==> old(target)@.len() >= rgba_len(
            header_size(source.bytes()).0,
            header_size(source.bytes()).1,
        ),
        res is Ok ==> Some(final(target)@) == aseprite_render(
            source.bytes(),
            frame_index as int,
            old(target)@,
        ),
        res is Err ==> final(target)@ == old(target)@,
{
    source.file.render_frame(frame_index, target.as_mut_slice(), &LayerSelection::Visible)
}

} // verus!
