use platformer::loader::{decode_aseprite_animation, durations_to_nanos, AnimationLoadError};

fn le16(out: &mut Vec<u8>, v: u16) {
    out.extend_from_slice(&v.to_le_bytes());
}

fn le32(out: &mut Vec<u8>, v: u32) {
    out.extend_from_slice(&v.to_le_bytes());
}

/// A 32-bit RGBA sprite file of the given size, with the given frames (each
/// a duration and its chunks, already encoded).
fn aseprite_file(width: u16, height: u16, frames: &[(u16, Vec<Vec<u8>>)]) -> Vec<u8> {
    let mut body = Vec::new();
    for (duration, chunks) in frames {
        let chunk_bytes: usize = chunks.iter().map(|c| c.len()).sum();
        le32(&mut body, (16 + chunk_bytes) as u32);
        le16(&mut body, 0xF1FA);
        le16(&mut body, chunks.len() as u16);
        le16(&mut body, *duration);
        body.extend_from_slice(&[0, 0]);
        le32(&mut body, 0);
        for chunk in chunks {
            body.extend_from_slice(chunk);
        }
    }
    let mut file = Vec::new();
    le32(&mut file, (128 + body.len()) as u32);
    le16(&mut file, 0xA5E0);
    le16(&mut file, frames.len() as u16);
    le16(&mut file, width);
    le16(&mut file, height);
    le16(&mut file, 32);
    le32(&mut file, 1);
    le16(&mut file, 100);
    file.extend_from_slice(&[0; 8]);
    file.push(0);
    file.extend_from_slice(&[0; 3]);
    le16(&mut file, 0);
    file.push(1);
    file.push(1);
    file.extend_from_slice(&[0; 8]);
    file.extend_from_slice(&[0; 84]);
    assert_eq!(file.len(), 128);
    file.extend_from_slice(&body);
    file
}

fn chunk(kind: u16, data: &[u8]) -> Vec<u8> {
    let mut out = Vec::new();
    le32(&mut out, (6 + data.len()) as u32);
    le16(&mut out, kind);
    out.extend_from_slice(data);
    out
}

/// A visible normal layer with an empty name.
fn layer_chunk() -> Vec<u8> {
    let mut data = Vec::new();
    le16(&mut data, 1); // visible
    le16(&mut data, 0); // normal layer
    le16(&mut data, 0);
    le16(&mut data, 0);
    le16(&mut data, 0);
    le16(&mut data, 0); // normal blend
    data.push(255);
    data.extend_from_slice(&[0; 3]);
    le16(&mut data, 0); // name length
    chunk(0x2004, &data)
}

/// A raw 1x1 image cel at the origin of layer 0.
fn pixel_cel_chunk(rgba: [u8; 4]) -> Vec<u8> {
    let mut data = Vec::new();
    le16(&mut data, 0);
    le16(&mut data, 0);
    le16(&mut data, 0);
    data.push(255);
    le16(&mut data, 0); // raw image
    le16(&mut data, 0);
    data.extend_from_slice(&[0; 5]);
    le16(&mut data, 1);
    le16(&mut data, 1);
    data.extend_from_slice(&rgba);
    chunk(0x2005, &data)
}

#[test]
fn garbage_is_a_parse_error() {
    let result = decode_aseprite_animation(b"not an aseprite file");
    assert_eq!(result.err(), Some(AnimationLoadError::Parse));
    assert_eq!(decode_aseprite_animation(&[]).err(), Some(AnimationLoadError::Parse));
}

#[test]
fn file_without_frames_is_a_parse_error() {
    let file = aseprite_file(2, 1, &[]);
    assert_eq!(decode_aseprite_animation(&file).err(), Some(AnimationLoadError::Parse));
}

#[test]
fn blank_frames_decode_to_cleared_buffers() {
    let file = aseprite_file(2, 3, &[(100, vec![]), (250, vec![])]);
    let decoded = decode_aseprite_animation(&file).unwrap();
    assert_eq!(decoded.width, 2);
    assert_eq!(decoded.height, 3);
    assert_eq!(decoded.frames.len(), 2);
    assert_eq!(decoded.frames[0], vec![0u8; 24]);
    assert_eq!(decoded.frames[1], vec![0u8; 24]);
    assert_eq!(decoded.frame_durations, vec![100_000_000, 250_000_000]);
}

#[test]
fn visible_pixels_are_rendered() {
    let file = aseprite_file(
        2,
        1,
        &[
            (80, vec![layer_chunk(), pixel_cel_chunk([10, 20, 30, 255])]),
            (120, vec![]),
        ],
    );
    let decoded = decode_aseprite_animation(&file).unwrap();
    assert_eq!(decoded.frames.len(), 2);
    assert_eq!(decoded.frames[0], vec![10, 20, 30, 255, 0, 0, 0, 0]);
    assert_eq!(decoded.frames[1], vec![0u8; 8]);
    assert_eq!(decoded.frame_durations, vec![80_000_000, 120_000_000]);
}

#[test]
fn durations_convert_to_nanoseconds() {
    assert_eq!(durations_to_nanos(&[]), Vec::<u64>::new());
    assert_eq!(durations_to_nanos(&[0, 1, 100, 65535]), vec![0, 1_000_000, 100_000_000, 65_535_000_000]);
}
