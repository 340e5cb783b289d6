use asefile::AsepriteFile;
use bevy_animator::animation::{update_animator, Animator};
use bevy_animator::aseprite::{build_sheet, extensions, ParseError};
use bevy_animator::asset::build_asset;

/// The 128-byte container header: magic 0xA5E0, frame count, canvas
/// dimensions, 32-bit colour depth (straight RGBA).
fn header(num_frames: u16, width: u16, height: u16) -> Vec<u8> {
    let mut h: Vec<u8> = Vec::new();
    h.extend_from_slice(&0u32.to_le_bytes()); // file size, unchecked by the decoder
    h.extend_from_slice(&0xA5E0u16.to_le_bytes()); // magic
    h.extend_from_slice(&num_frames.to_le_bytes());
    h.extend_from_slice(&width.to_le_bytes());
    h.extend_from_slice(&height.to_le_bytes());
    h.extend_from_slice(&32u16.to_le_bytes()); // colour depth: RGBA
    h.extend_from_slice(&0u32.to_le_bytes()); // flags
    h.extend_from_slice(&100u16.to_le_bytes()); // default frame time
    h.extend_from_slice(&0u32.to_le_bytes());
    h.extend_from_slice(&0u32.to_le_bytes());
    h.push(0); // transparent colour index
    h.push(0); // ignored
    h.extend_from_slice(&0u16.to_le_bytes()); // ignored
    h.extend_from_slice(&0u16.to_le_bytes()); // number of colours
    h.push(1); // pixel width
    h.push(1); // pixel height
    h.extend_from_slice(&0i16.to_le_bytes()); // grid x
    h.extend_from_slice(&0i16.to_le_bytes()); // grid y
    h.extend_from_slice(&0u16.to_le_bytes()); // grid width
    h.extend_from_slice(&0u16.to_le_bytes()); // grid height
    h.extend_from_slice(&[0u8; 84]); // reserved
    assert_eq!(h.len(), 128);
    h
}

fn chunk(chunk_type: u16, data: Vec<u8>) -> Vec<u8> {
    let mut out: Vec<u8> = Vec::new();
    out.extend_from_slice(&((data.len() + 6) as u32).to_le_bytes());
    out.extend_from_slice(&chunk_type.to_le_bytes());
    out.extend_from_slice(&data);
    out
}

/// A tags chunk (type 0x2018): each tag is an inclusive frame range, a
/// forward animation direction, and a name.
fn tags_chunk(tags: &[(&str, u16, u16)]) -> Vec<u8> {
    let mut data: Vec<u8> = Vec::new();
    data.extend_from_slice(&(tags.len() as u16).to_le_bytes());
    data.extend_from_slice(&[0u8; 8]);
    for (name, from, to) in tags {
        data.extend_from_slice(&from.to_le_bytes());
        data.extend_from_slice(&to.to_le_bytes());
        data.push(0); // animation direction: forward
        data.extend_from_slice(&0u16.to_le_bytes()); // repeat count
        data.extend_from_slice(&[0u8; 6]);
        data.extend_from_slice(&0u32.to_le_bytes()); // tag colour
        data.extend_from_slice(&(name.len() as u16).to_le_bytes());
        data.extend_from_slice(name.as_bytes());
    }
    chunk(0x2018, data)
}

/// A normal, visible image layer (chunk type 0x2004).
fn layer_chunk(name: &str) -> Vec<u8> {
    let mut data: Vec<u8> = Vec::new();
    data.extend_from_slice(&3u16.to_le_bytes()); // flags: visible | editable
    data.extend_from_slice(&0u16.to_le_bytes()); // type: image
    data.extend_from_slice(&0u16.to_le_bytes()); // child level
    data.extend_from_slice(&0u16.to_le_bytes()); // default width, ignored
    data.extend_from_slice(&0u16.to_le_bytes()); // default height, ignored
    data.extend_from_slice(&0u16.to_le_bytes()); // blend mode: normal
    data.push(255); // opacity
    data.extend_from_slice(&[0u8; 3]); // reserved
    data.extend_from_slice(&(name.len() as u16).to_le_bytes());
    data.extend_from_slice(name.as_bytes());
    chunk(0x2004, data)
}

/// A raw (uncompressed) image cel (chunk type 0x2005, cel type 0) of
/// straight-RGBA pixels.
fn raw_cel_chunk(layer: u16, width: u16, height: u16, rgba: &[u8]) -> Vec<u8> {
    assert_eq!(rgba.len(), width as usize * height as usize * 4);
    let mut data: Vec<u8> = Vec::new();
    data.extend_from_slice(&layer.to_le_bytes());
    data.extend_from_slice(&0i16.to_le_bytes()); // x
    data.extend_from_slice(&0i16.to_le_bytes()); // y
    data.push(255); // opacity
    data.extend_from_slice(&0u16.to_le_bytes()); // cel type: raw image
    data.extend_from_slice(&[0u8; 7]); // reserved
    data.extend_from_slice(&width.to_le_bytes());
    data.extend_from_slice(&height.to_le_bytes());
    data.extend_from_slice(rgba);
    chunk(0x2005, data)
}

/// One frame: header magic 0xF1FA, its display duration, and its chunks.
/// A frame without cel chunks decodes to a fully transparent image.
fn frame_bytes(duration_ms: u16, chunks: &[Vec<u8>]) -> Vec<u8> {
    let chunk_len: usize = chunks.iter().map(|c| c.len()).sum();
    let mut out: Vec<u8> = Vec::new();
    out.extend_from_slice(&((16 + chunk_len) as u32).to_le_bytes());
    out.extend_from_slice(&0xF1FAu16.to_le_bytes());
    out.extend_from_slice(&(chunks.len() as u16).to_le_bytes());
    out.extend_from_slice(&duration_ms.to_le_bytes());
    out.extend_from_slice(&0u16.to_le_bytes());
    out.extend_from_slice(&(chunks.len() as u32).to_le_bytes());
    for c in chunks {
        out.extend_from_slice(c);
    }
    out
}

/// A whole container file: header, then one frame per duration, with the
/// tags chunk attached to the first frame.
fn file(width: u16, height: u16, durations: &[u16], tags: &[(&str, u16, u16)]) -> Vec<u8> {
    let mut out = header(durations.len() as u16, width, height);
    for (i, d) in durations.iter().enumerate() {
        if i == 0 && !tags.is_empty() {
            out.extend_from_slice(&frame_bytes(*d, &[tags_chunk(tags)]));
        } else {
            out.extend_from_slice(&frame_bytes(*d, &[]));
        }
    }
    out
}

#[test]
fn build_sheet_reads_frames_and_tags() {
    let bytes = file(2, 2, &[100, 100, 200], &[("walk", 0, 2), ("blink", 2, 2)]);
    let decoded = AsepriteFile::read(bytes.as_slice()).unwrap();
    let sheet = build_sheet(&decoded).unwrap();
    assert_eq!(sheet.width, 2);
    assert_eq!(sheet.height, 2);
    assert_eq!(sheet.durations, vec![100, 100, 200]);
    assert_eq!(sheet.tags.len(), 2);
    assert_eq!(sheet.tags[0].name, "walk");
    assert_eq!(sheet.tags[0].from, 0);
    assert_eq!(sheet.tags[0].to, 2);
    assert_eq!(sheet.tags[1].name, "blink");
    assert_eq!(sheet.tags[1].from, 2);
    assert_eq!(sheet.tags[1].to, 2);
}

/// A file with a declared layer and a real raw cel still decodes and
/// builds; the sheet's durations come from the decoder, not from the raw
/// input order.
#[test]
fn build_sheet_with_layer_and_cel() {
    let layer = layer_chunk("body");
    let cel = raw_cel_chunk(0, 1, 1, &[10, 20, 30, 255]);
    let mut bytes = header(2, 1, 1);
    bytes.extend_from_slice(&frame_bytes(70, &[layer, cel]));
    bytes.extend_from_slice(&frame_bytes(90, &[]));
    let decoded = AsepriteFile::read(bytes.as_slice()).unwrap();
    let sheet = build_sheet(&decoded).unwrap();
    assert_eq!(sheet.durations, vec![70, 90]);
    assert_eq!(sheet.width, 1);
    assert_eq!(sheet.height, 1);
    // The pixel side stays with the host: the decoder composes the frame.
    let image = decoded.frame(0).image();
    assert_eq!(image.into_raw(), vec![10, 20, 30, 255]);
}

/// The whole pipeline on real container bytes: decode, build the sheet and
/// the asset, animate.
#[test]
fn decode_build_animate_round_trip() {
    let bytes = file(4, 4, &[100, 100, 200], &[("walk", 0, 2)]);
    let decoded = AsepriteFile::read(bytes.as_slice()).unwrap();
    let sheet = build_sheet(&decoded).unwrap();
    let asset = build_asset(&sheet).unwrap();
    let walk = asset.get(&"walk".to_owned()).unwrap();
    assert_eq!(walk.total_ms, 400);
    assert_eq!(walk.bounds, vec![0, 100, 200, 400]);

    let mut a = Animator::new("walk".to_owned());
    assert_eq!(update_animator(&mut a, &asset, 0), Some(0));
    assert_eq!(update_animator(&mut a, &asset, 100), Some(1));
    assert_eq!(update_animator(&mut a, &asset, 100), Some(2));
    assert_eq!(update_animator(&mut a, &asset, 200), Some(0));
    assert_eq!(a.repititions(), 1);
}

/// A tag referencing frames beyond the frame list is rejected, naming the
/// offending tag.
#[test]
fn out_of_bounds_tag_rejected() {
    let bytes = file(2, 2, &[100], &[("bad", 0, 3)]);
    let decoded = AsepriteFile::read(bytes.as_slice()).unwrap();
    assert_eq!(build_sheet(&decoded), Err(ParseError::TagOutOfBounds { index: 0 }));

    let bytes = file(2, 2, &[100, 100], &[("ok", 0, 1), ("bad", 5, 9)]);
    let decoded = AsepriteFile::read(bytes.as_slice()).unwrap();
    assert_eq!(build_sheet(&decoded), Err(ParseError::TagOutOfBounds { index: 1 }));
}

/// A reversed range (from > to) is not a valid inclusive range.
#[test]
fn reversed_tag_range_rejected() {
    let bytes = file(2, 2, &[100, 100, 100], &[("backwards", 2, 0)]);
    let decoded = AsepriteFile::read(bytes.as_slice()).unwrap();
    assert_eq!(build_sheet(&decoded), Err(ParseError::TagOutOfBounds { index: 0 }));
}

/// A container declaring zero frames decodes to an empty sheet.
#[test]
fn zero_frame_file_builds_empty_sheet() {
    let bytes = file(2, 2, &[], &[]);
    let decoded = AsepriteFile::read(bytes.as_slice()).unwrap();
    let sheet = build_sheet(&decoded).unwrap();
    assert_eq!(sheet.durations.len(), 0);
    assert_eq!(sheet.tags.len(), 0);
}

/// Malformed bytes are the decoder's to reject, at the loading edge; the
/// loader maps its report into [`ParseError::Decode`].
#[test]
fn garbage_bytes_fail_to_decode() {
    let r = AsepriteFile::read(&b"certainly not a sprite sheet"[..]);
    assert!(r.is_err());
    let r = AsepriteFile::read(&[][..]);
    assert!(r.is_err());
}

/// A wrong header magic number is a decode failure with the decoder's own
/// description, as the loading edge reports it.
#[test]
fn wrong_magic_fails_to_decode() {
    let mut bytes = file(2, 2, &[100], &[]);
    bytes[4] = 0x00;
    bytes[5] = 0x00;
    match AsepriteFile::read(bytes.as_slice()) {
        Err(e) => {
            let mapped = ParseError::Decode(e.to_string());
            assert!(matches!(mapped, ParseError::Decode(ref msg) if !msg.is_empty()));
        }
        Ok(_) => panic!("expected a decode failure"),
    }
}

#[test]
fn loader_extensions() {
    assert_eq!(extensions(), ["ase", "aseprite"]);
}
