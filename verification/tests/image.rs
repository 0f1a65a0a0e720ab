use modular_agent_mattermost::image::{is_readable, read_image};

const PNG_SIGNATURE: [u8; 8] = [137, 80, 78, 71, 13, 10, 26, 10];

/// A PNG file of one pixel, whose palette has one colour.
fn indexed_png() -> Vec<u8> {
    let mut file = PNG_SIGNATURE.to_vec();
    file.extend([0, 0, 0, 13, 73, 72, 68, 82, 0, 0, 0, 1, 0, 0, 0, 1, 8, 3, 0, 0, 0]);
    file.extend([40, 203, 52, 187]);
    file.extend([0, 0, 0, 3, 80, 76, 84, 69, 10, 20, 30, 126, 76, 82, 58]);
    file.extend([0, 0, 0, 10, 73, 68, 65, 84, 120, 156, 99, 96, 0, 0, 0, 2, 0, 1]);
    file.extend([72, 175, 164, 113, 0, 0, 0, 0, 73, 69, 78, 68, 174, 66, 96, 130]);
    file
}

/// A GIF file of one pixel.
fn gif() -> Vec<u8> {
    let mut file = b"GIF89a".to_vec();
    file.extend([1, 0, 1, 0, 128, 0, 0, 10, 20, 30, 0, 0, 0]);
    file.extend([44, 0, 0, 0, 0, 1, 0, 1, 0, 0, 2, 2, 68, 1, 0, 59]);
    file
}

/// A BMP file, two pixels wide and one pixel high.
fn bmp() -> Vec<u8> {
    let mut file = b"BM".to_vec();
    file.extend([62, 0, 0, 0, 0, 0, 0, 0, 54, 0, 0, 0]);
    file.extend([40, 0, 0, 0, 2, 0, 0, 0, 1, 0, 0, 0, 1, 0, 24, 0]);
    file.extend([0; 24]);
    file.extend([30, 20, 10, 33, 22, 11, 0, 0]);
    file
}

/// The beginning of a JPEG file, up to the header of its frame, which is of the
/// kind that `mark` says.
fn jpeg_header(mark: u8, height: u16, width: u16) -> Vec<u8> {
    let mut file = vec![0xff, 0xd8, 0xff, 0xdb, 0, 67, 0];
    file.extend([1; 64]);
    file.extend([0xff, mark, 0, 11, 8]);
    file.extend(height.to_be_bytes());
    file.extend(width.to_be_bytes());
    file.extend([1, 1, 0x11, 0]);
    file
}

/// A grey JPEG file, three pixels wide and two pixels high.
fn jpeg() -> Vec<u8> {
    let mut file = jpeg_header(0xc0, 2, 3);
    for table in [0x00, 0x10] {
        file.extend([0xff, 0xc4, 0, 20, table, 1]);
        file.extend([0; 15]);
        file.push(0);
    }
    file.extend([0xff, 0xda, 0, 8, 1, 1, 0, 0, 63, 0, 0x3f, 0xff, 0xd9]);
    file
}

/// The beginning of a PNG file whose palette has this length.
fn palette_of(length: [u8; 4]) -> Vec<u8> {
    let mut file = PNG_SIGNATURE.to_vec();
    file.extend(length);
    file.extend(b"PLTE");
    file
}

#[test]
fn a_png_with_a_palette() {
    let file = indexed_png();
    assert!(is_readable(&file));
    let image = read_image(&file).unwrap();
    assert_eq!((image.width, image.height), (1, 1));
    assert_eq!(image.raw_pixels, vec![10, 20, 30, 255]);
}

#[test]
fn a_gif() {
    let file = gif();
    assert!(is_readable(&file));
    let image = read_image(&file).unwrap();
    assert_eq!((image.width, image.height), (1, 1));
    assert_eq!(image.raw_pixels, vec![10, 20, 30, 255]);
}

#[test]
fn a_bmp() {
    let file = bmp();
    assert!(is_readable(&file));
    let image = read_image(&file).unwrap();
    assert_eq!((image.width, image.height), (2, 1));
    assert_eq!(image.raw_pixels, vec![10, 20, 30, 255, 11, 22, 33, 255]);
}

#[test]
fn a_jpeg() {
    let file = jpeg();
    assert!(is_readable(&file));
    let image = read_image(&file).unwrap();
    assert_eq!((image.width, image.height), (3, 2));
    assert_eq!(image.raw_pixels, [128, 128, 128, 255].repeat(6));
    assert!(image.is_writable());
}

#[test]
fn jpegs_that_end_early() {
    let whole = jpeg();
    for length in 3..whole.len() {
        let file = whole[..length].to_vec();
        assert!(is_readable(&file));
        assert!(read_image(&file).is_none());
    }
}

#[test]
fn frames_that_fit() {
    for mark in [0xc0, 0xc1, 0xc2] {
        assert!(is_readable(&jpeg_header(mark, 65528, 65528)));
        assert!(!is_readable(&jpeg_header(mark, 65529, 1)));
        assert!(!is_readable(&jpeg_header(mark, 1, 65529)));
    }
}

#[test]
fn frames_without_loss() {
    assert!(!is_readable(&jpeg_header(0xc3, 1, 1)));
    let mut late = jpeg();
    late.extend([0xff, 0xc3]);
    assert!(!is_readable(&late));
}

#[test]
fn a_signature_alone_is_no_image() {
    let signatures =
        [PNG_SIGNATURE.to_vec(), b"GIF87a".to_vec(), b"BM".to_vec(), vec![0xff, 0xd8, 0xff]];
    for file in signatures {
        assert!(is_readable(&file));
        assert!(read_image(&file).is_none());
    }
}

#[test]
fn files_without_a_signature_are_readable() {
    let files: Vec<Vec<u8>> = vec![
        vec![],
        vec![1, 2, 3],
        b"hello".to_vec(),
        b"B".to_vec(),
        b"P8".to_vec(),
        b"P0".to_vec(),
        b"RIFE".to_vec(),
        b"In short".to_vec(),
        b"Mail".to_vec(),
        b"GIF88a".to_vec(),
        b"GIF89".to_vec(),
        vec![0xff, 0xd8],
        vec![137, 80, 78, 71, 13, 10, 26],
        vec![0, 0, 0, 0x20],
    ];
    for file in files {
        assert!(is_readable(&file));
        assert!(read_image(&file).is_none());
    }
}

#[test]
fn palettes_that_fit() {
    for length in [[0, 0, 0, 0], [0, 0, 0, 3], [0, 0, 1, 2], [0, 0, 3, 0]] {
        assert!(is_readable(&palette_of(length)));
    }
}

#[test]
fn palettes_that_do_not_fit() {
    for length in [[0, 0, 0, 1], [0, 0, 0, 4], [0, 0, 3, 3], [0, 1, 0, 2], [1, 0, 0, 2]] {
        assert!(!is_readable(&palette_of(length)));
    }
    let mut late = indexed_png();
    late.extend(b"PLTE");
    assert!(!is_readable(&late));
}

#[test]
fn kinds_that_are_not_relied_on() {
    let files: Vec<Vec<u8>> = vec![
        b"RIFF\x04\0\0\0WEBP".to_vec(),
        b"II*\0".to_vec(),
        b"MM\0*".to_vec(),
        b"P1".to_vec(),
        b"P7".to_vec(),
        b"DDS ".to_vec(),
        b"qoif".to_vec(),
        b"#?RADIANCE".to_vec(),
        b"farbfeld".to_vec(),
        vec![0, 0, 1, 0],
        b"\0\0\0 ftypavif".to_vec(),
        b"\0\0\0\x1cftypavif".to_vec(),
        vec![0x76, 0x2f, 0x31, 0x01],
    ];
    for file in files {
        assert!(!is_readable(&file));
    }
}
