//! Images.
use vstd::prelude::*;

verus! {

/// An image: four bytes a pixel (red, green, blue, alpha), row after row.
#[derive(Debug)]
pub struct Image {
    pub raw_pixels: Vec<u8>,
    pub width: u32,
    pub height: u32,
}

/// What an image shows: its pixels, its width and its height.
pub type ImageView = (Seq<u8>, u32, u32);

impl View for Image {
    type V = ImageView;

    open spec fn view(&self) -> ImageView {
        (self.raw_pixels@, self.width, self.height)
    }
}

impl Image {
    /// The image can be written: it is not empty and all its pixels are there.
    pub open spec fn writable(&self) -> bool {
        &&& self.width > 0
        &&& self.height > 0
        &&& 4 * (self.width * self.height) <= self.raw_pixels@.len()
    }

    /// All the image's pixels are there, and nothing else.
    pub open spec fn complete(&self) -> bool {
        self.raw_pixels@.len() == 4 * (self.width * self.height)
    }

    /// The image is as wide and as high as the header of a frame in a JPEG file
    /// says.
    pub open spec fn framed_by(&self, file: Seq<u8>) -> bool {
        exists|at: int| #[trigger]
            frame_at(file, at) && self.width == frame_width(file, at) && self.height
                == frame_height(file, at)
    }

    /// Whether the image can be written.
    pub fn is_writable(&self) -> (writable: bool)
        ensures
            writable == self.writable(),
    {
        assert(self.width * self.height <= 0xffff_ffff * 0xffff_ffff) by (nonlinear_arith)
            requires
                self.width <= 0xffff_ffff,
                self.height <= 0xffff_ffff,
        ;
        let pixels: u128 = self.width as u128 * self.height as u128;
        self.width > 0 && self.height > 0 && 4 * pixels <= self.raw_pixels.len() as u128
    }
}

/// The image as a PNG file.
pub uninterp spec fn png_file(image: ImageView) -> Seq<u8>;

/// The image as a `data:` URL.
pub uninterp spec fn data_url(image: ImageView) -> Seq<char>;

/// The image that a file shows; nothing where the file is no image.
pub uninterp spec fn decoded_image(file: Seq<u8>) -> Option<ImageView>;

/// Writes an image as a PNG file, with `PhotonImage::get_bytes`.
///
/// Trusted: which bytes come out depends on the image alone. What they are
/// stays unsaid. The call panics where a side is zero or pixels are missing.
#[verifier::external_body]
pub(crate) fn png_bytes(image: &Image) -> (bytes: Vec<u8>)
    requires
        image.writable(),
    ensures
        bytes@ == png_file(image@),
{
    let pixels = image.raw_pixels.clone();
    modular_agent_core::PhotonImage::new(pixels, image.width, image.height).get_bytes()
}

/// Writes an image as a `data:` URL, with `PhotonImage::get_base64`.
///
/// Trusted: which text comes out depends on the image alone. What it is stays
/// unsaid. The call panics where a side is zero or pixels are missing.
#[verifier::external_body]
pub(crate) fn image_data_url(image: &Image) -> (url: String)
    requires
        image.writable(),
    ensures
        url@ == data_url(image@),
{
    let pixels = image.raw_pixels.clone();
    modular_agent_core::PhotonImage::new(pixels, image.width, image.height).get_base64()
}

/// The signature of a PNG file.
pub open spec fn png_signature() -> Seq<u8> {
    seq![0x89u8, 0x50u8, 0x4eu8, 0x47u8, 0x0du8, 0x0au8, 0x1au8, 0x0au8]
}

/// The signature of a JPEG file.
pub open spec fn jpeg_signature() -> Seq<u8> {
    seq![0xffu8, 0xd8u8, 0xffu8]
}

/// The signatures of a GIF file: "GIF87a" and "GIF89a".
pub open spec fn has_gif_signature(file: Seq<u8>) -> bool {
    ||| seq![0x47u8, 0x49u8, 0x46u8, 0x38u8, 0x37u8, 0x61u8].is_prefix_of(file)
    ||| seq![0x47u8, 0x49u8, 0x46u8, 0x38u8, 0x39u8, 0x61u8].is_prefix_of(file)
}

/// The signature of a BMP file: "BM".
pub open spec fn bmp_signature() -> Seq<u8> {
    seq![0x42u8, 0x4du8]
}

/// The signatures of the other kinds of image files.
pub open spec fn has_other_signature(file: Seq<u8>) -> bool {
    // WebP: "RIFF"
    ||| seq![0x52u8, 0x49u8, 0x46u8, 0x46u8].is_prefix_of(file)
    // TIFF: "MM", 0, "*" and "II*", 0
    ||| seq![0x4du8, 0x4du8, 0x00u8, 0x2au8].is_prefix_of(file)
    ||| seq![0x49u8, 0x49u8, 0x2au8, 0x00u8].is_prefix_of(file)
    // DDS: "DDS "
    ||| seq![0x44u8, 0x44u8, 0x53u8, 0x20u8].is_prefix_of(file)
    // ICO
    ||| seq![0x00u8, 0x00u8, 0x01u8, 0x00u8].is_prefix_of(file)
    // HDR: "#?RADIANCE"
    ||| seq![
        0x23u8,
        0x3fu8,
        0x52u8,
        0x41u8,
        0x44u8,
        0x49u8,
        0x41u8,
        0x4eu8,
        0x43u8,
        0x45u8,
    ].is_prefix_of(file)
    // PNM: "P1" to "P7"
    ||| file.len() >= 2 && file[0] == 0x50 && 0x31 <= file[1] <= 0x37
    // Farbfeld: "farbfeld"
    ||| seq![0x66u8, 0x61u8, 0x72u8, 0x62u8, 0x66u8, 0x65u8, 0x6cu8, 0x64u8].is_prefix_of(file)
    // AVIF: a length, then "ftypavif"
    ||| seq![
        0x00u8,
        0x00u8,
        0x00u8,
        0x20u8,
        0x66u8,
        0x74u8,
        0x79u8,
        0x70u8,
        0x61u8,
        0x76u8,
        0x69u8,
        0x66u8,
    ].is_prefix_of(file)
    ||| seq![
        0x00u8,
        0x00u8,
        0x00u8,
        0x1cu8,
        0x66u8,
        0x74u8,
        0x79u8,
        0x70u8,
        0x61u8,
        0x76u8,
        0x69u8,
        0x66u8,
    ].is_prefix_of(file)
    // OpenEXR
    ||| seq![0x76u8, 0x2fu8, 0x31u8, 0x01u8].is_prefix_of(file)
    // QOI: "qoif"
    ||| seq![0x71u8, 0x6fu8, 0x69u8, 0x66u8].is_prefix_of(file)
}

/// The file begins with no signature of an image file.
pub open spec fn unsigned(file: Seq<u8>) -> bool {
    &&& !png_signature().is_prefix_of(file)
    &&& !jpeg_signature().is_prefix_of(file)
    &&& !has_gif_signature(file)
    &&& !bmp_signature().is_prefix_of(file)
    &&& !has_other_signature(file)
}

/// The name of a palette, "PLTE", stands in the file at position `at`.
pub open spec fn palette_at(file: Seq<u8>, at: int) -> bool {
    &&& 0 <= at
    &&& at + 4 <= file.len()
    &&& file[at] == 0x50
    &&& file[at + 1] == 0x4c
    &&& file[at + 2] == 0x54
    &&& file[at + 3] == 0x45
}

/// The four bytes before position `at` are the length of a palette of at most
/// 256 colours of three bytes.
pub open spec fn palette_length_before(file: Seq<u8>, at: int) -> bool {
    &&& at >= 4
    &&& file[at - 4] == 0
    &&& file[at - 3] == 0
    &&& 256 * file[at - 2] + file[at - 1] <= 768
    &&& (256 * file[at - 2] + file[at - 1]) % 3 == 0
}

/// Wherever the name of a palette stands in the file, a length that fits stands
/// before it.
pub open spec fn palettes_fit(file: Seq<u8>) -> bool {
    forall|at: int| #[trigger] palette_at(file, at) ==> palette_length_before(file, at)
}

/// The header of a frame of a JPEG file stands in the file at position `at`: two
/// bytes that mark it, its length, its precision, its height and its width.
pub open spec fn frame_at(file: Seq<u8>, at: int) -> bool {
    &&& 0 <= at
    &&& at + 9 <= file.len()
    &&& file[at] == 0xff
    &&& 0xc0 <= file[at + 1] <= 0xc2
}

/// The height in the header of a frame.
pub open spec fn frame_height(file: Seq<u8>, at: int) -> int {
    256 * file[at + 5] + file[at + 6]
}

/// The width in the header of a frame.
pub open spec fn frame_width(file: Seq<u8>, at: int) -> int {
    256 * file[at + 7] + file[at + 8]
}

/// The mark of a frame without loss stands in the file at position `at`.
pub open spec fn lossless_frame_at(file: Seq<u8>, at: int) -> bool {
    &&& 0 <= at
    &&& at + 2 <= file.len()
    &&& file[at] == 0xff
    &&& file[at + 1] == 0xc3
}

/// No frame is without loss, and no side of a frame is longer than 8191 blocks
/// of eight pixels.
pub open spec fn frames_fit(file: Seq<u8>) -> bool {
    &&& forall|at: int| !#[trigger] lossless_frame_at(file, at)
    &&& forall|at: int| #[trigger]
        frame_at(file, at) ==> frame_height(file, at) <= 65528 && frame_width(file, at) <= 65528
}

/// The file is a JPEG file that can be read without fear of a panic.
pub open spec fn readable_jpeg(file: Seq<u8>) -> bool {
    jpeg_signature().is_prefix_of(file) && frames_fit(file)
}

/// The file can be read without fear of a panic, and to the same picture on
/// every machine: it is a GIF or a BMP file, or a PNG file whose palette fits, or
/// of no kind at all.
pub open spec fn settled(file: Seq<u8>) -> bool {
    ||| unsigned(file)
    ||| has_gif_signature(file)
    ||| bmp_signature().is_prefix_of(file)
    ||| png_signature().is_prefix_of(file) && palettes_fit(file)
}

/// The file can be read without fear of a panic.
pub open spec fn readable(file: Seq<u8>) -> bool {
    settled(file) || readable_jpeg(file)
}

/// Whether a length that fits stands before each palette.
fn do_palettes_fit(file: &Vec<u8>) -> (fit: bool)
    ensures
        fit == palettes_fit(file@),
{
    if file.len() < 4 {
        return true;
    }
    let mut at: usize = 0;
    while at <= file.len() - 4
        invariant
            4 <= file@.len(),
            at <= file@.len() - 3,
            forall|i: int|
                i < at && #[trigger] palette_at(file@, i) ==> palette_length_before(file@, i),
        decreases file@.len() - at,
    {
        if file[at] == 0x50 && file[at + 1] == 0x4c && file[at + 2] == 0x54 && file[at + 3] == 0x45 {
            assert(palette_at(file@, at as int));
            if at < 4 {
                return false;
            }
            let length: u32 = 256 * (file[at - 2] as u32) + file[at - 1] as u32;
            if file[at - 4] != 0 || file[at - 3] != 0 || length > 768 || length % 3 != 0 {
                return false;
            }
        }
        at = at + 1;
    }
    true
}

/// Whether no frame is without loss, and none has a side that is too long.
fn do_frames_fit(file: &Vec<u8>) -> (fit: bool)
    ensures
        fit == frames_fit(file@),
{
    let mut at: usize = 0;
    while file.len() - at >= 2
        invariant
            at <= file@.len(),
            forall|i: int| i < at ==> !#[trigger] lossless_frame_at(file@, i),
            forall|i: int|
                i < at && #[trigger] frame_at(file@, i) ==> frame_height(file@, i) <= 65528
                    && frame_width(file@, i) <= 65528,
        decreases file@.len() - at,
    {
        if file[at] == 0xff {
            let mark: u8 = file[at + 1];
            if mark == 0xc3 {
                assert(lossless_frame_at(file@, at as int));
                return false;
            }
            if 0xc0 <= mark && mark <= 0xc2 && file.len() - at >= 9 {
                assert(frame_at(file@, at as int));
                let height: u32 = 256 * (file[at + 5] as u32) + file[at + 6] as u32;
                let width: u32 = 256 * (file[at + 7] as u32) + file[at + 8] as u32;
                if height > 65528 || width > 65528 {
                    return false;
                }
            }
        }
        at = at + 1;
    }
    true
}

/// Whether the file begins with these bytes.
fn begins_with(file: &Vec<u8>, start: &[u8]) -> (found: bool)
    ensures
        found == start@.is_prefix_of(file@),
{
    if file.len() < start.len() {
        return false;
    }
    let mut at: usize = 0;
    while at < start.len()
        invariant
            at <= start@.len() <= file@.len(),
            forall|i: int| 0 <= i < at ==> file@[i] == start@[i],
        decreases start@.len() - at,
    {
        if file[at] != start[at] {
            assert(file@.subrange(0, start@.len() as int)[at as int] != start@[at as int]);
            return false;
        }
        at = at + 1;
    }
    assert(file@.subrange(0, start@.len() as int) =~= start@);
    true
}

/// Whether the file begins with a signature of a GIF file.
fn is_gif(file: &Vec<u8>) -> (found: bool)
    ensures
        found == has_gif_signature(file@),
{
    let first: [u8; 6] = [0x47, 0x49, 0x46, 0x38, 0x37, 0x61];
    let second: [u8; 6] = [0x47, 0x49, 0x46, 0x38, 0x39, 0x61];
    assert(first@ =~= seq![0x47u8, 0x49u8, 0x46u8, 0x38u8, 0x37u8, 0x61u8]);
    assert(second@ =~= seq![0x47u8, 0x49u8, 0x46u8, 0x38u8, 0x39u8, 0x61u8]);
    begins_with(file, first.as_slice()) || begins_with(file, second.as_slice())
}

/// Whether the file begins with a signature of another kind.
fn is_of_other_kind(file: &Vec<u8>) -> (found: bool)
    ensures
        found == has_other_signature(file@),
{
    let webp: [u8; 4] = [0x52, 0x49, 0x46, 0x46];
    let tiff_big: [u8; 4] = [0x4d, 0x4d, 0x00, 0x2a];
    let tiff_little: [u8; 4] = [0x49, 0x49, 0x2a, 0x00];
    let dds: [u8; 4] = [0x44, 0x44, 0x53, 0x20];
    let ico: [u8; 4] = [0x00, 0x00, 0x01, 0x00];
    let hdr: [u8; 10] = [0x23, 0x3f, 0x52, 0x41, 0x44, 0x49, 0x41, 0x4e, 0x43, 0x45];
    let farbfeld: [u8; 8] = [0x66, 0x61, 0x72, 0x62, 0x66, 0x65, 0x6c, 0x64];
    let avif_long: [u8; 12] = [
        0x00,
        0x00,
        0x00,
        0x20,
        0x66,
        0x74,
        0x79,
        0x70,
        0x61,
        0x76,
        0x69,
        0x66,
    ];
    let avif_short: [u8; 12] = [
        0x00,
        0x00,
        0x00,
        0x1c,
        0x66,
        0x74,
        0x79,
        0x70,
        0x61,
        0x76,
        0x69,
        0x66,
    ];
    let exr: [u8; 4] = [0x76, 0x2f, 0x31, 0x01];
    let qoi: [u8; 4] = [0x71, 0x6f, 0x69, 0x66];
    proof {
        assert(webp@ =~= seq![0x52u8, 0x49u8, 0x46u8, 0x46u8]);
        assert(tiff_big@ =~= seq![0x4du8, 0x4du8, 0x00u8, 0x2au8]);
        assert(tiff_little@ =~= seq![0x49u8, 0x49u8, 0x2au8, 0x00u8]);
        assert(dds@ =~= seq![0x44u8, 0x44u8, 0x53u8, 0x20u8]);
        assert(ico@ =~= seq![0x00u8, 0x00u8, 0x01u8, 0x00u8]);
        assert(hdr@ =~= seq![
            0x23u8,
            0x3fu8,
            0x52u8,
            0x41u8,
            0x44u8,
            0x49u8,
            0x41u8,
            0x4eu8,
            0x43u8,
            0x45u8,
        ]);
        assert(farbfeld@ =~= seq![0x66u8, 0x61u8, 0x72u8, 0x62u8, 0x66u8, 0x65u8, 0x6cu8, 0x64u8]);
        assert(avif_long@ =~= seq![
            0x00u8,
            0x00u8,
            0x00u8,
            0x20u8,
            0x66u8,
            0x74u8,
            0x79u8,
            0x70u8,
            0x61u8,
            0x76u8,
            0x69u8,
            0x66u8,
        ]);
        assert(avif_short@ =~= seq![
            0x00u8,
            0x00u8,
            0x00u8,
            0x1cu8,
            0x66u8,
            0x74u8,
            0x79u8,
            0x70u8,
            0x61u8,
            0x76u8,
            0x69u8,
            0x66u8,
        ]);
        assert(exr@ =~= seq![0x76u8, 0x2fu8, 0x31u8, 0x01u8]);
        assert(qoi@ =~= seq![0x71u8, 0x6fu8, 0x69u8, 0x66u8]);
    }
    let is_pnm = file.len() >= 2 && file[0] == 0x50 && 0x31 <= file[1] && file[1] <= 0x37;
    is_pnm || begins_with(file, webp.as_slice())
        || begins_with(file, tiff_big.as_slice())
        || begins_with(file, tiff_little.as_slice())
        || begins_with(file, dds.as_slice())
        || begins_with(file, ico.as_slice())
        || begins_with(file, hdr.as_slice())
        || begins_with(file, farbfeld.as_slice())
        || begins_with(file, avif_long.as_slice())
        || begins_with(file, avif_short.as_slice())
        || begins_with(file, exr.as_slice())
        || begins_with(file, qoi.as_slice())
}

/// A PNG file begins neither as a JPEG file nor as a GIF or a BMP file does.
proof fn lemma_png_is_of_no_other_kind(file: Seq<u8>)
    requires
        png_signature().is_prefix_of(file),
    ensures
        !jpeg_signature().is_prefix_of(file),
        !has_gif_signature(file),
        !bmp_signature().is_prefix_of(file),
{
    assert(file[0] == png_signature()[0]);
    if jpeg_signature().is_prefix_of(file) {
        assert(file[0] == jpeg_signature()[0]);
    }
    lemma_letters_begin_the_others(file);
}

/// A JPEG file begins neither as a GIF file nor as a BMP file does.
proof fn lemma_jpeg_is_of_no_other_kind(file: Seq<u8>)
    requires
        jpeg_signature().is_prefix_of(file),
    ensures
        !has_gif_signature(file),
        !bmp_signature().is_prefix_of(file),
{
    assert(file[0] == jpeg_signature()[0]);
    lemma_letters_begin_the_others(file);
}

/// A GIF file begins with a "G", and a BMP file with a "B".
proof fn lemma_letters_begin_the_others(file: Seq<u8>)
    ensures
        has_gif_signature(file) ==> file[0] == 0x47,
        bmp_signature().is_prefix_of(file) ==> file[0] == 0x42,
{
    let first = seq![0x47u8, 0x49u8, 0x46u8, 0x38u8, 0x37u8, 0x61u8];
    let second = seq![0x47u8, 0x49u8, 0x46u8, 0x38u8, 0x39u8, 0x61u8];
    if first.is_prefix_of(file) {
        assert(file[0] == first[0]);
    }
    if second.is_prefix_of(file) {
        assert(file[0] == second[0]);
    }
    if bmp_signature().is_prefix_of(file) {
        assert(file[0] == bmp_signature()[0]);
    }
}

/// Whether the file can be read without fear of a panic.
pub fn is_readable(file: &Vec<u8>) -> (found: bool)
    ensures
        found == readable(file@),
{
    let png: [u8; 8] = [0x89, 0x50, 0x4e, 0x47, 0x0d, 0x0a, 0x1a, 0x0a];
    let jpeg: [u8; 3] = [0xff, 0xd8, 0xff];
    assert(png@ =~= png_signature());
    let bmp: [u8; 2] = [0x42, 0x4d];
    assert(jpeg@ =~= jpeg_signature());
    assert(bmp@ =~= bmp_signature());
    if begins_with(file, png.as_slice()) {
        proof {
            lemma_png_is_of_no_other_kind(file@);
        }
        do_palettes_fit(file)
    } else if begins_with(file, jpeg.as_slice()) {
        proof {
            lemma_jpeg_is_of_no_other_kind(file@);
        }
        do_frames_fit(file)
    } else {
        is_gif(file) || begins_with(file, bmp.as_slice()) || !is_of_other_kind(file)
    }
}

/// Reads an image file, with `photon_rs::native::open_image_from_bytes`.
///
/// Trusted: a file that begins with no signature is no image, and an image has
/// all its pixels. Which image a GIF, a BMP or a PNG file shows, if any, depends
/// on the bytes alone. An image in a JPEG file is as wide and as high as a frame's
/// header in the file says. That there is memory for the picture is taken for
/// granted.
///
/// What an image shows stays unsaid. So does whether a JPEG file is an image: the
/// decoder starts threads, and which pixels come out depends on the machine's
/// instructions.
///
/// Other files are left out. The call panics on some of them: a PNG file whose
/// palette does not fit, a JPEG file without loss and with more than eight bits
/// a sample, a WebP file whose picture is not as large as its canvas, a TIFF file
/// with a plane for each colour, and, where overflow is checked for, a JPEG file
/// with a side of more than 65528 pixels and a WebP file without loss and with a
/// distance of too many bits. The decoders of the kinds that are rare in a chat
/// are not relied on.
#[verifier::external_body]
fn open_image(file: &[u8]) -> (image: Option<Image>)
    requires
        readable(file@),
    ensures
        settled(file@) ==> image.deep_view() == decoded_image(file@),
        unsigned(file@) ==> image is None,
        image matches Some(found) ==> found.complete(),
        readable_jpeg(file@) ==> (image matches Some(found) ==> found.framed_by(file@)),
{
    let image = modular_agent_core::photon_rs::native::open_image_from_bytes(file).ok()?;
    let (width, height) = (image.get_width(), image.get_height());
    Some(Image { raw_pixels: image.get_raw_pixels(), width, height })
}

impl DeepView for Image {
    type V = ImageView;

    open spec fn deep_view(&self) -> ImageView {
        self@
    }
}

/// Reads an image file; nothing where it is no image.
pub fn read_image(file: &Vec<u8>) -> (image: Option<Image>)
    requires
        readable(file@),
    ensures
        settled(file@) ==> image.deep_view() == decoded_image(file@),
        image matches Some(found) ==> !unsigned(file@) && found.complete(),
        readable_jpeg(file@) ==> (image matches Some(found) ==> found.framed_by(file@)),
{
    open_image(file.as_slice())
}

/// An image can be written exactly where neither side is empty and four bytes are
/// there for every pixel. So an image that has all its pixels can be written unless
/// it has none.
pub proof fn law_whole_images_can_be_written(image: Image)
    ensures
        image.writable() <==> image.width >= 1 && image.height >= 1 && image.raw_pixels@.len()
            >= image.width * image.height * 4,
        image.raw_pixels@.len() == 4 * (image.width * image.height) && image.width > 0
            && image.height > 0 ==> image.writable(),
        image.complete() <==> image.raw_pixels@.len() == image.width * image.height * 4,
{
    let pixels = image.width * image.height;
    assert(pixels * 4 == 4 * pixels);
}

/// What an image shows is all of it.
pub proof fn law_image_shows_all_its_parts(image: Image)
    ensures
        image@.0 == image.raw_pixels@,
        image@.1 == image.width,
        image@.2 == image.height,
{
}

/// Files without a signature, GIF files, BMP files, PNG files in which no palette
/// is named, and JPEG files in which no frame is marked can all be read; so can a
/// PNG file whose palettes all have a length of whole colours, at most 256.
pub proof fn law_plain_files_are_readable(file: Seq<u8>)
    ensures
        unsigned(file) ==> readable(file),
        file.len() >= 6 && file.take(6) == seq![0x47u8, 0x49, 0x46, 0x38, 0x37, 0x61] ==> readable(
            file,
        ),
        file.len() >= 6 && file.take(6) == seq![0x47u8, 0x49, 0x46, 0x38, 0x39, 0x61] ==> readable(
            file,
        ),
        file.len() >= 2 && file[0] == 0x42 && file[1] == 0x4d ==> readable(file),
        file.len() >= 8 && file.take(8) == seq![
            0x89u8,
            0x50,
            0x4e,
            0x47,
            0x0d,
            0x0a,
            0x1a,
            0x0a,
        ] && (forall|at: int|
            0 <= at <= file.len() - 4 && #[trigger] file[at] == 0x50 && file[at + 1] == 0x4c
                && file[at + 2] == 0x54 && file[at + 3] == 0x45 ==> at >= 4 && file[at - 4] == 0
                && file[at - 3] == 0 && (256 * file[at - 2] + file[at - 1]) % 3 == 0 && 256
                * file[at - 2] + file[at - 1] <= 768) ==> readable(file),
        file.len() >= 3 && file[0] == 0xff && file[1] == 0xd8 && file[2] == 0xff && (forall|at: int|
            0 <= at <= file.len() - 2 && #[trigger] file[at] == 0xff ==> !(0xc0 <= file[at + 1]
                <= 0xc3)) ==> readable(file),
{
    if file.len() >= 6 {
        assert(file.take(6) =~= file.subrange(0, 6));
    }
    if file.len() >= 2 && file[0] == 0x42 && file[1] == 0x4d {
        assert(file.subrange(0, 2) =~= bmp_signature());
    }
    if file.len() >= 8 {
        assert(file.take(8) =~= file.subrange(0, 8));
    }
    if file.len() >= 3 && file[0] == 0xff && file[1] == 0xd8 && file[2] == 0xff {
        assert(file.subrange(0, 3) =~= jpeg_signature());
    }
}

/// No file on which the decoders may panic is read: no WebP or TIFF file, no JPEG
/// file that marks a frame without loss or one with a side of more than 65528
/// pixels, and no PNG file whose palette is not made of whole colours.
pub proof fn law_risky_files_are_left_out(file: Seq<u8>, at: int)
    requires
        readable(file),
        file.len() >= 8,
        0 <= at <= file.len() - 2,
    ensures
        !(file[0] == 0x52 && file[1] == 0x49 && file[2] == 0x46 && file[3] == 0x46),
        !(file[0] == 0x4d && file[1] == 0x4d && file[2] == 0 && file[3] == 0x2a),
        !(file[0] == 0x49 && file[1] == 0x49 && file[2] == 0x2a && file[3] == 0),
        file[0] == 0xff && file[1] == 0xd8 && file[2] == 0xff && file[at] == 0xff ==> {
            &&& file[at + 1] != 0xc3
            &&& 0xc0 <= file[at + 1] <= 0xc2 && at + 9 <= file.len() ==> 256 * file[at + 5]
                + file[at + 6] <= 65528 && 256 * file[at + 7] + file[at + 8] <= 65528
        },
        file.take(8) == png_signature() && at + 4 <= file.len() && file[at] == 0x50 && file[at + 1]
            == 0x4c && file[at + 2] == 0x54 && file[at + 3] == 0x45 ==> at >= 4 && (256 * file[at
            - 2] + file[at - 1]) % 3 == 0,
{
    lemma_letters_begin_the_others(file);
    if png_signature().is_prefix_of(file) {
        assert(file[0] == png_signature()[0]);
    }
    if jpeg_signature().is_prefix_of(file) {
        assert(file[0] == jpeg_signature()[0]);
    }
    assert(file.subrange(0, 4) =~= seq![file[0], file[1], file[2], file[3]]);
    assert(file.subrange(0, 3) =~= seq![file[0], file[1], file[2]]);
    assert(file.take(8) =~= file.subrange(0, 8));
    if file.take(8) == png_signature() {
        lemma_png_is_of_no_other_kind(file);
        assert(palette_at(file, at) ==> palette_length_before(file, at));
    }
    if file[0] == 0xff && file[1] == 0xd8 && file[2] == 0xff {
        lemma_jpeg_is_of_no_other_kind(file);
        assert(!lossless_frame_at(file, at));
        assert(frame_at(file, at) ==> frame_height(file, at) <= 65528 && frame_width(file, at)
            <= 65528);
        if file[at] == 0xff && 0xc0 <= file[at + 1] <= 0xc2 && at + 9 <= file.len() {
            assert(frame_at(file, at));
            assert(frame_height(file, at) == 256 * file[at + 5] + file[at + 6]);
            assert(frame_width(file, at) == 256 * file[at + 7] + file[at + 8]);
        }
    }
}

} // verus!
