use vstd::prelude::*;

verus! {

/// What the `image` crate decodes from the bytes of a PNG file and converts
/// to 8-bit RGBA: width, height and the pixel bytes row by row, four bytes
/// (red, green, blue, alpha) per pixel; `None` when the bytes are no PNG it
/// can decode.
pub uninterp spec fn png_rgba8(bytes: Seq<u8>) -> Option<(u32, u32, Seq<u8>)>;

/// `image::load_from_memory_with_format` with `ImageFormat::Png`, then
/// `DynamicImage::into_rgba8` and the width, height and raw bytes of the
/// resulting buffer. The result is named `png_rgba8` of the input bytes;
/// nothing more is claimed of the decoder.
#[verifier::external_body]
fn load_png_rgba8(bytes: &[u8]) -> (result: Option<(u32, u32, Vec<u8>)>)
    ensures
        match result {
            Some(decoded) => png_rgba8(bytes@) == Some((decoded.0, decoded.1, decoded.2@)),
            None => png_rgba8(bytes@) is None,
        },
{
    match image::load_from_memory_with_format(bytes, image::ImageFormat::Png) {
        Ok(decoded) => {
            let rgba = decoded.into_rgba8();
            Some((rgba.width(), rgba.height(), rgba.into_raw()))
        },
        Err(_) => None,
    }
}

/// The byte that ends up at position `i` when red and blue trade places
/// within each four-byte pixel.
pub open spec fn swapped_index(i: int) -> int {
    if i % 4 == 0 {
        i + 2
    } else if i % 4 == 2 {
        i - 2
    } else {
        i
    }
}

/// `bytes` with the first and third byte of every complete four-byte chunk
/// exchanged (RGBA to BGRA); bytes after the last complete chunk stay.
pub open spec fn swap_red_blue(bytes: Seq<u8>) -> Seq<u8> {
    Seq::new(
        bytes.len(),
        |i: int|
            if i < bytes.len() - bytes.len() % 4 {
                bytes[swapped_index(i)]
            } else {
                bytes[i]
            },
    )
}

/// Turns RGBA pixel bytes into BGRA in place.
pub fn rgba_to_bgra(pixels: &mut Vec<u8>)
    ensures
        final(pixels)@ == swap_red_blue(old(pixels)@),
{
    let ghost orig = pixels@;
    let n = pixels.len();
    let mut i: usize = 0;
    while n - i >= 4
        invariant
            i <= n,
            i % 4 == 0,
            n == orig.len(),
            pixels@.len() == n,
            forall|k: int| 0 <= k < i ==> pixels@[k] == orig[swapped_index(k)],
            forall|k: int| i <= k < n ==> pixels@[k] == orig[k],
        decreases n - i,
    {
        let red = pixels[i];
        let blue = pixels[i + 2];
        pixels.set(i, blue);
        pixels.set(i + 2, red);
        i = i + 4;
    }
    assert(i == n - n % 4);
    assert(pixels@ =~= swap_red_blue(orig));
}

/// Swapping red and blue twice gives the bytes back.
pub proof fn lemma_swap_red_blue_involution(bytes: Seq<u8>)
    ensures
        swap_red_blue(swap_red_blue(bytes)) == bytes,
{
    let once = swap_red_blue(bytes);
    assert forall|i: int| 0 <= i < bytes.len() implies #[trigger] swap_red_blue(once)[i] == bytes[i] by {
        if i < bytes.len() - bytes.len() % 4 {
            assert(swapped_index(i) < bytes.len() - bytes.len() % 4);
            assert(swapped_index(swapped_index(i)) == i);
        }
    }
    assert(swap_red_blue(once) =~= bytes);
}

/// The four bytes of the `k`-th pixel of `bytes`.
pub open spec fn pixel(bytes: Seq<u8>, k: int) -> (u8, u8, u8, u8) {
    (bytes[4 * k], bytes[4 * k + 1], bytes[4 * k + 2], bytes[4 * k + 3])
}

/// Swapping red and blue keeps the length; every complete pixel (r, g, b, a)
/// becomes (b, g, r, a), wherever it stands; bytes after the last complete
/// pixel stay.
pub proof fn lemma_swap_red_blue_pixels(bytes: Seq<u8>)
    ensures
        swap_red_blue(bytes).len() == bytes.len(),
        forall|k: int|
            0 <= k && 4 * k + 3 < bytes.len() ==> #[trigger] pixel(swap_red_blue(bytes), k) == (
                pixel(bytes, k).2,
                pixel(bytes, k).1,
                pixel(bytes, k).0,
                pixel(bytes, k).3,
            ),
        forall|i: int|
            bytes.len() - bytes.len() % 4 <= i < bytes.len() ==> #[trigger] swap_red_blue(bytes)[i]
                == bytes[i],
{
    let q = swap_red_blue(bytes);
    assert forall|k: int| 0 <= k && 4 * k + 3 < bytes.len() implies #[trigger] pixel(q, k) == (
        pixel(bytes, k).2,
        pixel(bytes, k).1,
        pixel(bytes, k).0,
        pixel(bytes, k).3,
    ) by {
        assert(4 * k + 3 < bytes.len() - bytes.len() % 4);
        assert(swapped_index(4 * k) == 4 * k + 2);
        assert(swapped_index(4 * k + 1) == 4 * k + 1);
        assert(swapped_index(4 * k + 2) == 4 * k);
        assert(swapped_index(4 * k + 3) == 4 * k + 3);
    }
}

/// Decoding gives the decoder's width and height, and the decoder's bytes
/// with every complete pixel (r, g, b, a) turned into (b, g, r, a), in every
/// row; a PNG the decoder rejects gives nothing.
pub proof fn lemma_decoded_bgra_pixels(bytes: Seq<u8>)
    ensures
        png_rgba8(bytes) is None ==> decoded_bgra(bytes) is None,
        png_rgba8(bytes) matches Some(rgba) ==> decoded_bgra(bytes) matches Some(bgra) && {
            &&& bgra.0 == rgba.0
            &&& bgra.1 == rgba.1
            &&& bgra.2.len() == rgba.2.len()
            &&& forall|k: int|
                0 <= k && 4 * k + 3 < rgba.2.len() ==> #[trigger] pixel(bgra.2, k) == (
                    pixel(rgba.2, k).2,
                    pixel(rgba.2, k).1,
                    pixel(rgba.2, k).0,
                    pixel(rgba.2, k).3,
                )
            &&& forall|i: int|
                rgba.2.len() - rgba.2.len() % 4 <= i < rgba.2.len() ==> #[trigger] bgra.2[i]
                    == rgba.2[i]
        },
{
    if let Some(rgba) = png_rgba8(bytes) {
        lemma_swap_red_blue_pixels(rgba.2);
    }
}

/// A decoded image: width and height in pixels, and four bytes per pixel in
/// blue, green, red, alpha order.
pub struct DecodedImage {
    pub width: u32,
    pub height: u32,
    pub pixels: Vec<u8>,
}

/// The image the bytes of a PNG file decode to, with red and blue exchanged
/// in every pixel; `None` when the `image` crate cannot decode them.
pub open spec fn decoded_bgra(bytes: Seq<u8>) -> Option<(u32, u32, Seq<u8>)> {
    match png_rgba8(bytes) {
        Some(decoded) => Some((decoded.0, decoded.1, swap_red_blue(decoded.2))),
        None => None,
    }
}

/// Decodes the bytes of a PNG file into BGRA pixels: the RGBA bytes that the
/// `image` crate decodes, with red and blue exchanged in every pixel. The
/// bytes must be a PNG that the crate decodes (the embedded logos are);
/// `try_decode_png` accepts any bytes.
pub fn decode_png(bytes: &[u8]) -> (image: DecodedImage)
    requires
        png_rgba8(bytes@) is Some,
    ensures
        decoded_bgra(bytes@) == Some((image.width, image.height, image.pixels@)),
{
    match load_png_rgba8(bytes) {
        Some((width, height, rgba)) => {
            let mut pixels = rgba;
            rgba_to_bgra(&mut pixels);
            DecodedImage { width, height, pixels }
        },
        None => {
            assert(false);
            DecodedImage { width: 0, height: 0, pixels: Vec::new() }
        },
    }
}

/// Decodes the bytes of a PNG file into BGRA pixels when the `image` crate
/// can decode them, as `decode_png` does, and gives `None` when it cannot.
pub fn try_decode_png(bytes: &[u8]) -> (result: Option<DecodedImage>)
    ensures
        match decoded_bgra(bytes@) {
            Some(decoded) => result matches Some(image) && (image.width, image.height, image.pixels@)
                == decoded,
            None => result is None,
        },
{
    match load_png_rgba8(bytes) {
        Some(_) => Some(decode_png(bytes)),
        None => None,
    }
}

} // verus!
