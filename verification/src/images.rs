//! Pictures.
use vstd::prelude::*;

verus! {

#[verifier::external_type_specification]
#[verifier::external_body]
pub struct ExImageFormat(image::ImageFormat);

#[verifier::external_type_specification]
#[verifier::external_body]
pub struct ExDynamicImage(image::DynamicImage);

#[verifier::external_type_specification]
#[verifier::external_body]
pub struct ExImageError(image::ImageError);

/// The format that the first bytes of a file announce.
pub uninterp spec fn format_of(bytes: Seq<u8>) -> Option<image::ImageFormat>;

/// Width and height of the picture that a file holds, where the file can be
/// decoded.
pub uninterp spec fn decoded_size(bytes: Seq<u8>) -> Option<(u32, u32)>;

/// Width and height of a picture.
pub uninterp spec fn size_of(picture: image::DynamicImage) -> (u32, u32);

/// `image::guess_format`: the named format, or an error where the bytes begin
/// with no signature that is known.
#[verifier::external_body]
pub(crate) fn guess_format(bytes: &[u8]) -> (res: Result<image::ImageFormat, image::ImageError>)
    ensures
        res is Ok <==> format_of(bytes@) is Some,
        res matches Ok(format) ==> format_of(bytes@) == Some(format),
{
    image::guess_format(bytes)
}

/// Whether a file begins as a PNG does.
pub open spec fn is_png(bytes: Seq<u8>) -> bool {
    &&& bytes.len() >= 8
    &&& bytes[0] == 0x89 && bytes[1] == 0x50 && bytes[2] == 0x4e && bytes[3] == 0x47
    &&& bytes[4] == 0x0d && bytes[5] == 0x0a && bytes[6] == 0x1a && bytes[7] == 0x0a
}

/// Whether a file begins as a GIF does, of 1987 or 1989.
pub open spec fn is_gif(bytes: Seq<u8>) -> bool {
    &&& bytes.len() >= 6
    &&& bytes[0] == 0x47 && bytes[1] == 0x49 && bytes[2] == 0x46 && bytes[3] == 0x38
    &&& bytes[4] == 0x37 || bytes[4] == 0x39
    &&& bytes[5] == 0x61
}

/// Whether a file begins as a JPEG does.
pub open spec fn is_jpeg(bytes: Seq<u8>) -> bool {
    bytes.len() >= 3 && bytes[0] == 0xff && bytes[1] == 0xd8 && bytes[2] == 0xff
}

/// Whether what stands at `i` could be the marker of a lossless frame, or that
/// of another frame of which a side has 65280 pixels or more.
pub open spec fn may_be_odd_frame(bytes: Seq<u8>, i: int) -> bool {
    &&& i + 1 < bytes.len()
    &&& bytes[i] == 0xff
    &&& bytes[i + 1] == 0xc3 || (0xc0 <= bytes[i + 1] <= 0xc2 && i + 7 < bytes.len() && (bytes[i
        + 5] == 0xff || bytes[i + 7] == 0xff))
}

/// Whether a file is a PNG, a GIF, or a JPEG in which nothing can be taken for
/// the frames that make its decoder panic. Decoding one of these gives a picture
/// or an error.
pub open spec fn is_plain_picture(bytes: Seq<u8>) -> bool {
    ||| is_png(bytes)
    ||| is_gif(bytes)
    ||| is_jpeg(bytes) && forall|i: int|
        0 <= i < bytes.len() ==> !#[trigger] may_be_odd_frame(bytes, i)
}

/// Whether a file is one that can be decoded without a panic.
pub fn plain_picture(bytes: &[u8]) -> (res: bool)
    ensures
        res == is_plain_picture(bytes@),
{
    let len = bytes.len();
    if len >= 8 && bytes[0] == 0x89 && bytes[1] == 0x50 && bytes[2] == 0x4e && bytes[3] == 0x47
        && bytes[4] == 0x0d && bytes[5] == 0x0a && bytes[6] == 0x1a && bytes[7] == 0x0a {
        return true;
    }
    if len >= 6 && bytes[0] == 0x47 && bytes[1] == 0x49 && bytes[2] == 0x46 && bytes[3] == 0x38 && (
    bytes[4] == 0x37 || bytes[4] == 0x39) && bytes[5] == 0x61 {
        return true;
    }
    if len < 3 || bytes[0] != 0xff || bytes[1] != 0xd8 || bytes[2] != 0xff {
        return false;
    }
    for i in 0..len
        invariant
            len == bytes@.len(),
            is_jpeg(bytes@),
            forall|j: int| 0 <= j < i ==> !#[trigger] may_be_odd_frame(bytes@, j),
    {
        let rest = len - i;
        if rest > 1 && bytes[i] == 0xff {
            let marker = bytes[i + 1];
            if marker == 0xc3 || (0xc0 <= marker && marker <= 0xc2 && rest > 7 && (bytes[i + 5]
                == 0xff || bytes[i + 7] == 0xff)) {
                assert(may_be_odd_frame(bytes@, i as int));
                return false;
            }
        }
    }
    true
}

/// `image::load_from_memory` on a PNG, a GIF or a plain JPEG: a picture of the
/// named width and height, or an error where the bytes cannot be decoded. It is
/// not called on other files: the decoder of lossless JPEGs panics where their
/// samples do not have 8 bits, that of other JPEGs overflows a 16-bit number at
/// the greatest heights, and those of further formats panic on some malformed
/// files. The colours of the picture are not named: the JPEG decoder computes
/// them in ways that differ from processor to processor. The claim presumes that
/// the system grants the memory and the threads that decoding asks for.
#[verifier::external_body]
pub(crate) fn load_from_memory(bytes: &[u8]) -> (res: Result<
    image::DynamicImage,
    image::ImageError,
>)
    requires
        is_plain_picture(bytes@),
    ensures
        res is Ok <==> decoded_size(bytes@) is Some,
        res matches Ok(picture) ==> decoded_size(bytes@) == Some(size_of(picture)),
{
    image::load_from_memory(bytes)
}

/// `image::GenericImageView::dimensions`: the named width and height.
#[verifier::external_body]
pub(crate) fn dimensions(picture: &image::DynamicImage) -> (res: (u32, u32))
    ensures
        res == size_of(*picture),
{
    image::GenericImageView::dimensions(picture)
}

/// Whether a picture of size `from` that is made smaller to fit `width` and
/// `height` has the size `to`: it fills one of the two bounds and keeps its
/// proportions, rounded by less than a pixel, but not to nothing.
pub open spec fn is_scaled_to_fit(
    from: (u32, u32),
    width: u32,
    height: u32,
    to: (u32, u32),
) -> bool {
    let (w, h) = (from.0 as int, from.1 as int);
    if width * h <= height * w {
        &&& to.0 == width
        &&& 1 <= to.1 <= height
        &&& -w <= to.1 * w - width * h <= w
    } else {
        &&& to.1 == height
        &&& 1 <= to.0 <= width
        &&& -h <= to.0 * h - height * w <= h
    }
}

/// The size that a picture has once it was made to fit `width` and `height`. A
/// bound of no width leaves a single pixel, and a picture of no width gets one.
pub open spec fn is_resized(
    from: (u32, u32),
    width: u32,
    height: u32,
    to: (u32, u32),
) -> bool {
    if from.0 == 0 {
        to == (1u32, height)
    } else if width == 0 {
        to == (1u32, 1u32)
    } else {
        is_scaled_to_fit(from, width, height, to)
    }
}

/// `image::DynamicImage::resize` with the Lanczos filter of window 3, used to
/// make a picture less high. The new picture is the greatest that fits within
/// the bounds and keeps the proportions, which are rounded to whole pixels. Its
/// colours are computed in floating point, and nothing is claimed of them.
#[verifier::external_body]
pub(crate) fn resize(picture: &image::DynamicImage, width: u32, height: u32) -> (res:
    image::DynamicImage)
    requires
        width <= size_of(*picture).0,
        1 <= height < size_of(*picture).1,
    ensures
        is_resized(size_of(*picture), width, height, size_of(res)),
{
    picture.resize(width, height, image::imageops::FilterType::Lanczos3)
}

/// Which files are decoded here: all that begin as a PNG or a GIF does, and of
/// those that begin as a JPEG does the ones in which no byte pair can mark a
/// lossless frame, nor another frame with a side of 65280 pixels or more.
/// Nothing else is.
pub proof fn law_which_files_are_plain(bytes: Seq<u8>, i: int)
    ensures
        bytes.len() >= 8 && bytes.take(8) == seq![
            0x89u8,
            0x50,
            0x4e,
            0x47,
            0x0d,
            0x0a,
            0x1a,
            0x0a,
        ] ==> is_plain_picture(bytes),
        bytes.len() >= 6 && (bytes.take(6) == seq![0x47u8, 0x49, 0x46, 0x38, 0x37, 0x61]
            || bytes.take(6) == seq![0x47u8, 0x49, 0x46, 0x38, 0x39, 0x61]) ==> is_plain_picture(
            bytes,
        ),
        is_plain_picture(bytes) ==> bytes.len() >= 3 && (bytes[0] == 0x89 || bytes[0] == 0x47
            || bytes[0] == 0xff && bytes[1] == 0xd8 && bytes[2] == 0xff),
        is_plain_picture(bytes) && bytes[0] == 0xff && 0 <= i < bytes.len() - 1 && bytes[i] == 0xff
            ==> bytes[i + 1] != 0xc3,
        is_plain_picture(bytes) && bytes[0] == 0xff && 0 <= i < bytes.len() - 7 && bytes[i] == 0xff
            && 0xc0 <= bytes[i + 1] <= 0xc2 ==> bytes[i + 5] < 0xff && bytes[i + 7] < 0xff,
        bytes.len() >= 3 && bytes[0] == 0xff && bytes[1] == 0xd8 && bytes[2] == 0xff
            && !is_plain_picture(bytes) ==> exists|j: int|
            0 <= j < bytes.len() - 1 && bytes[j] == 0xff && 0xc0 <= #[trigger] bytes[j + 1] <= 0xc3,
{
    if bytes.len() >= 8 {
        assert(forall|k: int| 0 <= k < 8 ==> #[trigger] bytes.take(8)[k] == bytes[k]);
    }
    if bytes.len() >= 6 {
        assert(forall|k: int| 0 <= k < 6 ==> #[trigger] bytes.take(6)[k] == bytes[k]);
    }
    if is_plain_picture(bytes) && bytes[0] == 0xff && 0 <= i < bytes.len() - 1 {
        assert(!may_be_odd_frame(bytes, i));
    }
    if bytes.len() >= 3 && bytes[0] == 0xff && bytes[1] == 0xd8 && bytes[2] == 0xff
        && !is_plain_picture(bytes) {
        let j = choose|j: int| 0 <= j < bytes.len() && #[trigger] may_be_odd_frame(bytes, j);
        assert(0xc0 <= bytes[j + 1] <= 0xc3);
    }
}

/// A picture that was made smaller lies within the bounds, fills one of them,
/// and has the proportions that it had, up to one pixel of either side.
pub proof fn law_smaller_pictures_keep_their_proportions(
    from: (u32, u32),
    width: u32,
    height: u32,
    to: (u32, u32),
)
    requires
        from.0 > 0,
        width > 0,
        is_resized(from, width, height, to),
    ensures
        1 <= to.0 <= width,
        to.1 <= height,
        to.0 == width || to.1 == height,
        to.0 * from.1 - to.1 * from.0 <= from.0 || to.0 * from.1 - to.1 * from.0 <= from.1,
        to.1 * from.0 - to.0 * from.1 <= from.0 || to.1 * from.0 - to.0 * from.1 <= from.1,
{
}

} // verus!
