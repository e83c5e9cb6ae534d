//! Choosing the tray icon from an icon file.
//!
//! An icon file holds a directory of images of several sizes. The tray
//! gets the largest of them, as raw RGBA pixels. Reading the directory
//! and decoding an image are the work of the `ico` crate; choosing the
//! image, and refusing one whose stated size the decoder cannot handle,
//! is decided here.

use vstd::prelude::*;

verus! {

/// The sizes, as (width, height) in pixels, of the images that
/// `ico::IconDir::read` finds in the file `data`, in directory order, or
/// `None` where it rejects the file.
pub uninterp spec fn ico_directory(data: Seq<u8>) -> Option<Seq<(u32, u32)>>;

/// The image, as (RGBA bytes, width, height), that
/// `ico::IconDirEntry::decode` makes of entry `index` of the directory of
/// `data`, or `None` where it rejects the entry.
pub uninterp spec fn ico_image(data: Seq<u8>, index: int) -> Option<(Seq<u8>, u32, u32)>;

/// The number of pixels of an image of the given size.
pub open spec fn area(size: (u32, u32)) -> int {
    size.0 as int * size.1 as int
}

/// A size that the decoder can work on. Its buffer offsets are 32-bit
/// numbers, so four bytes for each pixel, and the bits of one row, must
/// stay below 2^32.
pub open spec fn decodable(size: (u32, u32)) -> bool {
    &&& 4 * area(size) <= u32::MAX
    &&& 32 * size.0 + 7 <= u32::MAX
}

/// Entry `i` is the one to take: no entry has more pixels, and among
/// those with as many it is the last.
pub open spec fn is_largest(sizes: Seq<(u32, u32)>, i: int) -> bool {
    &&& 0 <= i < sizes.len()
    &&& forall|j: int| 0 <= j < sizes.len() ==> area(#[trigger] sizes[j]) <= area(sizes[i])
    &&& forall|j: int| i < j < sizes.len() ==> area(#[trigger] sizes[j]) < area(sizes[i])
}

/// The size of the entry to take.
pub open spec fn largest_size(sizes: Seq<(u32, u32)>) -> (u32, u32) {
    sizes[choose|i: int| is_largest(sizes, i)]
}

/// At most one entry is the one to take.
pub proof fn lemma_largest_is_unique(sizes: Seq<(u32, u32)>, i: int, j: int)
    requires
        is_largest(sizes, i),
        is_largest(sizes, j),
    ensures
        i == j,
{
    if i < j {
        assert(area(sizes[j]) < area(sizes[i]));
        assert(area(sizes[i]) <= area(sizes[j]));
    } else if j < i {
        assert(area(sizes[i]) < area(sizes[j]));
        assert(area(sizes[j]) <= area(sizes[i]));
    }
}

fn pixel_count(size: (u32, u32)) -> (n: u64)
    ensures
        n == area(size),
{
    let w: u64 = size.0 as u64;
    let h: u64 = size.1 as u64;
    assert(w * h <= 0xFFFF_FFFF * 0xFFFF_FFFF) by (nonlinear_arith)
        requires
            0 <= w <= 0xFFFF_FFFF,
            0 <= h <= 0xFFFF_FFFF,
    ;
    w * h
}

/// The index of the largest image among `sizes`: the one with the most
/// pixels, and of several such the last. `None` if there is no image.
pub fn largest_entry(sizes: &[(u32, u32)]) -> (index: Option<usize>)
    ensures
        index is None <==> sizes@.len() == 0,
        index matches Some(i) ==> is_largest(sizes@, i as int),
{
    if sizes.len() == 0 {
        return None;
    }
    let mut best: usize = 0;
    let mut best_area: u64 = pixel_count(sizes[0]);
    let mut i: usize = 1;
    while i < sizes.len()
        invariant
            1 <= i <= sizes.len(),
            best < i,
            best_area == area(sizes@[best as int]),
            forall|j: int| 0 <= j < i ==> area(#[trigger] sizes@[j]) <= area(sizes@[best as int]),
            forall|j: int| best < j < i ==> area(#[trigger] sizes@[j]) < area(sizes@[best as int]),
        decreases sizes.len() - i,
    {
        let a: u64 = pixel_count(sizes[i]);
        if a >= best_area {
            best = i;
            best_area = a;
        }
        i += 1;
    }
    Some(best)
}

/// Whether the decoder can work on an image of this size.
pub fn can_decode(size: (u32, u32)) -> (ok: bool)
    ensures
        ok == decodable(size),
{
    pixel_count(size) <= 0x3FFF_FFFF && size.0 <= 0x07FF_FFFF
}

/// Why an icon file yields no icon.
#[derive(Clone, Copy, Debug, PartialEq, Eq, Structural)]
pub enum IconError {
    /// The file is not a readable icon directory.
    Unreadable,
    /// The directory holds no image.
    NoEntries,
    /// The largest image states a size that the decoder cannot handle.
    TooLarge,
    /// The data of the largest image cannot be decoded.
    Undecodable,
}

/// An image as raw pixels: four bytes (red, green, blue, alpha) for each
/// pixel, row by row from the top.
#[derive(Clone, Debug, PartialEq, Eq)]
pub struct DecodedIcon {
    pub rgba: Vec<u8>,
    pub width: u32,
    pub height: u32,
}

/// An image as contracts see it.
pub struct Pixels {
    pub rgba: Seq<u8>,
    pub width: u32,
    pub height: u32,
}

impl View for DecodedIcon {
    type V = Pixels;

    open spec fn view(&self) -> Pixels {
        Pixels { rgba: self.rgba@, width: self.width, height: self.height }
    }
}

/// What an icon file yields, given what the `ico` crate makes of it.
///
/// A file that cannot be read, that holds no image, or whose largest
/// image is too large or cannot be decoded yields the error that says
/// so. Otherwise the file yields its largest image: the one with the
/// most pixels, and of several such the last in the directory.
pub open spec fn icon_of(data: Seq<u8>) -> Result<Pixels, IconError> {
    match ico_directory(data) {
        None => Err(IconError::Unreadable),
        Some(sizes) => if sizes.len() == 0 {
            Err(IconError::NoEntries)
        } else {
            if !decodable(largest_size(sizes)) {
                Err(IconError::TooLarge)
            } else {
                match ico_image(data, choose|i: int| is_largest(sizes, i)) {
                    None => Err(IconError::Undecodable),
                    Some((rgba, width, height)) => Ok(Pixels { rgba, width, height }),
                }
            }
        },
    }
}

/// Reads the directory of the icon file `data` with `ico::IconDir::read`
/// and hands out the size of each entry, as `width()` and `height()` of
/// the entry give it.
///
/// Trusted: the sizes are a function of the bytes alone, which is all
/// that the name `ico_directory` says. The reader takes its input from
/// the slice only and fails with an error, never a panic, on input that
/// is short or malformed.
#[verifier::external_body]
fn read_entry_sizes(data: &[u8]) -> (sizes: Option<Vec<(u32, u32)>>)
    ensures
        match sizes {
            Some(found) => ico_directory(data@) == Some(found@),
            None => ico_directory(data@) is None,
        },
{
    match ico::IconDir::read(std::io::Cursor::new(data)) {
        Ok(dir) => Some(dir.entries().iter().map(|entry| (entry.width(), entry.height())).collect()),
        Err(_) => None,
    }
}

/// Decodes entry `index` of the icon file `data` with
/// `ico::IconDirEntry::decode`, reaching the entry through
/// `ico::IconDir::read` once more, and hands out the pixels and the size
/// of the image.
///
/// Trusted: the image is a function of the bytes and the index alone
/// (the name `ico_image`); a decoded image has the size that the
/// directory states for the entry, since `decode` rejects any other; and
/// it has four bytes for each pixel, since the crate's image type admits
/// nothing else. The decoder computes buffer offsets in 32-bit numbers
/// from the size it finds, which is the stated one: `decodable` keeps
/// them from overflowing.
#[verifier::external_body]
fn decode_entry(data: &[u8], index: usize) -> (image: Option<(Vec<u8>, u32, u32)>)
    requires
        ico_directory(data@) matches Some(sizes) && index < sizes.len() && decodable(
            sizes[index as int],
        ),
    ensures
        match image {
            Some((rgba, width, height)) => ico_image(data@, index as int) == Some(
                (rgba@, width, height),
            ),
            None => ico_image(data@, index as int) is None,
        },
        image matches Some((rgba, width, height)) ==> {
            &&& (width, height) == ico_directory(data@)->Some_0[index as int]
            &&& rgba@.len() == 4 * area((width, height))
        },
{
    let dir = ico::IconDir::read(std::io::Cursor::new(data)).ok()?;
    match dir.entries()[index].decode() {
        Ok(image) => Some((image.rgba_data().to_vec(), image.width(), image.height())),
        Err(_) => None,
    }
}

/// Loads the tray icon from the bytes of an icon file: the largest image
/// of the file, decoded to RGBA pixels.
pub fn load_icon_file(data: &[u8]) -> (icon: Result<DecodedIcon, IconError>)
    ensures
        match icon {
            Ok(found) => icon_of(data@) == Ok::<Pixels, IconError>(found@),
            Err(error) => icon_of(data@) == Err::<Pixels, IconError>(error),
        },
        icon matches Ok(found) ==> {
            &&& (found.width, found.height) == largest_size(ico_directory(data@)->Some_0)
            &&& found.rgba@.len() == 4 * area((found.width, found.height))
        },
{
    let sizes = match read_entry_sizes(data) {
        Some(sizes) => sizes,
        None => { return Err(IconError::Unreadable); },
    };
    let index = match largest_entry(&sizes) {
        Some(index) => index,
        None => { return Err(IconError::NoEntries); },
    };
    proof {
        let chosen = choose|i: int| is_largest(sizes@, i);
        lemma_largest_is_unique(sizes@, index as int, chosen);
    }
    if !can_decode(sizes[index]) {
        return Err(IconError::TooLarge);
    }
    match decode_entry(data, index) {
        Some((rgba, width, height)) => Ok(DecodedIcon { rgba, width, height }),
        None => Err(IconError::Undecodable),
    }
}

} // verus!
