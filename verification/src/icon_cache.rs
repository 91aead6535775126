//! Decoded icons and the cache that keeps them by path.

use vstd::hash_map::StringHashMap;
use vstd::prelude::*;
use vstd::string::StringExecFns;

verus! {

/// Why an icon could not be had from the bytes of a file.
#[derive(Debug, PartialEq, Eq)]
pub enum IconError {
    /// The file could not be read; the text is the system's reason.
    Unreadable(String),
    /// The bytes are no image that the decoder reads; the text is its reason.
    Undecodable(String),
    /// The pixels that came out of the decoder do not fill the dimensions
    /// that came with them.
    BadDimensions,
}

/// An icon as a mathematical value: its pixels, four bytes each (red, green,
/// blue, alpha), row by row, and its size in pixels.
pub struct IconPixels {
    pub rgba: Seq<u8>,
    pub width: u32,
    pub height: u32,
}

/// Whether `len` bytes are exactly the pixels of a `width` by `height` image.
pub open spec fn fills(len: nat, width: u32, height: u32) -> bool {
    len == 4 * (width * height)
}

/// A decoded icon, ready to be handed to the tray.
#[derive(Debug, PartialEq, Eq)]
pub struct IconImage {
    rgba: Vec<u8>,
    width: u32,
    height: u32,
}

impl View for IconImage {
    type V = IconPixels;

    closed spec fn view(&self) -> IconPixels {
        IconPixels { rgba: self.rgba@, width: self.width, height: self.height }
    }
}

impl Clone for IconImage {
    fn clone(&self) -> (r: IconImage)
        ensures
            r@ == self@,
    {
        proof {
            use_type_invariant(self);
        }
        IconImage { rgba: self.rgba.clone(), width: self.width, height: self.height }
    }
}

impl IconImage {
    #[verifier::type_invariant]
    spec fn well_formed(self) -> bool {
        fills(self.rgba@.len(), self.width, self.height)
    }

    /// An icon of `width` by `height` pixels. The bytes must be exactly its
    /// pixels, four for each.
    pub fn new(rgba: Vec<u8>, width: u32, height: u32) -> (r: Result<IconImage, IconError>)
        ensures
            match r {
                Ok(icon) => fills(rgba@.len(), width, height) && icon@ == (IconPixels {
                    rgba: rgba@,
                    width,
                    height,
                }),
                Err(e) => !fills(rgba@.len(), width, height) && e == IconError::BadDimensions,
            },
    {
        let w: u64 = width as u64;
        let h: u64 = height as u64;
        assert(w * h <= 0xffff_ffff * 0xffff_ffff) by (nonlinear_arith)
            requires
                w <= 0xffff_ffff,
                h <= 0xffff_ffff,
        ;
        let area: u64 = w * h;
        let len: u64 = rgba.len() as u64;
        if len % 4 == 0 && len / 4 == area {
            Ok(IconImage { rgba, width, height })
        } else {
            Err(IconError::BadDimensions)
        }
    }

    /// The width in pixels.
    pub fn width(&self) -> (r: u32)
        ensures
            r == self@.width,
    {
        self.width
    }

    /// The height in pixels.
    pub fn height(&self) -> (r: u32)
        ensures
            r == self@.height,
    {
        self.height
    }

    /// The pixels, four bytes each.
    pub fn rgba(&self) -> (r: &Vec<u8>)
        ensures
            r@ == self@.rgba,
            fills(r@.len(), self@.width, self@.height),
    {
        proof {
            use_type_invariant(self);
        }
        &self.rgba
    }

    /// Gives the pixels up, with the width and the height.
    pub fn into_parts(self) -> (r: (Vec<u8>, u32, u32))
        ensures
            r.0@ == self@.rgba,
            r.1 == self@.width,
            r.2 == self@.height,
            fills(r.0@.len(), r.1, r.2),
    {
        proof {
            use_type_invariant(&self);
        }
        (self.rgba, self.width, self.height)
    }
}

/// Decodes an image file held in memory into 8-bit RGBA pixels and its width
/// and height, with `image::load_from_memory`, `DynamicImage::to_rgba8`,
/// `GenericImageView::dimensions` and `ImageBuffer::into_raw`.
///
/// Nothing is claimed of the result: which formats are read depends on how
/// the decoder was built and on the hooks registered with it.
#[verifier::external_body]
fn decode_rgba(bytes: &[u8]) -> (r: Result<(Vec<u8>, u32, u32), String>) {
    match ::image::load_from_memory(bytes) {
        Ok(decoded) => {
            let (width, height) = ::image::GenericImageView::dimensions(&decoded);
            Ok((decoded.to_rgba8().into_raw(), width, height))
        },
        Err(e) => Err(e.to_string()),
    }
}

/// Turns what the decoder gave into an icon: its failure into
/// `Undecodable`, pixels that do not fill their dimensions into
/// `BadDimensions`, anything else into the icon of those pixels.
pub fn icon_from_decoded(decoded: Result<(Vec<u8>, u32, u32), String>) -> (r: Result<
    IconImage,
    IconError,
>)
    ensures
        match decoded {
            Ok((rgba, width, height)) => if fills(rgba@.len(), width, height) {
                (r matches Ok(icon) && icon@ == (IconPixels { rgba: rgba@, width, height }))
            } else {
                r == Err::<IconImage, IconError>(IconError::BadDimensions)
            },
            Err(reason) => r == Err::<IconImage, IconError>(IconError::Undecodable(reason)),
        },
{
    match decoded {
        Ok((rgba, width, height)) => IconImage::new(rgba, width, height),
        Err(reason) => Err(IconError::Undecodable(reason)),
    }
}

/// Decodes the bytes of an image file into an icon. Whether the bytes are an
/// image is for the decoder to say. An icon that comes back is filled by its
/// pixels, and a failure is never that of reading a file.
pub fn decode_icon(bytes: &[u8]) -> (r: Result<IconImage, IconError>)
    ensures
        r matches Ok(icon) ==> fills(icon@.rgba.len(), icon@.width, icon@.height),
        r matches Err(e) ==> !(e is Unreadable),
{
    icon_from_decoded(decode_rgba(bytes))
}

/// The icon in a file, from what reading the file gave: the bytes that were
/// read are decoded, and a file that could not be read is `Unreadable` for
/// the reason that came with the failure.
pub fn icon_from_file(read: Result<Vec<u8>, String>) -> (r: Result<IconImage, IconError>)
    ensures
        match read {
            Ok(bytes) => r matches Err(e) ==> !(e is Unreadable),
            Err(reason) => r == Err::<IconImage, IconError>(IconError::Unreadable(reason)),
        },
{
    match read {
        Ok(bytes) => decode_icon(bytes.as_slice()),
        Err(reason) => Err(IconError::Unreadable(reason)),
    }
}

/// The icons decoded so far, by the path of the file each came from.
pub struct IconCache {
    icons: StringHashMap<IconImage>,
}

impl View for IconCache {
    type V = Map<Seq<char>, IconPixels>;

    closed spec fn view(&self) -> Map<Seq<char>, IconPixels> {
        self.icons@.map_values(|icon: IconImage| icon@)
    }
}

impl IconCache {
    /// A cache that keeps nothing yet.
    pub fn new() -> (r: IconCache)
        ensures
            r@ == Map::<Seq<char>, IconPixels>::empty(),
    {
        IconCache { icons: StringHashMap::new() }
    }

    /// Whether an icon is kept for `path`.
    pub fn contains(&self, path: &str) -> (r: bool)
        ensures
            r == self@.contains_key(path@),
    {
        self.icons.contains_key(path)
    }

    /// A copy of the icon kept for `path`, if there is one.
    pub fn get(&self, path: &str) -> (r: Option<IconImage>)
        ensures
            match r {
                Some(icon) => self@.contains_key(path@) && icon@ == self@[path@],
                None => !self@.contains_key(path@),
            },
    {
        match self.icons.get(path) {
            Some(icon) => Some(icon.clone()),
            None => None,
        }
    }

    /// Keeps `icon` for `path` unless an icon is kept for it already: the
    /// first one stays. Returns a copy of the icon that is kept afterwards.
    pub fn store(&mut self, path: &str, icon: IconImage) -> (r: IconImage)
        ensures
            final(self)@ == (if old(self)@.contains_key(path@) {
                old(self)@
            } else {
                old(self)@.insert(path@, icon@)
            }),
            r@ == final(self)@[path@],
            final(self)@.contains_key(path@),
    {
        match self.icons.get(path) {
            Some(kept) => kept.clone(),
            None => {
                let copy = icon.clone();
                self.icons.insert(String::from_str(path), icon);
                copy
            },
        }
    }

    /// The icon for `path`, where `read` is what reading the file there
    /// gave. An icon that is kept already is returned as it is, and what was
    /// read is not looked at. Else the bytes are decoded; the icon that comes
    /// out is kept and returned. A file that could not be read or decoded
    /// leaves the cache as it was.
    pub fn load(&mut self, path: &str, read: Result<Vec<u8>, String>) -> (r: Result<
        IconImage,
        IconError,
    >)
        ensures
            old(self)@.contains_key(path@) ==> final(self)@ == old(self)@ && (r matches Ok(icon)
                && icon@ == old(self)@[path@]),
            !old(self)@.contains_key(path@) ==> match (read, r) {
                (Err(reason), _) => final(self)@ == old(self)@ && r == Err::<IconImage, IconError>(
                    IconError::Unreadable(reason),
                ),
                (Ok(_), Ok(icon)) => final(self)@ == old(self)@.insert(path@, icon@),
                (Ok(_), Err(e)) => final(self)@ == old(self)@ && !(e is Unreadable),
            },
    {
        match self.get(path) {
            Some(kept) => Ok(kept),
            None => self.keep_decoded(path, icon_from_file(read)),
        }
    }

    /// Takes the outcome of decoding the file at `path`: a failure is passed
    /// on and changes nothing, an icon is stored as [`IconCache::store`] does.
    pub fn keep_decoded(&mut self, path: &str, decoded: Result<IconImage, IconError>) -> (r: Result<
        IconImage,
        IconError,
    >)
        ensures
            match decoded {
                Ok(icon) => {
                    &&& final(self)@ == (if old(self)@.contains_key(path@) {
                        old(self)@
                    } else {
                        old(self)@.insert(path@, icon@)
                    })
                    &&& (r matches Ok(kept) && kept@ == final(self)@[path@])
                },
                Err(e) => final(self)@ == old(self)@ && r == Err::<IconImage, IconError>(e),
            },
    {
        match decoded {
            Ok(icon) => Ok(self.store(path, icon)),
            Err(e) => Err(e),
        }
    }
}

} // verus!
