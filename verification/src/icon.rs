//! Icons: where an icon comes from, and the image or vector handle that is
//! drawn for it.

use vstd::prelude::*;
use vstd::string::*;
use crate::button::Length;
use crate::theme::Svg;

verus! {

/// The source of a raster image.
#[derive(Debug, Clone, PartialEq, Eq, Hash)]
pub enum ImageHandle {
    /// A file.
    Path(String),
    /// Encoded bytes in memory.
    Bytes(Vec<u8>),
    /// Raw RGBA pixels of the given size.
    Rgba { width: u32, height: u32, pixels: Vec<u8> },
}

/// The source of a vector image.
#[derive(Debug, Clone, PartialEq, Eq, Hash)]
pub enum SvgHandle {
    /// A file.
    Path(String),
    /// SVG data in memory.
    Bytes(Vec<u8>),
}

/// What is drawn for an icon.
#[derive(Debug, Clone, PartialEq, Eq, Hash)]
pub enum Handle {
    Image(ImageHandle),
    Svg(SvgHandle),
}

/// Where an icon comes from.
#[derive(Debug, Clone, PartialEq, Eq, Hash)]
pub enum IconSource {
    /// A file.
    Path(String),
    /// A name to look up in the icon theme.
    Name(String),
    /// A handle that is drawn as it is.
    Handle(Handle),
}

/// How an image fills the space given to it.
#[derive(Debug, Clone, Copy, PartialEq, Eq, Structural, Hash)]
pub enum ContentFit {
    Contain,
    Cover,
    Fill,
    /// The image keeps its own size.
    Original,
    ScaleDown,
}

/// What a raster image source holds.
pub enum ImageData {
    Path(Seq<char>),
    Bytes(Seq<u8>),
    Rgba(u32, u32, Seq<u8>),
}

/// What a vector image source holds.
pub enum SvgData {
    Path(Seq<char>),
    Bytes(Seq<u8>),
}

/// What a handle holds.
pub enum HandleData {
    Image(ImageData),
    Svg(SvgData),
}

impl View for ImageHandle {
    type V = ImageData;

    open spec fn view(&self) -> ImageData {
        match self {
            ImageHandle::Path(p) => ImageData::Path(p@),
            ImageHandle::Bytes(b) => ImageData::Bytes(b@),
            ImageHandle::Rgba { width, height, pixels } => ImageData::Rgba(*width, *height, pixels@),
        }
    }
}

impl View for SvgHandle {
    type V = SvgData;

    open spec fn view(&self) -> SvgData {
        match self {
            SvgHandle::Path(p) => SvgData::Path(p@),
            SvgHandle::Bytes(b) => SvgData::Bytes(b@),
        }
    }
}

impl View for Handle {
    type V = HandleData;

    open spec fn view(&self) -> HandleData {
        match self {
            Handle::Image(i) => HandleData::Image(i@),
            Handle::Svg(v) => HandleData::Svg(v@),
        }
    }
}

pub(crate) fn copy_bytes(b: &Vec<u8>) -> (r: Vec<u8>)
    ensures
        r@ == b@,
{
    let r = b.clone();
    assert(r@ =~= b@);
    r
}

impl Handle {
    /// A copy of the handle.
    pub fn duplicate(&self) -> (r: Handle)
        ensures
            r@ == self@,
    {
        match self {
            Handle::Image(ImageHandle::Path(p)) => Handle::Image(ImageHandle::Path(p.clone())),
            Handle::Image(ImageHandle::Bytes(b)) => Handle::Image(ImageHandle::Bytes(copy_bytes(b))),
            Handle::Image(ImageHandle::Rgba { width, height, pixels }) => Handle::Image(
                ImageHandle::Rgba { width: *width, height: *height, pixels: copy_bytes(pixels) },
            ),
            Handle::Svg(SvgHandle::Path(p)) => Handle::Svg(SvgHandle::Path(p.clone())),
            Handle::Svg(SvgHandle::Bytes(b)) => Handle::Svg(SvgHandle::Bytes(copy_bytes(b))),
        }
    }
}

/// The final component of a path as `std::path::Path::file_name` finds it:
/// none where the path ends in `..`. Which characters separate components
/// is the platform's, fixed for a given build.
pub uninterp spec fn file_name_of(path: Seq<char>) -> Option<Seq<char>>;

/// `std::path::Path::file_name`, read as text. Trusted to return the final
/// component that the standard library finds in the path; the contract
/// names it and says nothing more of it.
#[verifier::external_body]
fn path_file_name(path: &str) -> (r: Option<String>)
    ensures
        match file_name_of(path@) {
            Some(n) => r matches Some(s) && s@ == n,
            None => r is None,
        },
{
    match std::path::Path::new(path).file_name() {
        Some(n) => Some(n.to_string_lossy().into_owned()),
        None => None,
    }
}

/// The position of the last `.` among the first `k` characters of a name.
pub open spec fn last_dot(name: Seq<char>, k: int) -> Option<int>
    decreases k,
{
    if k <= 0 {
        None
    } else if name[k - 1] == '.' {
        Some(k - 1)
    } else {
        last_dot(name, k - 1)
    }
}

/// The extension of a file name, as `Path::extension` documents it: none
/// without a `.`, none when the only `.` begins the name, else the part
/// after the last `.`.
pub open spec fn name_extension(name: Seq<char>) -> Option<Seq<char>> {
    match last_dot(name, name.len() as int) {
        None => None,
        Some(i) => if i == 0 { None } else { Some(name.skip(i + 1)) },
    }
}

/// The extension of a path, as `std::path::Path::extension` finds it: the
/// extension of its final component.
pub open spec fn extension_of(path: Seq<char>) -> Option<Seq<char>> {
    match file_name_of(path) {
        Some(n) => name_extension(n),
        None => None,
    }
}

/// The extension of a file name.
fn name_extension_of(name: &str) -> (r: Option<String>)
    ensures
        match name_extension(name@) {
            Some(e) => r matches Some(s) && s@ == e,
            None => r is None,
        },
{
    let n = name.unicode_len();
    let mut k = n;
    while k > 0
        invariant
            0 <= k <= n,
            n == name@.len(),
            last_dot(name@, n as int) == last_dot(name@, k as int),
        decreases k,
    {
        if name.get_char(k - 1) == '.' {
            if k - 1 == 0 {
                return None;
            }
            let e = name.substring_char(k, n);
            assert(e@ =~= name@.skip(k as int));
            return Some(e.to_string());
        }
        k -= 1;
    }
    None
}

/// The extension of a path: that of its final component.
pub(crate) fn path_extension(path: &str) -> (r: Option<String>)
    ensures
        match extension_of(path@) {
            Some(e) => r matches Some(s) && s@ == e,
            None => r is None,
        },
{
    match path_file_name(path) {
        Some(n) => name_extension_of(n.as_str()),
        None => None,
    }
}

/// Whether the extension of the path is `svg`.
pub open spec fn has_svg_extension(path: Seq<char>) -> bool {
    extension_of(path) == Some("svg"@)
}

fn path_has_svg_extension(path: &String) -> (r: bool)
    ensures
        r == has_svg_extension(path@),
{
    let svg = String::from_str("svg");
    match path_extension(path.as_str()) {
        Some(e) => e == svg,
        None => false,
    }
}

/// The handle drawn for a file found at `found`, or for an icon that was not
/// found: a vector image when asked for one, when nothing was found or when
/// the file is an SVG; else a raster image of the file.
pub open spec fn spec_handle_for(found: Option<Seq<char>>, svg: bool) -> HandleData {
    match found {
        None => HandleData::Svg(SvgData::Bytes(Seq::empty())),
        Some(p) => if svg || has_svg_extension(p) {
            HandleData::Svg(SvgData::Path(p))
        } else {
            HandleData::Image(ImageData::Path(p))
        },
    }
}

impl IconSource {
    /// A raster image from a file.
    pub fn raster_from_path(path: String) -> (r: Self)
        ensures
            r == IconSource::Handle(Handle::Image(ImageHandle::Path(path))),
    {
        IconSource::Handle(Handle::Image(ImageHandle::Path(path)))
    }

    /// A raster image from encoded bytes.
    pub fn raster_from_memory(bytes: Vec<u8>) -> (r: Self)
        ensures
            r == IconSource::Handle(Handle::Image(ImageHandle::Bytes(bytes))),
    {
        IconSource::Handle(Handle::Image(ImageHandle::Bytes(bytes)))
    }

    /// A raster image from RGBA pixels of the given size.
    pub fn raster_from_pixels(width: u32, height: u32, pixels: Vec<u8>) -> (r: Self)
        ensures
            r == IconSource::Handle(Handle::Image(ImageHandle::Rgba { width, height, pixels })),
    {
        IconSource::Handle(Handle::Image(ImageHandle::Rgba { width, height, pixels }))
    }

    /// A vector image from a file.
    pub fn svg_from_path(path: String) -> (r: Self)
        ensures
            r == IconSource::Handle(Handle::Svg(SvgHandle::Path(path))),
    {
        IconSource::Handle(Handle::Svg(SvgHandle::Path(path)))
    }

    /// A vector image from SVG data.
    pub fn svg_from_memory(bytes: Vec<u8>) -> (r: Self)
        ensures
            r == IconSource::Handle(Handle::Svg(SvgHandle::Bytes(bytes))),
    {
        IconSource::Handle(Handle::Svg(SvgHandle::Bytes(bytes)))
    }

    /// The name to look up in the icon theme, for a named icon.
    pub fn lookup_name(&self) -> (r: Option<&String>)
        ensures
            r == match self {
                IconSource::Name(n) => Some(n),
                _ => None::<&String>,
            },
    {
        match self {
            IconSource::Name(n) => Some(n),
            _ => None,
        }
    }

    /// The handle to draw, given the file that the theme lookup of a named
    /// icon found (ignored for other sources) and whether a vector image is
    /// wanted. A handle is drawn as it is; a file is drawn as a vector image
    /// when asked for one or when it is an SVG; an icon that was not found
    /// is drawn as an empty vector image.
    pub fn load(&self, found: Option<String>, svg: bool) -> (r: Handle)
        ensures
            r@ == match self {
                IconSource::Handle(h) => h@,
                IconSource::Path(p) => spec_handle_for(Some(p@), svg),
                IconSource::Name(_) => spec_handle_for(match found { Some(f) => Some(f@), None => None }, svg),
            },
    {
        let icon: Option<String> = match self {
            IconSource::Handle(h) => return h.duplicate(),
            IconSource::Path(p) => Some(p.clone()),
            IconSource::Name(_) => found,
        };
        match icon {
            None => {
                let empty: Vec<u8> = Vec::new();
                Handle::Svg(SvgHandle::Bytes(empty))
            },
            Some(p) => {
                if svg || path_has_svg_extension(&p) {
                    Handle::Svg(SvgHandle::Path(p))
                } else {
                    Handle::Image(ImageHandle::Path(p))
                }
            },
        }
    }
}

/// A lazily-generated icon.
pub struct Icon {
    pub source: IconSource,
    pub theme: Option<String>,
    pub style: Svg,
    pub size: u16,
    pub content_fit: ContentFit,
    /// The width, where it is not the icon's size.
    pub width: Option<Length>,
    /// The height, where it is not the icon's size.
    pub height: Option<Length>,
    pub force_svg: bool,
}

/// An icon of the given source and size, filling its space, in the default
/// theme and style, as large as its size, not forced to be a vector image.
pub fn icon(source: IconSource, size: u16) -> (r: Icon)
    ensures
        r.source == source,
        r.theme is None,
        r.style == Svg::Default,
        r.size == size,
        r.content_fit == ContentFit::Fill,
        r.width is None,
        r.height is None,
        !r.force_svg,
{
    Icon {
        source,
        theme: None,
        style: Svg::Default,
        size,
        content_fit: ContentFit::Fill,
        width: None,
        height: None,
        force_svg: false,
    }
}

impl Icon {
    /// Sets the icon theme to look names up in.
    pub fn theme(self, theme: String) -> (r: Self)
        ensures
            r == (Icon { theme: Some(theme), ..self }),
    {
        Icon { theme: Some(theme), ..self }
    }

    /// Sets the size.
    pub fn size(self, size: u16) -> (r: Self)
        ensures
            r == (Icon { size, ..self }),
    {
        Icon { size, ..self }
    }

    /// Sets how the image fills its space.
    pub fn content_fit(self, content_fit: ContentFit) -> (r: Self)
        ensures
            r == (Icon { content_fit, ..self }),
    {
        Icon { content_fit, ..self }
    }

    /// Sets how a vector image is filled.
    pub fn style(self, style: Svg) -> (r: Self)
        ensures
            r == (Icon { style, ..self }),
    {
        Icon { style, ..self }
    }

    /// Sets the width.
    pub fn width(self, width: Length) -> (r: Self)
        ensures
            r == (Icon { width: Some(width), ..self }),
    {
        Icon { width: Some(width), ..self }
    }

    /// Sets the height.
    pub fn height(self, height: Length) -> (r: Self)
        ensures
            r == (Icon { height: Some(height), ..self }),
    {
        Icon { height: Some(height), ..self }
    }

    /// The width the icon is drawn at: the width set, else its size.
    pub fn drawn_width(&self) -> (r: Length)
        ensures
            r == match self.width {
                Some(w) => w,
                None => Length::Fixed(self.size as u32),
            },
    {
        match self.width {
            Some(w) => w,
            None => Length::Fixed(self.size as u32),
        }
    }

    /// The height the icon is drawn at: the height set, else its size.
    pub fn drawn_height(&self) -> (r: Length)
        ensures
            r == match self.height {
                Some(h) => h,
                None => Length::Fixed(self.size as u32),
            },
    {
        match self.height {
            Some(h) => h,
            None => Length::Fixed(self.size as u32),
        }
    }

    /// Sets whether a vector image is wanted.
    pub fn force_svg(self, force_svg: bool) -> (r: Self)
        ensures
            r == (Icon { force_svg, ..self }),
    {
        Icon { force_svg, ..self }
    }

    /// The handle to draw, given what the theme lookup of a named icon found.
    pub fn handle(&self, found: Option<String>) -> (r: Handle)
        ensures
            r@ == match self.source {
                IconSource::Handle(h) => h@,
                IconSource::Path(p) => spec_handle_for(Some(p@), self.force_svg),
                IconSource::Name(_) => spec_handle_for(match found { Some(f) => Some(f@), None => None }, self.force_svg),
            },
    {
        self.source.load(found, self.force_svg)
    }
}

} // verus!
