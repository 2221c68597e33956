//! Video: the closed set of video modes with their native constants,
//! bounds checks for blit sources and polygon point lists, and images
//! decoded from GIF files, held as plain pixel and palette data.

use vstd::prelude::*;
use vstd::slice::slice_subrange;

use crate::FileError;

verus! {

/// A simple descriptor for whether a video mode is in text or graphics mode.
#[derive(Debug, Copy, Clone, PartialEq, Hash, Eq, Structural)]
pub enum VideoModeKind {
    /// Text mode, where each cell is a character or glyph
    /// and the resolution is defined via cell matrix and font size.
    Text,
    /// Graphics mode, where the resolution is specified directly
    /// and the graphics are drawn to the screen in indexed color mode.
    Graphics,
}

/// A video mode.
///
/// Each variant stands for one native video mode constant; the mapping is
/// one-to-one in both directions. Each variant is either in text mode or
/// graphics mode.
#[derive(Debug, Copy, Clone, PartialEq, Hash, Eq, Structural)]
pub enum VideoMode {
    /// Text mode, 40 columns and 25 rows, 8x8 font size.
    Text40x25_8x8,
    /// Text mode, 40 columns and 25 rows, 9x16 font size.
    Text40x25_9x16,
    /// Text mode, 80 columns and 25 rows, 8x8 font size.
    Text80x25_8x8,
    /// Text mode, 80 columns and 25 rows, 8x16 font size.
    ///
    /// This is the mode set by default.
    Text80x25_8x16,
    /// Text mode, 80 columns and 25 rows, 9x16 font size.
    Text80x25_9x16,
    /// Text mode, 80 columns and 43 rows, 8x8 font size.
    Text80x43_8x8,
    /// Text mode, 80 columns and 50 rows, 8x8 font size.
    Text80x50_8x8,
    /// Graphics mode, 320x200 pixels.
    Graphics320x200,
    /// Graphics mode, 320x240 pixels.
    Graphics320x240,
    /// Graphics mode, 320x400 pixels.
    Graphics320x400,
    /// Graphics mode, 640x200 pixels.
    Graphics640x200,
    /// Graphics mode, 640x350 pixels.
    Graphics640x350,
    /// Graphics mode, 640x400 pixels.
    Graphics640x400,
    /// Graphics mode, 640x480 pixels.
    Graphics640x480,
}

impl VideoMode {
    /// The native integer constant for this mode: the modes are numbered
    /// consecutively from zero in declaration order.
    pub open spec fn native(self) -> u32 {
        match self {
            VideoMode::Text40x25_8x8 => 0,
            VideoMode::Text40x25_9x16 => 1,
            VideoMode::Text80x25_8x8 => 2,
            VideoMode::Text80x25_8x16 => 3,
            VideoMode::Text80x25_9x16 => 4,
            VideoMode::Text80x43_8x8 => 5,
            VideoMode::Text80x50_8x8 => 6,
            VideoMode::Graphics320x200 => 7,
            VideoMode::Graphics320x240 => 8,
            VideoMode::Graphics320x400 => 9,
            VideoMode::Graphics640x200 => 10,
            VideoMode::Graphics640x350 => 11,
            VideoMode::Graphics640x400 => 12,
            VideoMode::Graphics640x480 => 13,
        }
    }

    /// The mode a native constant stands for, or `None` where the
    /// constant names no mode.
    pub open spec fn mode_of_native(v: u32) -> Option<VideoMode> {
        if v == 0 {
            Some(VideoMode::Text40x25_8x8)
        } else if v == 1 {
            Some(VideoMode::Text40x25_9x16)
        } else if v == 2 {
            Some(VideoMode::Text80x25_8x8)
        } else if v == 3 {
            Some(VideoMode::Text80x25_8x16)
        } else if v == 4 {
            Some(VideoMode::Text80x25_9x16)
        } else if v == 5 {
            Some(VideoMode::Text80x43_8x8)
        } else if v == 6 {
            Some(VideoMode::Text80x50_8x8)
        } else if v == 7 {
            Some(VideoMode::Graphics320x200)
        } else if v == 8 {
            Some(VideoMode::Graphics320x240)
        } else if v == 9 {
            Some(VideoMode::Graphics320x400)
        } else if v == 10 {
            Some(VideoMode::Graphics640x200)
        } else if v == 11 {
            Some(VideoMode::Graphics640x350)
        } else if v == 12 {
            Some(VideoMode::Graphics640x400)
        } else if v == 13 {
            Some(VideoMode::Graphics640x480)
        } else {
            None
        }
    }

    /// The kind of this mode, at the specification level.
    pub open spec fn kind_spec(self) -> VideoModeKind {
        match self {
            VideoMode::Text40x25_8x8
            | VideoMode::Text40x25_9x16
            | VideoMode::Text80x25_8x8
            | VideoMode::Text80x25_8x16
            | VideoMode::Text80x25_9x16
            | VideoMode::Text80x43_8x8
            | VideoMode::Text80x50_8x8 => VideoModeKind::Text,
            VideoMode::Graphics320x200
            | VideoMode::Graphics320x240
            | VideoMode::Graphics320x400
            | VideoMode::Graphics640x200
            | VideoMode::Graphics640x350
            | VideoMode::Graphics640x400
            | VideoMode::Graphics640x480 => VideoModeKind::Graphics,
        }
    }

    /// The pixel resolution of a graphics mode, and `None` for a text
    /// mode, whose resolution is given by cell matrix and font size.
    pub open spec fn resolution_spec(self) -> Option<(u16, u16)> {
        match self {
            VideoMode::Graphics320x200 => Some((320u16, 200u16)),
            VideoMode::Graphics320x240 => Some((320u16, 240u16)),
            VideoMode::Graphics320x400 => Some((320u16, 400u16)),
            VideoMode::Graphics640x200 => Some((640u16, 200u16)),
            VideoMode::Graphics640x350 => Some((640u16, 350u16)),
            VideoMode::Graphics640x400 => Some((640u16, 400u16)),
            VideoMode::Graphics640x480 => Some((640u16, 480u16)),
            _ => None,
        }
    }

    /// Gets the kind of video mode this is (text or graphics).
    pub fn kind(self) -> (k: VideoModeKind)
        ensures
            k == self.kind_spec(),
    {
        match self {
            VideoMode::Text40x25_8x8
            | VideoMode::Text40x25_9x16
            | VideoMode::Text80x25_8x8
            | VideoMode::Text80x25_8x16
            | VideoMode::Text80x25_9x16
            | VideoMode::Text80x43_8x8
            | VideoMode::Text80x50_8x8 => VideoModeKind::Text,
            VideoMode::Graphics320x200
            | VideoMode::Graphics320x240
            | VideoMode::Graphics320x400
            | VideoMode::Graphics640x200
            | VideoMode::Graphics640x350
            | VideoMode::Graphics640x400
            | VideoMode::Graphics640x480 => VideoModeKind::Graphics,
        }
    }

    /// Gets whether the given video mode is in graphics mode.
    pub fn is_graphics(self) -> (b: bool)
        ensures
            b == (self.kind_spec() == VideoModeKind::Graphics),
    {
        self.kind() == VideoModeKind::Graphics
    }

    /// Gets whether the given video mode is in text mode.
    pub fn is_text(self) -> (b: bool)
        ensures
            b == (self.kind_spec() == VideoModeKind::Text),
    {
        self.kind() == VideoModeKind::Text
    }

    /// The native integer constant this mode maps onto.
    pub fn to_native(self) -> (v: u32)
        ensures
            v == self.native(),
    {
        match self {
            VideoMode::Text40x25_8x8 => 0,
            VideoMode::Text40x25_9x16 => 1,
            VideoMode::Text80x25_8x8 => 2,
            VideoMode::Text80x25_8x16 => 3,
            VideoMode::Text80x25_9x16 => 4,
            VideoMode::Text80x43_8x8 => 5,
            VideoMode::Text80x50_8x8 => 6,
            VideoMode::Graphics320x200 => 7,
            VideoMode::Graphics320x240 => 8,
            VideoMode::Graphics320x400 => 9,
            VideoMode::Graphics640x200 => 10,
            VideoMode::Graphics640x350 => 11,
            VideoMode::Graphics640x400 => 12,
            VideoMode::Graphics640x480 => 13,
        }
    }

    /// The mode a native constant stands for; `None` exactly where the
    /// constant names no mode.
    pub fn from_native(v: u32) -> (r: Option<VideoMode>)
        ensures
            r == VideoMode::mode_of_native(v),
    {
        if v == 0 {
            Some(VideoMode::Text40x25_8x8)
        } else if v == 1 {
            Some(VideoMode::Text40x25_9x16)
        } else if v == 2 {
            Some(VideoMode::Text80x25_8x8)
        } else if v == 3 {
            Some(VideoMode::Text80x25_8x16)
        } else if v == 4 {
            Some(VideoMode::Text80x25_9x16)
        } else if v == 5 {
            Some(VideoMode::Text80x43_8x8)
        } else if v == 6 {
            Some(VideoMode::Text80x50_8x8)
        } else if v == 7 {
            Some(VideoMode::Graphics320x200)
        } else if v == 8 {
            Some(VideoMode::Graphics320x240)
        } else if v == 9 {
            Some(VideoMode::Graphics320x400)
        } else if v == 10 {
            Some(VideoMode::Graphics640x200)
        } else if v == 11 {
            Some(VideoMode::Graphics640x350)
        } else if v == 12 {
            Some(VideoMode::Graphics640x400)
        } else if v == 13 {
            Some(VideoMode::Graphics640x480)
        } else {
            None
        }
    }

    /// The pixel resolution of this mode, for graphics modes.
    pub fn resolution(self) -> (r: Option<(u16, u16)>)
        ensures
            r == self.resolution_spec(),
    {
        match self {
            VideoMode::Graphics320x200 => Some((320u16, 200u16)),
            VideoMode::Graphics320x240 => Some((320u16, 240u16)),
            VideoMode::Graphics320x400 => Some((320u16, 400u16)),
            VideoMode::Graphics640x200 => Some((640u16, 200u16)),
            VideoMode::Graphics640x350 => Some((640u16, 350u16)),
            VideoMode::Graphics640x400 => Some((640u16, 400u16)),
            VideoMode::Graphics640x480 => Some((640u16, 480u16)),
            _ => None,
        }
    }

    /// The length of the screen buffer in a graphics mode: one byte per
    /// pixel, so exactly width times height of the mode's resolution.
    pub fn buffer_len(self) -> (n: usize)
        requires
            self.kind_spec() is Graphics,
        ensures
            self.resolution_spec() matches Some(wh) && n == wh.0 as int * wh.1 as int,
    {
        match self {
            VideoMode::Graphics320x200 => 320 * 200,
            VideoMode::Graphics320x240 => 320 * 240,
            VideoMode::Graphics320x400 => 320 * 400,
            VideoMode::Graphics640x200 => 640 * 200,
            VideoMode::Graphics640x350 => 640 * 350,
            VideoMode::Graphics640x400 => 640 * 400,
            VideoMode::Graphics640x480 => 640 * 480,
            _ => 0,
        }
    }
}

/// Every mode comes back from its own native constant: the mapping onto
/// the native constants is one-to-one.
pub proof fn lemma_video_mode_native_round_trip(m: VideoMode)
    ensures
        VideoMode::mode_of_native(m.native()) == Some(m),
{
}

/// No two distinct video modes share a native constant: the mapping is
/// one-to-one.
pub proof fn lemma_video_mode_native_injective(a: VideoMode, b: VideoMode)
    requires
        a.native() == b.native(),
    ensures
        a == b,
{
    lemma_video_mode_native_round_trip(a);
    lemma_video_mode_native_round_trip(b);
}

/// A graphics mode has a pixel resolution and a text mode has none.
pub proof fn lemma_video_mode_resolution_kind(m: VideoMode)
    ensures
        m.resolution_spec() is Some <==> m.kind_spec() is Graphics,
{
}

/// Checks that a source buffer really holds `width * height` bytes of
/// pixel data: the native blit reads that many, so a shorter buffer must
/// never cross the boundary.
pub fn blit_source_fits(width: u16, height: u16, source_len: usize) -> (ok: bool)
    ensures
        ok == (width as int * height as int <= source_len as int),
{
    proof {
        assert((width as u64) * (height as u64) <= 0xffff * 0xffff) by (nonlinear_arith)
            requires
                width <= 0xffff,
                height <= 0xffff,
        ;
    }
    let need: u64 = (width as u64) * (height as u64);
    need <= source_len as u64
}

/// Checks a flat list of XY coordinates for a polygon: it must be
/// non-empty and hold a whole number of coordinate pairs.
pub fn poly_points_ok(len: usize) -> (ok: bool)
    ensures
        ok == (len > 0 && len % 2 == 0),
{
    len > 0 && len % 2 == 0
}

/// An image loaded from a file, held as plain values: one byte of pixel
/// data per pixel, indexed into the image's own color palette of at most
/// 256 colors (768 palette bytes, three per color).
#[derive(Debug)]
pub struct Image {
    /// The color palette of the image.
    palette: Vec<u8>,
    /// The real number of colors in the palette.
    palette_count: u32,
    /// The width of the image.
    width: u32,
    /// The height of the image.
    height: u32,
    /// The indexed pixel data, row by row.
    data: Vec<u8>,
}

impl Image {
    /// The width of the image in pixels.
    pub closed spec fn spec_width(self) -> u32 {
        self.width
    }

    /// The height of the image in pixels.
    pub closed spec fn spec_height(self) -> u32 {
        self.height
    }

    /// The number of colors in the palette.
    pub closed spec fn spec_palette_count(self) -> u32 {
        self.palette_count
    }

    /// The full palette storage, 768 bytes in RGB.
    pub closed spec fn spec_palette(self) -> Seq<u8> {
        self.palette@
    }

    /// The indexed pixel data, row by row.
    pub closed spec fn spec_data(self) -> Seq<u8> {
        self.data@
    }

    /// The RGB triple of the palette color at `index`.
    pub open spec fn spec_palette_rgb(self, index: int) -> (u8, u8, u8) {
        (
            self.spec_palette()[3 * index],
            self.spec_palette()[3 * index + 1],
            self.spec_palette()[3 * index + 2],
        )
    }

    /// An image is well-formed when its palette storage holds the full
    /// 768 bytes, the palette has at most 256 colors, and the pixel data
    /// holds exactly one byte per pixel.
    pub open spec fn wf(self) -> bool {
        &&& self.spec_palette().len() == 768
        &&& self.spec_palette_count() <= 256
        &&& self.spec_data().len() == self.spec_width() as int * self.spec_height() as int
    }

    /// Assembles an image from its parts, as decoded by the native GIF
    /// loader: `None` exactly where the parts do not fit together as a
    /// well-formed image.
    pub fn from_parts(
        width: u32,
        height: u32,
        palette_count: u32,
        palette: Vec<u8>,
        data: Vec<u8>,
    ) -> (r: Option<Image>)
        ensures
            r is Some <==> {
                &&& palette@.len() == 768
                &&& palette_count <= 256
                &&& data@.len() == width as int * height as int
            },
            r matches Some(img) ==> {
                &&& img.spec_width() == width
                &&& img.spec_height() == height
                &&& img.spec_palette_count() == palette_count
                &&& img.spec_palette() == palette@
                &&& img.spec_data() == data@
                &&& img.wf()
            },
    {
        proof {
            assert((width as u64) * (height as u64) <= 0xffff_ffff * 0xffff_ffff)
                by (nonlinear_arith)
                requires
                    width <= 0xffff_ffff,
                    height <= 0xffff_ffff,
            ;
        }
        let pixels: u64 = (width as u64) * (height as u64);
        if palette.len() == 768 && palette_count <= 256 && data.len() as u64 == pixels {
            Some(Image { palette, palette_count, width, height, data })
        } else {
            None
        }
    }

    /// The width of the image in pixels.
    pub fn width(&self) -> (w: u32)
        ensures
            w == self.spec_width(),
    {
        self.width
    }

    /// The height of the image in pixels.
    pub fn height(&self) -> (h: u32)
        ensures
            h == self.spec_height(),
    {
        self.height
    }

    /// Gets the image data as a slice of bytes,
    /// each byte representing a pixel indexed by the image's palette.
    pub fn data(&self) -> (d: &[u8])
        ensures
            d@ == self.spec_data(),
    {
        self.data.as_slice()
    }

    /// Gets the image data as a mutable slice of bytes,
    /// each byte representing a pixel indexed by the image's palette:
    /// writes through the slice become the image's data, and nothing
    /// else of the image changes.
    pub fn data_mut(&mut self) -> (d: &mut [u8])
        ensures
            d@ == old(self).spec_data(),
            final(self).spec_data() == final(d)@,
            final(self).spec_width() == old(self).spec_width(),
            final(self).spec_height() == old(self).spec_height(),
            final(self).spec_palette_count() == old(self).spec_palette_count(),
            final(self).spec_palette() == old(self).spec_palette(),
    {
        self.data.as_mut_slice()
    }

    /// The color index of the pixel at the given coordinates.
    pub fn pixel(&self, x: u32, y: u32) -> (c: u8)
        requires
            self.wf(),
            x < self.spec_width(),
            y < self.spec_height(),
        ensures
            c == self.spec_data()[y as int * self.spec_width() as int + x as int],
    {
        proof {
            lemma_row_major_index_in_bounds(
                self.spec_width() as int,
                self.spec_height() as int,
                x as int,
                y as int,
            );
        }
        // a Vec's length fits in usize, which bounds the pixel index
        let _data_len = self.data.len();
        let idx: usize = (y as usize) * (self.width as usize) + (x as usize);
        self.data[idx]
    }

    /// Sets the pixel at the given coordinates to a color index. Nothing
    /// else of the image changes.
    pub fn set_pixel(&mut self, x: u32, y: u32, color: u8)
        requires
            old(self).wf(),
            x < old(self).spec_width(),
            y < old(self).spec_height(),
        ensures
            final(self).spec_data() == old(self).spec_data().update(
                y as int * old(self).spec_width() as int + x as int,
                color,
            ),
            final(self).spec_width() == old(self).spec_width(),
            final(self).spec_height() == old(self).spec_height(),
            final(self).spec_palette_count() == old(self).spec_palette_count(),
            final(self).spec_palette() == old(self).spec_palette(),
            final(self).wf(),
    {
        proof {
            lemma_row_major_index_in_bounds(
                self.spec_width() as int,
                self.spec_height() as int,
                x as int,
                y as int,
            );
        }
        // a Vec's length fits in usize, which bounds the pixel index
        let _data_len = self.data.len();
        let idx: usize = (y as usize) * (self.width as usize) + (x as usize);
        self.data[idx] = color;
    }

    /// Gets the number of pixel colors in the palette.
    /// The full size of the palette is `palette_count * 3` bytes.
    pub fn palette_count(&self) -> (c: u32)
        ensures
            c == self.spec_palette_count(),
    {
        self.palette_count
    }

    /// Gets the image's color palette as a slice of bytes, in RGB
    /// (8 bits per channel): three bytes for each of the palette's
    /// colors.
    pub fn palette(&self) -> (p: &[u8])
        requires
            self.wf(),
        ensures
            p@ == self.spec_palette().subrange(0, 3 * self.spec_palette_count() as int),
    {
        slice_subrange(self.palette.as_slice(), 0, (self.palette_count as usize) * 3)
    }

    /// Gets the image's color palette as a mutable slice of the full
    /// underlying storage, the mutable counterpart of
    /// [`raw_palette`][self::Image::raw_palette]: writes through the
    /// slice become the image's palette, and nothing else of the image
    /// changes. For a bounds-checked write of one color, see
    /// [`set_palette_color`][self::Image::set_palette_color].
    pub fn raw_palette_mut(&mut self) -> (p: &mut [u8])
        ensures
            p@ == old(self).spec_palette(),
            final(self).spec_palette() == final(p)@,
            final(self).spec_width() == old(self).spec_width(),
            final(self).spec_height() == old(self).spec_height(),
            final(self).spec_palette_count() == old(self).spec_palette_count(),
            final(self).spec_data() == old(self).spec_data(),
    {
        self.palette.as_mut_slice()
    }

    /// Gets the image's color palette as a slice of the full underlying
    /// storage, in RGB (8 bits per channel).
    ///
    /// The maximum expected size of any palette is 768 bytes
    /// (256 colors * 3 bytes per color).
    /// Note that the real palette used might be smaller than
    /// the full size of the storage,
    /// see [`palette`][self::Image::palette] for an accurate slice.
    pub fn raw_palette(&self) -> (p: &[u8])
        ensures
            p@ == self.spec_palette(),
    {
        self.palette.as_slice()
    }

    /// The RGB triple of the palette color at `index`.
    pub fn palette_color(&self, index: u32) -> (rgb: (u8, u8, u8))
        requires
            self.wf(),
            index < self.spec_palette_count(),
        ensures
            rgb == self.spec_palette_rgb(index as int),
    {
        let i: usize = (index as usize) * 3;
        (self.palette[i], self.palette[i + 1], self.palette[i + 2])
    }

    /// Sets the RGB triple of the palette color at `index`. Nothing else
    /// of the image changes.
    pub fn set_palette_color(&mut self, index: u32, r: u8, g: u8, b: u8)
        requires
            old(self).wf(),
            index < old(self).spec_palette_count(),
        ensures
            final(self).spec_palette() == old(self).spec_palette()
                .update(3 * index as int, r)
                .update(3 * index as int + 1, g)
                .update(3 * index as int + 2, b),
            final(self).spec_width() == old(self).spec_width(),
            final(self).spec_height() == old(self).spec_height(),
            final(self).spec_palette_count() == old(self).spec_palette_count(),
            final(self).spec_data() == old(self).spec_data(),
            final(self).wf(),
    {
        let i: usize = (index as usize) * 3;
        self.palette[i] = r;
        self.palette[i + 1] = g;
        self.palette[i + 2] = b;
    }
}

/// In a row-major image the pixel at column `x` of row `y` stands at
/// offset `y * width + x`, which lies inside the data.
proof fn lemma_row_major_index_in_bounds(width: int, height: int, x: int, y: int)
    requires
        0 <= x < width,
        0 <= y < height,
    ensures
        0 <= y * width + x < width * height,
{
    assert(y * width + x < width * height) by (nonlinear_arith)
        requires
            0 <= x < width,
            0 <= y < height,
    ;
    assert(0 <= y * width) by (nonlinear_arith)
        requires
            0 <= y,
            0 < width,
    ;
}

/// Setting a palette color and reading the same index back yields the
/// triple that was set.
pub proof fn lemma_palette_round_trip(before: Image, after: Image, index: u32, r: u8, g: u8, b: u8)
    requires
        before.wf(),
        index < before.spec_palette_count(),
        after.spec_palette() == before.spec_palette()
            .update(3 * index as int, r)
            .update(3 * index as int + 1, g)
            .update(3 * index as int + 2, b),
    ensures
        after.spec_palette_rgb(index as int) == (r, g, b),
{
}

/// A font identifier.
///
/// The native layer hands out non-zero identifiers for installed fonts
/// and reserves zero as its failure sentinel, so a `Font` always carries
/// a non-zero identifier. Use the install result interpretation to obtain
/// a font from the native installer, or one of the default fonts.
#[derive(Debug, Copy, Clone, PartialEq, Hash, Eq, Structural)]
pub struct Font {
    id: u32,
}

impl Font {
    /// The native identifier of this font.
    pub closed spec fn spec_id(self) -> u32 {
        self.id
    }

    /// A font identifier is valid when it is not the native layer's
    /// zero failure sentinel.
    pub open spec fn wf(self) -> bool {
        self.spec_id() != 0
    }

    /// The default 8x8 font.
    pub fn default_8x8() -> (f: Font)
        ensures
            f.spec_id() == 1,
            f.wf(),
    {
        Font { id: 1 }
    }

    /// The default 8x16 font.
    pub fn default_8x16() -> (f: Font)
        ensures
            f.spec_id() == 2,
            f.wf(),
    {
        Font { id: 2 }
    }

    /// The default 9x16 font.
    pub fn default_9x16() -> (f: Font)
        ensures
            f.spec_id() == 3,
            f.wf(),
    {
        Font { id: 3 }
    }

    /// Obtains a font identifier by its internal index.
    ///
    /// This operation does not check whether the font really exists;
    /// only the zero sentinel is rejected.
    pub fn from_id(id: u32) -> (r: Option<Font>)
        ensures
            r is Some <==> id != 0,
            r matches Some(f) ==> f.spec_id() == id && f.wf(),
    {
        if id != 0 {
            Some(Font { id })
        } else {
            None
        }
    }

    /// The native identifier of this font.
    pub fn id(self) -> (id: u32)
        ensures
            id == self.spec_id(),
    {
        self.id
    }

    /// Interprets the result of the native font installer: zero is its
    /// failure sentinel and means the file was not found or could not be
    /// read; every other value identifies the new font.
    pub fn from_install_id(raw_id: u32) -> (r: Result<Font, FileError>)
        ensures
            r is Ok <==> raw_id != 0,
            r matches Ok(f) ==> f.spec_id() == raw_id && f.wf(),
            r matches Err(e) ==> e is FileNotFound,
    {
        if raw_id != 0 {
            Ok(Font { id: raw_id })
        } else {
            Err(FileError::FileNotFound)
        }
    }
}

} // verus!
