use vstd::prelude::*;

verus! {

/// Why icon bytes could not be turned into an icon.
#[derive(Debug, Clone, Copy, PartialEq, Eq, Structural)]
pub enum BadIcon {
    /// The byte count is not a multiple of four, so the bytes are not RGBA pixels.
    ByteCountNotDivisibleBy4 { byte_count: usize },
    /// The number of pixels does not match the given width and height.
    DimensionsVsPixelCount { width: u32, height: u32, width_x_height: u64, pixel_count: usize },
}

/// An icon: RGBA pixels, four bytes each, in rows of `width` pixels.
#[derive(Debug)]
pub struct Icon {
    rgba: Vec<u8>,
    width: u32,
    height: u32,
}

impl Icon {
    /// The pixel bytes.
    pub closed spec fn rgba_view(&self) -> Seq<u8> {
        self.rgba@
    }

    /// The width in pixels.
    pub closed spec fn width_view(&self) -> u32 {
        self.width
    }

    /// The height in pixels.
    pub closed spec fn height_view(&self) -> u32 {
        self.height
    }

    /// Creates an icon from RGBA bytes, checking that they hold exactly `width * height` pixels.
    pub fn from_rgba(rgba: Vec<u8>, width: u32, height: u32) -> (r: Result<Icon, BadIcon>)
        ensures
            rgba@.len() % 4 != 0 ==> r == Err::<Icon, BadIcon>(
                BadIcon::ByteCountNotDivisibleBy4 { byte_count: rgba@.len() as usize },
            ),
            rgba@.len() % 4 == 0 && rgba@.len() / 4 != width * height ==> r == Err::<Icon, BadIcon>(
                BadIcon::DimensionsVsPixelCount {
                    width,
                    height,
                    width_x_height: (width * height) as u64,
                    pixel_count: (rgba@.len() / 4) as usize,
                },
            ),
            rgba@.len() % 4 == 0 && rgba@.len() / 4 == width * height ==> r is Ok && r->Ok_0.rgba_view()
                == rgba@ && r->Ok_0.width_view() == width && r->Ok_0.height_view() == height,
    {
        let byte_count = rgba.len();
        if byte_count % 4 != 0 {
            return Err(BadIcon::ByteCountNotDivisibleBy4 { byte_count });
        }
        let pixel_count = byte_count / 4;
        assert((width as u64) * (height as u64) <= 0xffff_ffffu64 * 0xffff_ffffu64) by (nonlinear_arith);
        let area: u64 = (width as u64) * (height as u64);
        if pixel_count as u64 != area {
            return Err(
                BadIcon::DimensionsVsPixelCount { width, height, width_x_height: area, pixel_count },
            );
        }
        Ok(Icon { rgba, width, height })
    }

    /// The width in pixels.
    pub fn width(&self) -> (r: u32)
        ensures
            r == self.width_view(),
    {
        self.width
    }

    /// The height in pixels.
    pub fn height(&self) -> (r: u32)
        ensures
            r == self.height_view(),
    {
        self.height
    }

    /// The pixel bytes.
    pub fn rgba(&self) -> (r: &[u8])
        ensures
            r@ == self.rgba_view(),
    {
        self.rgba.as_slice()
    }
}

} // verus!
