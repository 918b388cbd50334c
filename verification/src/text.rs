//! A leaf that shows text in a font.

use vstd::prelude::*;
use crate::draw_target::{DrawOp, LayoutDrawTarget};
use crate::geometry::{fits_i32, signed, to_signed, to_unsigned, unsigned, Point, Rectangle, Size};
use crate::view::View;
use u8g2_fonts::fonts;
use u8g2_fonts::types::VerticalPosition;
use u8g2_fonts::FontRenderer;
use vstd::view::View as _;

verus! {

#[verifier::external_type_specification]
#[verifier::external_body]
pub struct ExFontRenderer(FontRenderer);

/// The fonts that text can be set in: the fixed-width fonts, named by the
/// width and height of their cells, each with its full set of glyphs.
#[derive(Clone, Copy, Debug, PartialEq, Eq, Structural)]
pub enum Font {
    Fixed4x6,
    Fixed5x7,
    Fixed5x8,
    Fixed6x10,
    Fixed6x12,
    Fixed6x13,
    Fixed7x13,
    Fixed8x13,
    Fixed9x15,
    Fixed10x20,
}

/// What a font renderer reports of a text: how far the pen moves, and the box
/// that holds every pixel that would be set, if any would.
#[derive(Clone, Copy, Debug, PartialEq, Eq, Structural)]
pub struct RenderedDimensions {
    pub advance: Point,
    pub bounding_box: Option<Rectangle>,
}

/// The renderer of `font`, as it is when newly made: with the line height
/// that the font asks for, and failing on a character that the font lacks.
pub uninterp spec fn font_renderer(font: Font) -> FontRenderer;

/// What `renderer` reports of `content` rendered at the position (0, 0)
/// with its top edge there, or `None` where the font lacks a glyph that
/// `content` needs.
pub uninterp spec fn rendered_dimensions(
    renderer: FontRenderer,
    content: Seq<char>,
) -> Option<RenderedDimensions>;

/// The longest text, in bytes, that is measured.
pub const MAX_TEXT_BYTES: usize = 0x80_0000;

/// Whether `renderer` is the newly made renderer of one of the fonts.
pub open spec fn is_font_renderer(renderer: FontRenderer) -> bool {
    exists|font: Font| renderer == #[trigger] font_renderer(font)
}

/// How many bytes `content` takes.
pub open spec fn byte_length(content: Seq<char>) -> nat {
    vstd::utf8::encode_utf8(content).len()
}

/// Calls `FontRenderer::new` with the font type that `font` stands for. The
/// font data is the data that comes with that type, so the renderer depends
/// on `font` alone.
#[verifier::external_body]
fn renderer_of(font: Font) -> (renderer: FontRenderer)
    ensures
        renderer == font_renderer(font),
{
    match font {
        Font::Fixed4x6 => FontRenderer::new::<fonts::u8g2_font_4x6_tf>(),
        Font::Fixed5x7 => FontRenderer::new::<fonts::u8g2_font_5x7_tf>(),
        Font::Fixed5x8 => FontRenderer::new::<fonts::u8g2_font_5x8_tf>(),
        Font::Fixed6x10 => FontRenderer::new::<fonts::u8g2_font_6x10_tf>(),
        Font::Fixed6x12 => FontRenderer::new::<fonts::u8g2_font_6x12_tf>(),
        Font::Fixed6x13 => FontRenderer::new::<fonts::u8g2_font_6x13_tf>(),
        Font::Fixed7x13 => FontRenderer::new::<fonts::u8g2_font_7x13_tf>(),
        Font::Fixed8x13 => FontRenderer::new::<fonts::u8g2_font_8x13_tf>(),
        Font::Fixed9x15 => FontRenderer::new::<fonts::u8g2_font_9x15_tf>(),
        Font::Fixed10x20 => FontRenderer::new::<fonts::u8g2_font_10x20_tf>(),
    }
}

/// Calls `FontRenderer::get_rendered_dimensions` for `content`, with the
/// rendering position (0, 0) and the vertical position `Top`, and hands its
/// answer over field by field; a failed glyph lookup, its only error,
/// becomes `None`.
///
/// The call reads the renderer's font data and line height and nothing
/// else, so the answer depends on the renderer and the text alone. It is
/// asked only of a newly made renderer of one of the fonts: the data is
/// that of a font, and the line height is the font's own, 128 at most. It
/// adds up one signed byte for every glyph and the line height for every
/// newline, in `i32`; a text of at most `MAX_TEXT_BYTES` bytes has no more
/// characters than that, so no sum grows beyond 2^30.
#[verifier::external_body]
fn measure_text(renderer: &FontRenderer, content: &str) -> (r: Option<RenderedDimensions>)
    requires
        is_font_renderer(*renderer),
        byte_length(content@) <= MAX_TEXT_BYTES,
    ensures
        r == rendered_dimensions(*renderer, content@),
{
    let origin = embedded_graphics::geometry::Point::new(0, 0);
    match renderer.get_rendered_dimensions(content, origin, VerticalPosition::Top) {
        Ok(d) => Some(RenderedDimensions {
            advance: Point { x: d.advance.x, y: d.advance.y },
            bounding_box: match d.bounding_box {
                Some(b) => Some(Rectangle {
                    top_left: Point { x: b.top_left.x, y: b.top_left.y },
                    size: Size { width: b.size.width, height: b.size.height },
                }),
                None => None,
            },
        }),
        Err(_) => None,
    }
}

impl RenderedDimensions {
    /// The bounding box, or the empty rectangle at the origin where there is
    /// none.
    pub open spec fn bounds(self) -> Rectangle {
        match self.bounding_box {
            Some(b) => b,
            None => Rectangle::zero(),
        }
    }

    /// The distance from the top edge of the text to the bottom of its
    /// bounding box.
    pub open spec fn depth(self) -> int {
        signed(self.bounds().size.height) + self.bounds().top_left.y
    }

    /// Whether the extent can be computed: the depth fits a coordinate.
    pub open spec fn has_extent(self) -> bool {
        fits_i32(self.depth())
    }

    /// The size of a text with these dimensions: as wide as the pen moves,
    /// and as high as its bounding box reaches below the top edge.
    pub open spec fn extent(self) -> Size {
        Size {
            width: unsigned(self.advance.x) as u32,
            height: unsigned(self.depth() as i32) as u32,
        }
    }

    /// Computes [`Self::extent`], or `None` where [`Self::has_extent`] fails.
    pub fn try_size(&self) -> (s: Option<Size>)
        ensures
            s == if self.has_extent() {
                Some(self.extent())
            } else {
                None
            },
    {
        let bounding_box = match self.bounding_box {
            Some(b) => b,
            None => Rectangle::new(Point::new(0, 0), Size::new(0, 0)),
        };
        match to_signed(bounding_box.size.height).checked_add(bounding_box.top_left.y) {
            Some(depth) => Some(Size::new(to_unsigned(self.advance.x), to_unsigned(depth))),
            None => None,
        }
    }

    /// Computes [`Self::extent`].
    pub fn size(&self) -> (s: Size)
        requires
            self.has_extent(),
        ensures
            s == self.extent(),
    {
        let bounding_box = match self.bounding_box {
            Some(b) => b,
            None => Rectangle::new(Point::new(0, 0), Size::new(0, 0)),
        };
        Size::new(
            to_unsigned(self.advance.x),
            to_unsigned(to_signed(bounding_box.size.height) + bounding_box.top_left.y),
        )
    }
}

/// Text in one color, set in one of the fonts. Its size is what the font
/// reports of the text; the space it is offered plays no part, and it
/// neither wraps nor clips. Where the font cannot tell, because it lacks a
/// glyph that the text needs, the text takes no space.
pub struct Text<Color> {
    content: String,
    color: Color,
    font: Font,
}

impl<Color> Text<Color> {
    pub closed spec fn content(self) -> String {
        self.content
    }

    pub closed spec fn color(self) -> Color {
        self.color
    }

    pub closed spec fn font(self) -> Font {
        self.font
    }

    /// What the font reports of this text.
    pub open spec fn dimensions(self) -> Option<RenderedDimensions> {
        rendered_dimensions(font_renderer(self.font()), self.content()@)
    }

    /// What drawing this text at `origin` asks of the surface.
    pub open spec fn label(self, origin: Point) -> DrawOp<Color> {
        DrawOp::Text {
            origin,
            content: self.content(),
            color: self.color(),
            renderer: font_renderer(self.font()),
        }
    }

    pub fn new(content: String, color: Color, font: Font) -> (t: Self)
        ensures
            t.content() == content,
            t.color() == color,
            t.font() == font,
    {
        Text { content, color, font }
    }

    /// Asks the font for the dimensions of this text, where the text is
    /// short enough to be asked of.
    fn measured(&self) -> (d: Option<Option<RenderedDimensions>>)
        ensures
            d == if byte_length(self.content()@) <= MAX_TEXT_BYTES {
                Some(self.dimensions())
            } else {
                None
            },
    {
        let content = self.content.as_str();
        if content.as_bytes().len() > MAX_TEXT_BYTES {
            return None;
        }
        let renderer = renderer_of(self.font);
        Some(measure_text(&renderer, content))
    }
}

impl<Color: Copy> View<Color> for Text<Color> {
    /// A text can be measured where it is at most `MAX_TEXT_BYTES` bytes
    /// long and the extent that the font reports, if it reports one, fits
    /// the coordinates.
    open spec fn can_measure(&self, available: Size) -> bool {
        &&& byte_length(self.content()@) <= MAX_TEXT_BYTES
        &&& self.dimensions() matches Some(d) ==> d.has_extent()
    }

    /// The extent that the font reports of the text, and the empty size
    /// where the font reports none.
    open spec fn measure(&self, available: Size) -> Size {
        match self.dimensions() {
            Some(d) => d.extent(),
            None => Size { width: 0, height: 0 },
        }
    }

    open spec fn can_render(&self, size: Size, offset: Point) -> bool {
        true
    }

    open spec fn render(&self, size: Size, offset: Point) -> Seq<DrawOp<Color>> {
        seq![self.label(offset)]
    }

    fn try_size(&self, available: Size) -> (s: Option<Size>) {
        match self.measured() {
            Some(Some(dimensions)) => dimensions.try_size(),
            Some(None) => Some(Size::new(0, 0)),
            None => None,
        }
    }

    fn size(&self, available_size: Size) -> (s: Size) {
        let renderer = renderer_of(self.font);
        match measure_text(&renderer, self.content.as_str()) {
            Some(dimensions) => dimensions.size(),
            None => Size::new(0, 0),
        }
    }

    fn can_draw(&self, size: Size, offset: Point) -> (ok: bool) {
        true
    }

    fn draw(&self, size: Size, draw_target: &mut LayoutDrawTarget<'_, Color>) {
        draw_target.original_draw_target.ops.push(
            DrawOp::Text {
                origin: draw_target.offset,
                content: self.content.clone(),
                color: self.color,
                renderer: renderer_of(self.font),
            },
        );
    }
}

/// A text that its font cannot tell the dimensions of can still be
/// measured, and takes no space.
pub proof fn lemma_text_without_dimensions_is_empty<Color: Copy>(text: Text<Color>, available: Size)
    requires
        text.dimensions() is None,
        byte_length(text.content()@) <= MAX_TEXT_BYTES,
    ensures
        text.can_measure(available),
        text.measure(available) == (Size { width: 0, height: 0 }),
{
}

/// The size of a text does not depend on the space it is offered.
pub proof fn lemma_text_ignores_the_space<Color: Copy>(text: Text<Color>, one: Size, other: Size)
    ensures
        text.can_measure(one) == text.can_measure(other),
        text.measure(one) == text.measure(other),
{
}

} // verus!
