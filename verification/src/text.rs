//! Text: fragments, the dirty flag, and what a flush decides.
//!
//! Laying out and rasterising glyphs is the work of a glyph service outside
//! this crate. A text object keeps the fragments to draw and knows whether
//! they have been flushed since they last changed. A flush asks the service
//! to process the fragments and acts on the answer: new quads replace the
//! text's mesh, an atlas that is too small is replaced by a larger one and the
//! service is asked again.

use vstd::prelude::*;
use crate::context::{ContextView, GraphicsContext, TEXT_PIPELINE};
use crate::record::PipelineData;
use crate::render::Render;
use crate::rows::{copy_bytes_per_row_alignment, padded_bytes_per_row, CopyLayout};
use crate::scalar::{opaque_white, Dimensions, Point2, Rgba, Scalar, Vector2, ZERO_BITS};
use crate::transform::Transform;

verus! {

/// A font of the context's font table.
#[derive(Debug, Clone, Copy, PartialEq, Eq, Structural)]
pub struct Font {
    id: usize,
}

impl Font {
    /// The entry of the font table that this font is.
    pub closed spec fn index(&self) -> usize {
        self.id
    }

    /// The font that is entry `id` of the font table.
    pub(crate) fn with_id(id: usize) -> (font: Font)
        ensures
            font.index() == id,
    {
        Font { id }
    }

    /// Enters a newly loaded font into the context's font table.
    pub fn new(ctx: &mut GraphicsContext) -> (font: Font)
        requires
            old(ctx).wf(),
            old(ctx)@.fonts < usize::MAX,
        ensures
            font.index() == old(ctx)@.fonts,
            final(ctx)@ == (ContextView { fonts: old(ctx)@.fonts + 1, ..old(ctx)@ }),
            final(ctx).wf(),
    {
        Font { id: ctx.register_font() }
    }

    /// The entry of the font table that this font is.
    pub fn id(&self) -> (id: usize)
        ensures
            id == self.index(),
    {
        self.id
    }
}

/// A run of text in one font and one colour.
#[derive(Debug, Clone)]
pub struct TextFragment {
    pub text: String,
    /// The font, or `None` for the context's built-in font.
    pub font: Option<Font>,
    pub color: Rgba,
}

/// A text fragment as a value.
pub struct FragmentView {
    pub text: Seq<char>,
    pub font: Option<Font>,
    pub color: Rgba,
}

impl View for TextFragment {
    type V = FragmentView;

    open spec fn view(&self) -> FragmentView {
        FragmentView { text: self.text@, font: self.font, color: self.color }
    }
}

impl TextFragment {
    /// The fragment of `text` in the built-in font, in opaque white.
    pub fn plain(text: &str) -> (fragment: TextFragment)
        ensures
            fragment@ == (FragmentView { text: text@, font: None, color: opaque_white() }),
    {
        let one = Scalar::one();
        TextFragment {
            text: text.to_owned(),
            font: None,
            color: Rgba { r: one, g: one, b: one, a: one },
        }
    }
}

impl From<String> for TextFragment {
    fn from(s: String) -> (fragment: TextFragment) {
        let one = Scalar::one();
        TextFragment { text: s, font: None, color: Rgba { r: one, g: one, b: one, a: one } }
    }
}

impl vstd::std_specs::convert::FromSpecImpl<String> for TextFragment {
    open spec fn obeys_from_spec() -> bool {
        true
    }

    open spec fn from_spec(s: String) -> TextFragment {
        TextFragment { text: s, font: None, color: opaque_white() }
    }
}

/// The fragments of a text as values, in order.
pub open spec fn fragment_views(fragments: Seq<TextFragment>) -> Seq<FragmentView> {
    fragments.map_values(|f: TextFragment| f@)
}

/// The corner of quad `i / 6` that index `i` of a list of quads names. The
/// corners of a quad are numbered around it, and each quad is two triangles
/// that share the diagonal from its first to its third corner.
pub open spec fn quad_index(i: int) -> int {
    let corner = if i % 6 == 0 || i % 6 == 3 {
        0int
    } else if i % 6 == 1 {
        1int
    } else if i % 6 == 5 {
        3int
    } else {
        2int
    };
    4 * (i / 6) + corner
}

/// The indices of `quads` quads whose vertices follow one another.
pub open spec fn quad_indices(quads: nat) -> Seq<u16> {
    Seq::new(6 * quads, |i: int| quad_index(i) as u16)
}

/// The indices of `quads` quads whose vertices follow one another, four per
/// quad.
pub fn glyph_quad_indices(quads: usize) -> (indices: Vec<u16>)
    requires
        4 * quads <= u16::MAX,
    ensures
        indices@ == quad_indices(quads as nat),
{
    let mut indices: Vec<u16> = Vec::new();
    let mut base: u16 = 0;
    let mut q: usize = 0;
    while q < quads
        invariant
            q <= quads,
            4 * quads <= u16::MAX,
            base == 4 * q,
            indices.len() == 6 * q,
            forall|i: int| 0 <= i < indices.len() ==> indices[i] == quad_index(i),
        decreases quads - q,
    {
        indices.push(base);
        indices.push(base + 1);
        indices.push(base + 2);
        indices.push(base);
        indices.push(base + 2);
        indices.push(base + 3);
        base = base + 4;
        q += 1;
    }
    proof {
        assert(indices@ =~= quad_indices(quads as nat));
    }
    indices
}

/// The corners of a rectangle, around it from its least corner: (min, min),
/// (max, min), (max, max), (min, max).
pub fn glyph_rect_to_point_list(min: Point2, max: Point2) -> (corners: [Point2; 4])
    ensures
        corners[0] == min,
        corners[1] == (Point2 { x: max.x, y: min.y }),
        corners[2] == max,
        corners[3] == (Point2 { x: min.x, y: max.y }),
{
    [
        Point2 { x: min.x, y: min.y },
        Point2 { x: max.x, y: min.y },
        Point2 { x: max.x, y: max.y },
        Point2 { x: min.x, y: max.y },
    ]
}

/// What the glyph service answered to a request to process the queued text.
#[derive(Clone, Copy, Debug, PartialEq, Eq, Structural)]
pub enum BrushOutcome {
    /// New quads to draw, this many.
    Draw { quads: usize },
    /// What was drawn last is still right.
    ReDraw,
    /// The glyph atlas is too small; one of the suggested size would do.
    TextureTooSmall { suggested: Dimensions },
}

/// What a flush does next.
pub enum FlushStep {
    /// The text is flushed, and its mesh is to be built anew under its
    /// handle, with these indices over the quads' vertices.
    Rebuild { indices: Vec<u16> },
    /// The text is flushed, and its mesh stays.
    Done,
    /// The atlas, with its bind group, is to be created anew under its handle
    /// with these dimensions; then the glyph service is asked again.
    Retry { dimensions: Dimensions },
}

/// What the upload of one rasterised glyph needs.
#[derive(Clone, Copy, Debug, PartialEq, Eq, Structural)]
pub struct GlyphUpload {
    /// The layout of the glyph's rows in the upload buffer.
    pub layout: CopyLayout,
    /// Whether the upload buffer is too small and has to be created anew
    /// first, under its handle, with `layout.buffer_size` bytes.
    pub grow: bool,
}

/// A text object as a value.
pub struct TextView {
    /// The device objects the text is drawn with.
    pub data: PipelineData,
    /// Handle of the glyph atlas.
    pub texture: usize,
    /// Handle of the buffer that glyphs are uploaded through.
    pub upload_buffer: usize,
    /// Size of that buffer in bytes.
    pub upload_buffer_size: nat,
    /// The fragments to draw.
    pub fragments: Seq<FragmentView>,
    /// Whether fragments were added since the last flush.
    pub dirty: bool,
    /// Position and size of the laid-out text.
    pub bounds: (Point2, Vector2),
    /// Dimensions of the glyph atlas.
    pub atlas: Dimensions,
}

impl TextView {
    /// After a flush step that got `outcome` from the glyph service.
    pub open spec fn flush(self, outcome: BrushOutcome) -> TextView {
        if !self.dirty {
            self
        } else {
            match outcome {
                BrushOutcome::Draw { quads } => TextView { dirty: false, ..self },
                BrushOutcome::ReDraw => TextView { dirty: false, ..self },
                BrushOutcome::TextureTooSmall { suggested } => TextView { atlas: suggested, ..self },
            }
        }
    }

    /// After the plan of an upload whose padded rows take `size` bytes.
    pub open spec fn upload(self, size: nat) -> TextView {
        if self.upload_buffer_size < size {
            TextView { upload_buffer_size: size, ..self }
        } else {
            self
        }
    }
}

/// The font of fragment `fragment` when `default` is the built-in font.
pub open spec fn font_of(fragment: FragmentView, default: Font) -> Font {
    match fragment.font {
        Some(font) => font,
        None => default,
    }
}

/// Renderable text object.
pub struct Text {
    pipeline_data: PipelineData,
    texture: usize,
    upload_buffer: usize,
    upload_buffer_size: u64,
    fragments: Vec<TextFragment>,
    dirty: bool,
    bounds: (Point2, Vector2),
    tex_dim: Dimensions,
}

impl View for Text {
    type V = TextView;

    closed spec fn view(&self) -> TextView {
        TextView {
            data: self.pipeline_data,
            texture: self.texture,
            upload_buffer: self.upload_buffer,
            upload_buffer_size: self.upload_buffer_size as nat,
            fragments: fragment_views(self.fragments@),
            dirty: self.dirty,
            bounds: self.bounds,
            atlas: self.tex_dim,
        }
    }
}

impl Text {
    /// The text right after its creation in the context `before`, with a
    /// glyph atlas of `atlas` texels: no fragments, nothing to flush, an empty
    /// mesh, and an upload buffer of a hundred aligned rows.
    pub open spec fn initial(before: ContextView, atlas: Dimensions) -> TextView {
        let origin = Point2 { x: Scalar { bits: ZERO_BITS }, y: Scalar { bits: ZERO_BITS } };
        let nothing = Vector2 { x: Scalar { bits: ZERO_BITS }, y: Scalar { bits: ZERO_BITS } };
        TextView {
            data: PipelineData {
                mesh_buffer: before.mesh_buffers as usize,
                bind_group: before.bind_groups as usize,
                instance_buffer: before.identity_instance_buffer,
                object_dimensions: nothing,
            },
            texture: before.textures as usize,
            upload_buffer: before.buffers as usize,
            upload_buffer_size: 25600,
            fragments: Seq::empty(),
            dirty: false,
            bounds: (origin, nothing),
            atlas,
        }
    }

    /// The context after a text was made in it.
    pub open spec fn context_after_new(before: ContextView) -> ContextView {
        ContextView {
            mesh_buffers: before.mesh_buffers + 1,
            bind_groups: before.bind_groups + 1,
            buffers: before.buffers + 1,
            textures: before.textures + 1,
            ..before
        }
    }

    /// Creates a new text object, whose glyph atlas has the dimensions that
    /// the glyph service starts with.
    pub fn new(ctx: &mut GraphicsContext, atlas: Dimensions) -> (text: Text)
        requires
            old(ctx).wf(),
            old(ctx)@.mesh_buffers < usize::MAX,
            old(ctx)@.bind_groups < usize::MAX,
            old(ctx)@.buffers < usize::MAX,
            old(ctx)@.textures < usize::MAX,
        ensures
            text@ == Text::initial(old(ctx)@, atlas),
            final(ctx)@ == Text::context_after_new(old(ctx)@),
            final(ctx).wf(),
    {
        let mesh_buffer = ctx.register_mesh_buffer();
        let upload_buffer = ctx.register_buffer();
        let texture = ctx.register_texture();
        let bind_group = ctx.register_bind_group();
        let zero = Scalar::zero();
        let text = Text {
            pipeline_data: PipelineData {
                mesh_buffer,
                bind_group,
                instance_buffer: ctx.identity_instance_buffer(),
                object_dimensions: Vector2 { x: zero, y: zero },
            },
            texture,
            upload_buffer,
            upload_buffer_size: copy_bytes_per_row_alignment() * 100,
            fragments: Vec::new(),
            dirty: false,
            bounds: (Point2 { x: zero, y: zero }, Vector2 { x: zero, y: zero }),
            tex_dim: atlas,
        };
        assert(text@.fragments =~= Seq::<FragmentView>::empty());
        text
    }

    /// Adds texts to the text object. The text has to be flushed before it is
    /// drawn again.
    pub fn add_text(&mut self, frags: Vec<TextFragment>)
        ensures
            final(self)@ == (TextView {
                fragments: old(self)@.fragments + fragment_views(frags@),
                dirty: true,
                ..old(self)@
            }),
    {
        let mut added = frags;
        self.fragments.append(&mut added);
        self.dirty = true;
        assert(self@.fragments =~= old(self)@.fragments + fragment_views(frags@));
    }

    /// Removes all fragments. What was flushed last stays as it is.
    pub fn clear(&mut self)
        ensures
            final(self)@ == (TextView { fragments: Seq::empty(), ..old(self)@ }),
    {
        self.fragments.clear();
        assert(self@.fragments =~= Seq::<FragmentView>::empty());
    }

    /// Position and size of the text as it was laid out by the last flush.
    pub fn bounds(&self) -> (bounds: (Point2, Vector2))
        ensures
            bounds == self@.bounds,
    {
        self.bounds
    }

    /// Whether fragments were added since the last flush.
    pub fn is_dirty(&self) -> (dirty: bool)
        ensures
            dirty == self@.dirty,
    {
        self.dirty
    }

    /// The fragments to draw.
    pub fn fragments(&self) -> (fragments: &Vec<TextFragment>)
        ensures
            fragment_views(fragments@) == self@.fragments,
    {
        &self.fragments
    }

    /// Dimensions of the glyph atlas.
    pub fn atlas_dimensions(&self) -> (atlas: Dimensions)
        ensures
            atlas == self@.atlas,
    {
        self.tex_dim
    }

    /// The device objects the text is drawn with.
    pub fn data(&self) -> (data: PipelineData)
        ensures
            data == self@.data,
    {
        self.pipeline_data
    }

    /// Handle of the glyph atlas.
    pub fn texture(&self) -> (handle: usize)
        ensures
            handle == self@.texture,
    {
        self.texture
    }

    /// Handle of the buffer that glyphs are uploaded through.
    pub fn upload_buffer(&self) -> (handle: usize)
        ensures
            handle == self@.upload_buffer,
    {
        self.upload_buffer
    }

    /// The font of each fragment, in order: its own, or `default` where it
    /// names none.
    pub fn fonts(&self, default: Font) -> (fonts: Vec<Font>)
        ensures
            fonts.len() == self@.fragments.len(),
            forall|i: int|
                0 <= i < fonts.len() ==> fonts[i] == font_of(#[trigger] self@.fragments[i], default),
    {
        let mut fonts: Vec<Font> = Vec::new();
        let mut i: usize = 0;
        while i < self.fragments.len()
            invariant
                i <= self.fragments.len(),
                fonts.len() == i,
                forall|k: int|
                    0 <= k < i ==> fonts[k] == font_of(#[trigger] self@.fragments[k], default),
            decreases self.fragments.len() - i,
        {
            assert(self@.fragments[i as int] == self.fragments[i as int]@);
            let font = match self.fragments[i].font {
                Some(font) => font,
                None => default,
            };
            fonts.push(font);
            i += 1;
        }
        fonts
    }

    /// Records where the glyph service laid the text out. The size is also
    /// the extent that the text's pivot scales by.
    pub fn set_bounds(&mut self, position: Point2, size: Vector2)
        ensures
            final(self)@ == (TextView {
                bounds: (position, size),
                data: PipelineData { object_dimensions: size, ..old(self)@.data },
                ..old(self)@
            }),
    {
        self.bounds = (position, size);
        self.pipeline_data.object_dimensions = size;
        assert(self@.fragments =~= old(self)@.fragments);
    }

    /// Plans the upload of a rasterised glyph of `width` by `height` texels of
    /// one byte. The upload buffer is replaced when it is smaller than the
    /// glyph's padded rows, by one of exactly their size.
    pub fn plan_upload(&mut self, width: u32, height: u32) -> (upload: GlyphUpload)
        ensures
            upload.layout.fits(width as nat, height as nat),
            upload.grow == (old(self)@.upload_buffer_size < upload.layout.buffer_size),
            final(self)@ == old(self)@.upload(upload.layout.buffer_size as nat),
    {
        let padded_width = padded_bytes_per_row(width as u64);
        proof {
            let p = padded_width as int;
            let h = height as int;
            assert(p <= 0x1_0000_0000);
            assert(p * h <= 0x1_0000_0000 * 0xFFFF_FFFF) by (nonlinear_arith)
                requires
                    0 <= p <= 0x1_0000_0000,
                    0 <= h <= 0xFFFF_FFFF,
            ;
        }
        let layout = CopyLayout {
            byte_width: width as u64,
            padded_width,
            rows: height,
            buffer_size: padded_width * (height as u64),
        };
        let grow = self.upload_buffer_size < layout.buffer_size;
        if grow {
            self.upload_buffer_size = layout.buffer_size;
        }
        assert(self@.fragments =~= old(self)@.fragments);
        GlyphUpload { layout, grow }
    }

    /// One step of a flush: acts on what the glyph service answered.
    ///
    /// A text without new fragments is flushed already, whatever the answer.
    /// Otherwise new quads give the text a new mesh, and the text is flushed;
    /// an answer that nothing changed leaves the mesh, and the text is
    /// flushed; an atlas that is too small is replaced by one of the suggested
    /// dimensions, and the text stays to be flushed.
    pub fn flush(&mut self, outcome: BrushOutcome) -> (step: FlushStep)
        requires
            old(self)@.dirty ==> (outcome matches BrushOutcome::Draw { quads } ==> 4 * quads
                <= u16::MAX),
        ensures
            final(self)@ == old(self)@.flush(outcome),
            !old(self)@.dirty ==> step is Done,
            old(self)@.dirty ==> match outcome {
                BrushOutcome::Draw { quads } => {
                    &&& step matches FlushStep::Rebuild { indices }
                    &&& indices@ == quad_indices(quads as nat)
                },
                BrushOutcome::ReDraw => step is Done,
                BrushOutcome::TextureTooSmall { suggested } => {
                    &&& step matches FlushStep::Retry { dimensions }
                    &&& dimensions == suggested
                },
            },
    {
        if !self.dirty {
            return FlushStep::Done;
        }
        let step = match outcome {
            BrushOutcome::Draw { quads } => {
                let indices = glyph_quad_indices(quads);
                self.dirty = false;
                FlushStep::Rebuild { indices }
            },
            BrushOutcome::ReDraw => {
                self.dirty = false;
                FlushStep::Done
            },
            BrushOutcome::TextureTooSmall { suggested } => {
                self.resize_texture(suggested);
                FlushStep::Retry { dimensions: suggested }
            },
        };
        assert(self@.fragments =~= old(self)@.fragments);
        step
    }

    /// Records that the glyph atlas now has `dimensions` texels.
    fn resize_texture(&mut self, dimensions: Dimensions)
        ensures
            final(self)@ == (TextView { atlas: dimensions, ..old(self)@ }),
    {
        self.tex_dim = dimensions;
        assert(self@.fragments =~= old(self)@.fragments);
    }

    /// Pushes this text object to the draw queue. The text has to be flushed.
    pub fn draw(&self, render: &mut Render, transform: Transform)
        requires
            !self@.dirty,
            old(render).wf(),
            old(render)@.total_draws() < usize::MAX,
        ensures
            final(render)@ == old(render)@.draw(self@.data, 1, transform, TEXT_PIPELINE),
            final(render).wf(),
            final(render)@.total_draws() == old(render)@.total_draws() + 1,
    {
        render.push_data(self.pipeline_data, 1, transform, TEXT_PIPELINE);
    }
}

} // verus!
