//! The mesh configuration of a chart and the two-pass protocol that draws it.
use vstd::prelude::*;
use crate::style::{
    size_in_pixels, text_style_in, FontDesc, RGBAColor, ShapeStyle, SizeDesc, TextStyle,
    TextStyleDesc,
};

verus! {

/// The number of labels each axis asks for until it is configured.
pub const DEFAULT_LABEL_COUNT: usize = 10;

/// The tick length, in pixels, on every edge until it is configured.
pub const DEFAULT_TICK_SIZE: i32 = 0;

/// An edge of the plotting area.
#[derive(Clone, Copy, Debug, PartialEq, Eq, Structural)]
pub enum LabelAreaPosition {
    Top,
    Bottom,
    Left,
    Right,
}

/// One grid line handed to a label formatter: its pixel extent and the value
/// of the axis it stands for.
pub enum MeshLine<XV, YV> {
    XMesh((i32, i32), (i32, i32), XV),
    YMesh((i32, i32), (i32, i32), YV),
}

/// The font family of tick labels until a label style is configured.
pub const DEFAULT_FONT_FAMILY: &'static str = "Arial";

/// The opacity, in percent, of the coarse grid until its style is configured.
pub const DEFAULT_COARSE_OPACITY: u8 = 20;

/// The opacity, in percent, of the fine grid until its style is configured.
pub const DEFAULT_FINE_OPACITY: u8 = 10;

/// The size of default label text: twelve percent of the smaller side of the
/// area, and never under twelve pixels.
pub open spec fn default_label_size(parent: (u32, u32)) -> int {
    let relative = size_in_pixels(SizeDesc::Percent(12), parent);
    if relative >= 12 {
        relative
    } else {
        12
    }
}

/// Whether `t` is the label style used where none is configured.
pub open spec fn is_default_label_style(t: TextStyle, parent: (u32, u32)) -> bool {
    &&& t.font.family@ == DEFAULT_FONT_FAMILY@
    &&& t.font.size == default_label_size(parent)
    &&& t.color == (RGBAColor { r: 0, g: 0, b: 0, opacity: 100 })
}

/// A black outline one pixel wide at the given opacity.
pub open spec fn black_line(opacity: u8) -> ShapeStyle {
    ShapeStyle { color: RGBAColor { r: 0, g: 0, b: 0, opacity }, filled: false, stroke_width: 1 }
}

/// Ten times a label count, held at `usize::MAX`.
pub open spec fn tenfold(n: usize) -> usize {
    if n <= usize::MAX / 10 {
        (n * 10) as usize
    } else {
        usize::MAX
    }
}

fn tenfold_exec(n: usize) -> (r: usize)
    ensures
        r == tenfold(n),
{
    if n <= usize::MAX / 10 {
        n * 10
    } else {
        usize::MAX
    }
}

/// Which of the two passes of a draw a request belongs to; it selects how
/// grid lines are labelled.
#[derive(Clone, Copy, Debug, PartialEq, Eq, Structural)]
pub enum DrawPass {
    Coarse,
    Fine,
}

/// Everything the chart needs to draw one pass of the mesh. The pass selects
/// how grid lines are labelled (see `MeshStyle::label`).
#[derive(Debug, PartialEq)]
pub struct MeshRequest {
    pub pass: DrawPass,
    /// The most labels wanted on the Y axis and on the X axis, in that order.
    pub label_density: (usize, usize),
    pub line_style: ShapeStyle,
    pub label_style: TextStyle,
    pub draw_x_mesh: bool,
    pub draw_y_mesh: bool,
    pub x_label_offset: i32,
    pub y_label_offset: i32,
    pub draw_x_axis: bool,
    pub draw_y_axis: bool,
    pub axis_style: ShapeStyle,
    pub axis_desc_style: TextStyle,
    pub x_desc: Option<String>,
    pub y_desc: Option<String>,
    pub x_tick_size: [i32; 2],
    pub y_tick_size: [i32; 2],
}

/// The misuse that a draw can report.
#[derive(Clone, Copy, Debug, PartialEq, Eq, Structural)]
pub enum MeshError {
    /// The configuration was drawn before and no longer holds its target.
    AlreadyDrawn,
}

/// Where a draw stands: which request waits for the chart's answer, or that
/// it is over.
#[derive(Clone, Copy, Debug, PartialEq, Eq, Structural)]
pub enum DrawPhase {
    Coarse,
    Fine,
    Finished,
}

/// The phase after the chart answered the request of `phase`.
pub open spec fn next_phase(phase: DrawPhase, succeeded: bool) -> DrawPhase {
    match phase {
        DrawPhase::Coarse => if succeeded {
            DrawPhase::Fine
        } else {
            DrawPhase::Finished
        },
        _ => DrawPhase::Finished,
    }
}

/// A draw in progress. It holds the target taken from the configuration and
/// the two requests; the caller has the chart carry out the pending request
/// on the target and reports the outcome with `complete`.
pub struct MeshDraw<T> {
    pub target: T,
    pub coarse: MeshRequest,
    pub fine: MeshRequest,
    pub phase: DrawPhase,
}

impl<T> MeshDraw<T> {
    /// The request that waits to be carried out, if any.
    pub open spec fn pending_spec(&self) -> Option<MeshRequest> {
        match self.phase {
            DrawPhase::Coarse => Some(self.coarse),
            DrawPhase::Fine => Some(self.fine),
            DrawPhase::Finished => None,
        }
    }

    /// This draw once the pending request was answered.
    pub open spec fn advanced(self, succeeded: bool) -> MeshDraw<T> {
        MeshDraw { phase: next_phase(self.phase, succeeded), ..self }
    }

    /// The request that waits to be carried out, if any.
    pub fn pending(&self) -> (r: Option<&MeshRequest>)
        ensures
            self.phase is Coarse ==> r == Some(&self.coarse),
            self.phase is Fine ==> r == Some(&self.fine),
            self.phase is Finished ==> r is None,
    {
        match self.phase {
            DrawPhase::Coarse => Some(&self.coarse),
            DrawPhase::Fine => Some(&self.fine),
            DrawPhase::Finished => None,
        }
    }

    /// Records the chart's answer to the pending request. Returns the result
    /// of the whole draw once it is over: a failure of the coarse pass ends it
    /// at once, and the answer to the fine pass is the draw's result.
    pub fn complete<E>(&mut self, outcome: Result<(), E>) -> (r: Option<Result<(), E>>)
        requires
            !(old(self).phase is Finished),
        ensures
            *final(self) == old(self).advanced(outcome is Ok),
            r == (if old(self).phase is Coarse && outcome is Ok {
                None
            } else {
                Some(outcome)
            }),
    {
        match self.phase {
            DrawPhase::Coarse => match outcome {
                Ok(()) => {
                    self.phase = DrawPhase::Fine;
                    None
                },
                Err(e) => {
                    self.phase = DrawPhase::Finished;
                    Some(Err(e))
                },
            },
            _ => {
                self.phase = DrawPhase::Finished;
                Some(outcome)
            },
        }
    }
}

/// The configuration of the mesh of one chart, with the target that it is
/// drawn on until it is drawn.
pub struct MeshStyle<T, FX, FY> {
    pub parent_size: (u32, u32),
    pub draw_x_mesh: bool,
    pub draw_y_mesh: bool,
    pub draw_x_axis: bool,
    pub draw_y_axis: bool,
    pub x_label_offset: i32,
    pub y_label_offset: i32,
    pub n_x_labels: usize,
    pub n_y_labels: usize,
    pub axis_desc_style: Option<TextStyle>,
    pub x_desc: Option<String>,
    pub y_desc: Option<String>,
    pub line_style_1: Option<ShapeStyle>,
    pub line_style_2: Option<ShapeStyle>,
    pub axis_style: Option<ShapeStyle>,
    pub label_style: Option<TextStyle>,
    pub format_x: FX,
    pub format_y: FY,
    pub target: Option<T>,
    pub x_tick_size: [i32; 2],
    pub y_tick_size: [i32; 2],
}

impl<T, FX, FY> MeshStyle<T, FX, FY> {
    /// A configuration with every style unset, all grid lines and axes shown,
    /// and the given target and label formatters.
    pub open spec fn new_spec(parent_size: (u32, u32), target: T, format_x: FX, format_y: FY) -> Self {
        MeshStyle {
            parent_size,
            draw_x_mesh: true,
            draw_y_mesh: true,
            draw_x_axis: true,
            draw_y_axis: true,
            x_label_offset: 0,
            y_label_offset: 0,
            n_x_labels: DEFAULT_LABEL_COUNT,
            n_y_labels: DEFAULT_LABEL_COUNT,
            axis_desc_style: None,
            x_desc: None,
            y_desc: None,
            line_style_1: None,
            line_style_2: None,
            axis_style: None,
            label_style: None,
            format_x,
            format_y,
            target: Some(target),
            x_tick_size: [DEFAULT_TICK_SIZE, DEFAULT_TICK_SIZE],
            y_tick_size: [DEFAULT_TICK_SIZE, DEFAULT_TICK_SIZE],
        }
    }

    /// A configuration with every style unset, all grid lines and axes shown,
    /// and the given target and label formatters.
    pub fn new(parent_size: (u32, u32), target: T, format_x: FX, format_y: FY) -> (s: Self)
        ensures
            s.parent_size == parent_size,
            s.draw_x_mesh && s.draw_y_mesh && s.draw_x_axis && s.draw_y_axis,
            s.x_label_offset == 0 && s.y_label_offset == 0,
            s.n_x_labels == DEFAULT_LABEL_COUNT && s.n_y_labels == DEFAULT_LABEL_COUNT,
            s.axis_desc_style is None && s.label_style is None,
            s.x_desc is None && s.y_desc is None,
            s.line_style_1 is None && s.line_style_2 is None && s.axis_style is None,
            s.format_x == format_x && s.format_y == format_y,
            s.target == Some(target),
            s.x_tick_size@ == seq![DEFAULT_TICK_SIZE, DEFAULT_TICK_SIZE],
            s.y_tick_size@ == seq![DEFAULT_TICK_SIZE, DEFAULT_TICK_SIZE],
            s == Self::new_spec(parent_size, target, format_x, format_y),
    {
        MeshStyle {
            parent_size,
            draw_x_mesh: true,
            draw_y_mesh: true,
            draw_x_axis: true,
            draw_y_axis: true,
            x_label_offset: 0,
            y_label_offset: 0,
            n_x_labels: DEFAULT_LABEL_COUNT,
            n_y_labels: DEFAULT_LABEL_COUNT,
            axis_desc_style: None,
            x_desc: None,
            y_desc: None,
            line_style_1: None,
            line_style_2: None,
            axis_style: None,
            label_style: None,
            format_x,
            format_y,
            target: Some(target),
            x_tick_size: [DEFAULT_TICK_SIZE, DEFAULT_TICK_SIZE],
            y_tick_size: [DEFAULT_TICK_SIZE, DEFAULT_TICK_SIZE],
        }
    }

    /// Sets the length of the tick marks on all four edges.
    pub fn set_all_tick_mark_size(&mut self, value: SizeDesc) -> (r: &mut Self)
        ensures
            ({
                let size = size_in_pixels(value, old(self).parent_size) as i32;
                *r == (MeshStyle { x_tick_size: [size, size], y_tick_size: [size, size], ..*old(self) })
            }),
            *final(self) == *final(r),
    {
        let size = value.in_pixels(self.parent_size);
        self.x_tick_size = [size, size];
        self.y_tick_size = [size, size];
        self
    }

    /// Sets the length of the tick marks on one edge: the top and bottom edges
    /// hold the near and far X ticks, the left and right edges the near and far
    /// Y ticks.
    pub fn set_tick_mark_size(&mut self, pos: LabelAreaPosition, value: SizeDesc) -> (r: &mut Self)
        ensures
            ({
                let size = size_in_pixels(value, old(self).parent_size) as i32;
                let x = old(self).x_tick_size;
                let y = old(self).y_tick_size;
                *r == match pos {
                    LabelAreaPosition::Top => MeshStyle { x_tick_size: [size, x[1]], ..*old(self) },
                    LabelAreaPosition::Bottom => MeshStyle { x_tick_size: [x[0], size], ..*old(self) },
                    LabelAreaPosition::Left => MeshStyle { y_tick_size: [size, y[1]], ..*old(self) },
                    LabelAreaPosition::Right => MeshStyle { y_tick_size: [y[0], size], ..*old(self) },
                }
            }),
            *final(self) == *final(r),
    {
        let size = value.in_pixels(self.parent_size);
        match pos {
            LabelAreaPosition::Top => self.x_tick_size = [size, self.x_tick_size[1]],
            LabelAreaPosition::Bottom => self.x_tick_size = [self.x_tick_size[0], size],
            LabelAreaPosition::Left => self.y_tick_size = [size, self.y_tick_size[1]],
            LabelAreaPosition::Right => self.y_tick_size = [self.y_tick_size[0], size],
        }
        self
    }

    /// Sets the offset of the X labels, e.g. to centre them between grid lines.
    pub fn x_label_offset(&mut self, value: SizeDesc) -> (r: &mut Self)
        ensures
            *r == (MeshStyle { x_label_offset: size_in_pixels(value, old(self).parent_size) as i32, ..*old(self) }),
            *final(self) == *final(r),
    {
        self.x_label_offset = value.in_pixels(self.parent_size);
        self
    }

    /// Sets the offset of the Y labels, e.g. to centre them between grid lines.
    pub fn y_label_offset(&mut self, value: SizeDesc) -> (r: &mut Self)
        ensures
            *r == (MeshStyle { y_label_offset: size_in_pixels(value, old(self).parent_size) as i32, ..*old(self) }),
            *final(self) == *final(r),
    {
        self.y_label_offset = value.in_pixels(self.parent_size);
        self
    }

    /// Hides the grid lines of the X axis.
    pub fn disable_x_mesh(&mut self) -> (r: &mut Self)
        ensures
            *r == (MeshStyle { draw_x_mesh: false, ..*old(self) }),
            *final(self) == *final(r),
    {
        self.draw_x_mesh = false;
        self
    }

    /// Hides the grid lines of the Y axis.
    pub fn disable_y_mesh(&mut self) -> (r: &mut Self)
        ensures
            *r == (MeshStyle { draw_y_mesh: false, ..*old(self) }),
            *final(self) == *final(r),
    {
        self.draw_y_mesh = false;
        self
    }

    /// Hides the X axis line.
    pub fn disable_x_axis(&mut self) -> (r: &mut Self)
        ensures
            *r == (MeshStyle { draw_x_axis: false, ..*old(self) }),
            *final(self) == *final(r),
    {
        self.draw_x_axis = false;
        self
    }

    /// Hides the Y axis line.
    pub fn disable_y_axis(&mut self) -> (r: &mut Self)
        ensures
            *r == (MeshStyle { draw_y_axis: false, ..*old(self) }),
            *final(self) == *final(r),
    {
        self.draw_y_axis = false;
        self
    }

    /// Sets the style of the axis lines.
    pub fn axis_style(&mut self, style: ShapeStyle) -> (r: &mut Self)
        ensures
            *r == (MeshStyle { axis_style: Some(style), ..*old(self) }),
            *final(self) == *final(r),
    {
        self.axis_style = Some(style);
        self
    }

    /// Sets how many labels the X axis shows at most.
    pub fn x_labels(&mut self, value: usize) -> (r: &mut Self)
        ensures
            *r == (MeshStyle { n_x_labels: value, ..*old(self) }),
            *final(self) == *final(r),
    {
        self.n_x_labels = value;
        self
    }

    /// Sets how many labels the Y axis shows at most.
    pub fn y_labels(&mut self, value: usize) -> (r: &mut Self)
        ensures
            *r == (MeshStyle { n_y_labels: value, ..*old(self) }),
            *final(self) == *final(r),
    {
        self.n_y_labels = value;
        self
    }

    /// Sets the style of the coarse grid, drawn by the fine pass.
    pub fn line_style_1(&mut self, style: ShapeStyle) -> (r: &mut Self)
        ensures
            *r == (MeshStyle { line_style_1: Some(style), ..*old(self) }),
            *final(self) == *final(r),
    {
        self.line_style_1 = Some(style);
        self
    }

    /// Sets the style of the fine grid, drawn by the coarse pass.
    pub fn line_style_2(&mut self, style: ShapeStyle) -> (r: &mut Self)
        ensures
            *r == (MeshStyle { line_style_2: Some(style), ..*old(self) }),
            *final(self) == *final(r),
    {
        self.line_style_2 = Some(style);
        self
    }

    /// Sets the style of the label text.
    pub fn label_style(&mut self, style: TextStyleDesc) -> (r: &mut Self)
        ensures
            *r == (MeshStyle { label_style: Some(text_style_in(style, old(self).parent_size)), ..*old(self) }),
            *final(self) == *final(r),
    {
        self.label_style = Some(style.into_text_style(self.parent_size));
        self
    }

    /// Sets the formatter of the X labels.
    pub fn x_label_formatter(&mut self, fmt: FX) -> (r: &mut Self)
        ensures
            *r == (MeshStyle { format_x: fmt, ..*old(self) }),
            *final(self) == *final(r),
    {
        self.format_x = fmt;
        self
    }

    /// Sets the formatter of the Y labels.
    pub fn y_label_formatter(&mut self, fmt: FY) -> (r: &mut Self)
        ensures
            *r == (MeshStyle { format_y: fmt, ..*old(self) }),
            *final(self) == *final(r),
    {
        self.format_y = fmt;
        self
    }

    /// Sets the style of the axis descriptions; unset, they take the label style.
    pub fn axis_desc_style(&mut self, style: TextStyleDesc) -> (r: &mut Self)
        ensures
            *r == (MeshStyle { axis_desc_style: Some(text_style_in(style, old(self).parent_size)), ..*old(self) }),
            *final(self) == *final(r),
    {
        self.axis_desc_style = Some(style.into_text_style(self.parent_size));
        self
    }

    /// Sets the description of the X axis.
    pub fn x_desc(&mut self, desc: String) -> (r: &mut Self)
        ensures
            *r == (MeshStyle { x_desc: Some(desc), ..*old(self) }),
            *final(self) == *final(r),
    {
        self.x_desc = Some(desc);
        self
    }

    /// Sets the description of the Y axis.
    pub fn y_desc(&mut self, desc: String) -> (r: &mut Self)
        ensures
            *r == (MeshStyle { y_desc: Some(desc), ..*old(self) }),
            *final(self) == *final(r),
    {
        self.y_desc = Some(desc);
        self
    }

    /// The coarse grid style in effect: the configured one, or black at the
    /// default coarse opacity.
    pub open spec fn resolved_line_style_1(&self) -> ShapeStyle {
        match self.line_style_1 {
            Some(s) => s,
            None => black_line(DEFAULT_COARSE_OPACITY),
        }
    }

    /// The fine grid style in effect.
    pub open spec fn resolved_line_style_2(&self) -> ShapeStyle {
        match self.line_style_2 {
            Some(s) => s,
            None => black_line(DEFAULT_FINE_OPACITY),
        }
    }

    /// The axis style in effect: the configured one, or solid black.
    pub open spec fn resolved_axis_style(&self) -> ShapeStyle {
        match self.axis_style {
            Some(s) => s,
            None => black_line(100),
        }
    }

    /// Whether `t` is the label style in effect.
    pub open spec fn is_resolved_label_style(&self, t: TextStyle) -> bool {
        match self.label_style {
            Some(s) => t == s,
            None => is_default_label_style(t, self.parent_size),
        }
    }

    /// Whether `t` is the description style in effect, where `label` is the
    /// label style in effect.
    pub open spec fn is_resolved_desc_style(&self, label: TextStyle, t: TextStyle) -> bool {
        match self.axis_desc_style {
            Some(s) => t == s,
            None => t == label,
        }
    }

    /// The settings that both passes share.
    pub open spec fn shares_settings(&self, req: MeshRequest) -> bool {
        &&& self.is_resolved_label_style(req.label_style)
        &&& self.is_resolved_desc_style(req.label_style, req.axis_desc_style)
        &&& req.draw_x_mesh == self.draw_x_mesh
        &&& req.draw_y_mesh == self.draw_y_mesh
        &&& req.x_label_offset == self.x_label_offset
        &&& req.y_label_offset == self.y_label_offset
        &&& req.axis_style == self.resolved_axis_style()
        &&& req.x_tick_size == self.x_tick_size
        &&& req.y_tick_size == self.y_tick_size
    }

    /// Whether `req` is the coarse pass of this configuration: ten times the
    /// label density, the fine grid style, no labels, no axis lines and no
    /// descriptions.
    pub open spec fn is_coarse_request(&self, req: MeshRequest) -> bool {
        &&& self.shares_settings(req)
        &&& req.pass == DrawPass::Coarse
        &&& req.label_density == (tenfold(self.n_y_labels), tenfold(self.n_x_labels))
        &&& req.line_style == self.resolved_line_style_2()
        &&& !req.draw_x_axis
        &&& !req.draw_y_axis
        &&& req.x_desc is None
        &&& req.y_desc is None
    }

    /// Whether `req` is the fine pass of this configuration: the label density,
    /// axis lines and descriptions as configured, the coarse grid style, and
    /// labels from the formatters.
    pub open spec fn is_fine_request(&self, req: MeshRequest) -> bool {
        &&& self.shares_settings(req)
        &&& req.pass == DrawPass::Fine
        &&& req.label_density == (self.n_y_labels, self.n_x_labels)
        &&& req.line_style == self.resolved_line_style_1()
        &&& req.draw_x_axis == self.draw_x_axis
        &&& req.draw_y_axis == self.draw_y_axis
        &&& req.x_desc == self.x_desc
        &&& req.y_desc == self.y_desc
    }

    /// This configuration once its target was taken by a draw.
    pub open spec fn spent(self) -> Self {
        MeshStyle { target: None, ..self }
    }

    /// The label style in effect.
    fn resolve_label_style(&self) -> (t: TextStyle)
        ensures
            self.is_resolved_label_style(t),
    {
        match &self.label_style {
            Some(s) => s.duplicate(),
            None => {
                let relative = SizeDesc::Percent(12).in_pixels(self.parent_size);
                let size: i32 = if relative >= 12 {
                    relative
                } else {
                    12
                };
                let family = DEFAULT_FONT_FAMILY.to_string();
                TextStyle { font: FontDesc { family, size }, color: RGBAColor::black(100) }
            },
        }
    }

    /// The request of one pass, with its own label density, grid style, axis
    /// flags and descriptions.
    fn request(
        &self,
        pass: DrawPass,
        label_density: (usize, usize),
        line_style: ShapeStyle,
        axis_flags: (bool, bool),
        descs: (Option<String>, Option<String>),
    ) -> (req: MeshRequest)
        ensures
            self.shares_settings(req),
            req.pass == pass,
            req.label_density == label_density,
            req.line_style == line_style,
            req.draw_x_axis == axis_flags.0,
            req.draw_y_axis == axis_flags.1,
            req.x_desc == descs.0,
            req.y_desc == descs.1,
    {
        let label_style = self.resolve_label_style();
        let axis_desc_style = match &self.axis_desc_style {
            Some(s) => s.duplicate(),
            None => label_style.duplicate(),
        };
        let axis_style = match self.axis_style {
            Some(s) => s,
            None => ShapeStyle::from_color(RGBAColor::black(100)),
        };
        MeshRequest {
            pass,
            label_density,
            line_style,
            label_style,
            draw_x_mesh: self.draw_x_mesh,
            draw_y_mesh: self.draw_y_mesh,
            x_label_offset: self.x_label_offset,
            y_label_offset: self.y_label_offset,
            draw_x_axis: axis_flags.0,
            draw_y_axis: axis_flags.1,
            axis_style,
            axis_desc_style,
            x_desc: descs.0,
            y_desc: descs.1,
            x_tick_size: self.x_tick_size,
            y_tick_size: self.y_tick_size,
        }
    }

    /// The coarse pass of this configuration.
    pub fn coarse_request(&self) -> (req: MeshRequest)
        ensures
            self.is_coarse_request(req),
    {
        let line_style = match self.line_style_2 {
            Some(s) => s,
            None => ShapeStyle::from_color(RGBAColor::black(DEFAULT_FINE_OPACITY)),
        };
        let density = (tenfold_exec(self.n_y_labels), tenfold_exec(self.n_x_labels));
        self.request(DrawPass::Coarse, density, line_style, (false, false), (None, None))
    }

    /// The fine pass of this configuration.
    pub fn fine_request(&self) -> (req: MeshRequest)
        ensures
            self.is_fine_request(req),
    {
        let line_style = match self.line_style_1 {
            Some(s) => s,
            None => ShapeStyle::from_color(RGBAColor::black(DEFAULT_COARSE_OPACITY)),
        };
        let x_desc = match &self.x_desc {
            Some(d) => Some(d.clone()),
            None => None,
        };
        let y_desc = match &self.y_desc {
            Some(d) => Some(d.clone()),
            None => None,
        };
        self.request(
            DrawPass::Fine,
            (self.n_y_labels, self.n_x_labels),
            line_style,
            (self.draw_x_axis, self.draw_y_axis),
            (x_desc, y_desc),
        )
    }

    /// Starts drawing the mesh: takes the target out of this configuration
    /// and returns it with the coarse and the fine pass, the coarse one
    /// pending. A configuration is drawn once; a second draw fails with
    /// `AlreadyDrawn`.
    pub fn draw(&mut self) -> (r: Result<MeshDraw<T>, MeshError>)
        ensures
            *final(self) == old(self).spent(),
            old(self).target is None ==> r == Err::<MeshDraw<T>, MeshError>(MeshError::AlreadyDrawn),
            old(self).target is Some ==> {
                &&& r is Ok
                &&& r->Ok_0.target == old(self).target->0
                &&& r->Ok_0.phase is Coarse
                &&& old(self).is_coarse_request(r->Ok_0.coarse)
                &&& old(self).is_fine_request(r->Ok_0.fine)
            },
    {
        match self.target.take() {
            None => Err(MeshError::AlreadyDrawn),
            Some(target) => {
                let coarse = self.coarse_request();
                let fine = self.fine_request();
                Ok(MeshDraw { target, coarse, fine, phase: DrawPhase::Coarse })
            },
        }
    }

    /// The label of a grid line in the given pass: none in the coarse pass,
    /// the axis's formatter applied to the line's value in the fine pass.
    pub fn label<XV, YV>(&self, pass: DrawPass, line: &MeshLine<XV, YV>) -> (r: Option<String>)
        where
            FX: Fn(&XV) -> String,
            FY: Fn(&YV) -> String,
        requires
            forall|v: &XV| call_requires(self.format_x, (v,)),
            forall|v: &YV| call_requires(self.format_y, (v,)),
        ensures
            pass is Coarse ==> r is None,
            pass is Fine ==> r is Some && match *line {
                MeshLine::XMesh(_, _, v) => call_ensures(self.format_x, (&v,), r->0),
                MeshLine::YMesh(_, _, v) => call_ensures(self.format_y, (&v,), r->0),
            },
    {
        match pass {
            DrawPass::Coarse => None,
            DrawPass::Fine => match line {
                MeshLine::XMesh(_, _, v) => Some((self.format_x)(v)),
                MeshLine::YMesh(_, _, v) => Some((self.format_y)(v)),
            },
        }
    }
}


/// The mesh of a secondary coordinate system laid over a chart: axis lines,
/// ticks and labels only, as its grid lines would repeat the primary ones.
pub struct SecondaryMeshStyle<T, FX, FY> {
    style: MeshStyle<T, FX, FY>,
}

impl<T, FX, FY> SecondaryMeshStyle<T, FX, FY> {
    /// The configuration that this overlay draws.
    pub closed spec fn inner(&self) -> MeshStyle<T, FX, FY> {
        self.style
    }

    /// A fresh configuration for the given target with both kinds of grid
    /// lines hidden.
    pub fn new(parent_size: (u32, u32), target: T, format_x: FX, format_y: FY) -> (s: Self)
        ensures
            s.inner() == (MeshStyle {
                draw_x_mesh: false,
                draw_y_mesh: false,
                ..MeshStyle::new_spec(parent_size, target, format_x, format_y)
            }),
            !s.inner().draw_x_mesh && !s.inner().draw_y_mesh,
    {
        let mut style = MeshStyle::new(parent_size, target, format_x, format_y);
        style.draw_x_mesh = false;
        style.draw_y_mesh = false;
        SecondaryMeshStyle { style }
    }

    /// The configuration that this overlay draws.
    pub fn mesh(&self) -> (r: &MeshStyle<T, FX, FY>)
        ensures
            *r == self.inner(),
    {
        &self.style
    }

    /// Sets the style of the axis lines.
    pub fn axis_style(&mut self, style: ShapeStyle) -> (r: &mut Self)
        ensures
            r.inner() == (MeshStyle { axis_style: Some(style), ..old(self).inner() }),
            *final(self) == *final(r),
    {
        self.style.axis_style(style);
        self
    }

    /// Sets the offset of the X labels.
    pub fn x_label_offset(&mut self, value: SizeDesc) -> (r: &mut Self)
        ensures
            r.inner() == (MeshStyle { x_label_offset: size_in_pixels(value, old(self).inner().parent_size) as i32, ..old(self).inner() }),
            *final(self) == *final(r),
    {
        self.style.x_label_offset(value);
        self
    }

    /// Sets the offset of the Y labels.
    pub fn y_label_offset(&mut self, value: SizeDesc) -> (r: &mut Self)
        ensures
            r.inner() == (MeshStyle { y_label_offset: size_in_pixels(value, old(self).inner().parent_size) as i32, ..old(self).inner() }),
            *final(self) == *final(r),
    {
        self.style.y_label_offset(value);
        self
    }

    /// Sets how many labels the X axis shows at most.
    pub fn x_labels(&mut self, value: usize) -> (r: &mut Self)
        ensures
            r.inner() == (MeshStyle { n_x_labels: value, ..old(self).inner() }),
            *final(self) == *final(r),
    {
        self.style.x_labels(value);
        self
    }

    /// Sets how many labels the Y axis shows at most.
    pub fn y_labels(&mut self, value: usize) -> (r: &mut Self)
        ensures
            r.inner() == (MeshStyle { n_y_labels: value, ..old(self).inner() }),
            *final(self) == *final(r),
    {
        self.style.y_labels(value);
        self
    }

    /// Sets the formatter of the X labels.
    pub fn x_label_formatter(&mut self, fmt: FX) -> (r: &mut Self)
        ensures
            r.inner() == (MeshStyle { format_x: fmt, ..old(self).inner() }),
            *final(self) == *final(r),
    {
        self.style.x_label_formatter(fmt);
        self
    }

    /// Sets the formatter of the Y labels.
    pub fn y_label_formatter(&mut self, fmt: FY) -> (r: &mut Self)
        ensures
            r.inner() == (MeshStyle { format_y: fmt, ..old(self).inner() }),
            *final(self) == *final(r),
    {
        self.style.y_label_formatter(fmt);
        self
    }

    /// Sets the style of the axis descriptions; unset, they take the label style.
    pub fn axis_desc_style(&mut self, style: TextStyleDesc) -> (r: &mut Self)
        ensures
            r.inner() == (MeshStyle { axis_desc_style: Some(text_style_in(style, old(self).inner().parent_size)), ..old(self).inner() }),
            *final(self) == *final(r),
    {
        self.style.axis_desc_style(style);
        self
    }

    /// Sets the description of the X axis.
    pub fn x_desc(&mut self, desc: String) -> (r: &mut Self)
        ensures
            r.inner() == (MeshStyle { x_desc: Some(desc), ..old(self).inner() }),
            *final(self) == *final(r),
    {
        self.style.x_desc(desc);
        self
    }

    /// Sets the description of the Y axis.
    pub fn y_desc(&mut self, desc: String) -> (r: &mut Self)
        ensures
            r.inner() == (MeshStyle { y_desc: Some(desc), ..old(self).inner() }),
            *final(self) == *final(r),
    {
        self.style.y_desc(desc);
        self
    }

    /// Sets the style of the label text.
    pub fn label_style(&mut self, style: TextStyleDesc) -> (r: &mut Self)
        ensures
            r.inner() == (MeshStyle { label_style: Some(text_style_in(style, old(self).inner().parent_size)), ..old(self).inner() }),
            *final(self) == *final(r),
    {
        self.style.label_style(style);
        self
    }

    /// Starts drawing the overlay, as `MeshStyle::draw` does.
    pub fn draw(&mut self) -> (r: Result<MeshDraw<T>, MeshError>)
        ensures
            final(self).inner() == old(self).inner().spent(),
            old(self).inner().target is None ==> r == Err::<MeshDraw<T>, MeshError>(MeshError::AlreadyDrawn),
            old(self).inner().target is Some ==> {
                &&& r is Ok
                &&& r->Ok_0.target == old(self).inner().target->0
                &&& r->Ok_0.phase is Coarse
                &&& old(self).inner().is_coarse_request(r->Ok_0.coarse)
                &&& old(self).inner().is_fine_request(r->Ok_0.fine)
            },
    {
        self.style.draw()
    }
}


/// A draw issues exactly two requests, the coarse pass and then the fine one:
/// the fine pass is pending once the coarse one succeeded, and nothing is
/// pending once the fine one was answered. The coarse pass asks for ten times
/// the configured label density and the fine pass for that density.
pub proof fn lemma_draw_issues_two_passes<T, FX, FY>(
    style: MeshStyle<T, FX, FY>,
    d: MeshDraw<T>,
    fine_succeeded: bool,
)
    requires
        d.phase is Coarse,
        style.is_coarse_request(d.coarse),
        style.is_fine_request(d.fine),
    ensures
        d.pending_spec() == Some(d.coarse),
        d.advanced(true).pending_spec() == Some(d.fine),
        d.advanced(true).advanced(fine_succeeded).pending_spec() is None,
        d.coarse.pass is Coarse,
        d.fine.pass is Fine,
        d.coarse.label_density == (tenfold(style.n_y_labels), tenfold(style.n_x_labels)),
        d.fine.label_density == (style.n_y_labels, style.n_x_labels),
{
}

/// When the coarse pass fails, the draw is over: the fine pass is never
/// requested.
pub proof fn lemma_coarse_failure_ends_draw<T>(d: MeshDraw<T>)
    requires
        d.phase is Coarse,
    ensures
        d.advanced(false).phase is Finished,
        d.advanced(false).pending_spec() is None,
{
}

/// The coarse pass never carries axis descriptions, and the fine pass carries
/// the configured ones.
pub proof fn lemma_descriptions_only_in_fine_pass<T, FX, FY>(
    style: MeshStyle<T, FX, FY>,
    coarse: MeshRequest,
    fine: MeshRequest,
)
    requires
        style.is_coarse_request(coarse),
        style.is_fine_request(fine),
    ensures
        coarse.x_desc is None && coarse.y_desc is None,
        fine.x_desc == style.x_desc && fine.y_desc == style.y_desc,
{
}

/// Without a configured description style, both passes use the label style
/// in effect for the axis descriptions.
pub proof fn lemma_desc_style_defaults_to_label_style<T, FX, FY>(
    style: MeshStyle<T, FX, FY>,
    req: MeshRequest,
)
    requires
        style.axis_desc_style is None,
        style.shares_settings(req),
    ensures
        req.axis_desc_style == req.label_style,
{
}

/// A draw leaves the configuration without a target, so that a second draw
/// fails with `AlreadyDrawn` rather than reaching a stale target.
pub proof fn lemma_second_draw_fails<T, FX, FY>(style: MeshStyle<T, FX, FY>)
    ensures
        style.spent().target is None,
        style.spent().spent() == style.spent(),
{
}

} // verus!
