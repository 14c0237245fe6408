use vstd::prelude::*;
use crate::dpi::{div_trunc, dpi_scale_factor, to_dips};
use crate::wide::{encode_wide, wide_of};

verus! {

/// A native object (window, factory, render target, brush, text format,
/// text layout) as the host program identifies it.
pub type Handle = usize;

/// A rectangle in physical pixels, as the window system reports a client area.
#[derive(Clone, Copy, Debug, PartialEq, Eq, Structural)]
pub struct Rect {
    pub left: i32,
    pub top: i32,
    pub right: i32,
    pub bottom: i32,
}

impl Rect {
    /// A client area never has its far edge before its near edge.
    pub open spec fn wf(&self) -> bool {
        self.left <= self.right && self.top <= self.bottom
    }
}

/// The colours the document draws with.
#[derive(Clone, Copy, Debug, PartialEq, Eq, Structural)]
pub enum Color {
    Black,
    White,
}

/// What went wrong, to be reported to the user.
#[derive(Clone, Copy, Debug, PartialEq, Eq, Structural)]
pub enum Failure {
    Window,
    D2d1Factory,
    DwriteFactory,
    TextFormat,
    TextLayout,
    NoFactory,
    RenderTarget,
    Brush,
}

/// How a draw batch ended.
#[derive(Clone, Copy, Debug, PartialEq, Eq, Structural)]
pub enum DrawStatus {
    Done,
    RecreateTarget,
    Failed,
}

/// The device-dependent resources: a render target bound to the window and
/// a brush made on it. Both exist or neither does.
pub struct Resources {
    pub render_target: Option<Handle>,
    pub brush: Option<Handle>,
}

/// The one document of the program: the window, its graphics objects and the
/// text it shows.
pub struct TextDocument {
    pub resources: Resources,
    pub hwnd: Option<Handle>,
    pub wtext: Vec<u16>,
    pub wtext_length: u32,
    pub d2d1_factory: Option<Handle>,
    pub dwrite_factory: Option<Handle>,
    pub text_format: Option<Handle>,
    pub text_layout: Option<Handle>,
    pub dpi_scale_x: i32,
    pub dpi_scale_y: i32,
    pub destroyed: bool,
}

/// The handle as a sequence of zero or one items.
pub open spec fn handles_of(h: Option<Handle>) -> Seq<Handle> {
    match h {
        Some(x) => seq![x],
        None => Seq::empty(),
    }
}

fn push_handle(out: &mut Vec<Handle>, h: Option<Handle>)
    ensures
        final(out)@ == old(out)@ + handles_of(h),
{
    match h {
        Some(x) => out.push(x),
        None => {},
    }
    assert(final(out)@ =~= old(out)@ + handles_of(h));
}

impl TextDocument {
    /// Both scale factors are known and usable as divisors.
    pub open spec fn dpi_ready(&self) -> bool {
        self.dpi_scale_x > 0 && self.dpi_scale_y > 0
    }

    pub open spec fn has_device_resources(&self) -> bool {
        self.resources.render_target.is_some()
    }

    /// No native object is held any more.
    pub open spec fn all_released(&self) -> bool {
        &&& self.resources.render_target.is_none()
        &&& self.resources.brush.is_none()
        &&& self.d2d1_factory.is_none()
        &&& self.dwrite_factory.is_none()
        &&& self.text_format.is_none()
        &&& self.text_layout.is_none()
    }

    /// The document's invariant: the brush exists exactly when the render
    /// target does, device resources are only made once the scale factors are
    /// known, and a destroyed document holds nothing.
    pub open spec fn wf(&self) -> bool {
        &&& self.resources.brush.is_some() == self.resources.render_target.is_some()
        &&& self.has_device_resources() ==> self.dpi_ready()
        &&& self.destroyed ==> self.all_released()
    }

    /// The usable state: well formed and not yet destroyed.
    pub open spec fn live(&self) -> bool {
        self.wf() && !self.destroyed
    }

    /// The handles that releasing the device resources gives back, brush
    /// first.
    pub open spec fn device_release_list(&self) -> Seq<Handle> {
        match (self.resources.brush, self.resources.render_target) {
            (Some(b), Some(t)) => seq![b, t],
            _ => Seq::empty(),
        }
    }

    /// The handles of the device-independent objects, in the order they are
    /// released.
    pub open spec fn independent_release_list(&self) -> Seq<Handle> {
        handles_of(self.d2d1_factory) + handles_of(self.dwrite_factory) + handles_of(
            self.text_format,
        ) + handles_of(self.text_layout)
    }

    /// The document with its device resources released.
    pub open spec fn without_device(self) -> TextDocument {
        TextDocument { resources: Resources { render_target: None, brush: None }, ..self }
    }

    /// A fresh document: no window, no objects, no text, scale factors not
    /// yet measured.
    pub fn initialized() -> (r: TextDocument)
        ensures
            r.live(),
            r.all_released(),
            r.hwnd.is_none(),
            r.wtext@.len() == 0,
            r.wtext_length == 0,
            r.dpi_scale_x == 0,
            r.dpi_scale_y == 0,
    {
        TextDocument {
            resources: Resources { render_target: None, brush: None },
            hwnd: None,
            wtext: Vec::new(),
            wtext_length: 0,
            d2d1_factory: None,
            dwrite_factory: None,
            text_format: None,
            text_layout: None,
            dpi_scale_x: 0,
            dpi_scale_y: 0,
            destroyed: false,
        }
    }

    pub fn dpi_scale_x(&self) -> (r: i32)
        ensures
            r == self.dpi_scale_x,
    {
        self.dpi_scale_x
    }

    pub fn dpi_scale_y(&self) -> (r: i32)
        ensures
            r == self.dpi_scale_y,
    {
        self.dpi_scale_y
    }

    pub fn is_destroyed(&self) -> (r: bool)
        ensures
            r == self.destroyed,
    {
        self.destroyed
    }

    /// Releases the device resources, if any, and forgets them. Returns the
    /// handles the host must release, brush before render target; nothing
    /// when they are already gone.
    pub fn safe_release(&mut self) -> (r: Vec<Handle>)
        requires
            old(self).wf(),
        ensures
            r@ == old(self).device_release_list(),
            *final(self) == old(self).without_device(),
            final(self).wf(),
            !final(self).has_device_resources(),
    {
        let mut out: Vec<Handle> = Vec::new();
        match (self.resources.brush, self.resources.render_target) {
            (Some(b), Some(t)) => {
                out.push(b);
                out.push(t);
            },
            _ => {},
        }
        self.resources = Resources { render_target: None, brush: None };
        assert(out@ =~= old(self).device_release_list());
        out
    }

    /// Tears the document down: the device resources first, then the 2D
    /// factory, the text factory, the text format and the text layout, each
    /// released on its own when present. Returns the handles in that order.
    /// The document is unusable afterwards.
    pub fn release_resources(&mut self) -> (r: Vec<Handle>)
        requires
            old(self).live(),
        ensures
            r@ == old(self).device_release_list() + old(self).independent_release_list(),
            *final(self) == old(self).torn_down(),
            final(self).wf(),
            final(self).destroyed,
            final(self).all_released(),
    {
        let mut out = self.safe_release();
        push_handle(&mut out, self.d2d1_factory);
        push_handle(&mut out, self.dwrite_factory);
        push_handle(&mut out, self.text_format);
        push_handle(&mut out, self.text_layout);
        self.d2d1_factory = None;
        self.dwrite_factory = None;
        self.text_format = None;
        self.text_layout = None;
        self.destroyed = true;
        assert(out@ =~= old(self).device_release_list() + old(self).independent_release_list());
        out
    }
}


/// The text the document shows.
pub const DISPLAY_TEXT: &'static str = "Hello World using DirectWrite!";

/// Font size of the text, in points.
pub const FONT_SIZE: u32 = 14;

/// What the host needs to create the text format.
#[derive(Clone, Copy, Debug, PartialEq, Eq)]
pub struct TextFormatRequest {
    pub factory: Handle,
    pub family: &'static str,
    pub size: u32,
    pub locale: &'static str,
}

/// What the host needs to create the text layout: the factory, the format
/// and the layout box in device-independent units.
#[derive(Clone, Copy, Debug, PartialEq, Eq, Structural)]
pub struct TextLayoutRequest {
    pub factory: Handle,
    pub format: Handle,
    pub max_width: i32,
    pub max_height: i32,
}

/// What the host needs to create a render target for the window, sized in
/// physical pixels.
#[derive(Clone, Copy, Debug, PartialEq, Eq, Structural)]
pub struct TargetRequest {
    pub factory: Handle,
    pub hwnd: Option<Handle>,
    pub width: u32,
    pub height: u32,
}

/// What the host needs to create the brush.
#[derive(Clone, Copy, Debug, PartialEq, Eq, Structural)]
pub struct BrushRequest {
    pub render_target: Handle,
    pub color: Color,
}

/// One draw batch: clear to the background, then draw the layout at the
/// origin with the brush.
#[derive(Clone, Copy, Debug, PartialEq, Eq, Structural)]
pub struct DrawRequest {
    pub render_target: Handle,
    pub brush: Handle,
    pub layout: Option<Handle>,
    pub origin_x: i32,
    pub origin_y: i32,
    pub background: Color,
}

/// A new size for the render target in pixels, and for the text layout, if
/// there is one, the new maximum extent in device-independent units.
#[derive(Clone, Copy, Debug, PartialEq, Eq, Structural)]
pub struct ResizeRequest {
    pub render_target: Handle,
    pub width: u32,
    pub height: u32,
    pub layout: Option<Handle>,
    pub max_width: i32,
    pub max_height: i32,
}

/// Stores a freshly created object, or reports that its creation failed and
/// leaves the slot as it was.
fn store(slot: &mut Option<Handle>, created: Option<Handle>, failure: Failure) -> (r: Result<
    (),
    Failure,
>)
    ensures
        created.is_some() ==> *final(slot) == created && r == Ok::<(), Failure>(()),
        created.is_none() ==> *final(slot) == *old(slot) && r == Err::<(), Failure>(failure),
{
    match created {
        Some(h) => {
            *slot = Some(h);
            Ok(())
        },
        None => Err(failure),
    }
}

/// The brush to make on a render target: black. Without a render target
/// there is no brush to make.
pub open spec fn brush_plan(render_target: Option<Handle>) -> Result<BrushRequest, Failure> {
    match render_target {
        Some(t) => Ok(BrushRequest { render_target: t, color: Color::Black }),
        None => Err(Failure::RenderTarget),
    }
}

/// The brush for a render target that was just created: black, made on that
/// target. Where the target could not be created there is no brush to make.
pub fn brush_request(render_target: Option<Handle>) -> (r: Result<BrushRequest, Failure>)
    ensures
        r == brush_plan(render_target),
{
    match render_target {
        Some(t) => Ok(BrushRequest { render_target: t, color: Color::Black }),
        None => Err(Failure::RenderTarget),
    }
}

impl TextDocument {
    /// The plan for device resources on a paint: none needed when they
    /// exist, a failure when the 2D factory is missing, else a render target
    /// the size of the client area.
    pub open spec fn device_plan(&self, client: Rect) -> Result<Option<TargetRequest>, Failure> {
        if self.has_device_resources() {
            Ok(None)
        } else {
            match self.d2d1_factory {
                None => Err(Failure::NoFactory),
                Some(f) => Ok(
                    Some(
                        TargetRequest {
                            factory: f,
                            hwnd: self.hwnd,
                            width: (client.right - client.left) as u32,
                            height: (client.bottom - client.top) as u32,
                        },
                    ),
                ),
            }
        }
    }

    /// The document once a draw batch ended with the given status: a lost
    /// device drops the device resources, anything else leaves it as it was.
    pub open spec fn after_draw(self, status: DrawStatus) -> TextDocument {
        if status == DrawStatus::RecreateTarget {
            self.without_device()
        } else {
            self
        }
    }

    /// The document after teardown: nothing held, marked destroyed.
    pub open spec fn torn_down(self) -> TextDocument {
        TextDocument {
            resources: Resources { render_target: None, brush: None },
            d2d1_factory: None,
            dwrite_factory: None,
            text_format: None,
            text_layout: None,
            destroyed: true,
            ..self
        }
    }

    /// The document with newly made device resources, or unchanged where the
    /// brush could not be made.
    pub open spec fn with_device(self, render_target: Handle, brush: Option<Handle>) -> TextDocument {
        match brush {
            Some(b) => TextDocument {
                resources: Resources { render_target: Some(render_target), brush: Some(b) },
                ..self
            },
            None => self,
        }
    }

    /// Records the window the document draws into.
    pub fn attach_window(&mut self, created: Option<Handle>) -> (r: Result<(), Failure>)
        requires
            old(self).live(),
        ensures
            final(self).live(),
            created.is_some() ==> *final(self) == (TextDocument { hwnd: created, ..*old(self) })
                && r is Ok,
            created.is_none() ==> *final(self) == *old(self) && r == Err::<(), Failure>(
                Failure::Window,
            ),
    {
        store(&mut self.hwnd, created, Failure::Window)
    }

    /// Measures the display: each scale factor is the axis's pixels per inch
    /// over the standard density.
    pub fn dpi_scaling(&mut self, log_pixels_x: i32, log_pixels_y: i32)
        requires
            old(self).live(),
            log_pixels_x >= 96,
            log_pixels_y >= 96,
        ensures
            final(self).live(),
            final(self).dpi_ready(),
            *final(self) == (TextDocument {
                dpi_scale_x: (log_pixels_x / 96) as i32,
                dpi_scale_y: (log_pixels_y / 96) as i32,
                ..*old(self)
            }),
    {
        self.dpi_scale_x = dpi_scale_factor(log_pixels_x);
        self.dpi_scale_y = dpi_scale_factor(log_pixels_y);
    }

    /// Records the 2D drawing factory, or reports that it could not be made.
    pub fn accept_d2d1_factory(&mut self, created: Option<Handle>) -> (r: Result<(), Failure>)
        requires
            old(self).live(),
        ensures
            final(self).live(),
            created.is_some() ==> *final(self) == (TextDocument {
                d2d1_factory: created,
                ..*old(self)
            }) && r is Ok,
            created.is_none() ==> *final(self) == *old(self) && r == Err::<(), Failure>(
                Failure::D2d1Factory,
            ),
    {
        store(&mut self.d2d1_factory, created, Failure::D2d1Factory)
    }

    /// Records the text factory, or reports that it could not be made.
    pub fn accept_dwrite_factory(&mut self, created: Option<Handle>) -> (r: Result<(), Failure>)
        requires
            old(self).live(),
        ensures
            final(self).live(),
            created.is_some() ==> *final(self) == (TextDocument {
                dwrite_factory: created,
                ..*old(self)
            }) && r is Ok,
            created.is_none() ==> *final(self) == *old(self) && r == Err::<(), Failure>(
                Failure::DwriteFactory,
            ),
    {
        store(&mut self.dwrite_factory, created, Failure::DwriteFactory)
    }

    /// Sets the text to show, in the wide encoding, and its length in code
    /// units without the terminator.
    pub fn set_text(&mut self)
        requires
            old(self).live(),
        ensures
            final(self).live(),
            final(self).wtext@ == wide_of(DISPLAY_TEXT@),
            final(self).wtext_length as int == final(self).wtext@.len() - 1,
            final(self).resources == old(self).resources,
            final(self).hwnd == old(self).hwnd,
            final(self).d2d1_factory == old(self).d2d1_factory,
            final(self).dwrite_factory == old(self).dwrite_factory,
            final(self).text_format == old(self).text_format,
            final(self).text_layout == old(self).text_layout,
            final(self).dpi_scale_x == old(self).dpi_scale_x,
            final(self).dpi_scale_y == old(self).dpi_scale_y,
            final(self).destroyed == old(self).destroyed,
    {
        let w = encode_wide(DISPLAY_TEXT);
        proof {
            reveal_strlit("Hello World using DirectWrite!");
            assert(DISPLAY_TEXT@.len() == 30);
        }
        self.wtext_length = (w.len() - 1) as u32;
        self.wtext = w;
    }

    /// What to ask for to make the text format: the serif family at the
    /// document's size and locale, through the text factory. Fails when
    /// there is no text factory.
    pub fn text_format_request(&self) -> (r: Result<TextFormatRequest, Failure>)
        ensures
            match self.dwrite_factory {
                Some(f) => r == Ok::<TextFormatRequest, Failure>(
                    TextFormatRequest { factory: f, family: "Palatino", size: FONT_SIZE, locale: "en-us" },
                ),
                None => r == Err::<TextFormatRequest, Failure>(Failure::TextFormat),
            },
    {
        match self.dwrite_factory {
            Some(f) => Ok(
                TextFormatRequest { factory: f, family: "Palatino", size: FONT_SIZE, locale: "en-us" },
            ),
            None => Err(Failure::TextFormat),
        }
    }

    /// Records the text format, or reports that it could not be made.
    pub fn accept_text_format(&mut self, created: Option<Handle>) -> (r: Result<(), Failure>)
        requires
            old(self).live(),
        ensures
            final(self).live(),
            created.is_some() ==> *final(self) == (TextDocument {
                text_format: created,
                ..*old(self)
            }) && r is Ok,
            created.is_none() ==> *final(self) == *old(self) && r == Err::<(), Failure>(
                Failure::TextFormat,
            ),
    {
        store(&mut self.text_format, created, Failure::TextFormat)
    }

    /// What to ask for to make the text layout: the text bounded by the
    /// client area converted to device-independent units. Fails when the
    /// text factory or the text format is missing.
    pub fn text_layout_request(&self, client: Rect) -> (r: Result<TextLayoutRequest, Failure>)
        requires
            self.dpi_ready(),
        ensures
            match (self.dwrite_factory, self.text_format) {
                (Some(f), Some(t)) => r == Ok::<TextLayoutRequest, Failure>(
                    TextLayoutRequest {
                        factory: f,
                        format: t,
                        max_width: div_trunc(client.right as int, self.dpi_scale_x as int) as i32,
                        max_height: div_trunc(client.bottom as int, self.dpi_scale_y as int) as i32,
                    },
                ),
                _ => r == Err::<TextLayoutRequest, Failure>(Failure::TextLayout),
            },
    {
        match (self.dwrite_factory, self.text_format) {
            (Some(f), Some(t)) => Ok(
                TextLayoutRequest {
                    factory: f,
                    format: t,
                    max_width: to_dips(client.right, self.dpi_scale_x),
                    max_height: to_dips(client.bottom, self.dpi_scale_y),
                },
            ),
            _ => Err(Failure::TextLayout),
        }
    }

    /// Records the text layout, or reports that it could not be made.
    pub fn accept_text_layout(&mut self, created: Option<Handle>) -> (r: Result<(), Failure>)
        requires
            old(self).live(),
        ensures
            final(self).live(),
            created.is_some() ==> *final(self) == (TextDocument {
                text_layout: created,
                ..*old(self)
            }) && r is Ok,
            created.is_none() ==> *final(self) == *old(self) && r == Err::<(), Failure>(
                Failure::TextLayout,
            ),
    {
        store(&mut self.text_layout, created, Failure::TextLayout)
    }

    /// Decides what a paint needs before drawing: nothing when the device
    /// resources exist, a report when the 2D factory is missing, else a
    /// render target the size of the client area.
    pub fn set_d2d_resources(&self, client: Rect) -> (r: Result<Option<TargetRequest>, Failure>)
        requires
            self.live(),
            client.wf(),
        ensures
            r == self.device_plan(client),
    {
        if self.resources.render_target.is_some() {
            Ok(None)
        } else {
            match self.d2d1_factory {
                None => Err(Failure::NoFactory),
                Some(f) => {
                    let width: i64 = client.right as i64 - client.left as i64;
                    let height: i64 = client.bottom as i64 - client.top as i64;
                    Ok(
                        Some(
                            TargetRequest {
                                factory: f,
                                hwnd: self.hwnd,
                                width: width as u32,
                                height: height as u32,
                            },
                        ),
                    )
                },
            }
        }
    }

    /// Installs the render target and brush that were just made as a pair.
    /// Where the brush could not be made, nothing is installed and the
    /// render target comes back in `Err`, for the host to release.
    pub fn install_device_resources(&mut self, render_target: Handle, brush: Option<Handle>) -> (r:
        Result<(), Handle>)
        requires
            old(self).live(),
            old(self).dpi_ready(),
            !old(self).has_device_resources(),
        ensures
            final(self).live(),
            *final(self) == old(self).with_device(render_target, brush),
            brush.is_some() <==> r is Ok,
            brush.is_none() ==> r == Err::<(), Handle>(render_target),
    {
        match brush {
            Some(b) => {
                self.resources = Resources { render_target: Some(render_target), brush: Some(b) };
                Ok(())
            },
            None => Err(render_target),
        }
    }

    /// The draw batch of a paint: clear to white, then draw the text layout
    /// at the client area's origin, in device-independent units, with the
    /// brush.
    pub fn on_paint(&self, client: Rect) -> (r: DrawRequest)
        requires
            self.live(),
            self.has_device_resources(),
        ensures
            r.render_target == self.resources.render_target.unwrap(),
            r.brush == self.resources.brush.unwrap(),
            r.layout == self.text_layout,
            r.origin_x == div_trunc(client.left as int, self.dpi_scale_x as int),
            r.origin_y == div_trunc(client.top as int, self.dpi_scale_y as int),
            r.background == Color::White,
    {
        DrawRequest {
            render_target: self.resources.render_target.unwrap(),
            brush: self.resources.brush.unwrap(),
            layout: self.text_layout,
            origin_x: to_dips(client.left, self.dpi_scale_x),
            origin_y: to_dips(client.top, self.dpi_scale_y),
            background: Color::White,
        }
    }

    /// Reacts to the end of a draw batch: a lost device releases the device
    /// resources, so the next paint makes them again. Returns the handles to
    /// release.
    pub fn end_paint(&mut self, status: DrawStatus) -> (r: Vec<Handle>)
        requires
            old(self).live(),
        ensures
            final(self).live(),
            *final(self) == old(self).after_draw(status),
            status == DrawStatus::RecreateTarget ==> r@ == old(self).device_release_list(),
            status != DrawStatus::RecreateTarget ==> r@.len() == 0,
    {
        if status == DrawStatus::RecreateTarget {
            self.safe_release()
        } else {
            Vec::new()
        }
    }

    /// Reacts to a new client size in pixels. Without device resources there
    /// is nothing to resize. Otherwise the render target takes the new size,
    /// and the text layout, if any, the size converted to device-independent
    /// units.
    pub fn resize(&self, width: u16, height: u16) -> (r: Option<ResizeRequest>)
        requires
            self.live(),
        ensures
            !self.has_device_resources() ==> r.is_none(),
            self.has_device_resources() ==> r == Some(
                ResizeRequest {
                    render_target: self.resources.render_target.unwrap(),
                    width: width as u32,
                    height: height as u32,
                    layout: self.text_layout,
                    max_width: (width as int / self.dpi_scale_x as int) as i32,
                    max_height: (height as int / self.dpi_scale_y as int) as i32,
                },
            ),
    {
        match self.resources.render_target {
            None => None,
            Some(t) => Some(
                ResizeRequest {
                    render_target: t,
                    width: width as u32,
                    height: height as u32,
                    layout: self.text_layout,
                    max_width: to_dips(width as i32, self.dpi_scale_x),
                    max_height: to_dips(height as i32, self.dpi_scale_y),
                },
            ),
        }
    }
}

} // verus!
