//! Window options, the aspect-ratio scale of a displayed image, and handles
//! through which user code acts on a window of the owning context.
use vstd::prelude::*;

use crate::assoc::{assoc_view, has_key, keys_unique, lemma_assoc_at, lemma_assoc_empty, lemma_assoc_push, lemma_assoc_remove, lemma_assoc_update};
use crate::input::WindowId;

verus! {

/// A color with 8-bit red, green, blue and alpha channels.
#[derive(Clone, Copy, Debug, PartialEq, Eq, Structural)]
pub struct Color {
    pub red: u8,
    pub green: u8,
    pub blue: u8,
    pub alpha: u8,
}

impl Color {
    /// Opaque black.
    pub fn black() -> (r: Color)
        ensures
            r == (Color { red: 0, green: 0, blue: 0, alpha: 255 }),
    {
        Color { red: 0, green: 0, blue: 0, alpha: 255 }
    }
}

/// How a window is created and how it shows its image.
#[derive(Clone, Copy, Debug)]
pub struct WindowOptions {
    /// Preserve the aspect ratio of the image when scaling.
    pub preserve_aspect_ratio: bool,
    /// The color of the areas without image data when the aspect ratio is preserved.
    pub background_color: Color,
    /// Create the window hidden; it can be made visible later.
    pub start_hidden: bool,
    /// The initial size of the window in pixels; a window manager may ignore it.
    pub size: Option<[u32; 2]>,
    /// Allow the window to be resized; a window manager may ignore it.
    pub resizable: bool,
}

impl Default for WindowOptions {
    fn default() -> (r: Self)
        ensures
            r.preserve_aspect_ratio,
            r.background_color == (Color { red: 0, green: 0, blue: 0, alpha: 255 }),
            !r.start_hidden,
            r.size.is_none(),
            r.resizable,
    {
        WindowOptions {
            preserve_aspect_ratio: true,
            background_color: Color::black(),
            start_hidden: false,
            size: None,
            resizable: true,
        }
    }
}

impl WindowOptions {
    /// Preserve the aspect ratio of displayed images, or not.
    pub fn set_preserve_aspect_ratio(self, preserve_aspect_ratio: bool) -> (r: Self)
        ensures
            r == (WindowOptions { preserve_aspect_ratio, ..self }),
    {
        let mut r = self;
        r.preserve_aspect_ratio = preserve_aspect_ratio;
        r
    }

    /// Set the background color of the window.
    pub fn set_background_color(self, background_color: Color) -> (r: Self)
        ensures
            r == (WindowOptions { background_color, ..self }),
    {
        let mut r = self;
        r.background_color = background_color;
        r
    }

    /// Start the window hidden, or not.
    pub fn set_start_hidden(self, start_hidden: bool) -> (r: Self)
        ensures
            r == (WindowOptions { start_hidden, ..self }),
    {
        let mut r = self;
        r.start_hidden = start_hidden;
        r
    }

    /// Set the initial size of the window.
    pub fn set_size(self, size: [u32; 2]) -> (r: Self)
        ensures
            r == (WindowOptions { size: Some(size), ..self }),
    {
        let mut r = self;
        r.size = Some(size);
        r
    }

    /// Make the window resizable or not.
    pub fn set_resizable(self, resizable: bool) -> (r: Self)
        ensures
            r == (WindowOptions { resizable, ..self }),
    {
        let mut r = self;
        r.resizable = resizable;
        r
    }
}

/// The non-negative rational number `num / den`.
#[derive(Clone, Copy, Debug, PartialEq, Eq, Structural)]
pub struct Ratio {
    pub num: u64,
    pub den: u64,
}

/// The ratio one.
pub open spec fn one() -> Ratio {
    Ratio { num: 1, den: 1 }
}

/// The scale that shows an image of `image` pixels in a window of `window`
/// pixels with its aspect ratio kept.
///
/// With the width ratio `iw / ww` and the height ratio `ih / wh`, the axis
/// with the larger ratio keeps the scale one and the other axis gets the
/// smaller ratio divided by the larger one. The ratios are compared exactly,
/// as `iw * wh` against `ih * ww`.
pub open spec fn aspect_scale(image: [u32; 2], window: [u32; 2]) -> (Ratio, Ratio) {
    let iw = image[0] as int;
    let ih = image[1] as int;
    let ww = window[0] as int;
    let wh = window[1] as int;
    if iw * wh >= ih * ww {
        (one(), Ratio { num: (ih * ww) as u64, den: (iw * wh) as u64 })
    } else {
        (Ratio { num: (iw * wh) as u64, den: (ih * ww) as u64 }, one())
    }
}

/// With the aspect ratio kept and positive sizes, one axis has the scale one
/// and the other a scale of at most one: the image fits the window uncropped.
pub proof fn lemma_aspect_scale_fits(image: [u32; 2], window: [u32; 2])
    requires
        image[0] > 0,
        image[1] > 0,
        window[0] > 0,
        window[1] > 0,
    ensures
        ({
            let (sx, sy) = aspect_scale(image, window);
            (sx == one() && 0 < sy.den && sy.num <= sy.den) || (sy == one() && 0 < sx.den && sx.num < sx.den)
        }),
{
    let iw = image[0] as int;
    let ih = image[1] as int;
    let ww = window[0] as int;
    let wh = window[1] as int;
    let m = u32::MAX as int;
    assert(0 < iw * wh <= m * m) by (nonlinear_arith)
        requires 0 < iw <= m, 0 < wh <= m;
    assert(0 < ih * ww <= m * m) by (nonlinear_arith)
        requires 0 < ih <= m, 0 < ww <= m;
    assert(m * m <= u64::MAX) by (nonlinear_arith)
        requires m == 0xffff_ffff;
}

/// The scale with which the renderer draws the image of a window.
pub open spec fn scale_of(preserve_aspect_ratio: bool, image_size: Option<[u32; 2]>, window_size: [u32; 2]) -> (Ratio, Ratio) {
    if !preserve_aspect_ratio {
        (one(), one())
    } else {
        match image_size {
            Some(image) => aspect_scale(image, window_size),
            None => (one(), one()),
        }
    }
}

/// The per-window values handed to the renderer.
#[derive(Clone, Copy, Debug)]
pub struct WindowUniforms {
    /// The horizontal and vertical scale of the image.
    pub scale: [Ratio; 2],
}

impl Default for WindowUniforms {
    fn default() -> (r: Self)
        ensures
            r.scale[0] == one(),
            r.scale[1] == one(),
    {
        WindowUniforms { scale: [Ratio { num: 1, den: 1 }, Ratio { num: 1, den: 1 }] }
    }
}

/// The scale of the image of a window whose inner size is `window_size`
/// pixels and whose image, if it has one, is `image_size` pixels.
///
/// Without aspect-ratio preservation or without an image it is one on both axes.
pub fn calculate_scale(options: &WindowOptions, image_size: Option<[u32; 2]>, window_size: [u32; 2]) -> (r: [Ratio; 2])
    ensures
        (r[0], r[1]) == scale_of(options.preserve_aspect_ratio, image_size, window_size),
{
    let one = Ratio { num: 1, den: 1 };
    if !options.preserve_aspect_ratio {
        [one, one]
    } else if let Some(image) = image_size {
        let iw = image[0] as u64;
        let ih = image[1] as u64;
        let ww = window_size[0] as u64;
        let wh = window_size[1] as u64;
        assert(iw * wh <= u32::MAX as u64 * u32::MAX as u64) by (nonlinear_arith)
            requires iw <= u32::MAX, wh <= u32::MAX;
        assert(ih * ww <= u32::MAX as u64 * u32::MAX as u64) by (nonlinear_arith)
            requires ih <= u32::MAX, ww <= u32::MAX;
        let width_cross = iw * wh;
        let height_cross = ih * ww;
        if width_cross >= height_cross {
            [one, Ratio { num: height_cross, den: width_cross }]
        } else {
            [Ratio { num: width_cross, den: height_cross }, one]
        }
    } else {
        [one, one]
    }
}

/// The uniforms of a window: its scale as `calculate_scale` gives it.
pub fn calculate_uniforms(options: &WindowOptions, image_size: Option<[u32; 2]>, window_size: [u32; 2]) -> (r: WindowUniforms)
    ensures
        (r.scale[0], r.scale[1]) == scale_of(options.preserve_aspect_ratio, image_size, window_size),
{
    WindowUniforms { scale: calculate_scale(options, image_size, window_size) }
}

/// An image: its size in pixels and its pixel data.
#[derive(Clone, Debug)]
pub struct Image {
    pub width: u32,
    pub height: u32,
    pub data: Vec<u8>,
}

/// The operation was asked of a window that no longer exists.
#[derive(Clone, Copy, Debug, PartialEq, Eq, Structural)]
pub struct InvalidWindowIdError {
    pub window_id: WindowId,
}

/// What the owning context keeps of one live window.
pub struct WindowRecord<H> {
    pub visible: bool,
    /// The name and the size of the image shown, if any.
    pub image: Option<(String, [u32; 2])>,
    /// The event handlers, in the order in which they were added.
    pub handlers: Vec<H>,
}

/// The mathematical model of a `WindowRecord`.
pub struct WindowView<H> {
    pub visible: bool,
    pub image: Option<(Seq<char>, [u32; 2])>,
    pub handlers: Seq<H>,
}

impl<H> View for WindowRecord<H> {
    type V = WindowView<H>;

    open spec fn view(&self) -> WindowView<H> {
        WindowView {
            visible: self.visible,
            image: match self.image {
                Some((name, size)) => Some((name@, size)),
                None => None,
            },
            handlers: self.handlers@,
        }
    }
}

/// The result of an operation on window `window_id` of a context: `Ok` with
/// the window's model changed to `changed` if it is live in `before`, else
/// the invalid-id error with the context unchanged.
pub open spec fn window_op<H>(
    before: Map<WindowId, WindowView<H>>,
    after: Map<WindowId, WindowView<H>>,
    window_id: WindowId,
    r: Result<(), InvalidWindowIdError>,
    changed: WindowView<H>,
) -> bool {
    match r {
        Ok(()) => before.contains_key(window_id) && after == before.insert(window_id, changed),
        Err(e) => !before.contains_key(window_id) && e.window_id == window_id && after == before,
    }
}

/// The table of live windows of the owning context, through which window
/// handles act. `H` is the type of an event handler.
pub struct ContextHandle<H> {
    windows: Vec<(WindowId, WindowRecord<H>)>,
}

impl<H> ContextHandle<H> {
    /// The model of each live window.
    pub closed spec fn windows(&self) -> Map<WindowId, WindowView<H>> {
        assoc_view(self.windows@).map_values(|r: WindowRecord<H>| r@)
    }

    /// No window is listed twice.
    pub closed spec fn wf(&self) -> bool {
        keys_unique(self.windows@)
    }

    /// A context without windows.
    pub fn new() -> (r: Self)
        ensures
            r.wf(),
            r.windows() == Map::<WindowId, WindowView<H>>::empty(),
    {
        let r = ContextHandle { windows: Vec::new() };
        proof {
            lemma_assoc_empty(r.windows@);
            assert(r.windows() =~= Map::<WindowId, WindowView<H>>::empty());
        }
        r
    }

    fn find(&self, window_id: WindowId) -> (r: Option<usize>)
        ensures
            match r {
                Some(i) => i < self.windows@.len() && self.windows@[i as int].0 == window_id,
                None => !has_key(self.windows@, window_id),
            },
    {
        let mut i: usize = 0;
        while i < self.windows.len()
            invariant
                i <= self.windows@.len(),
                forall|j: int| 0 <= j < i ==> (#[trigger] self.windows@[j]).0 != window_id,
            decreases self.windows@.len() - i,
        {
            if self.windows[i].0 == window_id {
                return Some(i);
            }
            i = i + 1;
        }
        None
    }

    /// Registers a newly opened window, without image or handlers. A window
    /// already registered under `window_id` is replaced.
    pub fn add_window(&mut self, window_id: WindowId, visible: bool)
        requires
            old(self).wf(),
        ensures
            final(self).wf(),
            final(self).windows() == old(self).windows().insert(
                window_id,
                WindowView { visible, image: None, handlers: Seq::empty() },
            ),
    {
        let record = WindowRecord { visible, image: None, handlers: Vec::new() };
        let ghost before = self.windows@;
        match self.find(window_id) {
            Some(i) => {
                let _ = self.windows.remove(i);
                self.windows.insert(i, (window_id, record));
                proof {
                    assert(self.windows@ =~= before.update(i as int, (window_id, record)));
                    lemma_assoc_update(before, i as int, record);
                }
            },
            None => {
                self.windows.push((window_id, record));
                proof { lemma_assoc_push(before, window_id, record); }
            },
        }
        proof {
            assert(record@.handlers =~= Seq::<H>::empty());
            assert(self.windows() =~= old(self).windows().insert(
                window_id,
                WindowView { visible, image: None, handlers: Seq::empty() },
            ));
        }
    }

    /// The record of window `window_id`, if it is live.
    pub fn window(&self, window_id: WindowId) -> (r: Option<&WindowRecord<H>>)
        requires
            self.wf(),
        ensures
            match r {
                Some(rec) => self.windows().contains_key(window_id) && rec@ == self.windows()[window_id],
                None => !self.windows().contains_key(window_id),
            },
    {
        match self.find(window_id) {
            Some(i) => {
                proof { lemma_assoc_at(self.windows@, i as int); }
                Some(&self.windows[i].1)
            },
            None => None,
        }
    }

    /// Closes window `window_id`.
    pub fn destroy_window(&mut self, window_id: WindowId) -> (r: Result<(), InvalidWindowIdError>)
        requires
            old(self).wf(),
        ensures
            final(self).wf(),
            match r {
                Ok(()) => old(self).windows().contains_key(window_id)
                    && final(self).windows() == old(self).windows().remove(window_id),
                Err(e) => !old(self).windows().contains_key(window_id) && e.window_id == window_id
                    && final(self).windows() == old(self).windows(),
            },
    {
        let ghost before = self.windows@;
        match self.find(window_id) {
            Some(i) => {
                proof {
                    lemma_assoc_at(before, i as int);
                    lemma_assoc_remove(before, i as int);
                }
                let _ = self.windows.remove(i);
                assert(self.windows() =~= old(self).windows().remove(window_id));
                Ok(())
            },
            None => Err(InvalidWindowIdError { window_id }),
        }
    }

    /// Takes the record of window `window_id` out, for a change to be put back.
    fn take(&mut self, window_id: WindowId) -> (r: Option<(usize, WindowRecord<H>)>)
        requires
            old(self).wf(),
        ensures
            match r {
                Some((i, rec)) => old(self).windows().contains_key(window_id)
                    && rec@ == old(self).windows()[window_id]
                    && i < old(self).windows@.len()
                    && old(self).windows@[i as int].0 == window_id
                    && final(self).windows@ == old(self).windows@.remove(i as int),
                None => !old(self).windows().contains_key(window_id) && *final(self) == *old(self),
            },
    {
        match self.find(window_id) {
            Some(i) => {
                proof { lemma_assoc_at(self.windows@, i as int); }
                let (_, rec) = self.windows.remove(i);
                Some((i, rec))
            },
            None => None,
        }
    }

    /// Puts a record taken out at `i` back in its place.
    fn put_back(&mut self, i: usize, window_id: WindowId, rec: WindowRecord<H>, Ghost(full): Ghost<Seq<(WindowId, WindowRecord<H>)>>)
        requires
            keys_unique(full),
            i < full.len(),
            full[i as int].0 == window_id,
            old(self).windows@ == full.remove(i as int),
        ensures
            final(self).wf(),
            final(self).windows() == assoc_view(full).map_values(|r: WindowRecord<H>| r@).insert(window_id, rec@),
    {
        self.windows.insert(i, (window_id, rec));
        proof {
            assert(self.windows@ =~= full.update(i as int, (window_id, rec)));
            lemma_assoc_update(full, i as int, rec);
            assert(self.windows() =~= assoc_view(full).map_values(|r: WindowRecord<H>| r@).insert(window_id, rec@));
        }
    }

    /// Shows or hides window `window_id`.
    pub fn set_window_visible(&mut self, window_id: WindowId, visible: bool) -> (r: Result<(), InvalidWindowIdError>)
        requires
            old(self).wf(),
        ensures
            final(self).wf(),
            window_op(old(self).windows(), final(self).windows(), window_id, r,
                WindowView { visible, ..old(self).windows()[window_id] }),
    {
        let ghost full = self.windows@;
        match self.take(window_id) {
            Some((i, rec)) => {
                let mut rec = rec;
                rec.visible = visible;
                self.put_back(i, window_id, rec, Ghost(full));
                assert(rec@ == WindowView { visible, ..old(self).windows()[window_id] });
                Ok(())
            },
            None => Err(InvalidWindowIdError { window_id }),
        }
    }

    /// Shows `image` under `name` in window `window_id`.
    pub fn set_window_image(&mut self, window_id: WindowId, name: &str, image: &Image) -> (r: Result<(), InvalidWindowIdError>)
        requires
            old(self).wf(),
        ensures
            final(self).wf(),
            window_op(old(self).windows(), final(self).windows(), window_id, r,
                WindowView { image: Some((name@, [image.width, image.height])), ..old(self).windows()[window_id] }),
    {
        let ghost full = self.windows@;
        match self.take(window_id) {
            Some((i, rec)) => {
                let mut rec = rec;
                rec.image = Some((name.to_string(), [image.width, image.height]));
                self.put_back(i, window_id, rec, Ghost(full));
                Ok(())
            },
            None => Err(InvalidWindowIdError { window_id }),
        }
    }

    /// Appends `handler` to the event handlers of window `window_id`.
    pub fn add_window_event_handler(&mut self, window_id: WindowId, handler: H) -> (r: Result<(), InvalidWindowIdError>)
        requires
            old(self).wf(),
        ensures
            final(self).wf(),
            window_op(old(self).windows(), final(self).windows(), window_id, r,
                WindowView { handlers: old(self).windows()[window_id].handlers.push(handler), ..old(self).windows()[window_id] }),
    {
        let ghost full = self.windows@;
        match self.take(window_id) {
            Some((i, rec)) => {
                let mut rec = rec;
                rec.handlers.push(handler);
                self.put_back(i, window_id, rec, Ghost(full));
                Ok(())
            },
            None => Err(InvalidWindowIdError { window_id }),
        }
    }
}

/// A handle on one window of a context, passed to user code.
///
/// The window may be gone by the time the handle is used: every operation
/// looks the window up again and fails with `InvalidWindowIdError` if it is.
pub struct WindowHandle<'a, H> {
    pub context_handle: &'a mut ContextHandle<H>,
    pub window_id: WindowId,
}

impl<'a, H> WindowHandle<'a, H> {
    /// A handle on window `window_id` of `context_handle`.
    pub fn new(context_handle: &'a mut ContextHandle<H>, window_id: WindowId) -> (r: Self)
        ensures
            r.window_id == window_id,
            *r.context_handle == *old(context_handle),
            *final(r.context_handle) == *final(context_handle),
    {
        WindowHandle { context_handle, window_id }
    }

    /// The context as it stands now.
    pub open spec fn context(&self) -> ContextHandle<H> {
        *self.context_handle
    }

    /// The id of the window.
    pub fn id(&self) -> (r: WindowId)
        ensures
            r == self.window_id,
    {
        self.window_id
    }

    /// The context that the window belongs to.
    pub fn context_handle(&mut self) -> (r: &mut ContextHandle<H>)
        ensures
            *r == *old(self).context_handle,
            *final(r) == *final(self).context_handle,
            final(self).window_id == old(self).window_id,
            *final(final(self).context_handle) == *final(old(self).context_handle),
    {
        &mut self.context_handle
    }

    /// Closes the window; the handle is used up.
    pub fn destroy(self) -> (r: Result<(), InvalidWindowIdError>)
        requires
            self.context().wf(),
        ensures
            (*final(self.context_handle)).wf(),
            match r {
                Ok(()) => self.context().windows().contains_key(self.window_id)
                    && (*final(self.context_handle)).windows() == self.context().windows().remove(self.window_id),
                Err(e) => !self.context().windows().contains_key(self.window_id)
                    && e.window_id == self.window_id
                    && (*final(self.context_handle)).windows() == self.context().windows(),
            },
    {
        self.context_handle.destroy_window(self.window_id)
    }

    /// Shows or hides the window.
    pub fn set_visible(&mut self, visible: bool) -> (r: Result<(), InvalidWindowIdError>)
        requires
            old(self).context_handle.wf(),
        ensures
            final(self).context_handle.wf(),
            final(self).window_id == old(self).window_id,
            *final(final(self).context_handle) == *final(old(self).context_handle),
            window_op(old(self).context_handle.windows(), final(self).context_handle.windows(), old(self).window_id, r,
                WindowView { visible, ..old(self).context_handle.windows()[old(self).window_id] }),
    {
        self.context_handle.set_window_visible(self.window_id, visible)
    }

    /// Shows `image` under `name` in the window.
    pub fn set_image(&mut self, name: &str, image: &Image) -> (r: Result<(), InvalidWindowIdError>)
        requires
            old(self).context_handle.wf(),
        ensures
            final(self).context_handle.wf(),
            final(self).window_id == old(self).window_id,
            *final(final(self).context_handle) == *final(old(self).context_handle),
            window_op(old(self).context_handle.windows(), final(self).context_handle.windows(), old(self).window_id, r,
                WindowView {
                    image: Some((name@, [image.width, image.height])),
                    ..old(self).context_handle.windows()[old(self).window_id]
                }),
    {
        self.context_handle.set_window_image(self.window_id, name, image)
    }

    /// Appends `handler` to the event handlers of the window.
    pub fn add_event_handler(&mut self, handler: H) -> (r: Result<(), InvalidWindowIdError>)
        requires
            old(self).context_handle.wf(),
        ensures
            final(self).context_handle.wf(),
            final(self).window_id == old(self).window_id,
            *final(final(self).context_handle) == *final(old(self).context_handle),
            window_op(old(self).context_handle.windows(), final(self).context_handle.windows(), old(self).window_id, r,
                WindowView {
                    handlers: old(self).context_handle.windows()[old(self).window_id].handlers.push(handler),
                    ..old(self).context_handle.windows()[old(self).window_id]
                }),
    {
        self.context_handle.add_window_event_handler(self.window_id, handler)
    }

    /// Appends an already boxed `handler` to the event handlers of the window.
    pub fn add_boxed_event_handler(&mut self, handler: Box<H>) -> (r: Result<(), InvalidWindowIdError>)
        requires
            old(self).context_handle.wf(),
        ensures
            final(self).context_handle.wf(),
            final(self).window_id == old(self).window_id,
            *final(final(self).context_handle) == *final(old(self).context_handle),
            window_op(old(self).context_handle.windows(), final(self).context_handle.windows(), old(self).window_id, r,
                WindowView {
                    handlers: old(self).context_handle.windows()[old(self).window_id].handlers.push(*handler),
                    ..old(self).context_handle.windows()[old(self).window_id]
                }),
    {
        self.context_handle.add_window_event_handler(self.window_id, *handler)
    }
}

} // verus!
