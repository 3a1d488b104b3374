use show_image_core::input::WindowId;
use show_image_core::window::{
    calculate_scale, calculate_uniforms, Color, ContextHandle, Image, InvalidWindowIdError, Ratio, WindowHandle,
    WindowOptions, WindowUniforms,
};

fn as_f32(r: Ratio) -> f32 {
    r.num as f32 / r.den as f32
}

fn scale_f32(s: [Ratio; 2]) -> [f32; 2] {
    [as_f32(s[0]), as_f32(s[1])]
}

fn image(width: u32, height: u32) -> Image {
    Image { width, height, data: vec![0; (width * height * 3) as usize] }
}

#[test]
fn same_aspect_gives_unit_scale() {
    let o = WindowOptions::default().set_preserve_aspect_ratio(true);
    let s = calculate_scale(&o, Some([800, 600]), [400, 300]);
    assert_eq!(scale_f32(s), [1.0, 1.0]);
}

#[test]
fn wider_image_shrinks_vertical_scale() {
    let o = WindowOptions::default();
    let s = calculate_scale(&o, Some([800, 600]), [400, 400]);
    assert_eq!(s[0], Ratio { num: 1, den: 1 });
    assert_eq!(s[1], Ratio { num: 240000, den: 320000 });
    assert_eq!(scale_f32(s), [1.0, 0.75]);
}

#[test]
fn taller_image_shrinks_horizontal_scale() {
    let o = WindowOptions::default();
    let s = calculate_scale(&o, Some([600, 800]), [400, 400]);
    assert_eq!(scale_f32(s), [0.75, 1.0]);
    assert_eq!(s[1], Ratio { num: 1, den: 1 });
}

#[test]
fn no_preservation_gives_unit_scale() {
    let o = WindowOptions::default().set_preserve_aspect_ratio(false);
    assert_eq!(scale_f32(calculate_scale(&o, Some([800, 600]), [400, 400])), [1.0, 1.0]);
    assert_eq!(scale_f32(calculate_scale(&o, Some([1, 1000]), [1000, 1])), [1.0, 1.0]);
}

#[test]
fn no_image_gives_unit_scale() {
    let o = WindowOptions::default();
    assert_eq!(scale_f32(calculate_scale(&o, None, [400, 400])), [1.0, 1.0]);
}

#[test]
fn largest_sizes_do_not_overflow() {
    let o = WindowOptions::default();
    let s = calculate_scale(&o, Some([u32::MAX, 1]), [1, u32::MAX]);
    assert_eq!(s[0], Ratio { num: 1, den: 1 });
    assert_eq!(s[1], Ratio { num: 1, den: (u32::MAX as u64) * (u32::MAX as u64) });
}

#[test]
fn uniforms_carry_the_scale() {
    let o = WindowOptions::default();
    let u = calculate_uniforms(&o, Some([800, 600]), [400, 400]);
    assert_eq!(scale_f32(u.scale), [1.0, 0.75]);
    let d = WindowUniforms::default();
    assert_eq!(scale_f32(d.scale), [1.0, 1.0]);
}

#[test]
fn default_options() {
    let o = WindowOptions::default();
    assert!(o.preserve_aspect_ratio);
    assert_eq!(o.background_color, Color::black());
    assert_eq!(o.background_color, Color { red: 0, green: 0, blue: 0, alpha: 255 });
    assert!(!o.start_hidden);
    assert_eq!(o.size, None);
    assert!(o.resizable);
}

#[test]
fn option_setters_change_one_field() {
    let red = Color { red: 255, green: 0, blue: 0, alpha: 255 };
    let o = WindowOptions::default()
        .set_background_color(red)
        .set_start_hidden(true)
        .set_size([640, 480])
        .set_resizable(false)
        .set_preserve_aspect_ratio(false);
    assert!(!o.preserve_aspect_ratio);
    assert_eq!(o.background_color, red);
    assert!(o.start_hidden);
    assert_eq!(o.size, Some([640, 480]));
    assert!(!o.resizable);
}

#[test]
fn destroy_of_absent_window_fails_and_changes_nothing() {
    let mut ctx: ContextHandle<u32> = ContextHandle::new();
    ctx.add_window(WindowId(1), true);
    let handle = WindowHandle::new(&mut ctx, WindowId(2));
    assert_eq!(handle.destroy(), Err(InvalidWindowIdError { window_id: WindowId(2) }));
    let w = ctx.window(WindowId(1)).unwrap();
    assert!(w.visible);
    assert!(ctx.window(WindowId(2)).is_none());
}

#[test]
fn destroy_removes_window() {
    let mut ctx: ContextHandle<u32> = ContextHandle::new();
    ctx.add_window(WindowId(1), true);
    ctx.add_window(WindowId(2), false);
    let handle = WindowHandle::new(&mut ctx, WindowId(1));
    assert_eq!(handle.id(), WindowId(1));
    assert_eq!(handle.destroy(), Ok(()));
    assert!(ctx.window(WindowId(1)).is_none());
    assert!(!ctx.window(WindowId(2)).unwrap().visible);
}

#[test]
fn handle_operations_change_the_window() {
    let mut ctx: ContextHandle<u32> = ContextHandle::new();
    ctx.add_window(WindowId(3), false);
    {
        let mut handle = WindowHandle::new(&mut ctx, WindowId(3));
        assert_eq!(handle.set_visible(true), Ok(()));
        assert_eq!(handle.set_image("photo", &image(4, 2)), Ok(()));
        assert_eq!(handle.add_event_handler(10), Ok(()));
        assert_eq!(handle.add_boxed_event_handler(Box::new(20)), Ok(()));
    }
    let w = ctx.window(WindowId(3)).unwrap();
    assert!(w.visible);
    let (name, size) = w.image.as_ref().unwrap();
    assert_eq!(name.as_str(), "photo");
    assert_eq!(*size, [4, 2]);
    assert_eq!(w.handlers, vec![10, 20]);
}

#[test]
fn handle_operations_on_destroyed_window_fail() {
    let mut ctx: ContextHandle<u32> = ContextHandle::new();
    ctx.add_window(WindowId(3), true);
    assert_eq!(ctx.destroy_window(WindowId(3)), Ok(()));
    let mut handle = WindowHandle::new(&mut ctx, WindowId(3));
    let err = Err(InvalidWindowIdError { window_id: WindowId(3) });
    assert_eq!(handle.set_visible(false), err);
    assert_eq!(handle.set_image("x", &image(1, 1)), err);
    assert_eq!(handle.add_event_handler(1), err);
    assert_eq!(handle.add_boxed_event_handler(Box::new(2)), err);
    assert!(handle.context_handle().window(WindowId(3)).is_none());
}

#[test]
fn context_handle_reaches_other_windows() {
    let mut ctx: ContextHandle<u32> = ContextHandle::new();
    ctx.add_window(WindowId(1), true);
    ctx.add_window(WindowId(2), true);
    {
        let mut handle = WindowHandle::new(&mut ctx, WindowId(1));
        assert_eq!(handle.context_handle().set_window_visible(WindowId(2), false), Ok(()));
        assert_eq!(handle.destroy(), Ok(()));
    }
    assert!(!ctx.window(WindowId(2)).unwrap().visible);
    assert!(ctx.window(WindowId(1)).is_none());
}

#[test]
fn adding_a_window_again_resets_it() {
    let mut ctx: ContextHandle<u32> = ContextHandle::new();
    ctx.add_window(WindowId(1), true);
    assert_eq!(ctx.add_window_event_handler(WindowId(1), 5), Ok(()));
    ctx.add_window(WindowId(1), false);
    let w = ctx.window(WindowId(1)).unwrap();
    assert!(!w.visible);
    assert!(w.handlers.is_empty());
    assert!(w.image.is_none());
}
