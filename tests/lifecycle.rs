use dwrite_text::document::{
    brush_request, BrushRequest, Color, DrawStatus, Failure, Rect, TargetRequest, TextDocument,
    TextLayoutRequest,
};
use dwrite_text::dpi::{dpi_scale_factor, to_dips};
use dwrite_text::window::{reaction, Reaction, WindowMessage};
use dwrite_text::wide::{encode_wide, ToWide};

fn client(width: i32, height: i32) -> Rect {
    Rect { left: 0, top: 0, right: width, bottom: height }
}

/// A document with a window, both factories, format and layout, at the given DPI.
fn ready_document(log_pixels: i32) -> TextDocument {
    let mut doc = TextDocument::initialized();
    doc.attach_window(Some(10)).unwrap();
    doc.dpi_scaling(log_pixels, log_pixels);
    doc.accept_d2d1_factory(Some(20)).unwrap();
    doc.accept_dwrite_factory(Some(30)).unwrap();
    doc.set_text();
    doc.accept_text_format(Some(40)).unwrap();
    doc.accept_text_layout(Some(50)).unwrap();
    doc
}

/// The document after a successful first paint's resource creation.
fn painted_document(log_pixels: i32) -> TextDocument {
    let mut doc = ready_document(log_pixels);
    doc.install_device_resources(60, Some(70)).unwrap();
    doc
}

#[test]
fn dpi_conversion_at_scale_one() {
    assert_eq!(to_dips(600, 1), 600);
    assert_eq!(to_dips(400, 1), 400);
    let doc = ready_document(96);
    let req = doc.text_layout_request(client(600, 400)).unwrap();
    assert_eq!(req.max_width, 600);
    assert_eq!(req.max_height, 400);
}

#[test]
fn dpi_conversion_at_scale_two() {
    assert_eq!(to_dips(600, 2), 300);
    assert_eq!(to_dips(400, 2), 200);
    let doc = ready_document(192);
    assert_eq!(doc.dpi_scale_x(), 2);
    assert_eq!(doc.dpi_scale_y(), 2);
    let req = doc.text_layout_request(client(600, 400)).unwrap();
    assert_eq!(req, TextLayoutRequest { factory: 30, format: 40, max_width: 300, max_height: 200 });
    let doc = painted_document(192);
    let resize = doc.resize(600, 400).unwrap();
    assert_eq!(resize.width, 600);
    assert_eq!(resize.height, 400);
    assert_eq!(resize.max_width, 300);
    assert_eq!(resize.max_height, 200);
    assert_eq!(resize.layout, Some(50));
}

#[test]
fn division_rounds_toward_zero() {
    assert_eq!(dpi_scale_factor(96), 1);
    assert_eq!(dpi_scale_factor(144), 1);
    assert_eq!(dpi_scale_factor(191), 1);
    assert_eq!(dpi_scale_factor(192), 2);
    assert_eq!(to_dips(7, 2), 3);
    assert_eq!(to_dips(-7, 2), -3);
    assert_eq!(to_dips(i32::MIN, 1), i32::MIN);
}

#[test]
fn release_twice_is_release_once() {
    let mut doc = painted_document(96);
    assert_eq!(doc.safe_release(), vec![70, 60]);
    assert!(doc.resources.render_target.is_none());
    assert!(doc.resources.brush.is_none());
    assert_eq!(doc.safe_release(), Vec::<usize>::new());
    assert!(doc.resources.render_target.is_none());
    assert!(doc.resources.brush.is_none());
    assert_eq!(doc.d2d1_factory, Some(20));
    assert_eq!(doc.text_layout, Some(50));
}

#[test]
fn render_target_failure_makes_no_brush() {
    assert_eq!(brush_request(None), Err(Failure::RenderTarget));
    assert_eq!(
        brush_request(Some(60)),
        Ok(BrushRequest { render_target: 60, color: Color::Black })
    );
}

#[test]
fn brush_failure_installs_nothing() {
    let mut doc = ready_document(96);
    assert_eq!(doc.install_device_resources(60, None), Err(60));
    assert!(doc.resources.render_target.is_none());
    assert!(doc.resources.brush.is_none());
    assert_eq!(doc.install_device_resources(61, Some(71)), Ok(()));
    assert_eq!(doc.resources.render_target, Some(61));
    assert_eq!(doc.resources.brush, Some(71));
}

#[test]
fn first_paint_asks_for_target_of_client_size() {
    let doc = ready_document(96);
    let plan = doc.set_d2d_resources(client(600, 400));
    assert_eq!(
        plan,
        Ok(Some(TargetRequest { factory: 20, hwnd: Some(10), width: 600, height: 400 }))
    );
    let doc = painted_document(96);
    assert_eq!(doc.set_d2d_resources(client(600, 400)), Ok(None));
}

#[test]
fn paint_without_factory_reports() {
    let doc = TextDocument::initialized();
    assert_eq!(doc.set_d2d_resources(client(600, 400)), Err(Failure::NoFactory));
}

#[test]
fn draw_batch_clears_white_and_draws_layout() {
    let doc = painted_document(96);
    let draw = doc.on_paint(client(600, 400));
    assert_eq!(draw.render_target, 60);
    assert_eq!(draw.brush, 70);
    assert_eq!(draw.layout, Some(50));
    assert_eq!(draw.origin_x, 0);
    assert_eq!(draw.origin_y, 0);
    assert_eq!(draw.background, Color::White);
}

#[test]
fn device_loss_recreates_on_next_paint() {
    let mut doc = painted_document(96);
    assert_eq!(doc.end_paint(DrawStatus::RecreateTarget), vec![70, 60]);
    assert!(doc.resources.render_target.is_none());
    assert_eq!(
        doc.set_d2d_resources(client(800, 500)),
        Ok(Some(TargetRequest { factory: 20, hwnd: Some(10), width: 800, height: 500 }))
    );
    assert_eq!(doc.text_layout, Some(50));
}

#[test]
fn successful_draw_keeps_resources() {
    let mut doc = painted_document(96);
    assert!(doc.end_paint(DrawStatus::Done).is_empty());
    assert!(doc.end_paint(DrawStatus::Failed).is_empty());
    assert_eq!(doc.resources.render_target, Some(60));
    assert_eq!(doc.resources.brush, Some(70));
}

#[test]
fn resize_before_paint_is_noop() {
    let doc = ready_document(96);
    assert_eq!(doc.resize(600, 400), None);
    assert!(doc.resources.render_target.is_none());
    let fresh = TextDocument::initialized();
    assert_eq!(fresh.resize(600, 400), None);
}

#[test]
fn destroy_releases_device_first() {
    let mut doc = painted_document(96);
    assert_eq!(doc.release_resources(), vec![70, 60, 20, 30, 40, 50]);
    assert!(doc.is_destroyed());
    assert!(doc.resources.render_target.is_none());
    assert!(doc.d2d1_factory.is_none());
    assert!(doc.dwrite_factory.is_none());
    assert!(doc.text_format.is_none());
    assert!(doc.text_layout.is_none());
}

#[test]
fn destroy_releases_each_present_object() {
    let mut doc = TextDocument::initialized();
    doc.accept_text_format(Some(40)).unwrap();
    assert_eq!(doc.release_resources(), vec![40]);
    assert!(doc.is_destroyed());
}

#[test]
fn creation_failures_are_reported() {
    let mut doc = TextDocument::initialized();
    assert_eq!(doc.attach_window(None), Err(Failure::Window));
    assert_eq!(doc.accept_d2d1_factory(None), Err(Failure::D2d1Factory));
    assert_eq!(doc.accept_dwrite_factory(None), Err(Failure::DwriteFactory));
    assert_eq!(doc.text_format_request(), Err(Failure::TextFormat));
    assert_eq!(doc.accept_text_format(None), Err(Failure::TextFormat));
    doc.dpi_scaling(96, 96);
    assert_eq!(doc.text_layout_request(client(600, 400)), Err(Failure::TextLayout));
    assert_eq!(doc.accept_text_layout(None), Err(Failure::TextLayout));
    assert_eq!(doc.hwnd, None);
    assert_eq!(doc.d2d1_factory, None);
    assert_eq!(doc.text_layout, None);
}

#[test]
fn text_format_uses_fixed_font() {
    let doc = ready_document(96);
    let req = doc.text_format_request().unwrap();
    assert_eq!(req.factory, 30);
    assert_eq!(req.family, "Palatino");
    assert_eq!(req.size, 14);
    assert_eq!(req.locale, "en-us");
}

#[test]
fn text_is_wide_with_terminator() {
    let doc = ready_document(96);
    assert_eq!(doc.wtext_length, 30);
    assert_eq!(doc.wtext.len(), 31);
    assert_eq!(doc.wtext[0], 'H' as u16);
    assert_eq!(doc.wtext[30], 0);
    let expected: Vec<u16> = "Hello World using DirectWrite!".encode_utf16().chain(Some(0)).collect();
    assert_eq!(doc.wtext, expected);
}

#[test]
fn wide_encoding() {
    assert_eq!(encode_wide(""), vec![0]);
    assert_eq!(encode_wide("ab"), vec![97, 98, 0]);
    assert_eq!(encode_wide("é"), vec![0xE9, 0]);
    assert_eq!(encode_wide("\u{1F600}"), vec![0xD83D, 0xDE00, 0]);
    assert_eq!(encode_wide("a\u{10000}\u{10FFFF}"), vec![97, 0xD800, 0xDC00, 0xDBFF, 0xDFFF, 0]);
    assert_eq!("TextArea".to_wide(), vec![84, 101, 120, 116, 65, 114, 101, 97, 0]);
    assert_eq!(String::from("Hi\u{1F600}").to_wide(), vec![72, 105, 0xD83D, 0xDE00, 0]);
}

#[test]
fn dispatch_table() {
    let handled = Reaction { result: Some(0), post_quit: false, unregister_class: false };
    assert_eq!(reaction(WindowMessage::Paint), handled);
    assert_eq!(reaction(WindowMessage::Size { width: 10, height: 20 }), handled);
    assert_eq!(
        reaction(WindowMessage::Destroy),
        Reaction { result: Some(1), post_quit: true, unregister_class: false }
    );
    assert_eq!(
        reaction(WindowMessage::NcDestroy),
        Reaction { result: Some(0), post_quit: false, unregister_class: true }
    );
    assert_eq!(
        reaction(WindowMessage::Other),
        Reaction { result: None, post_quit: false, unregister_class: false }
    );
}
