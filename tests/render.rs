use resvg::tiny_skia::{Pixmap, Transform};
use resvg::usvg;
use resvg_wasm::context::Context;
use resvg_wasm::message::Failure;

/// Runs both render steps the way the host boundary does, with the pixel
/// size taken as the ceiling of the intrinsic size times the scale.
fn render(ctx: &mut Context, markup: &[u8], scale: f64) -> i32 {
    let tree = match ctx.render_parse(markup) {
        Some(tree) => tree,
        None => return -1,
    };
    let size = tree.size();
    let width = (size.width() as f64 * scale).ceil() as u32;
    let height = (size.height() as f64 * scale).ceil() as u32;
    let transform = Transform::from_scale(scale as f32, scale as f32);
    ctx.render_raster(tree, width, height, transform)
}

fn error_text(ctx: &Context) -> String {
    String::from_utf8(ctx.error().to_vec()).unwrap()
}

fn decoded_size(ctx: &Context) -> (u32, u32) {
    let pixmap = Pixmap::decode_png(ctx.result()).unwrap();
    (pixmap.width(), pixmap.height())
}

const INVALID: &[u8] = &[0x66, 0x6f, 0xff, 0xfe];

#[test]
fn two_by_two_at_double_scale_is_four_by_four() {
    let mut ctx = Context::new();
    ctx.font_db_init();
    assert_eq!(render(&mut ctx, b"<svg width='2' height='2'/>", 2.0), 0);
    assert_eq!(decoded_size(&ctx), (4, 4));
    assert_eq!(ctx.error_len(), 0);
}

#[test]
fn zero_width_markup_fails() {
    let mut ctx = Context::new();
    ctx.font_db_init();
    assert_eq!(render(&mut ctx, b"<svg width='0' height='5'/>", 1.0), -1);
    assert_eq!(ctx.result_len(), 0);
    assert_eq!(error_text(&ctx), "SVG parse error: SVG has an invalid size");
    assert!(!ctx.is_rendering());
}

#[test]
fn zero_scale_gives_empty_output() {
    let mut ctx = Context::new();
    ctx.font_db_init();
    assert_eq!(render(&mut ctx, b"<svg width='2' height='2'/>", 0.0), -1);
    assert_eq!(error_text(&ctx), "SVG has zero dimensions");
    assert_eq!(ctx.result_len(), 0);
    assert!(!ctx.is_rendering());
}

#[test]
fn zero_height_raster_gives_empty_output() {
    let mut ctx = Context::new();
    ctx.font_db_init();
    let tree = ctx.render_parse(b"<svg width='3' height='3'/>").unwrap();
    assert_eq!(ctx.render_raster(tree, 3, 0, Transform::identity()), -1);
    assert_eq!(error_text(&ctx), "SVG has zero dimensions");
    assert_eq!(ctx.result_len(), 0);
}

#[test]
fn fractional_sizes_round_up() {
    let mut ctx = Context::new();
    ctx.font_db_init();
    let markup = b"<svg xmlns='http://www.w3.org/2000/svg' width='3' height='5'><rect width='3' height='5' fill='red'/></svg>";
    assert_eq!(render(&mut ctx, markup, 1.5), 0);
    assert_eq!(decoded_size(&ctx), (5, 8));
    let png = ctx.result();
    assert_eq!(&png[0..8], &[137, 80, 78, 71, 13, 10, 26, 10]);
    assert_eq!(&png[12..16], b"IHDR");
    assert_eq!(&png[16..24], &[0, 0, 0, 5, 0, 0, 0, 8]);
}

#[test]
fn render_before_init_fails() {
    let mut ctx = Context::new();
    assert_eq!(render(&mut ctx, b"<svg width='2' height='2'/>", 1.0), -1);
    assert_eq!(error_text(&ctx), "font_db not initialized");
    assert_eq!(ctx.result_len(), 0);
    assert_eq!(render(&mut ctx, b"not markup at all", 1.0), -1);
    assert_eq!(error_text(&ctx), "font_db not initialized");
    assert_eq!(render(&mut ctx, INVALID, 1.0), -1);
}

#[test]
fn non_text_markup_is_refused() {
    let mut ctx = Context::new();
    ctx.font_db_init();
    assert_eq!(render(&mut ctx, b"<svg width='1' height='1'/>", 1.0), 0);
    assert_eq!(render(&mut ctx, INVALID, 1.0), -1);
    assert!(error_text(&ctx).starts_with("invalid UTF-8: "));
    assert!(error_text(&ctx).len() > "invalid UTF-8: ".len());
    assert_eq!(ctx.result_len(), 0);
    assert!(!ctx.is_rendering());
}

#[test]
fn non_text_family_names_are_refused() {
    let mut ctx = Context::new();
    ctx.font_db_init();
    assert_eq!(render(&mut ctx, b"<svg width='1' height='1'/>", 3.0), 0);
    let before = ctx.result().to_vec();
    assert_eq!(ctx.font_db_set_sans_serif(INVALID), -1);
    assert!(error_text(&ctx).starts_with("invalid UTF-8: "));
    assert_eq!(ctx.font_db_set_monospace(INVALID), -1);
    assert!(error_text(&ctx).starts_with("invalid UTF-8: "));
    assert_eq!(ctx.result(), &before[..]);
}

#[test]
fn registry_needs_init() {
    let mut ctx = Context::new();
    assert_eq!(ctx.font_db_set_sans_serif(b"DejaVu Sans"), -1);
    assert_eq!(error_text(&ctx), "font_db not initialized");
    assert_eq!(ctx.font_db_set_monospace(b"DejaVu Sans Mono"), -1);
    assert_eq!(ctx.font_db_add(&[0, 1, 0, 0]), -1);
    assert_eq!(error_text(&ctx), "font_db not initialized");
}

#[test]
fn registry_changes_after_init() {
    let mut ctx = Context::new();
    ctx.font_db_init();
    assert_eq!(ctx.font_db_set_sans_serif(b"DejaVu Sans"), 0);
    assert_eq!(ctx.font_db_set_monospace(b"DejaVu Sans Mono"), 0);
    assert_eq!(ctx.font_db_add(&[0, 1, 0, 0, 0, 0]), 0);
    assert_eq!(ctx.error_len(), 0);
}

#[test]
fn reinit_starts_over() {
    let mut ctx = Context::new();
    ctx.font_db_init();
    assert_eq!(ctx.font_db_set_sans_serif(b"Nothing Like It"), 0);
    assert_eq!(ctx.font_db_add(b"not a font"), 0);
    ctx.font_db_init();
    assert_eq!(render(&mut ctx, b"<svg width='2' height='3'/>", 1.0), 0);
    assert_eq!(decoded_size(&ctx), (2, 3));
}

#[test]
fn lent_registry_refuses_changes() {
    let mut ctx = Context::new();
    ctx.font_db_init();
    let tree = ctx.render_parse(b"<svg width='2' height='2'/>").unwrap();
    assert!(ctx.is_rendering());
    assert_eq!(ctx.font_db_add(&[1, 2, 3]), -1);
    assert_eq!(error_text(&ctx), "font_db is in use by a render");
    assert_eq!(ctx.font_db_set_sans_serif(b"Arial"), -1);
    assert_eq!(ctx.font_db_set_monospace(b"Courier"), -1);
    assert!(ctx.render_parse(b"<svg width='2' height='2'/>").is_none());
    assert_eq!(error_text(&ctx), "font_db is in use by a render");
    assert_eq!(ctx.render_raster(tree, 2, 2, Transform::identity()), 0);
    assert!(!ctx.is_rendering());
    assert_eq!(ctx.font_db_add(&[1, 2, 3]), 0);
}

#[test]
fn oversized_surface_is_refused() {
    let mut ctx = Context::new();
    ctx.font_db_init();
    let tree = ctx.render_parse(b"<svg width='2' height='2'/>").unwrap();
    assert_eq!(ctx.render_raster(tree, 0x2000_0000, 1, Transform::identity()), -1);
    assert_eq!(error_text(&ctx), "failed to create pixmap");
    assert_eq!(ctx.result_len(), 0);
    assert!(!ctx.is_rendering());
}

#[test]
fn parse_errors_carry_the_parser_text() {
    let mut ctx = Context::new();
    assert!(ctx.accept_parsed(Err(usvg::Error::InvalidSize.to_string())).is_none());
    assert_eq!(error_text(&ctx), "SVG parse error: SVG has an invalid size");
    ctx.font_db_init();
    assert_eq!(render(&mut ctx, b"<svg", 1.0), -1);
    assert!(error_text(&ctx).starts_with("SVG parse error: SVG data parsing failed cause "));
}

#[test]
fn encoder_outcomes_are_stored() {
    let mut ctx = Context::new();
    assert_eq!(ctx.store_encoded(Err("no room".to_string())), -1);
    assert_eq!(error_text(&ctx), "PNG encode error: no room");
    assert_eq!(ctx.result_len(), 0);
    assert_eq!(ctx.store_encoded(Ok(vec![1, 2, 3])), 0);
    assert_eq!(ctx.result(), &[1, 2, 3]);
}

#[test]
fn messages_join_heading_and_detail() {
    assert_eq!(Failure::InvalidEncoding.message("bad byte"), b"invalid UTF-8: bad byte".to_vec());
    assert_eq!(Failure::EmptyOutput.plain_message(), b"SVG has zero dimensions".to_vec());
    assert_eq!(Failure::Busy.heading(), "font_db is in use by a render");
    assert!(Failure::Encoding.has_detail_exec());
    assert!(!Failure::NotInitialized.has_detail_exec());
}

#[test]
fn fresh_context_is_empty() {
    let ctx = Context::new();
    assert_eq!(ctx.result_len(), 0);
    assert_eq!(ctx.error_len(), 0);
    assert!(!ctx.is_rendering());
}

#[test]
fn surface_past_memory_is_refused() {
    let mut ctx = Context::new();
    ctx.font_db_init();
    let tree = ctx.render_parse(b"<svg width='2' height='2'/>").unwrap();
    assert_eq!(ctx.render_raster(tree, u32::MAX, u32::MAX, Transform::identity()), -1);
    assert_eq!(error_text(&ctx), "failed to create pixmap");
    assert_eq!(ctx.result_len(), 0);
}

#[test]
fn rasterized_shapes_reach_the_image() {
    let mut ctx = Context::new();
    ctx.font_db_init();
    let markup = b"<svg xmlns='http://www.w3.org/2000/svg' width='4' height='4'><rect width='4' height='4' fill='#ff0000'/></svg>";
    assert_eq!(render(&mut ctx, markup, 1.0), 0);
    let pixmap = Pixmap::decode_png(ctx.result()).unwrap();
    let pixel = pixmap.pixel(1, 1).unwrap();
    assert_eq!((pixel.red(), pixel.green(), pixel.blue(), pixel.alpha()), (255, 0, 0, 255));
    assert_eq!(render(&mut ctx, b"<svg width='4' height='4'/>", 1.0), 0);
    let blank = Pixmap::decode_png(ctx.result()).unwrap();
    assert_eq!(blank.pixel(1, 1).unwrap().alpha(), 0);
}

#[test]
fn each_render_clears_the_channels() {
    let mut ctx = Context::new();
    ctx.font_db_init();
    assert_eq!(render(&mut ctx, b"<svg", 1.0), -1);
    assert!(ctx.error_len() > 0);
    assert_eq!(render(&mut ctx, b"<svg width='1' height='2'/>", 2.0), 0);
    assert_eq!(ctx.error_len(), 0);
    assert_eq!(decoded_size(&ctx), (2, 4));
    assert_eq!(render(&mut ctx, b"<svg width='1' height='2'/>", 0.0), -1);
    assert_eq!(ctx.result_len(), 0);
}
