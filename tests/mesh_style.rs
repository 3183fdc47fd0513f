use plotters_mesh::mesh::{
    DrawPass, DrawPhase, LabelAreaPosition, MeshError, MeshLine, MeshStyle, SecondaryMeshStyle,
    DEFAULT_LABEL_COUNT, DEFAULT_TICK_SIZE,
};
use plotters_mesh::style::{RGBAColor, ShapeStyle, SizeDesc, TextStyleDesc};

fn fmt_x(v: &i32) -> String {
    format!("x={}", v)
}

fn fmt_y(v: &u32) -> String {
    format!("y={}", v)
}

type Style = MeshStyle<u8, fn(&i32) -> String, fn(&u32) -> String>;

fn style() -> Style {
    MeshStyle::new((800, 600), 1u8, fmt_x as fn(&i32) -> String, fmt_y as fn(&u32) -> String)
}

#[test]
fn default_configuration_shows_everything() {
    let s = style();
    assert!(s.draw_x_mesh && s.draw_y_mesh && s.draw_x_axis && s.draw_y_axis);
    assert_eq!(s.n_x_labels, DEFAULT_LABEL_COUNT);
    assert_eq!(s.n_y_labels, 10);
    assert_eq!(s.x_tick_size, [DEFAULT_TICK_SIZE, DEFAULT_TICK_SIZE]);
    assert_eq!(s.y_tick_size, [0, 0]);
    assert_eq!(s.target, Some(1u8));
    assert!(s.label_style.is_none() && s.axis_desc_style.is_none());
}

#[test]
fn secondary_hides_grid_lines() {
    let s = SecondaryMeshStyle::new((800, 600), 2u8, fmt_x as fn(&i32) -> String, fmt_y as fn(&u32) -> String);
    let m = s.mesh();
    assert!(!m.draw_x_mesh && !m.draw_y_mesh);
    assert!(m.draw_x_axis && m.draw_y_axis);
    assert_eq!(m.n_x_labels, 10);
}

#[test]
fn tick_mark_size_per_edge() {
    let mut s = style();
    s.set_tick_mark_size(LabelAreaPosition::Top, SizeDesc::Pixels(5));
    assert_eq!(s.x_tick_size, [5, 0]);
    assert_eq!(s.y_tick_size, [0, 0]);
    s.set_tick_mark_size(LabelAreaPosition::Bottom, SizeDesc::Pixels(6));
    assert_eq!(s.x_tick_size, [5, 6]);
    s.set_tick_mark_size(LabelAreaPosition::Left, SizeDesc::Pixels(7));
    assert_eq!(s.y_tick_size, [7, 0]);
    s.set_tick_mark_size(LabelAreaPosition::Right, SizeDesc::Percent(2));
    assert_eq!(s.y_tick_size, [7, 12]);
    assert_eq!(s.x_tick_size, [5, 6]);
}

#[test]
fn all_tick_mark_sizes_at_once() {
    let mut s = style();
    s.set_tick_mark_size(LabelAreaPosition::Top, SizeDesc::Pixels(5));
    s.set_all_tick_mark_size(SizeDesc::Percent(-1));
    assert_eq!(s.x_tick_size, [-6, -6]);
    assert_eq!(s.y_tick_size, [-6, -6]);
}

#[test]
fn relative_sizes_use_the_smaller_side() {
    assert_eq!(SizeDesc::Percent(50).in_pixels((800, 600)), 300);
    assert_eq!(SizeDesc::Percent(33).in_pixels((10, 10)), 3);
    assert_eq!(SizeDesc::Percent(-33).in_pixels((10, 10)), -3);
    assert_eq!(SizeDesc::Pixels(-4).in_pixels((10, 10)), -4);
    assert_eq!(SizeDesc::Percent(i32::MAX).in_pixels((u32::MAX, u32::MAX)), i32::MAX);
    assert_eq!(SizeDesc::Percent(i32::MIN).in_pixels((u32::MAX, u32::MAX)), i32::MIN);
}

#[test]
fn chained_setters_apply_in_order() {
    let mut s = style();
    s.x_labels(3).y_labels(4).x_label_offset(SizeDesc::Pixels(-2)).y_label_offset(SizeDesc::Percent(1))
        .disable_x_mesh().disable_y_axis().x_labels(5);
    assert_eq!((s.n_x_labels, s.n_y_labels), (5, 4));
    assert_eq!((s.x_label_offset, s.y_label_offset), (-2, 6));
    assert!(!s.draw_x_mesh && s.draw_y_mesh && s.draw_x_axis && !s.draw_y_axis);
}

#[test]
fn draw_issues_coarse_then_fine() {
    let mut s = style();
    s.x_labels(3).y_labels(7);
    let mut d = s.draw().unwrap();
    assert_eq!(d.target, 1u8);
    assert_eq!(d.phase, DrawPhase::Coarse);
    let first = d.pending().unwrap();
    assert_eq!(first.pass, DrawPass::Coarse);
    assert_eq!(first.label_density, (70, 30));
    assert!(!first.draw_x_axis && !first.draw_y_axis);
    assert_eq!(d.complete::<String>(Ok(())), None);
    let second = d.pending().unwrap();
    assert_eq!(second.pass, DrawPass::Fine);
    assert_eq!(second.label_density, (7, 3));
    assert!(second.draw_x_axis && second.draw_y_axis);
    assert_eq!(d.complete::<String>(Ok(())), Some(Ok(())));
    assert!(d.pending().is_none());
}

#[test]
fn fine_pass_failure_is_the_result() {
    let mut s = style();
    let mut d = s.draw().unwrap();
    assert_eq!(d.complete::<&str>(Ok(())), None);
    assert_eq!(d.complete(Err("backend")), Some(Err("backend")));
    assert_eq!(d.phase, DrawPhase::Finished);
}

#[test]
fn label_density_saturates() {
    let mut s = style();
    s.x_labels(usize::MAX).y_labels(usize::MAX / 10 + 1);
    let req = s.coarse_request();
    assert_eq!(req.label_density, (usize::MAX, usize::MAX));
    s.y_labels(0);
    assert_eq!(s.coarse_request().label_density, (0, usize::MAX));
}

#[test]
fn coarse_labels_are_empty() {
    let s = style();
    assert_eq!(s.label(DrawPass::Coarse, &MeshLine::<i32, u32>::XMesh((0, 0), (0, 10), 5)), None);
    assert_eq!(s.label(DrawPass::Coarse, &MeshLine::<i32, u32>::YMesh((0, 0), (10, 0), 6)), None);
}

#[test]
fn fine_labels_use_the_formatters() {
    let s = style();
    assert_eq!(
        s.label(DrawPass::Fine, &MeshLine::<i32, u32>::XMesh((0, 0), (0, 10), -5)),
        Some("x=-5".to_string())
    );
    assert_eq!(
        s.label(DrawPass::Fine, &MeshLine::<i32, u32>::YMesh((0, 0), (10, 0), 6)),
        Some("y=6".to_string())
    );
}

#[test]
fn replaced_formatter_is_used() {
    fn bracket(v: &i32) -> String {
        format!("[{}]", v)
    }
    let mut s = style();
    s.x_label_formatter(bracket);
    assert_eq!(
        s.label(DrawPass::Fine, &MeshLine::<i32, u32>::XMesh((0, 0), (0, 10), 9)),
        Some("[9]".to_string())
    );
}

#[test]
fn coarse_failure_stops_the_draw() {
    let mut s = style();
    let mut d = s.draw().unwrap();
    let mut calls = 0;
    let mut result = None;
    while let Some(_req) = d.pending() {
        calls += 1;
        if let Some(r) = d.complete::<&str>(Err("no surface")) {
            result = Some(r);
        }
    }
    assert_eq!(calls, 1);
    assert_eq!(result, Some(Err("no surface")));
}

#[test]
fn descriptions_only_in_fine_pass() {
    let mut s = style();
    s.x_desc("Time".to_string());
    let d = s.draw().unwrap();
    assert_eq!(d.fine.x_desc, Some("Time".to_string()));
    assert_eq!(d.fine.y_desc, None);
    assert_eq!(d.coarse.x_desc, None);
    assert_eq!(d.coarse.y_desc, None);
}

#[test]
fn description_style_defaults_to_label_style() {
    let s = style();
    let fine = s.fine_request();
    assert_eq!(fine.axis_desc_style, fine.label_style);
    assert_eq!(fine.label_style.font.family, "Arial");
    assert_eq!(fine.label_style.font.size, 72);
    assert_eq!(fine.label_style.color, RGBAColor { r: 0, g: 0, b: 0, opacity: 100 });
}

#[test]
fn default_font_size_has_a_floor() {
    let s: Style = MeshStyle::new((50, 40), 1u8, fmt_x as fn(&i32) -> String, fmt_y as fn(&u32) -> String);
    assert_eq!(s.coarse_request().label_style.font.size, 12);
}

#[test]
fn configured_styles_are_used() {
    let mut s = style();
    let desc = TextStyleDesc { family: "serif".to_string(), size: SizeDesc::Percent(5), color: RGBAColor { r: 1, g: 2, b: 3, opacity: 50 } };
    let red = ShapeStyle { color: RGBAColor { r: 255, g: 0, b: 0, opacity: 100 }, filled: true, stroke_width: 2 };
    s.label_style(desc.clone()).axis_style(red).line_style_1(red);
    let fine = s.fine_request();
    assert_eq!(fine.label_style.font.family, "serif");
    assert_eq!(fine.label_style.font.size, 30);
    assert_eq!(fine.axis_desc_style, fine.label_style);
    assert_eq!(fine.axis_style, red);
    assert_eq!(fine.line_style, red);
    let big = TextStyleDesc { size: SizeDesc::Pixels(40), ..desc };
    s.axis_desc_style(big);
    assert_eq!(s.fine_request().axis_desc_style.font.size, 40);
    assert_eq!(s.fine_request().label_style.font.size, 30);
}

#[test]
fn default_grid_styles() {
    let s = style();
    let d_coarse = s.coarse_request();
    let d_fine = s.fine_request();
    assert_eq!(d_coarse.line_style, ShapeStyle::from_color(RGBAColor::black(10)));
    assert_eq!(d_fine.line_style, ShapeStyle::from_color(RGBAColor::black(20)));
    assert_eq!(d_fine.axis_style, ShapeStyle { color: RGBAColor::black(100), filled: false, stroke_width: 1 });
    let mut s2 = style();
    let blue = ShapeStyle::from_color(RGBAColor { r: 0, g: 0, b: 255, opacity: 100 });
    s2.line_style_2(blue);
    assert_eq!(s2.coarse_request().line_style, blue);
}

#[test]
fn second_draw_fails() {
    let mut s = style();
    assert!(s.draw().is_ok());
    assert!(s.target.is_none());
    assert!(matches!(s.draw(), Err(MeshError::AlreadyDrawn)));
}

#[test]
fn secondary_forwards_settings_and_draw() {
    let mut s = SecondaryMeshStyle::new((800, 600), 3u8, fmt_x as fn(&i32) -> String, fmt_y as fn(&u32) -> String);
    s.x_labels(2).y_labels(4).y_desc("Rate".to_string()).x_label_offset(SizeDesc::Pixels(3));
    let d = s.draw().unwrap();
    assert_eq!(d.target, 3u8);
    assert_eq!(d.coarse.label_density, (40, 20));
    assert!(!d.coarse.draw_x_mesh && !d.fine.draw_y_mesh);
    assert_eq!(d.fine.y_desc, Some("Rate".to_string()));
    assert_eq!(d.fine.x_label_offset, 3);
    assert!(matches!(s.draw(), Err(MeshError::AlreadyDrawn)));
}
