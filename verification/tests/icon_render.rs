use gpui_remixicon::arrows;
use gpui_remixicon::{Hsla, Icon, Pixels, Radians, Size, Sizable, Transformation};

fn ambient_color() -> Hsla {
    Hsla { h: 0, s: 0, l: 0, a: 10_000 }
}

fn ambient_size() -> Pixels {
    Pixels { thousandths: 16_000 }
}

fn red() -> Hsla {
    Hsla { h: 0, s: 10_000, l: 5_000, a: 10_000 }
}

#[test]
fn new_resolves_catalog_path() {
    let icon = Icon::new(arrows::Icon::ArrowUpSLine);
    let node = icon.render(ambient_color(), ambient_size());
    assert_eq!(node.path, "icons/arrows/arrow-up-s-line.svg");
}

#[test]
fn preset_sizes_resolve_to_fixed_magnitudes() {
    let cases = [
        (Size::XSmall, 12_000i64),
        (Size::Small, 14_000),
        (Size::Medium, 16_000),
        (Size::Large, 24_000),
    ];
    for (size, thousandths) in cases {
        let node = Icon::empty().with_size(size).render(ambient_color(), ambient_size());
        assert_eq!(node.style.width, Some(Pixels { thousandths }));
        assert_eq!(node.style.height, Some(Pixels { thousandths }));
    }
}

#[test]
fn custom_size_resolves_exactly_including_zero_and_fractional() {
    for thousandths in [0i64, 14_500, 1] {
        let node = Icon::empty()
            .custom_size(Pixels { thousandths })
            .render(ambient_color(), ambient_size());
        assert_eq!(node.style.width, Some(Pixels { thousandths }));
        assert_eq!(node.style.height, Some(Pixels { thousandths }));
    }
}

#[test]
fn box_size_wins_over_structured_size_in_both_call_orders() {
    let width = Pixels { thousandths: 40_000 };
    let first = Icon::empty().w(width).large().render(ambient_color(), ambient_size());
    let second = Icon::empty().large().w(width).render(ambient_color(), ambient_size());
    assert_eq!(first, second);
    assert_eq!(first.style.width, Some(width));
    // The structured size is ignored entirely: the unset axis stays unset.
    assert_eq!(first.style.height, None);
}

#[test]
fn unconfigured_size_follows_ambient_text_size() {
    let icon = Icon::empty();
    let node_small = icon.clone().render(ambient_color(), Pixels { thousandths: 13_000 });
    let node_large = icon.render(ambient_color(), Pixels { thousandths: 31_000 });
    assert_eq!(node_small.style.width, Some(Pixels { thousandths: 13_000 }));
    assert_eq!(node_small.style.height, Some(Pixels { thousandths: 13_000 }));
    assert_eq!(node_large.style.width, Some(Pixels { thousandths: 31_000 }));
    assert_eq!(node_large.style.height, Some(Pixels { thousandths: 31_000 }));
}

#[test]
fn explicit_color_overrides_ambient_and_omission_inherits() {
    let colored = Icon::empty().text_color(red()).render(ambient_color(), ambient_size());
    assert_eq!(colored.color, red());
    let plain = Icon::empty().render(ambient_color(), ambient_size());
    assert_eq!(plain.color, ambient_color());
}

#[test]
fn rotation_produces_exact_transform_and_last_call_wins() {
    let quarter = Radians { microradians: 1_570_796 };
    let half = Radians { microradians: 3_141_593 };
    let node = Icon::empty().rotate(quarter).rotate(half).render(ambient_color(), ambient_size());
    assert_eq!(node.transformation, Some(Transformation::rotate(half)));
    let still = Icon::empty().render(ambient_color(), ambient_size());
    assert_eq!(still.transformation, None);
}

#[test]
fn rotation_wins_over_installed_transformation() {
    let angle = Radians { microradians: 500_000 };
    let other = Transformation {
        scale_x: 2_000,
        scale_y: 2_000,
        translate_x: Pixels { thousandths: 1_000 },
        translate_y: Pixels { thousandths: 0 },
        rotate: Radians { microradians: 0 },
    };
    let node = Icon::empty()
        .transform(other)
        .rotate(angle)
        .render(ambient_color(), ambient_size());
    assert_eq!(node.transformation, Some(Transformation::rotate(angle)));
    let untouched = Icon::empty().transform(other).render(ambient_color(), ambient_size());
    assert_eq!(untouched.transformation, Some(other));
}

#[test]
fn end_to_end_catalog_icon_large_red() {
    let node = Icon::new(arrows::Icon::ArrowDownSLine)
        .large()
        .text_color(red())
        .render(ambient_color(), ambient_size());
    assert_eq!(node.path, "icons/arrows/arrow-down-s-line.svg");
    assert_eq!(node.style.width, Some(Pixels { thousandths: 24_000 }));
    assert_eq!(node.style.height, Some(Pixels { thousandths: 24_000 }));
    assert_eq!(node.color, red());
    assert_eq!(node.transformation, None);
}

#[test]
fn empty_icon_with_custom_path_renders_that_path() {
    let node = Icon::empty()
        .path("custom/x.svg".to_string())
        .render(ambient_color(), ambient_size());
    assert_eq!(node.path, "custom/x.svg");
}

#[test]
fn margins_pass_through_size_resolution() {
    let margin = Pixels { thousandths: 8_000 };
    let node = Icon::empty().m(margin).medium().render(ambient_color(), ambient_size());
    assert_eq!(node.style.margin_top, Some(margin));
    assert_eq!(node.style.margin_right, Some(margin));
    assert_eq!(node.style.margin_bottom, Some(margin));
    assert_eq!(node.style.margin_left, Some(margin));
    assert_eq!(node.style.width, Some(Pixels { thousandths: 16_000 }));
}

#[test]
fn size_shortcuts_match_with_size() {
    let shortcut = Icon::empty().xsmall().render(ambient_color(), ambient_size());
    let explicit = Icon::empty().with_size(Size::XSmall).render(ambient_color(), ambient_size());
    assert_eq!(shortcut, explicit);
    let small = Icon::empty().small().render(ambient_color(), ambient_size());
    assert_eq!(small.style.width, Some(Pixels { thousandths: 14_000 }));
    let medium = Icon::empty().medium().render(ambient_color(), ambient_size());
    assert_eq!(medium.style.width, Some(Pixels { thousandths: 16_000 }));
}

#[test]
fn whole_pixel_constructor_scales_to_fixed_point() {
    assert_eq!(Pixels::px(24), Pixels { thousandths: 24_000 });
    assert_eq!(Pixels::px(0), Pixels { thousandths: 0 });
    assert_eq!(Pixels::px(-3), Pixels { thousandths: -3_000 });
}

#[test]
fn pixels_convert_to_custom_size() {
    let size: Size = Pixels { thousandths: 9_500 }.into();
    assert_eq!(size, Size::Size(Pixels { thousandths: 9_500 }));
    let node = Icon::empty().with_size(size).render(ambient_color(), ambient_size());
    assert_eq!(node.style.width, Some(Pixels { thousandths: 9_500 }));
}
