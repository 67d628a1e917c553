use celeste::icons::{cloud_sync_outline, svg_document, IconData};
use celeste::infrastructure::tray::icons::{
    rasterise, rgba_premul_to_argb_nonpremul, Icon, IconSet, ThemedIcon, DARK_TONE, LIGHT_TONE,
    SIZES,
};
use celeste::theme::Mode;
use resvg::{tiny_skia, usvg};

fn parse(svg: &String) -> Option<usvg::Tree> {
    usvg::Tree::from_data(svg.as_bytes(), &usvg::Options::default()).ok()
}

fn draw(tree: &usvg::Tree, size: u32) -> Option<Vec<u8>> {
    let mut pixmap = tiny_skia::Pixmap::new(size, size)?;
    let transform = tiny_skia::Transform::from_scale(
        size as f32 / tree.size().width(),
        size as f32 / tree.size().height(),
    );
    resvg::render(tree, transform, &mut pixmap.as_mut());
    Some(pixmap.data().to_vec())
}

#[test]
fn every_state_rasterises_to_visible_pixels() {
    let set = IconSet::load(&parse, &draw);
    let buckets: [(&str, &ThemedIcon); 5] = [
        ("synced", &set.synced),
        ("auth_needed", &set.auth_needed),
        ("syncing", &set.syncing),
        ("warning", &set.warning),
        ("paused", &set.paused),
    ];
    for (name, themed) in buckets {
        for (variant, icons) in [("light", &themed.light), ("dark", &themed.dark)] {
            assert_eq!(
                icons.len(),
                SIZES.len(),
                "{name}/{variant} rasterised fewer sizes than expected"
            );
            for icon in icons {
                assert_eq!(
                    icon.data.len(),
                    (icon.width as usize) * (icon.height as usize) * 4,
                    "{name}/{variant} @ {}x{} has unexpected buffer length",
                    icon.width,
                    icon.height,
                );
                let any_opaque = icon.data.chunks_exact(4).any(|px| px[0] != 0);
                assert!(
                    any_opaque,
                    "{name}/{variant} @ {}x{} rasterised to a fully-transparent pixmap",
                    icon.width,
                    icon.height,
                );
            }
        }
    }
}

/// A renderer that hands the document back as its pixels.
fn read(svg: &String) -> Option<String> {
    Some(svg.clone())
}

fn echo(svg: &String, size: u32) -> Option<Vec<u8>> {
    if size == 16 {
        Some(svg.as_bytes().to_vec())
    } else {
        None
    }
}

/// The document behind a pixmap of that renderer, as far as it makes whole
/// pixels: opaque ones, since `z` is no alpha that undoes them.
fn shows(icon: &Icon, paths: &str, tone: &str) -> bool {
    let wanted = format!(
        "<svg xmlns=\"http://www.w3.org/2000/svg\" viewBox=\"0 0 24 24\" fill=\"none\" \
         stroke=\"{tone}\" stroke-width=\"2\" stroke-linecap=\"round\" \
         stroke-linejoin=\"round\">{paths}</svg>"
    );
    icon.data == rgba_premul_to_argb_nonpremul(&wanted.into_bytes())
}

#[test]
fn each_state_has_the_glyph_of_its_own() {
    let set = IconSet::load(&read, &echo);
    for (themed, glyph) in [
        (&set.synced, icondata::TbCloudCheckOutline.data),
        (&set.auth_needed, icondata::TbCloudLockOutline.data),
        (&set.syncing, cloud_sync_outline().data),
        (&set.warning, icondata::TbCloudExclamationOutline.data),
        (&set.paused, icondata::TbCloudPauseOutline.data),
    ] {
        assert_eq!(themed.light.len(), 1);
        assert!(shows(&themed.light[0], glyph, LIGHT_TONE));
        assert!(shows(&themed.dark[0], glyph, DARK_TONE));
        assert_eq!((themed.dark[0].width, themed.dark[0].height), (16, 16));
    }
}

#[test]
fn sizes_that_cannot_be_drawn_are_left_out() {
    let some = rasterise(
        &"x".to_owned(),
        &|_svg: &String| Some(()),
        &|_tree: &(), size: u32| if size == 24 { None } else { Some(vec![1, 2, 3, 255]) },
    );
    let sides: Vec<i32> = some.iter().map(|i| i.width).collect();
    assert_eq!(sides, vec![16, 22, 32, 48, 64]);
    let none = rasterise(
        &"x".to_owned(),
        &|_svg: &String| None::<()>,
        &|_tree: &(), _size: u32| Some(vec![1, 2, 3, 255]),
    );
    assert!(none.is_empty());
}

#[test]
fn pixels_are_undone_and_turned() {
    let undone = |px: [u8; 4]| rgba_premul_to_argb_nonpremul(&px.to_vec());
    assert_eq!(undone([10, 20, 30, 255]), vec![255, 10, 20, 30]);
    assert_eq!(undone([9, 9, 9, 0]), vec![0, 0, 0, 0]);
    assert_eq!(undone([64, 32, 0, 128]), vec![128, 128, 64, 0]);
    assert_eq!(undone([200, 1, 3, 100]), vec![100, 255, 3, 8]);
    assert_eq!(
        rgba_premul_to_argb_nonpremul(&vec![1, 2, 3, 255, 7, 7]),
        vec![255, 1, 2, 3]
    );
    assert!(rgba_premul_to_argb_nonpremul(&Vec::new()).is_empty());
}

#[test]
fn multiplying_again_gives_the_pixel_back() {
    for alpha in 1..=255u8 {
        for color in 0..=alpha {
            let out = rgba_premul_to_argb_nonpremul(&vec![color, color, color, alpha]);
            assert_eq!(out[0], alpha);
            let again = (out[1] as u32 * alpha as u32 + 127) / 255;
            assert_eq!(again, color as u32);
        }
    }
}

#[test]
fn the_tone_contrasts_with_the_panel() {
    let icon = |byte: u8| Icon { width: 1, height: 1, data: vec![byte; 4] };
    let themed = ThemedIcon { light: vec![icon(1)], dark: vec![icon(2)] };
    assert_eq!(themed.pick(Mode::Dark), vec![icon(1)]);
    assert_eq!(themed.pick(Mode::Light), vec![icon(2)]);
    assert_eq!(themed.pick(Mode::Unset), vec![icon(2)]);
}

#[test]
fn the_arrows_have_the_stroke_of_the_cloud() {
    let glyph = cloud_sync_outline();
    assert_eq!(glyph.data.matches("<path d=\"").count(), 3);
    assert!(!glyph.data.contains("stroke"));
    assert!(svg_document(&glyph, DARK_TONE).contains("stroke-width=\"2\" stroke-linecap=\"round\""));
}

#[test]
fn what_a_glyph_does_not_say_has_a_default() {
    let bare = IconData {
        width: None,
        height: None,
        view_box: None,
        stroke_linecap: None,
        stroke_linejoin: None,
        stroke_width: None,
        stroke: None,
        fill: None,
        data: "<g/>",
    };
    assert_eq!(
        svg_document(&bare, "#123456"),
        "<svg xmlns=\"http://www.w3.org/2000/svg\" viewBox=\"0 0 24 24\" fill=\"#123456\" \
         stroke=\"none\" stroke-width=\"1\" stroke-linecap=\"butt\" \
         stroke-linejoin=\"miter\"><g/></svg>"
    );
    let doubled = IconData { stroke: Some("currentColor currentColor"), ..bare };
    assert!(svg_document(&doubled, "red").contains("stroke=\"red red\""));
}
