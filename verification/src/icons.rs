//! Glyphs, their paint, and the SVG documents made of them.

use crate::text::{has, law_replaced_from_the_left, occurs_at, replace_all, replaced};
use vstd::prelude::*;
use vstd::string::*;

verus! {

/// A glyph: the inside of an SVG document, and the paint it asks for.
#[derive(Clone, Copy, Debug, PartialEq, Eq)]
pub struct IconData {
    pub width: Option<&'static str>,
    pub height: Option<&'static str>,
    pub view_box: Option<&'static str>,
    pub stroke_linecap: Option<&'static str>,
    pub stroke_linejoin: Option<&'static str>,
    pub stroke_width: Option<&'static str>,
    pub stroke: Option<&'static str>,
    pub fill: Option<&'static str>,
    pub data: &'static str,
}

/// An [`IconData`] as a mathematical value.
pub struct IconView {
    pub width: Option<Seq<char>>,
    pub height: Option<Seq<char>>,
    pub view_box: Option<Seq<char>>,
    pub stroke_linecap: Option<Seq<char>>,
    pub stroke_linejoin: Option<Seq<char>>,
    pub stroke_width: Option<Seq<char>>,
    pub stroke: Option<Seq<char>>,
    pub fill: Option<Seq<char>>,
    pub data: Seq<char>,
}

impl View for IconData {
    type V = IconView;

    open spec fn view(&self) -> IconView {
        IconView {
            width: self.width.deep_view(),
            height: self.height.deep_view(),
            view_box: self.view_box.deep_view(),
            stroke_linecap: self.stroke_linecap.deep_view(),
            stroke_linejoin: self.stroke_linejoin.deep_view(),
            stroke_width: self.stroke_width.deep_view(),
            stroke: self.stroke.deep_view(),
            fill: self.fill.deep_view(),
            data: self.data@,
        }
    }
}

/// A hollow glyph on a square of twenty-four, drawn with a round stroke in the
/// current colour.
pub open spec fn outline(data: Seq<char>) -> IconView {
    IconView {
        width: Some("24"@),
        height: Some("24"@),
        view_box: Some("0 0 24 24"@),
        stroke_linecap: Some("round"@),
        stroke_linejoin: Some("round"@),
        stroke_width: Some("2"@),
        stroke: Some("currentColor"@),
        fill: Some("none"@),
        data,
    }
}

/// A filled glyph that asks for nothing but its square.
pub open spec fn flat(view_box: Seq<char>, side: Option<Seq<char>>, data: Seq<char>) -> IconView {
    IconView {
        width: side,
        height: side,
        view_box: Some(view_box),
        stroke_linecap: None,
        stroke_linejoin: None,
        stroke_width: None,
        stroke: None,
        fill: None,
        data,
    }
}

/// A cloud with two round arrows, a hollow outline. The paths come from Tabler
/// Icons (MIT, © 2020-2024 Paweł Kuna, https://tabler.io/icons): the cloud of
/// `TbCloudCancelOutline`, and in place of the cancel mark both arrows of
/// `TbRefreshOutline` at half their size around (19, 19). All of them have the
/// stroke of the glyph.
pub open spec fn cloud_sync_icon() -> IconView {
    outline(
        r#"<path d="M12 18.004h-5.343c-2.572 -.004 -4.657 -2.011 -4.657 -4.487c0 -2.475 2.085 -4.482 4.657 -4.482c.393 -1.762 1.794 -3.2 3.675 -3.773c1.88 -.572 3.956 -.193 5.444 1c1.488 1.19 2.162 3.007 1.77 4.769h.99a3.45 3.45 0 0 1 2.756 1.373" /><path d="M23 18.5a4.05 4.05 0 0 0 -7.75 -1m-.25 -2v2h2" /><path d="M15 19.5a4.05 4.05 0 0 0 7.75 1m.25 2v-2h-2" />"#@,
    )
}

/// A cloud with two round arrows.
pub fn cloud_sync_outline() -> (r: IconData)
    ensures
        r@ == cloud_sync_icon(),
{
    IconData {
        width: Some("24"),
        height: Some("24"),
        view_box: Some("0 0 24 24"),
        stroke_linecap: Some("round"),
        stroke_linejoin: Some("round"),
        stroke_width: Some("2"),
        stroke: Some("currentColor"),
        fill: Some("none"),
        data: r#"<path d="M12 18.004h-5.343c-2.572 -.004 -4.657 -2.011 -4.657 -4.487c0 -2.475 2.085 -4.482 4.657 -4.482c.393 -1.762 1.794 -3.2 3.675 -3.773c1.88 -.572 3.956 -.193 5.444 1c1.488 1.19 2.162 3.007 1.77 4.769h.99a3.45 3.45 0 0 1 2.756 1.373" /><path d="M23 18.5a4.05 4.05 0 0 0 -7.75 -1m-.25 -2v2h2" /><path d="M15 19.5a4.05 4.05 0 0 0 7.75 1m.25 2v-2h-2" />"#,
    }
}

/// A cloud with a tick: a hollow outline.
pub open spec fn cloud_check_icon() -> IconView {
    outline(
        r#"<path d="M11 18.004h-4.343c-2.572 -.004 -4.657 -2.011 -4.657 -4.487c0 -2.475 2.085 -4.482 4.657 -4.482c.393 -1.762 1.794 -3.2 3.675 -3.773c1.88 -.572 3.956 -.193 5.444 1c1.488 1.19 2.162 3.007 1.77 4.769h.99c1.388 0 2.585 .82 3.138 2.007" />
<path d="M15 19l2 2l4 -4" />"#@,
    )
}

/// Stands for `icondata::TbCloudCheckOutline`, which is the glyph `cloud_check_icon`.
#[verifier::external_body]
pub(crate) fn cloud_check() -> (r: IconData)
    ensures
        r@ == cloud_check_icon(),
{
    let icon = icondata::TbCloudCheckOutline;
    IconData {
        width: icon.width,
        height: icon.height,
        view_box: icon.view_box,
        stroke_linecap: icon.stroke_linecap,
        stroke_linejoin: icon.stroke_linejoin,
        stroke_width: icon.stroke_width,
        stroke: icon.stroke,
        fill: icon.fill,
        data: icon.data,
    }
}

/// A cloud with a lock: a hollow outline.
pub open spec fn cloud_lock_icon() -> IconView {
    outline(
        r#"<path d="M19 18a3.5 3.5 0 0 0 0 -7h-1c.397 -1.768 -.285 -3.593 -1.788 -4.787c-1.503 -1.193 -3.6 -1.575 -5.5 -1s-3.315 2.019 -3.712 3.787c-2.199 -.088 -4.155 1.326 -4.666 3.373c-.512 2.047 .564 4.154 2.566 5.027" />
<path d="M8 15m0 1a1 1 0 0 1 1 -1h6a1 1 0 0 1 1 1v3a1 1 0 0 1 -1 1h-6a1 1 0 0 1 -1 -1z" />
<path d="M10 15v-2a2 2 0 1 1 4 0v2" />"#@,
    )
}

/// Stands for `icondata::TbCloudLockOutline`, which is the glyph `cloud_lock_icon`.
#[verifier::external_body]
pub(crate) fn cloud_lock() -> (r: IconData)
    ensures
        r@ == cloud_lock_icon(),
{
    let icon = icondata::TbCloudLockOutline;
    IconData {
        width: icon.width,
        height: icon.height,
        view_box: icon.view_box,
        stroke_linecap: icon.stroke_linecap,
        stroke_linejoin: icon.stroke_linejoin,
        stroke_width: icon.stroke_width,
        stroke: icon.stroke,
        fill: icon.fill,
        data: icon.data,
    }
}

/// A cloud with an exclamation mark: a hollow outline.
pub open spec fn cloud_exclamation_icon() -> IconView {
    outline(
        r#"<path d="M15 18.004h-8.343c-2.572 -.004 -4.657 -2.011 -4.657 -4.487c0 -2.475 2.085 -4.482 4.657 -4.482c.393 -1.762 1.794 -3.2 3.675 -3.773c1.88 -.572 3.956 -.193 5.444 1c1.488 1.19 2.162 3.007 1.77 4.769h.99c1.374 0 2.562 .805 3.121 1.972" />
<path d="M19 16v3" />
<path d="M19 22v.01" />"#@,
    )
}

/// Stands for `icondata::TbCloudExclamationOutline`, which is the glyph `cloud_exclamation_icon`.
#[verifier::external_body]
pub(crate) fn cloud_exclamation() -> (r: IconData)
    ensures
        r@ == cloud_exclamation_icon(),
{
    let icon = icondata::TbCloudExclamationOutline;
    IconData {
        width: icon.width,
        height: icon.height,
        view_box: icon.view_box,
        stroke_linecap: icon.stroke_linecap,
        stroke_linejoin: icon.stroke_linejoin,
        stroke_width: icon.stroke_width,
        stroke: icon.stroke,
        fill: icon.fill,
        data: icon.data,
    }
}

/// A cloud with a pause sign: a hollow outline.
pub open spec fn cloud_pause_icon() -> IconView {
    outline(
        r#"<path d="M13 18.004h-6.343c-2.572 -.004 -4.657 -2.011 -4.657 -4.487c0 -2.475 2.085 -4.482 4.657 -4.482c.393 -1.762 1.794 -3.2 3.675 -3.773c1.88 -.572 3.956 -.193 5.444 1c1.488 1.19 2.162 3.007 1.77 4.769h.99c1.406 0 2.617 .843 3.16 2.055" />
<path d="M17 17v5" />
<path d="M21 17v5" />"#@,
    )
}

/// Stands for `icondata::TbCloudPauseOutline`, which is the glyph `cloud_pause_icon`.
#[verifier::external_body]
pub(crate) fn cloud_pause() -> (r: IconData)
    ensures
        r@ == cloud_pause_icon(),
{
    let icon = icondata::TbCloudPauseOutline;
    IconData {
        width: icon.width,
        height: icon.height,
        view_box: icon.view_box,
        stroke_linecap: icon.stroke_linecap,
        stroke_linejoin: icon.stroke_linejoin,
        stroke_width: icon.stroke_width,
        stroke: icon.stroke,
        fill: icon.fill,
        data: icon.data,
    }
}

/// Two round arrows: a hollow outline.
pub open spec fn refresh_icon() -> IconView {
    outline(
        r#"<path d="M20 11a8.1 8.1 0 0 0 -15.5 -2m-.5 -4v4h4" />
<path d="M4 13a8.1 8.1 0 0 0 15.5 2m.5 4v-4h-4" />"#@,
    )
}

/// Stands for `icondata::TbRefreshOutline`, which is the glyph `refresh_icon`.
#[verifier::external_body]
pub(crate) fn refresh() -> (r: IconData)
    ensures
        r@ == refresh_icon(),
{
    let icon = icondata::TbRefreshOutline;
    IconData {
        width: icon.width,
        height: icon.height,
        view_box: icon.view_box,
        stroke_linecap: icon.stroke_linecap,
        stroke_linejoin: icon.stroke_linejoin,
        stroke_width: icon.stroke_width,
        stroke: icon.stroke,
        fill: icon.fill,
        data: icon.data,
    }
}

/// A pause sign in a circle: a flat glyph on a square of 1024.
pub open spec fn pause_circle_icon() -> IconView {
    flat(
        "0 0 1024 1024"@,
        None,
        r#"<path d="M512 64C264.6 64 64 264.6 64 512s200.6 448 448 448 448-200.6 448-448S759.4 64 512 64zm0 820c-205.4 0-372-166.6-372-372s166.6-372 372-372 372 166.6 372 372-166.6 372-372 372zm-88-532h-48c-4.4 0-8 3.6-8 8v304c0 4.4 3.6 8 8 8h48c4.4 0 8-3.6 8-8V360c0-4.4-3.6-8-8-8zm224 0h-48c-4.4 0-8 3.6-8 8v304c0 4.4 3.6 8 8 8h48c4.4 0 8-3.6 8-8V360c0-4.4-3.6-8-8-8z" />"#@,
    )
}

/// Stands for `icondata::AiPauseCircleOutlined`, which is the glyph `pause_circle_icon`.
#[verifier::external_body]
pub(crate) fn pause_circle() -> (r: IconData)
    ensures
        r@ == pause_circle_icon(),
{
    let icon = icondata::AiPauseCircleOutlined;
    IconData {
        width: icon.width,
        height: icon.height,
        view_box: icon.view_box,
        stroke_linecap: icon.stroke_linecap,
        stroke_linejoin: icon.stroke_linejoin,
        stroke_width: icon.stroke_width,
        stroke: icon.stroke,
        fill: icon.fill,
        data: icon.data,
    }
}

/// A lock: a flat glyph on a square of 1024.
pub open spec fn lock_icon() -> IconView {
    flat(
        "0 0 1024 1024"@,
        None,
        r#"<path d="M832 464h-68V240c0-70.7-57.3-128-128-128H388c-70.7 0-128 57.3-128 128v224h-68c-17.7 0-32 14.3-32 32v384c0 17.7 14.3 32 32 32h640c17.7 0 32-14.3 32-32V496c0-17.7-14.3-32-32-32zM332 240c0-30.9 25.1-56 56-56h248c30.9 0 56 25.1 56 56v224H332V240zm460 600H232V536h560v304zM484 701v53c0 4.4 3.6 8 8 8h40c4.4 0 8-3.6 8-8v-53a48.01 48.01 0 1 0-56 0z" />"#@,
    )
}

/// Stands for `icondata::AiLockOutlined`, which is the glyph `lock_icon`.
#[verifier::external_body]
pub(crate) fn lock() -> (r: IconData)
    ensures
        r@ == lock_icon(),
{
    let icon = icondata::AiLockOutlined;
    IconData {
        width: icon.width,
        height: icon.height,
        view_box: icon.view_box,
        stroke_linecap: icon.stroke_linecap,
        stroke_linejoin: icon.stroke_linejoin,
        stroke_width: icon.stroke_width,
        stroke: icon.stroke,
        fill: icon.fill,
        data: icon.data,
    }
}

/// A tick in a circle: a flat glyph on a square of 1024.
pub open spec fn check_circle_icon() -> IconView {
    flat(
        "0 0 1024 1024"@,
        None,
        r#"<path d="M699 353h-46.9c-10.2 0-19.9 4.9-25.9 13.3L469 584.3l-71.2-98.8c-6-8.3-15.6-13.3-25.9-13.3H325c-6.5 0-10.3 7.4-6.5 12.7l124.6 172.8a31.8 31.8 0 0 0 51.7 0l210.6-292c3.9-5.3.1-12.7-6.4-12.7z" />
<path d="M512 64C264.6 64 64 264.6 64 512s200.6 448 448 448 448-200.6 448-448S759.4 64 512 64zm0 820c-205.4 0-372-166.6-372-372s166.6-372 372-372 372 166.6 372 372-166.6 372-372 372z" />"#@,
    )
}

/// Stands for `icondata::AiCheckCircleOutlined`, which is the glyph `check_circle_icon`.
#[verifier::external_body]
pub(crate) fn check_circle() -> (r: IconData)
    ensures
        r@ == check_circle_icon(),
{
    let icon = icondata::AiCheckCircleOutlined;
    IconData {
        width: icon.width,
        height: icon.height,
        view_box: icon.view_box,
        stroke_linecap: icon.stroke_linecap,
        stroke_linejoin: icon.stroke_linejoin,
        stroke_width: icon.stroke_width,
        stroke: icon.stroke,
        fill: icon.fill,
        data: icon.data,
    }
}

/// A warning triangle: a flat glyph on a square of 1024.
pub open spec fn warning_sign_icon() -> IconView {
    flat(
        "0 0 1024 1024"@,
        None,
        r#"<path d="M464 720a48 48 0 1 0 96 0 48 48 0 1 0-96 0zm16-304v184c0 4.4 3.6 8 8 8h48c4.4 0 8-3.6 8-8V416c0-4.4-3.6-8-8-8h-48c-4.4 0-8 3.6-8 8zm475.7 440l-416-720c-6.2-10.7-16.9-16-27.7-16s-21.6 5.3-27.7 16l-416 720C56 877.4 71.4 904 96 904h832c24.6 0 40-26.6 27.7-48zm-783.5-27.9L512 239.9l339.8 588.2H172.2z" />"#@,
    )
}

/// Stands for `icondata::AiWarningOutlined`, which is the glyph `warning_sign_icon`.
#[verifier::external_body]
pub(crate) fn warning_sign() -> (r: IconData)
    ensures
        r@ == warning_sign_icon(),
{
    let icon = icondata::AiWarningOutlined;
    IconData {
        width: icon.width,
        height: icon.height,
        view_box: icon.view_box,
        stroke_linecap: icon.stroke_linecap,
        stroke_linejoin: icon.stroke_linejoin,
        stroke_width: icon.stroke_width,
        stroke: icon.stroke,
        fill: icon.fill,
        data: icon.data,
    }
}

/// An exclamation mark in an octagon: a flat glyph on a square of 24.
pub open spec fn error_sign_icon() -> IconView {
    flat(
        "0 0 24 24"@,
        Some("24"@),
        r#"<path d="M11 7h2v7h-2zm0 8h2v2h-2z" />
<path d="m21.707 7.293-5-5A.996.996 0 0 0 16 2H8a.996.996 0 0 0-.707.293l-5 5A.996.996 0 0 0 2 8v8c0 .266.105.52.293.707l5 5A.996.996 0 0 0 8 22h8c.266 0 .52-.105.707-.293l5-5A.996.996 0 0 0 22 16V8a.996.996 0 0 0-.293-.707zM20 15.586 15.586 20H8.414L4 15.586V8.414L8.414 4h7.172L20 8.414v7.172z" />"#@,
    )
}

/// Stands for `icondata::BiErrorAltRegular`, which is the glyph `error_sign_icon`.
#[verifier::external_body]
pub(crate) fn error_sign() -> (r: IconData)
    ensures
        r@ == error_sign_icon(),
{
    let icon = icondata::BiErrorAltRegular;
    IconData {
        width: icon.width,
        height: icon.height,
        view_box: icon.view_box,
        stroke_linecap: icon.stroke_linecap,
        stroke_linejoin: icon.stroke_linejoin,
        stroke_width: icon.stroke_width,
        stroke: icon.stroke,
        fill: icon.fill,
        data: icon.data,
    }
}

/// `value`, or `otherwise` where there is none.
pub open spec fn or(value: Option<Seq<char>>, otherwise: Seq<char>) -> Seq<char> {
    match value {
        Some(v) => v,
        None => otherwise,
    }
}

/// `paint` with the current colour put in.
pub open spec fn painted(paint: Seq<char>, color: Seq<char>) -> Seq<char> {
    replaced(paint, "currentColor"@, color)
}

/// The SVG document that shows `icon` in `color`. What the glyph does not say
/// of its paint is a flat fill in the current colour and no stroke.
pub open spec fn document(icon: IconView, color: Seq<char>) -> Seq<char> {
    r#"<svg xmlns="http://www.w3.org/2000/svg" viewBox=""#@ + or(icon.view_box, "0 0 24 24"@)
        + r#"" fill=""#@ + painted(or(icon.fill, "currentColor"@), color) + r#"" stroke=""#@
        + painted(or(icon.stroke, "none"@), color) + r#"" stroke-width=""#@ + or(
        icon.stroke_width,
        "1"@,
    ) + r#"" stroke-linecap=""#@ + or(icon.stroke_linecap, "butt"@) + r#"" stroke-linejoin=""#@
        + or(icon.stroke_linejoin, "miter"@) + r#"">"#@ + icon.data + "</svg>"@
}

/// `value`, or `otherwise` where there is none.
fn value_or(value: Option<&'static str>, otherwise: &'static str) -> (r: &'static str)
    ensures
        r@ == or(value.deep_view(), otherwise@),
{
    match value {
        Some(v) => v,
        None => otherwise,
    }
}

/// `paint` with the current colour put in.
fn put_color(paint: &str, color: &str) -> (r: String)
    ensures
        r@ == painted(paint@, color@),
{
    proof {
        reveal_strlit("currentColor");
    }
    replace_all(paint, "currentColor", color)
}

/// The SVG document that shows `icon` in `color`.
pub fn svg_document(icon: &IconData, color: &str) -> (r: String)
    ensures
        r@ == document(icon@, color@),
{
    let mut out = r#"<svg xmlns="http://www.w3.org/2000/svg" viewBox=""#.to_owned();
    out.append(value_or(icon.view_box, "0 0 24 24"));
    out.append(r#"" fill=""#);
    out.append(put_color(value_or(icon.fill, "currentColor"), color).as_str());
    out.append(r#"" stroke=""#);
    out.append(put_color(value_or(icon.stroke, "none"), color).as_str());
    out.append(r#"" stroke-width=""#);
    out.append(value_or(icon.stroke_width, "1"));
    out.append(r#"" stroke-linecap=""#);
    out.append(value_or(icon.stroke_linecap, "butt"));
    out.append(r#"" stroke-linejoin=""#);
    out.append(value_or(icon.stroke_linejoin, "miter"));
    out.append(r#"">"#);
    out.append(icon.data);
    out.append("</svg>");
    out
}

/// An outline stays hollow and is drawn in the chosen colour; a glyph that says
/// nothing of its paint is filled with the colour and has no stroke.
pub proof fn law_paint(icon: IconView, color: Seq<char>)
    ensures
        icon.fill == Some("none"@) ==> painted(or(icon.fill, "currentColor"@), color) == "none"@,
        icon.stroke == Some("currentColor"@) ==> painted(or(icon.stroke, "none"@), color) == color,
        icon.fill is None ==> painted(or(icon.fill, "currentColor"@), color) == color,
        icon.stroke is None ==> painted(or(icon.stroke, "none"@), color) == "none"@,
{
    reveal_strlit("none");
    reveal_strlit("currentColor");
    let current = "currentColor"@;
    assert(current.subrange(0, current.len() as int) =~= current);
    assert(crate::text::begins(current, current));
    assert(current.skip(current.len() as int) =~= Seq::<char>::empty());
    assert(replaced(Seq::<char>::empty(), current, color) =~= Seq::<char>::empty());
    assert(painted(current, color) =~= color);
}

/// A document spells out what the glyph says of its paint, and the usual where
/// it says nothing; the shapes of the glyph stand inside it as they are.
pub proof fn law_document_spells_out_the_glyph(icon: IconView, color: Seq<char>)
    ensures
        document(icon, color) == r#"<svg xmlns="http://www.w3.org/2000/svg" viewBox=""#@ + (
        match icon.view_box {
            Some(v) => v,
            None => "0 0 24 24"@,
        }) + r#"" fill=""#@ + (match icon.fill {
            Some(v) => painted(v, color),
            None => painted("currentColor"@, color),
        }) + r#"" stroke=""#@ + (match icon.stroke {
            Some(v) => painted(v, color),
            None => painted("none"@, color),
        }) + r#"" stroke-width=""#@ + (match icon.stroke_width {
            Some(v) => v,
            None => "1"@,
        }) + r#"" stroke-linecap=""#@ + (match icon.stroke_linecap {
            Some(v) => v,
            None => "butt"@,
        }) + r#"" stroke-linejoin=""#@ + (match icon.stroke_linejoin {
            Some(v) => v,
            None => "miter"@,
        }) + r#"">"#@ + icon.data + "</svg>"@,
{
}

/// The colour goes where the current colour is asked for, and nowhere else: a
/// paint without it stays as it is, and one that holds it has the colour in its
/// place.
pub proof fn law_colour_goes_where_it_is_asked_for(
    paint: Seq<char>,
    after: Seq<char>,
    color: Seq<char>,
)
    ensures
        !(has(paint, "currentColor"@)) ==> painted(paint, color) == paint,
        painted("currentColor"@, color) == color,
        painted("currentColor"@ + after, color) == color + painted(after, color),
{
    reveal_strlit("currentColor");
    let current = "currentColor"@;
    law_replaced_from_the_left(paint, current, color, 0);
    let tail = current + after;
    assert(tail.subrange(0, current.len() as int) =~= current);
    assert(occurs_at(tail, current, 0));
    law_replaced_from_the_left(tail, current, color, 0);
    assert(tail.take(0) + color =~= color);
    assert(tail.skip(current.len() as int) =~= after);
    assert(current.subrange(0, current.len() as int) =~= current);
    assert(occurs_at(current, current, 0));
    law_replaced_from_the_left(current, current, color, 0);
    assert(current.take(0) + color =~= color);
    assert(current.skip(current.len() as int) =~= Seq::<char>::empty());
    assert(replaced(Seq::<char>::empty(), current, color) =~= Seq::<char>::empty());
}

/// Where neither paint asks for the current colour, the colour does not matter.
pub proof fn law_other_paints_keep_their_colour(icon: IconView, a: Seq<char>, b: Seq<char>)
    requires
        icon.fill matches Some(fill) && !(has(fill, "currentColor"@)),
        icon.stroke matches Some(stroke) && !(has(stroke, "currentColor"@)),
    ensures
        document(icon, a) == document(icon, b),
{
    law_colour_goes_where_it_is_asked_for(icon.fill->0, a, a);
    law_colour_goes_where_it_is_asked_for(icon.fill->0, a, b);
    law_colour_goes_where_it_is_asked_for(icon.stroke->0, a, a);
    law_colour_goes_where_it_is_asked_for(icon.stroke->0, a, b);
}

} // verus!
