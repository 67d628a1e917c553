//! The pixmaps of the tray, one for each state, in a light and in a dark tone
//! and in every size that is offered. A renderer outside turns a document into
//! pixels; here stand the documents, what becomes of the pixels, and which tone
//! is shown.

use crate::icons::{
    cloud_check, cloud_check_icon, cloud_exclamation, cloud_exclamation_icon, cloud_lock,
    cloud_lock_icon, cloud_pause, cloud_pause_icon, cloud_sync_icon, cloud_sync_outline, document,
    svg_document, IconData, IconView,
};
use crate::theme::Mode;
use vstd::prelude::*;
use vstd::string::*;

verus! {

/// The tone of a glyph on a dark panel.
pub const LIGHT_TONE: &'static str = "#e6e6e6";

/// The tone of a glyph on a light panel.
pub const DARK_TONE: &'static str = "#2c2c2c";

/// The sides of the pixmaps that are offered.
pub const SIZES: [u32; 6] = [16, 22, 24, 32, 48, 64];

/// A pixmap: four bytes for each pixel, alpha, red, green and blue, where the
/// colours are not multiplied by alpha.
#[derive(Debug, PartialEq, Eq)]
pub struct Icon {
    pub width: i32,
    pub height: i32,
    pub data: Vec<u8>,
}

/// An [`Icon`] as a mathematical value.
pub struct PixmapView {
    pub width: int,
    pub height: int,
    pub data: Seq<u8>,
}

impl View for Icon {
    type V = PixmapView;

    open spec fn view(&self) -> PixmapView {
        PixmapView { width: self.width as int, height: self.height as int, data: self.data@ }
    }
}

impl DeepView for Icon {
    type V = PixmapView;

    open spec fn deep_view(&self) -> PixmapView {
        self@
    }
}

impl Clone for Icon {
    fn clone(&self) -> (r: Self)
        ensures
            r@ == self@,
    {
        let data = self.data.clone();
        assert(data@ =~= self.data@);
        Icon { width: self.width, height: self.height, data }
    }
}

/// A colour that was multiplied by `alpha`, as it was before, rounded to the
/// nearest and at most full. Where nothing shows it is black.
pub open spec fn unmultiplied(color: int, alpha: int) -> int {
    if alpha == 0 {
        0
    } else {
        let c = (color * 255 + alpha / 2) / alpha;
        if c < 255 {
            c
        } else {
            255
        }
    }
}

/// The pixels of `src`, which are red, green and blue multiplied by alpha and
/// then alpha, in the order of the tray. Bytes that make no whole pixel are
/// dropped.
pub open spec fn argb(src: Seq<u8>) -> Seq<u8> {
    Seq::new(
        (src.len() / 4 * 4) as nat,
        |i: int|
            {
                let p = i / 4 * 4;
                let alpha = src[p + 3] as int;
                if i % 4 == 0 {
                    src[p + 3]
                } else {
                    unmultiplied(src[p + i % 4 - 1] as int, alpha) as u8
                }
            },
    )
}

/// One colour of a pixel, not multiplied any more.
fn unmultiply(color: u8, alpha: u8) -> (r: u8)
    ensures
        r == unmultiplied(color as int, alpha as int),
{
    if alpha == 0 {
        0
    } else {
        let a: u32 = alpha as u32;
        let c: u32 = (color as u32 * 255 + a / 2) / a;
        if c < 255 {
            c as u8
        } else {
            255
        }
    }
}

/// Turns multiplied RGBA into ARGB that is not multiplied.
pub fn rgba_premul_to_argb_nonpremul(src: &Vec<u8>) -> (r: Vec<u8>)
    ensures
        r@ == argb(src@),
{
    let mut out: Vec<u8> = Vec::with_capacity(src.len());
    let pixels: usize = src.len() / 4;
    let mut n: usize = 0;
    while n < pixels
        invariant
            n <= pixels,
            pixels == src@.len() / 4,
            4 * pixels <= src@.len() <= usize::MAX,
            out@.len() == 4 * n,
            forall|i: int| 0 <= i < 4 * n ==> #[trigger] out@[i] == argb(src@)[i],
        decreases pixels - n,
    {
        let p: usize = 4 * n;
        let alpha = src[p + 3];
        let ghost before = out@;
        out.push(alpha);
        out.push(unmultiply(src[p], alpha));
        out.push(unmultiply(src[p + 1], alpha));
        out.push(unmultiply(src[p + 2], alpha));
        n += 1;
        assert forall|i: int| 0 <= i < 4 * n implies #[trigger] out@[i] == argb(src@)[i] by {
            if i < p {
                assert(out@[i] == before[i]);
            } else {
                assert(i / 4 * 4 == p);
            }
        }
    }
    assert(out@ =~= argb(src@));
    out
}

/// Every pixel keeps its alpha, whole pixels stay and nothing is added.
pub proof fn law_alpha_is_kept(src: Seq<u8>, n: int)
    requires
        0 <= n < src.len() / 4,
    ensures
        argb(src).len() == src.len() - src.len() % 4,
        argb(src)[4 * n] == src[4 * n + 3],
{
}

/// A pixel that nothing shines through keeps its colours; one that nothing
/// shows of loses them.
pub proof fn law_extremes(color: u8)
    ensures
        unmultiplied(color as int, 255) == color,
        unmultiplied(color as int, 0) == 0,
{
}

/// A colour of a pixel that is really multiplied is undone to the nearest, so
/// that multiplying it again gives it back.
pub proof fn law_multiplying_again(color: u8, alpha: u8)
    requires
        color <= alpha,
        alpha > 0,
    ensures
        0 <= unmultiplied(color as int, alpha as int) <= 255,
        (unmultiplied(color as int, alpha as int) * alpha + 127) / 255 == color,
{
    let c = color as int;
    let a = alpha as int;
    let q = (c * 255 + a / 2) / a;
    assert(q * a <= c * 255 + a / 2 < q * a + a) by (nonlinear_arith)
        requires
            q == (c * 255 + a / 2) / a,
            a > 0,
    ;
    assert(q <= 255) by (nonlinear_arith)
        requires
            q * a <= c * 255 + a / 2,
            c <= a,
            0 < a,
    ;
    assert(q >= 0) by (nonlinear_arith)
        requires
            q == (c * 255 + a / 2) / a,
            c >= 0,
            a > 0,
    ;
    assert(255 * c <= q * a + 127 < 255 * c + 255);
}

/// The pixmaps of the sizes that could be drawn: `frames` has one entry for
/// each of `sides`, the pixels or nothing.
pub open spec fn pixmaps(sides: Seq<u32>, frames: Seq<Option<Vec<u8>>>) -> Seq<PixmapView>
    decreases frames.len(),
{
    if frames.len() == 0 {
        Seq::empty()
    } else {
        let before = pixmaps(sides, frames.drop_last());
        match frames.last() {
            Some(pixels) => before.push(
                PixmapView {
                    width: sides[frames.len() - 1] as int,
                    height: sides[frames.len() - 1] as int,
                    data: argb(pixels@),
                },
            ),
            None => before,
        }
    }
}

/// What `icons` may be, where they were made of the document `svg`: nothing,
/// where it could not be read, and otherwise one pixmap for each size that
/// could be drawn.
pub open spec fn drawn<T, P: Fn(&String) -> Option<T>, D: Fn(&T, u32) -> Option<Vec<u8>>>(
    parse: P,
    draw: D,
    svg: Seq<char>,
    icons: Seq<PixmapView>,
) -> bool {
    exists|doc: String, parsed: Option<T>|
        {
            &&& doc@ == svg
            &&& #[trigger] call_ensures(parse, (&doc,), parsed)
            &&& match parsed {
                None => icons.len() == 0,
                Some(tree) => exists|frames: Seq<Option<Vec<u8>>>|
                    {
                        &&& frames.len() == SIZES@.len()
                        &&& forall|i: int|
                            0 <= i < frames.len() ==> call_ensures(
                                draw,
                                (&tree, SIZES@[i]),
                                #[trigger] frames[i],
                            )
                        &&& icons == #[trigger] pixmaps(SIZES@, frames)
                    },
            }
        }
}

/// A renderer takes every document and every size.
pub open spec fn renders<T, P: Fn(&String) -> Option<T>, D: Fn(&T, u32) -> Option<Vec<u8>>>(
    parse: P,
    draw: D,
) -> bool {
    &&& forall|doc: &String| #[trigger] call_requires(parse, (doc,))
    &&& forall|tree: &T, side: u32| #[trigger] call_requires(draw, (tree, side))
}

/// Draws a document in every size. A document that cannot be read gives no
/// pixmap at all; a size that cannot be drawn is left out.
pub fn rasterise<T, P: Fn(&String) -> Option<T>, D: Fn(&T, u32) -> Option<Vec<u8>>>(
    svg: &String,
    parse: &P,
    draw: &D,
) -> (r: Vec<Icon>)
    requires
        renders(*parse, *draw),
    ensures
        drawn(*parse, *draw, svg@, r.deep_view()),
{
    let mut out: Vec<Icon> = Vec::new();
    let parsed = parse(svg);
    match parsed {
        None => {},
        Some(tree) => {
            let sizes: [u32; 6] = SIZES;
            let ghost mut frames: Seq<Option<Vec<u8>>> = Seq::empty();
            let mut i: usize = 0;
            assert(out.deep_view() =~= pixmaps(SIZES@, frames));
            while i < 6
                invariant
                    i <= 6,
                    sizes@ == SIZES@,
                    SIZES@.len() == 6,
                    forall|k: int| 0 <= k < 6 ==> 0 < #[trigger] SIZES@[k] <= 64,
                    renders(*parse, *draw),
                    frames.len() == i,
                    forall|k: int|
                        0 <= k < i ==> call_ensures(
                            *draw,
                            (&tree, SIZES@[k]),
                            #[trigger] frames[k],
                        ),
                    out.deep_view() == pixmaps(SIZES@, frames),
                decreases 6 - i,
            {
                let side: u32 = sizes[i];
                let frame = draw(&tree, side);
                let ghost before = out.deep_view();
                let ghost seen = frames;
                proof {
                    frames = frames.push(frame);
                    assert(frames.drop_last() =~= seen);
                }
                match frame {
                    Some(pixels) => {
                        let data = rgba_premul_to_argb_nonpremul(&pixels);
                        out.push(Icon { width: side as i32, height: side as i32, data });
                        assert(out.deep_view() =~= pixmaps(SIZES@, frames));
                    },
                    None => {},
                }
                i += 1;
            }
        },
    }
    out
}

/// The pixmaps of one state: light ones for dark panels, dark ones for light
/// panels.
#[derive(Debug, PartialEq, Eq)]
pub struct ThemedIcon {
    pub light: Vec<Icon>,
    pub dark: Vec<Icon>,
}

/// What a [`ThemedIcon`] may be that shows `icon`.
pub open spec fn themed<T, P: Fn(&String) -> Option<T>, D: Fn(&T, u32) -> Option<Vec<u8>>>(
    parse: P,
    draw: D,
    icon: IconView,
    shown: ThemedIcon,
) -> bool {
    &&& drawn(parse, draw, document(icon, LIGHT_TONE@), shown.light.deep_view())
    &&& drawn(parse, draw, document(icon, DARK_TONE@), shown.dark.deep_view())
}

impl ThemedIcon {
    /// Draws `icon` in both tones.
    pub fn from<T, P: Fn(&String) -> Option<T>, D: Fn(&T, u32) -> Option<Vec<u8>>>(
        icon: &IconData,
        parse: &P,
        draw: &D,
    ) -> (r: Self)
        requires
            renders(*parse, *draw),
        ensures
            themed(*parse, *draw, icon@, r),
    {
        let light = rasterise(&svg_document(icon, LIGHT_TONE), parse, draw);
        let dark = rasterise(&svg_document(icon, DARK_TONE), parse, draw);
        ThemedIcon { light, dark }
    }

    /// The tone for a desktop of the scheme `mode`. Where that is unknown the
    /// panel is taken for a light one.
    pub open spec fn tone(self, mode: Mode) -> Seq<PixmapView> {
        match mode {
            Mode::Dark => self.light.deep_view(),
            Mode::Light | Mode::Unset => self.dark.deep_view(),
        }
    }

    /// The pixmaps for a desktop of the scheme `mode`.
    pub fn pick(&self, mode: Mode) -> (r: Vec<Icon>)
        ensures
            r.deep_view() == self.tone(mode),
    {
        let r = match mode {
            Mode::Dark => self.light.clone(),
            Mode::Light | Mode::Unset => self.dark.clone(),
        };
        assert(r.deep_view() =~= self.tone(mode));
        r
    }
}

/// The pixmaps of every state of the tray.
#[derive(Debug, PartialEq, Eq)]
pub struct IconSet {
    pub synced: ThemedIcon,
    pub auth_needed: ThemedIcon,
    pub syncing: ThemedIcon,
    pub warning: ThemedIcon,
    pub paused: ThemedIcon,
}

impl IconSet {
    /// Draws the glyph of every state.
    pub fn load<T, P: Fn(&String) -> Option<T>, D: Fn(&T, u32) -> Option<Vec<u8>>>(
        parse: &P,
        draw: &D,
    ) -> (r: Self)
        requires
            renders(*parse, *draw),
        ensures
            themed(*parse, *draw, cloud_check_icon(), r.synced),
            themed(*parse, *draw, cloud_lock_icon(), r.auth_needed),
            themed(*parse, *draw, cloud_sync_icon(), r.syncing),
            themed(*parse, *draw, cloud_exclamation_icon(), r.warning),
            themed(*parse, *draw, cloud_pause_icon(), r.paused),
    {
        IconSet {
            synced: ThemedIcon::from(&cloud_check(), parse, draw),
            auth_needed: ThemedIcon::from(&cloud_lock(), parse, draw),
            syncing: ThemedIcon::from(&cloud_sync_outline(), parse, draw),
            warning: ThemedIcon::from(&cloud_exclamation(), parse, draw),
            paused: ThemedIcon::from(&cloud_pause(), parse, draw),
        }
    }
}

/// The colours of a pixel come in their order: red, green and blue of the pixel
/// at the same place, no longer multiplied by its alpha.
pub proof fn law_colours_keep_their_order(src: Seq<u8>, n: int)
    requires
        0 <= n < src.len() / 4,
    ensures
        argb(src)[4 * n + 1] as int == unmultiplied(src[4 * n] as int, src[4 * n + 3] as int),
        argb(src)[4 * n + 2] as int == unmultiplied(src[4 * n + 1] as int, src[4 * n + 3] as int),
        argb(src)[4 * n + 3] as int == unmultiplied(src[4 * n + 2] as int, src[4 * n + 3] as int),
{
    lemma_a_byte(src[4 * n], src[4 * n + 3]);
    lemma_a_byte(src[4 * n + 1], src[4 * n + 3]);
    lemma_a_byte(src[4 * n + 2], src[4 * n + 3]);
    assert((4 * n + 1) / 4 * 4 == 4 * n && (4 * n + 2) / 4 * 4 == 4 * n && (4 * n + 3) / 4 * 4 == 4
        * n);
}

/// A colour that is no longer multiplied is a byte.
proof fn lemma_a_byte(color: u8, alpha: u8)
    ensures
        0 <= unmultiplied(color as int, alpha as int) <= 255,
{
    let c = color as int;
    let a = alpha as int;
    if a > 0 {
        assert((c * 255 + a / 2) / a >= 0) by (nonlinear_arith)
            requires
                c >= 0,
                a > 0,
        ;
    }
}

/// A colour is undone to the nearest: multiplied by alpha again it is off by at
/// most half of alpha, and of two that are equally near it is the larger. What
/// is no less than alpha becomes full.
pub proof fn law_undone_to_the_nearest(color: u8, alpha: u8)
    requires
        alpha > 0,
    ensures
        ({
            let q = unmultiplied(color as int, alpha as int);
            &&& color <= alpha ==> 2 * (q * alpha - 255 * color) <= alpha
            &&& color <= alpha ==> 2 * (255 * color - q * alpha) < alpha
            &&& color >= alpha ==> q == 255
        }),
{
    let c = color as int;
    let a = alpha as int;
    let q = (c * 255 + a / 2) / a;
    assert(q * a <= c * 255 + a / 2 < q * a + a) by (nonlinear_arith)
        requires
            q == (c * 255 + a / 2) / a,
            a > 0,
    ;
    if c >= a {
        assert(q >= 255) by (nonlinear_arith)
            requires
                c * 255 + a / 2 < q * a + a,
                c >= a,
                a > 0,
        ;
    }
    if c <= a {
        assert(q <= 255) by (nonlinear_arith)
            requires
                q * a <= c * 255 + a / 2,
                c <= a,
                0 < a,
        ;
    }
}

/// Each size that could be drawn gives one pixmap, of that size and with those
/// pixels, behind those of the sizes before it; one that could not gives none.
pub proof fn law_each_drawn_size_is_offered(
    sides: Seq<u32>,
    frames: Seq<Option<Vec<u8>>>,
    pixels: Vec<u8>,
)
    ensures
        pixmaps(sides, Seq::empty()).len() == 0,
        pixmaps(sides, frames.push(None)) == pixmaps(sides, frames),
        pixmaps(sides, frames.push(Some(pixels))) == pixmaps(sides, frames).push(
            PixmapView {
                width: sides[frames.len() as int] as int,
                height: sides[frames.len() as int] as int,
                data: argb(pixels@),
            },
        ),
{
    assert(frames.push(None).drop_last() =~= frames);
    assert(frames.push(Some(pixels)).drop_last() =~= frames);
}

/// Where every size can be drawn, each gives one pixmap, in their order.
proof fn lemma_all_drawn(sides: Seq<u32>, frames: Seq<Option<Vec<u8>>>)
    requires
        forall|i: int| 0 <= i < frames.len() ==> (#[trigger] frames[i]) is Some,
    ensures
        pixmaps(sides, frames).len() == frames.len(),
        forall|i: int|
            0 <= i < frames.len() ==> (#[trigger] pixmaps(sides, frames)[i]).width == sides[i]
                && pixmaps(sides, frames)[i].height == sides[i] && pixmaps(sides, frames)[i].data
                == argb(frames[i]->0@),
    decreases frames.len(),
{
    if frames.len() > 0 {
        assert(frames[frames.len() - 1] is Some);
        lemma_all_drawn(sides, frames.drop_last());
    }
}

/// A renderer that reads the document and draws it in every size gives a pixmap
/// of each size; one that cannot read the document gives none.
pub proof fn law_every_size_is_offered<
    T,
    P: Fn(&String) -> Option<T>,
    D: Fn(&T, u32) -> Option<Vec<u8>>,
>(parse: P, draw: D, svg: Seq<char>, icons: Seq<PixmapView>)
    requires
        drawn(parse, draw, svg, icons),
    ensures
        (forall|doc: &String, parsed: Option<T>|
            doc@ == svg && #[trigger] call_ensures(parse, (doc,), parsed) ==> parsed is None)
            ==> icons.len() == 0,
        (forall|doc: &String, parsed: Option<T>|
            doc@ == svg && #[trigger] call_ensures(parse, (doc,), parsed) ==> parsed is Some) && (
        forall|
            tree: &T,
            side: u32,
            frame: Option<Vec<u8>>,
        | #[trigger]
            call_ensures(draw, (tree, side), frame) ==> frame is Some) ==> {
            &&& icons.len() == 6
            &&& icons[0].width == 16 && icons[1].width == 22 && icons[2].width == 24
            &&& icons[3].width == 32 && icons[4].width == 48 && icons[5].width == 64
            &&& forall|i: int| 0 <= i < 6 ==> (#[trigger] icons[i]).height == icons[i].width
        },
{
    let (doc, parsed) = choose|doc: String, parsed: Option<T>|
        {
            &&& doc@ == svg
            &&& #[trigger] call_ensures(parse, (&doc,), parsed)
            &&& match parsed {
                None => icons.len() == 0,
                Some(tree) => exists|frames: Seq<Option<Vec<u8>>>|
                    {
                        &&& frames.len() == SIZES@.len()
                        &&& forall|i: int|
                            0 <= i < frames.len() ==> call_ensures(
                                draw,
                                (&tree, SIZES@[i]),
                                #[trigger] frames[i],
                            )
                        &&& icons == #[trigger] pixmaps(SIZES@, frames)
                    },
            }
        };
    if (forall|d: &String, p: Option<T>|
        d@ == svg && #[trigger] call_ensures(parse, (d,), p) ==> p is Some) && (forall|
        tree: &T,
        side: u32,
        frame: Option<Vec<u8>>,
    | #[trigger]
        call_ensures(draw, (tree, side), frame) ==> frame is Some) {
        assert(parsed is Some);
        let tree = parsed->0;
        let frames = choose|frames: Seq<Option<Vec<u8>>>|
            {
                &&& frames.len() == SIZES@.len()
                &&& forall|i: int|
                    0 <= i < frames.len() ==> call_ensures(
                        draw,
                        (&tree, SIZES@[i]),
                        #[trigger] frames[i],
                    )
                &&& icons == #[trigger] pixmaps(SIZES@, frames)
            };
        assert forall|i: int| 0 <= i < frames.len() implies (#[trigger] frames[i]) is Some by {
            assert(call_ensures(draw, (&tree, SIZES@[i]), frames[i]));
        }
        lemma_all_drawn(SIZES@, frames);
    }
}

/// A dark panel shows the light pixmaps, any other the dark ones.
pub proof fn law_tone_stands_out(icon: ThemedIcon, mode: Mode)
    ensures
        mode == Mode::Dark ==> icon.tone(mode) == icon.light.deep_view(),
        mode != Mode::Dark ==> icon.tone(mode) == icon.dark.deep_view(),
{
}

/// The light pixmaps of a glyph are drawn of its document in the light tone, the
/// dark ones of its document in the dark tone.
pub proof fn law_drawn_in_its_tone<
    T,
    P: Fn(&String) -> Option<T>,
    D: Fn(&T, u32) -> Option<Vec<u8>>,
>(parse: P, draw: D, icon: IconView, shown: ThemedIcon)
    requires
        themed(parse, draw, icon, shown),
    ensures
        drawn(parse, draw, document(icon, "#e6e6e6"@), shown.light.deep_view()),
        drawn(parse, draw, document(icon, "#2c2c2c"@), shown.dark.deep_view()),
{
}

/// Of a pixmap everything is told.
pub proof fn law_pixmap_is_told_whole(icon: Icon)
    ensures
        icon@.width == icon.width && icon@.height == icon.height && icon@.data == icon.data@,
{
}

} // verus!
