use vstd::prelude::*;
use vstd::arithmetic::div_mod::lemma_fundamental_div_mod;
use crate::framebuffer::{
    Framebuffer, Mode, MxcfbRect, MxcfbUpdateData, TEMP_USE_AMBIENT, UPDATE_MODE_FULL,
    WAVEFORM_GC16, lemma_offsets_apart, lemma_pixel_offset_in_frame, token_next,
};
use crate::math::{UVec, Vec2};
use crate::page::{Page, all_in_bounds, paint_all};
use crate::util::Color;

verus! {

/// Whether frame byte `k` belongs to the four-byte word of pixel (x, y).
pub open spec fn in_pixel_window(fb: Framebuffer, x: int, y: int, k: int) -> bool {
    fb.pixel_offset(x, y) <= k < fb.pixel_offset(x, y) + 4
}

/// Whether frame byte `k` belongs to the word of some pixel of the visible
/// `width` x `height` rectangle.
pub open spec fn in_visible_window(fb: Framebuffer, width: u16, height: u16, k: int) -> bool {
    exists|x: int, y: int|
        0 <= x < width && 0 <= y < height && #[trigger] in_pixel_window(fb, x, y, k)
}

/// Whether frame byte `k` belongs to the word of the `i`-th pixel in
/// row-major order.
spec fn nth_pixel_window(fb: Framebuffer, width: u16, i: int, k: int) -> bool {
    in_pixel_window(fb, i % (width as int), i / (width as int), k)
}

/// Whether frame byte `k` belongs to the word of one of the first `n`
/// pixels in row-major order.
spec fn done_window(fb: Framebuffer, width: u16, n: int, k: int) -> bool {
    exists|i: int| 0 <= i < n && #[trigger] nth_pixel_window(fb, width, i, k)
}

/// Whether the frame's word for pixel (x, y) holds the packed value of the
/// buffer's pixel there: blue, green, red, then a zero padding byte.
pub open spec fn pixel_shown(fb: Framebuffer, width: u16, buf: Seq<Color>, x: int, y: int) -> bool {
    let off = fb.pixel_offset(x, y);
    let c = buf[y * width + x];
    &&& fb.frame_view()[off] == c.b
    &&& fb.frame_view()[off + 1] == c.g
    &&& fb.frame_view()[off + 2] == c.r
    &&& fb.frame_view()[off + 3] == 0u8
}

/// `pixel_shown` at the `i`-th pixel in row-major order.
spec fn nth_pixel_shown(fb: Framebuffer, width: u16, buf: Seq<Color>, i: int) -> bool {
    pixel_shown(fb, width, buf, i % (width as int), i / (width as int))
}

/// The frame shows the buffer: every pixel of the visible rectangle holds
/// the packed value of the buffer's pixel.
pub open spec fn frame_shows(fb: Framebuffer, width: u16, height: u16, buf: Seq<Color>) -> bool {
    forall|x: int, y: int|
        0 <= x < width && 0 <= y < height ==> #[trigger] pixel_shown(fb, width, buf, x, y)
}

/// The all-white buffer a fresh page starts from and `clear` paints.
pub open spec fn white_buffer(width: u16, height: u16) -> Seq<Color> {
    Seq::new((width * height) as nat, |i: int| Color { r: 255, g: 255, b: 255 })
}

/// A row-major index below `width * height` decomposes into a column below
/// `width` and a row below `height`.
proof fn lemma_linear_coords(width: int, height: int, i: int)
    requires
        width >= 1,
        0 <= i < width * height,
    ensures
        0 <= i % width < width,
        0 <= i / width < height,
        (i / width) * width + i % width == i,
{
    assert(0 <= i % width < width && 0 <= i / width < height && (i / width) * width + i % width
        == i) by (nonlinear_arith)
        requires
            width >= 1,
            0 <= i < width * height,
    ;
}

/// Which bytes belong to visible pixel words depends on the geometry alone.
proof fn lemma_visible_window_congruence(
    fb1: Framebuffer,
    fb2: Framebuffer,
    width: u16,
    height: u16,
    k: int,
)
    requires
        fb1.var_info == fb2.var_info,
        fb1.fix_info == fb2.fix_info,
        fb1.bytes_per_pixel == fb2.bytes_per_pixel,
    ensures
        in_visible_window(fb1, width, height, k) == in_visible_window(fb2, width, height, k),
{
    if in_visible_window(fb1, width, height, k) {
        let (x, y) = choose|x: int, y: int|
            0 <= x < width && 0 <= y < height && #[trigger] in_pixel_window(fb1, x, y, k);
        assert(in_pixel_window(fb2, x, y, k));
    }
    if in_visible_window(fb2, width, height, k) {
        let (x, y) = choose|x: int, y: int|
            0 <= x < width && 0 <= y < height && #[trigger] in_pixel_window(fb2, x, y, k);
        assert(in_pixel_window(fb1, x, y, k));
    }
}

/// Writes a pixel buffer into the frame, one packed word per pixel of the
/// visible rectangle, in row-major order; bytes outside the visible pixel
/// words are left as they were.
fn blit_frame(fb: &mut Framebuffer, width: u16, height: u16, buf: &Vec<Color>)
    requires
        old(fb).bytes_per_pixel == 4,
        width <= old(fb).var_info.xres,
        height <= old(fb).var_info.yres,
        old(fb).fix_info.line_length >= (old(fb).var_info.xoffset + old(fb).var_info.xres) * 4,
        old(fb).frame_view().len() >= (old(fb).var_info.yoffset + old(fb).var_info.yres) * old(
            fb,
        ).fix_info.line_length,
        buf@.len() == width * height,
    ensures
        final(fb).var_info == old(fb).var_info,
        final(fb).fix_info == old(fb).fix_info,
        final(fb).bytes_per_pixel == old(fb).bytes_per_pixel,
        final(fb).spec_token() == old(fb).spec_token(),
        final(fb).spec_flags() == old(fb).spec_flags(),
        final(fb).frame_view().len() == old(fb).frame_view().len(),
        frame_shows(*final(fb), width, height, buf@),
        forall|k: int|
            0 <= k < old(fb).frame_view().len() && !in_visible_window(*old(fb), width, height, k)
                ==> final(fb).frame_view()[k] == old(fb).frame_view()[k],
{
    let ghost fb0 = *fb;
    proof {
        crate::util::lemma_dims_fit(width as int, height as int);
    }
    let total: usize = (width as usize) * (height as usize);
    let mut n: usize = 0;
    while n < total
        invariant
            fb.bytes_per_pixel == 4,
            width <= fb.var_info.xres,
            height <= fb.var_info.yres,
            fb.fix_info.line_length >= (fb.var_info.xoffset + fb.var_info.xres) * 4,
            fb.frame_view().len() >= (fb.var_info.yoffset + fb.var_info.yres)
                * fb.fix_info.line_length,
            buf@.len() == width * height,
            total == width * height,
            n <= total,
            fb.var_info == fb0.var_info,
            fb.fix_info == fb0.fix_info,
            fb.bytes_per_pixel == fb0.bytes_per_pixel,
            fb.spec_token() == fb0.spec_token(),
            fb.spec_flags() == fb0.spec_flags(),
            fb.frame_view().len() == fb0.frame_view().len(),
            forall|i: int| 0 <= i < n ==> #[trigger] nth_pixel_shown(*fb, width, buf@, i),
            forall|k: int|
                0 <= k < fb0.frame_view().len() && !done_window(fb0, width, n as int, k)
                    ==> fb.frame_view()[k] == fb0.frame_view()[k],
        decreases total - n,
    {
        proof {
            assert(width >= 1 && height >= 1) by (nonlinear_arith)
                requires
                    0 <= n < width * height,
            ;
            lemma_linear_coords(width as int, height as int, n as int);
            lemma_pixel_offset_in_frame(
                fb.var_info.xoffset as int,
                fb.var_info.yoffset as int,
                fb.var_info.xres as int,
                fb.var_info.yres as int,
                4,
                fb.fix_info.line_length as int,
                fb.frame_view().len() as int,
                (n as int) % (width as int),
                (n as int) / (width as int),
            );
        }
        let x: u16 = (n % (width as usize)) as u16;
        let y: u16 = (n / (width as usize)) as u16;
        let c = buf[n];
        let ghost fbprev = *fb;
        fb.set_pixel(Vec2 { x, y }, [c.r, c.g, c.b]);
        proof {
            let w = width as int;
            let ni = n as int;
            let off = fbprev.pixel_offset(ni % w, ni / w);

            // The word just written shows the buffer's pixel.
            assert(nth_pixel_shown(*fb, width, buf@, ni)) by {
                lemma_fundamental_div_mod(ni, w);
                assert((ni / w) * w + ni % w == ni);
            };

            // Earlier pixels' words are untouched: their windows are at
            // least one word apart from the one just written.
            assert forall|i: int| 0 <= i < ni implies nth_pixel_shown(*fb, width, buf@, i) by {
                assert(nth_pixel_shown(fbprev, width, buf@, i));
                lemma_linear_coords(w, height as int, i);
                lemma_pixel_offset_in_frame(
                    fb.var_info.xoffset as int,
                    fb.var_info.yoffset as int,
                    fb.var_info.xres as int,
                    fb.var_info.yres as int,
                    4,
                    fb.fix_info.line_length as int,
                    fb.frame_view().len() as int,
                    i % w,
                    i / w,
                );
                if i % w == ni % w && i / w == ni / w {
                    lemma_fundamental_div_mod(i, w);
                    lemma_fundamental_div_mod(ni, w);
                    assert(false);
                }
                lemma_offsets_apart(
                    fb.var_info.xoffset as int,
                    fb.var_info.yoffset as int,
                    fb.var_info.xres as int,
                    fb.var_info.yres as int,
                    4,
                    fb.fix_info.line_length as int,
                    i % w,
                    i / w,
                    ni % w,
                    ni / w,
                );
            }

            // Bytes outside the windows written so far are untouched.
            assert forall|k: int|
                0 <= k < fb0.frame_view().len() && !done_window(fb0, width, ni + 1, k)
                    implies fb.frame_view()[k] == fb0.frame_view()[k] by {
                if done_window(fb0, width, ni, k) {
                    let i = choose|i: int| 0 <= i < ni && #[trigger] nth_pixel_window(fb0, width, i, k);
                    assert(nth_pixel_window(fb0, width, i, k) && 0 <= i < ni + 1);
                    assert(done_window(fb0, width, ni + 1, k));
                }
                assert(fbprev.frame_view()[k] == fb0.frame_view()[k]);
                if off <= k < off + 4 {
                    assert(nth_pixel_window(fb0, width, ni, k));
                    assert(done_window(fb0, width, ni + 1, k));
                }
            }
        }
        n = n + 1;
    }
    proof {
        // Every visible pixel is shown.
        assert forall|x: int, y: int| 0 <= x < width && 0 <= y < height implies #[trigger]
        pixel_shown(*fb, width, buf@, x, y) by {
            crate::util::lemma_row_major(width as int, height as int, x, y);
            let i = y * (width as int) + x;
            assert(nth_pixel_shown(*fb, width, buf@, i));
        }
        // A byte in no visible window is in no written window either.
        assert forall|k: int|
            0 <= k < fb0.frame_view().len() && !in_visible_window(fb0, width, height, k)
                implies fb.frame_view()[k] == fb0.frame_view()[k] by {
            if done_window(fb0, width, total as int, k) {
                let i = choose|i: int| 0 <= i < total && #[trigger] nth_pixel_window(fb0, width, i, k);
                assert(width >= 1) by (nonlinear_arith)
                    requires
                        0 <= i < width * height,
                ;
                lemma_linear_coords(width as int, height as int, i);
                assert(in_pixel_window(fb0, i % (width as int), i / (width as int), k));
                assert(in_visible_window(fb0, width, height, k));
            }
        }
    }
}

/// The facade over the display for pages: the sole owner of the device
/// handle, exposing clear, plot, render and update.
pub struct Screen {
    pub fb: Framebuffer,
    pub width: u16,
    pub height: u16,
    pub pages: Vec<Page>,
}

impl Screen {
    /// Well-formed: the cached dimensions match the device geometry, every
    /// visible pixel's four-byte word is addressable, and every page is
    /// well-formed and sized to the screen.
    pub open spec fn wf(&self) -> bool {
        &&& self.width == self.fb.var_info.xres
        &&& self.height == self.fb.var_info.yres
        &&& self.fb.bytes_per_pixel == 4
        &&& self.fb.fix_info.line_length >= (self.fb.var_info.xoffset + self.fb.var_info.xres) * 4
        &&& self.fb.frame_view().len() >= (self.fb.var_info.yoffset + self.fb.var_info.yres)
            * self.fb.fix_info.line_length
        &&& forall|k: int|
            0 <= k < self.pages@.len() ==> {
                &&& (#[trigger] self.pages@[k]).wf()
                &&& self.pages@[k].width == self.width
                &&& self.pages@[k].height == self.height
            }
    }

    /// Takes sole ownership of an open device handle. Fails exactly where
    /// the geometry does not support four-byte pixel addressing over the
    /// visible rectangle.
    pub fn new(fb: Framebuffer) -> (r: Option<Screen>)
        ensures
            match r {
                Some(s) => {
                    &&& s.wf()
                    &&& s.fb == fb
                    &&& s.width == fb.var_info.xres
                    &&& s.height == fb.var_info.yres
                    &&& s.pages@.len() == 0
                },
                None => !({
                    &&& fb.var_info.xres <= u16::MAX
                    &&& fb.var_info.yres <= u16::MAX
                    &&& fb.bytes_per_pixel == 4
                    &&& fb.fix_info.line_length >= (fb.var_info.xoffset + fb.var_info.xres) * 4
                    &&& fb.frame_view().len() >= (fb.var_info.yoffset + fb.var_info.yres)
                        * fb.fix_info.line_length
                }),
            },
    {
        if fb.var_info.xres > u16::MAX as u32 || fb.var_info.yres > u16::MAX as u32 {
            return None;
        }
        if fb.bytes_per_pixel != 4 {
            return None;
        }
        let row_span: u64 = ((fb.var_info.xoffset as u64) + (fb.var_info.xres as u64)) * 4;
        if (fb.fix_info.line_length as u64) < row_span {
            return None;
        }
        proof {
            assert(0 <= (fb.var_info.yoffset + fb.var_info.yres) * fb.fix_info.line_length
                < 0x2_0000_0000 * 0x1_0000_0000) by (nonlinear_arith)
                requires
                    0 <= fb.var_info.yoffset + fb.var_info.yres <= 0x2_0000_0000,
                    0 <= fb.fix_info.line_length < 0x1_0000_0000,
            ;
        }
        let col_span: u128 = ((fb.var_info.yoffset as u128) + (fb.var_info.yres as u128))
            * (fb.fix_info.line_length as u128);
        if (fb.frame_size() as u128) < col_span {
            return None;
        }
        let width = fb.var_info.xres as u16;
        let height = fb.var_info.yres as u16;
        Some(Screen { fb, width, height, pages: Vec::new() })
    }

    /// Hands a prepared page to the screen; it must be sized to the screen.
    pub fn add_page(&mut self, page: Page)
        requires
            old(self).wf(),
            page.wf(),
            page.width == old(self).width,
            page.height == old(self).height,
        ensures
            final(self).wf(),
            final(self).pages@ == old(self).pages@.push(page),
            final(self).fb == old(self).fb,
            final(self).width == old(self).width,
            final(self).height == old(self).height,
    {
        self.pages.push(page);
    }

    /// Writes one pixel's packed word into the frame. Fails, writing
    /// nothing, exactly where the coordinate lies outside the screen.
    pub fn plot(&mut self, px: UVec, color: Color) -> (r: Result<(), &'static str>)
        requires
            old(self).wf(),
        ensures
            final(self).wf(),
            final(self).width == old(self).width,
            final(self).height == old(self).height,
            final(self).pages@ == old(self).pages@,
            final(self).fb.var_info == old(self).fb.var_info,
            final(self).fb.fix_info == old(self).fb.fix_info,
            final(self).fb.bytes_per_pixel == old(self).fb.bytes_per_pixel,
            final(self).fb.spec_token() == old(self).fb.spec_token(),
            final(self).fb.spec_flags() == old(self).fb.spec_flags(),
            final(self).fb.frame_view().len() == old(self).fb.frame_view().len(),
            r is Ok <==> (px.x < old(self).width && px.y < old(self).height),
            r is Ok ==> ({
                let off = old(self).fb.pixel_offset(px.x as int, px.y as int);
                let oldf = old(self).fb.frame_view();
                let newf = final(self).fb.frame_view();
                &&& newf[off] == color.b
                &&& newf[off + 1] == color.g
                &&& newf[off + 2] == color.r
                &&& newf[off + 3] == 0u8
                &&& forall|k: int|
                    0 <= k < oldf.len() && !(off <= k < off + 4) ==> newf[k] == oldf[k]
            }),
            r is Err ==> final(self).fb.frame_view() == old(self).fb.frame_view(),
    {
        if px.x >= self.width || px.y >= self.height {
            return Err("pixel outside of screen");
        }
        proof {
            lemma_pixel_offset_in_frame(
                self.fb.var_info.xoffset as int,
                self.fb.var_info.yoffset as int,
                self.fb.var_info.xres as int,
                self.fb.var_info.yres as int,
                4,
                self.fb.fix_info.line_length as int,
                self.fb.frame_view().len() as int,
                px.x as int,
                px.y as int,
            );
        }
        self.fb.set_pixel(px, [color.r, color.g, color.b]);
        Ok(())
    }

    /// Paints the whole visible rectangle white.
    pub fn clear(&mut self)
        requires
            old(self).wf(),
        ensures
            final(self).wf(),
            final(self).width == old(self).width,
            final(self).height == old(self).height,
            final(self).pages@ == old(self).pages@,
            final(self).fb.var_info == old(self).fb.var_info,
            final(self).fb.fix_info == old(self).fb.fix_info,
            final(self).fb.bytes_per_pixel == old(self).fb.bytes_per_pixel,
            final(self).fb.spec_token() == old(self).fb.spec_token(),
            final(self).fb.spec_flags() == old(self).fb.spec_flags(),
            final(self).fb.frame_view().len() == old(self).fb.frame_view().len(),
            frame_shows(
                final(self).fb,
                old(self).width,
                old(self).height,
                white_buffer(old(self).width, old(self).height),
            ),
            forall|k: int|
                0 <= k < old(self).fb.frame_view().len() && !in_visible_window(
                    old(self).fb,
                    old(self).width,
                    old(self).height,
                    k,
                ) ==> final(self).fb.frame_view()[k] == old(self).fb.frame_view()[k],
    {
        proof {
            crate::util::lemma_dims_fit(self.width as int, self.height as int);
        }
        let white = crate::util::filled_vec(
            Color { r: 255, g: 255, b: 255 },
            (self.width as usize) * (self.height as usize),
        );
        proof {
            assert(white@ =~= white_buffer(self.width, self.height));
        }
        blit_frame(&mut self.fb, self.width, self.height, &white);
    }

    /// Composites every page, in order, and writes each composited buffer
    /// into the frame; with several pages the frame ends showing the last.
    /// Fails, changing nothing, exactly where some page holds a widget
    /// whose rectangle exceeds the page; a partial frame is never written.
    pub fn render(&mut self) -> (r: Result<(), &'static str>)
        requires
            old(self).wf(),
        ensures
            final(self).wf(),
            final(self).width == old(self).width,
            final(self).height == old(self).height,
            final(self).fb.var_info == old(self).fb.var_info,
            final(self).fb.fix_info == old(self).fb.fix_info,
            final(self).fb.bytes_per_pixel == old(self).fb.bytes_per_pixel,
            final(self).fb.spec_token() == old(self).fb.spec_token(),
            final(self).fb.spec_flags() == old(self).fb.spec_flags(),
            final(self).fb.frame_view().len() == old(self).fb.frame_view().len(),
            r is Ok <==> (forall|p: int|
                0 <= p < old(self).pages@.len() ==> all_in_bounds(
                    (#[trigger] old(self).pages@[p]).widgets@,
                    old(self).width as int,
                    old(self).height as int,
                )),
            r is Err ==> *final(self) == *old(self),
            r is Ok ==> {
                &&& final(self).pages@.len() == old(self).pages@.len()
                &&& forall|p: int|
                    0 <= p < old(self).pages@.len() ==> {
                        &&& (#[trigger] final(self).pages@[p]).widgets@ == old(
                            self,
                        ).pages@[p].widgets@
                        &&& final(self).pages@[p].width == old(self).pages@[p].width
                        &&& final(self).pages@[p].height == old(self).pages@[p].height
                        &&& final(self).pages@[p].buffer@ == paint_all(
                            old(self).pages@[p].buffer@,
                            old(self).pages@[p].widgets@,
                            old(self).width as int,
                        )
                    }
                &&& old(self).pages@.len() == 0 ==> final(self).fb == old(self).fb
                &&& old(self).pages@.len() > 0 ==> frame_shows(
                    final(self).fb,
                    old(self).width,
                    old(self).height,
                    final(self).pages@.last().buffer@,
                )
                &&& forall|k: int|
                    0 <= k < old(self).fb.frame_view().len() && !in_visible_window(
                        old(self).fb,
                        old(self).width,
                        old(self).height,
                        k,
                    ) ==> final(self).fb.frame_view()[k] == old(self).fb.frame_view()[k]
            },
    {
        let ghost s0 = *self;

        // Validate every page first: a partial frame is never written.
        let mut p: usize = 0;
        while p < self.pages.len()
            invariant
                *self == s0,
                s0.wf(),
                p <= self.pages@.len(),
                forall|q: int|
                    0 <= q < p ==> all_in_bounds(
                        (#[trigger] self.pages@[q]).widgets@,
                        self.width as int,
                        self.height as int,
                    ),
            decreases self.pages@.len() - p,
        {
            if !self.pages[p].widgets_in_bounds() {
                return Err("render call out of screen");
            }
            p = p + 1;
        }

        let width = self.width;
        let height = self.height;
        let mut p: usize = 0;
        while p < self.pages.len()
            invariant
                self.wf(),
                self.width == s0.width,
                self.height == s0.height,
                width == s0.width,
                height == s0.height,
                s0.wf(),
                p <= self.pages@.len(),
                self.pages@.len() == s0.pages@.len(),
                self.fb.var_info == s0.fb.var_info,
                self.fb.fix_info == s0.fb.fix_info,
                self.fb.bytes_per_pixel == s0.fb.bytes_per_pixel,
                self.fb.spec_token() == s0.fb.spec_token(),
                self.fb.spec_flags() == s0.fb.spec_flags(),
                self.fb.frame_view().len() == s0.fb.frame_view().len(),
                forall|q: int|
                    0 <= q < s0.pages@.len() ==> all_in_bounds(
                        (#[trigger] s0.pages@[q]).widgets@,
                        width as int,
                        height as int,
                    ),
                forall|q: int|
                    p <= q < s0.pages@.len() ==> #[trigger] self.pages@[q] == s0.pages@[q],
                forall|q: int|
                    0 <= q < p ==> {
                        &&& (#[trigger] self.pages@[q]).widgets@ == s0.pages@[q].widgets@
                        &&& self.pages@[q].width == s0.pages@[q].width
                        &&& self.pages@[q].height == s0.pages@[q].height
                        &&& self.pages@[q].buffer@ == paint_all(
                            s0.pages@[q].buffer@,
                            s0.pages@[q].widgets@,
                            width as int,
                        )
                    },
                p == 0 ==> self.fb == s0.fb,
                p > 0 ==> frame_shows(self.fb, width, height, self.pages@[p - 1].buffer@),
                forall|k: int|
                    0 <= k < s0.fb.frame_view().len() && !in_visible_window(
                        s0.fb,
                        width,
                        height,
                        k,
                    ) ==> self.fb.frame_view()[k] == s0.fb.frame_view()[k],
            decreases self.pages@.len() - p,
        {
            let ghost fb_before = self.fb;
            let page: &mut Page = &mut self.pages[p];
            let res = page.composite();
            match res {
                Ok(()) => {},
                Err(e) => {
                    proof {
                        assert(false);
                    }
                    return Err(e);
                },
            }
            blit_frame(&mut self.fb, width, height, &self.pages[p].buffer);
            proof {
                assert forall|k: int|
                    0 <= k < s0.fb.frame_view().len() && !in_visible_window(
                        s0.fb,
                        width,
                        height,
                        k,
                    ) implies self.fb.frame_view()[k] == s0.fb.frame_view()[k] by {
                    lemma_visible_window_congruence(s0.fb, fb_before, width, height, k);
                }
            }
            p = p + 1;
        }
        Ok(())
    }

    /// Builds the full-screen, full-mode refresh command carrying the
    /// current update marker, and advances the marker for the next refresh.
    pub fn update(&mut self) -> (r: (MxcfbUpdateData, u32))
        requires
            old(self).wf(),
        ensures
            final(self).wf(),
            final(self).width == old(self).width,
            final(self).height == old(self).height,
            final(self).pages@ == old(self).pages@,
            final(self).fb.frame_view() == old(self).fb.frame_view(),
            final(self).fb.var_info == old(self).fb.var_info,
            final(self).fb.fix_info == old(self).fb.fix_info,
            final(self).fb.bytes_per_pixel == old(self).fb.bytes_per_pixel,
            final(self).fb.spec_flags() == old(self).fb.spec_flags(),
            final(self).fb.spec_token() == token_next(old(self).fb.spec_token()),
            r.1 == old(self).fb.spec_token(),
            r.0.update_region == (MxcfbRect {
                top: 0,
                left: 0,
                width: old(self).width as u32,
                height: old(self).height as u32,
            }),
            r.0.waveform_mode == WAVEFORM_GC16,
            r.0.update_mode == UPDATE_MODE_FULL,
            r.0.update_marker == old(self).fb.spec_token(),
            r.0.temp == TEMP_USE_AMBIENT,
            r.0.flags == old(self).fb.spec_flags(),
            r.0.alt_buffer_data.virt_addr == 0,
            r.0.alt_buffer_data.phys_addr == 0,
            r.0.alt_buffer_data.width == 0,
            r.0.alt_buffer_data.height == 0,
            r.0.alt_buffer_data.alt_update_region.top == 0,
            r.0.alt_buffer_data.alt_update_region.left == 0,
            r.0.alt_buffer_data.alt_update_region.width == 0,
            r.0.alt_buffer_data.alt_update_region.height == 0,
    {
        let rect = MxcfbRect {
            top: 0,
            left: 0,
            width: self.width as u32,
            height: self.height as u32,
        };
        let cmd = self.fb.refresh_command(rect, Mode::Full);
        let marker = self.fb.refresh_issued();
        (cmd, marker)
    }
}

} // verus!
