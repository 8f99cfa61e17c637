use vstd::prelude::*;
use crate::gui::Drawable;
use crate::screen::Screen;
use crate::util::Color;

verus! {

/// Whether row-major index `i` of a page `pw` pixels wide falls inside
/// widget `w`'s rectangle.
pub open spec fn idx_covered(w: Drawable, i: int, pw: int) -> bool {
    let x = i % pw;
    let y = i / pw;
    &&& w.spec_pos().x <= x < w.spec_pos().x + w.spec_width()
    &&& w.spec_pos().y <= y < w.spec_pos().y + w.spec_height()
}

/// The pixel widget `w` shows at row-major page index `i`.
pub open spec fn widget_pixel(w: Drawable, i: int, pw: int) -> Color {
    let x = i % pw;
    let y = i / pw;
    w.spec_pixels()[(y - w.spec_pos().y) * w.spec_width() + (x - w.spec_pos().x)]
}

/// One widget painted over a buffer: its pixels where it covers, the
/// buffer's elsewhere.
pub open spec fn paint_one(buf: Seq<Color>, w: Drawable, pw: int) -> Seq<Color> {
    Seq::new(
        buf.len(),
        |i: int| if idx_covered(w, i, pw) { widget_pixel(w, i, pw) } else { buf[i] },
    )
}

/// All widgets painted over a buffer, in order: later ones over earlier.
pub open spec fn paint_all(buf: Seq<Color>, ws: Seq<Drawable>, pw: int) -> Seq<Color>
    decreases ws.len(),
{
    if ws.len() == 0 {
        buf
    } else {
        paint_one(paint_all(buf, ws.drop_last(), pw), ws.last(), pw)
    }
}

/// Whether widget `w`'s rectangle lies within a `pw` x `ph` page.
pub open spec fn in_bounds(w: Drawable, pw: int, ph: int) -> bool {
    &&& w.spec_pos().x + w.spec_width() <= pw
    &&& w.spec_pos().y + w.spec_height() <= ph
}

/// Whether every widget's rectangle lies within a `pw` x `ph` page.
pub open spec fn all_in_bounds(ws: Seq<Drawable>, pw: int, ph: int) -> bool {
    forall|j: int| 0 <= j < ws.len() ==> in_bounds(#[trigger] ws[j], pw, ph)
}

/// Whether any of the widgets covers row-major index `i`.
pub open spec fn covered_by_any(ws: Seq<Drawable>, i: int, pw: int) -> bool
    decreases ws.len(),
{
    if ws.len() == 0 {
        false
    } else {
        idx_covered(ws.last(), i, pw) || covered_by_any(ws.drop_last(), i, pw)
    }
}

/// The last widget in paint order that covers row-major index `i`.
pub open spec fn top_cover(ws: Seq<Drawable>, i: int, pw: int) -> Drawable
    decreases ws.len(),
{
    if ws.len() == 0 {
        arbitrary()
    } else if idx_covered(ws.last(), i, pw) {
        ws.last()
    } else {
        top_cover(ws.drop_last(), i, pw)
    }
}

/// Painting preserves the buffer's length.
pub proof fn lemma_paint_all_len(buf: Seq<Color>, ws: Seq<Drawable>, pw: int)
    ensures
        paint_all(buf, ws, pw).len() == buf.len(),
    decreases ws.len(),
{
    if ws.len() > 0 {
        lemma_paint_all_len(buf, ws.drop_last(), pw);
    }
}

/// What a painted buffer shows at one index: the pixel of the last widget
/// covering it, or the original buffer's pixel where none does.
pub proof fn lemma_paint_all_pointwise(buf: Seq<Color>, ws: Seq<Drawable>, pw: int, i: int)
    requires
        0 <= i < buf.len(),
    ensures
        paint_all(buf, ws, pw)[i] == if covered_by_any(ws, i, pw) {
            widget_pixel(top_cover(ws, i, pw), i, pw)
        } else {
            buf[i]
        },
    decreases ws.len(),
{
    lemma_paint_all_len(buf, ws, pw);
    if ws.len() > 0 {
        lemma_paint_all_len(buf, ws.drop_last(), pw);
        lemma_paint_all_pointwise(buf, ws.drop_last(), pw, i);
    }
}

/// Later insertions draw over earlier ones: painting `a` then `b`, every
/// index `b` covers shows `b`'s pixel, never `a`'s.
pub proof fn lemma_compositor_order(buf: Seq<Color>, a: Drawable, b: Drawable, pw: int, i: int)
    requires
        0 <= i < buf.len(),
        idx_covered(b, i, pw),
    ensures
        paint_all(buf, seq![a, b], pw)[i] == widget_pixel(b, i, pw),
{
    let ws = seq![a, b];
    assert(ws.last() == b);
    lemma_paint_all_len(buf, ws.drop_last(), pw);
}

/// Compositing is idempotent: painting the same widgets over an already
/// painted buffer changes nothing.
pub proof fn lemma_composite_idempotent(buf: Seq<Color>, ws: Seq<Drawable>, pw: int)
    ensures
        paint_all(paint_all(buf, ws, pw), ws, pw) == paint_all(buf, ws, pw),
{
    let c = paint_all(buf, ws, pw);
    lemma_paint_all_len(buf, ws, pw);
    lemma_paint_all_len(c, ws, pw);
    assert forall|i: int| 0 <= i < c.len() implies paint_all(c, ws, pw)[i] == c[i] by {
        lemma_paint_all_pointwise(buf, ws, pw, i);
        lemma_paint_all_pointwise(c, ws, pw, i);
    }
    assert(paint_all(c, ws, pw) =~= c);
}

/// How far one widget's painting has progressed: whether index `i` has been
/// written after finishing `row_lim` full rows and `col_lim` cells of the
/// next row.
spec fn painted_upto(w: Drawable, pw: int, row_lim: int, col_lim: int, i: int) -> bool {
    let x = i % pw;
    let y = i / pw;
    &&& idx_covered(w, i, pw)
    &&& (y < w.spec_pos().y + row_lim || (y == w.spec_pos().y + row_lim && x < w.spec_pos().x
        + col_lim))
}

/// An ordered collection of positioned widgets and the flat pixel buffer
/// they are composited into, pre-filled with a white background.
pub struct Page {
    pub width: u16,
    pub height: u16,
    pub widgets: Vec<Drawable>,
    pub buffer: Vec<Color>,
}

impl Page {
    /// Well-formed: one buffer pixel per page cell, and every widget's pixel
    /// data matches its size.
    pub open spec fn wf(&self) -> bool {
        &&& self.buffer@.len() == self.width * self.height
        &&& forall|j: int| 0 <= j < self.widgets@.len() ==> (#[trigger] self.widgets@[j]).wf()
    }

    /// A fresh page sized to the screen, with no widgets and a white
    /// background.
    pub fn new(screen: &Screen) -> (p: Page)
        ensures
            p.wf(),
            p.width == screen.width,
            p.height == screen.height,
            p.widgets@.len() == 0,
            p.buffer@ == Seq::new(
                (screen.width * screen.height) as nat,
                |i: int| Color { r: 255, g: 255, b: 255 },
            ),
    {
        let width = screen.width;
        let height = screen.height;
        proof {
            crate::util::lemma_dims_fit(width as int, height as int);
        }
        let buffer = crate::util::filled_vec(
            Color { r: 255, g: 255, b: 255 },
            (width as usize) * (height as usize),
        );
        Page { width, height, widgets: Vec::new(), buffer }
    }

    /// Appends a widget; insertion order is paint order.
    pub fn add(&mut self, obj: Drawable)
        requires
            old(self).wf(),
            obj.wf(),
        ensures
            final(self).wf(),
            final(self).widgets@ == old(self).widgets@.push(obj),
            final(self).width == old(self).width,
            final(self).height == old(self).height,
            final(self).buffer@ == old(self).buffer@,
    {
        self.widgets.push(obj);
    }

    /// Whether every widget's rectangle lies within the page.
    pub fn widgets_in_bounds(&self) -> (b: bool)
        ensures
            b == all_in_bounds(self.widgets@, self.width as int, self.height as int),
    {
        let mut j: usize = 0;
        while j < self.widgets.len()
            invariant
                j <= self.widgets@.len(),
                forall|k: int|
                    0 <= k < j ==> in_bounds(
                        #[trigger] self.widgets@[k],
                        self.width as int,
                        self.height as int,
                    ),
            decreases self.widgets@.len() - j,
        {
            let w = &self.widgets[j];
            let pos = w.get_pos();
            let x_ok = (pos.x as u32) + (w.get_width() as u32) <= self.width as u32;
            let y_ok = (pos.y as u32) + (w.get_height() as u32) <= self.height as u32;
            if !(x_ok && y_ok) {
                proof {
                    assert(!in_bounds(
                        self.widgets@[j as int],
                        self.width as int,
                        self.height as int,
                    ));
                }
                return false;
            }
            j = j + 1;
        }
        true
    }

    /// Resolves the page to pixels: paints each widget, in insertion order,
    /// over the page buffer, later widgets over earlier ones. Fails, with
    /// the buffer untouched, exactly where some widget's rectangle exceeds
    /// the page bounds; no partially painted buffer is ever observable.
    pub fn composite(&mut self) -> (r: Result<(), &'static str>)
        requires
            old(self).wf(),
        ensures
            final(self).wf(),
            final(self).width == old(self).width,
            final(self).height == old(self).height,
            final(self).widgets@ == old(self).widgets@,
            r is Ok <==> all_in_bounds(
                old(self).widgets@,
                old(self).width as int,
                old(self).height as int,
            ),
            r is Ok ==> final(self).buffer@ == paint_all(
                old(self).buffer@,
                old(self).widgets@,
                old(self).width as int,
            ),
            r is Err ==> final(self).buffer@ == old(self).buffer@,
    {
        if !self.widgets_in_bounds() {
            return Err("widget out of page bounds");
        }
        let ghost buf0 = self.buffer@;
        let ghost ws = self.widgets@;
        let pw = self.width;
        let ph = self.height;
        let mut j: usize = 0;
        while j < self.widgets.len()
            invariant
                self.wf(),
                self.width == pw,
                self.height == ph,
                self.widgets@ == ws,
                all_in_bounds(ws, pw as int, ph as int),
                j <= ws.len(),
                buf0.len() == pw * ph,
                self.buffer@ == paint_all(buf0, ws.take(j as int), pw as int),
            decreases ws.len() - j,
        {
            proof {
                assert(ws[j as int].wf());
                assert(in_bounds(ws[j as int], pw as int, ph as int));
                lemma_paint_all_len(buf0, ws.take(j as int), pw as int);
            }
            let w = &self.widgets[j];
            let wpos = w.get_pos();
            let wx = wpos.x;
            let wy = wpos.y;
            let ww = w.get_width();
            let wh = w.get_height();
            let pixels = w.make();
            let ghost wspec = ws[j as int];
            let ghost bprev = self.buffer@;
            proof {
                wspec.lemma_wf_pixels();
            }

            let mut row: u16 = 0;
            while row < wh
                invariant
                    self.wf(),
                    self.width == pw,
                    self.height == ph,
                    self.widgets@ == ws,
                    j < ws.len(),
                    wspec == ws[j as int],
                    wspec.wf(),
                    wx == wspec.spec_pos().x,
                    wy == wspec.spec_pos().y,
                    ww == wspec.spec_width(),
                    wh == wspec.spec_height(),
                    in_bounds(wspec, pw as int, ph as int),
                    pixels@ == wspec.spec_pixels(),
                    pixels@.len() == ww * wh,
                    row <= wh,
                    bprev.len() == pw * ph,
                    self.buffer@.len() == bprev.len(),
                    forall|i: int|
                        0 <= i < bprev.len() ==> self.buffer@[i] == (if painted_upto(
                            wspec,
                            pw as int,
                            row as int,
                            0,
                            i,
                        ) {
                            widget_pixel(wspec, i, pw as int)
                        } else {
                            bprev[i]
                        }),
                decreases wh - row,
            {
                let mut col: u16 = 0;
                while col < ww
                    invariant
                        self.wf(),
                        self.width == pw,
                        self.height == ph,
                        self.widgets@ == ws,
                        j < ws.len(),
                        wspec == ws[j as int],
                        wspec.wf(),
                        wx == wspec.spec_pos().x,
                        wy == wspec.spec_pos().y,
                        ww == wspec.spec_width(),
                        wh == wspec.spec_height(),
                        in_bounds(wspec, pw as int, ph as int),
                        pixels@ == wspec.spec_pixels(),
                        pixels@.len() == ww * wh,
                        row < wh,
                        col <= ww,
                        bprev.len() == pw * ph,
                        self.buffer@.len() == bprev.len(),
                        forall|i: int|
                            0 <= i < bprev.len() ==> self.buffer@[i] == (if painted_upto(
                                wspec,
                                pw as int,
                                row as int,
                                col as int,
                                i,
                            ) {
                                widget_pixel(wspec, i, pw as int)
                            } else {
                                bprev[i]
                            }),
                    decreases ww - col,
                {
                    proof {
                        crate::util::lemma_dims_fit(pw as int, ph as int);
                        crate::util::lemma_row_major(
                            pw as int,
                            ph as int,
                            (wx + col) as int,
                            (wy + row) as int,
                        );
                        crate::util::lemma_dims_fit(ww as int, wh as int);
                        crate::util::lemma_row_major(ww as int, wh as int, col as int, row as int);
                    }
                    let idx: usize = ((wy + row) as usize) * (pw as usize) + ((wx + col) as usize);
                    let px = pixels[((row as usize) * (ww as usize)) + (col as usize)];
                    let ghost bmid = self.buffer@;
                    self.buffer.set(idx, px);
                    proof {
                        let k0 = (wy + row) as int * (pw as int) + (wx + col) as int;
                        assert(idx_covered(wspec, k0, pw as int));
                        assert(widget_pixel(wspec, k0, pw as int) == pixels@[(row as int) * (
                        ww as int) + (col as int)]);
                        assert forall|i: int| 0 <= i < bprev.len() implies self.buffer@[i] == (
                        if painted_upto(wspec, pw as int, row as int, col as int + 1, i) {
                            widget_pixel(wspec, i, pw as int)
                        } else {
                            bprev[i]
                        }) by {
                            vstd::arithmetic::div_mod::lemma_fundamental_div_mod(i, pw as int);
                            if i != k0 {
                                assert(self.buffer@[i] == bmid[i]);
                                if i / (pw as int) == wy + row && i % (pw as int) == wx + col {
                                    assert((pw as int) * (i / (pw as int)) == (i / (pw as int)) * (
                                    pw as int)) by (nonlinear_arith);
                                    assert(i == k0);
                                }
                                assert(painted_upto(wspec, pw as int, row as int, col as int + 1, i)
                                    == painted_upto(wspec, pw as int, row as int, col as int, i));
                            }
                        }
                    }
                    col = col + 1;
                }
                proof {
                    assert forall|i: int| 0 <= i < bprev.len() implies painted_upto(
                        wspec,
                        pw as int,
                        row as int + 1,
                        0,
                        i,
                    ) == painted_upto(wspec, pw as int, row as int, ww as int, i) by {
                        vstd::arithmetic::div_mod::lemma_fundamental_div_mod(i, pw as int);
                    }
                }
                row = row + 1;
            }
            proof {
                lemma_paint_all_len(buf0, ws.take(j as int), pw as int);
                assert forall|i: int| 0 <= i < bprev.len() implies self.buffer@[i] == paint_one(
                    bprev,
                    wspec,
                    pw as int,
                )[i] by {
                    assert(painted_upto(wspec, pw as int, wh as int, 0, i) == idx_covered(
                        wspec,
                        i,
                        pw as int,
                    ));
                }
                assert(self.buffer@ =~= paint_one(bprev, wspec, pw as int));
                assert(ws.take(j as int + 1).drop_last() =~= ws.take(j as int));
                assert(ws.take(j as int + 1).last() == wspec);
                assert(self.buffer@ == paint_all(buf0, ws.take(j as int + 1), pw as int));
            }
            j = j + 1;
        }
        proof {
            assert(ws.take(ws.len() as int) =~= ws);
        }
        Ok(())
    }
}

} // verus!
