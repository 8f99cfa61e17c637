use vstd::prelude::*;
use crate::math::UVec;

verus! {

// Control-request numbers of the display device. The two geometry queries are
// the generic framebuffer ones; the two update requests are the ones this
// panel's driver answers.
pub const FBIOGET_VSCREENINFO: u64 = 0x4600;
pub const FBIOGET_FSCREENINFO: u64 = 0x4602;
pub const MXCFB_SEND_UPDATE: u64 = 0x4044462E;
pub const MXCFB_WAIT_FOR_UPDATE_COMPLETE: u64 = 0x4004462F;

// Waveform selectors of the panel. Only A2, GC16 and AUTO are chosen by the
// refresh modes below; the rest are listed for completeness.
pub const WAVEFORM_INIT: u32 = 0;
pub const WAVEFORM_DU: u32 = 1;
pub const WAVEFORM_GC16: u32 = 2;
pub const WAVEFORM_GC4: u32 = 3;
pub const WAVEFORM_A2: u32 = 4;
pub const WAVEFORM_GL16: u32 = 5;
pub const WAVEFORM_GLR16: u32 = 6;
pub const WAVEFORM_AUTO: u32 = 0x101;

pub const UPDATE_MODE_PARTIAL: u32 = 0x0;
pub const UPDATE_MODE_FULL: u32 = 0x1;

/// Sentinel temperature: let the panel use its ambient reading.
pub const TEMP_USE_AMBIENT: i32 = 0x1000;

pub const EPDC_FLAG_ENABLE_INVERSION: u32 = 0x01;
pub const EPDC_FLAG_FORCE_MONOCHROME: u32 = 0x02;

/// A refresh mode, selecting a waveform and a full-vs-partial flag.
#[derive(Debug, Copy, Clone, Eq, PartialEq, Structural)]
pub enum Mode {
    Fast,
    Partial,
    Gui,
    Full,
}

/// Fixed screen information, as the device reports it.
#[derive(Clone, Debug)]
pub struct FixScreenInfo {
    pub id: [u8; 16],
    pub smem_start: usize,
    pub smem_len: u32,
    pub kind: u32,
    pub type_aux: u32,
    pub visual: u32,
    pub xpanstep: u16,
    pub ypanstep: u16,
    pub ywrapstep: u16,
    pub line_length: u32,
    pub mmio_start: usize,
    pub mmio_len: u32,
    pub accel: u32,
    pub capabilities: u16,
    pub reserved: [u16; 2],
}

/// Variable screen information, as the device reports it.
#[derive(Clone, Debug)]
pub struct VarScreenInfo {
    pub xres: u32,
    pub yres: u32,
    pub xres_virtual: u32,
    pub yres_virtual: u32,
    pub xoffset: u32,
    pub yoffset: u32,
    pub bits_per_pixel: u32,
    pub grayscale: u32,
    pub red: Bitfield,
    pub green: Bitfield,
    pub blue: Bitfield,
    pub transp: Bitfield,
    pub nonstd: u32,
    pub activate: u32,
    pub height: u32,
    pub width: u32,
    pub accel_flags: u32,
    pub pixclock: u32,
    pub left_margin: u32,
    pub right_margin: u32,
    pub upper_margin: u32,
    pub lower_margin: u32,
    pub hsync_len: u32,
    pub vsync_len: u32,
    pub sync: u32,
    pub vmode: u32,
    pub rotate: u32,
    pub colorspace: u32,
    pub reserved: [u32; 4],
}

/// One colour channel's position within a pixel word.
#[derive(Clone, Debug)]
pub struct Bitfield {
    pub offset: u32,
    pub length: u32,
    pub msb_right: u32,
}

/// A rectangle of the panel, in pixel units.
#[derive(Clone, Debug)]
pub struct MxcfbRect {
    pub top: u32,
    pub left: u32,
    pub width: u32,
    pub height: u32,
}

/// The alternate-buffer part of an update command. This library never draws
/// from a second buffer, so every field is kept at zero.
#[derive(Clone, Debug)]
pub struct MxcfbAltBufferData {
    pub virt_addr: usize,
    pub phys_addr: u32,
    pub width: u32,
    pub height: u32,
    pub alt_update_region: MxcfbRect,
}

/// One update command, as handed to the device.
#[derive(Clone, Debug)]
pub struct MxcfbUpdateData {
    pub update_region: MxcfbRect,
    pub waveform_mode: u32,
    pub update_mode: u32,
    pub update_marker: u32,
    pub temp: i32,
    pub flags: u32,
    pub alt_buffer_data: MxcfbAltBufferData,
}

pub open spec fn zeroed_bitfield() -> Bitfield {
    Bitfield { offset: 0, length: 0, msb_right: 0 }
}

impl Default for Bitfield {
    fn default() -> (r: Self)
        ensures
            r == zeroed_bitfield(),
    {
        Bitfield { offset: 0, length: 0, msb_right: 0 }
    }
}

impl Default for FixScreenInfo {
    fn default() -> (r: Self)
        ensures
            r.id@ == Seq::new(16, |i: int| 0u8),
            r.reserved@ == Seq::new(2, |i: int| 0u16),
            r.smem_start == 0 && r.smem_len == 0 && r.kind == 0 && r.type_aux == 0,
            r.visual == 0 && r.xpanstep == 0 && r.ypanstep == 0 && r.ywrapstep == 0,
            r.line_length == 0 && r.mmio_start == 0 && r.mmio_len == 0,
            r.accel == 0 && r.capabilities == 0,
    {
        let id: [u8; 16] = [0, 0, 0, 0, 0, 0, 0, 0, 0, 0, 0, 0, 0, 0, 0, 0];
        let reserved: [u16; 2] = [0, 0];
        proof {
            assert(id@ =~= Seq::new(16, |i: int| 0u8));
            assert(reserved@ =~= Seq::new(2, |i: int| 0u16));
        }
        FixScreenInfo {
            id,
            smem_start: 0,
            smem_len: 0,
            kind: 0,
            type_aux: 0,
            visual: 0,
            xpanstep: 0,
            ypanstep: 0,
            ywrapstep: 0,
            line_length: 0,
            mmio_start: 0,
            mmio_len: 0,
            accel: 0,
            capabilities: 0,
            reserved,
        }
    }
}

impl Default for VarScreenInfo {
    fn default() -> (r: Self)
        ensures
            r.xres == 0 && r.yres == 0 && r.xres_virtual == 0 && r.yres_virtual == 0,
            r.xoffset == 0 && r.yoffset == 0 && r.bits_per_pixel == 0 && r.grayscale == 0,
            r.red == zeroed_bitfield() && r.green == zeroed_bitfield(),
            r.blue == zeroed_bitfield() && r.transp == zeroed_bitfield(),
            r.nonstd == 0 && r.activate == 0 && r.height == 0 && r.width == 0,
            r.accel_flags == 0 && r.pixclock == 0,
            r.left_margin == 0 && r.right_margin == 0 && r.upper_margin == 0,
            r.lower_margin == 0 && r.hsync_len == 0 && r.vsync_len == 0,
            r.sync == 0 && r.vmode == 0 && r.rotate == 0 && r.colorspace == 0,
            r.reserved@ == Seq::new(4, |i: int| 0u32),
    {
        let reserved: [u32; 4] = [0, 0, 0, 0];
        proof {
            assert(reserved@ =~= Seq::new(4, |i: int| 0u32));
        }
        VarScreenInfo {
            xres: 0,
            yres: 0,
            xres_virtual: 0,
            yres_virtual: 0,
            xoffset: 0,
            yoffset: 0,
            bits_per_pixel: 0,
            grayscale: 0,
            red: Bitfield { offset: 0, length: 0, msb_right: 0 },
            green: Bitfield { offset: 0, length: 0, msb_right: 0 },
            blue: Bitfield { offset: 0, length: 0, msb_right: 0 },
            transp: Bitfield { offset: 0, length: 0, msb_right: 0 },
            nonstd: 0,
            activate: 0,
            height: 0,
            width: 0,
            accel_flags: 0,
            pixclock: 0,
            left_margin: 0,
            right_margin: 0,
            upper_margin: 0,
            lower_margin: 0,
            hsync_len: 0,
            vsync_len: 0,
            sync: 0,
            vmode: 0,
            rotate: 0,
            colorspace: 0,
            reserved,
        }
    }
}

/// The waveform a refresh mode selects.
pub open spec fn spec_waveform(mode: Mode) -> u32 {
    match mode {
        Mode::Fast => WAVEFORM_A2,
        Mode::Partial => WAVEFORM_AUTO,
        Mode::Gui => WAVEFORM_AUTO,
        Mode::Full => WAVEFORM_GC16,
    }
}

/// The full-vs-partial flag a refresh mode selects.
pub open spec fn spec_update_mode(mode: Mode) -> u32 {
    match mode {
        Mode::Fast => UPDATE_MODE_PARTIAL,
        Mode::Partial => UPDATE_MODE_PARTIAL,
        Mode::Gui => UPDATE_MODE_FULL,
        Mode::Full => UPDATE_MODE_FULL,
    }
}

/// The update marker that follows `t`, wrapping at the integer's limit.
pub open spec fn token_next(t: u32) -> u32 {
    if t == u32::MAX { 0 } else { (t + 1) as u32 }
}

/// The byte length of the mapped region for a given geometry: the virtual
/// pixel area times bytes per pixel, capped by the device-reported memory
/// length.
pub open spec fn spec_frame_len(var_info: VarScreenInfo, fix_info: FixScreenInfo) -> int {
    let area_bytes = var_info.xres_virtual * var_info.yres_virtual * (var_info.bits_per_pixel / 8);
    if area_bytes > fix_info.smem_len { fix_info.smem_len as int } else { area_bytes }
}

/// The geometry a handle can be built over: bits per pixel a whole number of
/// bytes small enough to count in one byte, and every visible row addressable
/// within the mapped length.
pub open spec fn geometry_ok(var_info: VarScreenInfo, fix_info: FixScreenInfo) -> bool {
    &&& var_info.bits_per_pixel % 8 == 0
    &&& var_info.bits_per_pixel / 8 <= u8::MAX
    &&& spec_frame_len(var_info, fix_info) >= var_info.yres * fix_info.line_length
}

/// The model of an open display handle: the device geometry, the refresh
/// token, and the mapped frame memory held as plain bytes.
pub struct Framebuffer {
    pub frame: Vec<u8>,
    pub token: u32,
    pub flags: u32,
    pub bytes_per_pixel: u8,
    pub var_info: VarScreenInfo,
    pub fix_info: FixScreenInfo,
}

impl Framebuffer {
    /// The bytes of the mapped frame memory.
    pub open spec fn frame_view(&self) -> Seq<u8> {
        self.frame@
    }

    /// The update marker the next refresh will carry.
    pub open spec fn spec_token(&self) -> u32 {
        self.token
    }

    /// The flags word every refresh carries.
    pub open spec fn spec_flags(&self) -> u32 {
        self.flags
    }

    /// The byte offset of logical pixel (x, y) within the frame.
    pub open spec fn pixel_offset(&self, x: int, y: int) -> int {
        (self.var_info.xoffset + x) * self.bytes_per_pixel
            + (self.var_info.yoffset + y) * self.fix_info.line_length
    }

    /// Builds a handle over a queried geometry. Fails exactly where the
    /// geometry breaks the construction invariant; a valid handle always has
    /// `frame_len <= smem_len` and `frame_len >= yres * line_length`.
    pub fn new(var_info: VarScreenInfo, fix_info: FixScreenInfo) -> (r: Option<Framebuffer>)
        ensures
            r is Some <==> geometry_ok(var_info, fix_info),
            match r {
                Some(fb) => {
                    &&& fb.var_info == var_info
                    &&& fb.fix_info == fix_info
                    &&& fb.bytes_per_pixel == var_info.bits_per_pixel / 8
                    &&& fb.spec_token() == 1
                    &&& fb.spec_flags() == 0
                    &&& fb.frame_view() == Seq::new(
                        spec_frame_len(var_info, fix_info) as nat,
                        |i: int| 0u8,
                    )
                    &&& fb.frame_view().len() == spec_frame_len(var_info, fix_info)
                    &&& fb.frame_view().len() <= fix_info.smem_len
                    &&& fb.frame_view().len() >= var_info.yres * fix_info.line_length
                },
                None => true,
            },
    {
        if var_info.bits_per_pixel % 8 != 0 {
            return None;
        }
        let bytes_per_pixel: u32 = var_info.bits_per_pixel / 8;
        if bytes_per_pixel > u8::MAX as u32 {
            return None;
        }

        proof {
            assert(var_info.xres_virtual * var_info.yres_virtual
                <= 0x1_0000_0000_0000_0000_0000u128) by (nonlinear_arith)
                requires
                    0 <= var_info.xres_virtual <= u32::MAX,
                    0 <= var_info.yres_virtual <= u32::MAX,
            ;
            assert(var_info.xres_virtual * var_info.yres_virtual * (var_info.bits_per_pixel / 8)
                <= 0x1_0000_0000_0000_0000_0000u128 * 255) by (nonlinear_arith)
                requires
                    0 <= var_info.xres_virtual * var_info.yres_virtual
                        <= 0x1_0000_0000_0000_0000_0000u128,
                    0 <= var_info.bits_per_pixel / 8 <= u8::MAX,
            ;
        }
        let area_bytes: u128 = (var_info.xres_virtual as u128) * (var_info.yres_virtual as u128)
            * (bytes_per_pixel as u128);
        let frame_size: u128 = if area_bytes > fix_info.smem_len as u128 {
            fix_info.smem_len as u128
        } else {
            area_bytes
        };
        assert(frame_size == spec_frame_len(var_info, fix_info));

        proof {
            assert(0 <= var_info.yres * fix_info.line_length
                <= 0x1_0000_0000_0000_0000_0000u128) by (nonlinear_arith)
                requires
                    0 <= var_info.yres <= u32::MAX,
                    0 <= fix_info.line_length <= u32::MAX,
            ;
        }
        let row_bytes: u128 = (var_info.yres as u128) * (fix_info.line_length as u128);
        if frame_size < row_bytes {
            return None;
        }

        let frame = crate::util::filled_vec(0u8, frame_size as usize);
        Some(Framebuffer {
            frame,
            token: 1,
            flags: 0,
            bytes_per_pixel: bytes_per_pixel as u8,
            var_info,
            fix_info,
        })
    }

    /// The byte length of the mapped region.
    pub fn frame_size(&self) -> (r: usize)
        ensures
            r == self.frame_view().len(),
    {
        self.frame.len()
    }

    /// The bytes of the frame, for handing to the device.
    pub fn frame(&self) -> (r: &Vec<u8>)
        ensures
            r@ == self.frame_view(),
    {
        &self.frame
    }

    /// The update marker the next refresh will carry.
    pub fn token(&self) -> (r: u32)
        ensures
            r == self.spec_token(),
    {
        self.token
    }

    /// Writes one pixel: a four-byte packed word at the pixel's offset, with
    /// the channel order the hardware expects (blue, green, red, padding).
    pub fn set_pixel(&mut self, p: UVec, rgb: [u8; 3])
        requires
            old(self).pixel_offset(p.x as int, p.y as int) + 4 <= old(self).frame_view().len(),
        ensures
            ({
                let off = old(self).pixel_offset(p.x as int, p.y as int);
                let oldf = old(self).frame_view();
                let newf = final(self).frame_view();
                &&& newf.len() == oldf.len()
                &&& newf[off] == rgb[2]
                &&& newf[off + 1] == rgb[1]
                &&& newf[off + 2] == rgb[0]
                &&& newf[off + 3] == 0u8
                &&& forall|k: int|
                    0 <= k < oldf.len() && !(off <= k < off + 4) ==> newf[k] == oldf[k]
            }),
            final(self).var_info == old(self).var_info,
            final(self).fix_info == old(self).fix_info,
            final(self).bytes_per_pixel == old(self).bytes_per_pixel,
            final(self).spec_token() == old(self).spec_token(),
            final(self).spec_flags() == old(self).spec_flags(),
    {
        let len = self.frame.len();
        proof {
            assert(0 <= (self.var_info.xoffset + p.x) * self.bytes_per_pixel
                <= 0x2_0000_0000 * 255) by (nonlinear_arith)
                requires
                    0 <= self.var_info.xoffset + p.x <= 0x2_0000_0000,
                    0 <= self.bytes_per_pixel <= 255,
            ;
            assert((self.var_info.yoffset + p.y) * self.fix_info.line_length
                >= 0) by (nonlinear_arith)
                requires
                    self.var_info.yoffset + p.y >= 0,
                    self.fix_info.line_length >= 0,
            ;
            assert((self.var_info.xoffset + p.x) * self.bytes_per_pixel
                + (self.var_info.yoffset + p.y) * self.fix_info.line_length + 4 <= len);
        }
        let addr: u64 = ((self.var_info.xoffset as u64) + (p.x as u64))
            * (self.bytes_per_pixel as u64)
            + ((self.var_info.yoffset as u64) + (p.y as u64)) * (self.fix_info.line_length as u64);
        let addr: usize = addr as usize;

        self.frame.set(addr + 2, rgb[0]);
        self.frame.set(addr + 1, rgb[1]);
        self.frame.set(addr, rgb[2]);
        self.frame.set(addr + 3, 0);
    }

    /// Builds the update command for a region and mode: the waveform and
    /// full-vs-partial flag follow the fixed mode table, the marker is the
    /// current token, the temperature is the ambient sentinel, and the
    /// alternate-buffer part is zeroed.
    pub fn refresh_command(&self, rect: MxcfbRect, mode: Mode) -> (cmd: MxcfbUpdateData)
        ensures
            cmd.update_region == rect,
            cmd.waveform_mode == spec_waveform(mode),
            cmd.update_mode == spec_update_mode(mode),
            cmd.update_marker == self.spec_token(),
            cmd.temp == TEMP_USE_AMBIENT,
            cmd.flags == self.spec_flags(),
            cmd.alt_buffer_data.virt_addr == 0,
            cmd.alt_buffer_data.phys_addr == 0,
            cmd.alt_buffer_data.width == 0,
            cmd.alt_buffer_data.height == 0,
            cmd.alt_buffer_data.alt_update_region.top == 0,
            cmd.alt_buffer_data.alt_update_region.left == 0,
            cmd.alt_buffer_data.alt_update_region.width == 0,
            cmd.alt_buffer_data.alt_update_region.height == 0,
    {
        let (update_mode, waveform_mode): (u32, u32) = match mode {
            Mode::Fast => (UPDATE_MODE_PARTIAL, WAVEFORM_A2),
            Mode::Partial => (UPDATE_MODE_PARTIAL, WAVEFORM_AUTO),
            Mode::Gui => (UPDATE_MODE_FULL, WAVEFORM_AUTO),
            Mode::Full => (UPDATE_MODE_FULL, WAVEFORM_GC16),
        };
        let alt_buffer_data = MxcfbAltBufferData {
            virt_addr: 0,
            phys_addr: 0,
            width: 0,
            height: 0,
            alt_update_region: MxcfbRect { top: 0, left: 0, width: 0, height: 0 },
        };
        MxcfbUpdateData {
            update_region: rect,
            waveform_mode,
            update_mode,
            update_marker: self.token,
            temp: TEMP_USE_AMBIENT,
            flags: self.flags,
            alt_buffer_data,
        }
    }

    /// Records that the command carrying the current token was issued:
    /// returns that marker and advances the token, wrapping on overflow.
    pub fn refresh_issued(&mut self) -> (marker: u32)
        ensures
            marker == old(self).spec_token(),
            final(self).spec_token() == token_next(old(self).spec_token()),
            final(self).frame_view() == old(self).frame_view(),
            final(self).var_info == old(self).var_info,
            final(self).fix_info == old(self).fix_info,
            final(self).bytes_per_pixel == old(self).bytes_per_pixel,
            final(self).spec_flags() == old(self).spec_flags(),
    {
        let marker = self.token;
        self.token = if self.token == u32::MAX { 0 } else { self.token + 1 };
        marker
    }
}

/// Pixel addressing is injective on the visible rectangle, and every visible
/// pixel's word lies within the frame: distinct coordinates in
/// [0, xres) x [0, yres) map to distinct byte offsets, each at least one
/// pixel's width below the frame length.
pub proof fn lemma_pixel_offset_injective(
    fb: Framebuffer,
    x1: int,
    y1: int,
    x2: int,
    y2: int,
)
    requires
        fb.bytes_per_pixel >= 1,
        fb.fix_info.line_length >= (fb.var_info.xoffset + fb.var_info.xres) * fb.bytes_per_pixel,
        fb.frame_view().len() >= (fb.var_info.yoffset + fb.var_info.yres)
            * fb.fix_info.line_length,
        0 <= x1 < fb.var_info.xres,
        0 <= y1 < fb.var_info.yres,
        0 <= x2 < fb.var_info.xres,
        0 <= y2 < fb.var_info.yres,
    ensures
        fb.pixel_offset(x1, y1) + fb.bytes_per_pixel <= fb.frame_view().len(),
        (x1 != x2 || y1 != y2) ==> fb.pixel_offset(x1, y1) != fb.pixel_offset(x2, y2),
{
    lemma_pixel_offset_in_frame(
        fb.var_info.xoffset as int,
        fb.var_info.yoffset as int,
        fb.var_info.xres as int,
        fb.var_info.yres as int,
        fb.bytes_per_pixel as int,
        fb.fix_info.line_length as int,
        fb.frame_view().len() as int,
        x1,
        y1,
    );
    if x1 != x2 || y1 != y2 {
        lemma_offsets_apart(
            fb.var_info.xoffset as int,
            fb.var_info.yoffset as int,
            fb.var_info.xres as int,
            fb.var_info.yres as int,
            fb.bytes_per_pixel as int,
            fb.fix_info.line_length as int,
            x1,
            y1,
            x2,
            y2,
        );
    }
}

/// A visible pixel's word lies within the frame.
pub proof fn lemma_pixel_offset_in_frame(
    xo: int,
    yo: int,
    xres: int,
    yres: int,
    bpp: int,
    line: int,
    len: int,
    x: int,
    y: int,
)
    requires
        xo >= 0,
        yo >= 0,
        bpp >= 1,
        line >= (xo + xres) * bpp,
        len >= (yo + yres) * line,
        0 <= x < xres,
        0 <= y < yres,
    ensures
        0 <= (xo + x) * bpp + (yo + y) * line,
        (xo + x) * bpp + (yo + y) * line + bpp <= len,
    decreases 0int,
{
    assert((xo + x) * bpp + bpp <= (xo + xres) * bpp) by (nonlinear_arith)
        requires
            x < xres,
            bpp >= 1,
            xo >= 0,
    ;
    assert((yo + y) * line + line <= (yo + yres) * line) by (nonlinear_arith)
        requires
            y < yres,
            line >= 0,
            yo >= 0,
    ;
    assert((xo + x) * bpp >= 0 && (yo + y) * line >= 0) by (nonlinear_arith)
        requires
            xo + x >= 0,
            bpp >= 0,
            yo + y >= 0,
            line >= 0,
    ;
}

/// The words of two distinct visible pixels do not overlap: their offsets
/// are at least one pixel's width apart.
pub proof fn lemma_offsets_apart(
    xo: int,
    yo: int,
    xres: int,
    yres: int,
    bpp: int,
    line: int,
    x1: int,
    y1: int,
    x2: int,
    y2: int,
)
    requires
        xo >= 0,
        yo >= 0,
        bpp >= 1,
        line >= (xo + xres) * bpp,
        0 <= x1 < xres,
        0 <= y1 < yres,
        0 <= x2 < xres,
        0 <= y2 < yres,
        x1 != x2 || y1 != y2,
    ensures
        ({
            let o1 = (xo + x1) * bpp + (yo + y1) * line;
            let o2 = (xo + x2) * bpp + (yo + y2) * line;
            o1 + bpp <= o2 || o2 + bpp <= o1
        }),
{
    let o1 = (xo + x1) * bpp + (yo + y1) * line;
    let o2 = (xo + x2) * bpp + (yo + y2) * line;
    if y1 == y2 {
        assert(o1 + bpp <= o2 || o2 + bpp <= o1) by (nonlinear_arith)
            requires
                o1 == (xo + x1) * bpp + (yo + y1) * line,
                o2 == (xo + x2) * bpp + (yo + y2) * line,
                y1 == y2,
                x1 != x2,
                bpp >= 1,
        ;
    } else {
        assert(o1 + bpp <= o2 || o2 + bpp <= o1) by (nonlinear_arith)
            requires
                o1 == (xo + x1) * bpp + (yo + y1) * line,
                o2 == (xo + x2) * bpp + (yo + y2) * line,
                y1 != y2,
                bpp >= 1,
                line >= (xo + xres) * bpp,
                xo >= 0,
                0 <= x1 < xres,
                0 <= x2 < xres,
                0 <= y1,
                0 <= y2,
        ;
    }
}

} // verus!
