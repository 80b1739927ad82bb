//! VGA displays: display classification, validated display handles, the
//! native calls made on a display and the translation of their return codes.
use vstd::prelude::*;

verus! {

/// Native classification code of a display of unknown type.
pub const CGOS_VGA_TYPE_UNKNOWN: u32 = 0;

/// Native classification code of a CRT display.
pub const CGOS_VGA_TYPE_CRT: u32 = 0x0001_0000;

/// Native classification code of an LCD display.
pub const CGOS_VGA_TYPE_LCD: u32 = 0x0002_0000;

/// Native classification code of an LCD display on a DVO interface.
pub const CGOS_VGA_TYPE_LCD_DVO: u32 = 0x0003_0000;

/// Native classification code of an LCD display on an LVDS interface.
pub const CGOS_VGA_TYPE_LCD_LVDS: u32 = 0x0004_0000;

/// Native classification code of a TV output.
pub const CGOS_VGA_TYPE_TV: u32 = 0x0005_0000;

/// Error type for VGA operations.
#[derive(PartialEq, Eq, Structural, Copy, Clone, Debug)]
pub enum VgaErr {
    /// User-supplied index is out of range
    IdxOutOfRange,
    /// Any error returned by the underlying native calls
    LibcgosErr,
}

/// Result of a VGA operation.
pub type VgaResult<T> = Result<T, VgaErr>;

/// Classification of a display.
#[derive(Copy, Clone, Debug, PartialEq, Eq, Structural, Hash)]
pub enum VgaType {
    Unknown,
    Crt,
    Lcd,
    LcdDv0,
    LcdLvds,
    Tv,
    /// A code the native header does not declare.
    Other(u32),
}

/// The native code of a display classification.
pub open spec fn vga_type_code(t: VgaType) -> u32 {
    match t {
        VgaType::Unknown => CGOS_VGA_TYPE_UNKNOWN,
        VgaType::Crt => CGOS_VGA_TYPE_CRT,
        VgaType::Lcd => CGOS_VGA_TYPE_LCD,
        VgaType::LcdDv0 => CGOS_VGA_TYPE_LCD_DVO,
        VgaType::LcdLvds => CGOS_VGA_TYPE_LCD_LVDS,
        VgaType::Tv => CGOS_VGA_TYPE_TV,
        VgaType::Other(x) => x,
    }
}

/// The display classification of a native code: a declared code gives its
/// named variant, any other code the reserved variant holding it.
pub open spec fn vga_type_of_code(code: u32) -> VgaType {
    if code == CGOS_VGA_TYPE_UNKNOWN {
        VgaType::Unknown
    } else if code == CGOS_VGA_TYPE_CRT {
        VgaType::Crt
    } else if code == CGOS_VGA_TYPE_LCD {
        VgaType::Lcd
    } else if code == CGOS_VGA_TYPE_LCD_DVO {
        VgaType::LcdDv0
    } else if code == CGOS_VGA_TYPE_LCD_LVDS {
        VgaType::LcdLvds
    } else if code == CGOS_VGA_TYPE_TV {
        VgaType::Tv
    } else {
        VgaType::Other(code)
    }
}

/// Whether a native code is one of the declared display classifications.
pub open spec fn is_declared_vga_type_code(code: u32) -> bool {
    code == CGOS_VGA_TYPE_UNKNOWN || code == CGOS_VGA_TYPE_CRT || code == CGOS_VGA_TYPE_LCD
        || code == CGOS_VGA_TYPE_LCD_DVO || code == CGOS_VGA_TYPE_LCD_LVDS || code
        == CGOS_VGA_TYPE_TV
}

impl From<VgaType> for u32 {
    fn from(val: VgaType) -> (r: u32)
        ensures
            r == vga_type_code(val),
    {
        match val {
            VgaType::Unknown => CGOS_VGA_TYPE_UNKNOWN,
            VgaType::Crt => CGOS_VGA_TYPE_CRT,
            VgaType::Lcd => CGOS_VGA_TYPE_LCD,
            VgaType::LcdDv0 => CGOS_VGA_TYPE_LCD_DVO,
            VgaType::LcdLvds => CGOS_VGA_TYPE_LCD_LVDS,
            VgaType::Tv => CGOS_VGA_TYPE_TV,
            VgaType::Other(x) => x,
        }
    }
}

impl vstd::std_specs::convert::FromSpecImpl<VgaType> for u32 {
    open spec fn obeys_from_spec() -> bool {
        true
    }

    open spec fn from_spec(v: VgaType) -> u32 {
        vga_type_code(v)
    }
}

impl From<u32> for VgaType {
    /// Never fails: a code the header does not declare gives the reserved
    /// variant.
    fn from(value: u32) -> (r: VgaType)
        ensures
            r == vga_type_of_code(value),
    {
        if value == CGOS_VGA_TYPE_UNKNOWN {
            VgaType::Unknown
        } else if value == CGOS_VGA_TYPE_CRT {
            VgaType::Crt
        } else if value == CGOS_VGA_TYPE_LCD {
            VgaType::Lcd
        } else if value == CGOS_VGA_TYPE_LCD_DVO {
            VgaType::LcdDv0
        } else if value == CGOS_VGA_TYPE_LCD_LVDS {
            VgaType::LcdLvds
        } else if value == CGOS_VGA_TYPE_TV {
            VgaType::Tv
        } else {
            VgaType::Other(value)
        }
    }
}

impl vstd::std_specs::convert::FromSpecImpl<u32> for VgaType {
    open spec fn obeys_from_spec() -> bool {
        true
    }

    open spec fn from_spec(v: u32) -> VgaType {
        vga_type_of_code(v)
    }
}

/// A code the header does not declare comes back unchanged through the
/// reserved variant.
pub proof fn lemma_reserved_vga_type_round_trip(code: u32)
    requires
        !is_declared_vga_type_code(code),
    ensures
        vga_type_of_code(code) == VgaType::Other(code),
        vga_type_code(vga_type_of_code(code)) == code,
{
}

/// A declared code gives its named variant, and that variant gives back
/// exactly the declared code.
pub proof fn lemma_declared_vga_type_round_trip(code: u32)
    requires
        is_declared_vga_type_code(code),
    ensures
        vga_type_of_code(code) !is Other,
        code == CGOS_VGA_TYPE_UNKNOWN ==> vga_type_of_code(code) == VgaType::Unknown,
        code == CGOS_VGA_TYPE_CRT ==> vga_type_of_code(code) == VgaType::Crt,
        code == CGOS_VGA_TYPE_LCD ==> vga_type_of_code(code) == VgaType::Lcd,
        code == CGOS_VGA_TYPE_LCD_DVO ==> vga_type_of_code(code) == VgaType::LcdDv0,
        code == CGOS_VGA_TYPE_LCD_LVDS ==> vga_type_of_code(code) == VgaType::LcdLvds,
        code == CGOS_VGA_TYPE_TV ==> vga_type_of_code(code) == VgaType::Tv,
        vga_type_code(vga_type_of_code(code)) == code,
{
}


/// The display record that `CgosVgaGetInfo` fills: ten 32-bit words, the
/// first of which the caller stamps with the record's size in bytes so that
/// the native library knows which fields it may fill.
#[derive(Clone, Copy, Debug, PartialEq, Eq, Structural, Hash)]
pub struct CgosVgaInfo {
    pub size: u32,
    pub vga_type: u32,
    pub flags: u32,
    pub native_width: u32,
    pub native_height: u32,
    pub requested_width: u32,
    pub requested_height: u32,
    pub requested_bpp: u32,
    pub max_backlight: u32,
    pub max_contrast: u32,
}

/// The size tag of the display record: its size in bytes, ten words of four
/// bytes.
pub const VGA_INFO_SIZE: u32 = 10 * 4;

/// The record handed to `CgosVgaGetInfo`: all zero but the size tag.
pub open spec fn blank_vga_info() -> CgosVgaInfo {
    CgosVgaInfo {
        size: VGA_INFO_SIZE,
        vga_type: 0,
        flags: 0,
        native_width: 0,
        native_height: 0,
        requested_width: 0,
        requested_height: 0,
        requested_bpp: 0,
        max_backlight: 0,
        max_contrast: 0,
    }
}

impl CgosVgaInfo {
    /// A record ready for `CgosVgaGetInfo`: zeroed, with the size tag set.
    pub fn blank() -> (r: CgosVgaInfo)
        ensures
            r == blank_vga_info(),
    {
        CgosVgaInfo {
            size: VGA_INFO_SIZE,
            vga_type: 0,
            flags: 0,
            native_width: 0,
            native_height: 0,
            requested_width: 0,
            requested_height: 0,
            requested_bpp: 0,
            max_backlight: 0,
            max_contrast: 0,
        }
    }
}


/// What a display reported about itself: a snapshot copied out of the
/// display record, with no live binding back to the hardware.
#[derive(Clone, Copy, Debug, PartialEq, Eq, Structural, Hash)]
pub struct VgaInfo {
    size: u32,
    vga_type: u32,
    flags: u32,
    native_width: u32,
    native_height: u32,
    requested_width: u32,
    requested_height: u32,
    requested_bpp: u32,
    max_backlight: u32,
    max_contrast: u32,
}

impl View for VgaInfo {
    type V = CgosVgaInfo;

    /// The display record the snapshot was copied from.
    closed spec fn view(&self) -> CgosVgaInfo {
        CgosVgaInfo {
            size: self.size,
            vga_type: self.vga_type,
            flags: self.flags,
            native_width: self.native_width,
            native_height: self.native_height,
            requested_width: self.requested_width,
            requested_height: self.requested_height,
            requested_bpp: self.requested_bpp,
            max_backlight: self.max_backlight,
            max_contrast: self.max_contrast,
        }
    }
}

impl From<CgosVgaInfo> for VgaInfo {
    /// Copies every field of the record.
    fn from(info: CgosVgaInfo) -> (r: VgaInfo)
        ensures
            r@ == info,
    {
        VgaInfo {
            size: info.size,
            vga_type: info.vga_type,
            flags: info.flags,
            native_width: info.native_width,
            native_height: info.native_height,
            requested_width: info.requested_width,
            requested_height: info.requested_height,
            requested_bpp: info.requested_bpp,
            max_backlight: info.max_backlight,
            max_contrast: info.max_contrast,
        }
    }
}

impl vstd::std_specs::convert::FromSpecImpl<CgosVgaInfo> for VgaInfo {
    open spec fn obeys_from_spec() -> bool {
        true
    }

    closed spec fn from_spec(v: CgosVgaInfo) -> VgaInfo {
        VgaInfo {
            size: v.size,
            vga_type: v.vga_type,
            flags: v.flags,
            native_width: v.native_width,
            native_height: v.native_height,
            requested_width: v.requested_width,
            requested_height: v.requested_height,
            requested_bpp: v.requested_bpp,
            max_backlight: v.max_backlight,
            max_contrast: v.max_contrast,
        }
    }
}

impl VgaInfo {
    /// The size tag the record was filled under.
    pub fn size(&self) -> (r: u32)
        ensures
            r == self@.size,
    {
        self.size
    }

    /// The classification code of the display; `VgaType::from` names it.
    pub fn vga_type(&self) -> (r: u32)
        ensures
            r == self@.vga_type,
    {
        self.vga_type
    }

    /// The display's flags.
    pub fn flags(&self) -> (r: u32)
        ensures
            r == self@.flags,
    {
        self.flags
    }

    /// The native width of the display, in pixels.
    pub fn native_width(&self) -> (r: u32)
        ensures
            r == self@.native_width,
    {
        self.native_width
    }

    /// The native height of the display, in pixels.
    pub fn native_height(&self) -> (r: u32)
        ensures
            r == self@.native_height,
    {
        self.native_height
    }

    /// The requested width, in pixels.
    pub fn requested_width(&self) -> (r: u32)
        ensures
            r == self@.requested_width,
    {
        self.requested_width
    }

    /// The requested height, in pixels.
    pub fn requested_height(&self) -> (r: u32)
        ensures
            r == self@.requested_height,
    {
        self.requested_height
    }

    /// The requested colour depth, in bits per pixel.
    pub fn requested_bpp(&self) -> (r: u32)
        ensures
            r == self@.requested_bpp,
    {
        self.requested_bpp
    }

    /// The highest backlight value.
    pub fn max_backlight(&self) -> (r: u32)
        ensures
            r == self@.max_backlight,
    {
        self.max_backlight
    }

    /// The highest contrast value.
    pub fn max_contrast(&self) -> (r: u32)
        ensures
            r == self@.max_contrast,
    {
        self.max_contrast
    }
}


/// The native word for a flag: 1 for on, 0 for off.
pub open spec fn flag_code(en: bool) -> u32 {
    if en {
        1
    } else {
        0
    }
}

/// A display of a board: the device handle of an open board session and the
/// index of the display on that board.
///
/// A value is only made by [`Vga::new`], which holds the index below the
/// display count that the native library reported. The handle is not owned:
/// the session that issued it must outlive the display.
#[derive(Clone, Copy, PartialEq, Eq, Structural, Debug)]
pub struct Vga {
    handle: u32,
    index: u32,
}

/// A native call of the VGA family, with the arguments to hand it.
///
/// `handle` is the board session's device handle and `display` the display
/// index.
#[derive(Clone, Copy, PartialEq, Eq, Structural, Debug)]
pub enum VgaCall {
    /// `CgosVgaCount`: the number of displays of the board.
    Count { handle: u32 },
    /// `CgosVgaGetContrast`: the contrast of a display.
    GetContrast { handle: u32, display: u32 },
    /// `CgosVgaSetContrast`: set the contrast of a display.
    SetContrast { handle: u32, display: u32, value: u32 },
    /// `CgosVgaGetContrastEnable`: whether contrast control is on.
    GetContrastEnable { handle: u32, display: u32 },
    /// `CgosVgaSetContrastEnable`: switch contrast control, 1 on, 0 off.
    SetContrastEnable { handle: u32, display: u32, enable: u32 },
    /// `CgosVgaSetBacklight`: set the backlight of a display.
    SetBacklight { handle: u32, display: u32, value: u32 },
    /// `CgosVgaGetBacklightEnable`: whether the backlight is on.
    GetBacklightEnable { handle: u32, display: u32 },
    /// `CgosVgaSetBacklightEnable`: switch the backlight, 1 on, 0 off.
    SetBacklightEnable { handle: u32, display: u32, enable: u32 },
    /// `CgosVgaGetInfo`: fill `info`, handed over with its size tag set.
    GetInfo { handle: u32, display: u32, info: CgosVgaInfo },
}

/// The result of a VGA call from its return code: any value but zero
/// reports success with `value`, zero a failed call.
pub fn lib_result<T>(retcode: u32, value: T) -> (r: VgaResult<T>)
    ensures
        retcode != 0 ==> r == Ok::<T, VgaErr>(value),
        retcode == 0 ==> r == Err::<T, VgaErr>(VgaErr::LibcgosErr),
{
    if retcode != 0 {
        Ok(value)
    } else {
        Err(VgaErr::LibcgosErr)
    }
}

/// The result of a call that asks whether a feature is on, from its return
/// code and the word it wrote: on is any word but zero.
pub fn enable_result(retcode: u32, raw: u32) -> (r: VgaResult<bool>)
    ensures
        retcode != 0 ==> r == Ok::<bool, VgaErr>(raw != 0),
        retcode == 0 ==> r == Err::<bool, VgaErr>(VgaErr::LibcgosErr),
{
    lib_result(retcode, raw != 0)
}

/// The result of `CgosVgaGetInfo`, from its return code and the record it
/// filled: on success a snapshot of every field of the record.
pub fn info_result(retcode: u32, info: CgosVgaInfo) -> (r: VgaResult<VgaInfo>)
    ensures
        retcode != 0 ==> (r matches Ok(v) && v@ == info),
        retcode == 0 ==> r == Err::<VgaInfo, VgaErr>(VgaErr::LibcgosErr),
{
    if retcode != 0 {
        Ok(VgaInfo::from(info))
    } else {
        Err(VgaErr::LibcgosErr)
    }
}

impl Vga {
    /// The call that asks for the number of displays of the board `handle`.
    pub fn amount_call(handle: u32) -> (r: VgaCall)
        ensures
            r == (VgaCall::Count { handle }),
    {
        VgaCall::Count { handle }
    }

    /// A display of board `handle`, where `amount` is the display count that
    /// the native library reports for it at this time. Fails with
    /// `IdxOutOfRange` exactly when `index` is not below `amount`, a board
    /// without displays included.
    pub fn new(handle: u32, index: usize, amount: u32) -> (r: VgaResult<Vga>)
        ensures
            index < amount ==> (r matches Ok(d) && d.handle() == handle && d.index() == index),
            index >= amount ==> r == Err::<Vga, VgaErr>(VgaErr::IdxOutOfRange),
    {
        if index >= amount as usize {
            return Err(VgaErr::IdxOutOfRange);
        }
        let index: u32 = index as u32;
        Ok(Vga { handle, index })
    }

    /// The call that asks for the contrast of this display; its answer goes through [`lib_result`].
    pub fn get_contrast_call(&self) -> (r: VgaCall)
        ensures
            r == (VgaCall::GetContrast { handle: self.handle(), display: self.index() }),
    {
        VgaCall::GetContrast { handle: self.handle, display: self.index }
    }

    /// The call that sets the contrast of this display to `value`.
    pub fn set_contrast_call(&self, value: u32) -> (r: VgaCall)
        ensures
            r == (VgaCall::SetContrast { handle: self.handle(), display: self.index(), value: value }),
    {
        VgaCall::SetContrast { handle: self.handle, display: self.index, value: value }
    }

    /// The call that asks whether contrast control is on; its answer goes through [`enable_result`].
    pub fn get_contrast_enable_call(&self) -> (r: VgaCall)
        ensures
            r == (VgaCall::GetContrastEnable { handle: self.handle(), display: self.index() }),
    {
        VgaCall::GetContrastEnable { handle: self.handle, display: self.index }
    }

    /// The call that switches contrast control on or off.
    pub fn set_contrast_enable_call(&self, en: bool) -> (r: VgaCall)
        ensures
            r == (VgaCall::SetContrastEnable { handle: self.handle(), display: self.index(), enable: flag_code(en) }),
    {
        let enable: u32 = if en {
            1
        } else {
            0
        };
        VgaCall::SetContrastEnable { handle: self.handle, display: self.index, enable }
    }

    /// The call that sets the backlight of this display to `value`. The native layer offers no matching getter.
    pub fn set_backlight_call(&self, value: u32) -> (r: VgaCall)
        ensures
            r == (VgaCall::SetBacklight { handle: self.handle(), display: self.index(), value: value }),
    {
        VgaCall::SetBacklight { handle: self.handle, display: self.index, value: value }
    }

    /// The call that asks whether the backlight is on; its answer goes through [`enable_result`].
    pub fn get_backlight_enable_call(&self) -> (r: VgaCall)
        ensures
            r == (VgaCall::GetBacklightEnable { handle: self.handle(), display: self.index() }),
    {
        VgaCall::GetBacklightEnable { handle: self.handle, display: self.index }
    }

    /// The call that switches the backlight on or off.
    pub fn set_backlight_enable_call(&self, en: bool) -> (r: VgaCall)
        ensures
            r == (VgaCall::SetBacklightEnable { handle: self.handle(), display: self.index(), enable: flag_code(en) }),
    {
        let enable: u32 = if en {
            1
        } else {
            0
        };
        VgaCall::SetBacklightEnable { handle: self.handle, display: self.index, enable }
    }

    /// The call that asks for the display record. The record handed along is
    /// zeroed and stamped with its size tag, which the native library needs
    /// to know which fields it may fill; its answer goes through
    /// [`info_result`].
    pub fn get_info_call(&self) -> (r: VgaCall)
        ensures
            r == (VgaCall::GetInfo { handle: self.handle(), display: self.index(), info: blank_vga_info() }),
            r->GetInfo_info.size == VGA_INFO_SIZE,
    {
        VgaCall::GetInfo { handle: self.handle, display: self.index, info: CgosVgaInfo::blank() }
    }

    /// The device handle of the board session.
    pub closed spec fn spec_handle(&self) -> u32 {
        self.handle
    }

    /// The index of the display on its board.
    pub closed spec fn spec_index(&self) -> u32 {
        self.index
    }

    /// The device handle of the board session.
    #[verifier::when_used_as_spec(spec_handle)]
    pub fn handle(&self) -> (r: u32)
        ensures
            r == self.handle(),
    {
        self.handle
    }

    /// The index of the display on its board.
    #[verifier::when_used_as_spec(spec_index)]
    pub fn index(&self) -> (r: u32)
        ensures
            r == self.index(),
    {
        self.index
    }
}

} // verus!
