//! The C enumerations of the libvips and GLib bindings, with their values,
//! and the sequence of steps that crops an image with libvips.

use vstd::prelude::*;

verus! {
/// Priority of a GLib thread.
#[allow(non_camel_case_types)]
#[derive(Debug, Copy, Clone, PartialEq, Eq, Hash, Structural)]
pub enum GThreadPriority {
    G_THREAD_PRIORITY_LOW,
    G_THREAD_PRIORITY_NORMAL,
    G_THREAD_PRIORITY_HIGH,
    G_THREAD_PRIORITY_URGENT,
}

impl GThreadPriority {
    /// The C value of the constant.
    pub open spec fn value(self) -> u32 {
        match self {
            GThreadPriority::G_THREAD_PRIORITY_LOW => 0,
            GThreadPriority::G_THREAD_PRIORITY_NORMAL => 1,
            GThreadPriority::G_THREAD_PRIORITY_HIGH => 2,
            GThreadPriority::G_THREAD_PRIORITY_URGENT => 3,
        }
    }

    /// The constant whose C value is `v`, if any.
    pub open spec fn of_value(v: u32) -> Option<GThreadPriority> {
        if v == 0 {
            Some(GThreadPriority::G_THREAD_PRIORITY_LOW)
        } else if v == 1 {
            Some(GThreadPriority::G_THREAD_PRIORITY_NORMAL)
        } else if v == 2 {
            Some(GThreadPriority::G_THREAD_PRIORITY_HIGH)
        } else if v == 3 {
            Some(GThreadPriority::G_THREAD_PRIORITY_URGENT)
        } else {
            None
        }
    }

    /// The C value of the constant.
    pub fn code(&self) -> (c: u32)
        ensures
            c == self.value(),
    {
        match self {
            GThreadPriority::G_THREAD_PRIORITY_LOW => 0,
            GThreadPriority::G_THREAD_PRIORITY_NORMAL => 1,
            GThreadPriority::G_THREAD_PRIORITY_HIGH => 2,
            GThreadPriority::G_THREAD_PRIORITY_URGENT => 3,
        }
    }

    /// The constant whose C value is `v`, or `None` when no constant has it.
    pub fn from_code(v: u32) -> (res: Option<GThreadPriority>)
        ensures
            res == GThreadPriority::of_value(v),
    {
        if v == 0 {
            Some(GThreadPriority::G_THREAD_PRIORITY_LOW)
        } else if v == 1 {
            Some(GThreadPriority::G_THREAD_PRIORITY_NORMAL)
        } else if v == 2 {
            Some(GThreadPriority::G_THREAD_PRIORITY_HIGH)
        } else if v == 3 {
            Some(GThreadPriority::G_THREAD_PRIORITY_URGENT)
        } else {
            None
        }
    }
}

/// The C value of each `GThreadPriority` constant, as the libvips and GLib headers
/// define it.
pub proof fn lemma_g_thread_priority_table()
    ensures
        GThreadPriority::G_THREAD_PRIORITY_LOW.value() == 0,
        GThreadPriority::G_THREAD_PRIORITY_NORMAL.value() == 1,
        GThreadPriority::G_THREAD_PRIORITY_HIGH.value() == 2,
        GThreadPriority::G_THREAD_PRIORITY_URGENT.value() == 3,
{
}

/// Each `GThreadPriority` constant is found again from its C value, and a C value
/// belongs to at most one constant.
pub proof fn lemma_g_thread_priority_values(x: GThreadPriority, v: u32)
    ensures
        GThreadPriority::of_value(x.value()) == Some(x),
        GThreadPriority::of_value(v) == Some(x) ==> x.value() == v,
{
}

/// Flags of a GObject parameter specification.
#[allow(non_camel_case_types)]
#[derive(Debug, Copy, Clone, PartialEq, Eq, Hash, Structural)]
pub enum GParamFlags {
    G_PARAM_READABLE,
    G_PARAM_WRITABLE,
    G_PARAM_READWRITE,
    G_PARAM_CONSTRUCT,
    G_PARAM_CONSTRUCT_ONLY,
    G_PARAM_LAX_VALIDATION,
    G_PARAM_STATIC_NAME,
    G_PARAM_STATIC_NICK,
    G_PARAM_STATIC_BLURB,
    G_PARAM_EXPLICIT_NOTIFY,
    G_PARAM_DEPRECATED,
}

impl GParamFlags {
    /// The C value of the constant.
    pub open spec fn value(self) -> i32 {
        match self {
            GParamFlags::G_PARAM_READABLE => 1,
            GParamFlags::G_PARAM_WRITABLE => 2,
            GParamFlags::G_PARAM_READWRITE => 3,
            GParamFlags::G_PARAM_CONSTRUCT => 4,
            GParamFlags::G_PARAM_CONSTRUCT_ONLY => 8,
            GParamFlags::G_PARAM_LAX_VALIDATION => 16,
            GParamFlags::G_PARAM_STATIC_NAME => 32,
            GParamFlags::G_PARAM_STATIC_NICK => 64,
            GParamFlags::G_PARAM_STATIC_BLURB => 128,
            GParamFlags::G_PARAM_EXPLICIT_NOTIFY => 1073741824,
            GParamFlags::G_PARAM_DEPRECATED => i32::MIN,
        }
    }

    /// The constant whose C value is `v`, if any.
    pub open spec fn of_value(v: i32) -> Option<GParamFlags> {
        if v == 1 {
            Some(GParamFlags::G_PARAM_READABLE)
        } else if v == 2 {
            Some(GParamFlags::G_PARAM_WRITABLE)
        } else if v == 3 {
            Some(GParamFlags::G_PARAM_READWRITE)
        } else if v == 4 {
            Some(GParamFlags::G_PARAM_CONSTRUCT)
        } else if v == 8 {
            Some(GParamFlags::G_PARAM_CONSTRUCT_ONLY)
        } else if v == 16 {
            Some(GParamFlags::G_PARAM_LAX_VALIDATION)
        } else if v == 32 {
            Some(GParamFlags::G_PARAM_STATIC_NAME)
        } else if v == 64 {
            Some(GParamFlags::G_PARAM_STATIC_NICK)
        } else if v == 128 {
            Some(GParamFlags::G_PARAM_STATIC_BLURB)
        } else if v == 1073741824 {
            Some(GParamFlags::G_PARAM_EXPLICIT_NOTIFY)
        } else if v == i32::MIN {
            Some(GParamFlags::G_PARAM_DEPRECATED)
        } else {
            None
        }
    }

    /// The C value of the constant.
    pub fn code(&self) -> (c: i32)
        ensures
            c == self.value(),
    {
        match self {
            GParamFlags::G_PARAM_READABLE => 1,
            GParamFlags::G_PARAM_WRITABLE => 2,
            GParamFlags::G_PARAM_READWRITE => 3,
            GParamFlags::G_PARAM_CONSTRUCT => 4,
            GParamFlags::G_PARAM_CONSTRUCT_ONLY => 8,
            GParamFlags::G_PARAM_LAX_VALIDATION => 16,
            GParamFlags::G_PARAM_STATIC_NAME => 32,
            GParamFlags::G_PARAM_STATIC_NICK => 64,
            GParamFlags::G_PARAM_STATIC_BLURB => 128,
            GParamFlags::G_PARAM_EXPLICIT_NOTIFY => 1073741824,
            GParamFlags::G_PARAM_DEPRECATED => i32::MIN,
        }
    }

    /// The constant whose C value is `v`, or `None` when no constant has it.
    pub fn from_code(v: i32) -> (res: Option<GParamFlags>)
        ensures
            res == GParamFlags::of_value(v),
    {
        if v == 1 {
            Some(GParamFlags::G_PARAM_READABLE)
        } else if v == 2 {
            Some(GParamFlags::G_PARAM_WRITABLE)
        } else if v == 3 {
            Some(GParamFlags::G_PARAM_READWRITE)
        } else if v == 4 {
            Some(GParamFlags::G_PARAM_CONSTRUCT)
        } else if v == 8 {
            Some(GParamFlags::G_PARAM_CONSTRUCT_ONLY)
        } else if v == 16 {
            Some(GParamFlags::G_PARAM_LAX_VALIDATION)
        } else if v == 32 {
            Some(GParamFlags::G_PARAM_STATIC_NAME)
        } else if v == 64 {
            Some(GParamFlags::G_PARAM_STATIC_NICK)
        } else if v == 128 {
            Some(GParamFlags::G_PARAM_STATIC_BLURB)
        } else if v == 1073741824 {
            Some(GParamFlags::G_PARAM_EXPLICIT_NOTIFY)
        } else if v == i32::MIN {
            Some(GParamFlags::G_PARAM_DEPRECATED)
        } else {
            None
        }
    }
}

/// The C value of each `GParamFlags` constant, as the libvips and GLib headers
/// define it.
pub proof fn lemma_g_param_flags_table()
    ensures
        GParamFlags::G_PARAM_READABLE.value() == 1,
        GParamFlags::G_PARAM_WRITABLE.value() == 2,
        GParamFlags::G_PARAM_READWRITE.value() == 3,
        GParamFlags::G_PARAM_CONSTRUCT.value() == 4,
        GParamFlags::G_PARAM_CONSTRUCT_ONLY.value() == 8,
        GParamFlags::G_PARAM_LAX_VALIDATION.value() == 16,
        GParamFlags::G_PARAM_STATIC_NAME.value() == 32,
        GParamFlags::G_PARAM_STATIC_NICK.value() == 64,
        GParamFlags::G_PARAM_STATIC_BLURB.value() == 128,
        GParamFlags::G_PARAM_EXPLICIT_NOTIFY.value() == 1073741824,
        GParamFlags::G_PARAM_DEPRECATED.value() == i32::MIN,
{
}

/// Each `GParamFlags` constant is found again from its C value, and a C value
/// belongs to at most one constant.
pub proof fn lemma_g_param_flags_values(x: GParamFlags, v: i32)
    ensures
        GParamFlags::of_value(x.value()) == Some(x),
        GParamFlags::of_value(v) == Some(x) ==> x.value() == v,
{
}

/// How the bands of a libvips image are to be read.
#[allow(non_camel_case_types)]
#[derive(Debug, Copy, Clone, PartialEq, Eq, Hash, Structural)]
pub enum VipsInterpretation {
    VIPS_INTERPRETATION_ERROR,
    VIPS_INTERPRETATION_MULTIBAND,
    VIPS_INTERPRETATION_B_W,
    VIPS_INTERPRETATION_HISTOGRAM,
    VIPS_INTERPRETATION_XYZ,
    VIPS_INTERPRETATION_LAB,
    VIPS_INTERPRETATION_CMYK,
    VIPS_INTERPRETATION_LABQ,
    VIPS_INTERPRETATION_RGB,
    VIPS_INTERPRETATION_CMC,
    VIPS_INTERPRETATION_LCH,
    VIPS_INTERPRETATION_LABS,
    VIPS_INTERPRETATION_sRGB,
    VIPS_INTERPRETATION_YXY,
    VIPS_INTERPRETATION_FOURIER,
    VIPS_INTERPRETATION_RGB16,
    VIPS_INTERPRETATION_GREY16,
    VIPS_INTERPRETATION_MATRIX,
    VIPS_INTERPRETATION_scRGB,
    VIPS_INTERPRETATION_HSV,
    VIPS_INTERPRETATION_LAST,
}

impl VipsInterpretation {
    /// The C value of the constant.
    pub open spec fn value(self) -> i32 {
        match self {
            VipsInterpretation::VIPS_INTERPRETATION_ERROR => -1i32,
            VipsInterpretation::VIPS_INTERPRETATION_MULTIBAND => 0,
            VipsInterpretation::VIPS_INTERPRETATION_B_W => 1,
            VipsInterpretation::VIPS_INTERPRETATION_HISTOGRAM => 10,
            VipsInterpretation::VIPS_INTERPRETATION_XYZ => 12,
            VipsInterpretation::VIPS_INTERPRETATION_LAB => 13,
            VipsInterpretation::VIPS_INTERPRETATION_CMYK => 15,
            VipsInterpretation::VIPS_INTERPRETATION_LABQ => 16,
            VipsInterpretation::VIPS_INTERPRETATION_RGB => 17,
            VipsInterpretation::VIPS_INTERPRETATION_CMC => 18,
            VipsInterpretation::VIPS_INTERPRETATION_LCH => 19,
            VipsInterpretation::VIPS_INTERPRETATION_LABS => 21,
            VipsInterpretation::VIPS_INTERPRETATION_sRGB => 22,
            VipsInterpretation::VIPS_INTERPRETATION_YXY => 23,
            VipsInterpretation::VIPS_INTERPRETATION_FOURIER => 24,
            VipsInterpretation::VIPS_INTERPRETATION_RGB16 => 25,
            VipsInterpretation::VIPS_INTERPRETATION_GREY16 => 26,
            VipsInterpretation::VIPS_INTERPRETATION_MATRIX => 27,
            VipsInterpretation::VIPS_INTERPRETATION_scRGB => 28,
            VipsInterpretation::VIPS_INTERPRETATION_HSV => 29,
            VipsInterpretation::VIPS_INTERPRETATION_LAST => 30,
        }
    }

    /// The constant whose C value is `v`, if any.
    pub open spec fn of_value(v: i32) -> Option<VipsInterpretation> {
        if v == -1 {
            Some(VipsInterpretation::VIPS_INTERPRETATION_ERROR)
        } else if v == 0 {
            Some(VipsInterpretation::VIPS_INTERPRETATION_MULTIBAND)
        } else if v == 1 {
            Some(VipsInterpretation::VIPS_INTERPRETATION_B_W)
        } else if v == 10 {
            Some(VipsInterpretation::VIPS_INTERPRETATION_HISTOGRAM)
        } else if v == 12 {
            Some(VipsInterpretation::VIPS_INTERPRETATION_XYZ)
        } else if v == 13 {
            Some(VipsInterpretation::VIPS_INTERPRETATION_LAB)
        } else if v == 15 {
            Some(VipsInterpretation::VIPS_INTERPRETATION_CMYK)
        } else if v == 16 {
            Some(VipsInterpretation::VIPS_INTERPRETATION_LABQ)
        } else if v == 17 {
            Some(VipsInterpretation::VIPS_INTERPRETATION_RGB)
        } else if v == 18 {
            Some(VipsInterpretation::VIPS_INTERPRETATION_CMC)
        } else if v == 19 {
            Some(VipsInterpretation::VIPS_INTERPRETATION_LCH)
        } else if v == 21 {
            Some(VipsInterpretation::VIPS_INTERPRETATION_LABS)
        } else if v == 22 {
            Some(VipsInterpretation::VIPS_INTERPRETATION_sRGB)
        } else if v == 23 {
            Some(VipsInterpretation::VIPS_INTERPRETATION_YXY)
        } else if v == 24 {
            Some(VipsInterpretation::VIPS_INTERPRETATION_FOURIER)
        } else if v == 25 {
            Some(VipsInterpretation::VIPS_INTERPRETATION_RGB16)
        } else if v == 26 {
            Some(VipsInterpretation::VIPS_INTERPRETATION_GREY16)
        } else if v == 27 {
            Some(VipsInterpretation::VIPS_INTERPRETATION_MATRIX)
        } else if v == 28 {
            Some(VipsInterpretation::VIPS_INTERPRETATION_scRGB)
        } else if v == 29 {
            Some(VipsInterpretation::VIPS_INTERPRETATION_HSV)
        } else if v == 30 {
            Some(VipsInterpretation::VIPS_INTERPRETATION_LAST)
        } else {
            None
        }
    }

    /// The C value of the constant.
    pub fn code(&self) -> (c: i32)
        ensures
            c == self.value(),
    {
        match self {
            VipsInterpretation::VIPS_INTERPRETATION_ERROR => -1i32,
            VipsInterpretation::VIPS_INTERPRETATION_MULTIBAND => 0,
            VipsInterpretation::VIPS_INTERPRETATION_B_W => 1,
            VipsInterpretation::VIPS_INTERPRETATION_HISTOGRAM => 10,
            VipsInterpretation::VIPS_INTERPRETATION_XYZ => 12,
            VipsInterpretation::VIPS_INTERPRETATION_LAB => 13,
            VipsInterpretation::VIPS_INTERPRETATION_CMYK => 15,
            VipsInterpretation::VIPS_INTERPRETATION_LABQ => 16,
            VipsInterpretation::VIPS_INTERPRETATION_RGB => 17,
            VipsInterpretation::VIPS_INTERPRETATION_CMC => 18,
            VipsInterpretation::VIPS_INTERPRETATION_LCH => 19,
            VipsInterpretation::VIPS_INTERPRETATION_LABS => 21,
            VipsInterpretation::VIPS_INTERPRETATION_sRGB => 22,
            VipsInterpretation::VIPS_INTERPRETATION_YXY => 23,
            VipsInterpretation::VIPS_INTERPRETATION_FOURIER => 24,
            VipsInterpretation::VIPS_INTERPRETATION_RGB16 => 25,
            VipsInterpretation::VIPS_INTERPRETATION_GREY16 => 26,
            VipsInterpretation::VIPS_INTERPRETATION_MATRIX => 27,
            VipsInterpretation::VIPS_INTERPRETATION_scRGB => 28,
            VipsInterpretation::VIPS_INTERPRETATION_HSV => 29,
            VipsInterpretation::VIPS_INTERPRETATION_LAST => 30,
        }
    }

    /// The constant whose C value is `v`, or `None` when no constant has it.
    pub fn from_code(v: i32) -> (res: Option<VipsInterpretation>)
        ensures
            res == VipsInterpretation::of_value(v),
    {
        if v == -1 {
            Some(VipsInterpretation::VIPS_INTERPRETATION_ERROR)
        } else if v == 0 {
            Some(VipsInterpretation::VIPS_INTERPRETATION_MULTIBAND)
        } else if v == 1 {
            Some(VipsInterpretation::VIPS_INTERPRETATION_B_W)
        } else if v == 10 {
            Some(VipsInterpretation::VIPS_INTERPRETATION_HISTOGRAM)
        } else if v == 12 {
            Some(VipsInterpretation::VIPS_INTERPRETATION_XYZ)
        } else if v == 13 {
            Some(VipsInterpretation::VIPS_INTERPRETATION_LAB)
        } else if v == 15 {
            Some(VipsInterpretation::VIPS_INTERPRETATION_CMYK)
        } else if v == 16 {
            Some(VipsInterpretation::VIPS_INTERPRETATION_LABQ)
        } else if v == 17 {
            Some(VipsInterpretation::VIPS_INTERPRETATION_RGB)
        } else if v == 18 {
            Some(VipsInterpretation::VIPS_INTERPRETATION_CMC)
        } else if v == 19 {
            Some(VipsInterpretation::VIPS_INTERPRETATION_LCH)
        } else if v == 21 {
            Some(VipsInterpretation::VIPS_INTERPRETATION_LABS)
        } else if v == 22 {
            Some(VipsInterpretation::VIPS_INTERPRETATION_sRGB)
        } else if v == 23 {
            Some(VipsInterpretation::VIPS_INTERPRETATION_YXY)
        } else if v == 24 {
            Some(VipsInterpretation::VIPS_INTERPRETATION_FOURIER)
        } else if v == 25 {
            Some(VipsInterpretation::VIPS_INTERPRETATION_RGB16)
        } else if v == 26 {
            Some(VipsInterpretation::VIPS_INTERPRETATION_GREY16)
        } else if v == 27 {
            Some(VipsInterpretation::VIPS_INTERPRETATION_MATRIX)
        } else if v == 28 {
            Some(VipsInterpretation::VIPS_INTERPRETATION_scRGB)
        } else if v == 29 {
            Some(VipsInterpretation::VIPS_INTERPRETATION_HSV)
        } else if v == 30 {
            Some(VipsInterpretation::VIPS_INTERPRETATION_LAST)
        } else {
            None
        }
    }
}

/// The C value of each `VipsInterpretation` constant, as the libvips and GLib headers
/// define it.
pub proof fn lemma_vips_interpretation_table()
    ensures
        VipsInterpretation::VIPS_INTERPRETATION_ERROR.value() == -1i32,
        VipsInterpretation::VIPS_INTERPRETATION_MULTIBAND.value() == 0,
        VipsInterpretation::VIPS_INTERPRETATION_B_W.value() == 1,
        VipsInterpretation::VIPS_INTERPRETATION_HISTOGRAM.value() == 10,
        VipsInterpretation::VIPS_INTERPRETATION_XYZ.value() == 12,
        VipsInterpretation::VIPS_INTERPRETATION_LAB.value() == 13,
        VipsInterpretation::VIPS_INTERPRETATION_CMYK.value() == 15,
        VipsInterpretation::VIPS_INTERPRETATION_LABQ.value() == 16,
        VipsInterpretation::VIPS_INTERPRETATION_RGB.value() == 17,
        VipsInterpretation::VIPS_INTERPRETATION_CMC.value() == 18,
        VipsInterpretation::VIPS_INTERPRETATION_LCH.value() == 19,
        VipsInterpretation::VIPS_INTERPRETATION_LABS.value() == 21,
        VipsInterpretation::VIPS_INTERPRETATION_sRGB.value() == 22,
        VipsInterpretation::VIPS_INTERPRETATION_YXY.value() == 23,
        VipsInterpretation::VIPS_INTERPRETATION_FOURIER.value() == 24,
        VipsInterpretation::VIPS_INTERPRETATION_RGB16.value() == 25,
        VipsInterpretation::VIPS_INTERPRETATION_GREY16.value() == 26,
        VipsInterpretation::VIPS_INTERPRETATION_MATRIX.value() == 27,
        VipsInterpretation::VIPS_INTERPRETATION_scRGB.value() == 28,
        VipsInterpretation::VIPS_INTERPRETATION_HSV.value() == 29,
        VipsInterpretation::VIPS_INTERPRETATION_LAST.value() == 30,
{
}

/// Each `VipsInterpretation` constant is found again from its C value, and a C value
/// belongs to at most one constant.
pub proof fn lemma_vips_interpretation_values(x: VipsInterpretation, v: i32)
    ensures
        VipsInterpretation::of_value(x.value()) == Some(x),
        VipsInterpretation::of_value(v) == Some(x) ==> x.value() == v,
{
}

/// How the pixels of a libvips image are coded.
#[allow(non_camel_case_types)]
#[derive(Debug, Copy, Clone, PartialEq, Eq, Hash, Structural)]
pub enum VipsCoding {
    VIPS_CODING_ERROR,
    VIPS_CODING_NONE,
    VIPS_CODING_LABQ,
    VIPS_CODING_RAD,
    VIPS_CODING_LAST,
}

impl VipsCoding {
    /// The C value of the constant.
    pub open spec fn value(self) -> i32 {
        match self {
            VipsCoding::VIPS_CODING_ERROR => -1i32,
            VipsCoding::VIPS_CODING_NONE => 0,
            VipsCoding::VIPS_CODING_LABQ => 2,
            VipsCoding::VIPS_CODING_RAD => 6,
            VipsCoding::VIPS_CODING_LAST => 7,
        }
    }

    /// The constant whose C value is `v`, if any.
    pub open spec fn of_value(v: i32) -> Option<VipsCoding> {
        if v == -1 {
            Some(VipsCoding::VIPS_CODING_ERROR)
        } else if v == 0 {
            Some(VipsCoding::VIPS_CODING_NONE)
        } else if v == 2 {
            Some(VipsCoding::VIPS_CODING_LABQ)
        } else if v == 6 {
            Some(VipsCoding::VIPS_CODING_RAD)
        } else if v == 7 {
            Some(VipsCoding::VIPS_CODING_LAST)
        } else {
            None
        }
    }

    /// The C value of the constant.
    pub fn code(&self) -> (c: i32)
        ensures
            c == self.value(),
    {
        match self {
            VipsCoding::VIPS_CODING_ERROR => -1i32,
            VipsCoding::VIPS_CODING_NONE => 0,
            VipsCoding::VIPS_CODING_LABQ => 2,
            VipsCoding::VIPS_CODING_RAD => 6,
            VipsCoding::VIPS_CODING_LAST => 7,
        }
    }

    /// The constant whose C value is `v`, or `None` when no constant has it.
    pub fn from_code(v: i32) -> (res: Option<VipsCoding>)
        ensures
            res == VipsCoding::of_value(v),
    {
        if v == -1 {
            Some(VipsCoding::VIPS_CODING_ERROR)
        } else if v == 0 {
            Some(VipsCoding::VIPS_CODING_NONE)
        } else if v == 2 {
            Some(VipsCoding::VIPS_CODING_LABQ)
        } else if v == 6 {
            Some(VipsCoding::VIPS_CODING_RAD)
        } else if v == 7 {
            Some(VipsCoding::VIPS_CODING_LAST)
        } else {
            None
        }
    }
}

/// The C value of each `VipsCoding` constant, as the libvips and GLib headers
/// define it.
pub proof fn lemma_vips_coding_table()
    ensures
        VipsCoding::VIPS_CODING_ERROR.value() == -1i32,
        VipsCoding::VIPS_CODING_NONE.value() == 0,
        VipsCoding::VIPS_CODING_LABQ.value() == 2,
        VipsCoding::VIPS_CODING_RAD.value() == 6,
        VipsCoding::VIPS_CODING_LAST.value() == 7,
{
}

/// Each `VipsCoding` constant is found again from its C value, and a C value
/// belongs to at most one constant.
pub proof fn lemma_vips_coding_values(x: VipsCoding, v: i32)
    ensures
        VipsCoding::of_value(x.value()) == Some(x),
        VipsCoding::of_value(v) == Some(x) ==> x.value() == v,
{
}

/// The numeric format of a libvips band.
#[allow(non_camel_case_types)]
#[derive(Debug, Copy, Clone, PartialEq, Eq, Hash, Structural)]
pub enum VipsBandFormat {
    VIPS_FORMAT_NOTSET,
    VIPS_FORMAT_UCHAR,
    VIPS_FORMAT_CHAR,
    VIPS_FORMAT_USHORT,
    VIPS_FORMAT_SHORT,
    VIPS_FORMAT_UINT,
    VIPS_FORMAT_INT,
    VIPS_FORMAT_FLOAT,
    VIPS_FORMAT_COMPLEX,
    VIPS_FORMAT_DOUBLE,
    VIPS_FORMAT_DPCOMPLEX,
    VIPS_FORMAT_LAST,
}

impl VipsBandFormat {
    /// The C value of the constant.
    pub open spec fn value(self) -> i32 {
        match self {
            VipsBandFormat::VIPS_FORMAT_NOTSET => -1i32,
            VipsBandFormat::VIPS_FORMAT_UCHAR => 0,
            VipsBandFormat::VIPS_FORMAT_CHAR => 1,
            VipsBandFormat::VIPS_FORMAT_USHORT => 2,
            VipsBandFormat::VIPS_FORMAT_SHORT => 3,
            VipsBandFormat::VIPS_FORMAT_UINT => 4,
            VipsBandFormat::VIPS_FORMAT_INT => 5,
            VipsBandFormat::VIPS_FORMAT_FLOAT => 6,
            VipsBandFormat::VIPS_FORMAT_COMPLEX => 7,
            VipsBandFormat::VIPS_FORMAT_DOUBLE => 8,
            VipsBandFormat::VIPS_FORMAT_DPCOMPLEX => 9,
            VipsBandFormat::VIPS_FORMAT_LAST => 10,
        }
    }

    /// The constant whose C value is `v`, if any.
    pub open spec fn of_value(v: i32) -> Option<VipsBandFormat> {
        if v == -1 {
            Some(VipsBandFormat::VIPS_FORMAT_NOTSET)
        } else if v == 0 {
            Some(VipsBandFormat::VIPS_FORMAT_UCHAR)
        } else if v == 1 {
            Some(VipsBandFormat::VIPS_FORMAT_CHAR)
        } else if v == 2 {
            Some(VipsBandFormat::VIPS_FORMAT_USHORT)
        } else if v == 3 {
            Some(VipsBandFormat::VIPS_FORMAT_SHORT)
        } else if v == 4 {
            Some(VipsBandFormat::VIPS_FORMAT_UINT)
        } else if v == 5 {
            Some(VipsBandFormat::VIPS_FORMAT_INT)
        } else if v == 6 {
            Some(VipsBandFormat::VIPS_FORMAT_FLOAT)
        } else if v == 7 {
            Some(VipsBandFormat::VIPS_FORMAT_COMPLEX)
        } else if v == 8 {
            Some(VipsBandFormat::VIPS_FORMAT_DOUBLE)
        } else if v == 9 {
            Some(VipsBandFormat::VIPS_FORMAT_DPCOMPLEX)
        } else if v == 10 {
            Some(VipsBandFormat::VIPS_FORMAT_LAST)
        } else {
            None
        }
    }

    /// The C value of the constant.
    pub fn code(&self) -> (c: i32)
        ensures
            c == self.value(),
    {
        match self {
            VipsBandFormat::VIPS_FORMAT_NOTSET => -1i32,
            VipsBandFormat::VIPS_FORMAT_UCHAR => 0,
            VipsBandFormat::VIPS_FORMAT_CHAR => 1,
            VipsBandFormat::VIPS_FORMAT_USHORT => 2,
            VipsBandFormat::VIPS_FORMAT_SHORT => 3,
            VipsBandFormat::VIPS_FORMAT_UINT => 4,
            VipsBandFormat::VIPS_FORMAT_INT => 5,
            VipsBandFormat::VIPS_FORMAT_FLOAT => 6,
            VipsBandFormat::VIPS_FORMAT_COMPLEX => 7,
            VipsBandFormat::VIPS_FORMAT_DOUBLE => 8,
            VipsBandFormat::VIPS_FORMAT_DPCOMPLEX => 9,
            VipsBandFormat::VIPS_FORMAT_LAST => 10,
        }
    }

    /// The constant whose C value is `v`, or `None` when no constant has it.
    pub fn from_code(v: i32) -> (res: Option<VipsBandFormat>)
        ensures
            res == VipsBandFormat::of_value(v),
    {
        if v == -1 {
            Some(VipsBandFormat::VIPS_FORMAT_NOTSET)
        } else if v == 0 {
            Some(VipsBandFormat::VIPS_FORMAT_UCHAR)
        } else if v == 1 {
            Some(VipsBandFormat::VIPS_FORMAT_CHAR)
        } else if v == 2 {
            Some(VipsBandFormat::VIPS_FORMAT_USHORT)
        } else if v == 3 {
            Some(VipsBandFormat::VIPS_FORMAT_SHORT)
        } else if v == 4 {
            Some(VipsBandFormat::VIPS_FORMAT_UINT)
        } else if v == 5 {
            Some(VipsBandFormat::VIPS_FORMAT_INT)
        } else if v == 6 {
            Some(VipsBandFormat::VIPS_FORMAT_FLOAT)
        } else if v == 7 {
            Some(VipsBandFormat::VIPS_FORMAT_COMPLEX)
        } else if v == 8 {
            Some(VipsBandFormat::VIPS_FORMAT_DOUBLE)
        } else if v == 9 {
            Some(VipsBandFormat::VIPS_FORMAT_DPCOMPLEX)
        } else if v == 10 {
            Some(VipsBandFormat::VIPS_FORMAT_LAST)
        } else {
            None
        }
    }
}

/// The C value of each `VipsBandFormat` constant, as the libvips and GLib headers
/// define it.
pub proof fn lemma_vips_band_format_table()
    ensures
        VipsBandFormat::VIPS_FORMAT_NOTSET.value() == -1i32,
        VipsBandFormat::VIPS_FORMAT_UCHAR.value() == 0,
        VipsBandFormat::VIPS_FORMAT_CHAR.value() == 1,
        VipsBandFormat::VIPS_FORMAT_USHORT.value() == 2,
        VipsBandFormat::VIPS_FORMAT_SHORT.value() == 3,
        VipsBandFormat::VIPS_FORMAT_UINT.value() == 4,
        VipsBandFormat::VIPS_FORMAT_INT.value() == 5,
        VipsBandFormat::VIPS_FORMAT_FLOAT.value() == 6,
        VipsBandFormat::VIPS_FORMAT_COMPLEX.value() == 7,
        VipsBandFormat::VIPS_FORMAT_DOUBLE.value() == 8,
        VipsBandFormat::VIPS_FORMAT_DPCOMPLEX.value() == 9,
        VipsBandFormat::VIPS_FORMAT_LAST.value() == 10,
{
}

/// Each `VipsBandFormat` constant is found again from its C value, and a C value
/// belongs to at most one constant.
pub proof fn lemma_vips_band_format_values(x: VipsBandFormat, v: i32)
    ensures
        VipsBandFormat::of_value(x.value()) == Some(x),
        VipsBandFormat::of_value(v) == Some(x) ==> x.value() == v,
{
}

/// Where the pixels of a libvips image live.
#[allow(non_camel_case_types)]
#[derive(Debug, Copy, Clone, PartialEq, Eq, Hash, Structural)]
pub enum VipsImageType {
    VIPS_IMAGE_ERROR,
    VIPS_IMAGE_NONE,
    VIPS_IMAGE_SETBUF,
    VIPS_IMAGE_SETBUF_FOREIGN,
    VIPS_IMAGE_OPENIN,
    VIPS_IMAGE_MMAPIN,
    VIPS_IMAGE_MMAPINRW,
    VIPS_IMAGE_OPENOUT,
    VIPS_IMAGE_PARTIAL,
}

impl VipsImageType {
    /// The C value of the constant.
    pub open spec fn value(self) -> i32 {
        match self {
            VipsImageType::VIPS_IMAGE_ERROR => -1i32,
            VipsImageType::VIPS_IMAGE_NONE => 0,
            VipsImageType::VIPS_IMAGE_SETBUF => 1,
            VipsImageType::VIPS_IMAGE_SETBUF_FOREIGN => 2,
            VipsImageType::VIPS_IMAGE_OPENIN => 3,
            VipsImageType::VIPS_IMAGE_MMAPIN => 4,
            VipsImageType::VIPS_IMAGE_MMAPINRW => 5,
            VipsImageType::VIPS_IMAGE_OPENOUT => 6,
            VipsImageType::VIPS_IMAGE_PARTIAL => 7,
        }
    }

    /// The constant whose C value is `v`, if any.
    pub open spec fn of_value(v: i32) -> Option<VipsImageType> {
        if v == -1 {
            Some(VipsImageType::VIPS_IMAGE_ERROR)
        } else if v == 0 {
            Some(VipsImageType::VIPS_IMAGE_NONE)
        } else if v == 1 {
            Some(VipsImageType::VIPS_IMAGE_SETBUF)
        } else if v == 2 {
            Some(VipsImageType::VIPS_IMAGE_SETBUF_FOREIGN)
        } else if v == 3 {
            Some(VipsImageType::VIPS_IMAGE_OPENIN)
        } else if v == 4 {
            Some(VipsImageType::VIPS_IMAGE_MMAPIN)
        } else if v == 5 {
            Some(VipsImageType::VIPS_IMAGE_MMAPINRW)
        } else if v == 6 {
            Some(VipsImageType::VIPS_IMAGE_OPENOUT)
        } else if v == 7 {
            Some(VipsImageType::VIPS_IMAGE_PARTIAL)
        } else {
            None
        }
    }

    /// The C value of the constant.
    pub fn code(&self) -> (c: i32)
        ensures
            c == self.value(),
    {
        match self {
            VipsImageType::VIPS_IMAGE_ERROR => -1i32,
            VipsImageType::VIPS_IMAGE_NONE => 0,
            VipsImageType::VIPS_IMAGE_SETBUF => 1,
            VipsImageType::VIPS_IMAGE_SETBUF_FOREIGN => 2,
            VipsImageType::VIPS_IMAGE_OPENIN => 3,
            VipsImageType::VIPS_IMAGE_MMAPIN => 4,
            VipsImageType::VIPS_IMAGE_MMAPINRW => 5,
            VipsImageType::VIPS_IMAGE_OPENOUT => 6,
            VipsImageType::VIPS_IMAGE_PARTIAL => 7,
        }
    }

    /// The constant whose C value is `v`, or `None` when no constant has it.
    pub fn from_code(v: i32) -> (res: Option<VipsImageType>)
        ensures
            res == VipsImageType::of_value(v),
    {
        if v == -1 {
            Some(VipsImageType::VIPS_IMAGE_ERROR)
        } else if v == 0 {
            Some(VipsImageType::VIPS_IMAGE_NONE)
        } else if v == 1 {
            Some(VipsImageType::VIPS_IMAGE_SETBUF)
        } else if v == 2 {
            Some(VipsImageType::VIPS_IMAGE_SETBUF_FOREIGN)
        } else if v == 3 {
            Some(VipsImageType::VIPS_IMAGE_OPENIN)
        } else if v == 4 {
            Some(VipsImageType::VIPS_IMAGE_MMAPIN)
        } else if v == 5 {
            Some(VipsImageType::VIPS_IMAGE_MMAPINRW)
        } else if v == 6 {
            Some(VipsImageType::VIPS_IMAGE_OPENOUT)
        } else if v == 7 {
            Some(VipsImageType::VIPS_IMAGE_PARTIAL)
        } else {
            None
        }
    }
}

/// The C value of each `VipsImageType` constant, as the libvips and GLib headers
/// define it.
pub proof fn lemma_vips_image_type_table()
    ensures
        VipsImageType::VIPS_IMAGE_ERROR.value() == -1i32,
        VipsImageType::VIPS_IMAGE_NONE.value() == 0,
        VipsImageType::VIPS_IMAGE_SETBUF.value() == 1,
        VipsImageType::VIPS_IMAGE_SETBUF_FOREIGN.value() == 2,
        VipsImageType::VIPS_IMAGE_OPENIN.value() == 3,
        VipsImageType::VIPS_IMAGE_MMAPIN.value() == 4,
        VipsImageType::VIPS_IMAGE_MMAPINRW.value() == 5,
        VipsImageType::VIPS_IMAGE_OPENOUT.value() == 6,
        VipsImageType::VIPS_IMAGE_PARTIAL.value() == 7,
{
}

/// Each `VipsImageType` constant is found again from its C value, and a C value
/// belongs to at most one constant.
pub proof fn lemma_vips_image_type_values(x: VipsImageType, v: i32)
    ensures
        VipsImageType::of_value(x.value()) == Some(x),
        VipsImageType::of_value(v) == Some(x) ==> x.value() == v,
{
}

/// The access pattern a libvips operation prefers.
#[allow(non_camel_case_types)]
#[derive(Debug, Copy, Clone, PartialEq, Eq, Hash, Structural)]
pub enum VipsDemandStyle {
    VIPS_DEMAND_STYLE_ERROR,
    VIPS_DEMAND_STYLE_SMALLTILE,
    VIPS_DEMAND_STYLE_FATSTRIP,
    VIPS_DEMAND_STYLE_THINSTRIP,
    VIPS_DEMAND_STYLE_ANY,
}

impl VipsDemandStyle {
    /// The C value of the constant.
    pub open spec fn value(self) -> i32 {
        match self {
            VipsDemandStyle::VIPS_DEMAND_STYLE_ERROR => -1i32,
            VipsDemandStyle::VIPS_DEMAND_STYLE_SMALLTILE => 0,
            VipsDemandStyle::VIPS_DEMAND_STYLE_FATSTRIP => 1,
            VipsDemandStyle::VIPS_DEMAND_STYLE_THINSTRIP => 2,
            VipsDemandStyle::VIPS_DEMAND_STYLE_ANY => 3,
        }
    }

    /// The constant whose C value is `v`, if any.
    pub open spec fn of_value(v: i32) -> Option<VipsDemandStyle> {
        if v == -1 {
            Some(VipsDemandStyle::VIPS_DEMAND_STYLE_ERROR)
        } else if v == 0 {
            Some(VipsDemandStyle::VIPS_DEMAND_STYLE_SMALLTILE)
        } else if v == 1 {
            Some(VipsDemandStyle::VIPS_DEMAND_STYLE_FATSTRIP)
        } else if v == 2 {
            Some(VipsDemandStyle::VIPS_DEMAND_STYLE_THINSTRIP)
        } else if v == 3 {
            Some(VipsDemandStyle::VIPS_DEMAND_STYLE_ANY)
        } else {
            None
        }
    }

    /// The C value of the constant.
    pub fn code(&self) -> (c: i32)
        ensures
            c == self.value(),
    {
        match self {
            VipsDemandStyle::VIPS_DEMAND_STYLE_ERROR => -1i32,
            VipsDemandStyle::VIPS_DEMAND_STYLE_SMALLTILE => 0,
            VipsDemandStyle::VIPS_DEMAND_STYLE_FATSTRIP => 1,
            VipsDemandStyle::VIPS_DEMAND_STYLE_THINSTRIP => 2,
            VipsDemandStyle::VIPS_DEMAND_STYLE_ANY => 3,
        }
    }

    /// The constant whose C value is `v`, or `None` when no constant has it.
    pub fn from_code(v: i32) -> (res: Option<VipsDemandStyle>)
        ensures
            res == VipsDemandStyle::of_value(v),
    {
        if v == -1 {
            Some(VipsDemandStyle::VIPS_DEMAND_STYLE_ERROR)
        } else if v == 0 {
            Some(VipsDemandStyle::VIPS_DEMAND_STYLE_SMALLTILE)
        } else if v == 1 {
            Some(VipsDemandStyle::VIPS_DEMAND_STYLE_FATSTRIP)
        } else if v == 2 {
            Some(VipsDemandStyle::VIPS_DEMAND_STYLE_THINSTRIP)
        } else if v == 3 {
            Some(VipsDemandStyle::VIPS_DEMAND_STYLE_ANY)
        } else {
            None
        }
    }
}

/// The C value of each `VipsDemandStyle` constant, as the libvips and GLib headers
/// define it.
pub proof fn lemma_vips_demand_style_table()
    ensures
        VipsDemandStyle::VIPS_DEMAND_STYLE_ERROR.value() == -1i32,
        VipsDemandStyle::VIPS_DEMAND_STYLE_SMALLTILE.value() == 0,
        VipsDemandStyle::VIPS_DEMAND_STYLE_FATSTRIP.value() == 1,
        VipsDemandStyle::VIPS_DEMAND_STYLE_THINSTRIP.value() == 2,
        VipsDemandStyle::VIPS_DEMAND_STYLE_ANY.value() == 3,
{
}

/// Each `VipsDemandStyle` constant is found again from its C value, and a C value
/// belongs to at most one constant.
pub proof fn lemma_vips_demand_style_values(x: VipsDemandStyle, v: i32)
    ensures
        VipsDemandStyle::of_value(x.value()) == Some(x),
        VipsDemandStyle::of_value(v) == Some(x) ==> x.value() == v,
{
}

/// The side, in pixels, of the square previews the service crops images to.
pub const PREVIEW_SIDE: i32 = 100;

/// The stages of cropping an image with libvips.
#[derive(Debug, Copy, Clone, PartialEq, Eq, Structural)]
pub enum CropStage {
    Loading,
    Cropping,
    Saving,
}

/// What follows a stage of cropping.
#[derive(Debug, Clone, PartialEq, Eq)]
pub enum CropStep {
    /// Go on with this stage.
    Next(CropStage),
    /// The cropped image is saved.
    Done,
    /// The stage failed; the message says which.
    Failed(String),
}

/// The word that names a stage in failure messages.
pub open spec fn stage_word(stage: CropStage) -> Seq<char> {
    match stage {
        CropStage::Loading => "загрузки"@,
        CropStage::Cropping => "обрезки"@,
        CropStage::Saving => "сохранения"@,
    }
}

/// The message of a failure at `stage`.
pub open spec fn crop_failure_text(stage: CropStage) -> Seq<char> {
    "Ошибка в процессе "@ + stage_word(stage) + " изображения!"@
}

/// The message of a failure at `stage`.
pub fn crop_failure_message(stage: CropStage) -> (res: String)
    ensures
        res@ == crop_failure_text(stage),
{
    let mut msg = String::from_str("Ошибка в процессе ");
    match stage {
        CropStage::Loading => msg.append("загрузки"),
        CropStage::Cropping => msg.append("обрезки"),
        CropStage::Saving => msg.append("сохранения"),
    }
    msg.append(" изображения!");
    msg
}

/// Whether a libvips operation reported success: status 0.
pub open spec fn vips_ok(status: i32) -> bool {
    status == 0
}

/// What follows `stage` when it succeeded (`ok`) or not: loading, cropping
/// and saving run in that order, and the first failure ends the run.
pub fn crop_step(stage: CropStage, ok: bool) -> (res: CropStep)
    ensures
        !ok ==> (res matches CropStep::Failed(msg) && msg@ == crop_failure_text(stage)),
        ok ==> res == match stage {
            CropStage::Loading => CropStep::Next(CropStage::Cropping),
            CropStage::Cropping => CropStep::Next(CropStage::Saving),
            CropStage::Saving => CropStep::Done,
        },
{
    if !ok {
        CropStep::Failed(crop_failure_message(stage))
    } else {
        match stage {
            CropStage::Loading => CropStep::Next(CropStage::Cropping),
            CropStage::Cropping => CropStep::Next(CropStage::Saving),
            CropStage::Saving => CropStep::Done,
        }
    }
}

/// Whether a libvips status reports success.
pub fn status_ok(status: i32) -> (res: bool)
    ensures
        res == vips_ok(status),
{
    status == 0
}

} // verus!
