//! The enumerations of `wl_shm`.

use vstd::prelude::*;

verus! {

/// wl_shm error values.
#[derive(Clone, Copy, Debug, PartialEq, Eq, Structural)]
pub enum Error {
    InvalidFormat,
    InvalidStride,
    InvalidFd,
}

impl Error {
    /// The number that stands for this value on the wire.
    pub open spec fn code(self) -> u32 {
        match self {
            Error::InvalidFormat => 0,
            Error::InvalidStride => 1,
            Error::InvalidFd => 2,
        }
    }

    /// The value that a number stands for, if any.
    pub open spec fn from_code(v: u32) -> Option<Error> {
        if v == 0 {
            Some(Error::InvalidFormat)
        } else if v == 1 {
            Some(Error::InvalidStride)
        } else if v == 2 {
            Some(Error::InvalidFd)
        } else {
            None
        }
    }

    pub fn value(&self) -> (r: u32)
        ensures
            r == self.code(),
    {
        match self {
            Error::InvalidFormat => 0,
            Error::InvalidStride => 1,
            Error::InvalidFd => 2,
        }
    }

    pub fn from_value(v: u32) -> (r: Option<Error>)
        ensures
            r == Self::from_code(v),
    {
        match v {
            0 => Some(Error::InvalidFormat),
            1 => Some(Error::InvalidStride),
            2 => Some(Error::InvalidFd),
            _ => None,
        }
    }

    /// Every value comes back from its number.
    pub proof fn lemma_code_roundtrip(self)
        ensures
            Self::from_code(self.code()) == Some(self),
    {
    }

    /// A number comes back from the value it stands for.
    pub proof fn lemma_from_code(v: u32)
        ensures
            Self::from_code(v) matches Some(e) ==> e.code() == v,
    {
    }
}

/// Pixel formats.
#[derive(Clone, Copy, Debug, PartialEq, Eq, Structural)]
pub enum Format {
    Argb8888,
    Xrgb8888,
    C8,
    Rgb332,
    Bgr233,
    Xrgb4444,
    Xbgr4444,
    Rgbx4444,
    Bgrx4444,
    Argb4444,
    Abgr4444,
    Rgba4444,
    Bgra4444,
    Xrgb1555,
    Xbgr1555,
    Rgbx5551,
    Bgrx5551,
    Argb1555,
    Abgr1555,
    Rgba5551,
    Bgra5551,
    Rgb565,
    Bgr565,
    Rgb888,
    Bgr888,
    Xbgr8888,
    Rgbx8888,
    Bgrx8888,
    Abgr8888,
    Rgba8888,
    Bgra8888,
    Xrgb2101010,
    Xbgr2101010,
    Rgbx1010102,
    Bgrx1010102,
    Argb2101010,
    Abgr2101010,
    Rgba1010102,
    Bgra1010102,
    Yuyv,
    Yvyu,
    Uyvy,
    Vyuy,
    Ayuv,
    Nv12,
    Nv21,
    Nv16,
    Nv61,
    Yuv410,
    Yvu410,
    Yuv411,
    Yvu411,
    Yuv420,
    Yvu420,
    Yuv422,
    Yvu422,
    Yuv444,
    Yvu444,
}

impl Format {
    /// The number that stands for this value on the wire.
    pub open spec fn code(self) -> u32 {
        match self {
            Format::Argb8888 => 0,
            Format::Xrgb8888 => 1,
            Format::C8 => 0x20203843,
            Format::Rgb332 => 0x38424752,
            Format::Bgr233 => 0x38524742,
            Format::Xrgb4444 => 0x32315258,
            Format::Xbgr4444 => 0x32314258,
            Format::Rgbx4444 => 0x32315852,
            Format::Bgrx4444 => 0x32315842,
            Format::Argb4444 => 0x32315241,
            Format::Abgr4444 => 0x32314241,
            Format::Rgba4444 => 0x32314152,
            Format::Bgra4444 => 0x32314142,
            Format::Xrgb1555 => 0x35315258,
            Format::Xbgr1555 => 0x35314258,
            Format::Rgbx5551 => 0x35315852,
            Format::Bgrx5551 => 0x35315842,
            Format::Argb1555 => 0x35315241,
            Format::Abgr1555 => 0x35314241,
            Format::Rgba5551 => 0x35314152,
            Format::Bgra5551 => 0x35314142,
            Format::Rgb565 => 0x36314752,
            Format::Bgr565 => 0x36314742,
            Format::Rgb888 => 0x34324752,
            Format::Bgr888 => 0x34324742,
            Format::Xbgr8888 => 0x34324258,
            Format::Rgbx8888 => 0x34325852,
            Format::Bgrx8888 => 0x34325842,
            Format::Abgr8888 => 0x34324241,
            Format::Rgba8888 => 0x34324152,
            Format::Bgra8888 => 0x34324142,
            Format::Xrgb2101010 => 0x30335258,
            Format::Xbgr2101010 => 0x30334258,
            Format::Rgbx1010102 => 0x30335852,
            Format::Bgrx1010102 => 0x30335842,
            Format::Argb2101010 => 0x30335241,
            Format::Abgr2101010 => 0x30334241,
            Format::Rgba1010102 => 0x30334152,
            Format::Bgra1010102 => 0x30334142,
            Format::Yuyv => 0x56595559,
            Format::Yvyu => 0x55595659,
            Format::Uyvy => 0x59565955,
            Format::Vyuy => 0x59555956,
            Format::Ayuv => 0x56555941,
            Format::Nv12 => 0x3231564e,
            Format::Nv21 => 0x3132564e,
            Format::Nv16 => 0x3631564e,
            Format::Nv61 => 0x3136564e,
            Format::Yuv410 => 0x39565559,
            Format::Yvu410 => 0x39555659,
            Format::Yuv411 => 0x31315559,
            Format::Yvu411 => 0x31315659,
            Format::Yuv420 => 0x32315559,
            Format::Yvu420 => 0x32315659,
            Format::Yuv422 => 0x36315559,
            Format::Yvu422 => 0x36315659,
            Format::Yuv444 => 0x34325559,
            Format::Yvu444 => 0x34325659,
        }
    }

    /// The value that a number stands for, if any.
    pub open spec fn from_code(v: u32) -> Option<Format> {
        if v == 0 {
            Some(Format::Argb8888)
        } else if v == 1 {
            Some(Format::Xrgb8888)
        } else if v == 0x20203843 {
            Some(Format::C8)
        } else if v == 0x38424752 {
            Some(Format::Rgb332)
        } else if v == 0x38524742 {
            Some(Format::Bgr233)
        } else if v == 0x32315258 {
            Some(Format::Xrgb4444)
        } else if v == 0x32314258 {
            Some(Format::Xbgr4444)
        } else if v == 0x32315852 {
            Some(Format::Rgbx4444)
        } else if v == 0x32315842 {
            Some(Format::Bgrx4444)
        } else if v == 0x32315241 {
            Some(Format::Argb4444)
        } else if v == 0x32314241 {
            Some(Format::Abgr4444)
        } else if v == 0x32314152 {
            Some(Format::Rgba4444)
        } else if v == 0x32314142 {
            Some(Format::Bgra4444)
        } else if v == 0x35315258 {
            Some(Format::Xrgb1555)
        } else if v == 0x35314258 {
            Some(Format::Xbgr1555)
        } else if v == 0x35315852 {
            Some(Format::Rgbx5551)
        } else if v == 0x35315842 {
            Some(Format::Bgrx5551)
        } else if v == 0x35315241 {
            Some(Format::Argb1555)
        } else if v == 0x35314241 {
            Some(Format::Abgr1555)
        } else if v == 0x35314152 {
            Some(Format::Rgba5551)
        } else if v == 0x35314142 {
            Some(Format::Bgra5551)
        } else if v == 0x36314752 {
            Some(Format::Rgb565)
        } else if v == 0x36314742 {
            Some(Format::Bgr565)
        } else if v == 0x34324752 {
            Some(Format::Rgb888)
        } else if v == 0x34324742 {
            Some(Format::Bgr888)
        } else if v == 0x34324258 {
            Some(Format::Xbgr8888)
        } else if v == 0x34325852 {
            Some(Format::Rgbx8888)
        } else if v == 0x34325842 {
            Some(Format::Bgrx8888)
        } else if v == 0x34324241 {
            Some(Format::Abgr8888)
        } else if v == 0x34324152 {
            Some(Format::Rgba8888)
        } else if v == 0x34324142 {
            Some(Format::Bgra8888)
        } else if v == 0x30335258 {
            Some(Format::Xrgb2101010)
        } else if v == 0x30334258 {
            Some(Format::Xbgr2101010)
        } else if v == 0x30335852 {
            Some(Format::Rgbx1010102)
        } else if v == 0x30335842 {
            Some(Format::Bgrx1010102)
        } else if v == 0x30335241 {
            Some(Format::Argb2101010)
        } else if v == 0x30334241 {
            Some(Format::Abgr2101010)
        } else if v == 0x30334152 {
            Some(Format::Rgba1010102)
        } else if v == 0x30334142 {
            Some(Format::Bgra1010102)
        } else if v == 0x56595559 {
            Some(Format::Yuyv)
        } else if v == 0x55595659 {
            Some(Format::Yvyu)
        } else if v == 0x59565955 {
            Some(Format::Uyvy)
        } else if v == 0x59555956 {
            Some(Format::Vyuy)
        } else if v == 0x56555941 {
            Some(Format::Ayuv)
        } else if v == 0x3231564e {
            Some(Format::Nv12)
        } else if v == 0x3132564e {
            Some(Format::Nv21)
        } else if v == 0x3631564e {
            Some(Format::Nv16)
        } else if v == 0x3136564e {
            Some(Format::Nv61)
        } else if v == 0x39565559 {
            Some(Format::Yuv410)
        } else if v == 0x39555659 {
            Some(Format::Yvu410)
        } else if v == 0x31315559 {
            Some(Format::Yuv411)
        } else if v == 0x31315659 {
            Some(Format::Yvu411)
        } else if v == 0x32315559 {
            Some(Format::Yuv420)
        } else if v == 0x32315659 {
            Some(Format::Yvu420)
        } else if v == 0x36315559 {
            Some(Format::Yuv422)
        } else if v == 0x36315659 {
            Some(Format::Yvu422)
        } else if v == 0x34325559 {
            Some(Format::Yuv444)
        } else if v == 0x34325659 {
            Some(Format::Yvu444)
        } else {
            None
        }
    }

    pub fn value(&self) -> (r: u32)
        ensures
            r == self.code(),
    {
        match self {
            Format::Argb8888 => 0,
            Format::Xrgb8888 => 1,
            Format::C8 => 0x20203843,
            Format::Rgb332 => 0x38424752,
            Format::Bgr233 => 0x38524742,
            Format::Xrgb4444 => 0x32315258,
            Format::Xbgr4444 => 0x32314258,
            Format::Rgbx4444 => 0x32315852,
            Format::Bgrx4444 => 0x32315842,
            Format::Argb4444 => 0x32315241,
            Format::Abgr4444 => 0x32314241,
            Format::Rgba4444 => 0x32314152,
            Format::Bgra4444 => 0x32314142,
            Format::Xrgb1555 => 0x35315258,
            Format::Xbgr1555 => 0x35314258,
            Format::Rgbx5551 => 0x35315852,
            Format::Bgrx5551 => 0x35315842,
            Format::Argb1555 => 0x35315241,
            Format::Abgr1555 => 0x35314241,
            Format::Rgba5551 => 0x35314152,
            Format::Bgra5551 => 0x35314142,
            Format::Rgb565 => 0x36314752,
            Format::Bgr565 => 0x36314742,
            Format::Rgb888 => 0x34324752,
            Format::Bgr888 => 0x34324742,
            Format::Xbgr8888 => 0x34324258,
            Format::Rgbx8888 => 0x34325852,
            Format::Bgrx8888 => 0x34325842,
            Format::Abgr8888 => 0x34324241,
            Format::Rgba8888 => 0x34324152,
            Format::Bgra8888 => 0x34324142,
            Format::Xrgb2101010 => 0x30335258,
            Format::Xbgr2101010 => 0x30334258,
            Format::Rgbx1010102 => 0x30335852,
            Format::Bgrx1010102 => 0x30335842,
            Format::Argb2101010 => 0x30335241,
            Format::Abgr2101010 => 0x30334241,
            Format::Rgba1010102 => 0x30334152,
            Format::Bgra1010102 => 0x30334142,
            Format::Yuyv => 0x56595559,
            Format::Yvyu => 0x55595659,
            Format::Uyvy => 0x59565955,
            Format::Vyuy => 0x59555956,
            Format::Ayuv => 0x56555941,
            Format::Nv12 => 0x3231564e,
            Format::Nv21 => 0x3132564e,
            Format::Nv16 => 0x3631564e,
            Format::Nv61 => 0x3136564e,
            Format::Yuv410 => 0x39565559,
            Format::Yvu410 => 0x39555659,
            Format::Yuv411 => 0x31315559,
            Format::Yvu411 => 0x31315659,
            Format::Yuv420 => 0x32315559,
            Format::Yvu420 => 0x32315659,
            Format::Yuv422 => 0x36315559,
            Format::Yvu422 => 0x36315659,
            Format::Yuv444 => 0x34325559,
            Format::Yvu444 => 0x34325659,
        }
    }

    pub fn from_value(v: u32) -> (r: Option<Format>)
        ensures
            r == Self::from_code(v),
    {
        match v {
            0 => Some(Format::Argb8888),
            1 => Some(Format::Xrgb8888),
            0x20203843 => Some(Format::C8),
            0x38424752 => Some(Format::Rgb332),
            0x38524742 => Some(Format::Bgr233),
            0x32315258 => Some(Format::Xrgb4444),
            0x32314258 => Some(Format::Xbgr4444),
            0x32315852 => Some(Format::Rgbx4444),
            0x32315842 => Some(Format::Bgrx4444),
            0x32315241 => Some(Format::Argb4444),
            0x32314241 => Some(Format::Abgr4444),
            0x32314152 => Some(Format::Rgba4444),
            0x32314142 => Some(Format::Bgra4444),
            0x35315258 => Some(Format::Xrgb1555),
            0x35314258 => Some(Format::Xbgr1555),
            0x35315852 => Some(Format::Rgbx5551),
            0x35315842 => Some(Format::Bgrx5551),
            0x35315241 => Some(Format::Argb1555),
            0x35314241 => Some(Format::Abgr1555),
            0x35314152 => Some(Format::Rgba5551),
            0x35314142 => Some(Format::Bgra5551),
            0x36314752 => Some(Format::Rgb565),
            0x36314742 => Some(Format::Bgr565),
            0x34324752 => Some(Format::Rgb888),
            0x34324742 => Some(Format::Bgr888),
            0x34324258 => Some(Format::Xbgr8888),
            0x34325852 => Some(Format::Rgbx8888),
            0x34325842 => Some(Format::Bgrx8888),
            0x34324241 => Some(Format::Abgr8888),
            0x34324152 => Some(Format::Rgba8888),
            0x34324142 => Some(Format::Bgra8888),
            0x30335258 => Some(Format::Xrgb2101010),
            0x30334258 => Some(Format::Xbgr2101010),
            0x30335852 => Some(Format::Rgbx1010102),
            0x30335842 => Some(Format::Bgrx1010102),
            0x30335241 => Some(Format::Argb2101010),
            0x30334241 => Some(Format::Abgr2101010),
            0x30334152 => Some(Format::Rgba1010102),
            0x30334142 => Some(Format::Bgra1010102),
            0x56595559 => Some(Format::Yuyv),
            0x55595659 => Some(Format::Yvyu),
            0x59565955 => Some(Format::Uyvy),
            0x59555956 => Some(Format::Vyuy),
            0x56555941 => Some(Format::Ayuv),
            0x3231564e => Some(Format::Nv12),
            0x3132564e => Some(Format::Nv21),
            0x3631564e => Some(Format::Nv16),
            0x3136564e => Some(Format::Nv61),
            0x39565559 => Some(Format::Yuv410),
            0x39555659 => Some(Format::Yvu410),
            0x31315559 => Some(Format::Yuv411),
            0x31315659 => Some(Format::Yvu411),
            0x32315559 => Some(Format::Yuv420),
            0x32315659 => Some(Format::Yvu420),
            0x36315559 => Some(Format::Yuv422),
            0x36315659 => Some(Format::Yvu422),
            0x34325559 => Some(Format::Yuv444),
            0x34325659 => Some(Format::Yvu444),
            _ => None,
        }
    }

    /// Every value comes back from its number.
    pub proof fn lemma_code_roundtrip(self)
        ensures
            Self::from_code(self.code()) == Some(self),
    {
    }

    /// A number comes back from the value it stands for.
    pub proof fn lemma_from_code(v: u32)
        ensures
            Self::from_code(v) matches Some(e) ==> e.code() == v,
    {
    }
}

} // verus!
