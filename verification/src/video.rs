//! The video pipeline's configuration record and the codes it is written in.

use vstd::prelude::*;

verus! {

/// The platform conventions this layer knows. One is chosen when the host
/// starts and handed to whatever depends on it.
#[derive(Debug, Clone, Copy, PartialEq, Eq, Structural)]
pub enum Platform {
    MacOs,
    Windows,
    Linux,
}

/// The graphics backend the native engine is asked to load.
#[derive(Debug, Clone, Copy, PartialEq, Eq, Structural)]
pub enum GraphicsModule {
    OpenGL,
    D3D11,
}

impl GraphicsModule {
    /// Whether this backend has a shared library on `platform`.
    pub open spec fn spec_available_on(self, platform: Platform) -> bool {
        !(platform == Platform::MacOs && self == GraphicsModule::D3D11)
    }

    /// The NUL-terminated name of this backend's shared library on `platform`.
    pub open spec fn library_name(self, platform: Platform) -> Seq<char> {
        match (platform, self) {
            (Platform::MacOs, _) => "libobs-opengl.dylib\0"@,
            (_, GraphicsModule::OpenGL) => "libobs-opengl\0"@,
            (_, GraphicsModule::D3D11) => "libobs-d3d11\0"@,
        }
    }

    /// Whether this backend has a shared library on `platform`.
    #[verifier::when_used_as_spec(spec_available_on)]
    pub fn available_on(self, platform: Platform) -> (r: bool)
        ensures
            r == self.spec_available_on(platform),
    {
        match (platform, self) {
            (Platform::MacOs, GraphicsModule::D3D11) => false,
            _ => true,
        }
    }

    /// The NUL-terminated name of this backend's shared library on `platform`.
    pub fn as_str(self, platform: Platform) -> (r: &'static str)
        requires
            self.available_on(platform),
        ensures
            r@ == self.library_name(platform),
    {
        match platform {
            Platform::MacOs => "libobs-opengl.dylib\0",
            _ => match self {
                GraphicsModule::OpenGL => "libobs-opengl\0",
                GraphicsModule::D3D11 => "libobs-d3d11\0",
            },
        }
    }
}

/// Pixel layouts a video pipeline can be asked to produce.
#[derive(Debug, Clone, Copy, PartialEq, Eq, Structural)]
pub enum VideoFormat {
    NoFormat,
    I420,
    NV12,
    YVYU,
    YUY2,
    UYVY,
    RGBA,
    BGRA,
    BGRX,
    Y800,
    I444,
    BGR3,
    I422,
    I40A,
    I42A,
    YUVA,
    AYUV,
    I010,
    P010,
    I210,
    I412,
    YA2L,
}

impl VideoFormat {
    /// The native code of this layout; the layouts without one cannot be
    /// configured yet.
    pub open spec fn spec_code(self) -> Option<u32> {
        match self {
            VideoFormat::NoFormat => Some(0u32),
            VideoFormat::I420 => Some(1u32),
            VideoFormat::NV12 => Some(2u32),
            VideoFormat::YVYU => Some(3u32),
            VideoFormat::YUY2 => Some(4u32),
            VideoFormat::UYVY => Some(5u32),
            VideoFormat::RGBA => Some(6u32),
            VideoFormat::BGRA => Some(7u32),
            VideoFormat::BGRX => Some(8u32),
            VideoFormat::Y800 => Some(9u32),
            VideoFormat::I444 => Some(10u32),
            VideoFormat::BGR3 => Some(11u32),
            VideoFormat::I422 => Some(12u32),
            VideoFormat::I40A => Some(13u32),
            VideoFormat::I42A => Some(14u32),
            VideoFormat::YUVA => Some(15u32),
            VideoFormat::AYUV => Some(16u32),
            VideoFormat::I010 => None,
            VideoFormat::P010 => None,
            VideoFormat::I210 => None,
            VideoFormat::I412 => None,
            VideoFormat::YA2L => None,
        }
    }

    /// The native code of this layout, if it has one.
    #[verifier::when_used_as_spec(spec_code)]
    pub fn code(self) -> (r: Option<u32>)
        ensures
            r == self.spec_code(),
    {
        match self {
            VideoFormat::NoFormat => Some(0),
            VideoFormat::I420 => Some(1),
            VideoFormat::NV12 => Some(2),
            VideoFormat::YVYU => Some(3),
            VideoFormat::YUY2 => Some(4),
            VideoFormat::UYVY => Some(5),
            VideoFormat::RGBA => Some(6),
            VideoFormat::BGRA => Some(7),
            VideoFormat::BGRX => Some(8),
            VideoFormat::Y800 => Some(9),
            VideoFormat::I444 => Some(10),
            VideoFormat::BGR3 => Some(11),
            VideoFormat::I422 => Some(12),
            VideoFormat::I40A => Some(13),
            VideoFormat::I42A => Some(14),
            VideoFormat::YUVA => Some(15),
            VideoFormat::AYUV => Some(16),
            VideoFormat::I010 => None,
            VideoFormat::P010 => None,
            VideoFormat::I210 => None,
            VideoFormat::I412 => None,
            VideoFormat::YA2L => None,
        }
    }
}

/// Every native layout code lies in `0..=16`, and no two layouts share one.
pub proof fn lemma_format_codes_distinct(a: VideoFormat, b: VideoFormat)
    ensures
        a.spec_code() matches Some(c) ==> c <= 16,
        a.spec_code() is Some && a.spec_code() == b.spec_code() ==> a == b,
{
}

/// The record the native engine reads when its video pipeline is reset.
/// A plain value: it is handed over once and nothing keeps it afterwards.
#[derive(Debug, Clone, Copy, PartialEq, Eq)]
pub struct VideoSetting {
    /// NUL-terminated shared-library name of the graphics backend, if chosen.
    pub graphics_module: Option<&'static str>,
    pub fps_num: u32,
    pub fps_den: u32,
    pub base_width: u32,
    pub base_height: u32,
    pub output_width: u32,
    pub output_height: u32,
    pub output_format: u32,
    pub adapter: u32,
    pub gpu_conversion: bool,
    pub colorspace: u32,
    pub range: u32,
    pub scale_type: u32,
}

impl VideoSetting {
    /// The record with no backend chosen and every number zero.
    pub open spec fn blank() -> VideoSetting {
        VideoSetting {
            graphics_module: None,
            fps_num: 0,
            fps_den: 0,
            base_width: 0,
            base_height: 0,
            output_width: 0,
            output_height: 0,
            output_format: 0,
            adapter: 0,
            gpu_conversion: false,
            colorspace: 0,
            range: 0,
            scale_type: 0,
        }
    }

    /// The record with no backend chosen and every number zero.
    pub fn new() -> (r: Self)
        ensures
            r == VideoSetting::blank(),
    {
        VideoSetting {
            graphics_module: None,
            fps_num: 0,
            fps_den: 0,
            base_width: 0,
            base_height: 0,
            output_width: 0,
            output_height: 0,
            output_format: 0,
            adapter: 0,
            gpu_conversion: false,
            colorspace: 0,
            range: 0,
            scale_type: 0,
        }
    }

    /// Chooses the graphics backend by its library name on `platform`.
    pub fn with_graphics_module(self, value: GraphicsModule, platform: Platform) -> (r: Self)
        requires
            value.available_on(platform),
        ensures
            r.graphics_module matches Some(name) && name@ == value.library_name(platform),
            r == (VideoSetting { graphics_module: r.graphics_module, ..self }),
    {
        let mut next = self;
        next.graphics_module = Some(value.as_str(platform));
        next
    }

    /// Sets the frame rate to `num / den`.
    pub fn with_fps(self, num: u32, den: u32) -> (r: Self)
        ensures
            r == (VideoSetting { fps_num: num, fps_den: den, ..self }),
    {
        let mut next = self;
        next.fps_num = num;
        next.fps_den = den;
        next
    }

    /// Sets the size of the compositing surface.
    pub fn with_base_size(self, width: u32, height: u32) -> (r: Self)
        ensures
            r == (VideoSetting { base_width: width, base_height: height, ..self }),
    {
        let mut next = self;
        next.base_width = width;
        next.base_height = height;
        next
    }

    /// Sets the size of the output surface.
    pub fn with_output_size(self, width: u32, height: u32) -> (r: Self)
        ensures
            r == (VideoSetting { output_width: width, output_height: height, ..self }),
    {
        let mut next = self;
        next.output_width = width;
        next.output_height = height;
        next
    }

    /// Sets the output pixel layout by its native code.
    pub fn with_output_format(self, format: VideoFormat) -> (r: Self)
        requires
            format.code() is Some,
        ensures
            r == (VideoSetting { output_format: format.code().unwrap(), ..self }),
    {
        let mut next = self;
        match format.code() {
            Some(code) => {
                next.output_format = code;
            },
            None => {},
        }
        next
    }
}

} // verus!
