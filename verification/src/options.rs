use vstd::prelude::*;

use crate::scale::Scale;

verus! {

/// The default output width in pixels.
pub fn default_width() -> (r: u32)
    ensures
        r == 800,
{
    800
}

/// The default output height in pixels.
pub fn default_height() -> (r: u32)
    ensures
        r == 600,
{
    600
}

/// The default background color.
pub fn default_background() -> (r: String)
    ensures
        r@ == "white"@,
{
    "white".to_owned()
}

/// The default diagram-library theme name.
pub fn default_theme() -> (r: String)
    ensures
        r@ == "default"@,
{
    "default".to_owned()
}

/// The default scale factor, 1.000.
pub fn default_scale() -> (r: Scale)
    ensures
        r.milli == 1000,
{
    Scale::one()
}

/// The default quality for lossy encoders.
pub fn default_quality() -> (r: u8)
    ensures
        r == 90,
{
    90
}

/// The options of one render call.
///
/// `width`, `height`, `background`, `theme` and `scale` drive the
/// vector and raster stages; `quality` is read only by the lossy and
/// tunable encoders.
#[derive(Debug, Clone)]
pub struct RenderOptions {
    pub width: u32,
    pub height: u32,
    pub background: String,
    pub theme: String,
    pub scale: Scale,
    pub quality: u8,
}

impl Default for RenderOptions {
    /// The central defaults: 800 by 600 pixels, white background,
    /// default theme, scale 1.000, quality 90.
    fn default() -> (r: RenderOptions)
        ensures
            r.width == 800,
            r.height == 600,
            r.background@ == "white"@,
            r.theme@ == "default"@,
            r.scale.milli == 1000,
            r.quality == 90,
    {
        RenderOptions {
            width: default_width(),
            height: default_height(),
            background: default_background(),
            theme: default_theme(),
            scale: default_scale(),
            quality: default_quality(),
        }
    }
}

/// The mathematical model of the options of one render call.
pub struct OptionsModel {
    pub width: u32,
    pub height: u32,
    pub background: Seq<char>,
    pub theme: Seq<char>,
    pub scale: Scale,
    pub quality: u8,
}

impl View for RenderOptions {
    type V = OptionsModel;

    open spec fn view(&self) -> OptionsModel {
        OptionsModel {
            width: self.width,
            height: self.height,
            background: self.background@,
            theme: self.theme@,
            scale: self.scale,
            quality: self.quality,
        }
    }
}

/// The geometry and styling inputs of the vector stage.
///
/// `scale` is carried along for the raster stage only: the vector
/// stage always targets the unscaled logical width and height.
#[derive(Debug, Clone)]
pub struct RenderConfig {
    pub width: u32,
    pub height: u32,
    pub background: String,
    pub theme: String,
    pub scale: Scale,
}

/// The mathematical model of a vector-stage configuration.
pub struct ConfigModel {
    pub width: u32,
    pub height: u32,
    pub background: Seq<char>,
    pub theme: Seq<char>,
    pub scale: Scale,
}

impl View for RenderConfig {
    type V = ConfigModel;

    open spec fn view(&self) -> ConfigModel {
        ConfigModel {
            width: self.width,
            height: self.height,
            background: self.background@,
            theme: self.theme@,
            scale: self.scale,
        }
    }
}

impl RenderOptions {
    /// The vector-stage configuration these options ask for.
    pub fn to_config(&self) -> (r: RenderConfig)
        ensures
            r@ == (ConfigModel {
                width: self@.width,
                height: self@.height,
                background: self@.background,
                theme: self@.theme,
                scale: self@.scale,
            }),
    {
        RenderConfig {
            width: self.width,
            height: self.height,
            background: self.background.clone(),
            theme: self.theme.clone(),
            scale: self.scale,
        }
    }
}

} // verus!
