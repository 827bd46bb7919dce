//! What a program chooses once at startup: window, mode and font cache.

use vstd::prelude::*;

verus! {

/// How the window is shown.
#[derive(Clone, Copy, Debug, PartialEq, Eq, Structural)]
pub enum GraphicsMode {
    Windowed,
    Fullscreen,
    Borderless,
}

impl Default for GraphicsMode {
    fn default() -> (mode: GraphicsMode)
        ensures
            mode == GraphicsMode::Windowed,
    {
        GraphicsMode::Windowed
    }
}

/// Where baked fonts are cached and the resolution they are designed for.
#[derive(Clone, Debug)]
pub struct FontsConfig {
    pub cache: String,
    pub resolution_reference: Option<[u32; 2]>,
}

/// The window title of a default configuration.
pub fn default_title() -> (title: String)
    ensures
        title@ == "motoro"@,
{
    "motoro".to_owned()
}

/// A default configuration waits for the display's vertical sync.
pub fn default_vsync() -> (vsync: bool)
    ensures
        vsync,
{
    true
}

/// The window size of a default configuration, width then height.
pub fn default_resolution() -> (resolution: [u32; 2])
    ensures
        resolution@ == seq![1920u32, 1080u32],
{
    let resolution: [u32; 2] = [1920, 1080];
    assert(resolution@ =~= seq![1920u32, 1080u32]);
    resolution
}

/// The font cache directory of a default configuration.
pub fn default_fonts_cache() -> (cache: String)
    ensures
        cache@ == "./assets/cache/fonts"@,
{
    "./assets/cache/fonts".to_owned()
}

impl Default for FontsConfig {
    fn default() -> (config: FontsConfig)
        ensures
            config.cache@ == "./assets/cache/fonts"@,
            config.resolution_reference is None,
    {
        FontsConfig { cache: default_fonts_cache(), resolution_reference: None }
    }
}

impl FontsConfig {
    /// The same configuration with `cache` as the cache directory.
    pub fn cache(self, cache: &str) -> (config: FontsConfig)
        ensures
            config.cache@ == cache@,
            config.resolution_reference == self.resolution_reference,
    {
        FontsConfig { cache: cache.to_owned(), resolution_reference: self.resolution_reference }
    }

    /// The same configuration with `resolution` as the reference resolution.
    pub fn resolution_reference(self, resolution: [u32; 2]) -> (config: FontsConfig)
        ensures
            config.cache == self.cache,
            config.resolution_reference == Some(resolution),
    {
        FontsConfig { cache: self.cache, resolution_reference: Some(resolution) }
    }
}

/// Everything the graphics context is created from.
#[derive(Clone, Debug)]
pub struct GraphicsConfig {
    pub title: String,
    pub mode: GraphicsMode,
    pub resolution: [u32; 2],
    pub resolution_reference: Option<[u32; 2]>,
    pub position: Option<[i32; 2]>,
    pub vsync: bool,
    pub fonts: FontsConfig,
}

impl Default for GraphicsConfig {
    fn default() -> (config: GraphicsConfig)
        ensures
            config.title@ == "motoro"@,
            config.mode == GraphicsMode::Windowed,
            config.resolution@ == seq![1920u32, 1080u32],
            config.resolution_reference is None,
            config.position is None,
            config.vsync,
            config.fonts.cache@ == "./assets/cache/fonts"@,
            config.fonts.resolution_reference is None,
    {
        GraphicsConfig {
            title: default_title(),
            mode: GraphicsMode::default(),
            resolution: default_resolution(),
            resolution_reference: None,
            position: None,
            vsync: default_vsync(),
            fonts: FontsConfig::default(),
        }
    }
}

impl GraphicsConfig {
    /// The same configuration with the fonts part replaced by what `config`
    /// makes of it.
    pub fn fonts<F>(self, config: F) -> (result: GraphicsConfig) where
        F: FnOnce(FontsConfig) -> FontsConfig,

        requires
            config.requires((self.fonts,)),
        ensures
            config.ensures((self.fonts,), result.fonts),
            result.title == self.title,
            result.mode == self.mode,
            result.resolution == self.resolution,
            result.resolution_reference == self.resolution_reference,
            result.position == self.position,
            result.vsync == self.vsync,
    {
        let fonts = config(self.fonts);
        GraphicsConfig {
            title: self.title,
            mode: self.mode,
            resolution: self.resolution,
            resolution_reference: self.resolution_reference,
            position: self.position,
            vsync: self.vsync,
            fonts,
        }
    }

    /// The same configuration with `resolution` as the window size.
    pub fn resolution(self, resolution: [u32; 2]) -> (result: GraphicsConfig)
        ensures
            result.resolution == resolution,
            result.title == self.title,
            result.mode == self.mode,
            result.resolution_reference == self.resolution_reference,
            result.position == self.position,
            result.vsync == self.vsync,
            result.fonts == self.fonts,
    {
        GraphicsConfig {
            title: self.title,
            mode: self.mode,
            resolution,
            resolution_reference: self.resolution_reference,
            position: self.position,
            vsync: self.vsync,
            fonts: self.fonts,
        }
    }

    /// The same configuration with `resolution` as the reference resolution.
    pub fn resolution_reference(self, resolution: [u32; 2]) -> (result: GraphicsConfig)
        ensures
            result.resolution_reference == Some(resolution),
            result.title == self.title,
            result.mode == self.mode,
            result.resolution == self.resolution,
            result.position == self.position,
            result.vsync == self.vsync,
            result.fonts == self.fonts,
    {
        GraphicsConfig {
            title: self.title,
            mode: self.mode,
            resolution: self.resolution,
            resolution_reference: Some(resolution),
            position: self.position,
            vsync: self.vsync,
            fonts: self.fonts,
        }
    }

    /// The present mode that the configuration asks for: first-in first-out
    /// with vertical sync, immediate without.
    pub fn present_mode(&self) -> (mode: i32)
        ensures
            mode == if self.vsync {
                crate::vulkan::swapchain::PRESENT_MODE_FIFO
            } else {
                crate::vulkan::swapchain::PRESENT_MODE_IMMEDIATE
            },
    {
        if self.vsync {
            crate::vulkan::swapchain::PRESENT_MODE_FIFO
        } else {
            crate::vulkan::swapchain::PRESENT_MODE_IMMEDIATE
        }
    }
}

} // verus!
