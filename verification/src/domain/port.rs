//! The image value and the two collaborators the service talks to: the
//! clipboard and the configuration.

use crate::domain::color::Color;
use vstd::prelude::*;

verus! {

/// RGBA image data with dimensions.
///
/// That the buffer holds `width * height` pixels is the business of whoever
/// makes the value; the library only ever asks for whole pixels, that is for a
/// length that is a multiple of 4.
#[derive(Debug, PartialEq, Eq)]
pub struct ImageData {
    /// Raw RGBA pixel buffer (4 bytes per pixel).
    pub pixels: Vec<u8>,
    /// Image width in pixels.
    pub width: u32,
    /// Image height in pixels.
    pub height: u32,
}

/// An image as contracts see it: the pixel bytes as a sequence.
pub struct ImageView {
    pub pixels: Seq<u8>,
    pub width: u32,
    pub height: u32,
}

impl View for ImageData {
    type V = ImageView;

    open spec fn view(&self) -> ImageView {
        ImageView { pixels: self.pixels@, width: self.width, height: self.height }
    }
}

impl Clone for ImageData {
    /// A copy with the same pixels and the same dimensions.
    fn clone(&self) -> (copy: Self)
        ensures
            copy@ == self@,
    {
        let pixels = self.pixels.clone();
        assert(pixels@ =~= self.pixels@);
        ImageData { pixels, width: self.width, height: self.height }
    }
}

impl ImageView {
    /// Whether the buffer is made of whole RGBA pixels.
    pub open spec fn has_whole_pixels(self) -> bool {
        self.pixels.len() % 4 == 0
    }
}

/// Port for reading and writing images on the system clipboard.
///
/// Implementations handle OS-specific clipboard access. Nothing is promised
/// of what they answer: every answer, a failure too, is dealt with by the
/// caller.
pub trait ClipboardPort {
    /// The error type returned by clipboard operations.
    type Error: std::fmt::Display;

    /// Reads the clipboard's change counter: a number that moves whenever
    /// the content of the clipboard changes, whoever changed it.
    fn change_count(&self) -> Result<u64, Self::Error>;

    /// Reads an image from the clipboard as RGBA pixel data.
    ///
    /// Returns `Ok(Some(ImageData))` if an image is available,
    /// `Ok(None)` if the clipboard does not contain an image,
    /// or `Err` if an OS-level error occurs.
    fn get_image(&self) -> Result<Option<ImageData>, Self::Error>;

    /// Writes RGBA pixel data to the clipboard as an image. The buffer
    /// handed over is always made of whole pixels.
    fn set_image(&self, image: &ImageData) -> Result<(), Self::Error>
        requires
            image@.has_whole_pixels(),
    ;
}

/// Port for reading and writing application configuration.
///
/// Implementations handle config file I/O. Nothing is promised of what they
/// answer.
pub trait ConfigPort {
    /// The error type returned by config operations.
    type Error: std::fmt::Display;

    /// Loads the target color from the configuration.
    ///
    /// Returns the configured target color, or a default if no config exists.
    fn load_target_color(&self) -> Result<Color, Self::Error>;

    /// Saves the target color to the configuration.
    fn save_target_color(&self, color: &Color) -> Result<(), Self::Error>;

    /// Ensures the config file exists.
    ///
    /// If the config file does not exist, creates it with default settings.
    /// If the file already exists, does nothing.
    fn ensure_config_exists(&self) -> Result<(), Self::Error>;
}

} // verus!
