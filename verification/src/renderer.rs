//! The configuration of a render and what can be wrong with it.

use vstd::prelude::*;
use crate::integrator::Integrator;
use crate::render::{fits, position_of, Screen};

verus! {

/// Why a configuration is turned down.
#[derive(Clone, Copy, PartialEq, Eq, Structural, Debug)]
pub enum ConfigError {
    /// The image has no columns.
    ZeroWidth,
    /// The image has no rows.
    ZeroHeight,
    /// No sample is to be taken of a pixel.
    ZeroSamples,
    /// The number of directions does not match the number of samples.
    SampleCount,
    /// The image has more pixels than can be held.
    TooLarge,
}

/// What a render is asked for.
#[derive(Clone, Copy, PartialEq, Eq, Structural, Debug)]
pub struct RenderProperties {
    pub width: usize,
    pub height: usize,
    /// How many samples are collected for each pixel.
    pub samples_per_pixel: u32,
    /// How many bounces a path is followed before it is given up.
    pub max_bounces: u32,
}

/// The first fault of a configuration, if it has one.
pub open spec fn fault(width: usize, height: usize, samples_per_pixel: u32) -> Option<ConfigError> {
    if width == 0 {
        Some(ConfigError::ZeroWidth)
    } else if height == 0 {
        Some(ConfigError::ZeroHeight)
    } else if samples_per_pixel == 0 {
        Some(ConfigError::ZeroSamples)
    } else {
        None
    }
}

/// Validates the dimensions of an image and the number of samples per pixel:
/// none of them may be zero. Any number of bounces is in order.
pub fn validate(width: usize, height: usize, samples_per_pixel: u32) -> (r: Result<(), ConfigError>)
    ensures
        r is Ok <==> fault(width, height, samples_per_pixel) is None,
        r matches Err(e) ==> fault(width, height, samples_per_pixel) == Some(e),
{
    if width == 0 {
        Err(ConfigError::ZeroWidth)
    } else if height == 0 {
        Err(ConfigError::ZeroHeight)
    } else if samples_per_pixel == 0 {
        Err(ConfigError::ZeroSamples)
    } else {
        Ok(())
    }
}

impl RenderProperties {
    /// Validates the properties before a render starts.
    pub fn validate(&self) -> (r: Result<(), ConfigError>)
        ensures
            r is Ok <==> fault(self.width, self.height, self.samples_per_pixel) is None,
            r matches Err(e) ==> fault(self.width, self.height, self.samples_per_pixel) == Some(e),
    {
        validate(self.width, self.height, self.samples_per_pixel)
    }
}

/// Renders an image with the given properties: validates them, then asks
/// `integrator` for the radiance of every pixel.
///
/// Nothing is rendered when a dimension or the number of samples is zero, or
/// when the image has more pixels than can be held.
pub fn render<I: Integrator>(properties: &RenderProperties, integrator: &I) -> (r: Result<
    Screen,
    ConfigError,
>)
    ensures
        r is Ok <==> fault(properties.width, properties.height, properties.samples_per_pixel)
            is None && fits(properties.width, properties.height),
        r matches Err(e) ==> Some(e) == fault(
            properties.width,
            properties.height,
            properties.samples_per_pixel,
        ) || (fault(properties.width, properties.height, properties.samples_per_pixel) is None
            && e == ConfigError::TooLarge),
        r matches Ok(screen) ==> {
            &&& screen.columns() == properties.width
            &&& screen.rows() == properties.height
            &&& forall|x: int, y: int|
                0 <= x < properties.width && 0 <= y < properties.height ==> integrator.answers(
                    position_of(properties.width, properties.height, x as usize, y as usize),
                    #[trigger] screen.at(x, y),
                )
        },
{
    match properties.validate() {
        Err(e) => {
            return Err(e);
        },
        Ok(_) => {},
    }
    let dimensions = crate::render::RenderProperties {
        width: properties.width,
        height: properties.height,
    };
    crate::render::render(&dimensions, integrator)
}

} // verus!
