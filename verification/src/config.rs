//! The configuration record that the engine consumes, and its validation.

use vstd::prelude::*;
use crate::fixed::{ONE, SCALE_LIMIT};

verus! {

/// A background colour, one byte per channel.
#[derive(Clone, Copy, Debug, PartialEq, Eq, Structural)]
pub struct Color {
    pub r: u8,
    pub g: u8,
    pub b: u8,
    pub a: u8,
}

/// Why a set of values is not a configuration.
#[derive(Clone, Copy, Debug, PartialEq, Eq, Structural)]
pub enum ConfigError {
    /// The lower scale bound is zero or negative.
    ScaleMinNotPositive,
    /// The upper scale bound is below the lower one.
    ScaleMaxBelowMin,
    /// The upper scale bound is above `SCALE_LIMIT`.
    ScaleMaxTooLarge,
    /// The zoom factor is not greater than one.
    ZoomFactorNotAboveOne,
    /// The zoom factor is above `SCALE_LIMIT`.
    ZoomFactorTooLarge,
    /// The smoothing factor is not in the range from just above zero to one.
    SmoothingOutOfRange,
}

/// What a configuration holds, as mathematical values. Scales and factors
/// are in millionths.
pub struct ConfigModel {
    pub bg: Color,
    pub scale_min: int,
    pub scale_max: int,
    pub zoom_factor: int,
    pub smoothing_factor: int,
    pub frame_delay_ms: int,
    pub monitor_index: int,
    pub save_dir: Seq<char>,
    pub save_name: Seq<char>,
}

impl ConfigModel {
    /// The scale bounds are positive and ordered, the zoom factor is above
    /// one, and the smoothing factor is above zero and at most one.
    pub open spec fn wf(self) -> bool {
        &&& 0 < self.scale_min <= self.scale_max <= SCALE_LIMIT
        &&& ONE < self.zoom_factor <= SCALE_LIMIT
        &&& 0 < self.smoothing_factor <= ONE
    }
}

/// The error that `Config::new` reports for the given numbers, or `None`
/// where they are valid: the first rule that is broken, in the order of the
/// variants of `ConfigError`.
pub open spec fn config_fault(
    scale_min: int,
    scale_max: int,
    zoom_factor: int,
    smoothing_factor: int,
) -> Option<ConfigError> {
    if scale_min <= 0 {
        Some(ConfigError::ScaleMinNotPositive)
    } else if scale_max < scale_min {
        Some(ConfigError::ScaleMaxBelowMin)
    } else if scale_max > SCALE_LIMIT {
        Some(ConfigError::ScaleMaxTooLarge)
    } else if zoom_factor <= ONE {
        Some(ConfigError::ZoomFactorNotAboveOne)
    } else if zoom_factor > SCALE_LIMIT {
        Some(ConfigError::ZoomFactorTooLarge)
    } else if smoothing_factor <= 0 || smoothing_factor > ONE {
        Some(ConfigError::SmoothingOutOfRange)
    } else {
        None
    }
}

/// A validated configuration, immutable once built.
pub struct Config {
    bg: Color,
    scale_min: i64,
    scale_max: i64,
    zoom_factor: i64,
    smoothing_factor: i64,
    frame_delay_ms: u64,
    monitor_index: usize,
    save_dir: String,
    save_name: String,
}

impl View for Config {
    type V = ConfigModel;

    closed spec fn view(&self) -> ConfigModel {
        ConfigModel {
            bg: self.bg,
            scale_min: self.scale_min as int,
            scale_max: self.scale_max as int,
            zoom_factor: self.zoom_factor as int,
            smoothing_factor: self.smoothing_factor as int,
            frame_delay_ms: self.frame_delay_ms as int,
            monitor_index: self.monitor_index as int,
            save_dir: self.save_dir@,
            save_name: self.save_name@,
        }
    }
}

impl Config {
    #[verifier::type_invariant]
    spec fn valid(self) -> bool {
        self@.wf()
    }

    /// Builds a configuration from its fields, or says which rule the
    /// numbers break. Scales and factors are in millionths.
    pub fn new(
        bg: Color,
        scale_min: i64,
        scale_max: i64,
        zoom_factor: i64,
        smoothing_factor: i64,
        frame_delay_ms: u64,
        monitor_index: usize,
        save_dir: String,
        save_name: String,
    ) -> (r: Result<Config, ConfigError>)
        ensures
            match r {
                Ok(c) => {
                    &&& config_fault(
                        scale_min as int,
                        scale_max as int,
                        zoom_factor as int,
                        smoothing_factor as int,
                    ) is None
                    &&& c@.wf()
                    &&& c@ == (ConfigModel {
                        bg,
                        scale_min: scale_min as int,
                        scale_max: scale_max as int,
                        zoom_factor: zoom_factor as int,
                        smoothing_factor: smoothing_factor as int,
                        frame_delay_ms: frame_delay_ms as int,
                        monitor_index: monitor_index as int,
                        save_dir: save_dir@,
                        save_name: save_name@,
                    })
                },
                Err(e) => config_fault(
                    scale_min as int,
                    scale_max as int,
                    zoom_factor as int,
                    smoothing_factor as int,
                ) == Some(e),
            },
    {
        if scale_min <= 0 {
            Err(ConfigError::ScaleMinNotPositive)
        } else if scale_max < scale_min {
            Err(ConfigError::ScaleMaxBelowMin)
        } else if scale_max > SCALE_LIMIT {
            Err(ConfigError::ScaleMaxTooLarge)
        } else if zoom_factor <= ONE {
            Err(ConfigError::ZoomFactorNotAboveOne)
        } else if zoom_factor > SCALE_LIMIT {
            Err(ConfigError::ZoomFactorTooLarge)
        } else if smoothing_factor <= 0 || smoothing_factor > ONE {
            Err(ConfigError::SmoothingOutOfRange)
        } else {
            Ok(
                Config {
                    bg,
                    scale_min,
                    scale_max,
                    zoom_factor,
                    smoothing_factor,
                    frame_delay_ms,
                    monitor_index,
                    save_dir,
                    save_name,
                },
            )
        }
    }

    /// The background colour.
    pub fn bg(&self) -> (r: Color)
        ensures
            r == self@.bg,
    {
        self.bg
    }

    /// The lower scale bound, in millionths.
    pub fn scale_min(&self) -> (r: i64)
        ensures
            r == self@.scale_min,
            self@.wf(),
    {
        proof {
            use_type_invariant(self);
        }
        self.scale_min
    }

    /// The upper scale bound, in millionths.
    pub fn scale_max(&self) -> (r: i64)
        ensures
            r == self@.scale_max,
            self@.wf(),
    {
        proof {
            use_type_invariant(self);
        }
        self.scale_max
    }

    /// The factor of one zoom step, in millionths.
    pub fn zoom_factor(&self) -> (r: i64)
        ensures
            r == self@.zoom_factor,
            self@.wf(),
    {
        proof {
            use_type_invariant(self);
        }
        self.zoom_factor
    }

    /// The share of the remaining distance that one frame covers, in
    /// millionths.
    pub fn smoothing_factor(&self) -> (r: i64)
        ensures
            r == self@.smoothing_factor,
            self@.wf(),
    {
        proof {
            use_type_invariant(self);
        }
        self.smoothing_factor
    }

    /// The configured frame delay, in milliseconds.
    pub fn frame_delay_ms(&self) -> (r: u64)
        ensures
            r == self@.frame_delay_ms,
    {
        self.frame_delay_ms
    }

    /// The time to sleep at the end of a frame: a quarter of the frame
    /// delay, in whole milliseconds.
    pub fn frame_interval_ms(&self) -> (r: u64)
        ensures
            r == self@.frame_delay_ms / 4,
    {
        self.frame_delay_ms / 4
    }

    /// The index of the output to capture.
    pub fn monitor_index(&self) -> (r: usize)
        ensures
            r == self@.monitor_index,
    {
        self.monitor_index
    }

    /// The directory that saved images go to.
    pub fn save_dir(&self) -> (r: &String)
        ensures
            r@ == self@.save_dir,
    {
        &self.save_dir
    }

    /// The base name of a saved image.
    pub fn save_name(&self) -> (r: &String)
        ensures
            r@ == self@.save_name,
    {
        &self.save_name
    }
}

impl Default for Config {
    /// The configuration that a first run starts from: scale from a tenth
    /// to ten, zoom steps of a tenth, and easing by fifteen hundredths per
    /// frame.
    fn default() -> (c: Config)
        ensures
            c@.wf(),
            c@ == (ConfigModel {
                bg: Color { r: 10, g: 0, b: 15, a: 255 },
                scale_min: 100_000,
                scale_max: 10_000_000,
                zoom_factor: 1_100_000,
                smoothing_factor: 150_000,
                frame_delay_ms: 60,
                monitor_index: 0,
                save_dir: "./"@,
                save_name: "screenshot.png"@,
            }),
    {
        Config {
            bg: Color { r: 10, g: 0, b: 15, a: 255 },
            scale_min: 100_000,
            scale_max: 10_000_000,
            zoom_factor: 1_100_000,
            smoothing_factor: 150_000,
            frame_delay_ms: 60,
            monitor_index: 0,
            save_dir: String::from_str("./"),
            save_name: String::from_str("screenshot.png"),
        }
    }
}

} // verus!
