//! The status indicator: the intents that the activities queue for it, and
//! the decisions of its driver, free of any hardware.
//!
//! Two kinds of indicator exist: a plain lamp on a pin, which is on or off,
//! and an addressable RGB pixel. The driver model here decides what is put
//! on the hardware; putting it there is the caller's part.

use vstd::prelude::*;

verus! {

/// An intent for the status indicator.
#[derive(Copy, Clone, Debug, PartialEq, Eq)]
pub enum LedCommand {
    /// Show the colour `(r, g, b)`.
    Solid(u8, u8, u8),
    /// Go dark, wait for the period in milliseconds, then show `(r, g, b)`.
    Blink(u8, u8, u8, Option<u16>),
}

/// The hardware behind an indicator.
#[derive(Copy, Clone, Debug, PartialEq, Eq)]
pub enum LedDriver {
    /// A lamp on a pin.
    Gpio,
    /// An addressable RGB pixel.
    Ws2812,
}

/// What is put on the indicator's hardware.
#[derive(Copy, Clone, Debug, PartialEq, Eq)]
pub enum LedSignal {
    /// The pin of a lamp: high for on.
    Level(bool),
    /// The colour of a pixel.
    Color(u8, u8, u8),
}

/// By how much the hue moves on after each lit colour.
pub const HUE_STEP: u8 = 15;

/// For how long, in milliseconds, a cycled colour is held.
pub const CYCLE_HOLD_MS: u64 = 500;

/// The colour that `smart_leds::hsv::hsv2rgb` gives for a hue, a saturation
/// and a value.
pub uninterp spec fn hsv2rgb_color(hue: u8, sat: u8, val: u8) -> (u8, u8, u8);

/// Converts a colour from hue, saturation and value to red, green and blue
/// with `smart_leds::hsv::hsv2rgb`. The conversion is integer arithmetic on
/// its three arguments alone; the contract gives its result a name and says
/// nothing else of it.
#[verifier::external_body]
fn hsv_to_rgb(hue: u8, sat: u8, val: u8) -> (rgb: (u8, u8, u8))
    ensures
        rgb == hsv2rgb_color(hue, sat, val),
{
    let color = smart_leds::hsv::hsv2rgb(smart_leds::hsv::Hsv { hue, sat, val });
    (color.r, color.g, color.b)
}

/// The driver of one indicator.
#[derive(Copy, Clone, Debug, PartialEq, Eq)]
pub struct Led {
    /// The hardware that is driven.
    pub driver: LedDriver,
    /// The hue of the next lit colour of a pixel.
    pub hue: u8,
}

impl Led {
    /// What `set_color` puts on the hardware.
    pub open spec fn color_signal(self, brightness: u8) -> LedSignal {
        match self.driver {
            LedDriver::Gpio => LedSignal::Level(brightness > 0),
            LedDriver::Ws2812 => if brightness > 0 {
                let rgb = hsv2rgb_color(self.hue, 255, brightness);
                LedSignal::Color(rgb.0, rgb.1, rgb.2)
            } else {
                LedSignal::Color(0, 0, 0)
            },
        }
    }

    /// The driver after `set_color`: a pixel that was lit moves its hue on,
    /// wrapping round at 256; nothing else changes.
    pub open spec fn after_color(self, brightness: u8) -> Led {
        if self.driver == LedDriver::Ws2812 && brightness > 0 {
            Led { driver: self.driver, hue: ((self.hue + HUE_STEP) % 256) as u8 }
        } else {
            self
        }
    }

    /// The driver of a lamp on a pin.
    pub fn new_gpio() -> (led: Led)
        ensures
            led == (Led { driver: LedDriver::Gpio, hue: 0 }),
    {
        Led { driver: LedDriver::Gpio, hue: 0 }
    }

    /// The driver of an addressable pixel, its hue at the start of the wheel.
    pub fn new_ws2812() -> (led: Led)
        ensures
            led == (Led { driver: LedDriver::Ws2812, hue: 0 }),
    {
        Led { driver: LedDriver::Ws2812, hue: 0 }
    }

    /// Shows a lit colour on a pixel and moves the hue on by one step,
    /// wrapping round at 256.
    pub fn show_lit(&mut self, rgb: (u8, u8, u8)) -> (signal: LedSignal)
        ensures
            signal == LedSignal::Color(rgb.0, rgb.1, rgb.2),
            *final(self) == (Led {
                driver: old(self).driver,
                hue: ((old(self).hue + HUE_STEP) % 256) as u8,
            }),
    {
        self.hue = self.hue.wrapping_add(HUE_STEP);
        LedSignal::Color(rgb.0, rgb.1, rgb.2)
    }

    /// Sets the indicator by brightness. A lamp is on for any brightness
    /// above zero. A pixel shows, fully saturated, the current hue at that
    /// brightness and moves the hue on; at brightness zero it goes black and
    /// keeps its hue.
    pub fn set_color(&mut self, brightness: u8) -> (signal: LedSignal)
        ensures
            signal == old(self).color_signal(brightness),
            *final(self) == old(self).after_color(brightness),
    {
        match self.driver {
            LedDriver::Gpio => LedSignal::Level(brightness > 0),
            LedDriver::Ws2812 => {
                if brightness > 0 {
                    let rgb = hsv_to_rgb(self.hue, 255, brightness);
                    self.show_lit(rgb)
                } else {
                    LedSignal::Color(0, 0, 0)
                }
            },
        }
    }

    /// Sets a pixel to the colour `(r, g, b)`. A lamp has no colour: the
    /// request is dropped and nothing is put on the hardware.
    pub fn set_color_rgb(&self, r: u8, g: u8, b: u8) -> (signal: Option<LedSignal>)
        ensures
            signal == match self.driver {
                LedDriver::Gpio => None,
                LedDriver::Ws2812 => Some(LedSignal::Color(r, g, b)),
            },
    {
        match self.driver {
            LedDriver::Gpio => None,
            LedDriver::Ws2812 => Some(LedSignal::Color(r, g, b)),
        }
    }

    /// One step of a colour cycle: what `set_color` puts on the hardware,
    /// and for how many milliseconds it is held before the next step.
    pub fn cycle_color(&mut self, brightness: u8) -> (step: (LedSignal, u64))
        ensures
            step.0 == old(self).color_signal(brightness),
            step.1 == CYCLE_HOLD_MS,
            *final(self) == old(self).after_color(brightness),
    {
        let signal = self.set_color(brightness);
        (signal, CYCLE_HOLD_MS)
    }
}

} // verus!
