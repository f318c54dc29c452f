//! The command line of the tool that sets the strip to one colour.

use vstd::prelude::*;
use crate::driver::Rgb;

verus! {

/// The arguments of the command line.
#[derive(Debug, Clone, PartialEq, Eq)]
pub struct Cli {
    /// The path of the SPI device. Without it the first one found is taken.
    pub dev: Option<String>,
    /// The number of LEDs of the strip.
    pub length: u16,
    pub red: Option<u8>,
    pub green: Option<u8>,
    pub blue: Option<u8>,
}

/// A channel as given on the command line; one that is not given is zero.
pub open spec fn channel_of(given: Option<u8>) -> u8 {
    match given {
        Some(value) => value,
        None => 0,
    }
}

impl Cli {
    /// The colour that the command line asks for.
    pub fn color(&self) -> (c: Rgb)
        ensures
            c == Rgb((channel_of(self.red), channel_of(self.green), channel_of(self.blue))),
    {
        let red = match self.red {
            Some(value) => value,
            None => 0,
        };
        let green = match self.green {
            Some(value) => value,
            None => 0,
        };
        let blue = match self.blue {
            Some(value) => value,
            None => 0,
        };
        Rgb::new(red, green, blue)
    }
}

} // verus!
