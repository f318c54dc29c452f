//! The strip of LEDs: which SPI device it hangs on, and the bytes that make
//! every LED of it show one colour.

use vstd::prelude::*;

verus! {

/// The number of bytes that one LED takes on the wire.
pub const PIXEL_BYTES: usize = 48;

/// A colour for the strip: red, green and blue.
#[derive(Debug, Clone, Copy, PartialEq, Eq)]
pub struct Rgb(pub (u8, u8, u8));

impl Rgb {
    /// The colour with the given channels.
    pub fn new(red: u8, green: u8, blue: u8) -> (c: Self)
        ensures
            c == Rgb((red, green, blue)),
    {
        Rgb((red, green, blue))
    }

    /// Black, which switches an LED off.
    pub fn off() -> (c: Self)
        ensures
            c == Rgb((0u8, 0u8, 0u8)),
    {
        Rgb((0, 0, 0))
    }
}

/// Why the strip cannot be driven.
#[derive(Debug, Clone, PartialEq, Eq)]
pub enum Error {
    /// The adapter of the strip failed.
    Ws28xx(String),
    /// There is no SPI device.
    NoSpiDev,
    /// An input or output operation failed.
    Io(String),
}

/// A failure of the strip, with its message as a sequence of characters.
pub enum ErrorView {
    Ws28xx(Seq<char>),
    NoSpiDev,
    Io(Seq<char>),
}

impl View for Error {
    type V = ErrorView;

    open spec fn view(&self) -> ErrorView {
        match self {
            Error::Ws28xx(message) => ErrorView::Ws28xx(message@),
            Error::NoSpiDev => ErrorView::NoSpiDev,
            Error::Io(message) => ErrorView::Io(message@),
        }
    }
}

/// The text that reports a failure.
pub open spec fn message_of(e: ErrorView) -> Seq<char> {
    match e {
        ErrorView::Ws28xx(message) => "Error in underlying driver: "@ + message,
        ErrorView::NoSpiDev => "No SPI device could be found"@,
        ErrorView::Io(message) => "IO: "@ + message,
    }
}

impl Error {
    /// The text that reports this failure.
    pub fn message(&self) -> (text: String)
        ensures
            text@ == message_of(self@),
    {
        match self {
            Error::Ws28xx(message) => String::from_str("Error in underlying driver: ").concat(
                message.as_str(),
            ),
            Error::NoSpiDev => String::from_str("No SPI device could be found"),
            Error::Io(message) => String::from_str("IO: ").concat(message.as_str()),
        }
    }
}

/// An entry of the directory of devices.
#[derive(Debug, Clone, PartialEq, Eq)]
pub struct DevEntry {
    pub path: String,
    pub is_dir: bool,
}

/// An SPI device, by its path.
#[derive(Debug, Clone, PartialEq, Eq)]
pub struct Spidev(pub String);

/// What marks the path of an SPI device.
pub open spec fn spi_mark() -> Seq<char> {
    "spi"@
}

/// Whether a path names an SPI device: `spi` stands somewhere in it.
pub open spec fn names_spi(path: Seq<char>) -> bool {
    exists|at: int| mark_at(path, at)
}

/// Whether `spi` stands in the path at the given place.
pub open spec fn mark_at(path: Seq<char>, at: int) -> bool {
    &&& 0 <= at
    &&& at + spi_mark().len() <= path.len()
    &&& path.subrange(at, at + spi_mark().len()) == spi_mark()
}

/// What reading one entry of the directory gave: its path and whether it is
/// a directory, or the message of the failure to read it.
pub open spec fn entry_view(entry: Result<DevEntry, String>) -> Result<(Seq<char>, bool), Seq<char>> {
    match entry {
        Ok(entry) => Ok((entry.path@, entry.is_dir)),
        Err(message) => Err(message@),
    }
}

/// What reading the directory gave, entry by entry.
pub open spec fn entries_view(entries: Seq<Result<DevEntry, String>>) -> Seq<
    Result<(Seq<char>, bool), Seq<char>>,
> {
    entries.map_values(|entry: Result<DevEntry, String>| entry_view(entry))
}

/// The path of the SPI device among the entries of the directory: that of
/// the first entry that is no directory and names an SPI device. An entry
/// that could not be read ends the search with its failure, and so does the
/// end of the directory: then there is no SPI device.
pub open spec fn first_spidev(entries: Seq<Result<(Seq<char>, bool), Seq<char>>>) -> Result<
    Seq<char>,
    ErrorView,
>
    decreases entries.len(),
{
    if entries.len() == 0 {
        Err(ErrorView::NoSpiDev)
    } else {
        match entries[0] {
            Err(message) => Err(ErrorView::Io(message)),
            Ok((path, is_dir)) => if !is_dir && names_spi(path) {
                Ok(path)
            } else {
                first_spidev(entries.drop_first())
            },
        }
    }
}

/// Whether a path names an SPI device.
pub fn path_names_spi(path: &str) -> (found: bool)
    ensures
        found == names_spi(path@),
{
    proof {
        reveal_strlit("spi");
    }
    let len = path.unicode_len();
    if len < 3 {
        return false;
    }
    let mark = String::from_str("spi");
    let mut at: usize = 0;
    while at <= len - 3
        invariant
            3 <= len,
            len == path@.len(),
            spi_mark().len() == 3,
            mark@ == spi_mark(),
            forall|earlier: int| 0 <= earlier < at ==> !mark_at(path@, earlier),
        decreases len - at,
    {
        if String::from_str(path.substring_char(at, at + 3)) == mark {
            assert(mark_at(path@, at as int));
            return true;
        }
        at += 1;
    }
    false
}

impl Spidev {
    /// The SPI device among the entries of the directory of devices.
    pub fn new(entries: &Vec<Result<DevEntry, String>>) -> (r: Result<Spidev, Error>)
        ensures
            match r {
                Ok(spidev) => first_spidev(entries_view(entries@)) == Ok::<Seq<char>, ErrorView>(
                    spidev.0@,
                ),
                Err(e) => first_spidev(entries_view(entries@)) == Err::<Seq<char>, ErrorView>(e@),
            },
    {
        let ghost all = entries_view(entries@);
        let mut i: usize = 0;
        assert(all.skip(0) =~= all);
        while i < entries.len()
            invariant
                i <= entries.len(),
                all == entries_view(entries@),
                first_spidev(all) == first_spidev(all.skip(i as int)),
            decreases entries.len() - i,
        {
            assert(all.skip(i as int).drop_first() =~= all.skip(i + 1));
            match &entries[i] {
                Err(message) => {
                    return Err(Error::Io(message.clone()));
                },
                Ok(entry) => {
                    if !entry.is_dir && path_names_spi(entry.path.as_str()) {
                        return Ok(Spidev(entry.path.clone()));
                    }
                },
            }
            i += 1;
        }
        Err(Error::NoSpiDev)
    }

    /// The SPI device with the given path, which must exist.
    pub fn new_with_name(name: &str, exists: bool) -> (r: Result<Spidev, Error>)
        ensures
            match r {
                Ok(spidev) => exists && spidev.0@ == name@,
                Err(e) => !exists && e@ == ErrorView::NoSpiDev,
            },
    {
        if !exists {
            return Err(Error::NoSpiDev);
        }
        Ok(Spidev(String::from_str(name)))
    }
}

/// The bytes that make one LED show a colour, given as red, green and blue:
/// what the adapter's encoder makes of the colour.
pub uninterp spec fn encoded_rgb(r: u8, g: u8, b: u8) -> Seq<u8>;

/// `ws2818_rgb_led_spi_driver::encoding::encode_rgb`: the bytes for one LED,
/// an array of 48 bytes (three channels of eight bits, two bytes for each
/// bit), which depends on the colour alone.
#[verifier::external_body]
fn encode_pixel(r: u8, g: u8, b: u8) -> (bytes: Vec<u8>)
    ensures
        bytes@ == encoded_rgb(r, g, b),
        bytes@.len() == PIXEL_BYTES,
{
    ws2818_rgb_led_spi_driver::encoding::encode_rgb(r, g, b).to_vec()
}

/// The bytes of one LED, once for each LED of a strip.
pub open spec fn repeated(pixel: Seq<u8>, length: nat) -> Seq<u8>
    decreases length,
{
    if length == 0 {
        Seq::empty()
    } else {
        repeated(pixel, (length - 1) as nat) + pixel
    }
}

/// The bytes of one LED, once for each LED of a strip of the given length.
pub fn repeat_pixel(pixel: &Vec<u8>, length: u16) -> (frame: Vec<u8>)
    ensures
        frame@ == repeated(pixel@, length as nat),
{
    let mut frame: Vec<u8> = Vec::new();
    let mut i: u16 = 0;
    while i < length
        invariant
            i <= length,
            frame@ == repeated(pixel@, i as nat),
        decreases length - i,
    {
        frame.extend_from_slice(pixel.as_slice());
        i += 1;
    }
    frame
}

/// A strip of LEDs of a given length.
#[derive(Debug, Clone, Copy, PartialEq, Eq, Structural)]
pub struct Driver {
    pub length: u16,
}

impl Driver {
    /// The driver of a strip of the given length.
    pub fn new(length: u16) -> (driver: Self)
        ensures
            driver.length == length,
    {
        Driver { length }
    }

    /// The bytes that make every LED of the strip show the colour. The strip
    /// takes green where the encoder puts blue, so the two change places.
    pub fn frame(&self, rgb: Rgb) -> (frame: Vec<u8>)
        ensures
            frame@ == repeated(encoded_rgb(rgb.0.0, rgb.0.2, rgb.0.1), self.length as nat),
            frame@.len() == self.length * PIXEL_BYTES,
    {
        let (r, g, b) = rgb.0;
        let pixel = encode_pixel(r, b, g);
        proof {
            repeated_length(pixel@, self.length as nat);
        }
        repeat_pixel(&pixel, self.length)
    }
}

/// A frame is as long as its LEDs together.
pub proof fn repeated_length(pixel: Seq<u8>, length: nat)
    ensures
        repeated(pixel, length).len() == length * pixel.len(),
    decreases length,
{
    if length > 0 {
        let shorter = (length - 1) as nat;
        repeated_length(pixel, shorter);
        assert(length * pixel.len() == shorter * pixel.len() + pixel.len()) by (nonlinear_arith)
            requires
                shorter == length - 1,
        ;
    } else {
        assert(length * pixel.len() == 0) by (nonlinear_arith)
            requires
                length == 0,
        ;
    }
}

} // verus!
