use deskled::cli::Cli;
use deskled::config::{Config, Led, Login, Mysql, Oauth2};
use deskled::driver::{path_names_spi, repeat_pixel, DevEntry, Driver, Error, Rgb, Spidev};

fn zero() -> [u8; 2] {
    [0b1111_1000, 0b0000_0000]
}

fn one() -> [u8; 2] {
    [0b1111_1111, 0b1000_0000]
}

fn channel(bits: [u8; 2]) -> Vec<u8> {
    (0..8).flat_map(|_| bits).collect()
}

#[test]
fn rgb_new_keeps_the_channels() {
    assert_eq!(Rgb((1, 2, 3)), Rgb::new(1, 2, 3));
    assert_eq!(Rgb((0, 0, 0)), Rgb::off());
}

#[test]
fn frame_of_one_led_is_forty_eight_bytes() {
    let frame = Driver::new(1).frame(Rgb::new(0, 0, 0));
    assert_eq!(48, frame.len());
    assert_eq!([channel(zero()), channel(zero()), channel(zero())].concat(), frame);
}

#[test]
fn frame_puts_red_in_the_middle() {
    let frame = Driver::new(1).frame(Rgb::new(255, 0, 0));
    assert_eq!([channel(zero()), channel(one()), channel(zero())].concat(), frame);
}

#[test]
fn frame_swaps_green_and_blue() {
    let green = Driver::new(1).frame(Rgb::new(0, 255, 0));
    assert_eq!([channel(zero()), channel(zero()), channel(one())].concat(), green);
    let blue = Driver::new(1).frame(Rgb::new(0, 0, 255));
    assert_eq!([channel(one()), channel(zero()), channel(zero())].concat(), blue);
}

#[test]
fn frame_sends_the_highest_bit_first() {
    let frame = Driver::new(1).frame(Rgb::new(0b1000_0001, 0, 0));
    let mut red = Vec::new();
    red.extend(one());
    for _ in 0..6 {
        red.extend(zero());
    }
    red.extend(one());
    assert_eq!([channel(zero()), red, channel(zero())].concat(), frame);
}

#[test]
fn frame_repeats_the_led() {
    let one_led = Driver::new(1).frame(Rgb::new(10, 20, 30));
    let strip = Driver::new(5).frame(Rgb::new(10, 20, 30));
    assert_eq!(240, strip.len());
    for led in strip.chunks(48) {
        assert_eq!(one_led, led);
    }
    assert!(Driver::new(0).frame(Rgb::new(10, 20, 30)).is_empty());
}

#[test]
fn repeat_pixel_repeats_any_bytes() {
    assert_eq!(vec![1, 2, 1, 2, 1, 2], repeat_pixel(&vec![1, 2], 3));
    assert_eq!(Vec::<u8>::new(), repeat_pixel(&vec![1, 2], 0));
    assert_eq!(Vec::<u8>::new(), repeat_pixel(&vec![], 7));
}

fn file(path: &str) -> Result<DevEntry, String> {
    Ok(DevEntry { path: path.to_string(), is_dir: false })
}

fn dir(path: &str) -> Result<DevEntry, String> {
    Ok(DevEntry { path: path.to_string(), is_dir: true })
}

#[test]
fn spidev_is_the_first_file_that_names_spi() {
    let entries = vec![file("/dev/null"), file("/dev/spidev0.1"), file("/dev/spidev0.0")];
    assert_eq!(Ok(Spidev("/dev/spidev0.1".to_string())), Spidev::new(&entries));
}

#[test]
fn spidev_is_never_a_directory() {
    let entries = vec![dir("/dev/spi"), file("/dev/tty"), file("/dev/myspi")];
    assert_eq!(Ok(Spidev("/dev/myspi".to_string())), Spidev::new(&entries));
}

#[test]
fn no_spidev_among_the_entries() {
    assert_eq!(Err(Error::NoSpiDev), Spidev::new(&vec![]));
    assert_eq!(Err(Error::NoSpiDev), Spidev::new(&vec![file("/dev/null"), dir("/dev/spidev")]));
    assert_eq!(Err(Error::NoSpiDev), Spidev::new(&vec![file("/dev/SPI"), file("/dev/sp-i")]));
}

#[test]
fn an_unreadable_entry_ends_the_search() {
    let entries = vec![file("/dev/null"), Err("denied".to_string()), file("/dev/spidev0.0")];
    assert_eq!(Err(Error::Io("denied".to_string())), Spidev::new(&entries));
    let entries = vec![file("/dev/spidev0.0"), Err("denied".to_string())];
    assert_eq!(Ok(Spidev("/dev/spidev0.0".to_string())), Spidev::new(&entries));
}

#[test]
fn path_names_spi_anywhere() {
    assert!(path_names_spi("spi"));
    assert!(path_names_spi("/dev/spidev0.0"));
    assert!(path_names_spi("xxspi"));
    assert!(path_names_spi("sspi"));
    assert!(path_names_spi("\u{e9}spi\u{e9}"));
    assert!(!path_names_spi(""));
    assert!(!path_names_spi("sp"));
    assert!(!path_names_spi("s-p-i"));
    assert!(!path_names_spi("ips"));
    assert!(!path_names_spi("Spi"));
}

#[test]
fn spidev_by_name_must_exist() {
    assert_eq!(Ok(Spidev("/dev/custom".to_string())), Spidev::new_with_name("/dev/custom", true));
    assert_eq!(Err(Error::NoSpiDev), Spidev::new_with_name("/dev/custom", false));
}

#[test]
fn driver_errors_report_their_text() {
    assert_eq!("Error in underlying driver: boom", Error::Ws28xx("boom".to_string()).message());
    assert_eq!("No SPI device could be found", Error::NoSpiDev.message());
    assert_eq!("IO: denied", Error::Io("denied".to_string()).message());
}

#[test]
fn cli_color_defaults_each_channel_to_zero() {
    let mut cli = Cli { dev: None, length: 3, red: None, green: None, blue: None };
    assert_eq!(Rgb((0, 0, 0)), cli.color());
    cli.green = Some(7);
    assert_eq!(Rgb((0, 7, 0)), cli.color());
    cli.red = Some(255);
    cli.blue = Some(1);
    assert_eq!(Rgb((255, 7, 1)), cli.color());
}

#[test]
fn default_config_is_blank() {
    let config = Config::default();
    assert_eq!(
        Config {
            mysql: Mysql {
                host: String::new(),
                username: String::new(),
                password: String::new(),
                database: String::new(),
            },
            oauth2: Oauth2 {
                client_id: String::new(),
                client_secret: String::new(),
                redirect_uri: String::new(),
            },
            login: Login { username: String::new(), password: String::new() },
            led: Led { length: 0 },
        },
        config
    );
}

#[test]
fn service_config_takes_each_field_from_its_section() {
    let config = Config {
        mysql: Mysql {
            host: "h".to_string(),
            username: "mu".to_string(),
            password: "mp".to_string(),
            database: "d".to_string(),
        },
        oauth2: Oauth2 {
            client_id: "ci".to_string(),
            client_secret: "cs".to_string(),
            redirect_uri: "uri".to_string(),
        },
        login: Login { username: "lu".to_string(), password: "lp".to_string() },
        led: Led { length: 12 },
    };
    assert_eq!(
        deskled::data::Config {
            oauth2_client_id: "ci".to_string(),
            oauth2_client_secret: "cs".to_string(),
            login_username: "lu".to_string(),
            login_password: "lp".to_string(),
            led_length: 12,
            mysql_host: "h".to_string(),
            mysql_password: "mp".to_string(),
            mysql_username: "mu".to_string(),
            mysql_database: "d".to_string(),
        },
        config.service()
    );
}
