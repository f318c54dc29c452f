//! What every request handler is given: the configuration of the service.

use vstd::prelude::*;

verus! {

/// The configuration of the service.
#[derive(Debug, Clone, PartialEq, Eq)]
pub struct Config {
    pub oauth2_client_id: String,
    pub oauth2_client_secret: String,
    pub login_username: String,
    pub login_password: String,
    pub led_length: u16,
    pub mysql_host: String,
    pub mysql_password: String,
    pub mysql_username: String,
    pub mysql_database: String,
}

/// The configuration of the service, with its texts as sequences of
/// characters.
pub struct ConfigView {
    pub oauth2_client_id: Seq<char>,
    pub oauth2_client_secret: Seq<char>,
    pub login_username: Seq<char>,
    pub login_password: Seq<char>,
    pub led_length: u16,
    pub mysql_host: Seq<char>,
    pub mysql_password: Seq<char>,
    pub mysql_username: Seq<char>,
    pub mysql_database: Seq<char>,
}

impl View for Config {
    type V = ConfigView;

    open spec fn view(&self) -> ConfigView {
        ConfigView {
            oauth2_client_id: self.oauth2_client_id@,
            oauth2_client_secret: self.oauth2_client_secret@,
            login_username: self.login_username@,
            login_password: self.login_password@,
            led_length: self.led_length,
            mysql_host: self.mysql_host@,
            mysql_password: self.mysql_password@,
            mysql_username: self.mysql_username@,
            mysql_database: self.mysql_database@,
        }
    }
}

} // verus!
