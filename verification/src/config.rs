//! The configuration file of the program, section by section, and what the
//! service takes from it.

use vstd::prelude::*;
use crate::data::ConfigView;

verus! {

/// The strip of LEDs.
#[derive(Debug, Clone, PartialEq, Eq)]
pub struct Led {
    pub length: u16,
}

/// How to reach the relational store.
#[derive(Debug, Clone, PartialEq, Eq)]
pub struct Mysql {
    pub host: String,
    pub username: String,
    pub password: String,
    pub database: String,
}

/// The client that may exchange grants.
#[derive(Debug, Clone, PartialEq, Eq)]
pub struct Oauth2 {
    pub client_id: String,
    pub client_secret: String,
    pub redirect_uri: String,
}

/// The user who may log in.
#[derive(Debug, Clone, PartialEq, Eq)]
pub struct Login {
    pub username: String,
    pub password: String,
}

/// The configuration file.
#[derive(Debug, Clone, PartialEq, Eq)]
pub struct Config {
    pub mysql: Mysql,
    pub oauth2: Oauth2,
    pub login: Login,
    pub led: Led,
}

/// What the service takes from the configuration file: everything but the
/// client's redirect address.
pub open spec fn service_of(config: Config) -> ConfigView {
    ConfigView {
        oauth2_client_id: config.oauth2.client_id@,
        oauth2_client_secret: config.oauth2.client_secret@,
        login_username: config.login.username@,
        login_password: config.login.password@,
        led_length: config.led.length,
        mysql_host: config.mysql.host@,
        mysql_password: config.mysql.password@,
        mysql_username: config.mysql.username@,
        mysql_database: config.mysql.database@,
    }
}

/// Whether a configuration file is the one that is written where there is
/// none: every text empty, and a strip without LEDs.
pub open spec fn is_blank(config: Config) -> bool {
    &&& config.mysql.host@.len() == 0
    &&& config.mysql.username@.len() == 0
    &&& config.mysql.password@.len() == 0
    &&& config.mysql.database@.len() == 0
    &&& config.oauth2.client_id@.len() == 0
    &&& config.oauth2.client_secret@.len() == 0
    &&& config.oauth2.redirect_uri@.len() == 0
    &&& config.login.username@.len() == 0
    &&& config.login.password@.len() == 0
    &&& config.led.length == 0
}

impl Default for Config {
    fn default() -> (config: Self)
        ensures
            is_blank(config),
    {
        Config {
            mysql: Mysql {
                host: String::new(),
                username: String::new(),
                password: String::new(),
                database: String::new(),
            },
            oauth2: Oauth2 {
                client_id: String::new(),
                client_secret: String::new(),
                redirect_uri: String::new(),
            },
            login: Login { username: String::new(), password: String::new() },
            led: Led { length: 0 },
        }
    }
}

impl Config {
    /// The configuration of the service.
    pub fn service(&self) -> (config: crate::data::Config)
        ensures
            config@ == service_of(*self),
    {
        crate::data::Config {
            oauth2_client_id: self.oauth2.client_id.clone(),
            oauth2_client_secret: self.oauth2.client_secret.clone(),
            login_username: self.login.username.clone(),
            login_password: self.login.password.clone(),
            led_length: self.led.length,
            mysql_host: self.mysql.host.clone(),
            mysql_password: self.mysql.password.clone(),
            mysql_username: self.mysql.username.clone(),
            mysql_database: self.mysql.database.clone(),
        }
    }
}

} // verus!
