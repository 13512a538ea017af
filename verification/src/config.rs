//! The node's settings, each taken from the environment or from its default.
use vstd::prelude::*;

use crate::text::{parse_u64, parsed_u64};

verus! {

/// The settings a node runs with.
pub struct Config {
    pub plc_url: String,
    pub plc_username: String,
    pub plc_password: String,
    pub program_zip_path: String,
    pub node_id: String,
    /// Seconds to wait for the runtime to come up before talking to it.
    pub plc_startup_delay_secs: u64,
}

/// Why the settings could not be formed.
#[derive(Debug, Clone, Copy, PartialEq, Eq)]
pub enum ConfigError {
    /// No password was given; it has no default.
    MissingPassword,
    /// The startup delay is not a valid unsigned number of seconds.
    InvalidStartupDelay,
}

pub open spec fn default_plc_url() -> Seq<char> {
    "https://localhost:8443/api"@
}

pub open spec fn default_plc_username() -> Seq<char> {
    "admin"@
}

pub open spec fn default_program_zip_path() -> Seq<char> {
    "/app/program.zip"@
}

pub open spec fn default_node_id() -> Seq<char> {
    "plc-node-1"@
}

pub open spec fn default_startup_delay() -> Seq<char> {
    "10"@
}

/// A setting's text: the given value, or the default where none was given.
pub open spec fn setting_or(given: Option<String>, default: Seq<char>) -> Seq<char> {
    match given {
        Some(s) => s@,
        None => default,
    }
}

fn given_or(given: Option<String>, default: &str) -> (r: String)
    ensures
        r@ == setting_or(given, default@),
{
    match given {
        Some(s) => s,
        None => String::from_str(default),
    }
}

impl Config {
    /// Forms the settings from what the environment gave for each of them
    /// (`None` where a setting is absent): every absent setting takes its
    /// default, except the password, which must be given. The startup delay,
    /// given or default, must read as an unsigned number.
    pub fn from_settings(
        plc_url: Option<String>,
        plc_username: Option<String>,
        plc_password: Option<String>,
        program_zip: Option<String>,
        node_id: Option<String>,
        startup_delay_secs: Option<String>,
    ) -> (r: Result<Config, ConfigError>)
        ensures
            (r is Err && r->Err_0 == ConfigError::MissingPassword) <==> plc_password is None,
            (r is Err && r->Err_0 == ConfigError::InvalidStartupDelay) <==> (plc_password is Some
                && parsed_u64(setting_or(startup_delay_secs, default_startup_delay())) is None),
            r matches Ok(c) ==> {
                &&& c.plc_url@ == setting_or(plc_url, default_plc_url())
                &&& c.plc_username@ == setting_or(plc_username, default_plc_username())
                &&& c.plc_password@ == plc_password->0@
                &&& c.program_zip_path@ == setting_or(program_zip, default_program_zip_path())
                &&& c.node_id@ == setting_or(node_id, default_node_id())
                &&& Some(c.plc_startup_delay_secs) == parsed_u64(
                    setting_or(startup_delay_secs, default_startup_delay()),
                )
            },
            r matches Ok(c) ==> {
                &&& c.plc_url@ == (if plc_url is Some {
                    plc_url->0@
                } else {
                    "https://localhost:8443/api"@
                })
                &&& c.plc_username@ == (if plc_username is Some {
                    plc_username->0@
                } else {
                    "admin"@
                })
                &&& c.program_zip_path@ == (if program_zip is Some {
                    program_zip->0@
                } else {
                    "/app/program.zip"@
                })
                &&& c.node_id@ == (if node_id is Some {
                    node_id->0@
                } else {
                    "plc-node-1"@
                })
                &&& startup_delay_secs is Some ==> Some(c.plc_startup_delay_secs) == parsed_u64(
                    startup_delay_secs->0@,
                )
            },
            (plc_password is Some && startup_delay_secs is Some) ==> (r is Ok <==> parsed_u64(
                startup_delay_secs->0@,
            ) is Some),
            (plc_password is Some && startup_delay_secs is None) ==> (r matches Ok(c)
                && c.plc_startup_delay_secs == 10),
    {
        proof {
            lemma_default_startup_delay();
        }
        let plc_url = given_or(plc_url, "https://localhost:8443/api");
        let plc_username = given_or(plc_username, "admin");
        let plc_password = match plc_password {
            Some(p) => p,
            None => {
                return Err(ConfigError::MissingPassword);
            },
        };
        let program_zip_path = given_or(program_zip, "/app/program.zip");
        let node_id = given_or(node_id, "plc-node-1");
        let delay_text = given_or(startup_delay_secs, "10");
        let plc_startup_delay_secs = match parse_u64(delay_text.as_str()) {
            Some(v) => v,
            None => {
                return Err(ConfigError::InvalidStartupDelay);
            },
        };
        Ok(
            Config {
                plc_url,
                plc_username,
                plc_password,
                program_zip_path,
                node_id,
                plc_startup_delay_secs,
            },
        )
    }
}

/// Without a delay setting the node waits ten seconds.
proof fn lemma_default_startup_delay()
    ensures
        parsed_u64(default_startup_delay()) == Some(10u64),
{
    reveal_strlit("10");
    let d = default_startup_delay();
    assert(d.len() == 2);
    assert(d[0] == '1' && d[1] == '0');
    assert(crate::text::unsigned_digits(d) == d);
    let p = d.drop_last();
    assert(p.len() == 1 && p.last() == '1');
    assert(p.drop_last() =~= Seq::<char>::empty());
    assert(crate::text::decimal_value(p.drop_last()) == 0);
    assert(crate::text::decimal_value(p) == 1);
    assert(crate::text::decimal_value(d) == 10);
}

} // verus!
