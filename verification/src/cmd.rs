//! The run command's connection settings: where the ledger's database is and
//! who connects to it.

use vstd::prelude::*;
use vstd::string::{StrSliceExecFns, StringExecFns};

verus! {

/// Connection settings for one invocation against a database.
#[derive(Clone, Debug, PartialEq)]
pub struct RunCmd {
    /// Database server host.
    pub host: String,
    /// Database server user.
    pub user: String,
    /// Database server password.
    pub password: String,
    /// Database to run against.
    pub database: String,
}

/// The connection string the settings denote.
pub open spec fn conn_str_of(
    host: Seq<char>,
    user: Seq<char>,
    password: Seq<char>,
    database: Seq<char>,
) -> Seq<char> {
    "postgresql://"@ + user + ":"@ + password + "@"@ + host + "/"@ + database
}

impl RunCmd {
    /// A command with the given connection settings.
    pub fn new(host: String, user: String, password: String, database: String) -> (c: RunCmd)
        ensures
            c.host == host,
            c.user == user,
            c.password == password,
            c.database == database,
    {
        RunCmd { host, user, password, database }
    }

    /// Returns the settings with each field replaced by the matching
    /// override where one is given: how configuration-file values and then
    /// command-line options layer over what is already set.
    pub fn apply_overrides(
        self,
        host: Option<String>,
        user: Option<String>,
        password: Option<String>,
        database: Option<String>,
    ) -> (c: RunCmd)
        ensures
            c.host == (match host {
                Some(v) => v,
                None => self.host,
            }),
            c.user == (match user {
                Some(v) => v,
                None => self.user,
            }),
            c.password == (match password {
                Some(v) => v,
                None => self.password,
            }),
            c.database == (match database {
                Some(v) => v,
                None => self.database,
            }),
    {
        let mut c = self;
        match host {
            Some(v) => {
                c.host = v;
            },
            None => {},
        }
        match user {
            Some(v) => {
                c.user = v;
            },
            None => {},
        }
        match password {
            Some(v) => {
                c.password = v;
            },
            None => {},
        }
        match database {
            Some(v) => {
                c.database = v;
            },
            None => {},
        }
        c
    }

    /// The connection string these settings denote, for the driver to dial.
    pub fn make_db_conn_str(&self) -> (s: String)
        ensures
            s@ == conn_str_of(self.host@, self.user@, self.password@, self.database@),
    {
        let mut s = String::from_str("postgresql://");
        s.append(self.user.as_str());
        s.append(":");
        s.append(self.password.as_str());
        s.append("@");
        s.append(self.host.as_str());
        s.append("/");
        s.append(self.database.as_str());
        s
    }
}

} // verus!
