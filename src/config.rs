use vstd::prelude::*;

verus! {

/// Environment variable that holds the database URL.
pub const URL_VAR: &'static str = "CLICKHOUSE_URL";

/// Environment variable that holds the database user.
pub const USER_VAR: &'static str = "CLICKHOUSE_USER";

/// Environment variable that holds the database password.
pub const PASSWORD_VAR: &'static str = "CLICKHOUSE_PASSWORD";

/// Environment variable that holds the database name.
pub const DATABASE_VAR: &'static str = "CLICKHOUSE_DB";

/// The value of the first entry named `key` in a list of environment
/// variables, if any.
pub open spec fn lookup(vars: Seq<(String, String)>, key: Seq<char>) -> Option<Seq<char>>
    decreases vars.len(),
{
    if vars.len() == 0 {
        None
    } else if vars[0].0@ == key {
        Some(vars[0].1@)
    } else {
        lookup(vars.drop_first(), key)
    }
}

/// The first of the four connection variables that `vars` lacks, in the
/// order URL, user, password, database.
pub open spec fn first_missing(vars: Seq<(String, String)>) -> Option<Seq<char>> {
    if lookup(vars, URL_VAR@) is None {
        Some(URL_VAR@)
    } else if lookup(vars, USER_VAR@) is None {
        Some(USER_VAR@)
    } else if lookup(vars, PASSWORD_VAR@) is None {
        Some(PASSWORD_VAR@)
    } else if lookup(vars, DATABASE_VAR@) is None {
        Some(DATABASE_VAR@)
    } else {
        None
    }
}

/// A connection variable that is not set.
#[derive(Debug, Clone, PartialEq, Eq)]
pub struct ConfigError {
    pub key: String,
}

impl ConfigError {
    /// The operator-facing description of the error.
    pub fn message(&self) -> (r: String)
        ensures
            r@ == "Env variable with key `"@ + self.key@ + "` not found. "@,
    {
        let mut text = String::from_str("Env variable with key `");
        text.append(self.key.as_str());
        text.append("` not found. ");
        text
    }
}

/// The value of `key` in `vars`, if set.
fn find_var(vars: &[(String, String)], key: &str) -> (r: Option<String>)
    ensures
        r matches Some(v) ==> lookup(vars@, key@) == Some(v@),
        r is None ==> lookup(vars@, key@) is None,
{
    let wanted = key.to_string();
    let mut i: usize = 0;
    proof {
        assert(vars@.skip(0) == vars@);
    }
    while i < vars.len()
        invariant
            i <= vars@.len(),
            wanted@ == key@,
            lookup(vars@, key@) == lookup(vars@.skip(i as int), key@),
        decreases vars@.len() - i,
    {
        proof {
            assert(vars@.skip(i as int)[0] == vars@[i as int]);
            assert(vars@.skip(i as int).drop_first() == vars@.skip(i + 1));
        }
        if vars[i].0 == wanted {
            return Some(vars[i].1.clone());
        }
        i = i + 1;
    }
    None
}

/// Where and as whom to reach the database.
#[derive(Debug, Clone, PartialEq, Eq)]
pub struct ClickhouseClientConfig {
    pub host: String,
    pub user: String,
    pub password: String,
    pub database: String,
}

impl ClickhouseClientConfig {
    /// Reads the connection settings from the process environment, given as
    /// its list of (name, value) pairs; fails on the first variable missing.
    pub fn from_env(vars: &[(String, String)]) -> (r: Result<ClickhouseClientConfig, ConfigError>)
        ensures
            r is Ok <==> first_missing(vars@) is None,
            r matches Err(e) ==> first_missing(vars@) == Some(e.key@),
            r matches Ok(c) ==> {
                &&& lookup(vars@, URL_VAR@) == Some(c.host@)
                &&& lookup(vars@, USER_VAR@) == Some(c.user@)
                &&& lookup(vars@, PASSWORD_VAR@) == Some(c.password@)
                &&& lookup(vars@, DATABASE_VAR@) == Some(c.database@)
            },
    {
        let host = match find_var(vars, URL_VAR) {
            Some(v) => v,
            None => return Err(ConfigError { key: URL_VAR.to_string() }),
        };
        let user = match find_var(vars, USER_VAR) {
            Some(v) => v,
            None => return Err(ConfigError { key: USER_VAR.to_string() }),
        };
        let password = match find_var(vars, PASSWORD_VAR) {
            Some(v) => v,
            None => return Err(ConfigError { key: PASSWORD_VAR.to_string() }),
        };
        let database = match find_var(vars, DATABASE_VAR) {
            Some(v) => v,
            None => return Err(ConfigError { key: DATABASE_VAR.to_string() }),
        };
        Ok(ClickhouseClientConfig { host, user, password, database })
    }
}

} // verus!
