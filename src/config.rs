//! Startup configuration: database and listener settings taken from the
//! process environment, given here as a list of name/value pairs.
use vstd::prelude::*;

verus! {

/// Why the configuration could not be read.
#[derive(Debug, PartialEq, Eq)]
pub enum ConfigError {
    /// The `.env` file could not be loaded.
    DotenvError,
    /// The named variable is not set.
    MissingEnvVar(String),
    /// A port is not a decimal number from 0 to 65535.
    InvalidPort,
}

/// Database and listener settings.
#[derive(Debug)]
pub struct Config {
    pub db_host: String,
    pub db_port: u16,
    pub db_name: String,
    pub db_user: String,
    pub db_password: String,
    pub srv_host: String,
    pub srv_port: u16,
}

/// The value of the first pair named `key`, if any.
pub open spec fn lookup_var(vars: Seq<(String, String)>, key: Seq<char>) -> Option<Seq<char>>
    decreases vars.len(),
{
    if vars.len() == 0 {
        None
    } else if vars[0].0@ == key {
        Some(vars[0].1@)
    } else {
        lookup_var(vars.drop_first(), key)
    }
}

/// Finds the value of `key` in `vars`: the first pair with that name wins.
pub fn env_value(vars: &Vec<(String, String)>, key: &str) -> (r: Option<String>)
    ensures
        match r {
            Some(v) => lookup_var(vars@, key@) == Some(v@),
            None => lookup_var(vars@, key@) is None,
        },
{
    let wanted = String::from_str(key);
    let mut i: usize = 0;
    assert(vars@.subrange(0, vars@.len() as int) =~= vars@);
    while i < vars.len()
        invariant
            i <= vars@.len(),
            wanted@ == key@,
            lookup_var(vars@, key@) == lookup_var(vars@.subrange(i as int, vars@.len() as int), key@),
        decreases vars@.len() - i,
    {
        let ghost rest = vars@.subrange(i as int, vars@.len() as int);
        assert(rest.drop_first() =~= vars@.subrange(i + 1, vars@.len() as int));
        assert(rest[0] == vars@[i as int]);
        if vars[i].0 == wanted {
            return Some(vars[i].1.clone());
        }
        i += 1;
    }
    None
}

/// The decimal value of a digit character.
pub open spec fn digit_value(c: char) -> nat {
    (c as nat - '0' as nat) as nat
}

pub open spec fn all_digits(s: Seq<char>) -> bool {
    forall|i: int| 0 <= i < s.len() ==> '0' <= #[trigger] s[i] <= '9'
}

/// The number that a string of decimal digits writes.
pub open spec fn digits_value(s: Seq<char>) -> nat
    decreases s.len(),
{
    if s.len() == 0 {
        0
    } else {
        digits_value(s.drop_last()) * 10 + digit_value(s.last())
    }
}

/// The port that `s` writes: an optional `+` and one or more decimal digits
/// whose value fits in 16 bits, the form that `u16`'s `from_str` accepts.
pub open spec fn port_of(s: Seq<char>) -> Option<u16> {
    let body = if s.len() > 0 && s[0] == '+' {
        s.drop_first()
    } else {
        s
    };
    if body.len() > 0 && all_digits(body) && digits_value(body) <= 65535 {
        Some(digits_value(body) as u16)
    } else {
        None
    }
}

proof fn lemma_prefix_value_bounded(s: Seq<char>, i: int)
    requires
        all_digits(s),
        0 <= i <= s.len(),
    ensures
        digits_value(s.subrange(0, i)) <= digits_value(s),
    decreases s.len() - i,
{
    if i < s.len() {
        lemma_prefix_value_bounded(s, i + 1);
        let p = s.subrange(0, i + 1);
        assert(p.drop_last() =~= s.subrange(0, i));
    } else {
        assert(s.subrange(0, i) =~= s);
    }
}

/// Reads a port number as `u16`'s `from_str` does.
pub fn parse_port(s: &str) -> (r: Result<u16, ConfigError>)
    ensures
        match port_of(s@) {
            Some(p) => r == Ok::<u16, ConfigError>(p),
            None => r == Err::<u16, ConfigError>(ConfigError::InvalidPort),
        },
{
    let n = s.unicode_len();
    let mut start: usize = 0;
    if n > 0 && s.get_char(0) == '+' {
        start = 1;
    }
    let ghost body = if s@.len() > 0 && s@[0] == '+' {
        s@.drop_first()
    } else {
        s@
    };
    assert(body =~= s@.subrange(start as int, n as int));
    if start >= n {
        return Err(ConfigError::InvalidPort);
    }
    let mut value: u32 = 0;
    let mut i: usize = start;
    while i < n
        invariant
            start <= i <= n,
            n == s@.len(),
            body =~= s@.subrange(start as int, n as int),
            body == (if s@.len() > 0 && s@[0] == '+' {
                s@.drop_first()
            } else {
                s@
            }),
            value <= 65535,
            all_digits(body.subrange(0, i - start)),
            value as nat == digits_value(body.subrange(0, i - start)),
        decreases n - i,
    {
        let c = s.get_char(i);
        if c < '0' || c > '9' {
            assert(body[i - start] == c);
            assert(!all_digits(body));
            assert(port_of(s@) is None);
            return Err(ConfigError::InvalidPort);
        }
        let ghost prev = body.subrange(0, i - start);
        let next = value * 10 + (c as u32 - '0' as u32);
        proof {
            let cur = body.subrange(0, i + 1 - start);
            assert(cur.drop_last() =~= prev);
            assert(cur.last() == c);
            assert(digits_value(cur) == digits_value(prev) * 10 + digit_value(c));
            assert(next as nat == digits_value(cur));
            assert(all_digits(cur));
        }
        if next > 65535 {
            proof {
                let cur = body.subrange(0, i + 1 - start);
                if all_digits(body) {
                    lemma_prefix_value_bounded(body, i + 1 - start);
                }
                assert(port_of(s@) is None);
            }
            return Err(ConfigError::InvalidPort);
        }
        value = next;
        i += 1;
    }
    assert(body.subrange(0, n - start) =~= body);
    Ok(value as u16)
}

/// The decimal digit character of `d`.
pub open spec fn digit_char(d: nat) -> char {
    if d == 0 { '0' }
    else if d == 1 { '1' }
    else if d == 2 { '2' }
    else if d == 3 { '3' }
    else if d == 4 { '4' }
    else if d == 5 { '5' }
    else if d == 6 { '6' }
    else if d == 7 { '7' }
    else if d == 8 { '8' }
    else { '9' }
}

/// The decimal writing of `n`, without leading zeros.
pub open spec fn decimal(n: nat) -> Seq<char>
    decreases n,
{
    if n < 10 {
        seq![digit_char(n)]
    } else {
        decimal(n / 10).push(digit_char(n % 10))
    }
}

fn digit_text(d: u16) -> (r: &'static str)
    requires
        d < 10,
    ensures
        r@ == seq![digit_char(d as nat)],
{
    proof {
        reveal_strlit("0");
        reveal_strlit("1");
        reveal_strlit("2");
        reveal_strlit("3");
        reveal_strlit("4");
        reveal_strlit("5");
        reveal_strlit("6");
        reveal_strlit("7");
        reveal_strlit("8");
        reveal_strlit("9");
    }
    match d {
        0 => "0",
        1 => "1",
        2 => "2",
        3 => "3",
        4 => "4",
        5 => "5",
        6 => "6",
        7 => "7",
        8 => "8",
        _ => "9",
    }
}

/// Writes `n` in decimal.
pub fn write_decimal(n: u16) -> (r: String)
    ensures
        r@ == decimal(n as nat),
    decreases n,
{
    if n < 10 {
        String::from_str(digit_text(n))
    } else {
        let mut r = write_decimal(n / 10);
        r.append(digit_text(n % 10));
        r
    }
}

/// The variables that the configuration reads, in the order it reads them.
pub open spec fn config_key(i: int) -> Seq<char> {
    if i == 0 {
        "DB_HOST"@
    } else if i == 1 {
        "DB_PORT"@
    } else if i == 2 {
        "DB_NAME"@
    } else if i == 3 {
        "DB_USER"@
    } else if i == 4 {
        "DB_PASSWORD"@
    } else if i == 5 {
        "SRV_HOST"@
    } else {
        "SRV_PORT"@
    }
}

/// The variables that hold a port.
pub open spec fn is_port_key(i: int) -> bool {
    i == 1 || i == 6
}

/// The `i`-th read succeeds: the variable is set and, for a port, valid.
pub open spec fn read_ok(vars: Seq<(String, String)>, i: int) -> bool {
    match lookup_var(vars, config_key(i)) {
        Some(v) => !is_port_key(i) || port_of(v) is Some,
        None => false,
    }
}

/// The index of the first read that fails, or 7 when all succeed.
pub open spec fn first_failure(vars: Seq<(String, String)>) -> int {
    if !read_ok(vars, 0) {
        0
    } else if !read_ok(vars, 1) {
        1
    } else if !read_ok(vars, 2) {
        2
    } else if !read_ok(vars, 3) {
        3
    } else if !read_ok(vars, 4) {
        4
    } else if !read_ok(vars, 5) {
        5
    } else if !read_ok(vars, 6) {
        6
    } else {
        7
    }
}

/// The text value of the `i`-th variable.
pub open spec fn text_var(vars: Seq<(String, String)>, i: int) -> Seq<char> {
    lookup_var(vars, config_key(i))->Some_0
}

/// The port value of the `i`-th variable.
pub open spec fn port_var(vars: Seq<(String, String)>, i: int) -> u16 {
    port_of(lookup_var(vars, config_key(i))->Some_0)->Some_0
}

/// The error for a failed read of the `i`-th variable.
pub open spec fn read_error_is(vars: Seq<(String, String)>, i: int, e: ConfigError) -> bool {
    match e {
        ConfigError::MissingEnvVar(k) => lookup_var(vars, config_key(i)) is None && k@ == config_key(i),
        ConfigError::InvalidPort => lookup_var(vars, config_key(i)) is Some,
        ConfigError::DotenvError => false,
    }
}

pub(crate) fn read_text(vars: &Vec<(String, String)>, key: &str) -> (r: Result<String, ConfigError>)
    ensures
        match r {
            Ok(v) => lookup_var(vars@, key@) == Some(v@),
            Err(ConfigError::MissingEnvVar(k)) => lookup_var(vars@, key@) is None && k@ == key@,
            Err(_) => false,
        },
{
    match env_value(vars, key) {
        Some(v) => Ok(v),
        None => Err(ConfigError::MissingEnvVar(String::from_str(key))),
    }
}

fn read_port(vars: &Vec<(String, String)>, key: &str) -> (r: Result<u16, ConfigError>)
    ensures
        match r {
            Ok(p) => lookup_var(vars@, key@) is Some && port_of(lookup_var(vars@, key@)->Some_0)
                == Some(p),
            Err(ConfigError::MissingEnvVar(k)) => lookup_var(vars@, key@) is None && k@ == key@,
            Err(ConfigError::InvalidPort) => lookup_var(vars@, key@) is Some && port_of(
                lookup_var(vars@, key@)->Some_0,
            ) is None,
            Err(ConfigError::DotenvError) => false,
        },
{
    let text = read_text(vars, key)?;
    parse_port(text.as_str())
}

impl Config {
    /// Reads the settings from `vars`, the process environment after the
    /// `.env` file was loaded. The variables are read in a fixed order, and
    /// the first that is missing, or that is a port and not a valid one,
    /// gives the error.
    pub fn from_vars(vars: &Vec<(String, String)>) -> (r: Result<Config, ConfigError>)
        ensures
            (r is Ok) <==> first_failure(vars@) == 7,
            match r {
                Ok(c) => {
                    &&& c.db_host@ == text_var(vars@, 0)
                    &&& c.db_port == port_var(vars@, 1)
                    &&& c.db_name@ == text_var(vars@, 2)
                    &&& c.db_user@ == text_var(vars@, 3)
                    &&& c.db_password@ == text_var(vars@, 4)
                    &&& c.srv_host@ == text_var(vars@, 5)
                    &&& c.srv_port == port_var(vars@, 6)
                },
                Err(e) => read_error_is(vars@, first_failure(vars@), e),
            },
    {
        let db_host = read_text(vars, "DB_HOST")?;
        let db_port = read_port(vars, "DB_PORT")?;
        let db_name = read_text(vars, "DB_NAME")?;
        let db_user = read_text(vars, "DB_USER")?;
        let db_password = read_text(vars, "DB_PASSWORD")?;
        let srv_host = read_text(vars, "SRV_HOST")?;
        let srv_port = read_port(vars, "SRV_PORT")?;
        Ok(Config { db_host, db_port, db_name, db_user, db_password, srv_host, srv_port })
    }

    /// The database connection address.
    pub open spec fn db_url_of(&self) -> Seq<char> {
        "postgres://"@ + self.db_user@ + ":"@ + self.db_password@ + "@"@ + self.db_host@ + ":"@
            + decimal(self.db_port as nat) + "/"@ + self.db_name@
    }

    /// The address the server listens on.
    pub open spec fn srv_addr_of(&self) -> Seq<char> {
        self.srv_host@ + ":"@ + decimal(self.srv_port as nat)
    }

    pub fn db_url(&self) -> (r: String)
        ensures
            r@ == self.db_url_of(),
    {
        let mut r = String::from_str("postgres://");
        r.append(self.db_user.as_str());
        r.append(":");
        r.append(self.db_password.as_str());
        r.append("@");
        r.append(self.db_host.as_str());
        r.append(":");
        let port = write_decimal(self.db_port);
        r.append(port.as_str());
        r.append("/");
        r.append(self.db_name.as_str());
        r
    }

    pub fn srv_addr(&self) -> (r: String)
        ensures
            r@ == self.srv_addr_of(),
    {
        let mut r = self.srv_host.clone();
        r.append(":");
        let port = write_decimal(self.srv_port);
        r.append(port.as_str());
        r
    }
}

impl ConfigError {
    /// The message shown for this error.
    pub fn message(&self) -> (r: String)
        ensures
            r@ == match self {
                ConfigError::DotenvError => "Failed to laod .env file"@,
                ConfigError::MissingEnvVar(k) => "Environement variable `"@ + k@ + "` is missing"@,
                ConfigError::InvalidPort => "Invalid port number"@,
            },
    {
        match self {
            ConfigError::DotenvError => String::from_str("Failed to laod .env file"),
            ConfigError::MissingEnvVar(k) => {
                let mut r = String::from_str("Environement variable `");
                r.append(k.as_str());
                r.append("` is missing");
                r
            },
            ConfigError::InvalidPort => String::from_str("Invalid port number"),
        }
    }
}

} // verus!
