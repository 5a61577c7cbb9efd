use vstd::prelude::*;

use crate::driver::Login;
use vstd::string::StrSliceExecFns;
use vstd::string::StringExecFns;

verus! {

// ---------------------------------------------------------------------------
// Configuration of one authentication attempt: the realm key, the API
// address, the authorized identities and four feature flags, read from a
// structured file under the account's home directory and from the module's
// argument vector.  The file and argument parsers are outside collaborators;
// what this module fixes is every decision taken on what they return.
// ---------------------------------------------------------------------------

/// What the configuration logic reads of one parsed file value: a string's
/// contents, the elements of an array one level deep, or only the type of
/// anything else.
#[derive(Debug, PartialEq, Eq)]
pub enum TomlValue {
    Str(String),
    Int,
    Float,
    Bool,
    Datetime,
    Arr(Vec<TomlItem>),
    Table,
}

/// An element of a configuration array: a string, or a value of any other
/// type (the logic never reads inside those).
#[derive(Debug, PartialEq, Eq)]
pub enum TomlItem {
    Str(String),
    Other,
}

impl TomlItem {
    /// A copy equal to this item.
    pub fn duplicate(&self) -> (r: TomlItem)
        ensures
            r == *self,
    {
        match self {
            TomlItem::Str(s) => TomlItem::Str(s.clone()),
            TomlItem::Other => TomlItem::Other,
        }
    }
}

/// The type name the file parser gives each kind of value.
pub open spec fn spec_type_str(v: TomlValue) -> Seq<char> {
    match v {
        TomlValue::Str(_) => "string"@,
        TomlValue::Int => "integer"@,
        TomlValue::Float => "float"@,
        TomlValue::Bool => "boolean"@,
        TomlValue::Datetime => "datetime"@,
        TomlValue::Arr(_) => "array"@,
        TomlValue::Table => "table"@,
    }
}

pub fn type_str(v: &TomlValue) -> (r: &'static str)
    ensures
        r@ == spec_type_str(*v),
{
    match v {
        TomlValue::Str(_) => "string",
        TomlValue::Int => "integer",
        TomlValue::Float => "float",
        TomlValue::Bool => "boolean",
        TomlValue::Datetime => "datetime",
        TomlValue::Arr(_) => "array",
        TomlValue::Table => "table",
    }
}

/// Declares the file parser's value type; values of it are carried through
/// opaquely and read only through `model_value`.
#[verifier::external_type_specification]
#[verifier::external_body]
pub struct ExTomlValue(toml::Value);

/// The table a configuration text parses to, in the table's order, or
/// nothing when the text is not well-formed.
pub uninterp spec fn parsed_toml(s: Seq<char>) -> Option<Seq<(String, toml::Value)>>;

/// Relies on toml::Table's FromStr implementation: whether a text parses,
/// and to which entries, is a function of the text alone.
#[verifier::external_body]
fn parse_toml(text: &str) -> (r: Option<Vec<(String, toml::Value)>>)
    ensures
        match r {
            Option::Some(ps) => parsed_toml(text@) == Option::Some(ps@),
            Option::None => parsed_toml(text@) is None,
        },
{
    match text.parse::<toml::Table>() {
        Ok(t) => Some(t.into_iter().collect()),
        Err(_) => None,
    }
}

/// What the configuration logic reads of one parsed value.
pub uninterp spec fn value_model(v: toml::Value) -> TomlValue;

/// Relies on toml::Value's variants: each value is exactly one of a string,
/// integer, float, boolean, datetime, array or table, and arrays hold
/// values.  Strings are kept, array elements one level deep are kept as
/// strings or as a marker, anything else is kept as its type's tag.
#[verifier::external_body]
fn model_value(v: &toml::Value) -> (r: TomlValue)
    ensures
        r == value_model(*v),
{
    match v {
        toml::Value::String(s) => TomlValue::Str(s.clone()),
        toml::Value::Integer(_) => TomlValue::Int,
        toml::Value::Float(_) => TomlValue::Float,
        toml::Value::Boolean(_) => TomlValue::Bool,
        toml::Value::Datetime(_) => TomlValue::Datetime,
        toml::Value::Table(_) => TomlValue::Table,
        toml::Value::Array(items) => TomlValue::Arr(
            items.iter().map(|e| match e {
                toml::Value::String(s) => TomlItem::Str(s.clone()),
                _ => TomlItem::Other,
            }).collect(),
        ),
    }
}

/// The normalized form of a well-formed URL, or nothing for a malformed one.
pub uninterp spec fn parsed_url(s: Seq<char>) -> Option<Seq<char>>;

/// Relies on url::Url::parse: validity and the normalized form of a URL are
/// functions of the text alone.
#[verifier::external_body]
fn parse_url(s: &str) -> (r: Result<String, String>)
    ensures
        match r {
            Result::Ok(u) => parsed_url(s@) == Option::Some(u@),
            Result::Err(_) => parsed_url(s@) is None,
        },
{
    match url::Url::parse(s) {
        Ok(u) => Ok(u.to_string()),
        Err(e) => Err(e.to_string()),
    }
}

/// The four feature flags named in an argument vector, or nothing when the
/// vector is malformed.
pub uninterp spec fn parsed_opts(args: Seq<Seq<char>>) -> Option<Flags>;

/// The module's command-line surface: four boolean flags.
#[derive(Debug, PartialEq, Eq)]
pub struct Flags {
    pub prompt: bool,
    pub no_qr: bool,
    pub no_presence: bool,
    pub no_mobile: bool,
}

/// Relies on getopts::Options::parse over the module's four flags
/// (-p/--prompt, -Q/--no-qr, -P/--no-presence, -M/--no-mobile): which of
/// them an argument vector names is a function of the vector alone.
#[verifier::external_body]
fn parse_opts(args: &Vec<String>) -> (r: Result<Flags, String>)
    ensures
        match r {
            Result::Ok(f) => parsed_opts(args.deep_view()) == Option::Some(f),
            Result::Err(_) => parsed_opts(args.deep_view()) is None,
        },
{
    let mut opts = getopts::Options::new();
    opts.optflag("p", "prompt", "prompts user to press Enter (might be required with OpenSSH)");
    opts.optflag("Q", "no-qr", "suppresses display of QR code");
    opts.optflag("P", "no-presence", "disables push notifications");
    opts.optflag("M", "no-mobile", "disables display of mobile URL");
    match opts.parse(args) {
        Ok(m) => Ok(Flags {
            prompt: m.opt_present("prompt"),
            no_qr: m.opt_present("no-qr"),
            no_presence: m.opt_present("no-presence"),
            no_mobile: m.opt_present("no-mobile"),
        }),
        Err(e) => Err(e.to_string()),
    }
}

// ---------------------------------------------------------------------------
// Errors
// ---------------------------------------------------------------------------

#[derive(Debug, PartialEq, Eq)]
pub enum ConfigError {
    ErrorReading,
    GetoptsError(String),
    InvalidUrl(String),
    MissingField(String),
    MissingAuthFile(String),
    NoHomeDir,
    ParseError,
    TypeError(String, String),
}

impl ConfigError {
    /// The user-visible description of this error.
    pub fn message(&self) -> (r: String)
        ensures
            r@ == spec_config_error_message(*self),
    {
        match self {
            ConfigError::ErrorReading => String::from_str("Error reading configuration file."),
            ConfigError::GetoptsError(e) => e.clone(),
            ConfigError::InvalidUrl(e) => {
                let mut m = String::from_str("Invalid api_url: ");
                m.append(e.as_str());
                m
            },
            ConfigError::MissingField(key) => {
                let mut m = String::from_str("Missing key in configuration: ");
                m.append(key.as_str());
                m
            },
            ConfigError::MissingAuthFile(path) => {
                let mut m = String::from_str("No such file, ");
                m.append(path.as_str());
                m
            },
            ConfigError::NoHomeDir => String::from_str(
                "Expected to find authorized file in home directory, but user has no home directory.",
            ),
            ConfigError::ParseError => String::from_str("Error parsing configuration file."),
            ConfigError::TypeError(expected, actual) => {
                let mut m = String::from_str("Type error in configuration: expected ");
                m.append(expected.as_str());
                m.append(", but got ");
                m.append(actual.as_str());
                m
            },
        }
    }
}

pub open spec fn spec_config_error_message(e: ConfigError) -> Seq<char> {
    match e {
        ConfigError::ErrorReading => "Error reading configuration file."@,
        ConfigError::GetoptsError(t) => t@,
        ConfigError::InvalidUrl(t) => "Invalid api_url: "@ + t@,
        ConfigError::MissingField(key) => "Missing key in configuration: "@ + key@,
        ConfigError::MissingAuthFile(path) => "No such file, "@ + path@,
        ConfigError::NoHomeDir
            => "Expected to find authorized file in home directory, but user has no home directory."@,
        ConfigError::ParseError => "Error parsing configuration file."@,
        ConfigError::TypeError(expected, actual)
            => "Type error in configuration: expected "@ + expected@ + ", but got "@ + actual@,
    }
}

// ---------------------------------------------------------------------------
// The configuration file's contents
// ---------------------------------------------------------------------------

/// The values read from the configuration file.
#[derive(Debug, PartialEq, Eq)]
pub struct ConfigFile {
    pub realm_key_id: String,
    pub api_url: String,
    pub authorized_users: Vec<TomlItem>,
}

/// First entry of the table under a key, if any.
pub open spec fn spec_lookup(t: Seq<(String, TomlValue)>, key: Seq<char>) -> Option<TomlValue>
    decreases t.len(),
{
    if t.len() == 0 {
        Option::None
    } else if t[0].0@ == key {
        Option::Some(t[0].1)
    } else {
        spec_lookup(t.drop_first(), key)
    }
}

fn lookup<'a>(table: &'a Vec<(String, TomlValue)>, key: &String) -> (r: Option<&'a TomlValue>)
    ensures
        match r {
            Option::Some(v) => spec_lookup(table@, key@) == Option::Some(*v),
            Option::None => spec_lookup(table@, key@) is None,
        },
{
    let n = table.len();
    let mut i: usize = 0;
    assert(table@.subrange(0, n as int) =~= table@);
    while i < n
        invariant
            i <= n,
            n == table@.len(),
            spec_lookup(table@.subrange(i as int, n as int), key@) == spec_lookup(table@, key@),
        decreases n - i,
    {
        assert(table@.subrange(i as int, n as int).drop_first() =~= table@.subrange(
            i as int + 1,
            n as int,
        ));
        if table[i].0.eq(key) {
            return Option::Some(&table[i].1);
        }
        i += 1;
    }
    Option::None
}

/// The raw API address: the file's `api_url` string when there is one, the
/// public production address otherwise (a mistyped value also falls back).
pub open spec fn spec_url_raw(t: Seq<(String, TomlValue)>) -> Seq<char> {
    match spec_lookup(t, "api_url"@) {
        Option::Some(TomlValue::Str(s)) => s@,
        _ => "https://api.tozny.com"@,
    }
}

/// Exactly how a parsed table becomes the file's values or an error: a
/// malformed API address is rejected first, then a missing or mistyped
/// `realm_key_id`, then a missing or mistyped `authorized_users`.
pub open spec fn spec_from_table(t: Seq<(String, TomlValue)>, r: Result<
    ConfigFile,
    ConfigError,
>) -> bool {
    match parsed_url(spec_url_raw(t)) {
        Option::None => r matches Err(ConfigError::InvalidUrl(_)),
        Option::Some(u) => match spec_lookup(t, "realm_key_id"@) {
            Option::None => r matches Err(ConfigError::MissingField(k)) && k@ == "realm_key_id"@,
            Option::Some(kv) => if !(kv is Str) {
                r matches Err(ConfigError::TypeError(e, a)) && e@ == "String"@ && a@
                    == spec_type_str(kv)
            } else {
                match spec_lookup(t, "authorized_users"@) {
                    Option::None => r matches Err(ConfigError::MissingField(k)) && k@
                        == "authorized_users"@,
                    Option::Some(uv) => if !(uv is Arr) {
                        r matches Err(ConfigError::TypeError(e, a)) && e@ == "Array"@ && a@
                            == spec_type_str(uv)
                    } else {
                        &&& r matches Ok(cf)
                        &&& kv matches TomlValue::Str(k) && cf.realm_key_id@ == k@
                        &&& cf.api_url@ == u
                        &&& uv matches TomlValue::Arr(us) && cf.authorized_users@ == us@
                    },
                }
            },
        },
    }
}

fn clone_items(v: &Vec<TomlItem>) -> (r: Vec<TomlItem>)
    ensures
        r@ == v@,
{
    let mut out: Vec<TomlItem> = Vec::new();
    let mut i: usize = 0;
    while i < v.len()
        invariant
            i <= v@.len(),
            out@ == v@.take(i as int),
        decreases v@.len() - i,
    {
        out.push(v[i].duplicate());
        assert(out@ =~= v@.take(i as int + 1));
        i += 1;
    }
    assert(v@.take(v@.len() as int) =~= v@);
    out
}

impl ConfigFile {
    /// Reads the file's values out of a parsed table.
    pub fn from_table(table: &Vec<(String, TomlValue)>) -> (r: Result<ConfigFile, ConfigError>)
        ensures
            spec_from_table(table@, r),
    {
        let key_url = String::from_str("api_url");
        let url_raw: String = match lookup(table, &key_url) {
            Option::Some(TomlValue::Str(s)) => s.clone(),
            _ => String::from_str("https://api.tozny.com"),
        };
        let url = match parse_url(url_raw.as_str()) {
            Result::Ok(u) => u,
            Result::Err(e) => {
                return Result::Err(ConfigError::InvalidUrl(e));
            },
        };
        let key_rk = String::from_str("realm_key_id");
        let kv = match lookup(table, &key_rk) {
            Option::Some(v) => v,
            Option::None => {
                return Result::Err(ConfigError::MissingField(key_rk));
            },
        };
        let k = match kv {
            TomlValue::Str(s) => s.clone(),
            _ => {
                return Result::Err(
                    ConfigError::TypeError(
                        String::from_str("String"),
                        String::from_str(type_str(kv)),
                    ),
                );
            },
        };
        let key_au = String::from_str("authorized_users");
        let uv = match lookup(table, &key_au) {
            Option::Some(v) => v,
            Option::None => {
                return Result::Err(ConfigError::MissingField(key_au));
            },
        };
        let us = match uv {
            TomlValue::Arr(items) => clone_items(items),
            _ => {
                return Result::Err(
                    ConfigError::TypeError(
                        String::from_str("Array"),
                        String::from_str(type_str(uv)),
                    ),
                );
            },
        };
        Result::Ok(ConfigFile { realm_key_id: k, api_url: url, authorized_users: us })
    }
}

/// The table the parsed entries model to.
pub open spec fn spec_model_table(ps: Seq<(String, toml::Value)>) -> Seq<(String, TomlValue)> {
    ps.map_values(|p: (String, toml::Value)| (p.0, value_model(p.1)))
}

/// Exactly how a configuration text becomes the file's values or an error.
pub open spec fn spec_read_config(text: Seq<char>, r: Result<ConfigFile, ConfigError>) -> bool {
    match parsed_toml(text) {
        Option::None => r matches Err(ConfigError::ParseError),
        Option::Some(ps) => spec_from_table(spec_model_table(ps), r),
    }
}

/// Parses a configuration text and reads its values.
pub fn read_config(text: &str) -> (r: Result<ConfigFile, ConfigError>)
    ensures
        spec_read_config(text@, r),
{
    let pairs = match parse_toml(text) {
        Option::Some(ps) => ps,
        Option::None => {
            return Result::Err(ConfigError::ParseError);
        },
    };
    let mut entries: Vec<(String, TomlValue)> = Vec::new();
    let mut i: usize = 0;
    while i < pairs.len()
        invariant
            i <= pairs@.len(),
            entries@ == spec_model_table(pairs@).take(i as int),
        decreases pairs@.len() - i,
    {
        let k = pairs[i].0.clone();
        let v = model_value(&pairs[i].1);
        entries.push((k, v));
        assert(entries@ =~= spec_model_table(pairs@).take(i as int + 1));
        i += 1;
    }
    assert(spec_model_table(pairs@).take(pairs@.len() as int) =~= spec_model_table(pairs@));
    ConfigFile::from_table(&entries)
}

// ---------------------------------------------------------------------------
// The assembled configuration
// ---------------------------------------------------------------------------

/// Everything one authentication attempt is configured by.
#[derive(Debug, PartialEq, Eq)]
pub struct Config {
    pub realm_key_id: String,
    pub api_url: String,
    pub authorized_users: Vec<TomlItem>,
    pub home_dir: String,
    pub presence: bool,
    pub prompt: bool,
    pub qr: bool,
    pub mobile_url: bool,
}

/// The realm identification an API client is built from.
#[derive(Debug, PartialEq, Eq)]
pub struct UserApi {
    pub realm_key_id: String,
    pub api_url: String,
}

/// What the calling program found at the configuration file's path.
#[derive(Debug, PartialEq, Eq)]
pub enum AuthFileProbe {
    Missing,
    Unreadable,
    Contents(String),
}

pub open spec fn spec_auth_path(home: Seq<char>) -> Seq<char> {
    home + "/.config/tozny/authorized.toml"@
}

/// The configuration file's path under a home directory.
pub fn get_auth_path(home: &str) -> (r: String)
    ensures
        r@ == spec_auth_path(home@),
{
    let mut p = String::from_str(home);
    p.append("/.config/tozny/authorized.toml");
    assert(p@ =~= spec_auth_path(home@));
    p
}

/// An identity is authorized when it equals one of the configured entries
/// exactly; entries that are not strings are skipped.
pub open spec fn spec_is_authorized(c: Config, user_id: Seq<char>) -> bool {
    exists|i: int|
        0 <= i < c.authorized_users@.len() && ((#[trigger] c.authorized_users@[i]) matches
        TomlItem::Str(u) && u@ == user_id)
}

/// Exactly how the argument vector, the home-directory lookup and the
/// configuration file become a configuration or an error: a malformed
/// argument vector is rejected first, then a missing home directory, then a
/// missing or unreadable file, then the file's own errors.
pub open spec fn spec_build(
    args: Seq<Seq<char>>,
    home: Option<String>,
    auth: AuthFileProbe,
    r: Result<Config, ConfigError>,
) -> bool {
    match parsed_opts(args) {
        Option::None => r matches Err(ConfigError::GetoptsError(_)),
        Option::Some(f) => match home {
            Option::None => r matches Err(ConfigError::NoHomeDir),
            Option::Some(h) => match auth {
                AuthFileProbe::Missing => r matches Err(ConfigError::MissingAuthFile(p)) && p@
                    == spec_auth_path(h@),
                AuthFileProbe::Unreadable => r matches Err(ConfigError::ErrorReading),
                AuthFileProbe::Contents(text) => match r {
                    Result::Ok(c) => {
                        &&& spec_read_config(
                            text@,
                            Result::Ok(
                                ConfigFile {
                                    realm_key_id: c.realm_key_id,
                                    api_url: c.api_url,
                                    authorized_users: c.authorized_users,
                                },
                            ),
                        )
                        &&& c.home_dir == h
                        &&& c.prompt == f.prompt
                        &&& c.presence == !f.no_presence
                        &&& c.qr == !f.no_qr
                        &&& c.mobile_url == !f.no_mobile
                    },
                    Result::Err(e) => spec_read_config(text@, Result::Err(e)),
                },
            },
        },
    }
}

impl Config {
    /// Assembles the configuration of one attempt.  The caller resolves the
    /// home directory from the OS identity database and probes the
    /// configuration file at `get_auth_path(home)`; both results are taken
    /// as arguments.
    pub fn build(args: &Vec<String>, home: Option<String>, auth: AuthFileProbe) -> (r: Result<
        Config,
        ConfigError,
    >)
        ensures
            spec_build(args.deep_view(), home, auth, r),
    {
        let flags = match parse_opts(args) {
            Result::Ok(f) => f,
            Result::Err(e) => {
                return Result::Err(ConfigError::GetoptsError(e));
            },
        };
        let h = match home {
            Option::Some(h) => h,
            Option::None => {
                return Result::Err(ConfigError::NoHomeDir);
            },
        };
        let text = match auth {
            AuthFileProbe::Missing => {
                return Result::Err(ConfigError::MissingAuthFile(get_auth_path(h.as_str())));
            },
            AuthFileProbe::Unreadable => {
                return Result::Err(ConfigError::ErrorReading);
            },
            AuthFileProbe::Contents(text) => text,
        };
        let cf = match read_config(text.as_str()) {
            Result::Ok(cf) => cf,
            Result::Err(e) => {
                return Result::Err(e);
            },
        };
        Result::Ok(
            Config {
                realm_key_id: cf.realm_key_id,
                api_url: cf.api_url,
                authorized_users: cf.authorized_users,
                home_dir: h,
                prompt: flags.prompt,
                presence: !flags.no_presence,
                qr: !flags.no_qr,
                mobile_url: !flags.no_mobile,
            },
        )
    }

    /// The realm identification the API client is built from.
    pub fn get_user_api(&self) -> (r: UserApi)
        ensures
            r.realm_key_id == self.realm_key_id,
            r.api_url == self.api_url,
    {
        UserApi { realm_key_id: self.realm_key_id.clone(), api_url: self.api_url.clone() }
    }

    /// Whether the decoded identity is one of the configured entries.
    pub fn is_authorized(&self, login: &Login) -> (r: bool)
        ensures
            r == spec_is_authorized(*self, login.user_id@),
    {
        let n = self.authorized_users.len();
        let mut i: usize = 0;
        while i < n
            invariant
                i <= n,
                n == self.authorized_users@.len(),
                forall|k: int|
                    0 <= k < i ==> !((#[trigger] self.authorized_users@[k]) matches TomlItem::Str(
                        u,
                    ) && u@ == login.user_id@),
            decreases n - i,
        {
            match &self.authorized_users[i] {
                TomlItem::Str(u) => {
                    if u.eq(&login.user_id) {
                        return true;
                    }
                },
                TomlItem::Other => {},
            }
            i += 1;
        }
        false
    }
}

// ---------------------------------------------------------------------------
// The home-directory record
// ---------------------------------------------------------------------------

/// Number of occurrences of a character.
pub open spec fn count_char(s: Seq<char>, c: char) -> nat
    decreases s.len(),
{
    if s.len() == 0 {
        0
    } else {
        count_char(s.drop_last(), c) + if s.last() == c {
            1nat
        } else {
            0nat
        }
    }
}

/// Extracts the home-directory field, the sixth colon-separated field, from
/// an identity-database record.  A record of fewer than six fields yields
/// nothing.
pub fn get_home(passwd: &str) -> (r: Option<String>)
    ensures
        match r {
            Option::Some(t) => exists|start: int, end: int|
                {
                    &&& 0 <= start <= end <= passwd@.len()
                    &&& count_char(passwd@.take(start), ':') == 5
                    &&& start >= 1 && passwd@[start - 1] == ':'
                    &&& (forall|k: int| start <= k < end ==> passwd@[k] != ':')
                    &&& (end == passwd@.len() || passwd@[end] == ':')
                    &&& t@ == #[trigger] passwd@.take(end).skip(start)
                },
            Option::None => count_char(passwd@, ':') < 5,
        },
{
    let n: usize = passwd.unicode_len();
    let mut i: usize = 0;
    let mut seen: usize = 0;
    while i < n && seen < 5
        invariant
            i <= n,
            n == passwd@.len(),
            seen <= 5,
            seen == count_char(passwd@.take(i as int), ':'),
            seen == 5 ==> i >= 1 && passwd@[i - 1] == ':',
        decreases n - i,
    {
        assert(passwd@.take(i as int + 1).drop_last() =~= passwd@.take(i as int));
        let c = passwd.get_char(i);
        if c == ':' {
            seen += 1;
        }
        i += 1;
    }
    if seen < 5 {
        assert(passwd@.take(n as int) =~= passwd@);
        return Option::None;
    }
    let start = i;
    let mut j: usize = start;
    while j < n && passwd.get_char(j) != ':'
        invariant
            start <= j <= n,
            n == passwd@.len(),
            forall|k: int| start <= k < j ==> passwd@[k] != ':',
        decreases n - j,
    {
        j += 1;
    }
    let field = passwd.substring_char(start, j);
    let t = String::from_str(field);
    proof {
        assert(t@ =~= passwd@.take(j as int).skip(start as int));
        assert(count_char(passwd@.take(start as int), ':') == 5);
    }
    Option::Some(t)
}

} // verus!
