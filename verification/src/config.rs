//! Session configuration and account identity.
//!
//! [`RithmicConfig`] holds the connection and login details of a user
//! session; [`RithmicAccount`] is the trading account that order and PnL
//! requests are scoped to. Reading the process environment is left to the
//! caller: the functions here take the values it found and decide what they
//! make.

use vstd::prelude::*;

verus! {

/// Trading environment selector.
#[derive(Clone, Copy, Debug, Default, PartialEq, Eq, Structural)]
pub enum RithmicEnv {
    /// Rithmic Paper Trading (demo/development) environment.
    #[default]
    Demo,
    /// Rithmic 01 (live/production) environment.
    Live,
    /// Rithmic Test environment.
    Test,
}

/// The lower-case name an environment is shown as.
pub open spec fn env_name(env: RithmicEnv) -> Seq<char> {
    match env {
        RithmicEnv::Demo => "demo"@,
        RithmicEnv::Live => "live"@,
        RithmicEnv::Test => "test"@,
    }
}

/// The environment a name selects: `demo`/`development`, `live`/`production`
/// or `test`.
pub open spec fn env_from_name(s: Seq<char>) -> Option<RithmicEnv> {
    if s == "demo"@ || s == "development"@ {
        Some(RithmicEnv::Demo)
    } else if s == "live"@ || s == "production"@ {
        Some(RithmicEnv::Live)
    } else if s == "test"@ {
        Some(RithmicEnv::Test)
    } else {
        None
    }
}

/// The Rithmic system a fresh configuration logs in to.
pub open spec fn default_system_name(env: RithmicEnv) -> Seq<char> {
    match env {
        RithmicEnv::Demo => "Rithmic Paper Trading"@,
        RithmicEnv::Live => "Rithmic 01"@,
        RithmicEnv::Test => "Rithmic Test"@,
    }
}

/// Compares two strings character by character.
pub fn str_eq(a: &str, b: &str) -> (r: bool)
    ensures
        r == (a@ == b@),
{
    let n = a.unicode_len();
    if n != b.unicode_len() {
        return false;
    }
    let mut i: usize = 0;
    while i < n
        invariant
            n == a@.len(),
            n == b@.len(),
            i <= n,
            forall|j: int| 0 <= j < i ==> a@[j] == b@[j],
        decreases n - i,
    {
        if a.get_char(i) != b.get_char(i) {
            return false;
        }
        i = i + 1;
    }
    proof {
        assert(a@ =~= b@);
    }
    true
}

/// Copies a string slice into a new string.
pub fn owned(s: &str) -> (r: String)
    ensures
        r@ == s@,
{
    s.to_owned()
}

impl RithmicEnv {
    /// The name this environment is shown as: `demo`, `live` or `test`.
    pub fn as_str(&self) -> (s: &'static str)
        ensures
            s@ == env_name(*self),
    {
        match self {
            RithmicEnv::Demo => "demo",
            RithmicEnv::Live => "live",
            RithmicEnv::Test => "test",
        }
    }

    /// The name this environment is shown as, as a new string.
    pub fn to_display_string(&self) -> (s: String)
        ensures
            s@ == env_name(*self),
    {
        owned(self.as_str())
    }

    /// Parses `demo`/`development`, `live`/`production` or `test`; any other
    /// text is an [`ConfigError::InvalidEnvironment`] carrying it.
    pub fn parse(s: &str) -> (r: Result<RithmicEnv, ConfigError>)
        ensures
            match env_from_name(s@) {
                Some(env) => r == Ok::<RithmicEnv, ConfigError>(env),
                None => r matches Err(ConfigError::InvalidEnvironment(text)) && text@ == s@,
            },
    {
        if str_eq(s, "demo") || str_eq(s, "development") {
            Ok(RithmicEnv::Demo)
        } else if str_eq(s, "live") || str_eq(s, "production") {
            Ok(RithmicEnv::Live)
        } else if str_eq(s, "test") {
            Ok(RithmicEnv::Test)
        } else {
            Err(ConfigError::InvalidEnvironment(owned(s)))
        }
    }

    /// The system name a fresh configuration for this environment uses.
    pub fn default_system_name(&self) -> (s: &'static str)
        ensures
            s@ == default_system_name(*self),
    {
        match self {
            RithmicEnv::Demo => "Rithmic Paper Trading",
            RithmicEnv::Live => "Rithmic 01",
            RithmicEnv::Test => "Rithmic Test",
        }
    }
}

impl std::str::FromStr for RithmicEnv {
    type Err = ConfigError;

    /// The same parse as [`RithmicEnv::parse`].
    fn from_str(s: &str) -> (r: Result<RithmicEnv, ConfigError>)
        ensures
            match env_from_name(s@) {
                Some(env) => r == Ok::<RithmicEnv, ConfigError>(env),
                None => r matches Err(ConfigError::InvalidEnvironment(text)) && text@ == s@,
            },
    {
        RithmicEnv::parse(s)
    }
}

/// Parsing the name an environment is shown as gives back that environment.
pub proof fn lemma_env_name_roundtrip(env: RithmicEnv)
    ensures
        env_from_name(env_name(env)) == Some(env),
{
    reveal_strlit("demo");
    reveal_strlit("development");
    reveal_strlit("live");
    reveal_strlit("production");
    reveal_strlit("test");
    assert("demo"@[0] == 'd');
    assert("live"@[0] == 'l');
    assert("test"@[0] == 't');
    assert("production"@[0] == 'p');
    assert("development"@.len() == 11);
}

/// Configuration error types.
#[derive(Debug, Clone, PartialEq, Eq)]
pub enum ConfigError {
    /// The environment string could not be parsed.
    InvalidEnvironment(String),
    /// A configuration value was present but invalid.
    InvalidValue {
        /// The variable or field name.
        var: String,
        /// Why the value was rejected.
        reason: String,
    },
    /// A required environment variable was not set.
    MissingEnvVar(String),
    /// A required builder field was not provided.
    MissingField(String),
}

/// The text each configuration error is shown as.
pub open spec fn config_error_text(e: ConfigError) -> Seq<char> {
    match e {
        ConfigError::MissingEnvVar(var) => "Missing environment variable: "@ + var@,
        ConfigError::InvalidEnvironment(env) => "Invalid environment: "@ + env@,
        ConfigError::InvalidValue { var, reason } => "Invalid value for "@ + var@ + ": "@ + reason@,
        ConfigError::MissingField(field) => "Missing required field: "@ + field@,
    }
}

impl ConfigError {
    /// Renders the error for a log line or a terminal.
    pub fn to_display_string(&self) -> (s: String)
        ensures
            s@ == config_error_text(*self),
    {
        let mut s = String::new();
        match self {
            ConfigError::MissingEnvVar(var) => {
                s.append("Missing environment variable: ");
                s.append(var.as_str());
            },
            ConfigError::InvalidEnvironment(env) => {
                s.append("Invalid environment: ");
                s.append(env.as_str());
            },
            ConfigError::InvalidValue { var, reason } => {
                s.append("Invalid value for ");
                s.append(var.as_str());
                s.append(": ");
                s.append(reason.as_str());
            },
            ConfigError::MissingField(field) => {
                s.append("Missing required field: ");
                s.append(field.as_str());
            },
        }
        proof {
            assert(Seq::<char>::empty() + "Missing environment variable: "@ =~= "Missing environment variable: "@);
            assert(Seq::<char>::empty() + "Invalid environment: "@ =~= "Invalid environment: "@);
            assert(Seq::<char>::empty() + "Invalid value for "@ =~= "Invalid value for "@);
            assert(Seq::<char>::empty() + "Missing required field: "@ =~= "Missing required field: "@);
        }
        s
    }
}

/// Trading account identity for order and PnL requests.
///
/// Rithmic authenticates per user session while order and PnL operations are
/// account-scoped, so this is separate from [`RithmicConfig`].
#[derive(Clone, Debug, PartialEq, Eq)]
pub struct RithmicAccount {
    /// Trading account identifier.
    pub account_id: String,
    /// Futures Commission Merchant identifier.
    pub fcm_id: String,
    /// Introducing Broker identifier.
    pub ib_id: String,
}

/// The environment variables an account identity is read from, in the order
/// they are looked up: account id, FCM id, IB id.
pub open spec fn account_var_names(env: RithmicEnv) -> (Seq<char>, Seq<char>, Seq<char>) {
    match env {
        RithmicEnv::Demo => ("RITHMIC_DEMO_ACCOUNT_ID"@, "RITHMIC_DEMO_FCM_ID"@, "RITHMIC_DEMO_IB_ID"@),
        RithmicEnv::Live => ("RITHMIC_LIVE_ACCOUNT_ID"@, "RITHMIC_LIVE_FCM_ID"@, "RITHMIC_LIVE_IB_ID"@),
        RithmicEnv::Test => ("RITHMIC_TEST_ACCOUNT_ID"@, "RITHMIC_TEST_FCM_ID"@, "RITHMIC_TEST_IB_ID"@),
    }
}

impl RithmicAccount {
    /// Create a typed account identity directly.
    pub fn new(fcm_id: &str, ib_id: &str, account_id: &str) -> (a: Self)
        ensures
            a.fcm_id@ == fcm_id@,
            a.ib_id@ == ib_id@,
            a.account_id@ == account_id@,
    {
        RithmicAccount { account_id: owned(account_id), fcm_id: owned(fcm_id), ib_id: owned(ib_id) }
    }

    /// The environment variables an account for `env` is read from: account
    /// id, FCM id and IB id, in lookup order.
    pub fn env_var_names(env: RithmicEnv) -> (names: (&'static str, &'static str, &'static str))
        ensures
            (names.0@, names.1@, names.2@) == account_var_names(env),
    {
        match env {
            RithmicEnv::Demo => ("RITHMIC_DEMO_ACCOUNT_ID", "RITHMIC_DEMO_FCM_ID", "RITHMIC_DEMO_IB_ID"),
            RithmicEnv::Live => ("RITHMIC_LIVE_ACCOUNT_ID", "RITHMIC_LIVE_FCM_ID", "RITHMIC_LIVE_IB_ID"),
            RithmicEnv::Test => ("RITHMIC_TEST_ACCOUNT_ID", "RITHMIC_TEST_FCM_ID", "RITHMIC_TEST_IB_ID"),
        }
    }

    /// The account the values found under [`Self::env_var_names`] make. The
    /// first variable that was not set, in lookup order, is reported as
    /// [`ConfigError::MissingEnvVar`].
    pub fn from_env_values(
        env: RithmicEnv,
        account_id: Option<String>,
        fcm_id: Option<String>,
        ib_id: Option<String>,
    ) -> (r: Result<Self, ConfigError>)
        ensures
            match (account_id, fcm_id, ib_id) {
                (Some(a), Some(f), Some(i)) => r matches Ok(acct) && acct.account_id@ == a@
                    && acct.fcm_id@ == f@ && acct.ib_id@ == i@,
                (None, _, _) => r matches Err(ConfigError::MissingEnvVar(v)) && v@ == account_var_names(env).0,
                (Some(_), None, _) => r matches Err(ConfigError::MissingEnvVar(v)) && v@ == account_var_names(env).1,
                (Some(_), Some(_), None) => r matches Err(ConfigError::MissingEnvVar(v)) && v@ == account_var_names(env).2,
            },
    {
        let names = Self::env_var_names(env);
        let account_id = match account_id {
            Some(v) => v,
            None => return Err(ConfigError::MissingEnvVar(owned(names.0))),
        };
        let fcm_id = match fcm_id {
            Some(v) => v,
            None => return Err(ConfigError::MissingEnvVar(owned(names.1))),
        };
        let ib_id = match ib_id {
            Some(v) => v,
            None => return Err(ConfigError::MissingEnvVar(owned(names.2))),
        };
        Ok(RithmicAccount { account_id, fcm_id, ib_id })
    }
}

/// Configuration for Rithmic connections: session-level connection and
/// login details.
#[derive(Clone)]
pub struct RithmicConfig {
    /// Primary WebSocket URL.
    pub url: String,
    /// Alternative WebSocket URL used when alternating between servers.
    pub beta_url: String,
    /// Login username.
    pub user: String,
    /// Login password.
    pub password: String,
    /// Rithmic system name (e.g. "Rithmic Paper Trading").
    pub system_name: String,
    /// Target trading environment.
    pub env: RithmicEnv,
    /// Application name registered with Rithmic.
    pub app_name: String,
    /// Application version string.
    pub app_version: String,
}

/// The environment variables a configuration for `env` reads its
/// environment-specific values from, in lookup order: URL, alternative URL,
/// user, password.
pub open spec fn config_var_names(env: RithmicEnv) -> (Seq<char>, Seq<char>, Seq<char>, Seq<char>) {
    match env {
        RithmicEnv::Demo => ("RITHMIC_DEMO_URL"@, "RITHMIC_DEMO_ALT_URL"@, "RITHMIC_DEMO_USER"@, "RITHMIC_DEMO_PW"@),
        RithmicEnv::Live => ("RITHMIC_LIVE_URL"@, "RITHMIC_LIVE_ALT_URL"@, "RITHMIC_LIVE_USER"@, "RITHMIC_LIVE_PW"@),
        RithmicEnv::Test => ("RITHMIC_TEST_URL"@, "RITHMIC_TEST_ALT_URL"@, "RITHMIC_TEST_USER"@, "RITHMIC_TEST_PW"@),
    }
}

/// Whether `r` is the error for the unset variable `name`.
pub open spec fn reports_missing_var<T>(r: Result<T, ConfigError>, name: Seq<char>) -> bool {
    r matches Err(ConfigError::MissingEnvVar(v)) && v@ == name
}

/// Whether a configuration has exactly the given contents.
pub open spec fn config_is(
    c: RithmicConfig,
    env: RithmicEnv,
    url: Seq<char>,
    beta_url: Seq<char>,
    user: Seq<char>,
    password: Seq<char>,
    system_name: Seq<char>,
    app_name: Seq<char>,
    app_version: Seq<char>,
) -> bool {
    &&& c.env == env
    &&& c.url@ == url
    &&& c.beta_url@ == beta_url
    &&& c.user@ == user
    &&& c.password@ == password
    &&& c.system_name@ == system_name
    &&& c.app_name@ == app_name
    &&& c.app_version@ == app_version
}

impl RithmicConfig {
    /// The environment-specific variables a configuration for `env` is read
    /// from: URL, alternative URL, user and password, in lookup order. The
    /// application name and version come from [`Self::APP_NAME_VAR`] and
    /// [`Self::APP_VERSION_VAR`], looked up after them.
    pub fn env_var_names(env: RithmicEnv) -> (names: (&'static str, &'static str, &'static str, &'static str))
        ensures
            (names.0@, names.1@, names.2@, names.3@) == config_var_names(env),
    {
        match env {
            RithmicEnv::Demo => ("RITHMIC_DEMO_URL", "RITHMIC_DEMO_ALT_URL", "RITHMIC_DEMO_USER", "RITHMIC_DEMO_PW"),
            RithmicEnv::Live => ("RITHMIC_LIVE_URL", "RITHMIC_LIVE_ALT_URL", "RITHMIC_LIVE_USER", "RITHMIC_LIVE_PW"),
            RithmicEnv::Test => ("RITHMIC_TEST_URL", "RITHMIC_TEST_ALT_URL", "RITHMIC_TEST_USER", "RITHMIC_TEST_PW"),
        }
    }

    /// Variable holding the application name registered with Rithmic.
    pub const APP_NAME_VAR: &'static str = "RITHMIC_APP_NAME";

    /// Variable holding the application version.
    pub const APP_VERSION_VAR: &'static str = "RITHMIC_APP_VERSION";

    /// The configuration the values found under [`Self::env_var_names`],
    /// [`Self::APP_NAME_VAR`] and [`Self::APP_VERSION_VAR`] make, with the
    /// environment's default system name. The first variable that was not
    /// set, in lookup order, is reported as [`ConfigError::MissingEnvVar`].
    pub fn from_env_values(
        env: RithmicEnv,
        url: Option<String>,
        beta_url: Option<String>,
        user: Option<String>,
        password: Option<String>,
        app_name: Option<String>,
        app_version: Option<String>,
    ) -> (r: Result<Self, ConfigError>)
        ensures
            url is None ==> reports_missing_var(r, config_var_names(env).0),
            url is Some && beta_url is None ==> reports_missing_var(r, config_var_names(env).1),
            url is Some && beta_url is Some && user is None ==> reports_missing_var(r, config_var_names(env).2),
            url is Some && beta_url is Some && user is Some && password is None
                ==> reports_missing_var(r, config_var_names(env).3),
            url is Some && beta_url is Some && user is Some && password is Some && app_name is None
                ==> reports_missing_var(r, "RITHMIC_APP_NAME"@),
            url is Some && beta_url is Some && user is Some && password is Some && app_name is Some
                && app_version is None ==> reports_missing_var(r, "RITHMIC_APP_VERSION"@),
            r is Ok <==> (url is Some && beta_url is Some && user is Some && password is Some
                && app_name is Some && app_version is Some),
            r matches Ok(c) ==> config_is(c, env, url->0@, beta_url->0@, user->0@, password->0@,
                default_system_name(env), app_name->0@, app_version->0@),
    {
        let names = Self::env_var_names(env);
        let url = match url {
            Some(v) => v,
            None => return Err(ConfigError::MissingEnvVar(owned(names.0))),
        };
        let beta_url = match beta_url {
            Some(v) => v,
            None => return Err(ConfigError::MissingEnvVar(owned(names.1))),
        };
        let user = match user {
            Some(v) => v,
            None => return Err(ConfigError::MissingEnvVar(owned(names.2))),
        };
        let password = match password {
            Some(v) => v,
            None => return Err(ConfigError::MissingEnvVar(owned(names.3))),
        };
        let app_name = match app_name {
            Some(v) => v,
            None => return Err(ConfigError::MissingEnvVar(owned(Self::APP_NAME_VAR))),
        };
        let app_version = match app_version {
            Some(v) => v,
            None => return Err(ConfigError::MissingEnvVar(owned(Self::APP_VERSION_VAR))),
        };
        let system_name = owned(env.default_system_name());
        Ok(RithmicConfig { url, beta_url, user, password, system_name, env, app_name, app_version })
    }

    /// A builder for programmatic configuration.
    pub fn builder(env: RithmicEnv) -> (b: RithmicConfigBuilder)
        ensures
            b@ == RithmicConfigBuilder::fresh(env),
    {
        RithmicConfigBuilder::new(env)
    }
}

/// The text Rust's `Debug` gives for a string: the string in double quotes,
/// with quotes, backslashes and control characters escaped.
pub uninterp spec fn debug_str(s: Seq<char>) -> Seq<char>;

/// Whether every character of `s` is printable ASCII other than `"` and
/// `\\`: the characters `{:?}` shows as themselves.
pub open spec fn plain_ascii(s: Seq<char>) -> bool {
    forall|i: int|
        0 <= i < s.len() ==> {
            let c = #[trigger] s[i];
            ' ' <= c && c <= '~' && c != '"' && c != '\\'
        }
}

/// Quotes a string as `{:?}` does.
///
/// Calls `format!("{:?}", s)`, which goes through std's `Debug` for `str`.
/// The contract claims that the result is a function of the string, and what
/// std documents for printable ASCII other than `"` and `\\`: such a string
/// is shown as itself between double quotes (`char::escape_debug` leaves
/// those characters as they are). Escaping of other characters is not
/// stated.
#[verifier::external_body]
fn debug_quoted(s: &str) -> (r: String)
    ensures
        r@ == debug_str(s@),
        plain_ascii(s@) ==> r@ == seq!['"'] + s@ + seq!['"'],
{
    format!("{:?}", s)
}

/// The name `{:?}` gives an environment: its variant's name.
pub open spec fn env_debug_name(env: RithmicEnv) -> Seq<char> {
    match env {
        RithmicEnv::Demo => "Demo"@,
        RithmicEnv::Live => "Live"@,
        RithmicEnv::Test => "Test"@,
    }
}

/// The debug text of a configuration: every field in order, the password
/// replaced by `"[REDACTED]"`.
pub open spec fn config_debug_text(c: RithmicConfig) -> Seq<char> {
    "RithmicConfig { url: "@ + debug_str(c.url@) + ", beta_url: "@ + debug_str(c.beta_url@) + ", user: "@
        + debug_str(c.user@) + ", password: \"[REDACTED]\", system_name: "@ + debug_str(c.system_name@)
        + ", env: "@ + env_debug_name(c.env) + ", app_name: "@ + debug_str(c.app_name@) + ", app_version: "@
        + debug_str(c.app_version@) + " }"@
}

impl RithmicEnv {
    /// The name `{:?}` gives this environment.
    fn debug_name(&self) -> (s: &'static str)
        ensures
            s@ == env_debug_name(*self),
    {
        match self {
            RithmicEnv::Demo => "Demo",
            RithmicEnv::Live => "Live",
            RithmicEnv::Test => "Test",
        }
    }
}

impl RithmicConfig {
    /// The configuration as `{:?}` would show it, with the password
    /// redacted so that the text can be logged.
    pub fn to_debug_string(&self) -> (s: String)
        ensures
            s@ == config_debug_text(*self),
            plain_ascii(self.user@) ==> s@.subrange(debug_user_start(*self), debug_user_start(*self)
                + self.user@.len() as int) == self.user@,
    {
        let mut s = String::new();
        s.append("RithmicConfig { url: ");
        s.append(debug_quoted(&self.url).as_str());
        s.append(", beta_url: ");
        s.append(debug_quoted(&self.beta_url).as_str());
        s.append(", user: ");
        s.append(debug_quoted(&self.user).as_str());
        s.append(", password: \"[REDACTED]\", system_name: ");
        s.append(debug_quoted(&self.system_name).as_str());
        s.append(", env: ");
        s.append(self.env.debug_name());
        s.append(", app_name: ");
        s.append(debug_quoted(&self.app_name).as_str());
        s.append(", app_version: ");
        s.append(debug_quoted(&self.app_version).as_str());
        s.append(" }");
        proof {
            assert(Seq::<char>::empty() + "RithmicConfig { url: "@ =~= "RithmicConfig { url: "@);
            if plain_ascii(self.user@) {
                lemma_debug_text_shows_plain_user(*self);
            }
        }
        s
    }
}

/// Where the user name starts in a configuration's debug text, just after
/// its opening quote.
pub open spec fn debug_user_start(c: RithmicConfig) -> int {
    "RithmicConfig { url: "@.len() + debug_str(c.url@).len() + ", beta_url: "@.len()
        + debug_str(c.beta_url@).len() + ", user: "@.len() + 1int
}

/// The debug text shows a user name that `{:?}` leaves as it is, between
/// its quotes.
pub proof fn lemma_debug_text_shows_plain_user(c: RithmicConfig)
    requires
        debug_str(c.user@) == seq!['"'] + c.user@ + seq!['"'],
    ensures
        config_debug_text(c).subrange(debug_user_start(c), debug_user_start(c) + c.user@.len() as int) == c.user@,
{
    let a = "RithmicConfig { url: "@ + debug_str(c.url@) + ", beta_url: "@ + debug_str(c.beta_url@) + ", user: "@;
    let rest = ", password: \"[REDACTED]\", system_name: "@ + debug_str(c.system_name@) + ", env: "@
        + env_debug_name(c.env) + ", app_name: "@ + debug_str(c.app_name@) + ", app_version: "@
        + debug_str(c.app_version@) + " }"@;
    let t = config_debug_text(c);
    assert(t =~= a + (seq!['"'] + c.user@ + seq!['"']) + rest);
    let start = debug_user_start(c);
    assert(start == a.len() + 1);
    assert(t.subrange(start, start + c.user@.len() as int) =~= c.user@);
}

/// The debug text never shows the password: two configurations that differ
/// only in their passwords read the same.
pub proof fn lemma_debug_text_hides_password(a: RithmicConfig, b: RithmicConfig)
    requires
        a == (RithmicConfig { password: a.password, ..b }),
    ensures
        config_debug_text(a) == config_debug_text(b),
{
}

/// What a [`RithmicConfigBuilder`] has been given so far.
pub struct ConfigBuilderView {
    /// Environment.
    pub env: Option<RithmicEnv>,
    /// Primary URL.
    pub url: Option<Seq<char>>,
    /// Alternative URL.
    pub beta_url: Option<Seq<char>>,
    /// Login user.
    pub user: Option<Seq<char>>,
    /// Login password.
    pub password: Option<Seq<char>>,
    /// System name.
    pub system_name: Option<Seq<char>>,
    /// Application name.
    pub app_name: Option<Seq<char>>,
    /// Application version.
    pub app_version: Option<Seq<char>>,
}

/// Builder for constructing a [`RithmicConfig`] with custom values.
pub struct RithmicConfigBuilder {
    env: Option<RithmicEnv>,
    url: Option<String>,
    beta_url: Option<String>,
    user: Option<String>,
    password: Option<String>,
    system_name: Option<String>,
    app_name: Option<String>,
    app_version: Option<String>,
}

impl View for RithmicConfigBuilder {
    type V = ConfigBuilderView;

    closed spec fn view(&self) -> ConfigBuilderView {
        ConfigBuilderView {
            env: self.env,
            url: self.url.deep_view(),
            beta_url: self.beta_url.deep_view(),
            user: self.user.deep_view(),
            password: self.password.deep_view(),
            system_name: self.system_name.deep_view(),
            app_name: self.app_name.deep_view(),
            app_version: self.app_version.deep_view(),
        }
    }
}

/// The name of the first required field a builder lacks, in the order
/// `env`, `url`, `beta_url`, `user`, `password`, `system_name`, `app_name`,
/// `app_version`; `None` when it has them all.
pub open spec fn first_missing_field(b: ConfigBuilderView) -> Option<Seq<char>> {
    if b.env is None {
        Some("env"@)
    } else if b.url is None {
        Some("url"@)
    } else if b.beta_url is None {
        Some("beta_url"@)
    } else if b.user is None {
        Some("user"@)
    } else if b.password is None {
        Some("password"@)
    } else if b.system_name is None {
        Some("system_name"@)
    } else if b.app_name is None {
        Some("app_name"@)
    } else if b.app_version is None {
        Some("app_version"@)
    } else {
        None
    }
}

impl RithmicConfigBuilder {
    /// What a new builder for `env` holds: the environment and its default
    /// system name, nothing else.
    pub open spec fn fresh(env: RithmicEnv) -> ConfigBuilderView {
        ConfigBuilderView {
            env: Some(env),
            url: None,
            beta_url: None,
            user: None,
            password: None,
            system_name: Some(default_system_name(env)),
            app_name: None,
            app_version: None,
        }
    }

    /// Create a new builder for the specified environment, with the
    /// environment's default system name.
    pub fn new(env: RithmicEnv) -> (b: Self)
        ensures
            b@ == Self::fresh(env),
    {
        RithmicConfigBuilder {
            env: Some(env),
            url: None,
            beta_url: None,
            user: None,
            password: None,
            system_name: Some(owned(env.default_system_name())),
            app_name: None,
            app_version: None,
        }
    }

    /// Set the WebSocket URL.
    pub fn url(self, url: &str) -> (b: Self)
        ensures
            b@ == (ConfigBuilderView { url: Some(url@), ..self@ }),
    {
        RithmicConfigBuilder { url: Some(owned(url)), ..self }
    }

    /// Set the alternative WebSocket URL.
    pub fn beta_url(self, beta_url: &str) -> (b: Self)
        ensures
            b@ == (ConfigBuilderView { beta_url: Some(beta_url@), ..self@ }),
    {
        RithmicConfigBuilder { beta_url: Some(owned(beta_url)), ..self }
    }

    /// Set the username.
    pub fn user(self, user: &str) -> (b: Self)
        ensures
            b@ == (ConfigBuilderView { user: Some(user@), ..self@ }),
    {
        RithmicConfigBuilder { user: Some(owned(user)), ..self }
    }

    /// Set the password.
    pub fn password(self, password: &str) -> (b: Self)
        ensures
            b@ == (ConfigBuilderView { password: Some(password@), ..self@ }),
    {
        RithmicConfigBuilder { password: Some(owned(password)), ..self }
    }

    /// Set the system name.
    pub fn system_name(self, system_name: &str) -> (b: Self)
        ensures
            b@ == (ConfigBuilderView { system_name: Some(system_name@), ..self@ }),
    {
        RithmicConfigBuilder { system_name: Some(owned(system_name)), ..self }
    }

    /// Set the application name registered with Rithmic.
    pub fn app_name(self, app_name: &str) -> (b: Self)
        ensures
            b@ == (ConfigBuilderView { app_name: Some(app_name@), ..self@ }),
    {
        RithmicConfigBuilder { app_name: Some(owned(app_name)), ..self }
    }

    /// Set the application version string.
    pub fn app_version(self, app_version: &str) -> (b: Self)
        ensures
            b@ == (ConfigBuilderView { app_version: Some(app_version@), ..self@ }),
    {
        RithmicConfigBuilder { app_version: Some(owned(app_version)), ..self }
    }

    /// Build the configuration: succeeds exactly when every field is set,
    /// else reports the first missing one as [`ConfigError::MissingField`].
    pub fn build(self) -> (r: Result<RithmicConfig, ConfigError>)
        ensures
            match first_missing_field(self@) {
                Some(name) => r matches Err(ConfigError::MissingField(f)) && f@ == name,
                None => r matches Ok(c) && config_is(c, self@.env->0, self@.url->0, self@.beta_url->0,
                    self@.user->0, self@.password->0, self@.system_name->0, self@.app_name->0,
                    self@.app_version->0),
            },
    {
        let env = match self.env {
            Some(v) => v,
            None => return Err(ConfigError::MissingField(owned("env"))),
        };
        let url = match self.url {
            Some(v) => v,
            None => return Err(ConfigError::MissingField(owned("url"))),
        };
        let beta_url = match self.beta_url {
            Some(v) => v,
            None => return Err(ConfigError::MissingField(owned("beta_url"))),
        };
        let user = match self.user {
            Some(v) => v,
            None => return Err(ConfigError::MissingField(owned("user"))),
        };
        let password = match self.password {
            Some(v) => v,
            None => return Err(ConfigError::MissingField(owned("password"))),
        };
        let system_name = match self.system_name {
            Some(v) => v,
            None => return Err(ConfigError::MissingField(owned("system_name"))),
        };
        let app_name = match self.app_name {
            Some(v) => v,
            None => return Err(ConfigError::MissingField(owned("app_name"))),
        };
        let app_version = match self.app_version {
            Some(v) => v,
            None => return Err(ConfigError::MissingField(owned("app_version"))),
        };
        Ok(RithmicConfig { url, beta_url, user, password, system_name, env, app_name, app_version })
    }
}

/// Optional configuration for plant login requests. Every field left `None`
/// keeps the library's default.
#[derive(Debug, Clone, Default)]
pub struct LoginConfig {
    /// Aggregated instead of tick-by-tick quotes; only the ticker plant uses it.
    pub aggregated_quotes: Option<bool>,
    /// MAC addresses reported at login.
    pub mac_addr: Option<Vec<String>>,
    /// Operating system version reported at login.
    pub os_version: Option<String>,
    /// Operating system platform reported at login.
    pub os_platform: Option<String>,
}

/// A lower-case ASCII letter in upper case; any other character as it is.
pub open spec fn ascii_upper(c: char) -> char {
    if 'a' <= c && c <= 'z' {
        ((c as u32) - 32) as char
    } else {
        c
    }
}

/// A text in upper case, letter by letter.
pub open spec fn upper(s: Seq<char>) -> Seq<char> {
    Seq::new(s.len(), |i: int| ascii_upper(s[i]))
}

/// Every variable an environment is configured from is named
/// `RITHMIC_<ENV>_<FIELD>`, `<ENV>` being the environment's shown name in
/// upper case: URL, alternative URL, user and password, then account id,
/// FCM id and IB id, in that order.
pub proof fn lemma_env_var_names_follow_the_pattern(env: RithmicEnv)
    ensures
        ({
            let p = "RITHMIC_"@ + upper(env_name(env));
            &&& config_var_names(env) == (p + "_URL"@, p + "_ALT_URL"@, p + "_USER"@, p + "_PW"@)
            &&& account_var_names(env) == (p + "_ACCOUNT_ID"@, p + "_FCM_ID"@, p + "_IB_ID"@)
        }),
{
    reveal_strlit("RITHMIC_");
    reveal_strlit("_URL");
    reveal_strlit("_ALT_URL");
    reveal_strlit("_USER");
    reveal_strlit("_PW");
    reveal_strlit("_ACCOUNT_ID");
    reveal_strlit("_FCM_ID");
    reveal_strlit("_IB_ID");
    reveal_strlit("demo");
    reveal_strlit("live");
    reveal_strlit("test");
    reveal_strlit("RITHMIC_DEMO_URL");
    reveal_strlit("RITHMIC_DEMO_ALT_URL");
    reveal_strlit("RITHMIC_DEMO_USER");
    reveal_strlit("RITHMIC_DEMO_PW");
    reveal_strlit("RITHMIC_DEMO_ACCOUNT_ID");
    reveal_strlit("RITHMIC_DEMO_FCM_ID");
    reveal_strlit("RITHMIC_DEMO_IB_ID");
    reveal_strlit("RITHMIC_LIVE_URL");
    reveal_strlit("RITHMIC_LIVE_ALT_URL");
    reveal_strlit("RITHMIC_LIVE_USER");
    reveal_strlit("RITHMIC_LIVE_PW");
    reveal_strlit("RITHMIC_LIVE_ACCOUNT_ID");
    reveal_strlit("RITHMIC_LIVE_FCM_ID");
    reveal_strlit("RITHMIC_LIVE_IB_ID");
    reveal_strlit("RITHMIC_TEST_URL");
    reveal_strlit("RITHMIC_TEST_ALT_URL");
    reveal_strlit("RITHMIC_TEST_USER");
    reveal_strlit("RITHMIC_TEST_PW");
    reveal_strlit("RITHMIC_TEST_ACCOUNT_ID");
    reveal_strlit("RITHMIC_TEST_FCM_ID");
    reveal_strlit("RITHMIC_TEST_IB_ID");
    let name = env_name(env);
    let u = upper(name);
    let p = "RITHMIC_"@ + u;
    match env {
        RithmicEnv::Demo => {
            assert(u =~= seq!['D', 'E', 'M', 'O']);
        },
        RithmicEnv::Live => {
            assert(u =~= seq!['L', 'I', 'V', 'E']);
        },
        RithmicEnv::Test => {
            assert(u =~= seq!['T', 'E', 'S', 'T']);
        },
    }
    assert(config_var_names(env).0 =~= p + "_URL"@);
    assert(config_var_names(env).1 =~= p + "_ALT_URL"@);
    assert(config_var_names(env).2 =~= p + "_USER"@);
    assert(config_var_names(env).3 =~= p + "_PW"@);
    assert(account_var_names(env).0 =~= p + "_ACCOUNT_ID"@);
    assert(account_var_names(env).1 =~= p + "_FCM_ID"@);
    assert(account_var_names(env).2 =~= p + "_IB_ID"@);
}

} // verus!
