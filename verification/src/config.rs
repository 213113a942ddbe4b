//! The configuration of instruments, data sources, reports and updates, and the
//! rules it must satisfy.
use crate::calendar::{chrono_ymd_text, Day};
use crate::text::{
    blank, chars_of, equals, is_blank, nonempty_trimmed, push_all, push_str, replace_all,
    replace_all_chars, string_of, trim, trim_str,
};
use vstd::prelude::*;

verus! {

#[derive(Debug, Clone)]
pub struct Config {
    pub database: DatabaseConfig,
    pub report: ReportConfig,
    pub providers: ProvidersConfig,
    pub update: UpdateConfig,
    pub instruments: Vec<InstrumentConfig>,
}

#[derive(Debug, Clone)]
pub struct DatabaseConfig {
    pub path: String,
}

#[derive(Debug, Clone)]
pub struct ReportConfig {
    pub output_dir: String,
    pub format: String,
    pub timezone: String,
    pub json_output: Option<String>,
    pub markdown_output: Option<String>,
    pub email: EmailConfig,
}

#[derive(Debug, Clone)]
pub struct EmailConfig {
    pub enabled: bool,
    pub smtp_host: String,
    pub smtp_port: u16,
    pub use_tls: bool,
    pub username: String,
    pub username_env: String,
    pub password: String,
    pub password_env: String,
    pub from: String,
    pub to: Vec<String>,
    pub subject: String,
    /// run-daily 生成报告后自动发送
    pub send_on_daily: bool,
}

#[derive(Debug, Clone)]
pub struct ProvidersConfig {
    pub stooq_enabled: bool,
    pub alpha_vantage_enabled: bool,
    pub eastmoney_enabled: bool,
    pub stooq: StooqConfig,
    pub alpha_vantage: AlphaVantageConfig,
    pub eastmoney: EastmoneyConfig,
}

#[derive(Debug, Clone)]
pub struct StooqConfig {
    pub api_key: String,
    pub api_key_env: String,
    pub base_url: String,
}

#[derive(Debug, Clone)]
pub struct AlphaVantageConfig {
    pub api_key: String,
    pub api_key_env: String,
    pub base_url: String,
}

#[derive(Debug, Clone)]
pub struct EastmoneyConfig {
    pub base_url: String,
    pub fund_base_url: String,
}

#[derive(Debug, Clone)]
pub struct UpdateConfig {
    pub default_lookback_days: i64,
    pub max_bootstrap_days: i64,
    pub retry_count: usize,
    pub retry_delay_ms: u64,
}

#[derive(Debug, Clone)]
pub struct InstrumentConfig {
    pub id: String,
    pub name: String,
    pub kind: InstrumentKind,
    pub market: String,
    pub currency: String,
    pub timezone: String,
    pub provider: String,
    pub alpha_vantage_symbol: Option<String>,
    pub stooq_symbol: Option<String>,
    pub eastmoney_secid: Option<String>,
    pub eastmoney_fund_code: Option<String>,
}

#[derive(Clone, Copy, Debug, PartialEq, Eq, Structural)]
pub enum InstrumentKind {
    Index,
    Stock,
    Commodity,
    Etf,
}

impl InstrumentKind {
    /// The kind as the instruments table stores it: its name in lower case.
    pub open spec fn stored(self) -> Seq<char> {
        match self {
            InstrumentKind::Index => "index"@,
            InstrumentKind::Stock => "stock"@,
            InstrumentKind::Commodity => "commodity"@,
            InstrumentKind::Etf => "etf"@,
        }
    }

    pub fn stored_name(self) -> (s: &'static str)
        ensures
            s@ == self.stored(),
    {
        match self {
            InstrumentKind::Index => "index",
            InstrumentKind::Stock => "stock",
            InstrumentKind::Commodity => "commodity",
            InstrumentKind::Etf => "etf",
        }
    }
}

/// Why a configuration was refused.
#[derive(Debug)]
pub struct ConfigError {
    pub message: String,
}

pub open spec fn opt_view(o: Option<String>) -> Option<Seq<char>> {
    match o {
        Some(s) => Some(s@),
        None => None,
    }
}

/// The trimmed text, when it is not empty.
pub open spec fn nonempty_view(value: Seq<char>) -> Option<Seq<char>> {
    if trim(value).len() > 0 {
        Some(trim(value))
    } else {
        None
    }
}

/// A key or credential: the configured value when it is not blank, otherwise
/// what the environment variable holds.
pub open spec fn configured_or_env(value: Seq<char>, from_env: Option<Seq<char>>) -> Option<
    Seq<char>,
> {
    match nonempty_view(value) {
        Some(v) => Some(v),
        None => from_env,
    }
}

fn non_empty(value: &str) -> (r: Option<String>)
    ensures
        opt_view(r) == nonempty_view(value@),
{
    let trimmed = trim_str(value);
    if trimmed.len() > 0 {
        Some(string_of(&trimmed))
    } else {
        None
    }
}

fn configured_or(value: &str, from_env: Option<String>) -> (r: Option<String>)
    ensures
        opt_view(r) == configured_or_env(value@, opt_view(from_env)),
{
    match non_empty(value) {
        Some(v) => Some(v),
        None => from_env,
    }
}

fn err(message: Vec<char>) -> (r: Result<(), ConfigError>)
    ensures
        r matches Err(e) && e.message@ == message@,
{
    Err(ConfigError { message: string_of(&message) })
}

/// Why one instrument entry is refused, if it is.
pub open spec fn instrument_problem(i: InstrumentConfig) -> Option<Seq<char>> {
    if is_blank(i.id@) {
        Some("instrument id is required"@)
    } else if is_blank(i.name@) {
        Some("instrument "@ + i.id@ + " name is required"@)
    } else if i.provider@ == "stooq"@ && i.stooq_symbol is None {
        Some("instrument "@ + i.id@ + " uses stooq but stooq_symbol is missing"@)
    } else if i.provider@ == "alpha_vantage"@ && i.alpha_vantage_symbol is None {
        Some("instrument "@ + i.id@ + " uses alpha_vantage but alpha_symbol is missing"@)
    } else if i.provider@ == "eastmoney"@ || i.provider@ == "stooq"@ || i.provider@
        == "alpha_vantage"@ {
        None
    } else {
        Some("instrument "@ + i.id@ + " has unsupported provider "@ + i.provider@)
    }
}

/// The problem of the first refused entry.
pub open spec fn first_instrument_problem(s: Seq<InstrumentConfig>) -> Option<Seq<char>>
    decreases s.len(),
{
    if s.len() == 0 {
        None
    } else {
        match instrument_problem(s[0]) {
            Some(m) => Some(m),
            None => first_instrument_problem(s.drop_first()),
        }
    }
}

fn check_instrument(i: &InstrumentConfig) -> (r: Result<(), ConfigError>)
    ensures
        r is Ok <==> instrument_problem(*i) is None,
        r matches Err(e) ==> instrument_problem(*i) == Some(e.message@),
{
    if blank(i.id.as_str()) {
        return err(chars_of("instrument id is required"));
    }
    let id = chars_of(i.id.as_str());
    if blank(i.name.as_str()) {
        let mut m = chars_of("instrument ");
        push_all(&mut m, &id);
        push_str(&mut m, " name is required");
        return err(m);
    }
    let provider = chars_of(i.provider.as_str());
    if equals(&provider, "stooq") && i.stooq_symbol.is_none() {
        let mut m = chars_of("instrument ");
        push_all(&mut m, &id);
        push_str(&mut m, " uses stooq but stooq_symbol is missing");
        return err(m);
    }
    if equals(&provider, "alpha_vantage") && i.alpha_vantage_symbol.is_none() {
        let mut m = chars_of("instrument ");
        push_all(&mut m, &id);
        push_str(&mut m, " uses alpha_vantage but alpha_symbol is missing");
        return err(m);
    }
    if equals(&provider, "eastmoney") || equals(&provider, "stooq") || equals(&provider, "alpha_vantage") {
        return Ok(());
    }
    let mut m = chars_of("instrument ");
    push_all(&mut m, &id);
    push_str(&mut m, " has unsupported provider ");
    push_all(&mut m, &provider);
    err(m)
}

impl Config {
    /// Why the configuration is refused, if it is; the environment values are
    /// those of the variables that the email settings name.
    pub open spec fn problem(
        self,
        smtp_user_from_env: Option<Seq<char>>,
        smtp_password_from_env: Option<Seq<char>>,
    ) -> Option<Seq<char>> {
        if is_blank(self.database.path@) {
            Some("database.path is required"@)
        } else if self.instruments@.len() == 0 {
            Some("at least one [[instruments]] entry is required"@)
        } else if self.report.email.enabled && self.report.email.problem(
            smtp_user_from_env,
            smtp_password_from_env,
        ) is Some {
            self.report.email.problem(smtp_user_from_env, smtp_password_from_env)
        } else {
            first_instrument_problem(self.instruments@)
        }
    }

    /// Checks the configuration; `smtp_user_from_env` and
    /// `smtp_password_from_env` are the values of the environment variables
    /// named by `report.email.username_env` and `password_env`, if set.
    pub fn validate(
        &self,
        smtp_user_from_env: Option<String>,
        smtp_password_from_env: Option<String>,
    ) -> (r: Result<(), ConfigError>)
        ensures
            r is Ok <==> self.problem(opt_view(smtp_user_from_env), opt_view(smtp_password_from_env))
                is None,
            r matches Err(e) ==> self.problem(
                opt_view(smtp_user_from_env),
                opt_view(smtp_password_from_env),
            ) == Some(e.message@),
    {
        let ghost uv = opt_view(smtp_user_from_env);
        let ghost pv = opt_view(smtp_password_from_env);
        if blank(self.database.path.as_str()) {
            return err(chars_of("database.path is required"));
        }
        if self.instruments.len() == 0 {
            return err(chars_of("at least one [[instruments]] entry is required"));
        }
        if self.report.email.enabled {
            match self.report.email.validate(smtp_user_from_env, smtp_password_from_env) {
                Ok(()) => {},
                Err(e) => {
                    return Err(e);
                },
            }
        }
        let ghost s = self.instruments@;
        let mut i: usize = 0;
        assert(s.skip(0) == s);
        while i < self.instruments.len()
            invariant
                i <= s.len(),
                s == self.instruments@,
                first_instrument_problem(s) == first_instrument_problem(s.skip(i as int)),
                self.problem(uv, pv) == first_instrument_problem(s),
                uv == opt_view(smtp_user_from_env),
                pv == opt_view(smtp_password_from_env),
            decreases s.len() - i,
        {
            assert(s.skip(i as int)[0] == s[i as int]);
            assert(s.skip(i as int).drop_first() == s.skip(i + 1));
            let checked = check_instrument(&self.instruments[i]);
            assert(s.skip(i as int).len() > 0);
            assert(self.instruments[i as int] == s.skip(i as int)[0]);
            match checked {
                Ok(()) => {},
                Err(e) => {
                    assert(first_instrument_problem(s.skip(i as int)) == Some(e.message@));
                    return Err(e);
                },
            }
            i = i + 1;
        }
        Ok(())
    }

    /// Position of the first instrument with this id.
    pub open spec fn position_of(s: Seq<InstrumentConfig>, id: Seq<char>) -> Option<int>
        decreases s.len(),
    {
        if s.len() == 0 {
            None
        } else if s.last().id@ == id && Self::position_of(s.drop_last(), id) is None {
            Some(s.len() - 1)
        } else {
            Self::position_of(s.drop_last(), id)
        }
    }

    pub proof fn lemma_position_of(s: Seq<InstrumentConfig>, id: Seq<char>)
        ensures
            Self::position_of(s, id) matches Some(k) ==> 0 <= k < s.len() && s[k].id@ == id
                && forall|j: int| 0 <= j < k ==> s[j].id@ != id,
            Self::position_of(s, id) is None ==> forall|j: int| 0 <= j < s.len() ==> s[j].id@ != id,
        decreases s.len(),
    {
        if s.len() > 0 {
            let init = s.drop_last();
            Self::lemma_position_of(init, id);
            assert(forall|j: int| 0 <= j < init.len() ==> init[j] == s[j]);
        }
    }

    /// The first configured instrument with this id.
    pub fn instrument(&self, id: &str) -> (r: Result<&InstrumentConfig, ConfigError>)
        ensures
            r matches Ok(i) ==> Self::position_of(self.instruments@, id@) matches Some(k) && *i
                == self.instruments@[k],
            r is Err <==> Self::position_of(self.instruments@, id@) is None,
            r matches Err(e) ==> e.message@ == "instrument "@ + id@ + " not found in config"@,
    {
        let want = chars_of(id);
        let ghost s = self.instruments@;
        let mut i: usize = 0;
        while i < self.instruments.len()
            invariant
                i <= s.len(),
                s == self.instruments@,
                want@ == id@,
                forall|j: int| 0 <= j < i ==> s[j].id@ != id@,
            decreases s.len() - i,
        {
            let have = chars_of(self.instruments[i].id.as_str());
            if crate::text::same_chars(&have, &want) {
                proof {
                    Self::lemma_position_of(s, id@);
                    Self::lemma_position_of(s.take(i + 1), id@);
                    assert(s.take(i + 1).drop_last() == s.take(i as int));
                    Self::lemma_position_of(s.take(i as int), id@);
                    assert(Self::position_of(s, id@) == Some(i as int));
                }
                return Ok(&self.instruments[i]);
            }
            i = i + 1;
        }
        proof {
            Self::lemma_position_of(s, id@);
            if Self::position_of(s, id@) is Some {
                let k = Self::position_of(s, id@)->0;
                assert(s[k].id@ == id@);
            }
        }
        let mut m = chars_of("instrument ");
        push_str(&mut m, id);
        push_str(&mut m, " not found in config");
        Err(ConfigError { message: string_of(&m) })
    }

    /// Where the Markdown report of a date is written.
    pub open spec fn markdown_path(self, date: Day) -> Seq<char> {
        match self.report.markdown_output {
            Some(p) => p@,
            None => self.report.output_dir@ + "/"@ + chrono_ymd_text(date.index()) + ".md"@,
        }
    }

    /// Where the JSON report of a date is written.
    pub open spec fn json_path(self, date: Day) -> Seq<char> {
        match self.report.json_output {
            Some(p) => p@,
            None => self.report.output_dir@ + "/"@ + chrono_ymd_text(date.index()) + ".json"@,
        }
    }

    pub fn report_markdown_path(&self, date: Day) -> (s: String)
        ensures
            s@ == self.markdown_path(date),
    {
        match &self.report.markdown_output {
            Some(p) => p.clone(),
            None => {
                let mut out = chars_of(self.report.output_dir.as_str());
                push_str(&mut out, "/");
                let d = date.ymd_text();
                push_str(&mut out, d.as_str());
                push_str(&mut out, ".md");
                string_of(&out)
            },
        }
    }

    pub fn report_json_path(&self, date: Day) -> (s: String)
        ensures
            s@ == self.json_path(date),
    {
        match &self.report.json_output {
            Some(p) => p.clone(),
            None => {
                let mut out = chars_of(self.report.output_dir.as_str());
                push_str(&mut out, "/");
                let d = date.ymd_text();
                push_str(&mut out, d.as_str());
                push_str(&mut out, ".json");
                string_of(&out)
            },
        }
    }

    /// The Alpha Vantage key; `from_env` is the value of the variable named by
    /// `providers.alpha_vantage.api_key_env`, if set.
    pub fn alpha_api_key(&self, from_env: Option<String>) -> (r: Option<String>)
        ensures
            opt_view(r) == configured_or_env(
                self.providers.alpha_vantage.api_key@,
                opt_view(from_env),
            ),
    {
        configured_or(self.providers.alpha_vantage.api_key.as_str(), from_env)
    }

    /// The Stooq key; `from_env` is the value of the variable named by
    /// `providers.stooq.api_key_env`, if set.
    pub fn stooq_api_key(&self, from_env: Option<String>) -> (r: Option<String>)
        ensures
            opt_view(r) == configured_or_env(self.providers.stooq.api_key@, opt_view(from_env)),
    {
        configured_or(self.providers.stooq.api_key.as_str(), from_env)
    }
}

/// Every address is blank.
pub open spec fn all_blank(to: Seq<String>) -> bool {
    forall|k: int| 0 <= k < to.len() ==> is_blank(#[trigger] to[k]@)
}

pub open spec fn views(s: Seq<String>) -> Seq<Seq<char>> {
    Seq::new(s.len(), |k: int| s[k]@)
}

impl EmailConfig {
    /// Why the email settings are refused, if they are.
    pub open spec fn problem(
        self,
        user_from_env: Option<Seq<char>>,
        password_from_env: Option<Seq<char>>,
    ) -> Option<Seq<char>> {
        if is_blank(self.smtp_host@) {
            Some("report.email.smtp_host is required when email is enabled"@)
        } else if is_blank(self.from@) {
            Some("report.email.from is required when email is enabled"@)
        } else if all_blank(self.to@) {
            Some("report.email.to must contain at least one address when email is enabled"@)
        } else if configured_or_env(self.username@, user_from_env) is None {
            Some(
                "report.email.username or env "@ + self.username_env@
                    + " is required when email is enabled"@,
            )
        } else if configured_or_env(self.password@, password_from_env) is None {
            Some(
                "report.email.password or env "@ + self.password_env@
                    + " is required when email is enabled"@,
            )
        } else {
            None
        }
    }

    /// Checks the settings needed to send mail; the two values are those of the
    /// environment variables named by `username_env` and `password_env`.
    pub fn validate(&self, user_from_env: Option<String>, password_from_env: Option<String>) -> (r:
        Result<(), ConfigError>)
        ensures
            r is Ok <==> self.problem(opt_view(user_from_env), opt_view(password_from_env)) is None,
            r matches Err(e) ==> self.problem(opt_view(user_from_env), opt_view(password_from_env))
                == Some(e.message@),
    {
        if blank(self.smtp_host.as_str()) {
            return err(chars_of("report.email.smtp_host is required when email is enabled"));
        }
        if blank(self.from.as_str()) {
            return err(chars_of("report.email.from is required when email is enabled"));
        }
        let mut i: usize = 0;
        let mut all = true;
        while i < self.to.len()
            invariant
                i <= self.to@.len(),
                all == forall|k: int| 0 <= k < i ==> is_blank(#[trigger] self.to@[k]@),
            decreases self.to@.len() - i,
        {
            if !blank(self.to[i].as_str()) {
                all = false;
            }
            i = i + 1;
        }
        if all {
            return err(
                chars_of(
                    "report.email.to must contain at least one address when email is enabled",
                ),
            );
        }
        if self.smtp_username(user_from_env).is_none() {
            let mut m = chars_of("report.email.username or env ");
            push_str(&mut m, self.username_env.as_str());
            push_str(&mut m, " is required when email is enabled");
            return err(m);
        }
        if self.smtp_password(password_from_env).is_none() {
            let mut m = chars_of("report.email.password or env ");
            push_str(&mut m, self.password_env.as_str());
            push_str(&mut m, " is required when email is enabled");
            return err(m);
        }
        Ok(())
    }

    pub fn smtp_username(&self, from_env: Option<String>) -> (r: Option<String>)
        ensures
            opt_view(r) == configured_or_env(self.username@, opt_view(from_env)),
    {
        configured_or(self.username.as_str(), from_env)
    }

    pub fn smtp_password(&self, from_env: Option<String>) -> (r: Option<String>)
        ensures
            opt_view(r) == configured_or_env(self.password@, opt_view(from_env)),
    {
        configured_or(self.password.as_str(), from_env)
    }

    /// The subject with every `{date}` replaced by the date.
    pub open spec fn subject_of(self, date: Day) -> Seq<char> {
        replace_all(self.subject@, "{date}"@, chrono_ymd_text(date.index()))
    }

    pub fn subject_for(&self, date: Day) -> (s: String)
        ensures
            s@ == self.subject_of(date),
    {
        let subject = chars_of(self.subject.as_str());
        let pat = chars_of("{date}");
        proof {
            reveal_strlit("{date}");
        }
        let d = date.ymd_text();
        let with = chars_of(d.as_str());
        let out = replace_all_chars(&subject, &pat, &with);
        string_of(&out)
    }

    /// The addresses to send to: each trimmed, blank ones left out.
    pub fn recipients(&self) -> (r: Vec<String>)
        ensures
            r@.len() == nonempty_trimmed(views(self.to@)).len(),
            forall|k: int| 0 <= k < r@.len() ==> #[trigger] r@[k]@ == nonempty_trimmed(
                views(self.to@),
            )[k],
    {
        let ghost all = views(self.to@);
        let mut out: Vec<String> = Vec::new();
        let mut i: usize = 0;
        while i < self.to.len()
            invariant
                i <= self.to@.len(),
                all == views(self.to@),
                out@.len() == nonempty_trimmed(all.take(i as int)).len(),
                forall|k: int| 0 <= k < out@.len() ==> #[trigger] out@[k]@ == nonempty_trimmed(
                    all.take(i as int),
                )[k],
            decreases self.to@.len() - i,
        {
            assert(all.take(i + 1).drop_last() == all.take(i as int));
            assert(all.take(i + 1).last() == self.to@[i as int]@);
            let t = trim_str(self.to[i].as_str());
            if t.len() > 0 {
                out.push(string_of(&t));
            }
            i = i + 1;
        }
        assert(all.take(self.to@.len() as int) == all);
        out
    }
}

impl InstrumentConfig {
    pub fn daily_provider(&self) -> (s: &str)
        ensures
            s@ == self.provider@,
    {
        self.provider.as_str()
    }

    pub fn history_provider(&self) -> (s: &str)
        ensures
            s@ == self.provider@,
    {
        self.provider.as_str()
    }
}

pub fn default_true() -> (b: bool)
    ensures
        b,
{
    true
}

pub fn default_output_dir() -> (s: String)
    ensures
        s@ == "reports"@,
{
    "reports".to_owned()
}

pub fn default_report_format() -> (s: String)
    ensures
        s@ == "markdown"@,
{
    "markdown".to_owned()
}

pub fn default_timezone() -> (s: String)
    ensures
        s@ == "UTC"@,
{
    "UTC".to_owned()
}

pub fn default_currency() -> (s: String)
    ensures
        s@ == "USD"@,
{
    "USD".to_owned()
}

pub fn default_stooq_api_key_env() -> (s: String)
    ensures
        s@ == "STOOQ_API_KEY"@,
{
    "STOOQ_API_KEY".to_owned()
}

pub fn default_alpha_api_key_env() -> (s: String)
    ensures
        s@ == "ALPHA_VANTAGE_API_KEY"@,
{
    "ALPHA_VANTAGE_API_KEY".to_owned()
}

pub fn default_stooq_base_url() -> (s: String)
    ensures
        s@ == "https://stooq.com/q/d/l/"@,
{
    "https://stooq.com/q/d/l/".to_owned()
}

pub fn default_alpha_base_url() -> (s: String)
    ensures
        s@ == "https://www.alphavantage.co/query"@,
{
    "https://www.alphavantage.co/query".to_owned()
}

pub fn default_eastmoney_base_url() -> (s: String)
    ensures
        s@ == "https://push2his.eastmoney.com/api/qt/stock/kline/get"@,
{
    "https://push2his.eastmoney.com/api/qt/stock/kline/get".to_owned()
}

pub fn default_eastmoney_fund_base_url() -> (s: String)
    ensures
        s@ == "https://fund.eastmoney.com/pingzhongdata"@,
{
    "https://fund.eastmoney.com/pingzhongdata".to_owned()
}

pub fn default_lookback_days() -> (n: i64)
    ensures
        n == 7,
{
    7
}

pub fn default_max_bootstrap_days() -> (n: i64)
    ensures
        n == 5000,
{
    5000
}

pub fn default_retry_count() -> (n: usize)
    ensures
        n == 2,
{
    2
}

pub fn default_retry_delay_ms() -> (n: u64)
    ensures
        n == 1000,
{
    1000
}

pub fn default_smtp_port() -> (n: u16)
    ensures
        n == 587,
{
    587
}

pub fn default_smtp_username_env() -> (s: String)
    ensures
        s@ == "MARKETFEED_SMTP_USER"@,
{
    "MARKETFEED_SMTP_USER".to_owned()
}

pub fn default_smtp_password_env() -> (s: String)
    ensures
        s@ == "MARKETFEED_SMTP_PASS"@,
{
    "MARKETFEED_SMTP_PASS".to_owned()
}

pub fn default_email_subject() -> (s: String)
    ensures
        s@ == "市场行情日报 {date}"@,
{
    "市场行情日报 {date}".to_owned()
}

impl Default for ReportConfig {
    fn default() -> (r: Self)
        ensures
            r.output_dir@ == "reports"@,
            r.format@ == "markdown"@,
            r.timezone@ == "UTC"@,
            r.json_output is None,
            r.markdown_output is None,
            r.email.is_default(),
    {
        ReportConfig {
            output_dir: default_output_dir(),
            format: default_report_format(),
            timezone: default_timezone(),
            json_output: None,
            markdown_output: None,
            email: EmailConfig::default(),
        }
    }
}

impl EmailConfig {
    /// The settings used when the configuration leaves email out.
    pub open spec fn is_default(self) -> bool {
        &&& !self.enabled
        &&& self.smtp_host@ == Seq::<char>::empty()
        &&& self.smtp_port == 587
        &&& self.use_tls
        &&& self.username@ == Seq::<char>::empty()
        &&& self.username_env@ == "MARKETFEED_SMTP_USER"@
        &&& self.password@ == Seq::<char>::empty()
        &&& self.password_env@ == "MARKETFEED_SMTP_PASS"@
        &&& self.from@ == Seq::<char>::empty()
        &&& self.to@.len() == 0
        &&& self.subject@ == "市场行情日报 {date}"@
        &&& self.send_on_daily
    }
}

impl Default for EmailConfig {
    fn default() -> (r: Self)
        ensures
            r.is_default(),
    {
        EmailConfig {
            enabled: false,
            smtp_host: String::new(),
            smtp_port: default_smtp_port(),
            use_tls: default_true(),
            username: String::new(),
            username_env: default_smtp_username_env(),
            password: String::new(),
            password_env: default_smtp_password_env(),
            from: String::new(),
            to: Vec::new(),
            subject: default_email_subject(),
            send_on_daily: default_true(),
        }
    }
}

impl Default for ProvidersConfig {
    fn default() -> (r: Self)
        ensures
            r.stooq_enabled && r.alpha_vantage_enabled && r.eastmoney_enabled,
            r.stooq.api_key@ == Seq::<char>::empty(),
            r.stooq.api_key_env@ == "STOOQ_API_KEY"@,
            r.stooq.base_url@ == "https://stooq.com/q/d/l/"@,
            r.alpha_vantage.api_key@ == Seq::<char>::empty(),
            r.alpha_vantage.api_key_env@ == "ALPHA_VANTAGE_API_KEY"@,
            r.alpha_vantage.base_url@ == "https://www.alphavantage.co/query"@,
            r.eastmoney.base_url@ == "https://push2his.eastmoney.com/api/qt/stock/kline/get"@,
            r.eastmoney.fund_base_url@ == "https://fund.eastmoney.com/pingzhongdata"@,
    {
        ProvidersConfig {
            stooq_enabled: default_true(),
            alpha_vantage_enabled: default_true(),
            eastmoney_enabled: default_true(),
            stooq: StooqConfig::default(),
            alpha_vantage: AlphaVantageConfig::default(),
            eastmoney: EastmoneyConfig::default(),
        }
    }
}

impl Default for StooqConfig {
    fn default() -> (r: Self)
        ensures
            r.api_key@ == Seq::<char>::empty(),
            r.api_key_env@ == "STOOQ_API_KEY"@,
            r.base_url@ == "https://stooq.com/q/d/l/"@,
    {
        StooqConfig {
            api_key: String::new(),
            api_key_env: default_stooq_api_key_env(),
            base_url: default_stooq_base_url(),
        }
    }
}

impl Default for AlphaVantageConfig {
    fn default() -> (r: Self)
        ensures
            r.api_key@ == Seq::<char>::empty(),
            r.api_key_env@ == "ALPHA_VANTAGE_API_KEY"@,
            r.base_url@ == "https://www.alphavantage.co/query"@,
    {
        AlphaVantageConfig {
            api_key: String::new(),
            api_key_env: default_alpha_api_key_env(),
            base_url: default_alpha_base_url(),
        }
    }
}

impl Default for EastmoneyConfig {
    fn default() -> (r: Self)
        ensures
            r.base_url@ == "https://push2his.eastmoney.com/api/qt/stock/kline/get"@,
            r.fund_base_url@ == "https://fund.eastmoney.com/pingzhongdata"@,
    {
        EastmoneyConfig {
            base_url: default_eastmoney_base_url(),
            fund_base_url: default_eastmoney_fund_base_url(),
        }
    }
}

impl Default for UpdateConfig {
    fn default() -> (r: Self)
        ensures
            r.default_lookback_days == 7,
            r.max_bootstrap_days == 5000,
            r.retry_count == 2,
            r.retry_delay_ms == 1000,
    {
        UpdateConfig {
            default_lookback_days: default_lookback_days(),
            max_bootstrap_days: default_max_bootstrap_days(),
            retry_count: default_retry_count(),
            retry_delay_ms: default_retry_delay_ms(),
        }
    }
}

} // verus!
