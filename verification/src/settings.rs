//! What the service is told at its start.
use crate::text::{
    blank, decimal, is_blank, is_whitespace, law_decimal_reads_back,
    law_trimming_takes_only_the_margins, optional_text, parse_u64, trim, trimmed, u64_to_decimal,
    u64_value,
};
use vstd::prelude::*;

verus! {

/// Where the service listens unless it is told otherwise.
pub const DEFAULT_HTTP_HOST: &'static str = "0.0.0.0";

/// At which port the service listens unless it is told otherwise.
pub const DEFAULT_HTTP_PORT: &'static str = "8765";

/// Where the default recipient is stored unless it is told otherwise.
pub const DEFAULT_OPENID_FILE: &'static str = "data/recipient_openid";

/// The model of a [`SettingsError`].
pub enum SettingsErrorView {
    Missing(Seq<char>),
    InvalidPort,
}

/// Why the service does not start.
#[derive(Clone, Copy, Debug)]
pub enum SettingsError {
    /// This setting is missing or blank.
    Missing(&'static str),
    /// The port is not one.
    InvalidPort,
}

impl SettingsError {
    /// The model of the error.
    pub open spec fn view(&self) -> SettingsErrorView {
        match self {
            SettingsError::Missing(name) => SettingsErrorView::Missing(name@),
            SettingsError::InvalidPort => SettingsErrorView::InvalidPort,
        }
    }

    /// The error in words.
    pub fn message(&self) -> (r: String)
        ensures
            r@ == match self@ {
                SettingsErrorView::Missing(name) => "缺少环境变量: "@ + name,
                SettingsErrorView::InvalidPort => "QQBOT_HTTP_PORT 必须是有效端口"@,
            },
    {
        match self {
            SettingsError::Missing(name) => {
                let mut message = "缺少环境变量: ".to_owned();
                message.append(name);
                message
            },
            SettingsError::InvalidPort => "QQBOT_HTTP_PORT 必须是有效端口".to_owned(),
        }
    }
}

/// A setting without which the service does not start: the value without the whitespace around
/// it, where there is one and it is not blank.
pub open spec fn required(name: Seq<char>, value: Option<Seq<char>>) -> Result<
    Seq<char>,
    SettingsErrorView,
> {
    match value {
        Some(value) if !is_blank(value) => Ok(trimmed(value)),
        _ => Err(SettingsErrorView::Missing(name)),
    }
}

/// The number of a port that a text writes.
pub open spec fn port_value(text: Seq<char>) -> Option<u16> {
    match u64_value(text) {
        Some(number) => if number <= u16::MAX {
            Some(number as u16)
        } else {
            None
        },
        None => None,
    }
}

/// A text, or what stands for it where it is missing.
pub open spec fn or_default(value: Option<Seq<char>>, default: Seq<char>) -> Seq<char> {
    match value {
        Some(value) => value,
        None => default,
    }
}

/// A setting without which the service does not start.
pub fn read_required(name: &'static str, value: Option<&str>) -> (r: Result<String, SettingsError>)
    ensures
        required(name@, optional_text(value)) == match r {
            Ok(value) => Ok(value@),
            Err(error) => Err(error@),
        },
{
    match value {
        Some(value) => if blank(value) {
            Err(SettingsError::Missing(name))
        } else {
            Ok(trim(value).to_owned())
        },
        None => Err(SettingsError::Missing(name)),
    }
}

/// The model of [`Settings`].
pub struct SettingsView {
    pub app_id: Seq<char>,
    pub app_secret: Seq<char>,
    pub api_token: Seq<char>,
    pub address: Seq<char>,
}

/// The settings of the service.
pub struct Settings {
    pub app_id: String,
    pub app_secret: String,
    pub api_token: String,
    /// The host and the port to listen at.
    pub address: String,
}

/// The settings that the environment gives: the account and the token are required, and the
/// port, if given, must be one. The first complaint counts.
pub open spec fn settings_of(
    app_id: Option<Seq<char>>,
    app_secret: Option<Seq<char>>,
    api_token: Option<Seq<char>>,
    host: Option<Seq<char>>,
    port: Option<Seq<char>>,
) -> Result<SettingsView, SettingsErrorView> {
    match (
        required("QQBOT_APP_ID"@, app_id),
        required("QQBOT_APP_SECRET"@, app_secret),
        required("QQBOT_API_TOKEN"@, api_token),
        port_value(or_default(port, DEFAULT_HTTP_PORT@)),
    ) {
        (Err(error), _, _, _) => Err(error),
        (Ok(_), Err(error), _, _) => Err(error),
        (Ok(_), Ok(_), Err(error), _) => Err(error),
        (Ok(_), Ok(_), Ok(_), None) => Err(SettingsErrorView::InvalidPort),
        (Ok(app_id), Ok(app_secret), Ok(api_token), Some(port)) => Ok(
            SettingsView {
                app_id,
                app_secret,
                api_token,
                address: or_default(host, DEFAULT_HTTP_HOST@) + ":"@ + decimal(port as nat),
            },
        ),
    }
}

impl Settings {
    /// The model of the settings.
    pub open spec fn view(&self) -> SettingsView {
        SettingsView {
            app_id: self.app_id@,
            app_secret: self.app_secret@,
            api_token: self.api_token@,
            address: self.address@,
        }
    }

    /// The settings that the environment gives.
    pub fn from_environment(
        app_id: Option<&str>,
        app_secret: Option<&str>,
        api_token: Option<&str>,
        host: Option<&str>,
        port: Option<&str>,
    ) -> (r: Result<Settings, SettingsError>)
        ensures
            settings_of(
                optional_text(app_id),
                optional_text(app_secret),
                optional_text(api_token),
                optional_text(host),
                optional_text(port),
            ) == match r {
                Ok(settings) => Ok(settings@),
                Err(error) => Err(error@),
            },
    {
        let app_id = match read_required("QQBOT_APP_ID", app_id) {
            Ok(value) => value,
            Err(error) => {
                return Err(error);
            },
        };
        let app_secret = match read_required("QQBOT_APP_SECRET", app_secret) {
            Ok(value) => value,
            Err(error) => {
                return Err(error);
            },
        };
        let api_token = match read_required("QQBOT_API_TOKEN", api_token) {
            Ok(value) => value,
            Err(error) => {
                return Err(error);
            },
        };
        let port = match port {
            Some(text) => text,
            None => DEFAULT_HTTP_PORT,
        };
        let number: u64 = match parse_u64(port) {
            Some(number) if number <= 65_535 => number,
            _ => {
                return Err(SettingsError::InvalidPort);
            },
        };
        let host = match host {
            Some(host) => host,
            None => DEFAULT_HTTP_HOST,
        };
        let mut address = host.to_owned();
        address.append(":");
        address.append(u64_to_decimal(number).as_str());
        Ok(Settings { app_id, app_secret, api_token, address })
    }
}

/// A required setting is what stands between the whitespace around it; one that is missing or
/// blank is complained of by its name.
pub proof fn law_required_setting_is_trimmed(
    name: Seq<char>,
    before: Seq<char>,
    value: Seq<char>,
    after: Seq<char>,
)
    requires
        is_blank(before),
        is_blank(after),
        value.len() > 0,
        !is_whitespace(value.first()),
        !is_whitespace(value.last()),
    ensures
        required(name, Some(before + value + after)) == Ok::<_, SettingsErrorView>(value),
        required(name, Some(before)) == Err::<Seq<char>, _>(SettingsErrorView::Missing(name)),
        required(name, None) == Err::<Seq<char>, _>(SettingsErrorView::Missing(name)),
{
    law_trimming_takes_only_the_margins(before, value, after);
}

/// A port is a number of at most 65535: written in decimal it is that number, and a larger one is
/// none.
pub proof fn law_port_fits_in_sixteen_bits(number: u64)
    ensures
        number <= 65_535 ==> port_value(decimal(number as nat)) == Some(number as u16),
        number > 65_535 ==> port_value(decimal(number as nat)) is None,
{
    law_decimal_reads_back(number);
}

proof fn lemma_default_port()
    ensures
        decimal(8765) == "8765"@,
{
    reveal_strlit("8765");
    assert(decimal(8) =~= seq!['8']);
    assert(decimal(87) =~= seq!['8', '7']);
    assert(decimal(876) =~= seq!['8', '7', '6']);
    assert(decimal(8765) =~= seq!['8', '7', '6', '5']);
    assert("8765"@ =~= seq!['8', '7', '6', '5']);
}

/// The service has the account and the token that it was given, each for what it is, and listens
/// at the host and the port that it was told, or else at 0.0.0.0 and 8765.
pub proof fn law_service_starts_as_it_was_told(
    app_id: Seq<char>,
    app_secret: Seq<char>,
    api_token: Seq<char>,
    host: Option<Seq<char>>,
    port: Option<u16>,
)
    requires
        app_id.len() > 0 && !is_whitespace(app_id.first()) && !is_whitespace(app_id.last()),
        app_secret.len() > 0 && !is_whitespace(app_secret.first()) && !is_whitespace(
            app_secret.last(),
        ),
        api_token.len() > 0 && !is_whitespace(api_token.first()) && !is_whitespace(
            api_token.last(),
        ),
    ensures
        settings_of(
            Some(app_id),
            Some(app_secret),
            Some(api_token),
            host,
            match port {
                Some(number) => Some(decimal(number as nat)),
                None => None,
            },
        ) matches Ok(settings) && {
            &&& settings.app_id == app_id
            &&& settings.app_secret == app_secret
            &&& settings.api_token == api_token
            &&& settings.address == (match host {
                Some(host) => host,
                None => "0.0.0.0"@,
            }) + ":"@ + (match port {
                Some(number) => decimal(number as nat),
                None => "8765"@,
            })
        },
{
    let none = Seq::<char>::empty();
    law_required_setting_is_trimmed("QQBOT_APP_ID"@, none, app_id, none);
    law_required_setting_is_trimmed("QQBOT_APP_SECRET"@, none, app_secret, none);
    law_required_setting_is_trimmed("QQBOT_API_TOKEN"@, none, api_token, none);
    assert(none + app_id + none =~= app_id);
    assert(none + app_secret + none =~= app_secret);
    assert(none + api_token + none =~= api_token);
    lemma_default_port();
    law_port_fits_in_sixteen_bits(8765);
    if let Some(number) = port {
        law_port_fits_in_sixteen_bits(number as u64);
    }
}

/// The first of the account's id, its secret and the token that is missing is complained of, and
/// only where all three are there a port that is none.
pub proof fn law_first_complaint_counts(
    app_id: Option<Seq<char>>,
    app_secret: Option<Seq<char>>,
    api_token: Option<Seq<char>>,
    host: Option<Seq<char>>,
    port: Option<Seq<char>>,
)
    ensures
        ({
            let no_id = app_id is None || is_blank(app_id->0);
            let no_secret = app_secret is None || is_blank(app_secret->0);
            let no_token = api_token is None || is_blank(api_token->0);
            let no_port = port is Some && (u64_value(port->0) is None || u64_value(port->0)->0
                > 65_535);
            match settings_of(app_id, app_secret, api_token, host, port) {
                Ok(_) => !no_id && !no_secret && !no_token && !no_port,
                Err(SettingsErrorView::Missing(name)) => {
                    ||| no_id && name == "QQBOT_APP_ID"@
                    ||| !no_id && no_secret && name == "QQBOT_APP_SECRET"@
                    ||| !no_id && !no_secret && no_token && name == "QQBOT_API_TOKEN"@
                },
                Err(SettingsErrorView::InvalidPort) => !no_id && !no_secret && !no_token && no_port,
            }
        }),
{
    lemma_default_port();
    law_port_fits_in_sixteen_bits(8765);
}

/// The settings are shown each as what it is.
pub proof fn law_settings_show_what_they_hold(settings: Settings)
    ensures
        settings@.app_id == settings.app_id@,
        settings@.app_secret == settings.app_secret@,
        settings@.api_token == settings.api_token@,
        settings@.address == settings.address@,
{
}

} // verus!
