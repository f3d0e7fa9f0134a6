//! The command-line client's logic: its error type, the settings it resolves
//! from its arguments and environment, and what it does with each step of an
//! exchange with the server.

use vstd::prelude::*;
use vstd::std_specs::convert::FromSpecImpl;
use crate::shared::{EnvValue, HttpErrorFacts, RequestId, Timestamp, TypeError, is_clock_time, is_generated_uuid_text, is_hyphenated_v4_uuid, is_read_from_clock};
use crate::server_api::StatusRequest;

verus! {

/// Errors in the client.
#[derive(Debug, Clone, PartialEq, Eq)]
#[non_exhaustive]
pub enum ClientError {
    /// Wrap a TypeError
    TypeError(TypeError),
    /// Error connecting to server
    ServerConnectionError(String),
}

impl ClientError {
    /// The text the error is displayed as.
    pub open spec fn display_text(self) -> Seq<char> {
        match self {
            ClientError::TypeError(e) => e.display_text(),
            ClientError::ServerConnectionError(m) => "Server Connection error: "@ + m@,
        }
    }

    /// The text the error is shown as when debugging: the wrapped type
    /// error's displayed text, or the connection error's message.
    pub open spec fn debug_text(self) -> Seq<char> {
        match self {
            ClientError::TypeError(e) => e.display_text(),
            ClientError::ServerConnectionError(m) => m@,
        }
    }

    /// The error is a wrapped validation error with the given message.
    pub open spec fn is_validation_error(self, message: Seq<char>) -> bool {
        &&& self matches ClientError::TypeError(e)
        &&& e is ValidationError
        &&& e.message_of() == message
    }

    /// The text the error is displayed as.
    pub fn to_string(&self) -> (s: String)
        ensures
            s@ == self.display_text(),
    {
        match self {
            ClientError::TypeError(e) => e.to_string(),
            ClientError::ServerConnectionError(m) => {
                let mut s = String::from_str("Server Connection error: ");
                s.append(m.as_str());
                s
            }
        }
    }

    /// The text the error is shown as when debugging.
    pub fn debug_string(&self) -> (s: String)
        ensures
            s@ == self.debug_text(),
    {
        match self {
            ClientError::TypeError(e) => e.to_string(),
            ClientError::ServerConnectionError(m) => m.clone(),
        }
    }

    /// The error for a failed read or write, given the failure's message.
    pub fn from_io_error_text(text: &str) -> (e: ClientError)
        ensures
            e matches ClientError::TypeError(t) && t is InputOutputError
                && t.message_of() == "IO Error: "@ + text@,
    {
        ClientError::TypeError(TypeError::from_io_error_text(text))
    }

    /// The error for a text that is no URL, given the parser's message.
    pub fn from_url_parse_error_text(text: &str) -> (e: ClientError)
        ensures
            e.is_validation_error("Error parsing URL: "@ + text@),
    {
        ClientError::TypeError(TypeError::from_url_parse_error_text(text))
    }

    /// The text of the error a failed HTTP client operation makes.
    pub open spec fn http_error_display(facts: HttpErrorFacts) -> Seq<char> {
        if facts.is_builder {
            "Validation Error: "@ + facts.message@
        } else if facts.is_body || facts.is_decode {
            "Type Conversion Error: "@ + facts.message@
        } else {
            "Server Connection error: "@ + "Error sending request to web_service server: "@ + facts.root_cause@
        }
    }

    /// The error for a failed HTTP client operation: where building the
    /// request, or reading or decoding a body, failed, the type error that
    /// failure makes; otherwise a connection error that names the failure and
    /// its causes.
    pub fn from_http_error(facts: &HttpErrorFacts) -> (e: ClientError)
        ensures
            (facts.is_builder || facts.is_body || facts.is_decode) ==> (e matches ClientError::TypeError(t)
                && t.message_of() == facts.message@
                && (facts.is_builder ==> t is ValidationError)
                && (!facts.is_builder ==> t is ConversionError)),
            !(facts.is_builder || facts.is_body || facts.is_decode) ==> (e matches ClientError::ServerConnectionError(m)
                && m@ == "Error sending request to web_service server: "@ + facts.root_cause@),
            e.display_text() == Self::http_error_display(*facts),
    {
        if facts.is_builder || facts.is_body || facts.is_decode {
            ClientError::TypeError(TypeError::from_http_error(facts))
        } else {
            let mut m = String::from_str("Error sending request to web_service server: ");
            m.append(facts.root_cause.as_str());
            ClientError::ServerConnectionError(m)
        }
    }
}

impl From<TypeError> for ClientError {
    fn from(error: TypeError) -> (e: ClientError) {
        ClientError::TypeError(error)
    }
}

impl FromSpecImpl<TypeError> for ClientError {
    open spec fn obeys_from_spec() -> bool {
        true
    }

    open spec fn from_spec(error: TypeError) -> ClientError {
        ClientError::TypeError(error)
    }
}

// *** URLs ***

#[verifier::external_type_specification]
#[verifier::external_body]
pub struct ExUrl(url::Url);

/// What `url::Url::parse` makes of a text: the parsed URL's serialization
/// (`Url::as_str`), or its error's message.
pub uninterp spec fn url_parse(text: Seq<char>) -> Result<Seq<char>, Seq<char>>;

/// What `url::Url::join` makes of a path on the URL whose serialization is
/// `base`: the joined URL's serialization, or its error's message.
pub uninterp spec fn url_join(base: Seq<char>, path: Seq<char>) -> Result<Seq<char>, Seq<char>>;

/// A URL as the `url` crate parsed it, with its serialization. Only the two
/// wrappers of `Url::parse` and `Url::join` below make one, and each stores
/// `url.as_str()` beside the URL; a URL is determined by its serialization,
/// so the text stands for the whole URL.
#[derive(Debug)]
pub struct ServerUrl {
    url: url::Url,
    text: String,
}

impl View for ServerUrl {
    type V = Seq<char>;

    /// The URL's serialization.
    closed spec fn view(&self) -> Seq<char> {
        self.text@
    }
}

impl ServerUrl {
    /// The URL's serialization.
    pub fn as_str(&self) -> (s: &str)
        ensures
            s@ == self@,
    {
        self.text.as_str()
    }

    /// The URL itself, to hand to an HTTP client.
    pub fn url(&self) -> &url::Url {
        &self.url
    }
}

/// `url::Url::parse`, the URL kept with its serialization, the error read
/// back as its message. Claimed: the outcome and its text are `url_parse`
/// of the text.
#[verifier::external_body]
fn parse_url(text: &str) -> (parsed: Result<ServerUrl, String>)
    ensures
        parsed is Ok <==> url_parse(text@) is Ok,
        parsed is Ok ==> parsed->Ok_0@ == url_parse(text@)->Ok_0,
        parsed is Err ==> parsed->Err_0@ == url_parse(text@)->Err_0,
{
    match url::Url::parse(text) {
        Ok(url) => Ok(ServerUrl { text: url.as_str().to_string(), url }),
        Err(error) => Err(error.to_string()),
    }
}

/// `url::Url::join` of a path onto a URL, the joined URL kept with its
/// serialization, the error read back as its message. Claimed: the outcome
/// and its text are `url_join` of the base URL's serialization and the path.
#[verifier::external_body]
fn join_url(base: &ServerUrl, path: &str) -> (joined: Result<ServerUrl, String>)
    ensures
        joined is Ok <==> url_join(base@, path@) is Ok,
        joined is Ok ==> joined->Ok_0@ == url_join(base@, path@)->Ok_0,
        joined is Err ==> joined->Err_0@ == url_join(base@, path@)->Err_0,
{
    match base.url.join(path) {
        Ok(url) => Ok(ServerUrl { text: url.as_str().to_string(), url }),
        Err(error) => Err(error.to_string()),
    }
}

/// What reading a text as the server's URL gives: the parsed URL's
/// serialization, or the validation error's message.
pub open spec fn server_url_outcome(text: Seq<char>) -> Result<Seq<char>, Seq<char>> {
    match url_parse(text) {
        Ok(serialization) => Ok(serialization),
        Err(message) => Err("Error parsing URL: "@ + message),
    }
}

/// The result matches an outcome: an URL of the outcome's serialization, or a
/// validation error of the outcome's message.
pub open spec fn url_result_matches(r: Result<ServerUrl, ClientError>, outcome: Result<Seq<char>, Seq<char>>) -> bool {
    match outcome {
        Ok(serialization) => r is Ok && r->Ok_0@ == serialization,
        Err(message) => r is Err && r->Err_0.is_validation_error(message),
    }
}

/// The URL of a text, or the validation error that reports why it is none.
pub fn parse_server_url(text: &str) -> (r: Result<ServerUrl, ClientError>)
    ensures
        url_result_matches(r, server_url_outcome(text@)),
{
    match parse_url(text) {
        Ok(url) => Ok(url),
        Err(message) => Err(ClientError::from_url_parse_error_text(message.as_str())),
    }
}

/// The environment variable that names the server's URL.
pub const WEB_SERVICE_SERVER_URL: &'static str = "WEB_SERVICE_SERVER_URL";

/// The message of the error for a server URL given neither way.
pub open spec fn missing_url_message(details: Seq<char>) -> Seq<char> {
    "No web_service server URL provided! Use --web_service-server-url argument or set WEB_SERVICE_SERVER_URL environment variable.  Details: "@
        + details
}

/// Get the web_service server URL in priority order: 1) command line
/// argument, 2) environment variable. The chosen text must parse as a URL; a
/// validation error reports a URL given neither way.
pub fn get_web_service_server_url(arg: Option<String>, env: EnvValue) -> (r: Result<ServerUrl, ClientError>)
    ensures
        arg matches Some(text) ==> url_result_matches(r, server_url_outcome(text@)),
        arg is None ==> match env {
            EnvValue::Present(text) => url_result_matches(r, server_url_outcome(text@)),
            EnvValue::NotPresent(details) => r is Err && r->Err_0.is_validation_error(missing_url_message(details@)),
            EnvValue::NotUnicode(details) => r is Err && r->Err_0.is_validation_error(missing_url_message(details@)),
        },
{
    match arg {
        Some(text) => parse_server_url(text.as_str()),
        None => match env {
            EnvValue::Present(text) => parse_server_url(text.as_str()),
            EnvValue::NotPresent(details) | EnvValue::NotUnicode(details) => {
                let mut m = String::from_str(
                    "No web_service server URL provided! Use --web_service-server-url argument or set WEB_SERVICE_SERVER_URL environment variable.  Details: ",
                );
                m.append(details.as_str());
                Err(ClientError::TypeError(TypeError::ValidationError(m)))
            }
        },
    }
}

/// What joining a server path onto the server's URL gives: the joined URL's
/// serialization, or the validation error's message.
pub open spec fn request_url_outcome(base: Seq<char>, path: Seq<char>) -> Result<Seq<char>, Seq<char>> {
    match url_join(base, path) {
        Ok(serialization) => Ok(serialization),
        Err(message) => Err("Error parsing URL: "@ + message),
    }
}

/// The URL of a request: the server path joined onto the server's URL, or
/// the validation error that reports why the two do not join.
pub fn request_url(server_url: &ServerUrl, server_path: &str) -> (r: Result<ServerUrl, ClientError>)
    ensures
        url_result_matches(r, request_url_outcome(server_url@, server_path@)),
{
    match join_url(server_url, server_path) {
        Ok(url) => Ok(url),
        Err(message) => Err(ClientError::from_url_parse_error_text(message.as_str())),
    }
}

// *** Files named by arguments or the environment ***

/// The environment variable that names a file of server certificates.
pub const WEB_SERVICE_SERVER_CERTIFICATES: &'static str = "WEB_SERVICE_SERVER_CERTIFICATES";

/// The environment variable that names the file of the client's identity.
pub const WEB_SERVICE_CLIENT_IDENTITY: &'static str = "WEB_SERVICE_CLIENT_IDENTITY";

/// The file a setting names: the command line argument's where there is one,
/// else the environment variable's where it is set, else none.
pub open spec fn setting_file(arg: Option<String>, env: EnvValue) -> Option<Seq<char>> {
    match arg {
        Some(path) => Some(path@),
        None => match env {
            EnvValue::Present(path) => Some(path@),
            _ => None,
        },
    }
}

fn choose_setting_file(arg: Option<String>, env: EnvValue) -> (path: Option<String>)
    ensures
        path matches Some(p) ==> setting_file(arg, env) == Some(p@),
        path is None ==> setting_file(arg, env) is None,
{
    match arg {
        Some(path) => Some(path),
        None => match env {
            EnvValue::Present(path) => Some(path),
            _ => None,
        },
    }
}

/// The file of server certificates in priority order: 1) command line
/// argument, 2) environment variable; none means the default web
/// certificates alone.
pub fn get_web_service_server_certificates(arg: Option<String>, env: EnvValue) -> (path: Option<String>)
    ensures
        path matches Some(p) ==> setting_file(arg, env) == Some(p@),
        path is None ==> setting_file(arg, env) is None,
{
    choose_setting_file(arg, env)
}

/// The file of the client identity in priority order: 1) command line
/// argument, 2) environment variable; none means no client identity.
pub fn get_web_service_client_identity(arg: Option<String>, env: EnvValue) -> (path: Option<String>)
    ensures
        path matches Some(p) ==> setting_file(arg, env) == Some(p@),
        path is None ==> setting_file(arg, env) is None,
{
    choose_setting_file(arg, env)
}

// *** Certificates and identities in PEM form ***

#[verifier::external_type_specification]
#[verifier::external_body]
pub struct ExCertificate(reqwest::Certificate);

#[verifier::external_type_specification]
#[verifier::external_body]
pub struct ExIdentity(reqwest::Identity);

/// Whether `reqwest::Certificate::from_pem_bundle` accepts the bytes: every
/// PEM section in them is well-formed (sections of kinds other than
/// certificates are skipped).
pub uninterp spec fn pem_bundle_parses(contents: Seq<u8>) -> bool;

/// The certificates `reqwest::Certificate::from_pem_bundle` makes of bytes it
/// accepts: one per certificate section, in the order of the sections, each
/// holding that section's DER bytes.
pub uninterp spec fn pem_bundle_certificates(contents: Seq<u8>) -> Seq<reqwest::Certificate>;

/// Whether `reqwest::Identity::from_pem` accepts the bytes: well-formed PEM
/// sections, only certificates and private keys, with at least one of each.
pub uninterp spec fn identity_pem_parses(contents: Seq<u8>) -> bool;

/// The identity `reqwest::Identity::from_pem` makes of bytes it accepts: the
/// last private key and all certificates, in order.
pub uninterp spec fn identity_of_pem(contents: Seq<u8>) -> reqwest::Identity;

/// The message of every error the two PEM parsers below return.
pub open spec fn pem_refusal_message() -> Seq<char> {
    "builder error"@
}

/// `reqwest::Certificate::from_pem_bundle`, its error read back as its
/// message. Claimed: it succeeds exactly where `pem_bundle_parses` holds of
/// the bytes, and then gives `pem_bundle_certificates` of them (the source
/// reads the certificate sections with rustls-pki-types and makes each with
/// `from_der`, which keeps the bytes); its source makes every error with
/// `error::builder`, which carries no URL, so the message is "builder error".
#[verifier::external_body]
fn parse_pem_bundle(contents: &[u8]) -> (parsed: Result<Vec<reqwest::Certificate>, String>)
    ensures
        parsed is Ok <==> pem_bundle_parses(contents@),
        parsed is Ok ==> parsed->Ok_0@ == pem_bundle_certificates(contents@),
        parsed is Err ==> parsed->Err_0@ == pem_refusal_message(),
{
    match reqwest::Certificate::from_pem_bundle(contents) {
        Ok(certificates) => Ok(certificates),
        Err(error) => Err(error.to_string()),
    }
}

/// `reqwest::Identity::from_pem`, its error read back as its message.
/// Claimed: it succeeds exactly where `identity_pem_parses` holds of the
/// bytes, and then gives `identity_of_pem` of them (the source builds the
/// identity from the bytes alone); its source makes every error with
/// `error::builder`, which carries no URL, so the message is "builder error".
#[verifier::external_body]
fn parse_identity_pem(contents: &[u8]) -> (parsed: Result<reqwest::Identity, String>)
    ensures
        parsed is Ok <==> identity_pem_parses(contents@),
        parsed is Ok ==> parsed->Ok_0 == identity_of_pem(contents@),
        parsed is Err ==> parsed->Err_0@ == pem_refusal_message(),
{
    match reqwest::Identity::from_pem(contents) {
        Ok(identity) => Ok(identity),
        Err(error) => Err(error.to_string()),
    }
}

impl ClientError {
    /// The error for a request part the HTTP client refused to build, given
    /// its message: a validation error, as every builder error is.
    pub fn from_builder_error_text(text: &str) -> (e: ClientError)
        ensures
            e.is_validation_error(text@),
    {
        ClientError::TypeError(TypeError::ValidationError(text.to_string()))
    }
}

/// The server certificates in a PEM bundle, the contents of the file that
/// `get_web_service_server_certificates` names, one per certificate section;
/// a validation error where a section is not well-formed.
pub fn server_certificates_from_pem(contents: &[u8]) -> (r: Result<Vec<reqwest::Certificate>, ClientError>)
    ensures
        r is Ok <==> pem_bundle_parses(contents@),
        r is Ok ==> r->Ok_0@ == pem_bundle_certificates(contents@),
        r is Err ==> r->Err_0.is_validation_error(pem_refusal_message()),
{
    match parse_pem_bundle(contents) {
        Ok(certificates) => Ok(certificates),
        Err(message) => Err(ClientError::from_builder_error_text(message.as_str())),
    }
}

/// The client identity in PEM form, the contents of the file that
/// `get_web_service_client_identity` names; a validation error where the
/// bytes hold no private key and certificate.
pub fn client_identity_from_pem(contents: &[u8]) -> (r: Result<reqwest::Identity, ClientError>)
    ensures
        r is Ok <==> identity_pem_parses(contents@),
        r is Ok ==> r->Ok_0 == identity_of_pem(contents@),
        r is Err ==> r->Err_0.is_validation_error(pem_refusal_message()),
{
    match parse_identity_pem(contents) {
        Ok(identity) => Ok(identity),
        Err(message) => Err(ClientError::from_builder_error_text(message.as_str())),
    }
}

// *** Boolean settings ***

/// A line the client prints to the console.
#[derive(Debug, Clone, PartialEq, Eq)]
pub enum ConsoleLine {
    Stdout(String),
    Stderr(String),
}

/// A boolean setting's value, or the error that refuses it, and the line the
/// client prints when it resolves the setting.
#[derive(Debug, PartialEq, Eq)]
pub struct FlagSetting {
    pub value: Result<bool, ClientError>,
    pub console: Option<ConsoleLine>,
}

/// The text of a console line and whether it goes to standard error.
pub open spec fn console_view(line: Option<ConsoleLine>) -> Option<(bool, Seq<char>)> {
    match line {
        Some(ConsoleLine::Stdout(t)) => Some((false, t@)),
        Some(ConsoleLine::Stderr(t)) => Some((true, t@)),
        None => None,
    }
}

/// What `str::parse::<bool>` reports for a text other than "true" or "false".
pub uninterp spec fn bool_parse_error_text(text: Seq<char>) -> Seq<char>;

/// `str::parse::<bool>`, its error read back as its message. Claimed, as
/// std documents: "true" and "false" are the only texts accepted, and give
/// the value they name; the message of the refusal is
/// `bool_parse_error_text` of the text.
#[verifier::external_body]
fn parse_bool(text: &str) -> (parsed: Result<bool, String>)
    ensures
        text@ == "true"@ ==> (parsed is Ok && parsed->Ok_0),
        text@ == "false"@ ==> (parsed is Ok && !parsed->Ok_0),
        text@ != "true"@ && text@ != "false"@ ==> parsed is Err,
        parsed is Err ==> parsed->Err_0@ == bool_parse_error_text(text@),
{
    match text.parse::<bool>() {
        Ok(value) => Ok(value),
        Err(error) => Err(error.to_string()),
    }
}

/// The warning for a setting turned on by its command line argument.
pub open spec fn argument_warning(option: Seq<char>, subject: Seq<char>) -> Seq<char> {
    option + " requested.  "@ + subject + " will NOT be verified."@
}

/// The warning for a setting turned on by its environment variable.
pub open spec fn environment_warning(variable: Seq<char>, subject: Seq<char>) -> Seq<char> {
    "Environment variable "@ + variable + " set to true.  "@ + subject + " will NOT be verified."@
}

/// The message of the error for an environment variable that is no boolean.
pub open spec fn environment_parse_message(variable: Seq<char>, value: Seq<char>) -> Seq<char> {
    "Error parsing environment variable "@ + variable + " value "@ + value + " as boolean:  "@
        + bool_parse_error_text(value) + ".  Please set "@ + variable + " as 'true' or 'false'."@
}

/// A boolean setting resolved in priority order: 1) the command line
/// argument, 2) the environment variable, which must read "true" or "false",
/// 3) off. Turning the setting on prints a warning: to standard error when
/// the argument does it, to standard output when the variable does.
pub open spec fn flag_setting_holds(
    option: Seq<char>,
    variable: Seq<char>,
    subject: Seq<char>,
    arg: Option<bool>,
    env: EnvValue,
    s: FlagSetting,
) -> bool {
    match arg {
        Some(v) => s.value == Ok::<bool, ClientError>(v) && console_view(s.console) == (
            if v { Some((true, argument_warning(option, subject))) } else { None }),
        None => match env {
            EnvValue::Present(text) => if text@ == "true"@ {
                s.value == Ok::<bool, ClientError>(true)
                    && console_view(s.console) == Some((false, environment_warning(variable, subject)))
            } else if text@ == "false"@ {
                s.value == Ok::<bool, ClientError>(false) && s.console is None
            } else {
                s.value is Err && s.value->Err_0.is_validation_error(environment_parse_message(variable, text@))
                    && s.console is None
            },
            _ => s.value == Ok::<bool, ClientError>(false) && s.console is None,
        },
    }
}

fn resolve_flag(option: &str, variable: &str, subject: &str, arg: Option<bool>, env: EnvValue) -> (s: FlagSetting)
    ensures
        flag_setting_holds(option@, variable@, subject@, arg, env, s),
{
    match arg {
        Some(v) => {
            if v {
                let mut line = String::from_str(option);
                line.append(" requested.  ");
                line.append(subject);
                line.append(" will NOT be verified.");
                FlagSetting { value: Ok(true), console: Some(ConsoleLine::Stderr(line)) }
            } else {
                FlagSetting { value: Ok(false), console: None }
            }
        }
        None => match env {
            EnvValue::Present(text) => match parse_bool(text.as_str()) {
                Ok(v) => {
                    if v {
                        let mut line = String::from_str("Environment variable ");
                        line.append(variable);
                        line.append(" set to true.  ");
                        line.append(subject);
                        line.append(" will NOT be verified.");
                        FlagSetting { value: Ok(true), console: Some(ConsoleLine::Stdout(line)) }
                    } else {
                        FlagSetting { value: Ok(false), console: None }
                    }
                }
                Err(error) => {
                    let mut m = String::from_str("Error parsing environment variable ");
                    m.append(variable);
                    m.append(" value ");
                    m.append(text.as_str());
                    m.append(" as boolean:  ");
                    m.append(error.as_str());
                    m.append(".  Please set ");
                    m.append(variable);
                    m.append(" as 'true' or 'false'.");
                    FlagSetting {
                        value: Err(ClientError::TypeError(TypeError::ValidationError(m))),
                        console: None,
                    }
                }
            },
            _ => FlagSetting { value: Ok(false), console: None },
        },
    }
}

/// The environment variable that allows a self-signed server certificate.
pub const WEB_SERVICE_SERVER_ALLOW_SELF_SIGNED_CERT: &'static str = "WEB_SERVICE_SERVER_ALLOW_SELF_SIGNED_CERT";

/// The environment variable that turns off checking the server's hostname.
pub const WEB_SERVICE_SERVER_DO_NOT_VERIFY_SERVER_HOSTNAME: &'static str =
    "WEB_SERVICE_SERVER_DO_NOT_VERIFY_SERVER_HOSTNAME";

/// Whether the web_service server may use a self-signed certificate, in
/// priority order: 1) command line argument, 2) environment variable.
pub fn get_web_service_server_allow_self_signed_cert(arg: Option<bool>, env: EnvValue) -> (s: FlagSetting)
    ensures
        flag_setting_holds(
            "'--allow-self-signed-cert'"@,
            WEB_SERVICE_SERVER_ALLOW_SELF_SIGNED_CERT@,
            "web_service server identity"@,
            arg,
            env,
            s,
        ),
{
    resolve_flag(
        "'--allow-self-signed-cert'",
        WEB_SERVICE_SERVER_ALLOW_SELF_SIGNED_CERT,
        "web_service server identity",
        arg,
        env,
    )
}

/// Whether the web_service server's hostname goes unchecked against the
/// certificate it presents, in priority order: 1) command line argument,
/// 2) environment variable.
pub fn get_web_service_server_do_not_verify_server_hostname(arg: Option<bool>, env: EnvValue) -> (s: FlagSetting)
    ensures
        flag_setting_holds(
            "'--do-not-verify-server-hostname'"@,
            WEB_SERVICE_SERVER_DO_NOT_VERIFY_SERVER_HOSTNAME@,
            "web_service server hostname"@,
            arg,
            env,
            s,
        ),
{
    resolve_flag(
        "'--do-not-verify-server-hostname'",
        WEB_SERVICE_SERVER_DO_NOT_VERIFY_SERVER_HOSTNAME,
        "web_service server hostname",
        arg,
        env,
    )
}

// *** Exchanges with the server ***

/// A fresh status request: a new identifier, made now.
pub fn new_status_request() -> (r: StatusRequest)
    ensures
        is_hyphenated_v4_uuid(r.request_id@),
        is_generated_uuid_text(r.request_id@),
        is_clock_time(r.timestamp),
        is_read_from_clock(r.timestamp),
{
    StatusRequest { request_id: RequestId::new(), timestamp: Timestamp::now() }
}

/// What happened at a step of an exchange with the server.
#[derive(Debug, Clone)]
pub enum ExchangeEvent {
    /// The request could not be sent, or no response came.
    SendFailed(HttpErrorFacts),
    /// A response came, with a success status or not.
    Responded { success: bool },
    /// The success response's body was decoded as the expected payload.
    PayloadDecoded,
    /// The success response's body could not be decoded.
    PayloadFailed(HttpErrorFacts),
    /// The failure response's body was read as text.
    TextRead(String),
    /// The failure response's body could not be read.
    TextFailed(HttpErrorFacts),
}

/// What the client does next in an exchange with the server.
#[derive(Debug)]
pub enum ExchangeAction {
    /// Decode the success response's body as the expected payload.
    DecodePayload,
    /// Read the failure response's body as text.
    ReadText,
    /// Print the decoded payload and finish successfully.
    PrintPayload,
    /// Finish with this outcome.
    Finish(Result<(), ClientError>),
}

/// The client's next action after an event of an exchange: a success response
/// is decoded and printed, the body of any other response is read (and the
/// exchange succeeds), and a failure of the client library ends the exchange
/// with the error it makes.
pub fn next_exchange_action(event: &ExchangeEvent) -> (action: ExchangeAction)
    ensures
        match event {
            ExchangeEvent::SendFailed(f) => action matches ExchangeAction::Finish(Err(e))
                && e.display_text() == ClientError::http_error_display(*f),
            ExchangeEvent::Responded { success } => if *success { action is DecodePayload } else { action is ReadText },
            ExchangeEvent::PayloadDecoded => action is PrintPayload,
            ExchangeEvent::PayloadFailed(f) => action matches ExchangeAction::Finish(Err(e))
                && e.display_text() == ClientError::http_error_display(*f),
            ExchangeEvent::TextRead(_) => action matches ExchangeAction::Finish(Ok(_)),
            ExchangeEvent::TextFailed(f) => action matches ExchangeAction::Finish(Err(e))
                && e.display_text() == ClientError::http_error_display(*f),
        },
{
    match event {
        ExchangeEvent::SendFailed(f) => ExchangeAction::Finish(Err(ClientError::from_http_error(f))),
        ExchangeEvent::Responded { success } => if *success {
            ExchangeAction::DecodePayload
        } else {
            ExchangeAction::ReadText
        },
        ExchangeEvent::PayloadDecoded => ExchangeAction::PrintPayload,
        ExchangeEvent::PayloadFailed(f) => ExchangeAction::Finish(Err(ClientError::from_http_error(f))),
        ExchangeEvent::TextRead(_) => ExchangeAction::Finish(Ok(())),
        ExchangeEvent::TextFailed(f) => ExchangeAction::Finish(Err(ClientError::from_http_error(f))),
    }
}

/// A client error that wraps a type error is displayed as the type error is.
pub proof fn law_wrapped_type_error_displays_alike(e: TypeError)
    ensures
        ClientError::TypeError(e).display_text() == e.display_text(),
        ClientError::TypeError(e).debug_text() == e.display_text(),
{
}

/// A command line argument decides a boolean setting, whatever the
/// environment variable holds.
pub proof fn law_argument_overrides_environment(
    option: Seq<char>,
    variable: Seq<char>,
    subject: Seq<char>,
    value: bool,
    env1: EnvValue,
    env2: EnvValue,
    s1: FlagSetting,
    s2: FlagSetting,
)
    requires
        flag_setting_holds(option, variable, subject, Some(value), env1, s1),
        flag_setting_holds(option, variable, subject, Some(value), env2, s2),
    ensures
        s1.value == Ok::<bool, ClientError>(value),
        s2.value == Ok::<bool, ClientError>(value),
        console_view(s1.console) == console_view(s2.console),
{
}

/// A boolean setting given neither way is off, and nothing is printed.
pub proof fn law_unset_setting_is_off(
    option: Seq<char>,
    variable: Seq<char>,
    subject: Seq<char>,
    env: EnvValue,
    s: FlagSetting,
)
    requires
        !(env is Present),
        flag_setting_holds(option, variable, subject, None, env, s),
    ensures
        s.value == Ok::<bool, ClientError>(false),
        s.console is None,
{
}

/// A boolean setting is on exactly where a warning is printed.
pub proof fn law_setting_on_exactly_when_warned(
    option: Seq<char>,
    variable: Seq<char>,
    subject: Seq<char>,
    arg: Option<bool>,
    env: EnvValue,
    s: FlagSetting,
)
    requires
        flag_setting_holds(option, variable, subject, arg, env, s),
    ensures
        s.value == Ok::<bool, ClientError>(true) <==> s.console is Some,
{
}

/// A file named on the command line is used, whatever the environment says.
pub proof fn law_file_argument_overrides_environment(path: String, env: EnvValue)
    ensures
        setting_file(Some(path), env) == Some(path@),
{
}

/// A new status request carries an identifier drawn by the UUID generator
/// and the time read off the clock while it is made: neither is fixed nor
/// made up (not the UNIX epoch, say, unless the clock reads it).
pub proof fn law_new_status_request_is_fresh(r: StatusRequest)
    requires
        call_ensures(new_status_request, (), r),
    ensures
        is_generated_uuid_text(r.request_id@),
        is_read_from_clock(r.timestamp),
{
}

} // verus!
