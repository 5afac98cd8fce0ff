//! Start-up: where to connect, the steps before the first request, and the
//! cross-origin policy. Any failure here is fatal.

use vstd::prelude::*;
use vstd::string::{StrSliceExecFns, StringExecFns, to_string_from_display_ensures};
use crate::error::{StartupError, StartupStage};
use crate::statement::{Statement, StatementView};

verus! {

/// The four options that say which database to use.
#[derive(Debug, Clone, PartialEq, Eq)]
pub struct ConnectionSettings {
    pub host: String,
    pub user: String,
    pub password: String,
    pub dbname: String,
}

/// The mathematical value of [`ConnectionSettings`].
pub ghost struct ConnectionSettingsView {
    pub host: Seq<char>,
    pub user: Seq<char>,
    pub password: Seq<char>,
    pub dbname: Seq<char>,
}

impl View for ConnectionSettings {
    type V = ConnectionSettingsView;

    open spec fn view(&self) -> ConnectionSettingsView {
        ConnectionSettingsView {
            host: self.host@,
            user: self.user@,
            password: self.password@,
            dbname: self.dbname@,
        }
    }
}

/// One character of a quoted value: a quote or a backslash gets a backslash
/// in front, anything else stands for itself.
pub open spec fn escaped_char(c: char) -> Seq<char> {
    if c == '\'' || c == '\\' {
        "\\"@.push(c)
    } else {
        seq![c]
    }
}

/// The characters of a value, each escaped, in order.
pub open spec fn escaped(value: Seq<char>) -> Seq<char>
    decreases value.len(),
{
    if value.len() == 0 {
        Seq::empty()
    } else {
        escaped(value.drop_last()) + escaped_char(value.last())
    }
}

/// A value between single quotes, so that blanks in it do not end it.
pub open spec fn quoted(value: Seq<char>) -> Seq<char> {
    "'"@ + escaped(value) + "'"@
}

impl ConnectionSettingsView {
    /// The connection string: the four options as `key='value'`, separated
    /// by one blank.
    pub open spec fn connection_string(self) -> Seq<char> {
        "host="@ + quoted(self.host) + " user="@ + quoted(self.user) + " password="@ + quoted(
            self.password,
        ) + " dbname="@ + quoted(self.dbname)
    }
}

/// Appends a value in quotes.
fn push_quoted(out: &mut String, value: &str)
    ensures
        final(out)@ == old(out)@ + quoted(value@),
{
    out.append("'");
    let length = value.unicode_len();
    let mut i: usize = 0;
    while i < length
        invariant
            length == value@.len(),
            i <= length,
            out@ == old(out)@ + "'"@ + escaped(value@.take(i as int)),
        decreases length - i,
    {
        let c = value.get_char(i);
        if c == '\'' || c == '\\' {
            out.append("\\");
        }
        out.append(value.substring_char(i, i + 1));
        proof {
            let upto = value@.take(i + 1);
            assert(upto.drop_last() =~= value@.take(i as int));
            assert(upto.last() == c);
            assert(value@.subrange(i as int, i + 1) =~= seq![c]);
            assert(out@ =~= old(out)@ + "'"@ + escaped(upto));
        }
        i += 1;
    }
    out.append("'");
    proof {
        assert(value@.take(length as int) =~= value@);
        assert(out@ =~= old(out)@ + quoted(value@));
    }
}

impl ConnectionSettings {
    /// The database on this machine, under the default account.
    pub fn local() -> (settings: ConnectionSettings)
        ensures
            settings@ == (ConnectionSettingsView {
                host: "localhost"@,
                user: "postgres"@,
                password: "postgres"@,
                dbname: "postgres"@,
            }),
    {
        ConnectionSettings {
            host: String::from_str("localhost"),
            user: String::from_str("postgres"),
            password: String::from_str("postgres"),
            dbname: String::from_str("postgres"),
        }
    }

    /// The connection string to hand to the driver.
    pub fn connection_string(&self) -> (text: String)
        ensures
            text@ == self@.connection_string(),
    {
        let mut text = String::from_str("host=");
        push_quoted(&mut text, self.host.as_str());
        text.append(" user=");
        push_quoted(&mut text, self.user.as_str());
        text.append(" password=");
        push_quoted(&mut text, self.password.as_str());
        text.append(" dbname=");
        push_quoted(&mut text, self.dbname.as_str());
        assert(text@ =~= self@.connection_string());
        text
    }
}

/// What start-up wants done next.
#[derive(Debug, Clone, PartialEq, Eq)]
pub enum BootStep {
    /// Open the one connection, with this connection string, then report to
    /// [`after_connect`].
    Connect { target: String },
    /// Run this statement on the connection, then report to
    /// [`after_create_table`].
    CreateTable { statement: Statement },
    /// Build the cross-origin policy, mount the routes and serve.
    Serve,
    /// Give up: no request is served.
    Abort { error: StartupError },
}

/// The first step: connect.
pub fn boot(settings: &ConnectionSettings) -> (step: BootStep)
    ensures
        step matches BootStep::Connect { target } && target@ == settings@.connection_string(),
{
    BootStep::Connect { target: settings.connection_string() }
}

/// The step after the connection attempt; `failure` is the driver's error, if
/// there was one. Connected, the service makes sure that its table exists.
pub fn after_connect(failure: Option<&tokio_postgres::Error>) -> (step: BootStep)
    ensures
        match failure {
            None => step matches BootStep::CreateTable { statement } && statement@
                == StatementView::CreateTable,
            Some(error) => step matches BootStep::Abort { error: fatal } && fatal.stage
                == StartupStage::Connect && to_string_from_display_ensures::<tokio_postgres::Error>(
                error,
                fatal.detail,
            ),
        },
{
    match failure {
        None => BootStep::CreateTable { statement: Statement::CreateTable },
        Some(error) => BootStep::Abort {
            error: StartupError::new(StartupStage::Connect, error.to_string()),
        },
    }
}

/// The step after the statement that creates the table.
pub fn after_create_table(outcome: Result<u64, tokio_postgres::Error>) -> (step: BootStep)
    ensures
        match outcome {
            Ok(_) => step is Serve,
            Err(error) => step matches BootStep::Abort { error: fatal } && fatal.stage
                == StartupStage::CreateTable && to_string_from_display_ensures::<
                tokio_postgres::Error,
            >(&error, fatal.detail),
        },
{
    match outcome {
        Ok(_) => BootStep::Serve,
        Err(error) => BootStep::Abort {
            error: StartupError::new(StartupStage::CreateTable, error.to_string()),
        },
    }
}

/// The cross-origin policy of `rocket_cors`, opaque to the proofs.
#[verifier::external_type_specification]
#[verifier::external_body]
pub struct ExCrossOriginPolicy(rocket_cors::Cors);

/// The error type of `rocket_cors`, opaque to the proofs.
#[verifier::external_type_specification]
#[verifier::external_body]
pub struct ExCrossOriginError(rocket_cors::Error);

/// `rocket_cors::CorsOptions::to_cors` on the default options with
/// `allowed_origins` set to `rocket_cors::AllowedOrigins::all()`: the policy
/// that admits every origin. The crate refuses options only where every
/// origin is admitted together with credentials and the wildcard answer; the
/// default options switch both of these off, so these options are accepted.
/// Nothing is claimed of the policy itself.
#[verifier::external_body]
fn build_open_policy() -> (built: Result<rocket_cors::Cors, rocket_cors::Error>)
    ensures
        built is Ok,
{
    rocket_cors::CorsOptions::default().allowed_origins(rocket_cors::AllowedOrigins::all()).to_cors()
}

/// The cross-origin policy of the service: every origin is admitted. These
/// options are always accepted, so the policy is always there.
pub fn cross_origin_policy() -> (result: Result<rocket_cors::Cors, StartupError>)
    ensures
        result is Ok,
{
    match build_open_policy() {
        Ok(policy) => Ok(policy),
        Err(error) => Err(StartupError::new(StartupStage::CrossOrigin, error.to_string())),
    }
}

} // verus!
