use users_backend::error::{StartupError, StartupStage};
use users_backend::startup::{
    after_connect, after_create_table, boot, cross_origin_policy, BootStep, ConnectionSettings,
};
use users_backend::statement::Statement;

fn settings(host: &str, user: &str, password: &str, dbname: &str) -> ConnectionSettings {
    ConnectionSettings {
        host: host.to_string(),
        user: user.to_string(),
        password: password.to_string(),
        dbname: dbname.to_string(),
    }
}

fn driver_error() -> tokio_postgres::Error {
    "no-equals-sign".parse::<tokio_postgres::Config>().unwrap_err()
}

fn read_back(settings: &ConnectionSettings) -> tokio_postgres::Config {
    settings.connection_string().parse::<tokio_postgres::Config>().unwrap()
}

#[test]
fn the_local_settings_are_the_default_account_on_this_machine() {
    assert_eq!(
        ConnectionSettings::local(),
        settings("localhost", "postgres", "postgres", "postgres")
    );
}

#[test]
fn the_connection_string_quotes_each_option() {
    assert_eq!(
        ConnectionSettings::local().connection_string(),
        "host='localhost' user='postgres' password='postgres' dbname='postgres'"
    );
    assert_eq!(
        settings("db.example.com", "ann", "", "users").connection_string(),
        "host='db.example.com' user='ann' password='' dbname='users'"
    );
}

#[test]
fn the_connection_string_escapes_quotes_and_backslashes() {
    assert_eq!(
        settings("h", "o'neil", "a\\b", "d b").connection_string(),
        "host='h' user='o\\'neil' password='a\\\\b' dbname='d b'"
    );
    assert_eq!(
        settings("h", "'", "\\", "\\'").connection_string(),
        "host='h' user='\\'' password='\\\\' dbname='\\\\\\''"
    );
}

#[test]
fn the_driver_reads_the_local_settings_back() {
    let config = read_back(&ConnectionSettings::local());
    assert_eq!(config.get_hosts(), [tokio_postgres::config::Host::Tcp("localhost".to_string())]);
    assert_eq!(config.get_user(), Some("postgres"));
    assert_eq!(config.get_password(), Some("postgres".as_bytes()));
    assert_eq!(config.get_dbname(), Some("postgres"));
}

#[test]
fn the_driver_reads_awkward_values_back_unchanged() {
    let awkward = settings(
        "db-1.internal",
        "o'neil user=root",
        " p\\a's s' dbname=other ",
        "d\u{e9}p\u{f4}t = '\\\\'",
    );
    let config = read_back(&awkward);
    assert_eq!(
        config.get_hosts(),
        [tokio_postgres::config::Host::Tcp("db-1.internal".to_string())]
    );
    assert_eq!(config.get_user(), Some("o'neil user=root"));
    assert_eq!(config.get_password(), Some(" p\\a's s' dbname=other ".as_bytes()));
    assert_eq!(config.get_dbname(), Some("d\u{e9}p\u{f4}t = '\\\\'"));
}

#[test]
fn start_up_begins_with_the_connection() {
    let local = ConnectionSettings::local();
    assert_eq!(boot(&local), BootStep::Connect { target: local.connection_string() });
}

#[test]
fn once_connected_the_table_is_created() {
    assert_eq!(after_connect(None), BootStep::CreateTable { statement: Statement::CreateTable });
}

#[test]
fn a_failed_connection_is_fatal() {
    let error = driver_error();
    assert_eq!(
        after_connect(Some(&error)),
        BootStep::Abort {
            error: StartupError {
                stage: StartupStage::Connect,
                detail: "invalid connection string".to_string()
            }
        }
    );
}

#[test]
fn once_the_table_is_there_the_service_starts() {
    assert_eq!(after_create_table(Ok(0)), BootStep::Serve);
    assert_eq!(after_create_table(Ok(3)), BootStep::Serve);
}

#[test]
fn a_failed_table_creation_is_fatal() {
    assert_eq!(
        after_create_table(Err(driver_error())),
        BootStep::Abort {
            error: StartupError {
                stage: StartupStage::CreateTable,
                detail: "invalid connection string".to_string()
            }
        }
    );
}

#[test]
fn each_stage_has_its_headline() {
    assert_eq!(StartupStage::Connect.headline(), "Failed to connect to Postgres");
    assert_eq!(StartupStage::CreateTable.headline(), "Failed to create table");
    assert_eq!(StartupStage::CrossOrigin.headline(), "Error while building CORS");
}

#[test]
fn the_open_policy_can_be_built() {
    assert!(cross_origin_policy().is_ok());
}
