use yumush::client::ClientConfig;
use yumush::error::file_operation::Error as FileOperationError;
use yumush::error::Error;
use yumush::server::ServerConfig;
use yumush::utils::TOML;

const SERVER_CONFIG: &str = "[server_config]\n\
database_prefix = \"surrealkv\"\n\
database_address = \"database\"\n\
namespace = \"yumush\"\n\
database = \"yumush\"\n\
username = \"root\"\n\
password = \"root\"\n\
server_address = \"127.0.0.1:2553\"\n";

#[test]
fn header_loses_its_brackets() {
    let toml = TOML::naive_toml_parser_from_content("[client_config]  \nserver_name = localhost").unwrap();
    assert_eq!(toml.header, "client_config");
    assert_eq!(toml.get("server_name"), Some("localhost"));
}

#[test]
fn fields_lose_quotes_and_surrounding_spaces() {
    let toml = TOML::naive_toml_parser_from_content("[x]\n  \"key\"  =  \" some value \" ").unwrap();
    assert_eq!(toml.get("key"), Some("some value"));
    assert_eq!(toml.fields.len(), 1);
}

#[test]
fn value_keeps_everything_after_the_first_equals_sign() {
    let toml = TOML::naive_toml_parser_from_content("[x]\nformula = a=b").unwrap();
    assert_eq!(toml.get("formula"), Some("a=b"));
}

#[test]
fn empty_text_is_refused() {
    let result = TOML::naive_toml_parser_from_content("");
    assert_eq!(result.unwrap_err(), Error::FileOperation(FileOperationError::Empty));
}

#[test]
fn line_without_equals_sign_is_refused() {
    let result = TOML::naive_toml_parser_from_content("[x]\nkey = value\nno separator here");
    assert_eq!(result.unwrap_err(), Error::FileOperation(FileOperationError::Split));
}

#[test]
fn empty_line_among_fields_is_refused() {
    let result = TOML::naive_toml_parser_from_content("[x]\n\nkey = value");
    assert_eq!(result.unwrap_err(), Error::FileOperation(FileOperationError::Split));
}

#[test]
fn header_alone_has_no_fields() {
    let toml = TOML::naive_toml_parser_from_content("[only]\n").unwrap();
    assert_eq!(toml.header, "only");
    assert!(toml.fields.is_empty());
    assert_eq!(toml.get("anything"), None);
}

#[test]
fn later_field_replaces_earlier_one() {
    let toml = TOML::naive_toml_parser_from_content("[x]\nkey = first\nother = 1\nkey = second").unwrap();
    assert_eq!(toml.get("key"), Some("second"));
    assert_eq!(toml.get("other"), Some("1"));
    assert_eq!(toml.fields.len(), 2);
}

#[test]
fn carriage_returns_end_lines() {
    let toml = TOML::naive_toml_parser_from_content("[x]\r\nkey = value\r\n").unwrap();
    assert_eq!(toml.header, "x");
    assert_eq!(toml.get("key"), Some("value"));
}

#[test]
fn server_config_reads_every_field() {
    let toml = TOML::naive_toml_parser_from_content(SERVER_CONFIG).unwrap();
    assert_eq!(toml.header, "server_config");
    let config = ServerConfig::from_toml(&toml).unwrap();
    assert_eq!(config.get_namespace(), "yumush");
    assert_eq!(config.get_database(), "yumush");
    assert_eq!(config.get_username(), "root");
    assert_eq!(config.get_password(), "root");
    assert_eq!(config.get_server_address(), "127.0.0.1:2553");
    assert_eq!(config.database_connection_address(), "surrealkv://database");
    assert!(config.signs_in());
}

#[test]
fn server_config_without_password_does_not_sign_in() {
    let content = SERVER_CONFIG.replace("password = \"root\"", "password = \"\"");
    let toml = TOML::naive_toml_parser_from_content(&content).unwrap();
    let config = ServerConfig::from_toml(&toml).unwrap();
    assert_eq!(config.get_password(), "");
    assert!(!config.signs_in());
}

#[test]
fn server_config_missing_a_field_is_none() {
    let content = SERVER_CONFIG.replace("namespace = \"yumush\"\n", "");
    let toml = TOML::naive_toml_parser_from_content(&content).unwrap();
    assert!(ServerConfig::from_toml(&toml).is_none());
}

#[test]
fn client_config_reads_both_fields() {
    let toml = TOML::naive_toml_parser_from_content(
        "[client_config]\nserver_address = \"127.0.0.1:2553\"\nserver_name = \"localhost\"\n",
    )
    .unwrap();
    let config = ClientConfig::from_toml(&toml).unwrap();
    assert_eq!(config.get_server_address(), "127.0.0.1:2553");
    assert_eq!(config.get_server_name(), "localhost");
}

#[test]
fn client_config_missing_a_field_is_none() {
    let toml = TOML::naive_toml_parser_from_content("[client_config]\nserver_name = localhost\n").unwrap();
    assert!(ClientConfig::from_toml(&toml).is_none());
}
