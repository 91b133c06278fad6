use yumush::error::community::Error as CommunityError;
use yumush::error::decode::Error as DecodeError;
use yumush::error::file_operation::Error as FileOperationError;
use yumush::error::message::Error as MessageError;
use yumush::error::network::Error as NetworkError;
use yumush::error::user::Error as UserError;
use yumush::error::Error;
use yumush::server::error::database::Error as DatabaseError;
use yumush::server::error::Error as ServerError;
use yumush::validate::validate_username;

#[test]
fn length_errors_name_the_bound_and_the_length() {
    let error_value = validate_username(&"a".repeat(40)).unwrap_err();
    assert_eq!(error_value.describe(), "More than maximum length(32) is provided(40)");
    assert_eq!(
        UserError::MinimumLength(0).describe(),
        "Less than minimum length(1) is provided(0)"
    );
    assert_eq!(
        MessageError::MaximumLength(1025).describe(),
        "More than maximum length(1024) is provided(1025)"
    );
    assert_eq!(
        CommunityError::MinimumLength(0).describe(),
        "Less than minimum length(1) is provided(0)"
    );
}

#[test]
fn ascii_errors() {
    assert_eq!(UserError::ASCII.describe(), "Given input is not ASCII compatible");
    assert_eq!(CommunityError::ASCII.describe(), "Given input is not ASCII compatible");
}

#[test]
fn common_errors_pass_through_to_their_inner_text() {
    assert_eq!(Error::Authenticate.describe(), "Authenticate");
    assert_eq!(Error::Server.describe(), "Server");
    assert_eq!(Error::User(UserError::ASCII).describe(), "Given input is not ASCII compatible");
    assert_eq!(Error::Decode(DecodeError::Inner("bad tag".to_owned())).describe(), "bad tag");
}

#[test]
fn file_operation_errors() {
    assert_eq!(
        FileOperationError::FileOpen("No such file".to_owned()).describe(),
        "File open is failed| No such file"
    );
    assert_eq!(FileOperationError::Read.describe(), "Read file context is failed");
    assert_eq!(FileOperationError::Empty.describe(), "File is empty");
    assert_eq!(FileOperationError::Split.describe(), "Splitting context is failed");
}

#[test]
fn network_errors() {
    assert_eq!(NetworkError::ChannelClosed.describe(), "Channel Closed");
    assert_eq!(NetworkError::Write("reset".to_owned()).describe(), "reset");
    assert_eq!(
        NetworkError::ReadBoundExceed(2049, 2048).describe(),
        "Read Bound Exceed | Actual = 2049 | Expected = 2048"
    );
    assert_eq!(
        NetworkError::ReadBoundExceed(0, 10).describe(),
        "Read Bound Exceed | Actual = 0 | Expected = 10"
    );
    assert_eq!(
        Error::Network(NetworkError::ReadBoundExceed(4294967295, 2048)).describe(),
        "Read Bound Exceed | Actual = 4294967295 | Expected = 2048"
    );
}

#[test]
fn server_errors() {
    assert_eq!(DatabaseError::Create.describe(), "Creating a record failed");
    assert_eq!(DatabaseError::Read.describe(), "Reading a record failed");
    assert_eq!(DatabaseError::Update.describe(), "Updating a record failed");
    assert_eq!(DatabaseError::Delete.describe(), "Deleting a record failed");
    assert_eq!(DatabaseError::Inner("timeout".to_owned()).describe(), "timeout");
    assert_eq!(ServerError::Common(Error::Authenticate).describe(), "Authenticate");
}

#[test]
fn database_errors_reach_the_client_as_server() {
    let told: Error = ServerError::Database(DatabaseError::Read).into();
    assert_eq!(told, Error::Server);
    let told: Error = ServerError::Common(Error::User(UserError::ASCII)).into();
    assert_eq!(told, Error::User(UserError::ASCII));
}
