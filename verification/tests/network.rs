use yumush::error::network::Error as NetworkError;
use yumush::error::Error;
use yumush::network::{
    Network, AUTHENTICATION_MAX_READ_LENGHT, REQUEST_MAX_READ_LENGHT, RESPONCE_MAX_READ_LENGHT,
};

#[test]
fn read_limits() {
    assert_eq!(AUTHENTICATION_MAX_READ_LENGHT, 64);
    assert_eq!(REQUEST_MAX_READ_LENGHT, 2048);
    assert_eq!(RESPONCE_MAX_READ_LENGHT, 2048);
}

#[test]
fn request_read_limit_prefers_the_given_bound() {
    assert_eq!(Network::request_read_limit(Some(AUTHENTICATION_MAX_READ_LENGHT)), 64);
    assert_eq!(Network::request_read_limit(None), REQUEST_MAX_READ_LENGHT);
}

#[test]
fn frame_starts_with_little_endian_length() {
    let bytes = Network::frame(&[7, 8, 9]);
    assert_eq!(bytes, vec![3, 0, 0, 0, 7, 8, 9]);
}

#[test]
fn frame_of_nothing_is_a_zero_header() {
    assert_eq!(Network::frame(&[]), vec![0, 0, 0, 0]);
}

#[test]
fn frame_length_of_long_payload() {
    let payload = vec![1u8; 300];
    let bytes = Network::frame(&payload);
    assert_eq!(&bytes[..4], &[44, 1, 0, 0]);
    assert_eq!(bytes.len(), 304);
}

#[test]
fn frame_round_trip() {
    let payload: Vec<u8> = (0..=255u8).collect();
    let bytes = Network::frame(&payload);
    let header = [bytes[0], bytes[1], bytes[2], bytes[3]];
    let length = Network::frame_length(header).unwrap();
    assert_eq!(length, payload.len());
    assert_eq!(&bytes[4..4 + length], payload.as_slice());
}

#[test]
fn frame_length_at_the_bound_is_accepted() {
    assert_eq!(Network::frame_length([0, 8, 0, 0]), Ok(2048));
}

#[test]
fn frame_length_above_the_bound_is_refused() {
    assert_eq!(
        Network::frame_length([1, 8, 0, 0]),
        Err(Error::Network(NetworkError::ReadBoundExceed(2049, 2048)))
    );
    assert_eq!(
        Network::frame_length([255, 255, 255, 255]),
        Err(Error::Network(NetworkError::ReadBoundExceed(4294967295, 2048)))
    );
}
