use formcore::cors::Cors;
use formcore::user::{RequestStatus, UserRole, UserType};

#[test]
fn roles_round_trip_through_their_text() {
    assert_eq!(UserRole::Admin.to_string(), "admin");
    assert_eq!(UserRole::User.to_string(), "user");
    assert_eq!(UserRole::from_str("admin"), Ok(UserRole::Admin));
    assert_eq!(UserRole::from_str("user"), Ok(UserRole::User));
    assert_eq!(UserRole::from_str("root"), Err(()));
    assert_eq!(UserRole::from_str("Admin"), Err(()));
}

#[test]
fn user_types_round_trip_through_their_text() {
    assert_eq!(UserType::Seller.to_string(), "seller");
    assert_eq!(UserType::Artist.to_string(), "artist");
    assert_eq!(UserType::from_str("seller"), Ok(UserType::Seller));
    assert_eq!(UserType::from_str("artist"), Ok(UserType::Artist));
    assert_eq!(UserType::from_str(""), Err(()));
}

#[test]
fn request_statuses_round_trip_through_their_text() {
    for (status, text) in [
        (RequestStatus::NotSend, "notsend"),
        (RequestStatus::Pending, "pending"),
        (RequestStatus::Confirmed, "confirmed"),
        (RequestStatus::Rejected, "rejected"),
    ] {
        assert_eq!(status.to_string(), text);
        assert_eq!(RequestStatus::from_str(text), Ok(status));
    }
    assert_eq!(RequestStatus::from_str("sent"), Err(()));
}

#[test]
fn cors_headers_are_the_fixed_four() {
    let headers = Cors::response_headers();
    assert_eq!(
        headers,
        vec![
            ("Access-Control-Allow-Origin", "*"),
            ("Access-Control-Allow-Methods", "GET, POST, PUT, DELETE"),
            ("Access-Control-Allow-Headers", "*"),
            ("Access-Control-Allow-Credentials", "true"),
        ]
    );
}
