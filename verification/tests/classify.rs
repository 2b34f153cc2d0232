use cloudflare_dynamic_dns::api::ip_sb as api_ip_sb;
use cloudflare_dynamic_dns::rest_api::cloudflare::error::Error;
use cloudflare_dynamic_dns::rest_api::cloudflare::record::classify::classify_decode_failure;
use cloudflare_dynamic_dns::rest_api::cloudflare::record::classify::classify_send_failure;
use cloudflare_dynamic_dns::rest_api::cloudflare::record::create::accept_create_body;
use cloudflare_dynamic_dns::rest_api::cloudflare::record::delete::accept_delete_body;
use cloudflare_dynamic_dns::rest_api::cloudflare::record::list::accept_list_body;
use cloudflare_dynamic_dns::rest_api::cloudflare::record::update::accept_update_body;
use cloudflare_dynamic_dns::rest_api::cloudflare::record::Record;
use cloudflare_dynamic_dns::rest_api::cloudflare::record::RecordType;
use cloudflare_dynamic_dns::rest_api::cloudflare::verify_user_token::accept_token_body;
use cloudflare_dynamic_dns::rest_api::cloudflare::verify_user_token::classify_token_decode_failure;
use cloudflare_dynamic_dns::rest_api::cloudflare::verify_user_token::classify_token_send_failure;
use cloudflare_dynamic_dns::rest_api::ip_sb::error::Error as IpError;
use cloudflare_dynamic_dns::rest_api::ip_sb::ip::classify_lookup_decode_failure;
use cloudflare_dynamic_dns::rest_api::ip_sb::ip::classify_lookup_send_failure;
use cloudflare_dynamic_dns::rest_api::DecodeFailure;
use cloudflare_dynamic_dns::rest_api::SendFailure;

fn status_failure(status: u16) -> SendFailure {
    SendFailure {
        status: Some(status),
        is_request: false,
        is_connect: false,
        is_timeout: false,
        is_status: true,
    }
}

fn connection_refused() -> SendFailure {
    SendFailure {
        status: None,
        is_request: false,
        is_connect: true,
        is_timeout: false,
        is_status: false,
    }
}

#[test]
fn status_400_maps_to_internal() {
    assert_eq!(classify_send_failure(&status_failure(400)), Error::Internal);
}

#[test]
fn status_401_maps_to_unauthorized() {
    assert_eq!(
        classify_send_failure(&status_failure(401)),
        Error::Unauthorized
    );
}

#[test]
fn status_403_maps_to_invalid_zone() {
    assert_eq!(
        classify_send_failure(&status_failure(403)),
        Error::InvalidZone
    );
}

#[test]
fn status_404_maps_to_invalid_record() {
    assert_eq!(
        classify_send_failure(&status_failure(404)),
        Error::InvalidRecord
    );
}

#[test]
fn transport_faults_map_to_network() {
    assert_eq!(classify_send_failure(&connection_refused()), Error::Network);
    let timeout = SendFailure {
        status: None,
        is_request: false,
        is_connect: false,
        is_timeout: true,
        is_status: false,
    };
    assert_eq!(classify_send_failure(&timeout), Error::Network);
    let other_status = status_failure(500);
    assert_eq!(classify_send_failure(&other_status), Error::Network);
}

#[test]
fn unflagged_faults_map_to_unknown() {
    let bare = SendFailure {
        status: None,
        is_request: false,
        is_connect: false,
        is_timeout: false,
        is_status: false,
    };
    assert_eq!(classify_send_failure(&bare), Error::Unknown);
}

#[test]
fn decode_faults_map_to_decode_response() {
    let decode = DecodeFailure {
        is_body: false,
        is_decode: true,
    };
    assert_eq!(classify_decode_failure(&decode), Error::DecodeResponse);
    let body = DecodeFailure {
        is_body: true,
        is_decode: false,
    };
    assert_eq!(classify_decode_failure(&body), Error::DecodeResponse);
    let neither = DecodeFailure {
        is_body: false,
        is_decode: false,
    };
    assert_eq!(classify_decode_failure(&neither), Error::Unknown);
}

#[test]
fn token_verification_maps_400_to_unauthorized() {
    assert_eq!(
        classify_token_send_failure(&status_failure(400)),
        Error::Unauthorized
    );
    assert_eq!(
        classify_token_send_failure(&connection_refused()),
        Error::Network
    );
    assert_eq!(classify_token_decode_failure(true), Error::DecodeResponse);
    assert_eq!(classify_token_decode_failure(false), Error::Network);
    assert!(accept_token_body(true).is_ok());
    assert!(matches!(accept_token_body(false), Err(Error::Unauthorized)));
}

#[test]
fn lookup_failures_use_the_reduced_taxonomy() {
    assert_eq!(
        classify_lookup_send_failure(&connection_refused()),
        IpError::Network
    );
    assert_eq!(
        classify_lookup_send_failure(&status_failure(400)),
        IpError::Server
    );
    let bare = SendFailure {
        status: None,
        is_request: false,
        is_connect: false,
        is_timeout: false,
        is_status: false,
    };
    assert_eq!(classify_lookup_send_failure(&bare), IpError::Unknown);
    assert_eq!(
        classify_lookup_decode_failure(true),
        IpError::DecodeResponse
    );
    assert_eq!(classify_lookup_decode_failure(false), IpError::Network);
}

#[test]
fn echo_client_failures_classify_alike() {
    assert_eq!(
        api_ip_sb::classify_send_failure(&connection_refused()),
        api_ip_sb::Error::Network
    );
    assert_eq!(
        api_ip_sb::classify_send_failure(&status_failure(400)),
        api_ip_sb::Error::Server
    );
    let bare = SendFailure {
        status: None,
        is_request: false,
        is_connect: false,
        is_timeout: false,
        is_status: false,
    };
    assert_eq!(
        api_ip_sb::classify_send_failure(&bare),
        api_ip_sb::Error::Unknown
    );
}

fn sample_record() -> Record {
    Record {
        id: "r1".to_string(),
        domain_name: "a.example.com".to_string(),
        value: "203.0.113.5".to_string(),
        record_type: RecordType::A,
        proxied: true,
    }
}

#[test]
fn success_flag_decides_body_acceptance() {
    assert!(matches!(
        accept_list_body(false, vec![sample_record()]),
        Err(Error::Server)
    ));
    let listed = accept_list_body(true, vec![sample_record()]).unwrap();
    assert_eq!(listed.len(), 1);
    assert_eq!(listed[0].id, "r1");

    assert!(matches!(
        accept_create_body(false, sample_record()),
        Err(Error::Server)
    ));
    assert_eq!(accept_create_body(true, sample_record()).unwrap().id, "r1");

    assert!(accept_delete_body(true).is_ok());
    assert!(matches!(accept_delete_body(false), Err(Error::Server)));

    assert!(matches!(accept_update_body(None), Err(Error::Server)));
    assert_eq!(accept_update_body(Some(sample_record())).unwrap().id, "r1");
}
