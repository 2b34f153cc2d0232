use cloudflare_dynamic_dns::rest_api::cloudflare::record::create;
use cloudflare_dynamic_dns::rest_api::cloudflare::record::delete::delete_record_url;
use cloudflare_dynamic_dns::rest_api::cloudflare::record::list::list_record_url;
use cloudflare_dynamic_dns::rest_api::cloudflare::record::update;
use cloudflare_dynamic_dns::rest_api::cloudflare::record::RecordType;

#[test]
fn record_urls_name_the_zone_and_record() {
    let zone = "023e105f4ecef8ad9ca31a8372d0c353".to_string();
    let record = "r1".to_string();
    assert_eq!(
        list_record_url(&zone),
        "https://api.cloudflare.com/client/v4/zones/023e105f4ecef8ad9ca31a8372d0c353/dns_records"
    );
    assert_eq!(create::create_record_url(&zone), list_record_url(&zone));
    assert_eq!(
        delete_record_url(&zone, &record),
        "https://api.cloudflare.com/client/v4/zones/023e105f4ecef8ad9ca31a8372d0c353/dns_records/r1"
    );
    assert_eq!(
        update::update_record_url(&zone, &record),
        delete_record_url(&zone, &record)
    );
}

#[test]
fn creation_request_carries_the_intent() {
    let body = create::RequestBody::new(
        &"a.example.com".to_string(),
        &"203.0.113.5".to_string(),
        &RecordType::A,
        1,
        true,
    );
    assert_eq!(body.domain_name, "a.example.com");
    assert_eq!(body.value, "203.0.113.5");
    assert!(matches!(body.record_type, RecordType::A));
    assert_eq!(body.time_to_live, 1);
    assert!(body.is_proxied);
}

#[test]
fn update_request_carries_one_field_only() {
    match update::RequestBody::from_value(&"192.168.1.110".to_string()) {
        update::RequestBody::Value { value } => assert_eq!(value, "192.168.1.110"),
        _ => panic!("expected a value body"),
    }
    match update::RequestBody::from_is_proxied(true) {
        update::RequestBody::Proxied { is_proxied } => assert!(is_proxied),
        _ => panic!("expected a proxied body"),
    }
}
