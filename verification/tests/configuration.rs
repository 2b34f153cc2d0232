use cloudflare_dynamic_dns::configuration::cloudflare::domain_name;
use cloudflare_dynamic_dns::configuration::cloudflare::domain_name::DomainName;
use cloudflare_dynamic_dns::configuration::cloudflare::domain_name::RecordType as DesiredKind;
use cloudflare_dynamic_dns::configuration::cloudflare::Cloudflare;
use cloudflare_dynamic_dns::configuration::config;
use cloudflare_dynamic_dns::configuration::config::timeout;
use cloudflare_dynamic_dns::configuration::config::timeout::Timeout;
use cloudflare_dynamic_dns::configuration::config::Config;
use cloudflare_dynamic_dns::configuration::help::message_str;
use cloudflare_dynamic_dns::configuration::Configuration;
use cloudflare_dynamic_dns::rest_api::cloudflare::record::RecordType;

#[test]
fn test_message_str() {
    println!("{}", message_str());
}

#[test]
fn test_record_type_display() {
    assert_eq!(RecordType::A.display_str(), "A");
    assert_eq!(RecordType::AAAA.display_str(), "AAAA");
    assert_eq!(RecordType::NS.display_str(), "NS");
}

#[test]
fn timeout_defaults_follow_the_documented_bounds() {
    assert_eq!(timeout::total(), 300);
    assert_eq!(timeout::connect(), 120);
    assert_eq!(timeout::read(), 30);
    assert_eq!(Timeout::default().all(), (300, 120, 30));
    assert_eq!(Timeout::new(10, 2, 3).all(), (10, 2, 3));
}

#[test]
fn entry_defaults_are_automatic_ttl_and_proxied() {
    assert_eq!(domain_name::time_to_live(), 1);
    assert!(domain_name::proxied());
    assert!(matches!(DesiredKind::default(), DesiredKind::A));
}

#[test]
fn config_defaults() {
    assert!(config::unavailable_hide());
    let defaulted = Config::default();
    assert!(!defaulted.unavailable_hide);
    assert_eq!(defaulted.ip_sb_timeout.all(), (300, 120, 30));
    assert_eq!(defaulted.cloudflare_timeout.all(), (300, 120, 30));
}

#[test]
fn configuration_assembles_its_parts() {
    let cloudflare = Cloudflare {
        token: "t0".to_string(),
        zone: "z1".to_string(),
        domain_names: vec![DomainName {
            name: "a.example.com".to_string(),
            record_type: DesiredKind::A,
            proxied: true,
            time_to_live: 1,
            comment: Some("kept for the user".to_string()),
        }],
    };
    let config = Config {
        unavailable_hide: true,
        ip_sb_timeout: Timeout::new(5, 2, 2),
        cloudflare_timeout: Timeout::default(),
    };
    let configuration = Configuration::new(cloudflare, config, Some(false));
    assert_eq!(configuration.cloudflare.zone, "z1");
    assert_eq!(configuration.cloudflare.domain_names.len(), 1);
    assert_eq!(configuration.proxied, Some(false));
    assert!(configuration.config.unavailable_hide);
}
