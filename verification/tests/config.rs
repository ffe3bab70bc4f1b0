use tug::config::resolve_hosts;
use tug::config::ConfigError;
use tug::config::MarkdownOptions;
use tug::config::RawHostConfig;

fn raw(host: Option<&str>) -> RawHostConfig {
    RawHostConfig {
        host: host.map(|h| h.to_string()),
        root: None,
        gzip: None,
        markdown: None,
        provision: None,
    }
}

#[test]
fn defaults_are_applied() {
    let raws = vec![raw(Some("127.0.0.1:8080"))];
    let cfgs = resolve_hosts(&raws).unwrap();
    assert_eq!(cfgs.len(), 1);
    assert_eq!(cfgs[0].host, "127.0.0.1:8080".to_string());
    assert_eq!(cfgs[0].root, ".".to_string());
    assert!(cfgs[0].gzip);
    assert!(cfgs[0].markdown.is_none());
    assert!(!cfgs[0].provision);
}

#[test]
fn explicit_fields_are_kept() {
    let mut r = raw(Some("0.0.0.0:80"));
    r.root = Some("./site".to_string());
    r.gzip = Some(false);
    r.markdown = Some(MarkdownOptions {
        css: Some("style.css".to_string()),
        js: Some("app.js".to_string()),
    });
    r.provision = Some(true);
    let cfgs = resolve_hosts(&vec![r]).unwrap();
    assert_eq!(cfgs[0].root, "./site".to_string());
    assert!(!cfgs[0].gzip);
    assert!(cfgs[0].provision);
    let md = cfgs[0].markdown.as_ref().unwrap();
    assert_eq!(md.css.as_deref(), Some("style.css"));
    assert_eq!(md.js.as_deref(), Some("app.js"));
}

#[test]
fn order_is_preserved() {
    let raws = vec![raw(Some("a:1")), raw(Some("b:2")), raw(Some("c:3"))];
    let cfgs = resolve_hosts(&raws).unwrap();
    assert_eq!(cfgs[0].host, "a:1".to_string());
    assert_eq!(cfgs[1].host, "b:2".to_string());
    assert_eq!(cfgs[2].host, "c:3".to_string());
}

#[test]
fn missing_host_is_reported_with_its_position() {
    let raws = vec![raw(Some("a:1")), raw(None), raw(Some("c:3"))];
    match resolve_hosts(&raws) {
        Err(e) => assert_eq!(e, ConfigError::MissingHost { index: 1 }),
        Ok(_) => panic!("a configuration without a bind address was accepted"),
    }
}

#[test]
fn duplicate_address_is_reported_with_both_positions() {
    let raws = vec![raw(Some("a:1")), raw(Some("b:2")), raw(Some("a:1"))];
    match resolve_hosts(&raws) {
        Err(e) => assert_eq!(e, ConfigError::DuplicateAddress { first: 0, second: 2 }),
        Ok(_) => panic!("a configuration with a repeated bind address was accepted"),
    }
}

#[test]
fn empty_configuration_starts_no_host() {
    let cfgs = resolve_hosts(&Vec::new()).unwrap();
    assert!(cfgs.is_empty());
}
