use std::collections::HashMap;

use ovh::credential::Credential;

/// The sample configuration shipped beside the default configuration file.
const CONFIG_TOML_DIST: &str = "[default]
endpoint = \"ovh-eu\"

[ovh-eu]
application_key = \"ak\"
application_secret = \"as\"
consumer_key = \"ck\"
";

fn load_dist() -> Credential {
    Credential::new_from_file("Config.toml.dist", Some(CONFIG_TOML_DIST)).unwrap()
}

#[test]
fn test_application_key() {
    let cred = load_dist();
    let res = cred.application_key;
    assert_eq!("ak", res);
}

#[test]
fn test_application_secret() {
    let cred = load_dist();
    let res = cred.application_secret;
    assert_eq!("as", res);
}

#[test]
fn test_consumer_key() {
    let cred = load_dist();
    let res = cred.consumer_key;
    assert_eq!("ck", res);
}

#[test]
fn test_host() {
    let cred = load_dist();
    let res = cred.host;
    assert_eq!("eu.api.ovh.com", res);
}

#[test]
fn test_endpoint2host() {
    let mut test_hosts: HashMap<&str, String> = HashMap::new();
    test_hosts.insert("ovh-ca", "ca.api.ovh.com".to_string());
    test_hosts.insert("ovh-eu", "eu.api.ovh.com".to_string());
    test_hosts.insert("ovh-us", "us.api.ovh.com".to_string());

    test_hosts.insert("soyoustart-ca", "ca.api.soyoustart.com".to_string());
    test_hosts.insert("soyoustart-eu", "eu.api.soyoustart.com".to_string());

    test_hosts.insert("kimsufi-ca", "ca.api.kimsufi.com".to_string());
    test_hosts.insert("kimsufi-eu", "eu.api.kimsufi.com".to_string());

    test_hosts.insert("idontexist-nw", "api.ovh.com".to_string());

    for (endpoint, expected_host) in test_hosts {
        let cred = Credential::new_with_application(endpoint, "test", "test");
        assert_eq!(expected_host.to_string(), cred.host);
    }
}
