use service_status::registry::Service;

#[test]
fn every_listed_key_is_found() {
    for key in Service::to_keys() {
        let svc = Service::from_name(&key).expect("listed key must be found");
        assert_eq!(svc.to_key(), key.as_str());
        assert!(!svc.to_base_url().is_empty());
    }
}

#[test]
fn unlisted_names_are_not_found() {
    assert_eq!(Service::from_name("not-a-real-service"), None);
    assert_eq!(Service::from_name("GitHub"), None);
    assert_eq!(Service::from_name(""), None);
    assert_eq!(Service::from_name("github "), None);
    assert_eq!(Service::from_name("intercom"), None);
}

#[test]
fn keys_and_entries_agree() {
    let keys = Service::to_keys();
    let entries = Service::to_entries();
    assert_eq!(keys.len(), 18);
    assert_eq!(keys.len(), entries.len());
    for (k, e) in keys.iter().zip(entries.iter()) {
        assert_eq!(k, &e.0);
    }
    assert_eq!(keys[0], "openai");
    assert_eq!(keys[6], "github");
    assert_eq!(keys[17], "coinbase");
    assert_eq!(entries[4], ("digitalocean".to_string(), "Digital Ocean".to_string()));
    assert_eq!(entries[15], ("newrelic".to_string(), "New Relic".to_string()));
}

#[test]
fn urls_are_built_from_hosts() {
    assert_eq!(Service::Github.to_base_url(), "www.githubstatus.com");
    assert_eq!(
        Service::Github.to_url(),
        "https://www.githubstatus.com/api/v2/components.json"
    );
    assert_eq!(
        Service::Bitbucket.to_url(),
        "https://bitbucket.status.atlassian.com/api/v2/components.json"
    );
    assert_eq!(Service::from_name("npm"), Some(Service::Npm));
    assert_eq!(Service::Npm.to_base_url(), "status.npmjs.org");
}

#[test]
fn from_index_follows_catalogue_order() {
    let keys = Service::to_keys();
    for (i, key) in keys.iter().enumerate() {
        assert_eq!(Service::from_index(i).to_key(), key.as_str());
    }
}
