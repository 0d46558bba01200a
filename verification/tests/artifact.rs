use azalea_viaversion::artifact::{
    artifact_record, via_oauth_name, via_oauth_version, via_proxy_name, via_proxy_version, Artifact,
};
use azalea_viaversion::version::Version;

#[test]
fn releases() {
    assert_eq!(via_proxy_version(), Version::new(3, 4, 7));
    assert_eq!(via_oauth_version(), Version::new(1, 0, 2));
}

#[test]
fn proxy_name_for_a_modern_runtime() {
    assert_eq!(via_proxy_name(&Version::new(17, 0, 0)), "ViaProxy-3.4.7.jar");
    assert_eq!(via_proxy_name(&Version::new(24, 0, 0)), "ViaProxy-3.4.7.jar");
}

#[test]
fn proxy_name_for_an_older_runtime() {
    assert_eq!(via_proxy_name(&Version::new(16, 9, 9)), "ViaProxy-3.4.7+java8.jar");
    assert_eq!(via_proxy_name(&Version::new(1, 8, 0)), "ViaProxy-3.4.7+java8.jar");
    assert_eq!(via_proxy_name(&Version::new(0, 0, 0)), "ViaProxy-3.4.7+java8.jar");
}

#[test]
fn auth_bridge_name() {
    assert_eq!(via_oauth_name(), "ViaProxyOpenAuthMod-1.0.2.jar");
}

#[test]
fn proxy_record() {
    let record = artifact_record(Artifact::Proxy, &Version::new(21, 0, 1));
    assert_eq!(record.name, "ViaProxy-3.4.7.jar");
    assert_eq!(
        record.url,
        "https://github.com/ViaVersion/ViaProxy/releases/download/v3.4.7/ViaProxy-3.4.7.jar"
    );
    assert_eq!(record.dir, "azalea-viaversion");
}

#[test]
fn proxy_record_for_an_older_runtime() {
    let record = artifact_record(Artifact::Proxy, &Version::new(11, 0, 25));
    assert_eq!(record.name, "ViaProxy-3.4.7+java8.jar");
    assert_eq!(
        record.url,
        "https://github.com/ViaVersion/ViaProxy/releases/download/v3.4.7/ViaProxy-3.4.7+java8.jar"
    );
    assert_eq!(record.dir, "azalea-viaversion");
}

#[test]
fn auth_bridge_record() {
    let record = artifact_record(Artifact::AuthBridge, &Version::new(8, 0, 0));
    assert_eq!(record.name, "ViaProxyOpenAuthMod-1.0.2.jar");
    assert_eq!(
        record.url,
        "https://github.com/ViaVersionAddons/ViaProxyOpenAuthMod/releases/download/v1.0.2/ViaProxyOpenAuthMod-1.0.2.jar"
    );
    assert_eq!(record.dir, "azalea-viaversion/plugins");
}
