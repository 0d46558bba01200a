//! The files that the proxy needs on disk: what they are called, where they
//! come from and where they go.

use vstd::prelude::*;
use crate::text::push_text;
use crate::version::Version;

verus! {

/// One of the two files to provide.
#[derive(Clone, Copy, Debug, PartialEq, Eq, Structural)]
pub enum Artifact {
    /// The proxy itself.
    Proxy,
    /// The plugin through which the proxy asks the client to authenticate.
    AuthBridge,
}

/// A file to provide: its name, the address it is fetched from, and the
/// directory it goes to, given from the data directory on with `/` between
/// the segments.
#[derive(Clone, Debug, PartialEq, Eq)]
pub struct ArtifactRecord {
    pub name: String,
    pub url: String,
    pub dir: String,
}

/// The newest runtime major version that still needs the proxy in its older
/// packaging is one below this.
pub const MODERN_RUNTIME: u64 = 17;

/// The release of the proxy that is used.
pub open spec fn proxy_release() -> Version {
    Version { major: 3, minor: 4, patch: 7 }
}

/// The release of the authentication plugin that is used.
pub open spec fn auth_bridge_release() -> Version {
    Version { major: 1, minor: 0, patch: 2 }
}

/// The end of the proxy's file name: older runtimes need another packaging.
pub open spec fn packaging(runtime_major: u64) -> Seq<char> {
    if runtime_major < MODERN_RUNTIME {
        "+java8.jar"@
    } else {
        ".jar"@
    }
}

/// The file name of the proxy for a runtime of the given major version.
pub open spec fn proxy_name(runtime_major: u64) -> Seq<char> {
    "ViaProxy-"@ + proxy_release().text() + packaging(runtime_major)
}

/// The address that the proxy is fetched from.
pub open spec fn proxy_url(runtime_major: u64) -> Seq<char> {
    "https://github.com/ViaVersion/ViaProxy/releases/download/v"@ + proxy_release().text() + "/"@
        + proxy_name(runtime_major)
}

/// The file name of the authentication plugin.
pub open spec fn auth_bridge_name() -> Seq<char> {
    "ViaProxyOpenAuthMod-"@ + auth_bridge_release().text() + ".jar"@
}

/// The address that the authentication plugin is fetched from.
pub open spec fn auth_bridge_url() -> Seq<char> {
    "https://github.com/ViaVersionAddons/ViaProxyOpenAuthMod/releases/download/v"@
        + auth_bridge_release().text() + "/"@ + auth_bridge_name()
}

/// The directory of the proxy, and of the process that runs it.
pub open spec fn proxy_dir() -> Seq<char> {
    "azalea-viaversion"@
}

/// The directory of the proxy's plugins.
pub open spec fn plugins_dir() -> Seq<char> {
    "azalea-viaversion/plugins"@
}

/// Whether `record` is the record of `artifact` for a runtime of the given
/// major version.
pub open spec fn describes(record: ArtifactRecord, artifact: Artifact, runtime_major: u64) -> bool {
    match artifact {
        Artifact::Proxy => {
            &&& record.name@ == proxy_name(runtime_major)
            &&& record.url@ == proxy_url(runtime_major)
            &&& record.dir@ == proxy_dir()
        },
        Artifact::AuthBridge => {
            &&& record.name@ == auth_bridge_name()
            &&& record.url@ == auth_bridge_url()
            &&& record.dir@ == plugins_dir()
        },
    }
}

/// The release of the proxy that is used.
pub fn via_proxy_version() -> (release: Version)
    ensures
        release == proxy_release(),
{
    Version { major: 3, minor: 4, patch: 7 }
}

/// The release of the authentication plugin that is used.
pub fn via_oauth_version() -> (release: Version)
    ensures
        release == auth_bridge_release(),
{
    Version { major: 1, minor: 0, patch: 2 }
}

/// The file name of the proxy for the runtime `java`.
pub fn via_proxy_name(java: &Version) -> (name: String)
    ensures
        name@ == proxy_name(java.major),
{
    let mut name = String::new();
    push_text(&mut name, "ViaProxy-");
    let release = via_proxy_version().to_text();
    push_text(&mut name, release.as_str());
    if java.major < MODERN_RUNTIME {
        push_text(&mut name, "+java8.jar");
    } else {
        push_text(&mut name, ".jar");
    }
    assert(name@ =~= proxy_name(java.major));
    name
}

/// The file name of the authentication plugin.
pub fn via_oauth_name() -> (name: String)
    ensures
        name@ == auth_bridge_name(),
{
    let mut name = String::new();
    push_text(&mut name, "ViaProxyOpenAuthMod-");
    let release = via_oauth_version().to_text();
    push_text(&mut name, release.as_str());
    push_text(&mut name, ".jar");
    assert(name@ =~= auth_bridge_name());
    name
}

/// The record of `artifact` for the runtime `java`.
pub fn artifact_record(artifact: Artifact, java: &Version) -> (record: ArtifactRecord)
    ensures
        describes(record, artifact, java.major),
{
    match artifact {
        Artifact::Proxy => {
            let name = via_proxy_name(java);
            let release = via_proxy_version().to_text();
            let mut url = String::new();
            push_text(&mut url, "https://github.com/ViaVersion/ViaProxy/releases/download/v");
            push_text(&mut url, release.as_str());
            push_text(&mut url, "/");
            push_text(&mut url, name.as_str());
            let mut dir = String::new();
            push_text(&mut dir, "azalea-viaversion");
            assert(url@ =~= proxy_url(java.major));
            assert(dir@ =~= proxy_dir());
            ArtifactRecord { name, url, dir }
        },
        Artifact::AuthBridge => {
            let name = via_oauth_name();
            let release = via_oauth_version().to_text();
            let mut url = String::new();
            push_text(
                &mut url,
                "https://github.com/ViaVersionAddons/ViaProxyOpenAuthMod/releases/download/v",
            );
            push_text(&mut url, release.as_str());
            push_text(&mut url, "/");
            push_text(&mut url, name.as_str());
            let mut dir = String::new();
            push_text(&mut dir, "azalea-viaversion/plugins");
            assert(url@ =~= auth_bridge_url());
            assert(dir@ =~= plugins_dir());
            ArtifactRecord { name, url, dir }
        },
    }
}

} // verus!
