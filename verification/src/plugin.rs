//! The plugin itself: where the proxy is bound, which protocol version it
//! speaks to the server, and which forwarding proxy it goes through.

use vstd::prelude::*;
use crate::address::BindAddr;
use crate::text::owned;

verus! {

/// One running proxy, as the client sees it. It is made once, when the
/// proxy is started, and does not change afterwards.
#[derive(Clone, Debug, PartialEq, Eq)]
pub struct ViaVersionPlugin {
    bind_addr: BindAddr,
    mc_version: String,
    proxy: Option<String>,
}

/// What a plugin holds.
pub struct PluginView {
    /// The local address that the proxy is bound to.
    pub bind_addr: BindAddr,
    /// The protocol version that the proxy speaks to the server.
    pub mc_version: Seq<char>,
    /// The address of the forwarding proxy that the traffic goes through.
    pub proxy: Option<Seq<char>>,
}

impl View for ViaVersionPlugin {
    type V = PluginView;

    closed spec fn view(&self) -> PluginView {
        PluginView {
            bind_addr: self.bind_addr,
            mc_version: self.mc_version@,
            proxy: match self.proxy {
                Some(url) => Some(url@),
                None => None,
            },
        }
    }
}

/// The warning for a connection that names a proxy of its own.
pub open spec fn proxy_warning() -> Seq<char> {
    "You are using JoinOpts::proxy and ViaVersionPlugin at the same time, which is not a supported configuration. Please set your proxy with `ViaVersionPlugin::start_with_proxy` instead."@
}

impl ViaVersionPlugin {
    /// A plugin for a proxy that is bound to `bind_addr` and speaks
    /// `mc_version` to the server.
    pub fn start(mc_version: &str, bind_addr: BindAddr) -> (plugin: ViaVersionPlugin)
        ensures
            plugin@ == (PluginView { bind_addr, mc_version: mc_version@, proxy: None }),
    {
        ViaVersionPlugin { bind_addr, mc_version: owned(mc_version), proxy: None }
    }

    /// As `start`, for a proxy whose traffic goes through the forwarding
    /// proxy at the address `proxy`.
    pub fn start_with_proxy(mc_version: &str, bind_addr: BindAddr, proxy: &str) -> (plugin:
        ViaVersionPlugin)
        ensures
            plugin@ == (PluginView { bind_addr, mc_version: mc_version@, proxy: Some(proxy@) }),
    {
        ViaVersionPlugin { bind_addr, mc_version: owned(mc_version), proxy: Some(owned(proxy)) }
    }

    /// The local address that the proxy is bound to.
    pub fn bind_addr(&self) -> (bind_addr: BindAddr)
        ensures
            bind_addr == self@.bind_addr,
    {
        self.bind_addr
    }

    /// The protocol version that the proxy speaks to the server.
    pub fn mc_version(&self) -> (mc_version: &str)
        ensures
            mc_version@ == self@.mc_version,
    {
        self.mc_version.as_str()
    }

    /// The address of the forwarding proxy, where there is one.
    pub fn proxy(&self) -> (proxy: Option<&str>)
        ensures
            match proxy {
                Some(url) => self@.proxy == Some(url@),
                None => self@.proxy is None,
            },
    {
        match &self.proxy {
            Some(url) => Some(url.as_str()),
            None => None,
        }
    }

    /// The warning to log for a connection that is about to be opened:
    /// there is one exactly where the connection names a proxy of its own,
    /// which does not go together with this plugin.
    pub fn warn_about_proxy(server_proxy: bool) -> (warning: Option<String>)
        ensures
            match warning {
                Some(text) => server_proxy && text@ == proxy_warning(),
                None => !server_proxy,
            },
    {
        if server_proxy {
            Some(
                owned(
                    "You are using JoinOpts::proxy and ViaVersionPlugin at the same time, which is not a supported configuration. Please set your proxy with `ViaVersionPlugin::start_with_proxy` instead.",
                ),
            )
        } else {
            None
        }
    }
}

} // verus!
