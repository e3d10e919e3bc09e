//! Startup parameters of the agent, loaded once and handed out as copies.

use vstd::prelude::*;

verus! {

/// The startup parameters, as the configuration file gives them.
#[derive(Debug, PartialEq, Eq)]
pub struct ConfigFile {
    /// Enables diagnostic tracing of overflow and dispatch events.
    pub verbose: bool,
    /// Interval between two dispatcher ticks.
    pub dispatch_sleep_ms: u64,
    /// Capacity of the bounded queue.
    pub maximum_log_entries: usize,
    /// Expected identity of the remote collector.
    pub remote_certificate: String,
    /// Network address of the collector.
    pub remote_address: String,
    /// Network port of the collector.
    pub remote_port: u16,
    /// Largest frame the transport may send.
    pub network_mtu: usize,
    /// Reference to the local client identity.
    pub secure_identity: String,
    /// Secret that unlocks the local identity.
    pub secure_identity_password: String,
}

/// What a `ConfigFile` holds, as mathematical values.
pub struct ConfigView {
    pub verbose: bool,
    pub dispatch_sleep_ms: u64,
    pub maximum_log_entries: usize,
    pub remote_certificate: Seq<char>,
    pub remote_address: Seq<char>,
    pub remote_port: u16,
    pub network_mtu: usize,
    pub secure_identity: Seq<char>,
    pub secure_identity_password: Seq<char>,
}

impl View for ConfigFile {
    type V = ConfigView;

    open spec fn view(&self) -> ConfigView {
        ConfigView {
            verbose: self.verbose,
            dispatch_sleep_ms: self.dispatch_sleep_ms,
            maximum_log_entries: self.maximum_log_entries,
            remote_certificate: self.remote_certificate@,
            remote_address: self.remote_address@,
            remote_port: self.remote_port,
            network_mtu: self.network_mtu,
            secure_identity: self.secure_identity@,
            secure_identity_password: self.secure_identity_password@,
        }
    }
}

impl Clone for ConfigFile {
    fn clone(&self) -> (copy: Self)
        ensures
            copy@ == self@,
    {
        ConfigFile {
            verbose: self.verbose,
            dispatch_sleep_ms: self.dispatch_sleep_ms,
            maximum_log_entries: self.maximum_log_entries,
            remote_certificate: self.remote_certificate.clone(),
            remote_address: self.remote_address.clone(),
            remote_port: self.remote_port,
            network_mtu: self.network_mtu,
            secure_identity: self.secure_identity.clone(),
            secure_identity_password: self.secure_identity_password.clone(),
        }
    }
}

/// Holds the parameters that were loaded at startup. Nothing changes them afterwards:
/// components get copies.
pub struct ConfigProvider {
    snapshot: ConfigFile,
}

impl View for ConfigProvider {
    type V = ConfigView;

    closed spec fn view(&self) -> ConfigView {
        self.snapshot@
    }
}

/// Keeps `object` as the parameters of this run.
pub fn initialize(object: ConfigFile) -> (provider: ConfigProvider)
    ensures
        provider@ == object@,
{
    ConfigProvider { snapshot: object }
}

/// A copy of the parameters of this run.
pub fn get_clone(provider: &ConfigProvider) -> (copy: ConfigFile)
    ensures
        copy@ == provider@,
{
    provider.snapshot.clone()
}

} // verus!
