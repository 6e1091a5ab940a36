//! The settings of the bridge: how to reach the hub and the lighting
//! controller.

use vstd::prelude::*;
use vstd::string::StringExecFns;

verus! {

/// How to reach the hub: the certificates to show it and its address.
#[derive(Debug, PartialEq, Eq)]
pub struct CasetaConfig {
    pub ca_cert_path: String,
    pub cert_path: String,
    pub key_path: String,
    pub address: String,
}

pub struct CasetaConfigView {
    pub ca_cert_path: Seq<char>,
    pub cert_path: Seq<char>,
    pub key_path: Seq<char>,
    pub address: Seq<char>,
}

impl View for CasetaConfig {
    type V = CasetaConfigView;

    open spec fn view(&self) -> CasetaConfigView {
        CasetaConfigView {
            ca_cert_path: self.ca_cert_path@,
            cert_path: self.cert_path@,
            key_path: self.key_path@,
            address: self.address@,
        }
    }
}

impl Clone for CasetaConfig {
    fn clone(&self) -> (copy: CasetaConfig)
        ensures
            copy@ == self@,
    {
        CasetaConfig {
            ca_cert_path: self.ca_cert_path.clone(),
            cert_path: self.cert_path.clone(),
            key_path: self.key_path.clone(),
            address: self.address.clone(),
        }
    }
}

impl CasetaConfig {
    /// The address and port at which the hub takes requests.
    pub fn endpoint(&self) -> (endpoint: String)
        ensures
            endpoint@ == self.address@ + ":8081"@,
    {
        self.address.clone().concat(":8081")
    }
}

/// How to reach the lighting controller: its address and the token it asks
/// for.
#[derive(Debug, PartialEq, Eq)]
pub struct AuroraConfig {
    pub address: String,
    pub token: String,
}

pub struct AuroraConfigView {
    pub address: Seq<char>,
    pub token: Seq<char>,
}

impl View for AuroraConfig {
    type V = AuroraConfigView;

    open spec fn view(&self) -> AuroraConfigView {
        AuroraConfigView { address: self.address@, token: self.token@ }
    }
}

impl Clone for AuroraConfig {
    fn clone(&self) -> (copy: AuroraConfig)
        ensures
            copy@ == self@,
    {
        AuroraConfig { address: self.address.clone(), token: self.token.clone() }
    }
}

impl AuroraConfig {
    /// The address and port at which the lighting controller takes calls.
    pub fn endpoint(&self) -> (endpoint: String)
        ensures
            endpoint@ == self.address@ + ":16021"@,
    {
        self.address.clone().concat(":16021")
    }
}

/// The settings of the bridge.
#[derive(Debug, PartialEq, Eq)]
pub struct Config {
    pub caseta: CasetaConfig,
    pub aurora: AuroraConfig,
}

pub struct ConfigView {
    pub caseta: CasetaConfigView,
    pub aurora: AuroraConfigView,
}

impl View for Config {
    type V = ConfigView;

    open spec fn view(&self) -> ConfigView {
        ConfigView { caseta: self.caseta@, aurora: self.aurora@ }
    }
}

impl Clone for Config {
    fn clone(&self) -> (copy: Config)
        ensures
            copy@ == self@,
    {
        Config { caseta: self.caseta.clone(), aurora: self.aurora.clone() }
    }
}

} // verus!
