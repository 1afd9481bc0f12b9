//! The configuration of the REST service.
use vstd::prelude::*;
use vstd::string::StringExecFns;

verus! {

/// The model of the service's configuration.
pub struct RestServiceModel {
    pub bind_address: Seq<char>,
    pub port: u16,
    pub max_limit: usize,
    pub swagger_ui_enabled: bool,
}

/// The configuration of the REST service: where it listens, the largest
/// page it serves, and whether it serves the interactive documentation.
pub struct RestService {
    bind_address: String,
    port: u16,
    max_limit: usize,
    swagger_ui_enabled: bool,
}

impl View for RestService {
    type V = RestServiceModel;

    closed spec fn view(&self) -> RestServiceModel {
        RestServiceModel {
            bind_address: self.bind_address@,
            port: self.port,
            max_limit: self.max_limit,
            swagger_ui_enabled: self.swagger_ui_enabled,
        }
    }
}

impl RestService {
    /// The configuration of a service that nothing was said about: it
    /// listens on `127.0.0.1:8081`, serves pages of 100 entries at most and
    /// no interactive documentation.
    pub open spec fn initial() -> RestServiceModel {
        RestServiceModel {
            bind_address: "127.0.0.1"@,
            port: 8081,
            max_limit: 100,
            swagger_ui_enabled: false,
        }
    }

    /// The initial configuration.
    pub fn new() -> (service: RestService)
        ensures
            service@ == Self::initial(),
    {
        RestService {
            bind_address: String::from_str("127.0.0.1"),
            port: 8081,
            max_limit: 100,
            swagger_ui_enabled: false,
        }
    }

    /// The same configuration with another address and port.
    pub fn configure(self, bind_address: String, port: u16) -> (service: RestService)
        ensures
            service@ == (RestServiceModel { bind_address: bind_address@, port, ..self@ }),
    {
        RestService {
            bind_address,
            port,
            max_limit: self.max_limit,
            swagger_ui_enabled: self.swagger_ui_enabled,
        }
    }

    /// The same configuration with another largest page.
    pub fn with_max_limit(self, max_limit: usize) -> (service: RestService)
        ensures
            service@ == (RestServiceModel { max_limit, ..self@ }),
    {
        RestService {
            bind_address: self.bind_address,
            port: self.port,
            max_limit,
            swagger_ui_enabled: self.swagger_ui_enabled,
        }
    }

    /// The same configuration with the interactive documentation switched
    /// on or off.
    pub fn with_swagger_ui_enabled(self, swagger_ui_enabled: bool) -> (service: RestService)
        ensures
            service@ == (RestServiceModel { swagger_ui_enabled, ..self@ }),
    {
        RestService {
            bind_address: self.bind_address,
            port: self.port,
            max_limit: self.max_limit,
            swagger_ui_enabled,
        }
    }

    /// The name under which the service is known.
    pub fn name(&self) -> (name: &'static str)
        ensures
            name@ == "rest"@,
    {
        "rest"
    }

    /// The address on which the service listens.
    pub fn bind_address(&self) -> (address: &str)
        ensures
            address@ == self@.bind_address,
    {
        self.bind_address.as_str()
    }

    /// The port on which the service listens.
    pub fn port(&self) -> (port: u16)
        ensures
            port == self@.port,
    {
        self.port
    }

    /// The largest page that the service serves.
    pub fn max_limit(&self) -> (max_limit: usize)
        ensures
            max_limit == self@.max_limit,
    {
        self.max_limit
    }

    /// Whether the service serves the interactive documentation.
    pub fn swagger_ui_enabled(&self) -> (enabled: bool)
        ensures
            enabled == self@.swagger_ui_enabled,
    {
        self.swagger_ui_enabled
    }
}

impl Default for RestService {
    fn default() -> (service: RestService)
        ensures
            service@ == RestService::initial(),
    {
        RestService::new()
    }
}

} // verus!
