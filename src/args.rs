use vstd::prelude::*;

verus! {

/// The port the API listens on unless told otherwise.
pub const DEFAULT_PORT: u16 = 8080;

/// Where the API server binds.
#[derive(Clone, Debug)]
pub struct PyrsiaBuildPipelineArgs {
    /// The host address to bind to for the http server
    pub host: String,
    /// the port to listen to for the http server
    pub port: u16,
}

impl Default for PyrsiaBuildPipelineArgs {
    /// The loopback interface on the default port.
    fn default() -> (r: PyrsiaBuildPipelineArgs)
        ensures
            r.host@ == "127.0.0.1"@,
            r.port == DEFAULT_PORT,
    {
        PyrsiaBuildPipelineArgs { host: String::from_str("127.0.0.1"), port: DEFAULT_PORT }
    }
}

} // verus!
