//! The builder for a network prover configuration: the settings a remote
//! proving client is created from.
use vstd::prelude::*;

verus! {

/// The validated configuration of a network prover.
#[derive(Clone, Debug, PartialEq, Eq)]
pub struct NetworkProver {
    /// The private key used to authenticate with the proving network.
    pub private_key: String,
    /// The RPC endpoint, where one was chosen.
    pub rpc_url: Option<String>,
    /// Whether to skip local simulation before submitting.
    pub skip_simulation: bool,
}

/// Builder type for a network prover.
#[derive(Clone, Debug, PartialEq, Eq)]
pub struct NetworkProverBuilder {
    /// The private key, once set.
    pub private_key: Option<String>,
    /// The RPC endpoint, once set.
    pub rpc_url: Option<String>,
    /// Whether to skip local simulation before submitting.
    pub skip_simulation: bool,
}

impl NetworkProverBuilder {
    /// Creates a builder with nothing set.
    pub fn new() -> (r: NetworkProverBuilder)
        ensures
            r == (NetworkProverBuilder { private_key: None, rpc_url: None, skip_simulation: false }),
    {
        NetworkProverBuilder { private_key: None, rpc_url: None, skip_simulation: false }
    }

    /// Sets the private key.
    pub fn private_key(self, private_key: String) -> (r: NetworkProverBuilder)
        ensures
            r == (NetworkProverBuilder { private_key: Some(private_key), ..self }),
    {
        NetworkProverBuilder { private_key: Some(private_key), ..self }
    }

    /// Sets the RPC URL.
    pub fn rpc_url(self, rpc_url: String) -> (r: NetworkProverBuilder)
        ensures
            r == (NetworkProverBuilder { rpc_url: Some(rpc_url), ..self }),
    {
        NetworkProverBuilder { rpc_url: Some(rpc_url), ..self }
    }

    /// Skips simulation.
    pub fn skip_simulation(self) -> (r: NetworkProverBuilder)
        ensures
            r == (NetworkProverBuilder { skip_simulation: true, ..self }),
    {
        NetworkProverBuilder { skip_simulation: true, ..self }
    }

    /// Creates the network prover configuration. The private key is
    /// required.
    pub fn build_v2(self) -> (r: NetworkProver)
        requires
            self.private_key is Some,
        ensures
            r == (NetworkProver {
                private_key: self.private_key.unwrap(),
                rpc_url: self.rpc_url,
                skip_simulation: self.skip_simulation,
            }),
    {
        let private_key = self.private_key.unwrap();
        NetworkProver { private_key, rpc_url: self.rpc_url, skip_simulation: self.skip_simulation }
    }
}

impl Default for NetworkProverBuilder {
    /// Returns a builder with nothing set.
    fn default() -> (r: NetworkProverBuilder)
        ensures
            r == (NetworkProverBuilder { private_key: None, rpc_url: None, skip_simulation: false }),
    {
        NetworkProverBuilder::new()
    }
}

} // verus!
