//! Configuration: the three process-lifetime settings, resolved once at
//! startup and never mutated afterwards.

use vstd::prelude::*;

verus! {

/// The relay's process-lifetime settings: the node's RPC base address, the
/// credential sent verbatim as the `Authorization` header of pin requests,
/// and the address the relay itself serves on.
#[derive(Debug)]
pub struct Config {
    pub ipfs_node_rpc: String,
    pub pinata_authorization: String,
    pub bind: String,
}

/// Why startup must fail: the pin-service credential has no default, so its
/// absence leaves the relay unable to serve any request.
#[derive(Clone, Copy, PartialEq, Eq, Structural, Debug)]
pub enum ConfigError {
    MissingPinataAuthorization,
}

/// The default base address of the node's RPC endpoint.
pub open spec fn spec_default_ipfs_node_rpc() -> Seq<char> {
    "http://localhost:5001"@
}

/// The default address the relay serves on.
pub open spec fn spec_default_bind() -> Seq<char> {
    "0.0.0.0:8000"@
}

/// Resolves the startup settings from whatever the command line or the
/// environment supplied. The node address and the bind address fall back to
/// their defaults; the pin-service credential has none, and its absence is
/// the one resolution error. Checking that the two addresses parse is the
/// caller's to do before any socket is bound.
pub fn resolve_config(
    ipfs_node_rpc: Option<String>,
    pinata_authorization: Option<String>,
    bind: Option<String>,
) -> (r: Result<Config, ConfigError>)
    ensures
        r is Ok <==> pinata_authorization is Some,
        r matches Err(e) ==> e == ConfigError::MissingPinataAuthorization,
        r matches Ok(c) ==> {
            &&& c.pinata_authorization@ == (match pinata_authorization {
                Some(a) => a@,
                None => Seq::<char>::empty(),
            })
            &&& c.ipfs_node_rpc@ == (match ipfs_node_rpc {
                Some(u) => u@,
                None => spec_default_ipfs_node_rpc(),
            })
            &&& c.bind@ == (match bind {
                Some(b) => b@,
                None => spec_default_bind(),
            })
        },
{
    let authorization = match pinata_authorization {
        Some(a) => a,
        None => {
            return Err(ConfigError::MissingPinataAuthorization);
        },
    };
    let node = match ipfs_node_rpc {
        Some(u) => u,
        None => "http://localhost:5001".to_owned(),
    };
    let bind_to = match bind {
        Some(b) => b,
        None => "0.0.0.0:8000".to_owned(),
    };
    Ok(Config { ipfs_node_rpc: node, pinata_authorization: authorization, bind: bind_to })
}

} // verus!
