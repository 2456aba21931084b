//! What is settled before the exporter serves: where the configuration is
//! read from and where the server listens.

use vstd::prelude::*;

verus! {

/// The address that the server listens on where none is given.
pub const DEFAULT_LISTEN_ADDR: &'static str = "127.0.0.1:9753";

/// The path of the configuration file: the one from the command line, or
/// else the one from the environment.
pub fn config_path<'a, P: ?Sized>(cli: Option<&'a P>, env: Option<&'a P>) -> (r: Option<&'a P>)
    ensures
        r == match cli {
            Some(path) => Some(path),
            None => env,
        },
{
    match cli {
        Some(path) => Some(path),
        None => env,
    }
}

/// The address that the server listens on: the one from the command line
/// where it is given and well formed, or else the one from the environment
/// where that is, or else the default. An address that is given but not
/// well formed comes in as `None`.
pub fn listen_addr<A>(cli: Option<A>, env: Option<A>, fallback: A) -> (r: A)
    ensures
        r == match cli {
            Some(address) => address,
            None => match env {
                Some(address) => address,
                None => fallback,
            },
        },
{
    match cli {
        Some(address) => address,
        None => match env {
            Some(address) => address,
            None => fallback,
        },
    }
}

} // verus!
