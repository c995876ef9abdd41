use vstd::prelude::*;

use crate::state::BackendPort;

verus! {

/// The greeting for `name`.
pub open spec fn greeting(name: Seq<char>) -> Seq<char> {
    "Bonjour "@ + name + " ! Je suis THÉRÈSE, votre assistante."@
}

/// Greets `name`; the interface calls it to check that the host answers.
pub fn greet(name: &str) -> (r: String)
    ensures
        r@ == greeting(name@),
{
    String::from_str("Bonjour ").concat(name).concat(" ! Je suis THÉRÈSE, votre assistante.")
}

/// A description of the host, for diagnostics.
pub struct SystemInfo {
    pub os: String,
    pub arch: String,
    pub version: String,
}

/// The port on which the interface reaches the backend.
pub fn get_backend_port(state: &BackendPort) -> (r: u16)
    ensures
        r == state.value(),
{
    state.get()
}

} // verus!
