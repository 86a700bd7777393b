//! The TLS modes of `sigil:host/net-policy@1.0.0`. The policy itself is
//! answered by the host import `get-tls-mode`, which is not part of this crate.
use vstd::prelude::*;

verus! {

/// The operator-selected TLS mode of a granted logical endpoint.
#[derive(Clone, Copy, Debug, PartialEq, Eq, Structural)]
pub enum TlsMode {
    Disabled,
    Direct,
    Upgrade,
}

} // verus!
