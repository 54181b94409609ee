//! The services the updater watches.
//!
//! A service is read-only input to the updater: its group name, its
//! topology and update strategy, the identity currently installed, the
//! partially qualified identity it follows, and where new packages come
//! from. The one thing the updater writes back is the installed identity,
//! when a freshly installed package is applied.

use crate::ident::{IdentView, PackageIdent};
use vstd::prelude::*;

verus! {

/// How the service runs across the cluster.
#[derive(Clone, Copy, Debug, PartialEq, Eq, Structural)]
pub enum Topology {
    /// Each node runs independently.
    Standalone,
    /// The nodes elect a work leader.
    Leader,
}

/// How the service is upgraded when a newer package appears.
#[derive(Clone, Copy, Debug, PartialEq, Eq, Structural)]
pub enum UpdateStrategy {
    /// Never upgrade automatically.
    Disabled,
    /// Apply any newer package immediately.
    AtOnce,
    /// Coordinate a rolling upgrade across the group.
    Rolling,
}

/// The mathematical value of a service.
#[verifier::ext_equal]
pub ghost struct ServiceView {
    pub service_group: Seq<char>,
    pub topology: Topology,
    pub update_strategy: UpdateStrategy,
    pub pkg_ident: IdentView,
    pub spec_ident: IdentView,
    pub bldr_url: Seq<char>,
    pub channel: Seq<char>,
}

impl ServiceView {
    /// The same service with another installed identity.
    pub open spec fn with_ident(self, ident: IdentView) -> ServiceView {
        ServiceView { pkg_ident: ident, ..self }
    }
}

/// One service under the supervisor's care.
#[derive(Debug)]
pub struct Service {
    /// The cluster-wide name of the logical service.
    pub service_group: String,
    pub topology: Topology,
    pub update_strategy: UpdateStrategy,
    /// The fully qualified identity currently installed.
    pub pkg_ident: PackageIdent,
    /// The partially qualified identity the service follows.
    pub spec_ident: PackageIdent,
    /// Base URL of the artifact repository.
    pub bldr_url: String,
    /// The release channel watched for new packages.
    pub channel: String,
}

impl View for Service {
    type V = ServiceView;

    open spec fn view(&self) -> ServiceView {
        ServiceView {
            service_group: self.service_group@,
            topology: self.topology,
            update_strategy: self.update_strategy,
            pkg_ident: self.pkg_ident@,
            spec_ident: self.spec_ident@,
            bldr_url: self.bldr_url@,
            channel: self.channel@,
        }
    }
}

impl Service {
    /// Records that `ident` has been installed and applied.
    pub fn update_package(&mut self, ident: PackageIdent)
        ensures
            final(self)@ == old(self)@.with_ident(ident@),
    {
        self.pkg_ident = ident;
        proof {
            assert(self@ =~= old(self)@.with_ident(self.pkg_ident@));
        }
    }
}

} // verus!
