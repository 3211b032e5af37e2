//! The verified core of a package installer's network client and of its
//! resolved pins.
//!
//! One half decides how a client is built: which timeout applies, which
//! certificates are trusted, what the user agent says, and which layers go
//! round the transport. Offline, that is the one layer that rejects every
//! request, whatever else was asked for. The other half renders a resolved
//! pin as a line of a requirements file.
//!
//! Nothing here touches the network, the environment or the file system:
//! the caller reads what is to be read, hands it over as plain values, and
//! makes what the answer describes.

pub mod base_client;
pub mod connectivity;
pub mod extras;
pub mod laws;
pub mod middleware;
pub mod order;
pub mod resolution;
pub mod scheme;
pub mod text;
pub mod timeout;
pub mod tls;
pub mod warnings;

pub use base_client::{
    BaseClient, BaseClientBuilder, ComposedClient, Environment, Layer, MarkerEnvironment, OfflineError, Platform,
    Transport, TransportConfig,
};
pub use connectivity::Connectivity;
pub use middleware::{KeyringProviderType, Middleware, MiddlewareStack};
pub use resolution::{AnnotatedDist, HashAlgorithm, HashDigest, Metadata23, ResolvedDist, UrlForm, VersionOrUrl};
pub use tls::{CertFile, TrustStore};
pub use warnings::WarningSink;
