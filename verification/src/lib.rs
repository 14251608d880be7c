pub mod codec;
pub mod engine;
pub mod errors;
pub mod gram_schmidt;
pub mod handshake;
pub mod linalg;
pub mod recovery;
pub mod scalar;
pub mod store;
pub mod subspace;
pub mod svd;

pub use codec::{check_shape, decode_components, decode_vector};
pub use errors::VexusError;
pub use gram_schmidt::OrthogonalProjectionResult;
pub use handshake::HandshakeResult;
pub use store::{SearchResult, VexusIndex, VexusStats};
pub use subspace::ProjectResult;
pub use svd::{SvdResult, svd_outcome, svd_select};
