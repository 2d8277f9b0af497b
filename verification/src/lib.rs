pub mod identity;

pub use identity::IdentityAllocator;
pub use identity::TensorId;
