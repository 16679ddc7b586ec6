pub mod emit;
pub mod laws;
pub mod model;
pub mod seqtext;
pub mod validate;

pub use emit::WriteError;
pub use model::CType;
pub use model::NPItem;
pub use model::PItem;
pub use model::RawNPItem;
pub use model::RawPItem;
pub use model::Spec;
pub use model::ValidationError;
