//! A validation pipeline over ordered sequences: every element is checked as
//! it passes through a chain of adapters, and each element becomes either an
//! accepted value or a rejection with a reason. Rejections never stop the
//! stream; every adapter hands an already-rejected element on unchanged.

pub mod at_least;
pub mod at_most;
pub mod between;
pub mod cast_errs;
pub mod const_over;
pub mod ensure;
pub mod lift_errs;
pub mod look_back;
pub mod msg;
pub mod valid_err;
pub mod valid_result;
pub mod validatable;
pub mod validate;

pub use at_least::AtLeast;
pub use at_most::AtMost;
pub use between::Between;
pub use cast_errs::CastErrs;
pub use cast_errs::ErrCastable;
pub use const_over::ConstOver;
pub use ensure::Ensure;
pub use lift_errs::ErrLiftable;
pub use lift_errs::LiftErrs;
pub use look_back::LookBack;
pub use msg::MsgPusher;
pub use valid_err::ValidErr;
pub use valid_result::VResult;
pub use validatable::Unvalidatable;
pub use validatable::Validatable;
pub use validate::Validate;
