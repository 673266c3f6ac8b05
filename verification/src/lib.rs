//! The boundary between the Magika classifier engine and callers outside of
//! Rust: envelopes, the flattened type record, and the order in which what
//! crossed the boundary is released again.

pub mod engine;
pub mod envelope;
pub mod error;
pub mod identify;
pub mod release;
pub mod session;
pub mod text;
pub mod type_info;

pub use crate::envelope::ResultWrap;
pub use crate::error::{Error, SUCCESS};
pub use crate::identify::{
    describe, identification, magika_identify_file_sync, magika_type_info_free, path_to_identify,
};
pub use crate::release::Release;
pub use crate::session::{magika_session_free, magika_session_new};
pub use crate::type_info::{TypeDescriptor, TypeInfo};
