//! Module for re-exporting common types and traits.

pub use crate::{
    converse::{Dialogate, Dialoge, DialogeStatus},
    error::PamError,
    raw::{RawMessage, RawResponse},
};
