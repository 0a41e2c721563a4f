//! A verified model of byte-buffer objects of a reference-counted object
//! runtime: owning pointers, the copy capabilities, and the immutable and
//! mutable data classes with their range operations.

pub mod data;
pub mod handle;
pub mod id;
pub mod object;
pub mod range;
pub mod text;

pub use range::NSRange;
pub use data::{INSData, INSMutableData, NSData, NSMutableData};
pub use id::Id;
pub use object::{INSCopying, INSMutableCopying, INSObject, NSObject};
