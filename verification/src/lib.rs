//! Fixed-capacity sequence containers that keep their elements in place.

pub mod error;
pub mod laws;
pub mod sstring;
pub mod svec;
pub mod text;

pub use crate::sstring::{
    SString, SString1, SString1024, SString128, SString16, SString2, SString2048, SString256,
    SString32, SString4, SString4096, SString512, SString64, SString8, SString8192,
};
pub use crate::svec::{
    IntoIter, SVec, SVec1, SVec1024, SVec128, SVec16, SVec2, SVec2048, SVec256, SVec32, SVec4,
    SVec4096, SVec512, SVec64, SVec8, SVec8192, StackVec,
};
