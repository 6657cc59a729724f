//! Type-level bitflags: a flag group is a container type over an unsigned
//! integer, one zero-sized marker type per flag, and a combinator that
//! stands for the union of two members without materialising it.
//!
//! A group is declared by naming a tag type, a representation and the
//! number of flags; each flag is a marker type of its index:
//!
//! ```ignore
//! pub struct ColorTag;
//! pub type Color = Flags<ColorTag, u64, 3>;
//! pub type Red = Flag<Color, 0>;
//! pub type Green = Flag<Color, 1>;
//! pub type Blue = Flag<Color, 2>;
//! pub type Warm = Or<Red, Green>;
//! ```

pub mod flags;
pub mod laws;
pub mod marker;
pub mod member;
pub mod or;
pub mod repr;

pub use flags::{DeclarationError, Flags};
pub use marker::Flag;
pub use member::{and_set, FlagSet, SetMember};
pub use or::Or;
pub use repr::Repr;
