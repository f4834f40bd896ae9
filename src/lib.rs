use vstd::prelude::*;

pub mod bundle;
pub mod handle;
pub mod notices;
pub mod startup;
pub mod system;
pub mod window;

pub use bundle::ServoUiBundle;
pub use handle::ServoHandle;
pub use system::ServoUiSystem;
pub use window::ServoWindow;

verus! {

} // verus!
