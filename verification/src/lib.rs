//! Identity facts about the current user and host, normalised.
//!
//! The host-specific resolver hands its answers to the functions of this
//! crate, which apply the policy that does not depend on the host: the closed
//! classifications and their labels, the text and raw forms of each fact, the
//! case folding of host names and the fallback for a missing distribution name.

pub mod query;
pub mod taxonomy;
pub mod text;

pub use crate::query::desktop_env;
pub use crate::query::devicename;
pub use crate::query::devicename_os;
pub use crate::query::distro;
pub use crate::query::distro_os;
pub use crate::query::hostname;
pub use crate::query::hostname_os;
pub use crate::query::lang;
pub use crate::query::platform;
pub use crate::query::realname;
pub use crate::query::realname_os;
pub use crate::query::username;
pub use crate::query::username_os;
pub use crate::taxonomy::DesktopEnv;
pub use crate::taxonomy::Platform;
