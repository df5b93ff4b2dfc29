//! The known identifier domains of the protocol.

use vstd::prelude::*;

verus! {

pub const DEFAULT_USER: &'static str = "s.whatsapp.net";

pub const GROUP: &'static str = "g.us";

pub const LEGACY_USER: &'static str = "c.us";

pub const BROADCAST: &'static str = "broadcast";

pub const HIDDEN_USER: &'static str = "lid";

pub const MESSENGER: &'static str = "msgr";

pub const INTEROP: &'static str = "interop";

pub const NEWSLETTER: &'static str = "newsletter";

pub const HOSTED: &'static str = "hosted";

pub const HOSTED_LID: &'static str = "hosted.lid";

pub const BOT: &'static str = "bot";

} // verus!
