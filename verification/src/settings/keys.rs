//! Well-known setting keys.

use vstd::prelude::*;

verus! {

/// Display theme, `"dark"` or `"light"` (a JSON value).
pub const UI_THEME: &'static str = "ui.theme";

/// Font size, an integer (a JSON value).
pub const UI_FONT_SIZE: &'static str = "ui.font_size";

/// Log level: `"debug"`, `"info"`, `"warn"` or `"error"`.
pub const LOG_LEVEL: &'static str = "log.level";

} // verus!
