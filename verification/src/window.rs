//! The toasts that tell the user what became of the main window.

use vstd::prelude::*;
use vstd::string::*;
use crate::notification::{Toast, ToastLevel};

verus! {

/// The toast for a window that was shown.
pub fn notify_window_shown() -> (r: Toast)
    ensures
        r.message@ == "窗口已显示"@,
        r.level == ToastLevel::Info,
{
    Toast { message: String::from_str("窗口已显示"), level: ToastLevel::Info }
}

/// The toast for a window that was hidden.
pub fn notify_window_hidden() -> (r: Toast)
    ensures
        r.message@ == "窗口已隐藏"@,
        r.level == ToastLevel::Info,
{
    Toast { message: String::from_str("窗口已隐藏"), level: ToastLevel::Info }
}

/// The toast for a window that was minimized.
pub fn notify_window_minimized() -> (r: Toast)
    ensures
        r.message@ == "窗口已最小化"@,
        r.level == ToastLevel::Info,
{
    Toast { message: String::from_str("窗口已最小化"), level: ToastLevel::Info }
}

/// The toast for a window that was maximized.
pub fn notify_window_maximized() -> (r: Toast)
    ensures
        r.message@ == "窗口已最大化"@,
        r.level == ToastLevel::Info,
{
    Toast { message: String::from_str("窗口已最大化"), level: ToastLevel::Info }
}

/// The toast for a window that entered or left full screen.
pub fn notify_window_fullscreen(is_fullscreen: bool) -> (r: Toast)
    ensures
        r.message@ == (if is_fullscreen {
            "已进入全屏模式"@
        } else {
            "已退出全屏模式"@
        }),
        r.level == ToastLevel::Info,
{
    if is_fullscreen {
        Toast { message: String::from_str("已进入全屏模式"), level: ToastLevel::Info }
    } else {
        Toast { message: String::from_str("已退出全屏模式"), level: ToastLevel::Info }
    }
}

} // verus!
