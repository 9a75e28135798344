//! Toast notifications on the Android host.

use vstd::prelude::*;

verus! {

/// An extension that runs on the Android side: the host calls `init` once,
/// when it loads the extension.
pub trait Extension {
    /// Entry point
    fn init();
}

/// How long a toast stays on screen.
#[derive(Debug, Clone, Copy, PartialEq, Eq, Structural)]
pub enum ToastDuration {
    Short,
    Long,
}

impl ToastDuration {
    /// The byte that stands for this duration on the host boundary.
    pub open spec fn code(self) -> u8 {
        match self {
            ToastDuration::Short => 0,
            ToastDuration::Long => 1,
        }
    }
}

/// The duration byte sent with a toast: that of `duration`, or that of
/// `Short` when none is given.
pub open spec fn toast_duration_code_spec(duration: Option<ToastDuration>) -> u8 {
    match duration {
        Some(d) => d.code(),
        None => ToastDuration::Short.code(),
    }
}

/// Computes the duration byte to hand to the host for a toast.
pub fn toast_duration_code(duration: Option<ToastDuration>) -> (code: u8)
    ensures
        code == toast_duration_code_spec(duration),
{
    match duration {
        Some(ToastDuration::Long) => 1,
        Some(ToastDuration::Short) => 0,
        None => 0,
    }
}

} // verus!
