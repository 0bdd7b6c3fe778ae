use vstd::prelude::*;

verus! {

/// Icons of the application.
#[derive(Clone, Copy, Debug, PartialEq, Eq, Structural)]
pub enum AppIcon {
    SyncDisabled,
    SyncEnabled,
    SyncError,
    GeneralSuccess,
    GeneralError,
    GeneralPending,
}

/// The asset path of an icon.
pub open spec fn spec_icon_path(icon: AppIcon) -> Seq<char> {
    match icon {
        AppIcon::SyncDisabled => "icons/refresh-cw-off.svg"@,
        AppIcon::SyncEnabled => "icons/refresh-cw.svg"@,
        AppIcon::SyncError => "icons/server-crash.svg"@,
        AppIcon::GeneralSuccess => "icons/circle-check.svg"@,
        AppIcon::GeneralError => "icons/circle-x.svg"@,
        AppIcon::GeneralPending => "icons/circle-ellipsis.svg"@,
    }
}

impl AppIcon {
    /// The asset path of this icon.
    pub fn path(self) -> (p: &'static str)
        ensures
            p@ == spec_icon_path(self),
    {
        match self {
            AppIcon::SyncDisabled => "icons/refresh-cw-off.svg",
            AppIcon::SyncEnabled => "icons/refresh-cw.svg",
            AppIcon::SyncError => "icons/server-crash.svg",
            AppIcon::GeneralSuccess => "icons/circle-check.svg",
            AppIcon::GeneralError => "icons/circle-x.svg",
            AppIcon::GeneralPending => "icons/circle-ellipsis.svg",
        }
    }
}

} // verus!
