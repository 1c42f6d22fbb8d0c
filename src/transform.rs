//! Pure transforms from raw record fields to what a widget shows.
use vstd::prelude::*;

verus! {

/// Text of the status label for a raw status code.
pub open spec fn status_text(code: u8) -> Seq<char> {
    if code == 0 { "Running"@ } else if code == 2 { "Paused"@ } else { "Powered off"@ }
}

/// Resource path of the status icon for a raw status code.
pub open spec fn status_icon_path(code: u8) -> Seq<char> {
    if code == 0 {
        "/org/gnome/controlpanelgui/icons/ellipse_green.svg"@
    } else if code == 2 {
        "/org/gnome/controlpanelgui/icons/ellipse_yellow.svg"@
    } else {
        "/org/gnome/controlpanelgui/icons/ellipse_red.svg"@
    }
}

/// Resource path of the security icon for a raw trust level.
pub open spec fn trust_icon_path(level: u8) -> Seq<char> {
    if level == 1 {
        "/org/gnome/controlpanelgui/icons/security_warning.svg"@
    } else if level == 2 {
        "/org/gnome/controlpanelgui/icons/security_alert.svg"@
    } else {
        "/org/gnome/controlpanelgui/icons/security_secure.svg"@
    }
}

/// Text of the security label for a raw trust level.
pub open spec fn trust_text(level: u8) -> Seq<char> {
    if level == 1 { "Security warning!"@ } else if level == 2 { "Security alert!"@ } else { "Secure!"@ }
}

/// Title of the control section.
pub open spec fn controls_text(is_vm: bool) -> Seq<char> {
    if is_vm { "VM Controls"@ } else { "Service Controls"@ }
}

/// Label shown for a raw status code; unknown codes read as powered off.
pub fn status_label(code: u8) -> (r: &'static str)
    ensures
        r@ == status_text(code),
        code == 0 ==> r@ == "Running"@,
        code == 1 ==> r@ == "Powered off"@,
        code == 2 ==> r@ == "Paused"@,
        code > 2 ==> r@ == "Powered off"@,
{
    match code {
        0 => "Running",
        1 => "Powered off",
        2 => "Paused",
        _ => "Powered off",
    }
}

/// Icon resource for a raw status code; unknown codes show the red indicator.
pub fn status_icon(code: u8) -> (r: &'static str)
    ensures
        r@ == status_icon_path(code),
        code == 0 ==> r@ == "/org/gnome/controlpanelgui/icons/ellipse_green.svg"@,
        code == 1 ==> r@ == "/org/gnome/controlpanelgui/icons/ellipse_red.svg"@,
        code == 2 ==> r@ == "/org/gnome/controlpanelgui/icons/ellipse_yellow.svg"@,
        code > 2 ==> r@ == "/org/gnome/controlpanelgui/icons/ellipse_red.svg"@,
{
    match code {
        0 => "/org/gnome/controlpanelgui/icons/ellipse_green.svg",
        1 => "/org/gnome/controlpanelgui/icons/ellipse_red.svg",
        2 => "/org/gnome/controlpanelgui/icons/ellipse_yellow.svg",
        _ => "/org/gnome/controlpanelgui/icons/ellipse_red.svg",
    }
}

/// Icon resource for a raw trust level; unknown levels show the secure icon.
pub fn trust_icon(level: u8) -> (r: &'static str)
    ensures
        r@ == trust_icon_path(level),
        level == 0 ==> r@ == "/org/gnome/controlpanelgui/icons/security_secure.svg"@,
        level == 1 ==> r@ == "/org/gnome/controlpanelgui/icons/security_warning.svg"@,
        level == 2 ==> r@ == "/org/gnome/controlpanelgui/icons/security_alert.svg"@,
        level > 2 ==> r@ == "/org/gnome/controlpanelgui/icons/security_secure.svg"@,
{
    match level {
        0 => "/org/gnome/controlpanelgui/icons/security_secure.svg",
        1 => "/org/gnome/controlpanelgui/icons/security_warning.svg",
        2 => "/org/gnome/controlpanelgui/icons/security_alert.svg",
        _ => "/org/gnome/controlpanelgui/icons/security_secure.svg",
    }
}

/// Label for a raw trust level; unknown levels read as secure.
pub fn trust_label(level: u8) -> (r: &'static str)
    ensures
        r@ == trust_text(level),
        level == 0 ==> r@ == "Secure!"@,
        level == 1 ==> r@ == "Security warning!"@,
        level == 2 ==> r@ == "Security alert!"@,
        level > 2 ==> r@ == "Secure!"@,
{
    match level {
        0 => "Secure!",
        1 => "Security warning!",
        2 => "Security alert!",
        _ => "Secure!",
    }
}

/// Title of the control section.
pub fn controls_title(is_vm: bool) -> (r: &'static str)
    ensures
        r@ == controls_text(is_vm),
        is_vm ==> r@ == "VM Controls"@,
        !is_vm ==> r@ == "Service Controls"@,
{
    if is_vm {
        "VM Controls"
    } else {
        "Service Controls"
    }
}

} // verus!
