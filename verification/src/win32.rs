//! The Win32 identifiers the engine works with.
//!
//! The numbers are those of the `windows` crate. Executable code reads them
//! from that crate through the private functions at the end of this file;
//! contracts name them through the constants below.

use vstd::prelude::*;

verus! {

/// Message identifier of a paint request.
pub const WM_PAINT: u32 = 0x000F;

/// Message identifier of a pending move or resize.
pub const WM_WINDOWPOSCHANGING: u32 = 0x0046;

/// Message identifier of the last message a window receives while it is destroyed.
pub const WM_NCDESTROY: u32 = 0x0082;

/// Window-position flag: keep the current size.
pub const SWP_NOSIZE: u32 = 0x0001;

/// Window-position flag: keep the current position.
pub const SWP_NOMOVE: u32 = 0x0002;

/// Text-format flag: centre horizontally.
pub const DT_CENTER: u32 = 0x0001;

/// Text-format flag: centre vertically.
pub const DT_VCENTER: u32 = 0x0004;

/// Text-format flag: one line, no breaks.
pub const DT_SINGLELINE: u32 = 0x0020;

/// Loader notification: the module is being unloaded from the process.
pub const DLL_PROCESS_DETACH: u32 = 0;

/// Loader notification: the module has been loaded into the process.
pub const DLL_PROCESS_ATTACH: u32 = 1;

/// Reads `windows::Win32::UI::WindowsAndMessaging::WM_PAINT`.
/// Trusted: the crate defines it as 15.
#[verifier::external_body]
pub(crate) fn wm_paint() -> (id: u32)
    ensures
        id == WM_PAINT,
{
    windows::Win32::UI::WindowsAndMessaging::WM_PAINT
}

/// Reads `windows::Win32::UI::WindowsAndMessaging::WM_WINDOWPOSCHANGING`.
/// Trusted: the crate defines it as 70.
#[verifier::external_body]
pub(crate) fn wm_windowposchanging() -> (id: u32)
    ensures
        id == WM_WINDOWPOSCHANGING,
{
    windows::Win32::UI::WindowsAndMessaging::WM_WINDOWPOSCHANGING
}

/// Reads `windows::Win32::UI::WindowsAndMessaging::WM_NCDESTROY`.
/// Trusted: the crate defines it as 130.
#[verifier::external_body]
pub(crate) fn wm_ncdestroy() -> (id: u32)
    ensures
        id == WM_NCDESTROY,
{
    windows::Win32::UI::WindowsAndMessaging::WM_NCDESTROY
}

/// Reads the number inside `windows::Win32::UI::WindowsAndMessaging::SWP_NOSIZE`.
/// Trusted: the crate defines it as `SET_WINDOW_POS_FLAGS(1)`.
#[verifier::external_body]
pub(crate) fn swp_nosize() -> (flag: u32)
    ensures
        flag == SWP_NOSIZE,
{
    windows::Win32::UI::WindowsAndMessaging::SWP_NOSIZE.0
}

/// Reads the number inside `windows::Win32::UI::WindowsAndMessaging::SWP_NOMOVE`.
/// Trusted: the crate defines it as `SET_WINDOW_POS_FLAGS(2)`.
#[verifier::external_body]
pub(crate) fn swp_nomove() -> (flag: u32)
    ensures
        flag == SWP_NOMOVE,
{
    windows::Win32::UI::WindowsAndMessaging::SWP_NOMOVE.0
}

/// Reads the number inside `windows::Win32::Graphics::Gdi::DT_CENTER`.
/// Trusted: the crate defines it as `DRAW_TEXT_FORMAT(1)`.
#[verifier::external_body]
pub(crate) fn dt_center() -> (flag: u32)
    ensures
        flag == DT_CENTER,
{
    windows::Win32::Graphics::Gdi::DT_CENTER.0
}

/// Reads the number inside `windows::Win32::Graphics::Gdi::DT_VCENTER`.
/// Trusted: the crate defines it as `DRAW_TEXT_FORMAT(4)`.
#[verifier::external_body]
pub(crate) fn dt_vcenter() -> (flag: u32)
    ensures
        flag == DT_VCENTER,
{
    windows::Win32::Graphics::Gdi::DT_VCENTER.0
}

/// Reads the number inside `windows::Win32::Graphics::Gdi::DT_SINGLELINE`.
/// Trusted: the crate defines it as `DRAW_TEXT_FORMAT(32)`.
#[verifier::external_body]
pub(crate) fn dt_singleline() -> (flag: u32)
    ensures
        flag == DT_SINGLELINE,
{
    windows::Win32::Graphics::Gdi::DT_SINGLELINE.0
}

/// Reads `windows::Win32::System::SystemServices::DLL_PROCESS_ATTACH`.
/// Trusted: the crate defines it as 1.
#[verifier::external_body]
pub(crate) fn dll_process_attach() -> (reason: u32)
    ensures
        reason == DLL_PROCESS_ATTACH,
{
    windows::Win32::System::SystemServices::DLL_PROCESS_ATTACH
}

/// Reads `windows::Win32::System::SystemServices::DLL_PROCESS_DETACH`.
/// Trusted: the crate defines it as 0.
#[verifier::external_body]
pub(crate) fn dll_process_detach() -> (reason: u32)
    ensures
        reason == DLL_PROCESS_DETACH,
{
    windows::Win32::System::SystemServices::DLL_PROCESS_DETACH
}

} // verus!
