//! What each window message asks of the window shell.
//!
//! The host delivers a message as a number and two machine words. The shell
//! acts on six messages and leaves every other one to the host's default
//! handling. This module decides which is which, and takes the new client size
//! out of the word that comes with a size message.

use crate::geometry::SizeU;
use vstd::prelude::*;

verus! {

/// The number of the message that a window gets when it is created.
pub open spec fn wm_create() -> u32 {
    1
}

/// The number of the message that a window gets when it is destroyed.
pub open spec fn wm_destroy() -> u32 {
    2
}

/// The number of the message that tells a window its new client size.
pub open spec fn wm_size() -> u32 {
    5
}

/// The number of the message that asks a window to paint itself.
pub open spec fn wm_paint() -> u32 {
    15
}

/// The number of the message that asks a window to close.
pub open spec fn wm_close() -> u32 {
    16
}

/// The number of the message that tells a window of a new display mode.
pub open spec fn wm_displaychange() -> u32 {
    126
}

/// The constant `windows::Win32::UI::WindowsAndMessaging::WM_CREATE`, which
/// the bindings define as 1.
#[verifier::external_body]
fn create_message() -> (msg: u32)
    ensures
        msg == wm_create(),
{
    windows::Win32::UI::WindowsAndMessaging::WM_CREATE
}

/// The constant `windows::Win32::UI::WindowsAndMessaging::WM_DESTROY`, which
/// the bindings define as 2.
#[verifier::external_body]
fn destroy_message() -> (msg: u32)
    ensures
        msg == wm_destroy(),
{
    windows::Win32::UI::WindowsAndMessaging::WM_DESTROY
}

/// The constant `windows::Win32::UI::WindowsAndMessaging::WM_SIZE`, which the
/// bindings define as 5.
#[verifier::external_body]
fn size_message() -> (msg: u32)
    ensures
        msg == wm_size(),
{
    windows::Win32::UI::WindowsAndMessaging::WM_SIZE
}

/// The constant `windows::Win32::UI::WindowsAndMessaging::WM_PAINT`, which the
/// bindings define as 15.
#[verifier::external_body]
fn paint_message() -> (msg: u32)
    ensures
        msg == wm_paint(),
{
    windows::Win32::UI::WindowsAndMessaging::WM_PAINT
}

/// The constant `windows::Win32::UI::WindowsAndMessaging::WM_CLOSE`, which the
/// bindings define as 16.
#[verifier::external_body]
fn close_message() -> (msg: u32)
    ensures
        msg == wm_close(),
{
    windows::Win32::UI::WindowsAndMessaging::WM_CLOSE
}

/// The constant `windows::Win32::UI::WindowsAndMessaging::WM_DISPLAYCHANGE`,
/// which the bindings define as 126.
#[verifier::external_body]
fn displaychange_message() -> (msg: u32)
    ensures
        msg == wm_displaychange(),
{
    windows::Win32::UI::WindowsAndMessaging::WM_DISPLAYCHANGE
}

/// What the shell does about one window message.
#[derive(Clone, Copy, Debug, PartialEq, Eq, Structural)]
pub enum Dispatch {
    /// Build the session of the window and keep it for the window's lifetime.
    CreateSession,
    /// Destroy the window.
    DestroyWindow,
    /// Release the session of the window and ask the message loop to end
    /// with exit code 0.
    ReleaseSession,
    /// Mark the whole client area as in need of painting, without erasing it.
    Invalidate,
    /// Paint through the session, drop the outcome, and mark the client area
    /// as painted.
    Paint,
    /// Hand the new client size to the session and drop the outcome.
    Resize { size: SizeU },
    /// Leave the message to the host's default handling.
    Default,
}

/// A 16-bit word read as a signed number and widened to 32 bits: words below
/// 2^15 keep their value, the others get the upper 16 bits set.
pub open spec fn sign_extended(word: int) -> int {
    if word < 0x8000 {
        word
    } else {
        word + 0xFFFF_0000
    }
}

/// The lowest 16 bits of a machine word.
pub open spec fn low_word(word: int) -> int {
    word % 0x1_0000
}

/// The 16 bits above the lowest 16 of a machine word.
pub open spec fn high_word(word: int) -> int {
    (word / 0x1_0000) % 0x1_0000
}

/// The client size packed into the word of a size message: the width in its
/// low 16 bits and the height in the 16 bits above, each read as a signed
/// 16-bit number and widened to 32 bits.
pub open spec fn packed_size(lparam: int) -> SizeU {
    SizeU {
        width: sign_extended(low_word(lparam)) as u32,
        height: sign_extended(high_word(lparam)) as u32,
    }
}

/// What the shell does about message number `msg` that comes with `lparam`.
pub open spec fn dispatch(msg: u32, lparam: int) -> Dispatch {
    if msg == wm_create() {
        Dispatch::CreateSession
    } else if msg == wm_close() {
        Dispatch::DestroyWindow
    } else if msg == wm_destroy() {
        Dispatch::ReleaseSession
    } else if msg == wm_displaychange() {
        Dispatch::Invalidate
    } else if msg == wm_paint() {
        Dispatch::Paint
    } else if msg == wm_size() {
        Dispatch::Resize { size: packed_size(lparam) }
    } else {
        Dispatch::Default
    }
}

/// Widens a 16-bit word by its sign.
fn sign_extend(word: u32) -> (value: u32)
    requires
        word < 0x1_0000,
    ensures
        value == sign_extended(word as int),
{
    if word < 0x8000 {
        word
    } else {
        word + 0xFFFF_0000
    }
}

/// Takes the client size out of the word that comes with a size message.
pub fn size_from_lparam(lparam: isize) -> (size: SizeU)
    ensures
        size == packed_size(lparam as int),
        0 <= lparam < 0x8000_0000 && lparam % 0x1_0000 < 0x8000 ==> size.width == lparam % 0x1_0000
            && size.height == lparam / 0x1_0000,
{
    let lifted: i128 = lparam as i128 + 0x1_0000_0000_0000_0000;
    let low: i128 = lifted % 0x1_0000;
    let high: i128 = (lifted / 0x1_0000) % 0x1_0000;
    SizeU { width: sign_extend(low as u32), height: sign_extend(high as u32) }
}

/// Decides what the shell does about message number `msg` that comes with
/// `lparam`.
pub fn window_proc(msg: u32, lparam: isize) -> (action: Dispatch)
    ensures
        action == dispatch(msg, lparam as int),
{
    if msg == create_message() {
        Dispatch::CreateSession
    } else if msg == close_message() {
        Dispatch::DestroyWindow
    } else if msg == destroy_message() {
        Dispatch::ReleaseSession
    } else if msg == displaychange_message() {
        Dispatch::Invalidate
    } else if msg == paint_message() {
        Dispatch::Paint
    } else if msg == size_message() {
        Dispatch::Resize { size: size_from_lparam(lparam) }
    } else {
        Dispatch::Default
    }
}

impl Dispatch {
    /// The answer that the shell gives the host for a message it acted on: 0.
    /// For a message left to the default handling the answer is the host's.
    pub fn answer(&self) -> (answer: Option<isize>)
        ensures
            answer == if *self == Dispatch::Default {
                None::<isize>
            } else {
                Some(0isize)
            },
    {
        match self {
            Dispatch::Default => None,
            _ => Some(0),
        }
    }
}

} // verus!
