//! The notification-area icon: its menu, the events the menu sends, and the UTF-16 text the
//! Windows API takes.
use vstd::prelude::*;

verus! {

/// The check marks of the tray menu.
#[derive(Debug, Clone, Copy, Default, PartialEq, Eq, Structural)]
pub struct TrayMenuState {
    pub noise_suppression_enabled: bool,
    pub start_on_login_enabled: bool,
    pub wind_noise_reduction_enabled: bool,
    pub echo_cancellation_enabled: bool,
}

/// What the user asked for in the tray.
#[derive(Debug, Clone, Copy, PartialEq, Eq, Structural)]
pub enum TrayEvent {
    ShowWindow,
    ToggleNoiseSuppression,
    ToggleStartOnLogin,
    ToggleWindNoiseReduction,
    ToggleEchoCancellation,
    Exit,
}

pub const MENU_SHOW: u32 = 1001;

pub const MENU_TOGGLE_DENOISE: u32 = 1002;

pub const MENU_TOGGLE_STARTUP: u32 = 1003;

pub const MENU_TOGGLE_WIND: u32 = 1004;

pub const MENU_TOGGLE_ECHO: u32 = 1005;

pub const MENU_EXIT: u32 = 1099;

/// The event for a chosen menu command; nothing for a dismissed menu or an unknown command.
pub fn tray_event_for_command(command: u32) -> (r: Option<TrayEvent>)
    ensures
        r == if command == MENU_SHOW {
            Some(TrayEvent::ShowWindow)
        } else if command == MENU_TOGGLE_DENOISE {
            Some(TrayEvent::ToggleNoiseSuppression)
        } else if command == MENU_TOGGLE_STARTUP {
            Some(TrayEvent::ToggleStartOnLogin)
        } else if command == MENU_TOGGLE_WIND {
            Some(TrayEvent::ToggleWindNoiseReduction)
        } else if command == MENU_TOGGLE_ECHO {
            Some(TrayEvent::ToggleEchoCancellation)
        } else if command == MENU_EXIT {
            Some(TrayEvent::Exit)
        } else {
            None
        },
{
    if command == MENU_SHOW {
        Some(TrayEvent::ShowWindow)
    } else if command == MENU_TOGGLE_DENOISE {
        Some(TrayEvent::ToggleNoiseSuppression)
    } else if command == MENU_TOGGLE_STARTUP {
        Some(TrayEvent::ToggleStartOnLogin)
    } else if command == MENU_TOGGLE_WIND {
        Some(TrayEvent::ToggleWindNoiseReduction)
    } else if command == MENU_TOGGLE_ECHO {
        Some(TrayEvent::ToggleEchoCancellation)
    } else if command == MENU_EXIT {
        Some(TrayEvent::Exit)
    } else {
        None
    }
}

/// One entry of the tray menu.
#[derive(Debug, Clone, Copy, PartialEq, Eq)]
pub enum TrayMenuItem {
    Item { id: u32, label: &'static str },
    Checked { id: u32, label: &'static str, checked: bool },
    Separator,
}

/// The tray menu: open, a separator, the four switches with their marks, a separator, exit.
pub fn tray_menu_items(state: TrayMenuState) -> (r: Vec<TrayMenuItem>)
    ensures
        r@.len() == 8,
        r@[0] matches TrayMenuItem::Item { id, label } && id == MENU_SHOW && label@ == "打开 ClearLine"@,
        r@[1] is Separator,
        r@[2] matches TrayMenuItem::Checked { id, label, checked } && id == MENU_TOGGLE_DENOISE
            && label@ == "降噪"@ && checked == state.noise_suppression_enabled,
        r@[3] matches TrayMenuItem::Checked { id, label, checked } && id == MENU_TOGGLE_STARTUP
            && label@ == "开机自启动"@ && checked == state.start_on_login_enabled,
        r@[4] matches TrayMenuItem::Checked { id, label, checked } && id == MENU_TOGGLE_WIND
            && label@ == "抗风噪增强"@ && checked == state.wind_noise_reduction_enabled,
        r@[5] matches TrayMenuItem::Checked { id, label, checked } && id == MENU_TOGGLE_ECHO
            && label@ == "回音消除"@ && checked == state.echo_cancellation_enabled,
        r@[6] is Separator,
        r@[7] matches TrayMenuItem::Item { id, label } && id == MENU_EXIT && label@ == "退出 ClearLine"@,
{
    let mut r: Vec<TrayMenuItem> = Vec::new();
    r.push(TrayMenuItem::Item { id: MENU_SHOW, label: "打开 ClearLine" });
    r.push(TrayMenuItem::Separator);
    r.push(TrayMenuItem::Checked { id: MENU_TOGGLE_DENOISE, label: "降噪", checked: state.noise_suppression_enabled });
    r.push(TrayMenuItem::Checked { id: MENU_TOGGLE_STARTUP, label: "开机自启动", checked: state.start_on_login_enabled });
    r.push(TrayMenuItem::Checked { id: MENU_TOGGLE_WIND, label: "抗风噪增强", checked: state.wind_noise_reduction_enabled });
    r.push(TrayMenuItem::Checked { id: MENU_TOGGLE_ECHO, label: "回音消除", checked: state.echo_cancellation_enabled });
    r.push(TrayMenuItem::Separator);
    r.push(TrayMenuItem::Item { id: MENU_EXIT, label: "退出 ClearLine" });
    r
}

// ---------------------------------------------------------------------------------------------
// UTF-16
// ---------------------------------------------------------------------------------------------

/// The UTF-16 code units of one character: itself below U+10000, a surrogate pair above.
pub open spec fn utf16_units(c: char) -> Seq<u16> {
    let u = c as u32;
    if u < 0x10000 {
        seq![u as u16]
    } else {
        let v = (u - 0x10000) as int;
        seq![(0xD800 + v / 1024) as u16, (0xDC00 + v % 1024) as u16]
    }
}

/// The UTF-16 encoding of a string (`str::encode_utf16`).
pub open spec fn utf16(s: Seq<char>) -> Seq<u16>
    decreases s.len(),
{
    if s.len() == 0 {
        Seq::empty()
    } else {
        utf16(s.drop_last()) + utf16_units(s.last())
    }
}

fn push_utf16(out: &mut Vec<u16>, c: char)
    ensures
        final(out)@ == old(out)@ + utf16_units(c),
{
    let u = c as u32;
    if u < 0x10000 {
        out.push(u as u16);
        assert(out@ =~= old(out)@ + utf16_units(c));
    } else {
        assert(u <= 0x10FFFF);
        let v = u - 0x10000;
        out.push((0xD800 + v / 1024) as u16);
        out.push((0xDC00 + v % 1024) as u16);
        assert(out@ =~= old(out)@ + utf16_units(c));
    }
}

/// The UTF-16 encoding of `value`.
pub fn encode_utf16(value: &str) -> (r: Vec<u16>)
    ensures
        r@ == utf16(value@),
{
    let chars = crate::text::chars_of(value);
    let mut r: Vec<u16> = Vec::new();
    let mut i: usize = 0;
    while i < chars.len()
        invariant
            i <= chars@.len(),
            r@ == utf16(chars@.take(i as int)),
        decreases chars.len() - i,
    {
        push_utf16(&mut r, chars[i]);
        assert(chars@.take(i + 1).drop_last() =~= chars@.take(i as int));
        i += 1;
    }
    assert(chars@.take(chars.len() as int) =~= chars@);
    r
}

/// The UTF-16 encoding of `value` followed by a terminating zero, as Win32 takes strings.
pub fn to_wide(value: &str) -> (r: Vec<u16>)
    ensures
        r@ == utf16(value@).push(0u16),
{
    let mut r = encode_utf16(value);
    r.push(0);
    r
}

/// Writes `value` as UTF-16 into a fixed buffer: zero-filled, at most all but the last unit
/// used, so the text always ends with a zero.
pub fn write_wide_fixed(buffer: &mut [u16], value: &str)
    ensures
        ({
            let units = utf16(value@);
            let len = old(buffer)@.len();
            let max_len: int = if len >= 1 { len - 1 } else { 0 };
            let used: int = if units.len() < max_len { units.len() as int } else { max_len };
            &&& final(buffer)@.len() == len
            &&& forall|i: int| 0 <= i < used ==> final(buffer)@[i] == units[i]
            &&& forall|i: int| used <= i < len ==> final(buffer)@[i] == 0
        }),
{
    let units = encode_utf16(value);
    let len = buffer.len();
    let max_len: usize = if len >= 1 { len - 1 } else { 0 };
    let used: usize = if units.len() < max_len { units.len() } else { max_len };
    let mut i: usize = 0;
    while i < len
        invariant
            len == buffer@.len(),
            i <= len,
            used <= max_len,
            max_len <= len,
            used <= units@.len(),
            units@ == utf16(value@),
            used == if units@.len() < max_len { units@.len() } else { max_len as nat },
            forall|j: int| 0 <= j < i && j < used ==> buffer@[j] == units@[j],
            forall|j: int| used <= j < i ==> buffer@[j] == 0,
        decreases len - i,
    {
        if i < used {
            buffer[i] = units[i];
        } else {
            buffer[i] = 0;
        }
        i += 1;
    }
}

} // verus!
