use vstd::prelude::*;

use crate::events::{Key, MouseButton};

verus! {

/// The key identity, if any, that a GLFW key code stands for. GLFW names
/// each physical key by a small integer; codes outside the normalized set
/// map to `None` and the platform event is dropped.
pub open spec fn spec_key_from_code(code: i32) -> Option<Key> {
    match code {
        32 => Some(Key::Space),
        39 => Some(Key::Apostrophe),
        44 => Some(Key::Comma),
        45 => Some(Key::Minus),
        46 => Some(Key::Period),
        47 => Some(Key::Slash),
        48 => Some(Key::Num0),
        49 => Some(Key::Num1),
        50 => Some(Key::Num2),
        51 => Some(Key::Num3),
        52 => Some(Key::Num4),
        53 => Some(Key::Num5),
        54 => Some(Key::Num6),
        55 => Some(Key::Num7),
        56 => Some(Key::Num8),
        57 => Some(Key::Num9),
        59 => Some(Key::Semicolon),
        61 => Some(Key::Equal),
        65 => Some(Key::A),
        66 => Some(Key::B),
        67 => Some(Key::C),
        68 => Some(Key::D),
        69 => Some(Key::E),
        70 => Some(Key::F),
        71 => Some(Key::G),
        72 => Some(Key::H),
        73 => Some(Key::I),
        74 => Some(Key::J),
        75 => Some(Key::K),
        76 => Some(Key::L),
        77 => Some(Key::M),
        78 => Some(Key::N),
        79 => Some(Key::O),
        80 => Some(Key::P),
        81 => Some(Key::Q),
        82 => Some(Key::R),
        83 => Some(Key::S),
        84 => Some(Key::T),
        85 => Some(Key::U),
        86 => Some(Key::V),
        87 => Some(Key::W),
        88 => Some(Key::X),
        89 => Some(Key::Y),
        90 => Some(Key::Z),
        91 => Some(Key::LeftBracket),
        92 => Some(Key::Backslash),
        93 => Some(Key::RightBracket),
        96 => Some(Key::GraveAccent),
        161 => Some(Key::World1),
        162 => Some(Key::World2),
        256 => Some(Key::Escape),
        257 => Some(Key::Enter),
        258 => Some(Key::Tab),
        259 => Some(Key::Backspace),
        260 => Some(Key::Insert),
        261 => Some(Key::Delete),
        262 => Some(Key::Right),
        263 => Some(Key::Left),
        264 => Some(Key::Down),
        265 => Some(Key::Up),
        266 => Some(Key::PageUp),
        267 => Some(Key::PageDown),
        268 => Some(Key::Home),
        269 => Some(Key::End),
        280 => Some(Key::CapsLock),
        281 => Some(Key::ScrollLock),
        282 => Some(Key::NumLock),
        283 => Some(Key::PrintScreen),
        284 => Some(Key::Pause),
        290 => Some(Key::F1),
        291 => Some(Key::F2),
        292 => Some(Key::F3),
        293 => Some(Key::F4),
        294 => Some(Key::F5),
        295 => Some(Key::F6),
        296 => Some(Key::F7),
        297 => Some(Key::F8),
        298 => Some(Key::F9),
        299 => Some(Key::F10),
        300 => Some(Key::F11),
        301 => Some(Key::F12),
        302 => Some(Key::F13),
        303 => Some(Key::F14),
        304 => Some(Key::F15),
        305 => Some(Key::F16),
        306 => Some(Key::F17),
        307 => Some(Key::F18),
        308 => Some(Key::F19),
        309 => Some(Key::F20),
        310 => Some(Key::F21),
        311 => Some(Key::F22),
        312 => Some(Key::F23),
        313 => Some(Key::F24),
        314 => Some(Key::F25),
        320 => Some(Key::Kp0),
        321 => Some(Key::Kp1),
        322 => Some(Key::Kp2),
        323 => Some(Key::Kp3),
        324 => Some(Key::Kp4),
        325 => Some(Key::Kp5),
        326 => Some(Key::Kp6),
        327 => Some(Key::Kp7),
        328 => Some(Key::Kp8),
        329 => Some(Key::Kp9),
        330 => Some(Key::KpDecimal),
        331 => Some(Key::KpDivide),
        332 => Some(Key::KpMultiply),
        333 => Some(Key::KpSubtract),
        334 => Some(Key::KpAdd),
        335 => Some(Key::KpEnter),
        336 => Some(Key::KpEqual),
        340 => Some(Key::LeftShift),
        341 => Some(Key::LeftControl),
        342 => Some(Key::LeftAlt),
        343 => Some(Key::LeftSuper),
        344 => Some(Key::RightShift),
        345 => Some(Key::RightControl),
        346 => Some(Key::RightAlt),
        347 => Some(Key::RightSuper),
        348 => Some(Key::Menu),
        _ => None,
    }
}

/// The normalized mouse button, if any, that a GLFW button code stands for.
pub open spec fn spec_button_from_code(code: i32) -> Option<MouseButton> {
    match code {
        0 => Some(MouseButton::Left),
        1 => Some(MouseButton::Right),
        2 => Some(MouseButton::Middle),
        3 => Some(MouseButton::X1),
        4 => Some(MouseButton::X2),
        _ => None,
    }
}

/// Maps a GLFW key code to the engine's platform-independent key identity.
/// Codes the normalized enumeration does not cover are filtered out.
pub fn map_glfw_key_to_internal(key: i32) -> (r: Option<Key>)
    ensures
        r == spec_key_from_code(key),
{
    match key {
        32 => Some(Key::Space),
        39 => Some(Key::Apostrophe),
        44 => Some(Key::Comma),
        45 => Some(Key::Minus),
        46 => Some(Key::Period),
        47 => Some(Key::Slash),
        48 => Some(Key::Num0),
        49 => Some(Key::Num1),
        50 => Some(Key::Num2),
        51 => Some(Key::Num3),
        52 => Some(Key::Num4),
        53 => Some(Key::Num5),
        54 => Some(Key::Num6),
        55 => Some(Key::Num7),
        56 => Some(Key::Num8),
        57 => Some(Key::Num9),
        59 => Some(Key::Semicolon),
        61 => Some(Key::Equal),
        65 => Some(Key::A),
        66 => Some(Key::B),
        67 => Some(Key::C),
        68 => Some(Key::D),
        69 => Some(Key::E),
        70 => Some(Key::F),
        71 => Some(Key::G),
        72 => Some(Key::H),
        73 => Some(Key::I),
        74 => Some(Key::J),
        75 => Some(Key::K),
        76 => Some(Key::L),
        77 => Some(Key::M),
        78 => Some(Key::N),
        79 => Some(Key::O),
        80 => Some(Key::P),
        81 => Some(Key::Q),
        82 => Some(Key::R),
        83 => Some(Key::S),
        84 => Some(Key::T),
        85 => Some(Key::U),
        86 => Some(Key::V),
        87 => Some(Key::W),
        88 => Some(Key::X),
        89 => Some(Key::Y),
        90 => Some(Key::Z),
        91 => Some(Key::LeftBracket),
        92 => Some(Key::Backslash),
        93 => Some(Key::RightBracket),
        96 => Some(Key::GraveAccent),
        161 => Some(Key::World1),
        162 => Some(Key::World2),
        256 => Some(Key::Escape),
        257 => Some(Key::Enter),
        258 => Some(Key::Tab),
        259 => Some(Key::Backspace),
        260 => Some(Key::Insert),
        261 => Some(Key::Delete),
        262 => Some(Key::Right),
        263 => Some(Key::Left),
        264 => Some(Key::Down),
        265 => Some(Key::Up),
        266 => Some(Key::PageUp),
        267 => Some(Key::PageDown),
        268 => Some(Key::Home),
        269 => Some(Key::End),
        280 => Some(Key::CapsLock),
        281 => Some(Key::ScrollLock),
        282 => Some(Key::NumLock),
        283 => Some(Key::PrintScreen),
        284 => Some(Key::Pause),
        290 => Some(Key::F1),
        291 => Some(Key::F2),
        292 => Some(Key::F3),
        293 => Some(Key::F4),
        294 => Some(Key::F5),
        295 => Some(Key::F6),
        296 => Some(Key::F7),
        297 => Some(Key::F8),
        298 => Some(Key::F9),
        299 => Some(Key::F10),
        300 => Some(Key::F11),
        301 => Some(Key::F12),
        302 => Some(Key::F13),
        303 => Some(Key::F14),
        304 => Some(Key::F15),
        305 => Some(Key::F16),
        306 => Some(Key::F17),
        307 => Some(Key::F18),
        308 => Some(Key::F19),
        309 => Some(Key::F20),
        310 => Some(Key::F21),
        311 => Some(Key::F22),
        312 => Some(Key::F23),
        313 => Some(Key::F24),
        314 => Some(Key::F25),
        320 => Some(Key::Kp0),
        321 => Some(Key::Kp1),
        322 => Some(Key::Kp2),
        323 => Some(Key::Kp3),
        324 => Some(Key::Kp4),
        325 => Some(Key::Kp5),
        326 => Some(Key::Kp6),
        327 => Some(Key::Kp7),
        328 => Some(Key::Kp8),
        329 => Some(Key::Kp9),
        330 => Some(Key::KpDecimal),
        331 => Some(Key::KpDivide),
        332 => Some(Key::KpMultiply),
        333 => Some(Key::KpSubtract),
        334 => Some(Key::KpAdd),
        335 => Some(Key::KpEnter),
        336 => Some(Key::KpEqual),
        340 => Some(Key::LeftShift),
        341 => Some(Key::LeftControl),
        342 => Some(Key::LeftAlt),
        343 => Some(Key::LeftSuper),
        344 => Some(Key::RightShift),
        345 => Some(Key::RightControl),
        346 => Some(Key::RightAlt),
        347 => Some(Key::RightSuper),
        348 => Some(Key::Menu),
        _ => None,
    }
}

/// Maps a GLFW mouse button code to the engine's normalized button.
pub fn map_glfw_btn_to_internal(btn: i32) -> (r: Option<MouseButton>)
    ensures
        r == spec_button_from_code(btn),
{
    match btn {
        0 => Some(MouseButton::Left),
        1 => Some(MouseButton::Right),
        2 => Some(MouseButton::Middle),
        3 => Some(MouseButton::X1),
        4 => Some(MouseButton::X2),
        _ => None,
    }
}

} // verus!
