use vstd::prelude::*;

verus! {

/// Bitmask flags that classify an event's broad kind, so that consumers can
/// filter cheaply without matching on every variant.
pub struct Category;

impl Category {
    pub const APPLICATION: u8 = 1;
    pub const INPUT: u8 = 2;
    pub const KEYBOARD: u8 = 4;
    pub const MOUSE: u8 = 8;
}

/// A normalized occurrence (window lifecycle, application tick, or input)
/// carried through the frame queue.
#[derive(Clone, Copy, PartialEq, Eq, Structural, Debug)]
#[allow(inconsistent_fields)]
pub enum Event {
    WindowClose,
    WindowResize { width: u32, height: u32 },
    WindowFocus,
    WindowLostFocus,
    WindowMoved { x: u32, y: u32 },
    AppTick,
    AppUpdate,
    AppRender,
    KeyPressed { key: Key },
    KeyReleased { key: Key },
    MouseButtonPressed { btn: MouseButton },
    MouseButtonReleased { btn: MouseButton },
    MouseMoved { x: u64, y: u64 },
    MouseScrolled { x: u64, y: u64 },
}

/// The fixed category mask of each event variant. The mapping is total and
/// depends only on the variant tag, never on payload values.
pub open spec fn spec_category_flags(e: Event) -> u8 {
    match e {
        Event::WindowClose => Category::APPLICATION | Category::INPUT,
        Event::WindowResize { .. } => Category::APPLICATION | Category::INPUT,
        Event::WindowFocus => Category::APPLICATION | Category::INPUT,
        Event::WindowLostFocus => Category::APPLICATION | Category::INPUT,
        Event::WindowMoved { .. } => Category::APPLICATION | Category::INPUT,
        Event::AppTick => Category::APPLICATION,
        Event::AppUpdate => Category::APPLICATION,
        Event::AppRender => Category::APPLICATION,
        Event::KeyPressed { .. } => Category::KEYBOARD | Category::INPUT,
        Event::KeyReleased { .. } => Category::KEYBOARD | Category::INPUT,
        Event::MouseButtonPressed { .. } => Category::MOUSE | Category::INPUT,
        Event::MouseButtonReleased { .. } => Category::MOUSE | Category::INPUT,
        Event::MouseMoved { .. } => Category::MOUSE | Category::INPUT,
        Event::MouseScrolled { .. } => Category::MOUSE | Category::INPUT,
    }
}

/// Whether an event's category mask intersects the mask `c`.
pub open spec fn spec_is_in_category(e: Event, c: u8) -> bool {
    (spec_category_flags(e) & c) != 0
}

impl Event {
    pub fn get_category_flags(&self) -> (r: u8)
        ensures
            r == spec_category_flags(*self),
    {
        match self {
            Event::WindowClose => Category::APPLICATION | Category::INPUT,
            Event::WindowResize { .. } => Category::APPLICATION | Category::INPUT,
            Event::WindowFocus => Category::APPLICATION | Category::INPUT,
            Event::WindowLostFocus => Category::APPLICATION | Category::INPUT,
            Event::WindowMoved { .. } => Category::APPLICATION | Category::INPUT,
            Event::AppTick => Category::APPLICATION,
            Event::AppUpdate => Category::APPLICATION,
            Event::AppRender => Category::APPLICATION,
            Event::KeyPressed { .. } => Category::KEYBOARD | Category::INPUT,
            Event::KeyReleased { .. } => Category::KEYBOARD | Category::INPUT,
            Event::MouseButtonPressed { .. } => Category::MOUSE | Category::INPUT,
            Event::MouseButtonReleased { .. } => Category::MOUSE | Category::INPUT,
            Event::MouseMoved { .. } => Category::MOUSE | Category::INPUT,
            Event::MouseScrolled { .. } => Category::MOUSE | Category::INPUT,
        }
    }

    pub fn is_in_category(&self, c: u8) -> (r: bool)
        ensures
            r == spec_is_in_category(*self, c),
    {
        (self.get_category_flags() & c) != 0
    }
}

/// Every event variant maps to a non-empty flag set, and the mapping is a
/// function of the variant alone, so two calls on the same event agree.
pub proof fn lemma_category_flags_total(e: Event)
    ensures
        spec_category_flags(e) != 0,
{
    assert(1u8 | 2u8 == 3u8) by (bit_vector);
    assert(4u8 | 2u8 == 6u8) by (bit_vector);
    assert(8u8 | 2u8 == 10u8) by (bit_vector);
}

/// Keyboard, mouse and window-lifecycle events all carry the Input category;
/// the application tick events carry none of it.
pub proof fn lemma_input_classification(e: Event)
    ensures
        (e is KeyPressed || e is KeyReleased || e is MouseButtonPressed
            || e is MouseButtonReleased || e is MouseMoved || e is MouseScrolled)
            ==> spec_is_in_category(e, Category::INPUT),
        (e is WindowClose || e is WindowResize || e is WindowFocus
            || e is WindowLostFocus || e is WindowMoved)
            ==> spec_is_in_category(e, Category::INPUT),
        (e is AppTick || e is AppUpdate || e is AppRender)
            ==> !spec_is_in_category(e, Category::INPUT),
{
    assert(1u8 | 2u8 == 3u8) by (bit_vector);
    assert(4u8 | 2u8 == 6u8) by (bit_vector);
    assert(8u8 | 2u8 == 10u8) by (bit_vector);
    assert(3u8 & 2u8 != 0u8) by (bit_vector);
    assert(6u8 & 2u8 != 0u8) by (bit_vector);
    assert(10u8 & 2u8 != 0u8) by (bit_vector);
    assert(1u8 & 2u8 == 0u8) by (bit_vector);
}

/// A unit that can observe and react to the shared frame queue.
pub trait EventHandler {
    fn handle_events(&mut self, events: &mut Vec<Event>);
}

/// Platform-independent identity of a physical key.
#[derive(Clone, Copy, PartialEq, Eq, Structural, Debug)]
pub enum Key {
    Space,
    Apostrophe,
    Comma,
    Minus,
    Period,
    Slash,
    Num0,
    Num1,
    Num2,
    Num3,
    Num4,
    Num5,
    Num6,
    Num7,
    Num8,
    Num9,
    Semicolon,
    Equal,
    A,
    B,
    C,
    D,
    E,
    F,
    G,
    H,
    I,
    J,
    K,
    L,
    M,
    N,
    O,
    P,
    Q,
    R,
    S,
    T,
    U,
    V,
    W,
    X,
    Y,
    Z,
    LeftBracket,
    Backslash,
    RightBracket,
    GraveAccent,
    World1,
    World2,
    Escape,
    Enter,
    Tab,
    Backspace,
    Insert,
    Delete,
    Right,
    Left,
    Down,
    Up,
    PageUp,
    PageDown,
    Home,
    End,
    CapsLock,
    ScrollLock,
    NumLock,
    PrintScreen,
    Pause,
    F1,
    F2,
    F3,
    F4,
    F5,
    F6,
    F7,
    F8,
    F9,
    F10,
    F11,
    F12,
    F13,
    F14,
    F15,
    F16,
    F17,
    F18,
    F19,
    F20,
    F21,
    F22,
    F23,
    F24,
    F25,
    Kp0,
    Kp1,
    Kp2,
    Kp3,
    Kp4,
    Kp5,
    Kp6,
    Kp7,
    Kp8,
    Kp9,
    KpDecimal,
    KpDivide,
    KpMultiply,
    KpSubtract,
    KpAdd,
    KpEnter,
    KpEqual,
    LeftShift,
    LeftControl,
    LeftAlt,
    LeftSuper,
    RightShift,
    RightControl,
    RightAlt,
    RightSuper,
    Menu,
}

/// Normalized mouse button identity.
#[derive(Clone, Copy, PartialEq, Eq, Structural, Debug)]
pub enum MouseButton {
    Left,
    Right,
    Middle,
    X1,
    X2,
}

} // verus!
