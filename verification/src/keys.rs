//! Modifiers and key identifiers, and the native codes they are registered under.

use vstd::prelude::*;

verus! {

/// A modifier key.
#[derive(Clone, Copy, Debug, PartialEq, Eq, Structural)]
pub enum Modifier {
    Ctrl,
    Alt,
    Shift,
    /// The Windows (or Command) key.
    Meta,
}

/// A set of modifiers, one flag for each.
#[derive(Clone, Copy, Debug, PartialEq, Eq, Structural)]
pub struct ModifierSet {
    pub ctrl: bool,
    pub alt: bool,
    pub shift: bool,
    pub meta: bool,
}

/// The key of a combination: a letter, a digit, a function key or a named key.
#[derive(Clone, Copy, Debug, PartialEq, Eq, Structural)]
pub enum KeyId {
    /// A letter, held in upper case: `A` to `Z`.
    Letter(char),
    /// A digit key, 0 to 9.
    Digit(u8),
    /// A function key, F1 to F24, by its number.
    Function(u8),
    Space,
    Enter,
    Escape,
    Tab,
    Backspace,
    Delete,
    Insert,
    Home,
    End,
    PageUp,
    PageDown,
    Up,
    Down,
    Left,
    Right,
    NumLock,
    ScrollLock,
    Pause,
    PrintScreen,
}

/// The flag that stands for `m` in a native modifier mask.
pub open spec fn modifier_bit(m: Modifier) -> u32 {
    match m {
        Modifier::Alt => 1u32,
        Modifier::Ctrl => 2u32,
        Modifier::Shift => 4u32,
        Modifier::Meta => 8u32,
    }
}

impl Modifier {
    /// The flag that stands for this modifier in a native modifier mask.
    pub fn bit(&self) -> (b: u32)
        ensures
            b == modifier_bit(*self),
    {
        match self {
            Modifier::Alt => 1,
            Modifier::Ctrl => 2,
            Modifier::Shift => 4,
            Modifier::Meta => 8,
        }
    }
}

impl View for ModifierSet {
    type V = Set<Modifier>;

    open spec fn view(&self) -> Set<Modifier> {
        Set::new(|m: Modifier| self.has(m))
    }
}

impl ModifierSet {
    /// Whether `m` is in the set.
    pub open spec fn has(self, m: Modifier) -> bool {
        match m {
            Modifier::Ctrl => self.ctrl,
            Modifier::Alt => self.alt,
            Modifier::Shift => self.shift,
            Modifier::Meta => self.meta,
        }
    }

    /// The set with `m` added.
    pub open spec fn with(self, m: Modifier) -> ModifierSet {
        match m {
            Modifier::Ctrl => ModifierSet { ctrl: true, ..self },
            Modifier::Alt => ModifierSet { alt: true, ..self },
            Modifier::Shift => ModifierSet { shift: true, ..self },
            Modifier::Meta => ModifierSet { meta: true, ..self },
        }
    }

    /// The native mask of the set: the flags of its members, or-ed together.
    pub open spec fn mask(self) -> u32 {
        (if self.alt { 1u32 } else { 0u32 }) | (if self.ctrl { 2u32 } else { 0u32 })
            | (if self.shift { 4u32 } else { 0u32 }) | (if self.meta { 8u32 } else { 0u32 })
    }

    /// The set without members.
    pub fn empty() -> (s: ModifierSet)
        ensures
            s@ == Set::<Modifier>::empty(),
            s == (ModifierSet { ctrl: false, alt: false, shift: false, meta: false }),
    {
        let s = ModifierSet { ctrl: false, alt: false, shift: false, meta: false };
        assert(s@ =~= Set::<Modifier>::empty());
        s
    }

    /// Whether `m` is in the set.
    pub fn contains(&self, m: Modifier) -> (b: bool)
        ensures
            b == self@.contains(m),
            b == self.has(m),
    {
        match m {
            Modifier::Ctrl => self.ctrl,
            Modifier::Alt => self.alt,
            Modifier::Shift => self.shift,
            Modifier::Meta => self.meta,
        }
    }

    /// The set with `m` added; adding a member again changes nothing.
    pub fn insert(self, m: Modifier) -> (s: ModifierSet)
        ensures
            s@ == self@.insert(m),
            s == self.with(m),
    {
        let s = match m {
            Modifier::Ctrl => ModifierSet { ctrl: true, ..self },
            Modifier::Alt => ModifierSet { alt: true, ..self },
            Modifier::Shift => ModifierSet { shift: true, ..self },
            Modifier::Meta => ModifierSet { meta: true, ..self },
        };
        assert(s@ =~= self@.insert(m));
        s
    }

    /// The native mask of the set.
    pub fn bits(&self) -> (b: u32)
        ensures
            b == self.mask(),
    {
        let alt: u32 = if self.alt { 1 } else { 0 };
        let ctrl: u32 = if self.ctrl { 2 } else { 0 };
        let shift: u32 = if self.shift { 4 } else { 0 };
        let meta: u32 = if self.meta { 8 } else { 0 };
        alt | ctrl | shift | meta
    }
}

impl KeyId {
    /// Whether the key is one that exists: a letter `A` to `Z`, a digit 0 to
    /// 9, a function key F1 to F24, or a named key.
    pub open spec fn well_formed(self) -> bool {
        match self {
            KeyId::Letter(c) => 'A' <= c && c <= 'Z',
            KeyId::Digit(d) => d <= 9,
            KeyId::Function(n) => 1 <= n && n <= 24,
            _ => true,
        }
    }

    /// The native virtual-key code of the key.
    pub open spec fn code(self) -> int {
        match self {
            KeyId::Letter(c) => c as int,
            KeyId::Digit(d) => 48 + d,
            KeyId::Function(n) => 111 + n,
            KeyId::Backspace => 8,
            KeyId::Tab => 9,
            KeyId::Enter => 13,
            KeyId::Pause => 19,
            KeyId::Escape => 27,
            KeyId::Space => 32,
            KeyId::PageUp => 33,
            KeyId::PageDown => 34,
            KeyId::End => 35,
            KeyId::Home => 36,
            KeyId::Left => 37,
            KeyId::Up => 38,
            KeyId::Right => 39,
            KeyId::Down => 40,
            KeyId::PrintScreen => 44,
            KeyId::Insert => 45,
            KeyId::Delete => 46,
            KeyId::NumLock => 144,
            KeyId::ScrollLock => 145,
        }
    }

    /// The native virtual-key code of the key.
    pub fn vk_code(&self) -> (code: u32)
        ensures
            code == self.code(),
    {
        match self {
            KeyId::Letter(c) => *c as u32,
            KeyId::Digit(d) => 48 + *d as u32,
            KeyId::Function(n) => 111 + *n as u32,
            KeyId::Backspace => 8,
            KeyId::Tab => 9,
            KeyId::Enter => 13,
            KeyId::Pause => 19,
            KeyId::Escape => 27,
            KeyId::Space => 32,
            KeyId::PageUp => 33,
            KeyId::PageDown => 34,
            KeyId::End => 35,
            KeyId::Home => 36,
            KeyId::Left => 37,
            KeyId::Up => 38,
            KeyId::Right => 39,
            KeyId::Down => 40,
            KeyId::PrintScreen => 44,
            KeyId::Insert => 45,
            KeyId::Delete => 46,
            KeyId::NumLock => 144,
            KeyId::ScrollLock => 145,
        }
    }
}

/// A member of a set shows in the set's mask as its flag, and nothing else does.
pub proof fn lemma_mask_tells_members(set: ModifierSet, m: Modifier)
    ensures
        (set.mask() & modifier_bit(m)) != 0 <==> set.has(m),
{
    let a: u32 = if set.alt { 1u32 } else { 0u32 };
    let c: u32 = if set.ctrl { 2u32 } else { 0u32 };
    let s: u32 = if set.shift { 4u32 } else { 0u32 };
    let w: u32 = if set.meta { 8u32 } else { 0u32 };
    assert({
        &&& ((a | c | s | w) & 1u32 != 0) == (a == 1)
        &&& ((a | c | s | w) & 2u32 != 0) == (c == 2)
        &&& ((a | c | s | w) & 4u32 != 0) == (s == 4)
        &&& ((a | c | s | w) & 8u32 != 0) == (w == 8)
    }) by (bit_vector)
        requires
            a == 0 || a == 1,
            c == 0 || c == 2,
            s == 0 || s == 4,
            w == 0 || w == 8,
    ;
}

/// Keys that exist and differ have different codes.
pub proof fn lemma_codes_tell_keys(a: KeyId, b: KeyId)
    requires
        a.well_formed(),
        b.well_formed(),
        a.code() == b.code(),
    ensures
        a == b,
{
}

} // verus!
