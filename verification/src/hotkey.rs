//! The hotkey grammar: a combination such as `ctrl+shift+l` is a list of
//! tokens joined by `+`; each token names a modifier or a key, or is passed over.

use crate::keys::{KeyId, Modifier, ModifierSet};
use crate::text::{chars_of, trim, trim_slice};
use vstd::prelude::*;
use vstd::slice::slice_subrange;
use vstd::utf8::is_ascii_chars;

verus! {

/// What one token of a combination stands for.
#[derive(Clone, Copy, Debug, PartialEq, Eq, Structural)]
pub enum Token {
    Modifier(Modifier),
    Key(KeyId),
    /// Neither: the token is passed over.
    Unknown,
}

/// The modifier that the token `t` names.
pub open spec fn modifier_named(t: Seq<char>) -> Option<Modifier> {
    if t == "ctrl"@ || t == "control"@ {
        Some(Modifier::Ctrl)
    } else if t == "alt"@ {
        Some(Modifier::Alt)
    } else if t == "shift"@ {
        Some(Modifier::Shift)
    } else if t == "win"@ || t == "windows"@ {
        Some(Modifier::Meta)
    } else {
        None
    }
}

/// Whether `c` is an ASCII letter.
pub open spec fn is_letter(c: char) -> bool {
    ('a' <= c && c <= 'z') || ('A' <= c && c <= 'Z')
}

/// Whether `c` is an ASCII digit.
pub open spec fn is_digit(c: char) -> bool {
    '0' <= c && c <= '9'
}

/// The number that the digit `c` stands for.
pub open spec fn digit_value(c: char) -> int {
    c as int - '0' as int
}

/// `c` in upper case, where `c` is an ASCII letter; else `c`.
pub open spec fn to_upper(c: char) -> char {
    if 'a' <= c && c <= 'z' {
        (c as u8 - 32) as char
    } else {
        c
    }
}

/// The key that a token of the one character `c` names: a letter or a digit.
pub open spec fn single_key(c: char) -> Option<KeyId> {
    if is_letter(c) {
        Some(KeyId::Letter(to_upper(c)))
    } else if is_digit(c) {
        Some(KeyId::Digit(digit_value(c) as u8))
    } else {
        None
    }
}

/// The number written as `f` and one or two digits, whatever its size.
pub open spec fn function_number(t: Seq<char>) -> Option<int> {
    if t.len() == 2 && t[0] == 'f' && is_digit(t[1]) {
        Some(digit_value(t[1]))
    } else if t.len() == 3 && t[0] == 'f' && is_digit(t[1]) && is_digit(t[2]) {
        Some(10 * digit_value(t[1]) + digit_value(t[2]))
    } else {
        None
    }
}

/// The function key that the token `t` names: `f` and a number from 1 to 24.
pub open spec fn function_key(t: Seq<char>) -> Option<KeyId> {
    match function_number(t) {
        Some(n) => if 1 <= n && n <= 24 {
            Some(KeyId::Function(n as u8))
        } else {
            None
        },
        None => None,
    }
}

/// The named key that the token `t` is a name of.
pub open spec fn named_key(t: Seq<char>) -> Option<KeyId> {
    if t == "space"@ {
        Some(KeyId::Space)
    } else if t == "enter"@ || t == "return"@ {
        Some(KeyId::Enter)
    } else if t == "escape"@ || t == "esc"@ {
        Some(KeyId::Escape)
    } else if t == "tab"@ {
        Some(KeyId::Tab)
    } else if t == "backspace"@ {
        Some(KeyId::Backspace)
    } else if t == "delete"@ || t == "del"@ {
        Some(KeyId::Delete)
    } else if t == "insert"@ || t == "ins"@ {
        Some(KeyId::Insert)
    } else if t == "home"@ {
        Some(KeyId::Home)
    } else if t == "end"@ {
        Some(KeyId::End)
    } else if t == "pageup"@ || t == "pgup"@ {
        Some(KeyId::PageUp)
    } else if t == "pagedown"@ || t == "pgdn"@ {
        Some(KeyId::PageDown)
    } else if t == "up"@ {
        Some(KeyId::Up)
    } else if t == "down"@ {
        Some(KeyId::Down)
    } else if t == "left"@ {
        Some(KeyId::Left)
    } else if t == "right"@ {
        Some(KeyId::Right)
    } else if t == "numlock"@ {
        Some(KeyId::NumLock)
    } else if t == "scrolllock"@ {
        Some(KeyId::ScrollLock)
    } else if t == "pause"@ {
        Some(KeyId::Pause)
    } else if t == "printscreen"@ || t == "prtsc"@ {
        Some(KeyId::PrintScreen)
    } else {
        None
    }
}

/// What the trimmed token `t` stands for. The names are matched as they are
/// written here, in lower case.
pub open spec fn classify(t: Seq<char>) -> Token {
    match modifier_named(t) {
        Some(m) => Token::Modifier(m),
        None => if t.len() == 1 {
            match single_key(t[0]) {
                Some(k) => Token::Key(k),
                None => Token::Unknown,
            }
        } else {
            match function_key(t) {
                Some(k) => Token::Key(k),
                None => match named_key(t) {
                    Some(k) => Token::Key(k),
                    None => Token::Unknown,
                },
            }
        },
    }
}

/// Whether `token` is the word `word`, character for character.
fn word_is(token: &[char], word: &str) -> (b: bool)
    ensures
        b == (token@ == word@),
{
    let n: usize = word.unicode_len();
    if token.len() != n {
        return false;
    }
    let mut i: usize = 0;
    while i < n
        invariant
            i <= n,
            n == token@.len(),
            n == word@.len(),
            forall|j: int| 0 <= j < i ==> token@[j] == word@[j],
        decreases n - i,
    {
        if token[i] != word.get_char(i) {
            return false;
        }
        i += 1;
    }
    assert(token@ =~= word@);
    true
}

/// The modifier that `token` names.
fn modifier_of(token: &[char]) -> (m: Option<Modifier>)
    ensures
        m == modifier_named(token@),
{
    if word_is(token, "ctrl") || word_is(token, "control") {
        Some(Modifier::Ctrl)
    } else if word_is(token, "alt") {
        Some(Modifier::Alt)
    } else if word_is(token, "shift") {
        Some(Modifier::Shift)
    } else if word_is(token, "win") || word_is(token, "windows") {
        Some(Modifier::Meta)
    } else {
        None
    }
}

/// The key that a token of the one character `c` names.
fn single_key_of(c: char) -> (k: Option<KeyId>)
    ensures
        k == single_key(c),
        k matches Some(key) ==> key.well_formed(),
{
    if 'a' <= c && c <= 'z' {
        Some(KeyId::Letter((c as u8 - 32) as char))
    } else if 'A' <= c && c <= 'Z' {
        Some(KeyId::Letter(c))
    } else if '0' <= c && c <= '9' {
        Some(KeyId::Digit(c as u8 - '0' as u8))
    } else {
        None
    }
}

/// The function key that `token` names.
fn function_key_of(token: &[char]) -> (k: Option<KeyId>)
    ensures
        k == function_key(token@),
        k matches Some(key) ==> key.well_formed(),
{
    let n: usize = token.len();
    if n < 2 || n > 3 || token[0] != 'f' {
        return None;
    }
    let tens: char = token[1];
    if !('0' <= tens && tens <= '9') {
        return None;
    }
    let mut number: u8 = tens as u8 - '0' as u8;
    if n == 3 {
        let units: char = token[2];
        if !('0' <= units && units <= '9') {
            return None;
        }
        number = 10 * number + (units as u8 - '0' as u8);
    }
    if 1 <= number && number <= 24 {
        Some(KeyId::Function(number))
    } else {
        None
    }
}

/// The named key that `token` is a name of.
fn named_key_of(token: &[char]) -> (k: Option<KeyId>)
    ensures
        k == named_key(token@),
{
    if word_is(token, "space") {
        Some(KeyId::Space)
    } else if word_is(token, "enter") || word_is(token, "return") {
        Some(KeyId::Enter)
    } else if word_is(token, "escape") || word_is(token, "esc") {
        Some(KeyId::Escape)
    } else if word_is(token, "tab") {
        Some(KeyId::Tab)
    } else if word_is(token, "backspace") {
        Some(KeyId::Backspace)
    } else if word_is(token, "delete") || word_is(token, "del") {
        Some(KeyId::Delete)
    } else if word_is(token, "insert") || word_is(token, "ins") {
        Some(KeyId::Insert)
    } else if word_is(token, "home") {
        Some(KeyId::Home)
    } else if word_is(token, "end") {
        Some(KeyId::End)
    } else if word_is(token, "pageup") || word_is(token, "pgup") {
        Some(KeyId::PageUp)
    } else if word_is(token, "pagedown") || word_is(token, "pgdn") {
        Some(KeyId::PageDown)
    } else if word_is(token, "up") {
        Some(KeyId::Up)
    } else if word_is(token, "down") {
        Some(KeyId::Down)
    } else if word_is(token, "left") {
        Some(KeyId::Left)
    } else if word_is(token, "right") {
        Some(KeyId::Right)
    } else if word_is(token, "numlock") {
        Some(KeyId::NumLock)
    } else if word_is(token, "scrolllock") {
        Some(KeyId::ScrollLock)
    } else if word_is(token, "pause") {
        Some(KeyId::Pause)
    } else if word_is(token, "printscreen") || word_is(token, "prtsc") {
        Some(KeyId::PrintScreen)
    } else {
        None
    }
}

/// What the trimmed token `token` stands for.
pub fn classify_token(token: &[char]) -> (t: Token)
    ensures
        t == classify(token@),
        t matches Token::Key(key) ==> key.well_formed(),
{
    match modifier_of(token) {
        Some(m) => Token::Modifier(m),
        None => if token.len() == 1 {
            match single_key_of(token[0]) {
                Some(k) => Token::Key(k),
                None => Token::Unknown,
            }
        } else {
            match function_key_of(token) {
                Some(k) => Token::Key(k),
                None => match named_key_of(token) {
                    Some(k) => Token::Key(k),
                    None => Token::Unknown,
                },
            }
        },
    }
}

/// What a scan has gathered: the modifiers seen, and the key seen last, if any.
#[derive(Clone, Copy, Debug, PartialEq, Eq)]
pub struct HotkeyDescriptor {
    pub modifiers: ModifierSet,
    pub key: Option<KeyId>,
}

impl HotkeyDescriptor {
    /// The descriptor before any token: no modifier, no key.
    pub open spec fn blank() -> HotkeyDescriptor {
        HotkeyDescriptor {
            modifiers: ModifierSet { ctrl: false, alt: false, shift: false, meta: false },
            key: None,
        }
    }

    /// The descriptor after one more token: a modifier joins the set, a key
    /// takes the place of the key before it, an unknown token changes nothing.
    pub open spec fn took(self, t: Token) -> HotkeyDescriptor {
        match t {
            Token::Modifier(m) => HotkeyDescriptor { modifiers: self.modifiers.with(m), ..self },
            Token::Key(k) => HotkeyDescriptor { key: Some(k), ..self },
            Token::Unknown => self,
        }
    }

    /// The combination gathered: the modifiers and the key, where there is a key.
    pub open spec fn combination(self) -> Option<(ModifierSet, KeyId)> {
        match self.key {
            Some(k) => Some((self.modifiers, k)),
            None => None,
        }
    }

    /// The descriptor before any token.
    pub fn new() -> (d: HotkeyDescriptor)
        ensures
            d == HotkeyDescriptor::blank(),
    {
        HotkeyDescriptor { modifiers: ModifierSet::empty(), key: None }
    }

    /// The descriptor after one more token.
    pub fn take(self, t: Token) -> (d: HotkeyDescriptor)
        ensures
            d == self.took(t),
    {
        match t {
            Token::Modifier(m) => HotkeyDescriptor {
                modifiers: self.modifiers.insert(m),
                key: self.key,
            },
            Token::Key(k) => HotkeyDescriptor { modifiers: self.modifiers, key: Some(k) },
            Token::Unknown => self,
        }
    }

    /// The combination gathered, or `None` where no key was seen.
    pub fn finish(self) -> (c: Option<(ModifierSet, KeyId)>)
        ensures
            c == self.combination(),
    {
        match self.key {
            Some(k) => Some((self.modifiers, k)),
            None => None,
        }
    }
}

/// How many characters of `s` stand before its first `+`: all of them, where it has none.
pub open spec fn head_len(s: Seq<char>) -> nat
    decreases s.len(),
{
    if s.len() == 0 || s[0] == '+' {
        0
    } else {
        1 + head_len(s.skip(1))
    }
}

/// The tokens of `s`: the pieces between its `+` signs, in order. An `s`
/// without a `+` is one token, the empty `s` too.
pub open spec fn split_plus(s: Seq<char>) -> Seq<Seq<char>>
    decreases s.len(),
{
    let n = head_len(s) as int;
    if n >= s.len() {
        seq![s]
    } else {
        seq![s.take(n)] + split_plus(s.skip(n + 1))
    }
}

/// The descriptor `d` after the tokens `tokens`, each trimmed and taken in turn.
pub open spec fn take_tokens(d: HotkeyDescriptor, tokens: Seq<Seq<char>>) -> HotkeyDescriptor
    decreases tokens.len(),
{
    if tokens.len() == 0 {
        d
    } else {
        take_tokens(d.took(classify(trim(tokens[0]))), tokens.skip(1))
    }
}

/// The combination that the lower-case text `text` writes: its modifiers and
/// its last key, or `None` where no token names a key.
pub open spec fn combination_of(text: Seq<char>) -> Option<(ModifierSet, KeyId)> {
    take_tokens(HotkeyDescriptor::blank(), split_plus(text)).combination()
}

/// `head_len(s)` is the place of the first `+` of `s`, or its length.
pub proof fn lemma_head_len(s: Seq<char>, k: int)
    requires
        0 <= k <= s.len(),
        forall|j: int| 0 <= j < k ==> s[j] != '+',
        k == s.len() || s[k] == '+',
    ensures
        head_len(s) == k,
    decreases k,
{
    if k > 0 {
        lemma_head_len(s.skip(1), k - 1);
    }
}

/// Reads the combination that the characters `all` write, as they are: the
/// names of modifiers and keys are known in lower case only.
pub fn parse_chars(all: &[char]) -> (r: Option<(ModifierSet, KeyId)>)
    ensures
        r == combination_of(all@),
        r matches Some((_, key)) ==> key.well_formed(),
{
    let n: usize = all.len();
    let mut d = HotkeyDescriptor::new();
    let mut start: usize = 0;
    let mut i: usize = 0;
    assert(all@.skip(0) == all@);
    while i < n
        invariant
            start <= i <= n,
            n == all@.len(),
            forall|j: int| start <= j < i ==> all@[j] != '+',
            take_tokens(HotkeyDescriptor::blank(), split_plus(all@)) == take_tokens(
                d,
                split_plus(all@.skip(start as int)),
            ),
            d.key matches Some(key) ==> key.well_formed(),
        decreases n - i,
    {
        if all[i] == '+' {
            let token = slice_subrange(all, start, i);
            let t = classify_token(trim_slice(token));
            proof {
                let rest = all@.skip(start as int);
                lemma_head_len(rest, i - start);
                let tokens = split_plus(rest);
                assert(rest.take(i - start) == token@);
                assert(rest.skip(i - start + 1) == all@.skip(i + 1));
                assert(tokens[0] == token@);
                assert(tokens.skip(1) == split_plus(all@.skip(i + 1)));
            }
            d = d.take(t);
            start = i + 1;
        }
        i += 1;
    }
    let token = slice_subrange(all, start, n);
    let t = classify_token(trim_slice(token));
    proof {
        let rest = all@.skip(start as int);
        lemma_head_len(rest, n - start);
        assert(rest == token@);
        let tokens = split_plus(rest);
        assert(tokens[0] == token@);
        assert(tokens.skip(1).len() == 0);
        assert(take_tokens(d, tokens) == take_tokens(d.took(t), tokens.skip(1)));
    }
    d = d.take(t);
    d.finish()
}

/// Reads the combination that the text `text` writes, as it is written:
/// the names of modifiers and keys are known in lower case only.
pub fn parse_combination(text: &str) -> (r: Option<(ModifierSet, KeyId)>)
    ensures
        r == combination_of(text@),
        r matches Some((_, key)) ==> key.well_formed(),
{
    let chars = chars_of(text);
    parse_chars(chars.as_slice())
}

/// `c` in lower case, where `c` is an ASCII letter; else `c`.
pub open spec fn to_lower(c: char) -> char {
    if 'A' <= c && c <= 'Z' {
        (c as u8 + 32) as char
    } else {
        c
    }
}

/// What `str::to_lowercase` of the standard library returns for a text.
/// Unicode decides it, by each character and its neighbours; nothing more is
/// said of it here.
pub uninterp spec fn lowercase_of(s: Seq<char>) -> Seq<char>;

/// The lower-case form of a text. In ASCII text each letter is put in lower
/// case and nothing else changes; for any other text it is what the standard
/// library makes of it.
pub open spec fn lowered(s: Seq<char>) -> Seq<char> {
    if is_ascii_chars(s) {
        s.map_values(|c: char| to_lower(c))
    } else {
        lowercase_of(s)
    }
}

/// Calls `str::to_lowercase`. Not proved: the contract only gives the result
/// its name, `lowercase_of`, on the grounds that the call depends on the
/// characters of `s` and on nothing else.
#[verifier::external_body]
fn lowercase(s: &str) -> (r: String)
    ensures
        r@ == lowercase_of(s@),
{
    s.to_lowercase()
}

/// `c` in lower case, where `c` is an ASCII letter; else `c`.
fn lower_char(c: char) -> (l: char)
    ensures
        l == to_lower(c),
{
    if 'A' <= c && c <= 'Z' {
        (c as u8 + 32) as char
    } else {
        c
    }
}

/// The characters of the lower-case form of `text`.
pub fn lower_chars(text: &str) -> (v: Vec<char>)
    ensures
        v@ == lowered(text@),
{
    if text.is_ascii() {
        let mut v: Vec<char> = Vec::new();
        for c in it: text.chars()
            invariant
                it.seq() == text@,
                v@.len() == it.index(),
                forall|i: int| 0 <= i < v@.len() ==> v@[i] == to_lower(#[trigger] text@[i]),
        {
            v.push(lower_char(c));
        }
        assert(v@ =~= text@.map_values(|c: char| to_lower(c)));
        v
    } else {
        let lower = lowercase(text);
        chars_of(lower.as_str())
    }
}

/// The combination that `hotkey` writes, in whatever case: that of its lower-case form.
pub open spec fn hotkey_of(hotkey: Seq<char>) -> Option<(ModifierSet, KeyId)> {
    combination_of(lowered(hotkey))
}

/// A combination as the native modifier mask and virtual-key code.
pub open spec fn native_codes(c: Option<(ModifierSet, KeyId)>) -> Option<(u32, u32)> {
    match c {
        Some((modifiers, key)) => Some((modifiers.mask(), key.code() as u32)),
        None => None,
    }
}

/// Reads a hotkey such as `Ctrl+Shift+L`: the text is put in lower case, cut
/// at each `+`, and each piece trimmed. Modifiers add up, the last key named
/// is the key, and pieces that name neither are passed over. `None` where no
/// piece names a key.
pub fn parse_descriptor(hotkey: &str) -> (r: Option<(ModifierSet, KeyId)>)
    ensures
        r == hotkey_of(hotkey@),
        r matches Some((_, key)) ==> key.well_formed(),
{
    let chars = lower_chars(hotkey);
    parse_chars(chars.as_slice())
}

/// Reads a hotkey as `parse_descriptor` does, and gives the combination as
/// the native modifier mask and virtual-key code.
pub fn parse_hotkey(hotkey: &str) -> (r: Option<(u32, u32)>)
    ensures
        r == native_codes(hotkey_of(hotkey@)),
{
    match parse_descriptor(hotkey) {
        Some((modifiers, key)) => Some((modifiers.bits(), key.vk_code())),
        None => None,
    }
}

} // verus!
