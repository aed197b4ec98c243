//! What holds of every hotkey text: which key wins, which modifiers are
//! gathered, and what makes no difference.

use crate::hotkey::{
    classify, combination_of, function_number, hotkey_of, is_letter, lemma_head_len, lowered,
    modifier_named, native_codes, split_plus, take_tokens, to_lower, to_upper, HotkeyDescriptor,
    Token,
};
use crate::keys::{KeyId, Modifier, ModifierSet};
use crate::text::trim;
use vstd::prelude::*;
use vstd::utf8::is_ascii_chars;

verus! {

/// What the `i`-th of `tokens` stands for, once trimmed.
pub open spec fn kind_at(tokens: Seq<Seq<char>>, i: int) -> Token {
    classify(trim(tokens[i]))
}

/// Tokens that name no key leave the key as it was.
proof fn lemma_no_key_keeps(d: HotkeyDescriptor, tokens: Seq<Seq<char>>)
    requires
        forall|i: int| 0 <= i < tokens.len() ==> !(#[trigger] kind_at(tokens, i) is Key),
    ensures
        take_tokens(d, tokens).key == d.key,
    decreases tokens.len(),
{
    if tokens.len() > 0 {
        let rest = tokens.skip(1);
        assert(!(kind_at(tokens, 0) is Key));
        assert forall|i: int| 0 <= i < rest.len() implies !(#[trigger] kind_at(rest, i) is Key) by {
            assert(kind_at(rest, i) == kind_at(tokens, i + 1));
        }
        lemma_no_key_keeps(d.took(kind_at(tokens, 0)), rest);
    }
}

/// The key of the last token that names one is the key in the end.
proof fn lemma_last_key_stays(d: HotkeyDescriptor, tokens: Seq<Seq<char>>, i: int, k: KeyId)
    requires
        0 <= i < tokens.len(),
        kind_at(tokens, i) == Token::Key(k),
        forall|j: int| i < j < tokens.len() ==> !(#[trigger] kind_at(tokens, j) is Key),
    ensures
        take_tokens(d, tokens).key == Some(k),
    decreases tokens.len(),
{
    let rest = tokens.skip(1);
    let after = d.took(kind_at(tokens, 0));
    if i == 0 {
        assert forall|j: int| 0 <= j < rest.len() implies !(#[trigger] kind_at(rest, j) is Key) by {
            assert(kind_at(rest, j) == kind_at(tokens, j + 1));
        }
        lemma_no_key_keeps(after, rest);
    } else {
        assert(kind_at(rest, i - 1) == kind_at(tokens, i));
        assert forall|j: int| i - 1 < j < rest.len() implies !(#[trigger] kind_at(rest, j) is Key) by {
            assert(kind_at(rest, j) == kind_at(tokens, j + 1));
        }
        lemma_last_key_stays(after, rest, i - 1, k);
    }
}

/// The last place at or before `i` where a token names a key, counted from
/// the end: used to find the token that decides the key.
proof fn lemma_some_last_key(tokens: Seq<Seq<char>>, i: int) -> (last: int)
    requires
        0 <= i < tokens.len(),
        kind_at(tokens, i) is Key,
    ensures
        i <= last < tokens.len(),
        kind_at(tokens, last) is Key,
        forall|j: int| last < j < tokens.len() ==> !(#[trigger] kind_at(tokens, j) is Key),
    decreases tokens.len() - i,
{
    if exists|j: int| i < j < tokens.len() && #[trigger] kind_at(tokens, j) is Key {
        let j = choose|j: int| i < j < tokens.len() && #[trigger] kind_at(tokens, j) is Key;
        lemma_some_last_key(tokens, j)
    } else {
        i
    }
}

/// A modifier is in the set in the end where it was there before or a token names it.
proof fn lemma_modifiers_gathered(d: HotkeyDescriptor, tokens: Seq<Seq<char>>, m: Modifier)
    ensures
        take_tokens(d, tokens).modifiers.has(m) <==> d.modifiers.has(m) || exists|i: int|
            0 <= i < tokens.len() && #[trigger] kind_at(tokens, i) == Token::Modifier(m),
    decreases tokens.len(),
{
    if tokens.len() > 0 {
        let rest = tokens.skip(1);
        let after = d.took(kind_at(tokens, 0));
        lemma_modifiers_gathered(after, rest, m);
        if exists|i: int| 0 <= i < rest.len() && #[trigger] kind_at(rest, i) == Token::Modifier(m) {
            let i = choose|i: int|
                0 <= i < rest.len() && #[trigger] kind_at(rest, i) == Token::Modifier(m);
            assert(kind_at(tokens, i + 1) == kind_at(rest, i));
        }
        if exists|i: int|
            0 <= i < tokens.len() && #[trigger] kind_at(tokens, i) == Token::Modifier(m) {
            let i = choose|i: int|
                0 <= i < tokens.len() && #[trigger] kind_at(tokens, i) == Token::Modifier(m);
            if i > 0 {
                assert(kind_at(rest, i - 1) == kind_at(tokens, i));
            }
        }
    }
}

/// A token that names a key names one that exists.
pub proof fn lemma_named_key_exists(t: Seq<char>)
    ensures
        classify(t) matches Token::Key(k) ==> k.well_formed(),
{
}

/// Tokens leave a key that exists, where the key before them existed.
proof fn lemma_taken_key_exists(d: HotkeyDescriptor, tokens: Seq<Seq<char>>)
    requires
        d.key matches Some(k) ==> k.well_formed(),
    ensures
        take_tokens(d, tokens).key matches Some(k) ==> k.well_formed(),
    decreases tokens.len(),
{
    if tokens.len() > 0 {
        lemma_named_key_exists(trim(tokens[0]));
        lemma_taken_key_exists(d.took(kind_at(tokens, 0)), tokens.skip(1));
    }
}

/// The key of a combination is one that exists: a letter `A` to `Z`, a digit,
/// a function key F1 to F24, or a named key.
pub proof fn lemma_key_exists(text: Seq<char>)
    ensures
        combination_of(text) matches Some((_, k)) ==> k.well_formed(),
{
    lemma_taken_key_exists(HotkeyDescriptor::blank(), split_plus(text));
}

/// A text has no combination exactly where none of its tokens names a key,
/// whatever modifiers it names.
pub proof fn lemma_absent_iff_no_key(text: Seq<char>)
    ensures
        combination_of(text) is None <==> forall|i: int|
            0 <= i < split_plus(text).len() ==> !(#[trigger] kind_at(split_plus(text), i) is Key),
{
    let tokens = split_plus(text);
    let blank = HotkeyDescriptor::blank();
    if forall|i: int| 0 <= i < tokens.len() ==> !(#[trigger] kind_at(tokens, i) is Key) {
        lemma_no_key_keeps(blank, tokens);
    } else {
        let i = choose|i: int| 0 <= i < tokens.len() && #[trigger] kind_at(tokens, i) is Key;
        let last = lemma_some_last_key(tokens, i);
        lemma_last_key_stays(blank, tokens, last, kind_at(tokens, last)->Key_0);
    }
}

/// Where several tokens name a key, the last of them gives the key.
pub proof fn lemma_last_key_wins(text: Seq<char>, i: int, k: KeyId)
    requires
        0 <= i < split_plus(text).len(),
        kind_at(split_plus(text), i) == Token::Key(k),
        forall|j: int|
            i < j < split_plus(text).len() ==> !(#[trigger] kind_at(split_plus(text), j) is Key),
    ensures
        combination_of(text) matches Some((_, key)) && key == k,
{
    lemma_last_key_stays(HotkeyDescriptor::blank(), split_plus(text), i, k);
}

/// The modifiers of a combination are those that some token names: order
/// and repetition make no difference.
pub proof fn lemma_modifiers_add_up(text: Seq<char>, m: Modifier)
    requires
        combination_of(text) is Some,
    ensures
        combination_of(text) matches Some((modifiers, _)) && (modifiers.has(m) <==> exists|i: int|
            0 <= i < split_plus(text).len() && #[trigger] kind_at(split_plus(text), i)
                == Token::Modifier(m)),
{
    lemma_modifiers_gathered(HotkeyDescriptor::blank(), split_plus(text), m);
}

/// Two texts with the same lower-case form are the same hotkey.
pub proof fn lemma_case_makes_no_difference(a: Seq<char>, b: Seq<char>)
    requires
        lowered(a) == lowered(b),
    ensures
        hotkey_of(a) == hotkey_of(b),
        native_codes(hotkey_of(a)) == native_codes(hotkey_of(b)),
{
}

/// Two ASCII texts that differ in the case of their letters only are the
/// same hotkey.
pub proof fn lemma_ascii_case_makes_no_difference(a: Seq<char>, b: Seq<char>)
    requires
        is_ascii_chars(a),
        is_ascii_chars(b),
        a.len() == b.len(),
        forall|i: int| 0 <= i < a.len() ==> to_lower(#[trigger] a[i]) == to_lower(b[i]),
    ensures
        hotkey_of(a) == hotkey_of(b),
        native_codes(hotkey_of(a)) == native_codes(hotkey_of(b)),
{
    assert(lowered(a) =~= lowered(b));
}

/// ASCII text without a capital letter is read as it is written.
pub proof fn lemma_lower_case_is_read_as_written(text: Seq<char>)
    requires
        is_ascii_chars(text),
        forall|i: int| 0 <= i < text.len() ==> !('A' <= #[trigger] text[i] && text[i] <= 'Z'),
    ensures
        lowered(text) == text,
        hotkey_of(text) == combination_of(text),
{
    assert(lowered(text) =~= text);
}

/// Whether `t` holds no `+`.
pub open spec fn plus_free(t: Seq<char>) -> bool {
    forall|i: int| 0 <= i < t.len() ==> #[trigger] t[i] != '+'
}

/// The tokens `tokens` written as one text, with a `+` between neighbours.
pub open spec fn join_plus(tokens: Seq<Seq<char>>) -> Seq<char>
    decreases tokens.len(),
{
    if tokens.len() == 0 {
        Seq::empty()
    } else if tokens.len() == 1 {
        tokens[0]
    } else {
        tokens[0] + seq!['+'] + join_plus(tokens.skip(1))
    }
}

/// Cutting a text at its `+` signs gives back the tokens it was joined from.
pub proof fn lemma_split_undoes_join(tokens: Seq<Seq<char>>)
    requires
        tokens.len() > 0,
        forall|i: int| 0 <= i < tokens.len() ==> plus_free(#[trigger] tokens[i]),
    ensures
        split_plus(join_plus(tokens)) == tokens,
    decreases tokens.len(),
{
    let first = tokens[0];
    let text = join_plus(tokens);
    assert(plus_free(first));
    if tokens.len() == 1 {
        lemma_head_len(text, text.len() as int);
        assert(split_plus(text) == tokens);
    } else {
        let rest = tokens.skip(1);
        let k = first.len() as int;
        assert forall|j: int| 0 <= j < k implies text[j] != '+' by {
            assert(text[j] == first[j]);
        }
        assert(text[k] == '+');
        lemma_head_len(text, k);
        assert(text.take(k) == first);
        assert(text.skip(k + 1) == join_plus(rest));
        assert forall|i: int| 0 <= i < rest.len() implies plus_free(#[trigger] rest[i]) by {
            assert(rest[i] == tokens[i + 1]);
        }
        lemma_split_undoes_join(rest);
        assert(seq![first] + rest == tokens);
    }
}

/// Tokens that stand for the same, place by place, give the same descriptor.
proof fn lemma_same_kinds(d: HotkeyDescriptor, a: Seq<Seq<char>>, b: Seq<Seq<char>>)
    requires
        a.len() == b.len(),
        forall|i: int| 0 <= i < a.len() ==> #[trigger] kind_at(a, i) == kind_at(b, i),
    ensures
        take_tokens(d, a) == take_tokens(d, b),
    decreases a.len(),
{
    if a.len() > 0 {
        assert(kind_at(a, 0) == kind_at(b, 0));
        assert forall|i: int| 0 <= i < a.skip(1).len() implies #[trigger] kind_at(a.skip(1), i)
            == kind_at(b.skip(1), i) by {
            assert(kind_at(a.skip(1), i) == kind_at(a, i + 1));
            assert(kind_at(b.skip(1), i) == kind_at(b, i + 1));
        }
        lemma_same_kinds(d.took(kind_at(a, 0)), a.skip(1), b.skip(1));
    }
}

/// Two texts whose tokens are the same once trimmed are the same
/// combination: white space round a token, and so round a `+`, makes no difference.
pub proof fn lemma_padding_makes_no_difference(plain: Seq<Seq<char>>, padded: Seq<Seq<char>>)
    requires
        plain.len() > 0,
        padded.len() == plain.len(),
        forall|i: int| 0 <= i < plain.len() ==> plus_free(#[trigger] plain[i]),
        forall|i: int| 0 <= i < padded.len() ==> plus_free(#[trigger] padded[i]),
        forall|i: int| 0 <= i < plain.len() ==> trim(#[trigger] padded[i]) == trim(plain[i]),
    ensures
        combination_of(join_plus(padded)) == combination_of(join_plus(plain)),
{
    lemma_split_undoes_join(plain);
    lemma_split_undoes_join(padded);
    assert forall|i: int| 0 <= i < padded.len() implies #[trigger] kind_at(padded, i) == kind_at(
        plain,
        i,
    ) by {
        assert(trim(padded[i]) == trim(plain[i]));
    }
    lemma_same_kinds(HotkeyDescriptor::blank(), padded, plain);
}

/// The character that writes the digit `d`.
pub open spec fn digit_char(d: int) -> char {
    ('0' as int + d) as char
}

/// The name of the function key `n`: `f` and the number, in decimal.
pub open spec fn function_key_name(n: int) -> Seq<char> {
    if n < 10 {
        seq!['f', digit_char(n)]
    } else {
        seq!['f', digit_char(n / 10), digit_char(n % 10)]
    }
}

/// No modifier has a name of one character, or one that begins with `f`.
proof fn lemma_no_such_modifier(t: Seq<char>)
    requires
        t.len() == 1 || (t.len() > 0 && t[0] == 'f'),
    ensures
        modifier_named(t) is None,
{
    reveal_strlit("ctrl");
    reveal_strlit("control");
    reveal_strlit("alt");
    reveal_strlit("shift");
    reveal_strlit("win");
    reveal_strlit("windows");
    assert("ctrl"@[0] == 'c');
    assert("control"@[0] == 'c');
    assert("alt"@[0] == 'a');
    assert("shift"@[0] == 's');
    assert("win"@[0] == 'w');
    assert("windows"@[0] == 'w');
}

/// A token of one letter names that letter's key, in either case.
pub proof fn lemma_letter_keys(c: char)
    requires
        is_letter(c),
    ensures
        trim(seq![c]) == seq![c],
        plus_free(seq![c]),
        classify(seq![c]) == Token::Key(KeyId::Letter(to_upper(c))),
        KeyId::Letter(to_upper(c)).well_formed(),
{
    let t = seq![c];
    lemma_no_such_modifier(t);
    assert(t[0] == c);
    assert(t.last() == c);
}

/// A token of one digit names that digit's key.
pub proof fn lemma_digit_keys(d: int)
    requires
        0 <= d <= 9,
    ensures
        trim(seq![digit_char(d)]) == seq![digit_char(d)],
        plus_free(seq![digit_char(d)]),
        classify(seq![digit_char(d)]) == Token::Key(KeyId::Digit(d as u8)),
{
    let t = seq![digit_char(d)];
    lemma_no_such_modifier(t);
    assert(t[0] == digit_char(d));
    assert(t.last() == digit_char(d));
}

/// `f` and a number from 1 to 24 names the function key of that number.
pub proof fn lemma_function_key_names(n: int)
    requires
        1 <= n <= 24,
    ensures
        trim(function_key_name(n)) == function_key_name(n),
        plus_free(function_key_name(n)),
        classify(function_key_name(n)) == Token::Key(KeyId::Function(n as u8)),
{
    let t = function_key_name(n);
    lemma_no_such_modifier(t);
    assert(t[0] == 'f');
    if n < 10 {
        assert(t[1] == digit_char(n));
        assert(t.last() == digit_char(n));
        assert(function_number(t) == Some(n));
    } else {
        assert(t[1] == digit_char(n / 10));
        assert(t[2] == digit_char(n % 10));
        assert(t.last() == digit_char(n % 10));
        assert(function_number(t) == Some(n));
    }
}

/// A text that is one token naming a key is that key, with no modifier.
pub proof fn lemma_key_alone(t: Seq<char>, k: KeyId)
    requires
        plus_free(t),
        classify(trim(t)) == Token::Key(k),
    ensures
        combination_of(t) == Some(
            (ModifierSet { ctrl: false, alt: false, shift: false, meta: false }, k),
        ),
{
    let tokens = seq![t];
    assert(join_plus(tokens) == t);
    assert(tokens[0] == t);
    lemma_split_undoes_join(tokens);
    let blank = HotkeyDescriptor::blank();
    assert(take_tokens(blank, tokens) == take_tokens(blank.took(Token::Key(k)), tokens.skip(1)));
}

/// `ctrl+` before a token naming a key is that key with Ctrl, and no other modifier.
pub proof fn lemma_ctrl_and_key(t: Seq<char>, k: KeyId)
    requires
        plus_free(t),
        classify(trim(t)) == Token::Key(k),
    ensures
        combination_of("ctrl+"@ + t) == Some(
            (ModifierSet { ctrl: true, alt: false, shift: false, meta: false }, k),
        ),
{
    reveal_strlit("ctrl+");
    reveal_strlit("ctrl");
    let ctrl = "ctrl"@;
    let tokens = seq![ctrl, t];
    assert(tokens[0] == ctrl);
    assert(tokens[1] == t);
    assert(tokens.skip(1) == seq![t]);
    assert(join_plus(tokens.skip(1)) == t);
    assert(join_plus(tokens) == "ctrl+"@ + t);
    assert(plus_free(ctrl));
    lemma_split_undoes_join(tokens);
    assert(ctrl[0] == 'c');
    assert(ctrl.last() == 'l');
    assert(trim(ctrl) == ctrl);
    let blank = HotkeyDescriptor::blank();
    let first = blank.took(Token::Modifier(Modifier::Ctrl));
    let second = first.took(Token::Key(k));
    assert(take_tokens(blank, tokens) == take_tokens(first, tokens.skip(1)));
    assert(seq![t][0] == t);
    assert(take_tokens(first, seq![t]) == take_tokens(second, seq![t].skip(1)));
}

} // verus!
