//! Decoding the engine's playlist property.
//!
//! The presentation layer may ask for the engine's full current playlist.
//! The engine hands it over as one JSON-encoded payload: an array of flat
//! objects carrying the entry's filename, whether it is the current and
//! the playing one, and its numeric id; other keys may appear and are
//! ignored. This module pins that payload format down as a grammar over
//! character sequences and decodes it with a verified parser; a payload
//! outside the grammar is reported as malformed, and the control loops
//! are unaffected either way.

use vstd::prelude::*;
use vstd::utf8::is_scalar;

verus! {

/// One entry of the engine's reported playlist.
#[derive(Debug, PartialEq)]
pub struct PlayListItem {
    pub filename: String,
    pub current: Option<bool>,
    pub playing: Option<bool>,
    pub id: i32,
}

/// The mathematical value of a [`PlayListItem`].
pub struct PlayListItemView {
    pub filename: Seq<char>,
    pub current: Option<bool>,
    pub playing: Option<bool>,
    pub id: int,
}

impl View for PlayListItem {
    type V = PlayListItemView;

    open spec fn view(&self) -> PlayListItemView {
        PlayListItemView {
            filename: self.filename@,
            current: self.current,
            playing: self.playing,
            id: self.id as int,
        }
    }
}

impl Clone for PlayListItem {
    fn clone(&self) -> (r: Self)
        ensures
            r@ == self@,
    {
        PlayListItem {
            filename: self.filename.clone(),
            current: self.current,
            playing: self.playing,
            id: self.id,
        }
    }
}

/// The playlist payload could not be decoded: it lies outside the payload
/// grammar (or holds an id outside the 32-bit range).
#[derive(Clone, Copy, Debug, PartialEq, Eq, Structural)]
pub enum PlaylistError {
    Malformed,
}

// The grammar, as total functions over the payload characters. Each takes
// the position it starts at and gives back what it recognised and the
// position after it, or nothing when the payload does not fit.

/// The payload's whitespace characters.
pub open spec fn is_json_ws(c: char) -> bool {
    c == ' ' || c == '\t' || c == '\n' || c == '\r'
}

/// The first position at or after `i` holding no whitespace.
pub open spec fn spec_skip_ws(s: Seq<char>, i: int) -> int
    decreases s.len() - i,
{
    if 0 <= i < s.len() && is_json_ws(s[i]) {
        spec_skip_ws(s, i + 1)
    } else {
        i
    }
}

/// The value of one hexadecimal digit.
pub open spec fn hex_digit_val(c: char) -> Option<u32> {
    if '0' <= c <= '9' {
        Some((c as u32 - '0' as u32) as u32)
    } else if 'a' <= c <= 'f' {
        Some((c as u32 - 'a' as u32 + 10) as u32)
    } else if 'A' <= c <= 'F' {
        Some((c as u32 - 'A' as u32 + 10) as u32)
    } else {
        None
    }
}

/// The value of the four hexadecimal digits at `i`.
pub open spec fn spec_hex4(s: Seq<char>, i: int) -> Option<u32> {
    if 0 <= i && i + 4 <= s.len() {
        match (hex_digit_val(s[i]), hex_digit_val(s[i + 1]), hex_digit_val(s[i + 2]), hex_digit_val(
            s[i + 3],
        )) {
            (Some(a), Some(b), Some(c), Some(d)) => Some(
                (0x1000 * a + 0x100 * b + 0x10 * c + d) as u32,
            ),
            _ => None,
        }
    } else {
        None
    }
}

/// What a single-character escape stands for.
pub open spec fn simple_escape(c: char) -> Option<char> {
    if c == '"' {
        Some('"')
    } else if c == '\\' {
        Some('\\')
    } else if c == '/' {
        Some('/')
    } else if c == 'b' {
        Some('\u{8}')
    } else if c == 'f' {
        Some('\u{c}')
    } else if c == 'n' {
        Some('\n')
    } else if c == 'r' {
        Some('\r')
    } else if c == 't' {
        Some('\t')
    } else {
        None
    }
}

/// The scalar value a surrogate pair encodes.
pub open spec fn pair_scalar(h: u32, l: u32) -> u32 {
    (0x10000 + (h - 0xD800) * 0x400 + (l - 0xDC00)) as u32
}

/// The rest of a string token, after its opening quote: the decoded
/// characters gathered so far and the position after the closing quote.
/// Escapes stand for their characters; a high surrogate escape must be
/// followed by a low one, and the pair stands for one character; an
/// unescaped control character, a lone surrogate or a payload that ends
/// inside the token does not fit.
pub open spec fn spec_string_rest(s: Seq<char>, i: int, acc: Seq<char>) -> Option<(Seq<char>, int)>
    decreases s.len() - i,
{
    if i < 0 || i >= s.len() {
        None
    } else if s[i] == '"' {
        Some((acc, i + 1))
    } else if s[i] == '\\' {
        if i + 1 >= s.len() {
            None
        } else if s[i + 1] == 'u' {
            match spec_hex4(s, i + 2) {
                None => None,
                Some(h) => {
                    if 0xD800 <= h < 0xDC00 {
                        if i + 7 < s.len() && s[i + 6] == '\\' && s[i + 7] == 'u' {
                            match spec_hex4(s, i + 8) {
                                None => None,
                                Some(l) => {
                                    if 0xDC00 <= l < 0xE000 {
                                        spec_string_rest(s, i + 12, acc.push(pair_scalar(h, l) as char))
                                    } else {
                                        None
                                    }
                                },
                            }
                        } else {
                            None
                        }
                    } else if 0xDC00 <= h < 0xE000 {
                        None
                    } else {
                        spec_string_rest(s, i + 6, acc.push(h as char))
                    }
                },
            }
        } else {
            match simple_escape(s[i + 1]) {
                Some(d) => spec_string_rest(s, i + 2, acc.push(d)),
                None => None,
            }
        }
    } else if (s[i] as u32) < 0x20 {
        None
    } else {
        spec_string_rest(s, i + 1, acc.push(s[i]))
    }
}

/// A whole string token: an opening quote at `i`, then its rest.
pub open spec fn spec_parse_string(s: Seq<char>, i: int) -> Option<(Seq<char>, int)> {
    if 0 <= i < s.len() && s[i] == '"' {
        spec_string_rest(s, i + 1, Seq::empty())
    } else {
        None
    }
}

/// A decimal digit.
pub open spec fn is_digit(c: char) -> bool {
    '0' <= c <= '9'
}

/// Its value.
pub open spec fn digit_val(c: char) -> int {
    c as u32 - '0' as u32
}

/// The first position at or after `i` holding no digit.
pub open spec fn spec_digits_end(s: Seq<char>, i: int) -> int
    decreases s.len() - i,
{
    if 0 <= i < s.len() && is_digit(s[i]) {
        spec_digits_end(s, i + 1)
    } else {
        i
    }
}

/// The value of the digit run `s[i .. j)`, most significant first.
pub open spec fn spec_digits_value(s: Seq<char>, i: int, j: int) -> int
    decreases j - i,
{
    if i >= j {
        0
    } else {
        spec_digits_value(s, i, j - 1) * 10 + digit_val(s[j - 1])
    }
}

/// An integer token: an optional minus, then digits without a redundant
/// leading zero; its value and the position after it.
pub open spec fn spec_parse_int(s: Seq<char>, i: int) -> Option<(int, int)> {
    let neg = 0 <= i < s.len() && s[i] == '-';
    let k = if neg {
        i + 1
    } else {
        i
    };
    if 0 <= k < s.len() && is_digit(s[k]) {
        let e = spec_digits_end(s, k);
        if s[k] == '0' && e > k + 1 {
            None
        } else {
            let m = spec_digits_value(s, k, e);
            Some(((if neg { -m } else { m }), e))
        }
    } else {
        None
    }
}

/// A boolean token.
pub open spec fn spec_parse_bool(s: Seq<char>, i: int) -> Option<(bool, int)> {
    if 0 <= i && i + 4 <= s.len() && s[i] == 't' && s[i + 1] == 'r' && s[i + 2] == 'u' && s[i + 3]
        == 'e' {
        Some((true, i + 4))
    } else if 0 <= i && i + 5 <= s.len() && s[i] == 'f' && s[i + 1] == 'a' && s[i + 2] == 'l' && s[i
        + 3] == 's' && s[i + 4] == 'e' {
        Some((false, i + 5))
    } else {
        None
    }
}

/// The null token.
pub open spec fn spec_parse_null(s: Seq<char>, i: int) -> Option<int> {
    if 0 <= i && i + 4 <= s.len() && s[i] == 'n' && s[i + 1] == 'u' && s[i + 2] == 'l' && s[i + 3]
        == 'l' {
        Some(i + 4)
    } else {
        None
    }
}

/// The position after a whole number token (integer, fraction, exponent) —
/// numbers in ignored members are skipped, not kept.
pub open spec fn spec_skip_number(s: Seq<char>, i: int) -> Option<int> {
    let k1 = if 0 <= i < s.len() && s[i] == '-' {
        i + 1
    } else {
        i
    };
    if !(0 <= k1 < s.len() && is_digit(s[k1])) {
        None
    } else {
        let k2 = if s[k1] == '0' {
            k1 + 1
        } else {
            spec_digits_end(s, k1)
        };
        if k2 < s.len() && s[k2] == '.' {
            if k2 + 1 < s.len() && is_digit(s[k2 + 1]) {
                spec_skip_exponent(s, spec_digits_end(s, k2 + 1))
            } else {
                None
            }
        } else {
            spec_skip_exponent(s, k2)
        }
    }
}

/// The position after an optional exponent part.
pub open spec fn spec_skip_exponent(s: Seq<char>, i: int) -> Option<int> {
    if 0 <= i < s.len() && (s[i] == 'e' || s[i] == 'E') {
        let k = if i + 1 < s.len() && (s[i + 1] == '+' || s[i + 1] == '-') {
            i + 2
        } else {
            i + 1
        };
        if k < s.len() && is_digit(s[k]) {
            Some(spec_digits_end(s, k))
        } else {
            None
        }
    } else {
        Some(i)
    }
}

/// The position after one whole value of any kind — the shape of values in
/// ignored members, which the decoder skips without keeping them.
pub open spec fn spec_skip_value(s: Seq<char>, i: int) -> Option<int>
    decreases s.len() - i, 0int,
{
    if !(0 <= i < s.len()) {
        None
    } else if s[i] == '"' {
        match spec_string_rest(s, i + 1, Seq::empty()) {
            Some(p) => Some(p.1),
            None => None,
        }
    } else if s[i] == '{' {
        spec_skip_object_rest(s, i + 1, true)
    } else if s[i] == '[' {
        spec_skip_array_rest(s, i + 1, true)
    } else if s[i] == 't' || s[i] == 'f' {
        match spec_parse_bool(s, i) {
            Some(p) => Some(p.1),
            None => None,
        }
    } else if s[i] == 'n' {
        spec_parse_null(s, i)
    } else {
        spec_skip_number(s, i)
    }
}

/// The members of an object being skipped, from right after its `{` or a
/// separating comma; a closing brace is accepted only right after the `{`.
pub open spec fn spec_skip_object_rest(s: Seq<char>, i: int, can_close: bool) -> Option<int>
    decreases s.len() - i, 1int,
{
    if !(0 <= i <= s.len()) {
        None
    } else {
        let j = spec_skip_ws(s, i);
        if !(i <= j <= s.len()) {
            None
        } else if can_close && j < s.len() && s[j] == '}' {
            Some(j + 1)
        } else {
            match spec_parse_string(s, j) {
                None => None,
                Some((key, j2)) => {
                    if !(j < j2 <= s.len()) {
                        None
                    } else {
                        let j3 = spec_skip_ws(s, j2);
                        if !(j2 <= j3 <= s.len()) || !(j3 < s.len() && s[j3] == ':') {
                            None
                        } else {
                            let j4 = spec_skip_ws(s, j3 + 1);
                            if !(j3 + 1 <= j4 <= s.len()) {
                                None
                            } else {
                                match spec_skip_value(s, j4) {
                                    None => None,
                                    Some(j5) => {
                                        if !(j4 < j5 <= s.len()) {
                                            None
                                        } else {
                                            let j6 = spec_skip_ws(s, j5);
                                            if !(j5 <= j6 <= s.len()) {
                                                None
                                            } else if j6 < s.len() && s[j6] == ',' {
                                                spec_skip_object_rest(s, j6 + 1, false)
                                            } else if j6 < s.len() && s[j6] == '}' {
                                                Some(j6 + 1)
                                            } else {
                                                None
                                            }
                                        }
                                    },
                                }
                            }
                        }
                    }
                },
            }
        }
    }
}

/// The elements of an array being skipped, from right after its `[` or a
/// separating comma; a closing bracket is accepted only right after the
/// `[`.
pub open spec fn spec_skip_array_rest(s: Seq<char>, i: int, can_close: bool) -> Option<int>
    decreases s.len() - i, 1int,
{
    if !(0 <= i <= s.len()) {
        None
    } else {
        let j = spec_skip_ws(s, i);
        if !(i <= j <= s.len()) {
            None
        } else if can_close && j < s.len() && s[j] == ']' {
            Some(j + 1)
        } else {
            match spec_skip_value(s, j) {
                None => None,
                Some(j5) => {
                    if !(j < j5 <= s.len()) {
                        None
                    } else {
                        let j6 = spec_skip_ws(s, j5);
                        if !(j5 <= j6 <= s.len()) {
                            None
                        } else if j6 < s.len() && s[j6] == ',' {
                            spec_skip_array_rest(s, j6 + 1, false)
                        } else if j6 < s.len() && s[j6] == ']' {
                            Some(j6 + 1)
                        } else {
                            None
                        }
                    }
                },
            }
        }
    }
}

/// The key naming an entry's locator.
pub open spec fn key_filename() -> Seq<char> {
    seq!['f', 'i', 'l', 'e', 'n', 'a', 'm', 'e']
}

/// The key marking the current entry.
pub open spec fn key_current() -> Seq<char> {
    seq!['c', 'u', 'r', 'r', 'e', 'n', 't']
}

/// The key marking the playing entry.
pub open spec fn key_playing() -> Seq<char> {
    seq!['p', 'l', 'a', 'y', 'i', 'n', 'g']
}

/// The key naming an entry's id.
pub open spec fn key_id() -> Seq<char> {
    seq!['i', 'd']
}

/// What has been gathered of one entry while its members go by: each known
/// member's value once seen — a member may appear at most once, so the
/// optional ones also carry a seen mark, since `null` leaves their value
/// absent while still counting as an appearance.
pub struct ItemAcc {
    pub filename: Option<Seq<char>>,
    pub current: Option<bool>,
    pub seen_current: bool,
    pub playing: Option<bool>,
    pub seen_playing: bool,
    pub id: Option<int>,
}

/// Nothing gathered yet.
pub open spec fn empty_acc() -> ItemAcc {
    ItemAcc {
        filename: None,
        current: None,
        seen_current: false,
        playing: None,
        seen_playing: false,
        id: None,
    }
}

/// One member's value folded into the gathered entry: the known keys must
/// hold their declared types (the optional booleans also accept `null`),
/// may appear at most once, and the id must fit 32 bits; any other key's
/// value is skipped whole.
pub open spec fn spec_member_value(s: Seq<char>, i: int, acc: ItemAcc, key: Seq<char>) -> Option<
    (ItemAcc, int),
> {
    if key == key_filename() {
        if acc.filename is Some {
            None
        } else {
            match spec_parse_string(s, i) {
                Some((val, j)) => Some((ItemAcc { filename: Some(val), ..acc }, j)),
                None => None,
            }
        }
    } else if key == key_current() {
        if acc.seen_current {
            None
        } else {
            match spec_parse_bool(s, i) {
                Some((b, j)) => Some((ItemAcc { current: Some(b), seen_current: true, ..acc }, j)),
                None => match spec_parse_null(s, i) {
                    Some(j) => Some((ItemAcc { current: None, seen_current: true, ..acc }, j)),
                    None => None,
                },
            }
        }
    } else if key == key_playing() {
        if acc.seen_playing {
            None
        } else {
            match spec_parse_bool(s, i) {
                Some((b, j)) => Some((ItemAcc { playing: Some(b), seen_playing: true, ..acc }, j)),
                None => match spec_parse_null(s, i) {
                    Some(j) => Some((ItemAcc { playing: None, seen_playing: true, ..acc }, j)),
                    None => None,
                },
            }
        }
    } else if key == key_id() {
        if acc.id is Some {
            None
        } else {
            match spec_parse_int(s, i) {
                Some((m, j)) => if i32::MIN <= m <= i32::MAX {
                    Some((ItemAcc { id: Some(m), ..acc }, j))
                } else {
                    None
                },
                None => None,
            }
        }
    } else {
        match spec_skip_value(s, i) {
            Some(j) => Some((acc, j)),
            None => None,
        }
    }
}

/// The members of one entry, from right after its `{` or a separating
/// comma; a closing brace is accepted only right after the `{`.
pub open spec fn spec_item_members(s: Seq<char>, i: int, acc: ItemAcc, can_close: bool) -> Option<
    (ItemAcc, int),
>
    decreases s.len() - i,
{
    if !(0 <= i <= s.len()) {
        None
    } else {
        let j = spec_skip_ws(s, i);
        if !(i <= j <= s.len()) {
            None
        } else if can_close && j < s.len() && s[j] == '}' {
            Some((acc, j + 1))
        } else {
            match spec_parse_string(s, j) {
                None => None,
                Some((key, j2)) => {
                    if !(j < j2 <= s.len()) {
                        None
                    } else {
                        let j3 = spec_skip_ws(s, j2);
                        if !(j2 <= j3 <= s.len()) || !(j3 < s.len() && s[j3] == ':') {
                            None
                        } else {
                            let j4 = spec_skip_ws(s, j3 + 1);
                            if !(j3 + 1 <= j4 <= s.len()) {
                                None
                            } else {
                                match spec_member_value(s, j4, acc, key) {
                                    None => None,
                                    Some((acc2, j5)) => {
                                        if !(j4 < j5 <= s.len()) {
                                            None
                                        } else {
                                            let j6 = spec_skip_ws(s, j5);
                                            if !(j5 <= j6 <= s.len()) {
                                                None
                                            } else if j6 < s.len() && s[j6] == ',' {
                                                spec_item_members(s, j6 + 1, acc2, false)
                                            } else if j6 < s.len() && s[j6] == '}' {
                                                Some((acc2, j6 + 1))
                                            } else {
                                                None
                                            }
                                        }
                                    },
                                }
                            }
                        }
                    }
                },
            }
        }
    }
}

/// One whole entry: its members gathered, with the locator and the id
/// required — what the entry means is exactly these four members, however
/// many others the engine adds.
pub open spec fn spec_parse_item(s: Seq<char>, i: int) -> Option<(PlayListItemView, int)> {
    if !(0 <= i < s.len() && s[i] == '{') {
        None
    } else {
        match spec_item_members(s, i + 1, empty_acc(), true) {
            None => None,
            Some((acc, j)) => match (acc.filename, acc.id) {
                (Some(f), Some(d)) => Some(
                    (
                        PlayListItemView {
                            filename: f,
                            current: acc.current,
                            playing: acc.playing,
                            id: d,
                        },
                        j,
                    ),
                ),
                _ => None,
            },
        }
    }
}

/// The entries of the payload, from right after its `[` or a separating
/// comma; a closing bracket is accepted only right after the `[`.
pub open spec fn spec_parse_items(s: Seq<char>, i: int, can_close: bool) -> Option<
    (Seq<PlayListItemView>, int),
>
    decreases s.len() - i,
{
    if !(0 <= i <= s.len()) {
        None
    } else {
        let j = spec_skip_ws(s, i);
        if !(i <= j <= s.len()) {
            None
        } else if can_close && j < s.len() && s[j] == ']' {
            Some((Seq::empty(), j + 1))
        } else {
            match spec_parse_item(s, j) {
                None => None,
                Some((item, j5)) => {
                    if !(j < j5 <= s.len()) {
                        None
                    } else {
                        let j6 = spec_skip_ws(s, j5);
                        if !(j5 <= j6 <= s.len()) {
                            None
                        } else if j6 < s.len() && s[j6] == ',' {
                            match spec_parse_items(s, j6 + 1, false) {
                                Some((rest, j7)) => Some((seq![item] + rest, j7)),
                                None => None,
                            }
                        } else if j6 < s.len() && s[j6] == ']' {
                            Some((seq![item], j6 + 1))
                        } else {
                            None
                        }
                    }
                },
            }
        }
    }
}

/// The whole payload: one array of entries, possibly surrounded by
/// whitespace, and nothing after it.
pub open spec fn spec_parse_playlist(s: Seq<char>) -> Option<Seq<PlayListItemView>> {
    let j = spec_skip_ws(s, 0);
    if 0 <= j < s.len() && s[j] == '[' {
        match spec_parse_items(s, j + 1, true) {
            Some((items, j2)) => if spec_skip_ws(s, j2) == s.len() {
                Some(items)
            } else {
                None
            },
            None => None,
        }
    } else {
        None
    }
}

/// The value of a decoded entry list.
pub open spec fn items_view(items: Seq<PlayListItem>) -> Seq<PlayListItemView> {
    items.map_values(|x: PlayListItem| x@)
}

// The decoder, one function per grammar rule, each returning exactly what
// its rule says.

/// Relies on char::from_u32: it is defined exactly on the Unicode scalar
/// values, and returns the character with that value.
#[verifier::external_body]
fn char_from_u32(u: u32) -> (r: Option<char>)
    ensures
        r == (if is_scalar(u) {
            Some(u as char)
        } else {
            None::<char>
        }),
{
    char::from_u32(u)
}

fn ws_char(c: char) -> (r: bool)
    ensures
        r == is_json_ws(c),
{
    c == ' ' || c == '\t' || c == '\n' || c == '\r'
}

fn skip_ws(v: &Vec<char>, i: usize) -> (r: usize)
    requires
        i <= v@.len(),
    ensures
        r as int == spec_skip_ws(v@, i as int),
        i <= r <= v@.len(),
{
    let mut j = i;
    while j < v.len() && ws_char(v[j])
        invariant
            i <= j <= v@.len(),
            spec_skip_ws(v@, i as int) == spec_skip_ws(v@, j as int),
        decreases v@.len() - j,
    {
        j = j + 1;
    }
    j
}

fn hex_digit(c: char) -> (r: Option<u32>)
    ensures
        r == hex_digit_val(c),
{
    if '0' <= c && c <= '9' {
        Some(c as u32 - '0' as u32)
    } else if 'a' <= c && c <= 'f' {
        Some(c as u32 - 'a' as u32 + 10)
    } else if 'A' <= c && c <= 'F' {
        Some(c as u32 - 'A' as u32 + 10)
    } else {
        None
    }
}

fn hex4(v: &Vec<char>, i: usize) -> (r: Option<u32>)
    requires
        i <= usize::MAX - 4,
    ensures
        r == spec_hex4(v@, i as int),
{
    if i + 4 <= v.len() {
        match (hex_digit(v[i]), hex_digit(v[i + 1]), hex_digit(v[i + 2]), hex_digit(v[i + 3])) {
            (Some(a), Some(b), Some(c), Some(d)) => Some(0x1000 * a + 0x100 * b + 0x10 * c + d),
            _ => None,
        }
    } else {
        None
    }
}

/// Decodes the rest of a string token into `acc`, returning the position
/// after the closing quote.
fn string_rest(v: &Vec<char>, i: usize, acc: &mut Vec<char>) -> (r: Result<usize, PlaylistError>)
    requires
        i <= v@.len(),
        v@.len() <= usize::MAX - 16,
    ensures
        (match r {
            Ok(j) => spec_string_rest(v@, i as int, old(acc)@) == Some((final(acc)@, j as int))
                && i <= j <= v@.len(),
            Err(e) => spec_string_rest(v@, i as int, old(acc)@) is None && e
                == PlaylistError::Malformed,
        }),
    decreases v@.len() - i,
{
    if i >= v.len() {
        return Err(PlaylistError::Malformed);
    }
    let c = v[i];
    if c == '"' {
        return Ok(i + 1);
    }
    if c == '\\' {
        if i + 1 >= v.len() {
            return Err(PlaylistError::Malformed);
        }
        let e = v[i + 1];
        if e == 'u' {
            match hex4(v, i + 2) {
                None => Err(PlaylistError::Malformed),
                Some(h) => {
                    if 0xD800 <= h && h < 0xDC00 {
                        if i + 7 < v.len() && v[i + 6] == '\\' && v[i + 7] == 'u' {
                            match hex4(v, i + 8) {
                                None => Err(PlaylistError::Malformed),
                                Some(l) => {
                                    if 0xDC00 <= l && l < 0xE000 {
                                        let u = 0x10000 + (h - 0xD800) * 0x400 + (l - 0xDC00);
                                        match char_from_u32(u) {
                                            Some(d) => {
                                                acc.push(d);
                                                string_rest(v, i + 12, acc)
                                            },
                                            None => Err(PlaylistError::Malformed),
                                        }
                                    } else {
                                        Err(PlaylistError::Malformed)
                                    }
                                },
                            }
                        } else {
                            Err(PlaylistError::Malformed)
                        }
                    } else if 0xDC00 <= h && h < 0xE000 {
                        Err(PlaylistError::Malformed)
                    } else {
                        match char_from_u32(h) {
                            Some(d) => {
                                acc.push(d);
                                string_rest(v, i + 6, acc)
                            },
                            None => Err(PlaylistError::Malformed),
                        }
                    }
                },
            }
        } else {
            match simple_escape_char(e) {
                Some(d) => {
                    acc.push(d);
                    string_rest(v, i + 2, acc)
                },
                None => Err(PlaylistError::Malformed),
            }
        }
    } else if (c as u32) < 0x20 {
        Err(PlaylistError::Malformed)
    } else {
        acc.push(c);
        string_rest(v, i + 1, acc)
    }
}

fn simple_escape_char(c: char) -> (r: Option<char>)
    ensures
        r == simple_escape(c),
{
    if c == '"' {
        Some('"')
    } else if c == '\\' {
        Some('\\')
    } else if c == '/' {
        Some('/')
    } else if c == 'b' {
        Some('\u{8}')
    } else if c == 'f' {
        Some('\u{c}')
    } else if c == 'n' {
        Some('\n')
    } else if c == 'r' {
        Some('\r')
    } else if c == 't' {
        Some('\t')
    } else {
        None
    }
}

fn digit_char(c: char) -> (r: bool)
    ensures
        r == is_digit(c),
{
    '0' <= c && c <= '9'
}

/// The first position at or after `i` holding no digit.
fn digits_end(v: &Vec<char>, i: usize) -> (r: usize)
    requires
        i <= v@.len(),
    ensures
        r as int == spec_digits_end(v@, i as int),
        i <= r <= v@.len(),
        i < v@.len() && is_digit(v@[i as int]) ==> i < r,
{
    if !(i < v.len() && digit_char(v[i])) {
        return i;
    }
    let mut j = i + 1;
    while j < v.len() && digit_char(v[j])
        invariant
            i < j <= v@.len(),
            spec_digits_end(v@, i as int) == spec_digits_end(v@, j as int),
        decreases v@.len() - j,
    {
        j = j + 1;
    }
    j
}

/// Decodes an integer token into a 32-bit value; a value outside that
/// range is malformed, as is anything that is not an integer token.
fn parse_int32(v: &Vec<char>, i: usize) -> (r: Result<(i32, usize), PlaylistError>)
    requires
        i <= v@.len(),
        v@.len() <= usize::MAX - 16,
    ensures
        (match r {
            Ok((n, j)) => spec_parse_int(v@, i as int) == Some((n as int, j as int)) && i < j
                <= v@.len(),
            Err(e) => (match spec_parse_int(v@, i as int) {
                None => true,
                Some(p) => !(i32::MIN <= p.0 <= i32::MAX),
            }) && e == PlaylistError::Malformed,
        }),
{
    let mut k = i;
    let mut neg = false;
    if k < v.len() && v[k] == '-' {
        neg = true;
        k = k + 1;
    }
    if !(k < v.len() && digit_char(v[k])) {
        return Err(PlaylistError::Malformed);
    }
    let start = k;
    let mut acc: i64 = 0;
    let mut over = false;
    while k < v.len() && digit_char(v[k])
        invariant
            i <= start <= k <= v@.len(),
            spec_digits_end(v@, start as int) == spec_digits_end(v@, k as int),
            !over ==> acc == spec_digits_value(v@, start as int, k as int) && 0 <= acc
                <= 0x8000_0000,
            over ==> spec_digits_value(v@, start as int, k as int) > 0x8000_0000,
        decreases v@.len() - k,
    {
        let d = v[k] as u32 - '0' as u32;
        if !over {
            let na = acc * 10 + d as i64;
            if na > 0x8000_0000 {
                over = true;
            } else {
                acc = na;
            }
        }
        k = k + 1;
    }
    if v[start] == '0' && k > start + 1 {
        return Err(PlaylistError::Malformed);
    }
    if over {
        return Err(PlaylistError::Malformed);
    }
    if neg {
        let n = -acc;
        if n < i32::MIN as i64 {
            return Err(PlaylistError::Malformed);
        }
        Ok((n as i32, k))
    } else {
        if acc > i32::MAX as i64 {
            return Err(PlaylistError::Malformed);
        }
        Ok((acc as i32, k))
    }
}

/// Decodes a boolean token.
fn parse_bool(v: &Vec<char>, i: usize) -> (r: Result<(bool, usize), PlaylistError>)
    requires
        i <= v@.len(),
        v@.len() <= usize::MAX - 16,
    ensures
        (match r {
            Ok((b, j)) => spec_parse_bool(v@, i as int) == Some((b, j as int)) && i < j
                <= v@.len(),
            Err(e) => spec_parse_bool(v@, i as int) is None && e == PlaylistError::Malformed,
        }),
{
    if i + 4 <= v.len() && v[i] == 't' && v[i + 1] == 'r' && v[i + 2] == 'u' && v[i + 3] == 'e' {
        Ok((true, i + 4))
    } else if i + 5 <= v.len() && v[i] == 'f' && v[i + 1] == 'a' && v[i + 2] == 'l' && v[i + 3]
        == 's' && v[i + 4] == 'e' {
        Ok((false, i + 5))
    } else {
        Err(PlaylistError::Malformed)
    }
}

/// Decodes the null token.
fn parse_null(v: &Vec<char>, i: usize) -> (r: Result<usize, PlaylistError>)
    requires
        i <= v@.len(),
        v@.len() <= usize::MAX - 16,
    ensures
        (match r {
            Ok(j) => spec_parse_null(v@, i as int) == Some(j as int) && i < j <= v@.len(),
            Err(e) => spec_parse_null(v@, i as int) is None && e == PlaylistError::Malformed,
        }),
{
    if i + 4 <= v.len() && v[i] == 'n' && v[i + 1] == 'u' && v[i + 2] == 'l' && v[i + 3] == 'l' {
        Ok(i + 4)
    } else {
        Err(PlaylistError::Malformed)
    }
}

/// Skips past a number token.
fn skip_number(v: &Vec<char>, i: usize) -> (r: Result<usize, PlaylistError>)
    requires
        i <= v@.len(),
        v@.len() <= usize::MAX - 16,
    ensures
        (match r {
            Ok(j) => spec_skip_number(v@, i as int) == Some(j as int) && i < j <= v@.len(),
            Err(e) => spec_skip_number(v@, i as int) is None && e == PlaylistError::Malformed,
        }),
{
    let mut k1 = i;
    if k1 < v.len() && v[k1] == '-' {
        k1 = k1 + 1;
    }
    if !(k1 < v.len() && digit_char(v[k1])) {
        return Err(PlaylistError::Malformed);
    }
    let k2 = if v[k1] == '0' {
        k1 + 1
    } else {
        digits_end(v, k1)
    };
    if k2 < v.len() && v[k2] == '.' {
        if k2 + 1 < v.len() && digit_char(v[k2 + 1]) {
            skip_exponent(v, digits_end(v, k2 + 1))
        } else {
            Err(PlaylistError::Malformed)
        }
    } else {
        skip_exponent(v, k2)
    }
}

/// Skips past an optional exponent part.
fn skip_exponent(v: &Vec<char>, i: usize) -> (r: Result<usize, PlaylistError>)
    requires
        i <= v@.len(),
        v@.len() <= usize::MAX - 16,
    ensures
        (match r {
            Ok(j) => spec_skip_exponent(v@, i as int) == Some(j as int) && i <= j <= v@.len(),
            Err(e) => spec_skip_exponent(v@, i as int) is None && e == PlaylistError::Malformed,
        }),
{
    if i < v.len() && (v[i] == 'e' || v[i] == 'E') {
        let k = if i + 1 < v.len() && (v[i + 1] == '+' || v[i + 1] == '-') {
            i + 2
        } else {
            i + 1
        };
        if k < v.len() && digit_char(v[k]) {
            Ok(digits_end(v, k))
        } else {
            Err(PlaylistError::Malformed)
        }
    } else {
        Ok(i)
    }
}

/// Skips past one whole value of any kind.
fn skip_value(v: &Vec<char>, i: usize) -> (r: Result<usize, PlaylistError>)
    requires
        i <= v@.len(),
        v@.len() <= usize::MAX - 16,
    ensures
        (match r {
            Ok(j) => spec_skip_value(v@, i as int) == Some(j as int) && i < j <= v@.len(),
            Err(e) => spec_skip_value(v@, i as int) is None && e == PlaylistError::Malformed,
        }),
    decreases v@.len() - i, 0int,
{
    if i >= v.len() {
        return Err(PlaylistError::Malformed);
    }
    let c = v[i];
    if c == '"' {
        let mut acc: Vec<char> = Vec::new();
        proof {
            assert(acc@ =~= Seq::<char>::empty());
        }
        match string_rest(v, i + 1, &mut acc) {
            Ok(j) => Ok(j),
            Err(e) => Err(e),
        }
    } else if c == '{' {
        skip_object_rest(v, i + 1, true)
    } else if c == '[' {
        skip_array_rest(v, i + 1, true)
    } else if c == 't' || c == 'f' {
        match parse_bool(v, i) {
            Ok((b, j)) => Ok(j),
            Err(e) => Err(e),
        }
    } else if c == 'n' {
        parse_null(v, i)
    } else {
        skip_number(v, i)
    }
}

/// Skips the members of an object, from right after its `{` or a comma.
fn skip_object_rest(v: &Vec<char>, i: usize, can_close: bool) -> (r: Result<usize, PlaylistError>)
    requires
        i <= v@.len(),
        v@.len() <= usize::MAX - 16,
    ensures
        (match r {
            Ok(j) => spec_skip_object_rest(v@, i as int, can_close) == Some(j as int) && i < j
                <= v@.len(),
            Err(e) => spec_skip_object_rest(v@, i as int, can_close) is None && e
                == PlaylistError::Malformed,
        }),
    decreases v@.len() - i, 1int,
{
    let j = skip_ws(v, i);
    if can_close && j < v.len() && v[j] == '}' {
        return Ok(j + 1);
    }
    match parse_string(v, j) {
        Err(e) => Err(e),
        Ok((key, j2)) => {
            let j3 = skip_ws(v, j2);
            if !(j3 < v.len() && v[j3] == ':') {
                return Err(PlaylistError::Malformed);
            }
            let j4 = skip_ws(v, j3 + 1);
            match skip_value(v, j4) {
                Err(e) => Err(e),
                Ok(j5) => {
                    let j6 = skip_ws(v, j5);
                    if j6 < v.len() && v[j6] == ',' {
                        skip_object_rest(v, j6 + 1, false)
                    } else if j6 < v.len() && v[j6] == '}' {
                        Ok(j6 + 1)
                    } else {
                        Err(PlaylistError::Malformed)
                    }
                },
            }
        },
    }
}

/// Skips the elements of an array, from right after its `[` or a comma.
fn skip_array_rest(v: &Vec<char>, i: usize, can_close: bool) -> (r: Result<usize, PlaylistError>)
    requires
        i <= v@.len(),
        v@.len() <= usize::MAX - 16,
    ensures
        (match r {
            Ok(j) => spec_skip_array_rest(v@, i as int, can_close) == Some(j as int) && i < j
                <= v@.len(),
            Err(e) => spec_skip_array_rest(v@, i as int, can_close) is None && e
                == PlaylistError::Malformed,
        }),
    decreases v@.len() - i, 1int,
{
    let j = skip_ws(v, i);
    if can_close && j < v.len() && v[j] == ']' {
        return Ok(j + 1);
    }
    match skip_value(v, j) {
        Err(e) => Err(e),
        Ok(j5) => {
            let j6 = skip_ws(v, j5);
            if j6 < v.len() && v[j6] == ',' {
                skip_array_rest(v, j6 + 1, false)
            } else if j6 < v.len() && v[j6] == ']' {
                Ok(j6 + 1)
            } else {
                Err(PlaylistError::Malformed)
            }
        },
    }
}

fn key_is_filename(key: &Vec<char>) -> (r: bool)
    ensures
        r == (key@ == key_filename()),
{
    let r = key.len() == 8 && key[0] == 'f' && key[1] == 'i' && key[2] == 'l' && key[3] == 'e'
        && key[4] == 'n' && key[5] == 'a' && key[6] == 'm' && key[7] == 'e';
    proof {
        if r {
            assert(key@ =~= key_filename());
        }
    }
    r
}

fn key_is_current(key: &Vec<char>) -> (r: bool)
    ensures
        r == (key@ == key_current()),
{
    let r = key.len() == 7 && key[0] == 'c' && key[1] == 'u' && key[2] == 'r' && key[3] == 'r'
        && key[4] == 'e' && key[5] == 'n' && key[6] == 't';
    proof {
        if r {
            assert(key@ =~= key_current());
        }
    }
    r
}

fn key_is_playing(key: &Vec<char>) -> (r: bool)
    ensures
        r == (key@ == key_playing()),
{
    let r = key.len() == 7 && key[0] == 'p' && key[1] == 'l' && key[2] == 'a' && key[3] == 'y'
        && key[4] == 'i' && key[5] == 'n' && key[6] == 'g';
    proof {
        if r {
            assert(key@ =~= key_playing());
        }
    }
    r
}

fn key_is_id(key: &Vec<char>) -> (r: bool)
    ensures
        r == (key@ == key_id()),
{
    let r = key.len() == 2 && key[0] == 'i' && key[1] == 'd';
    proof {
        if r {
            assert(key@ =~= key_id());
        }
    }
    r
}

/// What has been gathered of one entry so far.
struct PartialItem {
    filename: Option<Vec<char>>,
    current: Option<bool>,
    seen_current: bool,
    playing: Option<bool>,
    seen_playing: bool,
    id: Option<i32>,
}

impl View for PartialItem {
    type V = ItemAcc;

    closed spec fn view(&self) -> ItemAcc {
        ItemAcc {
            filename: match self.filename {
                Some(f) => Some(f@),
                None => None,
            },
            current: self.current,
            seen_current: self.seen_current,
            playing: self.playing,
            seen_playing: self.seen_playing,
            id: match self.id {
                Some(d) => Some(d as int),
                None => None,
            },
        }
    }
}

/// Folds one member's value into the gathered entry.
fn member_value(v: &Vec<char>, i: usize, acc: PartialItem, key: &Vec<char>) -> (r: Result<
    (PartialItem, usize),
    PlaylistError,
>)
    requires
        i <= v@.len(),
        v@.len() <= usize::MAX - 16,
    ensures
        (match r {
            Ok((acc2, j)) => spec_member_value(v@, i as int, acc@, key@) == Some(
                (acc2@, j as int),
            ) && i < j <= v@.len(),
            Err(e) => spec_member_value(v@, i as int, acc@, key@) is None && e
                == PlaylistError::Malformed,
        }),
{
    if key_is_filename(key) {
        if acc.filename.is_some() {
            return Err(PlaylistError::Malformed);
        }
        match parse_string(v, i) {
            Ok((val, j)) => Ok((PartialItem { filename: Some(val), ..acc }, j)),
            Err(e) => Err(e),
        }
    } else if key_is_current(key) {
        if acc.seen_current {
            return Err(PlaylistError::Malformed);
        }
        match parse_bool(v, i) {
            Ok((b, j)) => Ok((PartialItem { current: Some(b), seen_current: true, ..acc }, j)),
            Err(_) => match parse_null(v, i) {
                Ok(j) => Ok((PartialItem { current: None, seen_current: true, ..acc }, j)),
                Err(e) => Err(e),
            },
        }
    } else if key_is_playing(key) {
        if acc.seen_playing {
            return Err(PlaylistError::Malformed);
        }
        match parse_bool(v, i) {
            Ok((b, j)) => Ok((PartialItem { playing: Some(b), seen_playing: true, ..acc }, j)),
            Err(_) => match parse_null(v, i) {
                Ok(j) => Ok((PartialItem { playing: None, seen_playing: true, ..acc }, j)),
                Err(e) => Err(e),
            },
        }
    } else if key_is_id(key) {
        if acc.id.is_some() {
            return Err(PlaylistError::Malformed);
        }
        match parse_int32(v, i) {
            Ok((n, j)) => Ok((PartialItem { id: Some(n), ..acc }, j)),
            Err(e) => Err(e),
        }
    } else {
        match skip_value(v, i) {
            Ok(j) => Ok((acc, j)),
            Err(e) => Err(e),
        }
    }
}

/// Decodes the members of one entry, from right after its `{` or a comma.
fn item_members(v: &Vec<char>, i: usize, acc: PartialItem, can_close: bool) -> (r: Result<
    (PartialItem, usize),
    PlaylistError,
>)
    requires
        i <= v@.len(),
        v@.len() <= usize::MAX - 16,
    ensures
        (match r {
            Ok((acc2, j)) => spec_item_members(v@, i as int, acc@, can_close) == Some(
                (acc2@, j as int),
            ) && i <= j <= v@.len(),
            Err(e) => spec_item_members(v@, i as int, acc@, can_close) is None && e
                == PlaylistError::Malformed,
        }),
    decreases v@.len() - i,
{
    let j = skip_ws(v, i);
    if can_close && j < v.len() && v[j] == '}' {
        return Ok((acc, j + 1));
    }
    match parse_string(v, j) {
        Err(e) => Err(e),
        Ok((key, j2)) => {
            let j3 = skip_ws(v, j2);
            if !(j3 < v.len() && v[j3] == ':') {
                return Err(PlaylistError::Malformed);
            }
            let j4 = skip_ws(v, j3 + 1);
            match member_value(v, j4, acc, &key) {
                Err(e) => Err(e),
                Ok((acc2, j5)) => {
                    let j6 = skip_ws(v, j5);
                    if j6 < v.len() && v[j6] == ',' {
                        item_members(v, j6 + 1, acc2, false)
                    } else if j6 < v.len() && v[j6] == '}' {
                        Ok((acc2, j6 + 1))
                    } else {
                        Err(PlaylistError::Malformed)
                    }
                },
            }
        },
    }
}

/// Relies on String::from_iter: the string holding exactly the given
/// characters, in order.
#[verifier::external_body]
fn string_from_chars(v: Vec<char>) -> (r: String)
    ensures
        r@ == v@,
{
    String::from_iter(v)
}

/// Decodes one whole entry starting at `i`.
fn parse_item(v: &Vec<char>, i: usize) -> (r: Result<(PlayListItem, usize), PlaylistError>)
    requires
        i <= v@.len(),
        v@.len() <= usize::MAX - 16,
    ensures
        (match r {
            Ok((item, j)) => spec_parse_item(v@, i as int) == Some((item@, j as int)) && i < j
                <= v@.len(),
            Err(e) => spec_parse_item(v@, i as int) is None && e == PlaylistError::Malformed,
        }),
{
    if !(i < v.len() && v[i] == '{') {
        return Err(PlaylistError::Malformed);
    }
    let start = PartialItem {
        filename: None,
        current: None,
        seen_current: false,
        playing: None,
        seen_playing: false,
        id: None,
    };
    match item_members(v, i + 1, start, true) {
        Err(e) => Err(e),
        Ok((acc, j)) => match (acc.filename, acc.id) {
            (Some(f), Some(d)) => Ok(
                (
                    PlayListItem {
                        filename: string_from_chars(f),
                        current: acc.current,
                        playing: acc.playing,
                        id: d,
                    },
                    j,
                ),
            ),
            _ => Err(PlaylistError::Malformed),
        },
    }
}

/// Decodes the entries of the payload, from right after its `[` or a
/// comma.
fn parse_items(v: &Vec<char>, i: usize, can_close: bool) -> (r: Result<
    (Vec<PlayListItem>, usize),
    PlaylistError,
>)
    requires
        i <= v@.len(),
        v@.len() <= usize::MAX - 16,
    ensures
        (match r {
            Ok((items, j)) => spec_parse_items(v@, i as int, can_close) == Some(
                (items_view(items@), j as int),
            ) && i <= j <= v@.len(),
            Err(e) => spec_parse_items(v@, i as int, can_close) is None && e
                == PlaylistError::Malformed,
        }),
    decreases v@.len() - i,
{
    let j = skip_ws(v, i);
    if can_close && j < v.len() && v[j] == ']' {
        let items: Vec<PlayListItem> = Vec::new();
        proof {
            assert(items_view(items@) =~= Seq::<PlayListItemView>::empty());
        }
        return Ok((items, j + 1));
    }
    match parse_item(v, j) {
        Err(e) => Err(e),
        Ok((item, j5)) => {
            let ghost itemv = item@;
            let j6 = skip_ws(v, j5);
            if j6 < v.len() && v[j6] == ',' {
                match parse_items(v, j6 + 1, false) {
                    Err(e) => Err(e),
                    Ok((mut rest, j7)) => {
                        let ghost restv = items_view(rest@);
                        rest.insert(0, item);
                        proof {
                            assert(items_view(rest@) =~= seq![itemv] + restv);
                        }
                        Ok((rest, j7))
                    },
                }
            } else if j6 < v.len() && v[j6] == ']' {
                let mut items: Vec<PlayListItem> = Vec::new();
                items.push(item);
                proof {
                    assert(items_view(items@) =~= seq![itemv]);
                }
                Ok((items, j6 + 1))
            } else {
                Err(PlaylistError::Malformed)
            }
        },
    }
}

/// Decodes a whole playlist payload given as characters.
pub fn parse_playlist_chars(v: &Vec<char>) -> (r: Result<Vec<PlayListItem>, PlaylistError>)
    requires
        v@.len() <= usize::MAX - 16,
    ensures
        (match r {
            Ok(items) => spec_parse_playlist(v@) == Some(items_view(items@)),
            Err(e) => spec_parse_playlist(v@) is None && e == PlaylistError::Malformed,
        }),
{
    let j = skip_ws(v, 0);
    if !(j < v.len() && v[j] == '[') {
        return Err(PlaylistError::Malformed);
    }
    match parse_items(v, j + 1, true) {
        Err(e) => Err(e),
        Ok((items, j2)) => {
            let j3 = skip_ws(v, j2);
            if j3 == v.len() {
                Ok(items)
            } else {
                Err(PlaylistError::Malformed)
            }
        },
    }
}

/// The characters of a string, one by one.
fn chars_of(s: &str) -> (v: Vec<char>)
    ensures
        v@ == s@,
{
    let n = s.unicode_len();
    let mut v: Vec<char> = Vec::new();
    let mut i: usize = 0;
    proof {
        assert(v@ =~= s@.take(0));
    }
    while i < n
        invariant
            0 <= i <= n,
            n == s@.len(),
            v@ == s@.take(i as int),
        decreases n - i,
    {
        let c = s.get_char(i);
        v.push(c);
        proof {
            assert(s@.take(i as int).push(s@[i as int]) =~= s@.take(i as int + 1));
        }
        i = i + 1;
    }
    proof {
        assert(s@.take(n as int) =~= s@);
    }
    v
}

/// Compares two strings character by character.
fn str_eq(a: &str, b: &str) -> (r: bool)
    ensures
        r == (a@ == b@),
{
    let n = a.unicode_len();
    if n != b.unicode_len() {
        return false;
    }
    let mut i: usize = 0;
    while i < n
        invariant
            0 <= i <= n,
            n == a@.len(),
            n == b@.len(),
            forall|k: int| 0 <= k < i ==> a@[k] == b@[k],
        decreases n - i,
    {
        if a.get_char(i) != b.get_char(i) {
            return false;
        }
        i = i + 1;
    }
    proof {
        assert(a@ =~= b@);
    }
    true
}

/// The index the shown playlist entry was chosen at: the first position
/// in the displayed filename list holding exactly the chosen string, if
/// any — what the jump issued from the playlist view is aimed at.
pub fn find_index(files: &Vec<String>, target: &str) -> (r: Option<usize>)
    ensures
        (match r {
            Some(i) => i < files@.len() && files@[i as int]@ == target@ && (forall|k: int|
                0 <= k < i ==> files@[k]@ != target@),
            None => forall|k: int| 0 <= k < files@.len() ==> files@[k]@ != target@,
        }),
{
    let mut i: usize = 0;
    while i < files.len()
        invariant
            0 <= i <= files@.len(),
            forall|k: int| 0 <= k < i ==> files@[k]@ != target@,
        decreases files@.len() - i,
    {
        if str_eq(files[i].as_str(), target) {
            return Some(i);
        }
        i = i + 1;
    }
    None
}

/// Decodes the engine's playlist property: the payload grammar decoded
/// exactly, a payload outside it reported as malformed.
pub fn parse_playlist(s: &str) -> (r: Result<Vec<PlayListItem>, PlaylistError>)
    requires
        s@.len() <= usize::MAX - 16,
    ensures
        (match r {
            Ok(items) => spec_parse_playlist(s@) == Some(items_view(items@)),
            Err(e) => spec_parse_playlist(s@) is None && e == PlaylistError::Malformed,
        }),
{
    let v = chars_of(s);
    parse_playlist_chars(&v)
}

/// Decodes a whole string token starting at `i`.
fn parse_string(v: &Vec<char>, i: usize) -> (r: Result<(Vec<char>, usize), PlaylistError>)
    requires
        i <= v@.len(),
        v@.len() <= usize::MAX - 16,
    ensures
        (match r {
            Ok((w, j)) => spec_parse_string(v@, i as int) == Some((w@, j as int)) && i < j
                <= v@.len(),
            Err(e) => spec_parse_string(v@, i as int) is None && e == PlaylistError::Malformed,
        }),
{
    if i < v.len() && v[i] == '"' {
        let mut acc: Vec<char> = Vec::new();
        proof {
            assert(acc@ =~= Seq::<char>::empty());
        }
        match string_rest(v, i + 1, &mut acc) {
            Ok(j) => Ok((acc, j)),
            Err(e) => Err(e),
        }
    } else {
        Err(PlaylistError::Malformed)
    }
}

} // verus!
