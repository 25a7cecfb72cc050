//! Port ranges: their textual form and membership.

use vstd::prelude::*;

use crate::error::ConfigError;
use crate::text::chars_of;

verus! {

/// An inclusive range of ports. A single port `p` is the range from `p` to `p`;
/// a range whose `low` exceeds its `high` holds no port.
#[derive(Clone, Copy, Debug, PartialEq, Eq, Structural)]
pub struct PortRange {
    pub low: u16,
    pub high: u16,
}

impl PortRange {
    /// Whether `port` lies in the range, both ends included.
    pub open spec fn spec_contains(self, port: u16) -> bool {
        self.low <= port && port <= self.high
    }

    pub fn new(low: u16, high: u16) -> (range: PortRange)
        ensures
            range == (PortRange { low, high }),
    {
        PortRange { low, high }
    }

    /// The range that holds `port` and nothing else.
    pub fn single(port: u16) -> (range: PortRange)
        ensures
            range == (PortRange { low: port, high: port }),
    {
        PortRange { low: port, high: port }
    }

    pub fn contains(&self, port: u16) -> (inside: bool)
        ensures
            inside == self.spec_contains(port),
    {
        self.low <= port && port <= self.high
    }
}

/// Whether a list of ranges admits `port`: an empty list admits every port,
/// any other list admits the ports of its ranges.
pub open spec fn ports_admit(ranges: Seq<PortRange>, port: u16) -> bool {
    ranges.len() == 0 || exists|i: int| 0 <= i < ranges.len() && #[trigger] ranges[i].spec_contains(port)
}

pub fn port_allowed(ranges: &Vec<PortRange>, port: u16) -> (admitted: bool)
    ensures
        admitted == ports_admit(ranges@, port),
{
    if ranges.len() == 0 {
        return true;
    }
    let mut i: usize = 0;
    while i < ranges.len()
        invariant
            i <= ranges.len(),
            forall|k: int| 0 <= k < i ==> !(#[trigger] ranges@[k]).spec_contains(port),
        decreases ranges.len() - i,
    {
        if ranges[i].contains(port) {
            return true;
        }
        i += 1;
    }
    false
}

pub open spec fn is_digit(c: char) -> bool {
    '0' <= c && c <= '9'
}

pub open spec fn digit_value(c: char) -> int {
    c as int - '0' as int
}

/// The number that a sequence of decimal digits writes, most significant digit
/// first.
pub open spec fn decimal_value(digits: Seq<char>) -> int
    decreases digits.len(),
{
    if digits.len() == 0 {
        0
    } else {
        10 * decimal_value(digits.drop_last()) + digit_value(digits.last())
    }
}

/// One decimal digit or more, and nothing else.
pub open spec fn is_decimal(digits: Seq<char>) -> bool {
    digits.len() > 0 && forall|i: int| 0 <= i < digits.len() ==> is_digit(#[trigger] digits[i])
}

/// The text without the `+` that may lead it.
pub open spec fn unsigned_part(text: Seq<char>) -> Seq<char> {
    if text.len() > 0 && text[0] == '+' {
        text.subrange(1, text.len() as int)
    } else {
        text
    }
}

/// The port that `text` writes: decimal digits, possibly after one `+`, whose
/// value fits in 16 bits. Leading zeros are accepted; blanks, other signs and an
/// empty text are not.
pub open spec fn parse_port_spec(text: Seq<char>) -> Option<u16> {
    let digits = unsigned_part(text);
    if is_decimal(digits) && decimal_value(digits) <= u16::MAX {
        Some(decimal_value(digits) as u16)
    } else {
        None
    }
}

/// Whether `..` stands at position `i` of `text`.
pub open spec fn separator_at(text: Seq<char>, i: int) -> bool {
    0 <= i && i + 1 < text.len() && text[i] == '.' && text[i + 1] == '.'
}

pub open spec fn has_separator(text: Seq<char>) -> bool {
    exists|i: int| separator_at(text, i)
}

/// Whether `i` is the position of the first `..` in `text`.
pub open spec fn first_separator_at(text: Seq<char>, i: int) -> bool {
    separator_at(text, i) && forall|j: int| 0 <= j < i ==> !separator_at(text, j)
}

/// The range that `text` writes. Without `..` the text is one port. With `..`
/// the text is cut at its first occurrence, and what stands before and after it
/// are the two ends, each a port.
pub open spec fn parse_port_range_spec(text: Seq<char>) -> Option<PortRange> {
    if has_separator(text) {
        let cut = choose|i: int| first_separator_at(text, i);
        let low = parse_port_spec(text.subrange(0, cut));
        let high = parse_port_spec(text.subrange(cut + 2, text.len() as int));
        if low is Some && high is Some {
            Some(PortRange { low: low->0, high: high->0 })
        } else {
            None
        }
    } else {
        match parse_port_spec(text) {
            Some(port) => Some(PortRange { low: port, high: port }),
            None => None,
        }
    }
}

/// Appending digits never lowers the value written.
proof fn lemma_decimal_value_grows(digits: Seq<char>, k: int)
    requires
        0 <= k <= digits.len(),
        forall|i: int| 0 <= i < digits.len() ==> is_digit(#[trigger] digits[i]),
    ensures
        0 <= decimal_value(digits.subrange(0, k)) <= decimal_value(digits),
    decreases digits.len() - k,
{
    if k == digits.len() {
        assert(digits.subrange(0, k) == digits);
        lemma_decimal_value_nonnegative(digits);
    } else {
        let shorter = digits.drop_last();
        assert(shorter.subrange(0, k) == digits.subrange(0, k));
        lemma_decimal_value_grows(shorter, k);
        assert(is_digit(digits.last()));
    }
}

proof fn lemma_decimal_value_nonnegative(digits: Seq<char>)
    requires
        forall|i: int| 0 <= i < digits.len() ==> is_digit(#[trigger] digits[i]),
    ensures
        0 <= decimal_value(digits),
    decreases digits.len(),
{
    if digits.len() > 0 {
        lemma_decimal_value_nonnegative(digits.drop_last());
        assert(is_digit(digits.last()));
    }
}

/// Parses the port written by `chars[from..to]`.
fn parse_port_between(chars: &Vec<char>, from: usize, to: usize) -> (port: Option<u16>)
    requires
        from <= to <= chars.len(),
    ensures
        port == parse_port_spec(chars@.subrange(from as int, to as int)),
{
    let ghost text = chars@.subrange(from as int, to as int);
    let start: usize = if from < to && chars[from] == '+' {
        from + 1
    } else {
        from
    };
    let ghost digits = chars@.subrange(start as int, to as int);
    assert(digits == unsigned_part(text));
    if start == to {
        return None;
    }
    let mut value: u32 = 0;
    let mut i: usize = start;
    assert(chars@.subrange(start as int, i as int).len() == 0);
    while i < to
        invariant
            from <= start <= i <= to <= chars.len(),
            text == chars@.subrange(from as int, to as int),
            digits == chars@.subrange(start as int, to as int),
            digits == unsigned_part(text),
            forall|k: int| start <= k < i ==> is_digit(#[trigger] chars@[k]),
            value == decimal_value(chars@.subrange(start as int, i as int)),
            value <= u16::MAX,
        decreases to - i,
    {
        let c: char = chars[i];
        if !('0' <= c && c <= '9') {
            assert(!is_digit(digits[i - start]));
            return None;
        }
        let digit: u32 = c as u32 - '0' as u32;
        let next: u32 = value * 10 + digit;
        proof {
            let longer = chars@.subrange(start as int, i + 1);
            assert(longer.drop_last() == chars@.subrange(start as int, i as int));
            assert(longer.last() == c);
            assert(next == decimal_value(longer));
            if is_decimal(digits) {
                assert(digits.subrange(0, i + 1 - start) == longer);
                lemma_decimal_value_grows(digits, i + 1 - start);
            }
        }
        if next > 65535 {
            return None;
        }
        value = next;
        i += 1;
    }
    assert(chars@.subrange(start as int, i as int) == digits);
    assert(forall|k: int| 0 <= k < digits.len() ==> is_digit(#[trigger] digits[k])) by {
        assert(forall|k: int| 0 <= k < digits.len() ==> digits[k] == chars@[start + k]);
    }
    Some(value as u16)
}

/// Finds the first `..` of `chars`.
fn find_separator(chars: &Vec<char>) -> (cut: Option<usize>)
    ensures
        match cut {
            Some(i) => first_separator_at(chars@, i as int),
            None => !has_separator(chars@),
        },
{
    if chars.len() < 2 {
        return None;
    }
    let mut i: usize = 0;
    while i + 1 < chars.len()
        invariant
            i + 1 <= chars.len(),
            forall|j: int| 0 <= j < i ==> !separator_at(chars@, j),
        decreases chars.len() - i,
    {
        if chars[i] == '.' && chars[i + 1] == '.' {
            return Some(i);
        }
        i += 1;
    }
    None
}

/// Reads one port.
pub fn parse_port(text: &str) -> (port: Result<u16, ConfigError>)
    ensures
        port == (match parse_port_spec(text@) {
            Some(p) => Ok::<u16, ConfigError>(p),
            None => Err(ConfigError::InvalidPort),
        }),
{
    let chars = chars_of(text);
    assert(chars@.subrange(0, chars@.len() as int) == chars@);
    match parse_port_between(&chars, 0, chars.len()) {
        Some(p) => Ok(p),
        None => Err(ConfigError::InvalidPort),
    }
}

/// Reads one entry of a port list: a single port or `<low>..<high>`.
pub fn parse_port_range(text: &str) -> (range: Result<PortRange, ConfigError>)
    ensures
        range == (match parse_port_range_spec(text@) {
            Some(r) => Ok::<PortRange, ConfigError>(r),
            None => Err(ConfigError::InvalidPort),
        }),
{
    let chars = chars_of(text);
    let len: usize = chars.len();
    match find_separator(&chars) {
        Some(cut) => {
            proof {
                let chosen = choose|i: int| first_separator_at(text@, i);
                assert(first_separator_at(text@, cut as int));
                assert(chosen == cut);
            }
            let low = parse_port_between(&chars, 0, cut);
            let high = parse_port_between(&chars, cut + 2, len);
            match (low, high) {
                (Some(l), Some(h)) => Ok(PortRange { low: l, high: h }),
                _ => Err(ConfigError::InvalidPort),
            }
        },
        None => {
            assert(chars@.subrange(0, len as int) == chars@);
            match parse_port_between(&chars, 0, len) {
                Some(p) => Ok(PortRange { low: p, high: p }),
                None => Err(ConfigError::InvalidPort),
            }
        },
    }
}

/// The texts of a list of strings.
pub open spec fn texts_of(items: Seq<String>) -> Seq<Seq<char>> {
    items.map_values(|item: String| item@)
}

/// The ranges that a port list writes, entry by entry; nothing if one entry
/// writes no range.
pub open spec fn parse_port_ranges_spec(items: Seq<Seq<char>>) -> Option<Seq<PortRange>> {
    if forall|i: int| 0 <= i < items.len() ==> parse_port_range_spec(#[trigger] items[i]) is Some {
        Some(items.map_values(|text: Seq<char>| parse_port_range_spec(text)->0))
    } else {
        None
    }
}

/// Reads a port list. The list is refused as a whole if one entry is.
pub fn parse_port_ranges(items: &Vec<String>) -> (ranges: Result<Vec<PortRange>, ConfigError>)
    ensures
        match ranges {
            Ok(list) => parse_port_ranges_spec(texts_of(items@)) == Some(list@),
            Err(e) => parse_port_ranges_spec(texts_of(items@)) is None && e
                == ConfigError::InvalidPort,
        },
{
    let ghost texts = texts_of(items@);
    let mut ranges: Vec<PortRange> = Vec::new();
    let mut i: usize = 0;
    while i < items.len()
        invariant
            i <= items.len(),
            texts == texts_of(items@),
            ranges@.len() == i,
            forall|k: int| 0 <= k < i ==> parse_port_range_spec(#[trigger] texts[k]) == Some(ranges@[k]),
        decreases items.len() - i,
    {
        assert(texts[i as int] == items@[i as int]@);
        match parse_port_range(items[i].as_str()) {
            Ok(range) => {
                ranges.push(range);
            },
            Err(e) => {
                return Err(e);
            },
        }
        i += 1;
    }
    assert(ranges@ == texts.map_values(|text: Seq<char>| parse_port_range_spec(text)->0));
    Ok(ranges)
}

} // verus!
