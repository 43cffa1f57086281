//! The engine's INI-style configuration: `key = value` lines, `#` comments.

use crate::text::{chars_of, find, find_char, skip_space, trim_bounds, trim_end, trimmed};
use vstd::prelude::*;

verus! {

/// One `key = value` entry, as character sequences.
pub type Entry = (Seq<char>, Seq<char>);

/// The entry that the line `s[lo..hi]` holds: none for a blank line, a
/// comment (`#` first after leading white space) or a line without `=`;
/// otherwise the trimmed text before the first `=` and the trimmed text
/// after it.
pub open spec fn line_entry(s: Seq<char>, lo: int, hi: int) -> Option<Entry> {
    let a = skip_space(s, lo, hi);
    let b = trim_end(s, a, hi);
    if a >= b || s[a] == '#' {
        None
    } else {
        let k = find(s, '=', a, b);
        if k >= b {
            None
        } else {
            Some((trimmed(s, a, k), trimmed(s, k + 1, b)))
        }
    }
}

/// The entries of the lines of `s` from index `lo` on, in order; lines end
/// at `\n`.
pub open spec fn entries_from(s: Seq<char>, lo: int) -> Seq<Entry>
    decreases s.len() + 1 - lo,
{
    if lo < 0 || lo > s.len() {
        Seq::empty()
    } else {
        let e = find(s, '\n', lo, s.len() as int);
        let rest = if lo <= e < s.len() {
            entries_from(s, e + 1)
        } else {
            Seq::empty()
        };
        match line_entry(s, lo, e) {
            Some(p) => seq![p] + rest,
            None => rest,
        }
    }
}

/// The entries of an INI-style text, in the order of its lines.
pub open spec fn ini_entries(s: Seq<char>) -> Seq<Entry> {
    entries_from(s, 0)
}

/// The value of the last entry for `key`: a later line overrides an earlier one.
pub open spec fn lookup(entries: Seq<Entry>, key: Seq<char>) -> Option<Seq<char>>
    decreases entries.len(),
{
    if entries.len() == 0 {
        None
    } else if entries.last().0 == key {
        Some(entries.last().1)
    } else {
        lookup(entries.drop_last(), key)
    }
}

pub open spec fn is_digit(c: char) -> bool {
    '0' <= c <= '9'
}

pub open spec fn digits_value(d: Seq<char>) -> int
    decreases d.len(),
{
    if d.len() == 0 {
        0
    } else {
        digits_value(d.drop_last()) * 10 + (d.last() as int - '0' as int)
    }
}

pub open spec fn all_digits(d: Seq<char>) -> bool {
    forall|i: int| 0 <= i < d.len() ==> is_digit(#[trigger] d[i])
}

/// A number's text without its optional leading `+`.
pub open spec fn unsigned_part(v: Seq<char>) -> Seq<char> {
    if v.len() > 0 && v[0] == '+' {
        v.drop_first()
    } else {
        v
    }
}

/// What `str::parse::<u32>` accepts: an optional `+`, then one or more
/// decimal digits whose value fits in 32 bits.
pub open spec fn parse_u32(v: Seq<char>) -> Option<u32> {
    let d = unsigned_part(v);
    if d.len() > 0 && all_digits(d) && digits_value(d) <= u32::MAX {
        Some(digits_value(d) as u32)
    } else {
        None
    }
}

/// What `str::parse::<bool>` accepts: exactly `true` or `false`.
pub open spec fn parse_bool(v: Seq<char>) -> Option<bool> {
    if v == seq!['t', 'r', 'u', 'e'] {
        Some(true)
    } else if v == seq!['f', 'a', 'l', 's', 'e'] {
        Some(false)
    } else {
        None
    }
}

pub open spec fn string_setting(entries: Seq<Entry>, key: Seq<char>, default: Seq<char>) -> Seq<
    char,
> {
    match lookup(entries, key) {
        Some(v) => v,
        None => default,
    }
}

/// A numeric setting: its value where the entry exists and parses, the
/// default otherwise.
pub open spec fn u32_setting(entries: Seq<Entry>, key: Seq<char>, default: u32) -> u32 {
    match lookup(entries, key) {
        Some(v) => match parse_u32(v) {
            Some(n) => n,
            None => default,
        },
        None => default,
    }
}

pub open spec fn bool_setting(entries: Seq<Entry>, key: Seq<char>, default: bool) -> bool {
    match lookup(entries, key) {
        Some(v) => match parse_bool(v) {
            Some(b) => b,
            None => default,
        },
        None => default,
    }
}

pub open spec fn entry_views(entries: Seq<(String, String)>) -> Seq<Entry> {
    entries.map_values(|p: (String, String)| (p.0@, p.1@))
}

/// What the engine reads from its configuration file.
pub struct Config {
    pub window_width: u32,
    pub window_height: u32,
    pub render: RenderConfig,
}

#[derive(Clone, Copy, Debug, PartialEq, Eq, Structural)]
pub struct RenderConfig {
    pub vulkan_enable_debug: bool,
}

pub const DEFAULT_WINDOW_WIDTH: u32 = 800;

pub const DEFAULT_WINDOW_HEIGHT: u32 = 600;

impl Config {
    /// Reads the settings from INI-style text: `window.width` and
    /// `window.height` (defaults 800 and 600) and `vulkan.enable_debug`
    /// (default false). A missing or unparsable value gives the default.
    pub fn parse(text: &str) -> (r: Self)
        ensures
            r.window_width == u32_setting(
                ini_entries(text@),
                "window.width"@,
                DEFAULT_WINDOW_WIDTH,
            ),
            r.window_height == u32_setting(
                ini_entries(text@),
                "window.height"@,
                DEFAULT_WINDOW_HEIGHT,
            ),
            r.render.vulkan_enable_debug == bool_setting(
                ini_entries(text@),
                "vulkan.enable_debug"@,
                false,
            ),
    {
        let map = ValueMap::parse_ini(text);
        Config {
            window_width: map.u32("window.width", DEFAULT_WINDOW_WIDTH),
            window_height: map.u32("window.height", DEFAULT_WINDOW_HEIGHT),
            render: RenderConfig { vulkan_enable_debug: map.bool("vulkan.enable_debug", false) },
        }
    }
}

/// The settings of an INI-style text, as its entries in line order.
pub struct ValueMap {
    entries: Vec<(String, String)>,
}

impl View for ValueMap {
    type V = Seq<Entry>;

    closed spec fn view(&self) -> Seq<Entry> {
        entry_views(self.entries@)
    }
}

/// The entry of the line `chars[lo..hi]`, its text taken from `text`.
fn parse_line(text: &str, chars: &Vec<char>, lo: usize, hi: usize) -> (r: Option<(String, String)>)
    requires
        chars@ == text@,
        lo <= hi <= chars@.len(),
    ensures
        match r {
            Some(p) => line_entry(text@, lo as int, hi as int) == Some((p.0@, p.1@)),
            None => line_entry(text@, lo as int, hi as int) is None,
        },
{
    let (a, b) = trim_bounds(chars, lo, hi);
    if a >= b || chars[a] == '#' {
        return None;
    }
    let k = find_char(chars, '=', a, b);
    if k >= b {
        return None;
    }
    let (ka, kb) = trim_bounds(chars, a, k);
    let (va, vb) = trim_bounds(chars, k + 1, b);
    let key = String::from_str(text.substring_char(ka, kb));
    let value = String::from_str(text.substring_char(va, vb));
    Some((key, value))
}

proof fn lemma_digits_nonneg(d: Seq<char>)
    requires
        forall|j: int| 0 <= j < d.len() ==> is_digit(#[trigger] d[j]),
    ensures
        digits_value(d) >= 0,
    decreases d.len(),
{
    if d.len() > 0 {
        let init = d.drop_last();
        assert forall|j: int| 0 <= j < init.len() implies is_digit(#[trigger] init[j]) by {
            assert(init[j] == d[j]);
        }
        lemma_digits_nonneg(init);
        assert(is_digit(d[d.len() - 1]));
    }
}

proof fn lemma_digits_grow(d: Seq<char>, i: int)
    requires
        0 <= i <= d.len(),
        forall|j: int| 0 <= j < d.len() ==> is_digit(#[trigger] d[j]),
    ensures
        digits_value(d.subrange(0, i)) <= digits_value(d),
    decreases d.len() - i,
{
    if i < d.len() {
        lemma_digits_grow(d, i + 1);
        let p = d.subrange(0, i + 1);
        let q = d.subrange(0, i);
        assert(p.drop_last() =~= q);
        assert forall|j: int| 0 <= j < q.len() implies is_digit(#[trigger] q[j]) by {
            assert(q[j] == d[j]);
        }
        lemma_digits_nonneg(q);
        assert(p.last() == d[i]);
        assert(is_digit(d[i]));
    } else {
        assert(d.subrange(0, i) =~= d);
    }
}

/// Parses a decimal `u32` as `str::parse` does.
pub fn parse_u32_value(v: &str) -> (r: Option<u32>)
    ensures
        r == parse_u32(v@),
{
    let chars = chars_of(v);
    let start: usize = if chars.len() > 0 && chars[0] == '+' {
        1
    } else {
        0
    };
    let ghost d = unsigned_part(v@);
    assert(d =~= chars@.subrange(start as int, chars@.len() as int));
    if start >= chars.len() {
        assert(d.len() == 0);
        return None;
    }
    let mut i = start;
    while i < chars.len()
        invariant
            chars@ == v@,
            d == unsigned_part(v@),
            start <= i <= chars@.len(),
            d =~= chars@.subrange(start as int, chars@.len() as int),
            forall|j: int| 0 <= j < i - start ==> is_digit(#[trigger] d[j]),
        decreases chars@.len() - i,
    {
        if !('0' <= chars[i] && chars[i] <= '9') {
            assert(!is_digit(d[i - start]));
            return None;
        }
        i = i + 1;
    }
    let mut value: u64 = 0;
    let mut i = start;
    while i < chars.len()
        invariant
            chars@ == v@,
            d == unsigned_part(v@),
            start <= i <= chars@.len(),
            d =~= chars@.subrange(start as int, chars@.len() as int),
            forall|j: int| 0 <= j < d.len() ==> is_digit(#[trigger] d[j]),
            value == digits_value(d.subrange(0, i - start)),
            value <= u32::MAX,
        decreases chars@.len() - i,
    {
        assert(d[i - start] == chars@[i as int]);
        assert(is_digit(chars@[i as int]));
        let digit = (chars[i] as u32 - '0' as u32) as u64;
        proof {
            let p = d.subrange(0, i - start + 1);
            assert(p.drop_last() =~= d.subrange(0, i - start));
            assert(p.last() == chars@[i as int]);
        }
        let next = value * 10 + digit;
        if next > u32::MAX as u64 {
            proof {
                lemma_digits_grow(d, i - start + 1);
            }
            return None;
        }
        value = next;
        i = i + 1;
    }
    assert(d.subrange(0, d.len() as int) =~= d);
    Some(value as u32)
}

/// Parses `true` or `false` as `str::parse` does.
pub fn parse_bool_value(v: &str) -> (r: Option<bool>)
    ensures
        r == parse_bool(v@),
{
    let chars = chars_of(v);
    if chars.len() == 4 && chars[0] == 't' && chars[1] == 'r' && chars[2] == 'u' && chars[3]
        == 'e' {
        assert(v@ =~= seq!['t', 'r', 'u', 'e']);
        Some(true)
    } else if chars.len() == 5 && chars[0] == 'f' && chars[1] == 'a' && chars[2] == 'l'
        && chars[3] == 's' && chars[4] == 'e' {
        assert(v@ =~= seq!['f', 'a', 'l', 's', 'e']);
        Some(false)
    } else {
        assert(chars@.len() == 4 ==> (v@ == seq!['t', 'r', 'u', 'e'] ==> chars@[0] == 't'
            && chars@[1] == 'r' && chars@[2] == 'u' && chars@[3] == 'e'));
        assert(chars@.len() == 5 ==> (v@ == seq!['f', 'a', 'l', 's', 'e'] ==> chars@[0] == 'f'
            && chars@[1] == 'a' && chars@[2] == 'l' && chars@[3] == 's' && chars@[4] == 'e'));
        None
    }
}

impl ValueMap {
    /// Reads `key = value` lines; blank lines, `#` comments and lines
    /// without `=` are skipped.
    pub fn parse_ini(text: &str) -> (r: ValueMap)
        ensures
            r@ == ini_entries(text@),
    {
        let chars = chars_of(text);
        let n = chars.len();
        let mut entries: Vec<(String, String)> = Vec::new();
        let mut lo: usize = 0;
        loop
            invariant
                chars@ == text@,
                n == chars@.len(),
                lo <= n,
                entry_views(entries@) + entries_from(text@, lo as int) == ini_entries(text@),
            ensures
                entry_views(entries@) == ini_entries(text@),
            decreases n - lo,
        {
            let e = find_char(&chars, '\n', lo, n);
            let line = parse_line(text, &chars, lo, e);
            let ghost before = entries@;
            let ghost here: Seq<Entry> = match line_entry(text@, lo as int, e as int) {
                Some(p) => seq![p],
                None => Seq::empty(),
            };
            match line {
                Some(p) => {
                    entries.push(p);
                    assert(entry_views(entries@) =~= entry_views(before) + here);
                },
                None => {
                    assert(entry_views(entries@) =~= entry_views(before) + here);
                },
            }
            if e >= n {
                assert(entries_from(text@, lo as int) =~= here);
                return ValueMap { entries };
            }
            proof {
                let rest = entries_from(text@, e + 1);
                assert(entries_from(text@, lo as int) =~= here + rest);
                vstd::seq_lib::lemma_concat_associative(entry_views(before), here, rest);
            }
            lo = e + 1;
        }
    }

    fn find_value(&self, key: &str) -> (r: Option<String>)
        ensures
            match r {
                Some(v) => lookup(self@, key@) == Some(v@),
                None => lookup(self@, key@) is None,
            },
    {
        let wanted = String::from_str(key);
        let mut i = self.entries.len();
        assert(self@.subrange(0, i as int) =~= self@);
        while i > 0
            invariant
                wanted@ == key@,
                i <= self.entries@.len(),
                lookup(self@, key@) == lookup(self@.subrange(0, i as int), key@),
            decreases i,
        {
            let ghost prefix = self@.subrange(0, i as int);
            assert(prefix.last() == (self.entries@[i - 1].0@, self.entries@[i - 1].1@));
            assert(prefix.drop_last() =~= self@.subrange(0, i - 1));
            let found = self.entries[i - 1].0 == wanted;
            if found {
                return Some(self.entries[i - 1].1.clone());
            }
            i = i - 1;
        }
        None
    }

    pub fn string(&self, key: &str, default: String) -> (r: String)
        ensures
            r@ == string_setting(self@, key@, default@),
    {
        match self.find_value(key) {
            Some(v) => v,
            None => default,
        }
    }

    /// A numeric setting; a missing or unparsable value gives `default`.
    pub fn u32(&self, key: &str, default: u32) -> (r: u32)
        ensures
            r == u32_setting(self@, key@, default),
    {
        match self.find_value(key) {
            Some(v) => match parse_u32_value(v.as_str()) {
                Some(n) => n,
                None => default,
            },
            None => default,
        }
    }

    /// A boolean setting; a missing or unparsable value gives `default`.
    pub fn bool(&self, key: &str, default: bool) -> (r: bool)
        ensures
            r == bool_setting(self@, key@, default),
    {
        match self.find_value(key) {
            Some(v) => match parse_bool_value(v.as_str()) {
                Some(b) => b,
                None => default,
            },
            None => default,
        }
    }
}

} // verus!
