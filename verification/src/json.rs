//! A plain model of JSON values that the library's logic reads and builds,
//! and the one piece of JSON text it renders itself (quoted strings).
use vstd::prelude::*;

verus! {

/// A JSON value. Numbers keep their textual form; an object keeps its
/// entries in order, and a key that occurs twice is found at its first
/// occurrence.
#[derive(Debug)]
pub enum JsonValue {
    Null,
    Bool(bool),
    Number(String),
    String(String),
    Array(Vec<JsonValue>),
    Object(Vec<(String, JsonValue)>),
}

/// The value stored under `key` among object entries: the first entry with
/// that key.
pub open spec fn lookup(entries: Seq<(String, JsonValue)>, key: Seq<char>) -> Option<JsonValue>
    decreases entries.len(),
{
    if entries.len() == 0 {
        None
    } else if entries[0].0@ == key {
        Some(entries[0].1)
    } else {
        lookup(entries.drop_first(), key)
    }
}

/// The member `key` of an object; nothing for any other kind of value.
pub open spec fn field(v: JsonValue, key: Seq<char>) -> Option<JsonValue> {
    match v {
        JsonValue::Object(entries) => lookup(entries@, key),
        _ => None,
    }
}

/// The text of a JSON string value; nothing for any other kind of value.
pub open spec fn text_of(v: JsonValue) -> Option<Seq<char>> {
    match v {
        JsonValue::String(s) => Some(s@),
        _ => None,
    }
}

/// The member `key` of an object, read as a string.
pub open spec fn field_text(v: JsonValue, key: Seq<char>) -> Option<Seq<char>> {
    match field(v, key) {
        Some(f) => text_of(f),
        None => None,
    }
}

/// Object entries with `key` set to `value`: the first entry with that key
/// is replaced in place, otherwise the entry is appended.
pub open spec fn entries_with(entries: Seq<(String, JsonValue)>, key: String, value: JsonValue) -> Seq<
    (String, JsonValue),
> {
    if exists|i: int| 0 <= i < entries.len() && entries[i].0@ == key@ {
        let i = choose|i: int|
            0 <= i < entries.len() && entries[i].0@ == key@ && forall|j: int|
                0 <= j < i ==> entries[j].0@ != key@;
        entries.update(i, (entries[i].0, value))
    } else {
        entries.push((key, value))
    }
}

proof fn lemma_lookup_absent(entries: Seq<(String, JsonValue)>, key: Seq<char>)
    requires
        forall|j: int| 0 <= j < entries.len() ==> entries[j].0@ != key,
    ensures
        lookup(entries, key) is None,
    decreases entries.len(),
{
    if entries.len() > 0 {
        lemma_lookup_absent(entries.drop_first(), key);
    }
}

proof fn lemma_lookup_first(entries: Seq<(String, JsonValue)>, key: Seq<char>, i: int)
    requires
        0 <= i < entries.len(),
        entries[i].0@ == key,
        forall|j: int| 0 <= j < i ==> entries[j].0@ != key,
    ensures
        lookup(entries, key) == Some(entries[i].1),
    decreases entries.len(),
{
    if i > 0 {
        lemma_lookup_first(entries.drop_first(), key, i - 1);
    }
}

/// The index of the first entry with key `key`, if any.
fn find_key(entries: &Vec<(String, JsonValue)>, key: &String) -> (r: Option<usize>)
    ensures
        match r {
            Some(i) => i < entries@.len() && entries@[i as int].0@ == key@ && forall|j: int|
                0 <= j < i ==> entries@[j].0@ != key@,
            None => forall|j: int| 0 <= j < entries@.len() ==> entries@[j].0@ != key@,
        },
{
    let mut i: usize = 0;
    while i < entries.len()
        invariant
            i <= entries.len(),
            forall|j: int| 0 <= j < i ==> entries@[j].0@ != key@,
        decreases entries.len() - i,
    {
        if entries[i].0 == *key {
            return Some(i);
        }
        i = i + 1;
    }
    None
}

impl JsonValue {
    /// The member `key` of an object; `None` for a missing key or when the
    /// value is not an object.
    pub fn get(&self, key: &str) -> (r: Option<&JsonValue>)
        ensures
            match r {
                Some(v) => field(*self, key@) == Some(*v),
                None => field(*self, key@) is None,
            },
    {
        match self {
            JsonValue::Object(entries) => {
                let k = key.to_string();
                match find_key(entries, &k) {
                    Some(i) => {
                        proof {
                            lemma_lookup_first(entries@, key@, i as int);
                        }
                        Some(&entries[i].1)
                    },
                    None => {
                        proof {
                            lemma_lookup_absent(entries@, key@);
                        }
                        None
                    },
                }
            },
            _ => None,
        }
    }

    /// The text of a string value.
    pub fn as_str(&self) -> (r: Option<&String>)
        ensures
            match r {
                Some(s) => text_of(*self) == Some(s@),
                None => text_of(*self) is None,
            },
    {
        match self {
            JsonValue::String(s) => Some(s),
            _ => None,
        }
    }

    /// Whether the value is an object.
    pub fn is_object(&self) -> (r: bool)
        ensures
            r == (*self is Object),
    {
        match self {
            JsonValue::Object(_) => true,
            _ => false,
        }
    }

    /// An object with no members.
    pub fn empty_object() -> (r: JsonValue)
        ensures
            r matches JsonValue::Object(es) && es@.len() == 0,
    {
        JsonValue::Object(Vec::new())
    }

    /// Sets the member `key` of an object to `value` (replacing the first
    /// entry with that key, or appending one). Any other kind of value is left
    /// as it is.
    pub fn insert(&mut self, key: String, value: JsonValue)
        ensures
            match *old(self) {
                JsonValue::Object(es) => *final(self) matches JsonValue::Object(es2) && es2@
                    == entries_with(es@, key, value),
                _ => *final(self) == *old(self),
            },
    {
        match self {
            JsonValue::Object(entries) => {
                let ghost es0 = entries@;
                match find_key(entries, &key) {
                    Some(i) => {
                        let name = entries[i].0.clone();
                        entries.set(i, (name, value));
                        proof {
                            assert(es0[i as int].0@ == key@);
                            assert(exists|x: int| 0 <= x < es0.len() && es0[x].0@ == key@);
                            let c = choose|c: int|
                                0 <= c < es0.len() && es0[c].0@ == key@ && forall|j: int|
                                    0 <= j < c ==> es0[j].0@ != key@;
                            if c < i {
                            } else if c > i {
                            }
                            assert(c == i);
                            assert(entries@ =~= entries_with(es0, key, value));
                        }
                    },
                    None => {
                        entries.push((key, value));
                    },
                }
            },
            _ => {},
        }
    }
}

/// The index of the first key whose text equals `name`, if any.
fn find_string(keys: &Vec<String>, name: &String) -> (r: Option<usize>)
    ensures
        match r {
            Some(i) => i < keys@.len() && keys@[i as int]@ == name@ && forall|j: int|
                0 <= j < i ==> keys@[j]@ != name@,
            None => forall|j: int| 0 <= j < keys@.len() ==> keys@[j]@ != name@,
        },
{
    let mut i: usize = 0;
    while i < keys.len()
        invariant
            i <= keys.len(),
            forall|j: int| 0 <= j < i ==> keys@[j]@ != name@,
        decreases keys.len() - i,
    {
        if keys[i] == *name {
            return Some(i);
        }
        i = i + 1;
    }
    None
}

/// Moves the members named by `keys` out of object entries: slot `k` holds
/// what [`lookup`] finds for `keys[k]`.
pub(crate) fn take_fields(entries: Vec<(String, JsonValue)>, keys: &Vec<String>) -> (r: Vec<
    Option<JsonValue>,
>)
    requires
        forall|i: int, j: int|
            0 <= i < keys@.len() && 0 <= j < keys@.len() && i != j ==> keys@[i]@ != keys@[j]@,
    ensures
        r@.len() == keys@.len(),
        forall|k: int| 0 <= k < keys@.len() ==> r@[k] == lookup(entries@, keys@[k]@),
{
    let ghost es0 = entries@;
    let mut entries = entries;
    let mut slots: Vec<Option<JsonValue>> = Vec::new();
    let mut i: usize = 0;
    while i < keys.len()
        invariant
            i <= keys.len(),
            slots@.len() == i,
            forall|k: int| 0 <= k < i ==> slots@[k] is None,
        decreases keys.len() - i,
    {
        slots.push(None);
        i = i + 1;
    }
    assert(es0.subrange(es0.len() as int, es0.len() as int).len() == 0);
    while entries.len() > 0
        invariant
            entries@ == es0.take(entries@.len() as int),
            entries@.len() <= es0.len(),
            slots@.len() == keys@.len(),
            forall|i: int, j: int|
                0 <= i < keys@.len() && 0 <= j < keys@.len() && i != j ==> keys@[i]@ != keys@[j]@,
            forall|k: int|
                0 <= k < keys@.len() ==> slots@[k] == lookup(
                    es0.subrange(entries@.len() as int, es0.len() as int),
                    keys@[k]@,
                ),
        decreases entries@.len(),
    {
        let ghost n = entries@.len() as int - 1;
        let ghost before = slots@;
        let popped = entries.pop();
        let (name, value) = match popped {
            Some(e) => e,
            None => {
                return slots;
            },
        };
        assert(es0[n].0 == name && es0[n].1 == value);
        let found = find_string(keys, &name);
        match found {
            Some(k) => {
                slots.set(k, Some(value));
            },
            None => {},
        }
        proof {
            let tail = es0.subrange(n, es0.len() as int);
            assert(tail.drop_first() =~= es0.subrange(n + 1, es0.len() as int));
            assert(tail[0] == es0[n]);
            assert forall|k: int| 0 <= k < keys@.len() implies slots@[k] == lookup(
                tail,
                keys@[k]@,
            ) by {
                if es0[n].0@ == keys@[k]@ {
                    assert(found == Some(k as usize));
                } else {
                    assert(slots@[k] == before[k]);
                }
            }
        }
    }
    assert(es0.subrange(0, es0.len() as int) =~= es0);
    slots
}

/// A decimal digit.
pub open spec fn is_digit(c: char) -> bool {
    '0' <= c && c <= '9'
}

/// The value of a string of decimal digits.
pub open spec fn digits_value(s: Seq<char>) -> int
    decreases s.len(),
{
    if s.len() == 0 {
        0
    } else {
        digits_value(s.drop_last()) * 10 + (s.last() as int - 48)
    }
}

/// A non-empty string of decimal digits.
pub open spec fn all_digits(s: Seq<char>) -> bool {
    s.len() > 0 && forall|i: int| 0 <= i < s.len() ==> is_digit(s[i])
}

/// The integer written as an optional `-` followed by decimal digits.
pub open spec fn integer_text_value(s: Seq<char>) -> Option<int> {
    if s.len() > 0 && s[0] == '-' {
        if all_digits(s.drop_first()) {
            Some(-digits_value(s.drop_first()))
        } else {
            None
        }
    } else if all_digits(s) {
        Some(digits_value(s))
    } else {
        None
    }
}

/// The `i64` written by a JSON number text, if it is an integer in range.
pub open spec fn integer_text_i64(s: Seq<char>) -> Option<i64> {
    match integer_text_value(s) {
        Some(n) => if i64::MIN <= n <= i64::MAX {
            Some(n as i64)
        } else {
            None
        },
        None => None,
    }
}

/// The `u64` written by a JSON number text, if it is an integer in range.
pub open spec fn integer_text_u64(s: Seq<char>) -> Option<u64> {
    match integer_text_value(s) {
        Some(n) => if 0 <= n <= u64::MAX {
            Some(n as u64)
        } else {
            None
        },
        None => None,
    }
}

proof fn lemma_digits_value_nonneg(s: Seq<char>)
    requires
        forall|i: int| 0 <= i < s.len() ==> is_digit(s[i]),
    ensures
        digits_value(s) >= 0,
    decreases s.len(),
{
    if s.len() > 0 {
        lemma_digits_value_nonneg(s.drop_last());
    }
}

proof fn lemma_digits_value_grows(s: Seq<char>, i: int)
    requires
        0 <= i <= s.len(),
        forall|j: int| 0 <= j < s.len() ==> is_digit(s[j]),
    ensures
        digits_value(s.take(i)) <= digits_value(s),
    decreases s.len() - i,
{
    if i < s.len() {
        assert(s.drop_last().take(i) =~= s.take(i)) by {
        }
        lemma_digits_value_grows(s.drop_last(), i);
        lemma_digits_value_nonneg(s.drop_last());
    } else {
        assert(s.take(i) =~= s);
    }
}

/// Reads an integer JSON number text (optional `-`, then decimal digits)
/// that fits an `i64`.
pub fn parse_i64(text: &str) -> (r: Option<i64>)
    ensures
        r == integer_text_i64(text@),
{
    let n = text.unicode_len();
    if n == 0 {
        return None;
    }
    let negative = text.get_char(0) == '-';
    let start: usize = if negative {
        1
    } else {
        0
    };
    if start >= n {
        return None;
    }
    let ghost digits = text@.subrange(start as int, n as int);
    let mut acc: i128 = 0;
    let mut i: usize = start;
    while i < n
        invariant
            start <= i <= n,
            n == text@.len(),
            n > 0,
            negative <==> start == 1,
            !negative ==> start == 0,
            negative == (text@[0] == '-'),
            digits == text@.subrange(start as int, n as int),
            forall|j: int| start <= j < i ==> is_digit(text@[j]),
            acc == digits_value(digits.take(i - start)),
            0 <= acc <= 9223372036854775808,
        decreases n - i,
    {
        let c = text.get_char(i);
        if !('0' <= c && c <= '9') {
            proof {
                assert(!is_digit(digits[i - start]));
                if negative {
                    assert(text@.drop_first() =~= digits);
                } else {
                    assert(text@ =~= digits);
                }
            }
            return None;
        }
        let d = (c as u32 - 48) as i128;
        proof {
            assert(digits.take(i - start + 1).drop_last() =~= digits.take(i - start));
        }
        let next = acc * 10 + d;
        if next > 9223372036854775808 {
            proof {
                let k = i - start + 1;
                assert(digits.take(k).last() == text@[i as int]);
                assert(digits_value(digits.take(k)) == next);
                assert forall|j: int| 0 <= j < k implies #[trigger] is_digit(digits[j]) by {
                    assert(digits[j] == text@[start + j]);
                }
                lemma_overflow_value(digits, k, 9223372036854775808);
                if negative {
                    assert(text@.drop_first() =~= digits);
                } else {
                    assert(text@ =~= digits);
                }
            }
            return None;
        }
        acc = next;
        i = i + 1;
    }
    proof {
        assert(digits.take(n - start) =~= digits);
        assert(all_digits(digits));
        if negative {
            assert(text@.drop_first() =~= digits);
        } else {
            assert(text@ =~= digits);
        }
    }
    if negative {
        Some((0 - acc) as i64)
    } else {
        if acc > 9223372036854775807 {
            return None;
        }
        Some(acc as i64)
    }
}

/// Reads an integer JSON number text (optional `-`, then decimal digits)
/// that fits a `u64`.
pub fn parse_u64(text: &str) -> (r: Option<u64>)
    ensures
        r == integer_text_u64(text@),
{
    let n = text.unicode_len();
    if n == 0 {
        return None;
    }
    let negative = text.get_char(0) == '-';
    let start: usize = if negative {
        1
    } else {
        0
    };
    if start >= n {
        return None;
    }
    let ghost digits = text@.subrange(start as int, n as int);
    let mut acc: u128 = 0;
    let mut i: usize = start;
    while i < n
        invariant
            start <= i <= n,
            n == text@.len(),
            n > 0,
            negative <==> start == 1,
            !negative ==> start == 0,
            negative == (text@[0] == '-'),
            digits == text@.subrange(start as int, n as int),
            forall|j: int| start <= j < i ==> is_digit(text@[j]),
            acc == digits_value(digits.take(i - start)),
            0 <= acc <= 18446744073709551615,
        decreases n - i,
    {
        let c = text.get_char(i);
        if !('0' <= c && c <= '9') {
            proof {
                assert(!is_digit(digits[i - start]));
                if negative {
                    assert(text@.drop_first() =~= digits);
                } else {
                    assert(text@ =~= digits);
                }
            }
            return None;
        }
        let d = (c as u32 - 48) as u128;
        proof {
            assert(digits.take(i - start + 1).drop_last() =~= digits.take(i - start));
        }
        let next = acc * 10 + d;
        if next > 18446744073709551615 {
            proof {
                let k = i - start + 1;
                assert(digits.take(k).last() == text@[i as int]);
                assert(digits_value(digits.take(k)) == next);
                assert forall|j: int| 0 <= j < k implies #[trigger] is_digit(digits[j]) by {
                    assert(digits[j] == text@[start + j]);
                }
                lemma_overflow_value(digits, k, 18446744073709551615);
                if negative {
                    assert(text@.drop_first() =~= digits);
                } else {
                    assert(text@ =~= digits);
                }
            }
            return None;
        }
        acc = next;
        i = i + 1;
    }
    proof {
        assert(digits.take(n - start) =~= digits);
        assert(all_digits(digits));
        if negative {
            assert(text@.drop_first() =~= digits);
        } else {
            assert(text@ =~= digits);
        }
    }
    if negative {
        if acc == 0 {
            Some(0)
        } else {
            None
        }
    } else {
        Some(acc as u64)
    }
}

/// When a prefix of a digit string already exceeds a bound, so does the
/// whole string, if it is all digits.
proof fn lemma_overflow_value(digits: Seq<char>, k: int, bound: int)
    requires
        0 < k <= digits.len(),
        forall|j: int| 0 <= j < k ==> is_digit(digits[j]),
        digits_value(digits.take(k)) > bound,
    ensures
        all_digits(digits) ==> digits_value(digits) > bound,
{
    if all_digits(digits) {
        lemma_digits_value_grows(digits, k);
    }
}

proof fn lemma_decimal_digits(n: nat)
    ensures
        all_digits(crate::text::decimal(n)),
        digits_value(crate::text::decimal(n)) == n,
        crate::text::decimal(n)[0] != '-',
    decreases n,
{
    let d = crate::text::decimal(n);
    if n < 10 {
        assert(d.drop_last() =~= Seq::<char>::empty());
        assert(crate::text::digit_char(n) as int == 48 + n);
        assert(digits_value(d.drop_last()) == 0);
        assert(digits_value(d) == digits_value(d.drop_last()) * 10 + (d.last() as int - 48));
    } else {
        lemma_decimal_digits(n / 10);
        let prefix = crate::text::decimal(n / 10);
        assert(d.drop_last() =~= prefix);
        assert(crate::text::digit_char(n % 10) as int == 48 + n % 10);
        assert((n / 10) * 10 + n % 10 == n) by (nonlinear_arith);
        assert(d.last() == crate::text::digit_char(n % 10));
        assert(digits_value(d) == digits_value(d.drop_last()) * 10 + (d.last() as int - 48));
        assert(d[0] == prefix[0]);
        assert forall|i: int| 0 <= i < d.len() implies is_digit(d[i]) by {
            if i < prefix.len() {
                assert(d[i] == prefix[i]);
            }
        }
    }
}

/// Reading back the decimal text of an integer gives the integer: an error
/// code rendered into a message, or a count rendered into a configuration,
/// reads back unchanged.
pub proof fn lemma_signed_decimal_roundtrip(i: i64)
    ensures
        integer_text_i64(crate::text::signed_decimal(i as int)) == Some(i),
{
    let t = crate::text::signed_decimal(i as int);
    if i < 0 {
        let mag = (-(i as int)) as nat;
        lemma_decimal_digits(mag);
        assert(t.drop_first() =~= crate::text::decimal(mag));
    } else {
        lemma_decimal_digits(i as nat);
    }
}

/// The hexadecimal digit (lower case) for a value below sixteen.
pub open spec fn hex_char(n: int) -> char {
    if n < 10 {
        (48 + n) as char
    } else {
        (87 + n) as char
    }
}

/// How one character is written inside a JSON string literal: `"` and `\`
/// are escaped with a backslash, the control characters below U+0020 are
/// written as `\b`, `\t`, `\n`, `\f`, `\r` or `\u00XX` (lower-case hex), and
/// every other character stands for itself.
pub open spec fn json_escaped_char(c: char) -> Seq<char> {
    if c == '"' {
        seq!['\\', '"']
    } else if c == '\\' {
        seq!['\\', '\\']
    } else if c == '\u{8}' {
        seq!['\\', 'b']
    } else if c == '\t' {
        seq!['\\', 't']
    } else if c == '\n' {
        seq!['\\', 'n']
    } else if c == '\u{c}' {
        seq!['\\', 'f']
    } else if c == '\r' {
        seq!['\\', 'r']
    } else if (c as int) < 32 {
        seq!['\\', 'u', '0', '0', hex_char((c as int) / 16), hex_char((c as int) % 16)]
    } else {
        seq![c]
    }
}

/// The characters of a text, each written as inside a JSON string literal.
pub open spec fn json_escaped(s: Seq<char>) -> Seq<char>
    decreases s.len(),
{
    if s.len() == 0 {
        Seq::empty()
    } else {
        json_escaped(s.drop_last()) + json_escaped_char(s.last())
    }
}

/// The JSON text of a string: `s` escaped, in double quotes.
pub open spec fn json_quoted(s: Seq<char>) -> Seq<char> {
    seq!['"'] + json_escaped(s) + seq!['"']
}

/// Appends the hexadecimal digit of a value below sixteen.
fn push_hex_digit(out: &mut String, n: u32)
    requires
        n < 16,
    ensures
        final(out)@ == old(out)@.push(hex_char(n as int)),
{
    let digits = "0123456789abcdef";
    proof {
        reveal_strlit("0123456789abcdef");
    }
    let d = digits.substring_char(n as usize, n as usize + 1);
    out.append(d);
    assert(d@ =~= seq![hex_char(n as int)]);
    assert(out@ =~= old(out)@.push(hex_char(n as int)));
}

/// Appends the character at position `i` of `s` as it is written inside a
/// JSON string literal.
fn push_escaped(out: &mut String, s: &str, i: usize)
    requires
        i < s@.len() <= usize::MAX,
    ensures
        final(out)@ == old(out)@ + json_escaped_char(s@[i as int]),
{
    let c = s.get_char(i);
    let code: u32 = c as u32;
    if c == '"' {
        out.append("\\\"");
        proof { reveal_strlit("\\\""); }
    } else if c == '\\' {
        out.append("\\\\");
        proof { reveal_strlit("\\\\"); }
    } else if c == '\u{8}' {
        out.append("\\b");
        proof { reveal_strlit("\\b"); }
    } else if c == '\t' {
        out.append("\\t");
        proof { reveal_strlit("\\t"); }
    } else if c == '\n' {
        out.append("\\n");
        proof { reveal_strlit("\\n"); }
    } else if c == '\u{c}' {
        out.append("\\f");
        proof { reveal_strlit("\\f"); }
    } else if c == '\r' {
        out.append("\\r");
        proof { reveal_strlit("\\r"); }
    } else if code < 32 {
        out.append("\\u00");
        proof { reveal_strlit("\\u00"); }
        push_hex_digit(out, code / 16);
        push_hex_digit(out, code % 16);
    } else {
        out.append(s.substring_char(i, i + 1));
        assert(s@.subrange(i as int, i as int + 1) =~= seq![c]);
    }
    assert(out@ =~= old(out)@ + json_escaped_char(s@[i as int]));
}

/// Renders a string as a JSON string literal, escaped as serde_json
/// escapes it.
pub fn quote_json_string(s: &str) -> (r: String)
    ensures
        r@ == json_quoted(s@),
{
    let n = s.unicode_len();
    let mut out = "\"".to_string();
    proof {
        reveal_strlit("\"");
    }
    let mut i: usize = 0;
    while i < n
        invariant
            n == s@.len(),
            i <= n,
            out@ == seq!['"'] + json_escaped(s@.take(i as int)),
        decreases n - i,
    {
        push_escaped(&mut out, s, i);
        assert(s@.take(i as int + 1).drop_last() =~= s@.take(i as int));
        assert(out@ =~= seq!['"'] + json_escaped(s@.take(i as int + 1)));
        i = i + 1;
    }
    out.append("\"");
    assert(s@.take(n as int) =~= s@);
    assert(out@ =~= json_quoted(s@));
    out
}

/// Declares `serde_json::Value`, the parse result that
/// [`parse_json`] converts into a [`JsonValue`].
#[verifier::external_type_specification]
#[verifier::external_body]
pub struct ExSerdeValue(serde_json::Value);

/// The JSON value that serde_json parses from a text, if the text is JSON.
pub uninterp spec fn json_parsed(text: Seq<char>) -> Option<JsonValue>;

/// Parses JSON text with `serde_json::from_str::<serde_json::Value>`;
/// nothing when the text is not JSON. The parse depends on the text alone;
/// the contract names its result. Numbers keep serde_json's rendering of
/// them, and object members come in serde_json's map order (by key).
#[verifier::external_body]
pub fn parse_json(text: &str) -> (r: Option<JsonValue>)
    ensures
        r == json_parsed(text@),
{
    match serde_json::from_str::<serde_json::Value>(text) {
        Ok(v) => Some(value_from_serde(v)),
        Err(_) => None,
    }
}

/// Moves a `serde_json::Value` into the library's model, variant for
/// variant; the only call it makes on serde_json's data is rendering a
/// number as text. It is used by [`parse_json`] alone, whose contract
/// covers the whole result; this function claims nothing by itself.
#[verifier::external_body]
fn value_from_serde(v: serde_json::Value) -> JsonValue {
    match v {
        serde_json::Value::Null => JsonValue::Null,
        serde_json::Value::Bool(b) => JsonValue::Bool(b),
        serde_json::Value::Number(n) => JsonValue::Number(n.to_string()),
        serde_json::Value::String(t) => JsonValue::String(t),
        serde_json::Value::Array(a) => JsonValue::Array(a.into_iter().map(value_from_serde).collect()),
        serde_json::Value::Object(m) => JsonValue::Object(m.into_iter().map(|(k, x)| (k, value_from_serde(x))).collect()),
    }
}

} // verus!
