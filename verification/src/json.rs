//! JSON text production: string literals, integers, arrays and objects.
use vstd::prelude::*;

verus! {

/// Appends one character to a `String`.
///
/// Trusted: `std::string::String::push`, which the standard library documents as appending
/// the given `char` to the end of the string.
#[verifier::external_body]
pub(crate) fn push_char(s: &mut String, c: char)
    ensures
        final(s)@ == old(s)@.push(c),
{
    s.push(c);
}

/// Lower-case hexadecimal digit of `d` (`0 <= d < 16`).
pub open spec fn hex_digit(d: int) -> char {
    if d < 10 {
        digit_char(d)
    } else if d == 10 {
        'a'
    } else if d == 11 {
        'b'
    } else if d == 12 {
        'c'
    } else if d == 13 {
        'd'
    } else if d == 14 {
        'e'
    } else {
        'f'
    }
}

/// Decimal digit of `d` (`0 <= d < 10`).
pub open spec fn digit_char(d: int) -> char {
    if d == 0 {
        '0'
    } else if d == 1 {
        '1'
    } else if d == 2 {
        '2'
    } else if d == 3 {
        '3'
    } else if d == 4 {
        '4'
    } else if d == 5 {
        '5'
    } else if d == 6 {
        '6'
    } else if d == 7 {
        '7'
    } else if d == 8 {
        '8'
    } else {
        '9'
    }
}

/// How one character of a string is written inside a JSON string literal: the quote and
/// the backslash are escaped, the control characters with a short escape use it, the other
/// control characters are written as `\u00XX`, and every other character stands for itself.
pub open spec fn escape_char(c: char) -> Seq<char> {
    let u = c as u32;
    if c == '"' {
        seq!['\\', '"']
    } else if c == '\\' {
        seq!['\\', '\\']
    } else if u == 8 {
        seq!['\\', 'b']
    } else if u == 9 {
        seq!['\\', 't']
    } else if u == 10 {
        seq!['\\', 'n']
    } else if u == 12 {
        seq!['\\', 'f']
    } else if u == 13 {
        seq!['\\', 'r']
    } else if u < 32 {
        seq!['\\', 'u', '0', '0', hex_digit((u / 16) as int), hex_digit((u % 16) as int)]
    } else {
        seq![c]
    }
}

/// The escaped body of a JSON string literal for `s`.
pub open spec fn escaped(s: Seq<char>) -> Seq<char>
    decreases s.len(),
{
    if s.len() == 0 {
        Seq::empty()
    } else {
        escaped(s.drop_last()) + escape_char(s.last())
    }
}

/// The JSON string literal for `s`.
pub open spec fn string_text(s: Seq<char>) -> Seq<char> {
    seq!['"'] + escaped(s) + seq!['"']
}

/// Decimal digits of a natural number, without leading zeros.
pub open spec fn nat_text(n: nat) -> Seq<char>
    decreases n,
{
    if n < 10 {
        seq![digit_char(n as int)]
    } else {
        nat_text(n / 10).push(digit_char((n % 10) as int))
    }
}

/// The JSON number for an integer.
pub open spec fn int_text(n: int) -> Seq<char> {
    if n < 0 {
        seq!['-'] + nat_text((-n) as nat)
    } else {
        nat_text(n as nat)
    }
}

/// The JSON literal for a boolean.
pub open spec fn bool_text(b: bool) -> Seq<char> {
    if b {
        seq!['t', 'r', 'u', 'e']
    } else {
        seq!['f', 'a', 'l', 's', 'e']
    }
}

fn hex_digit_exec(d: u32) -> (c: char)
    requires
        d < 16,
    ensures
        c == hex_digit(d as int),
{
    if d < 10 {
        digit_exec(d)
    } else if d == 10 {
        'a'
    } else if d == 11 {
        'b'
    } else if d == 12 {
        'c'
    } else if d == 13 {
        'd'
    } else if d == 14 {
        'e'
    } else {
        'f'
    }
}

fn digit_exec(d: u32) -> (c: char)
    requires
        d < 10,
    ensures
        c == digit_char(d as int),
{
    if d == 0 {
        '0'
    } else if d == 1 {
        '1'
    } else if d == 2 {
        '2'
    } else if d == 3 {
        '3'
    } else if d == 4 {
        '4'
    } else if d == 5 {
        '5'
    } else if d == 6 {
        '6'
    } else if d == 7 {
        '7'
    } else if d == 8 {
        '8'
    } else {
        '9'
    }
}

/// Appends the escaped form of one character.
pub fn write_escaped_char(out: &mut String, c: char)
    ensures
        final(out)@ == old(out)@ + escape_char(c),
{
    let u = c as u32;
    if c == '"' {
        push_char(out, '\\');
        push_char(out, '"');
    } else if c == '\\' {
        push_char(out, '\\');
        push_char(out, '\\');
    } else if u == 8 {
        push_char(out, '\\');
        push_char(out, 'b');
    } else if u == 9 {
        push_char(out, '\\');
        push_char(out, 't');
    } else if u == 10 {
        push_char(out, '\\');
        push_char(out, 'n');
    } else if u == 12 {
        push_char(out, '\\');
        push_char(out, 'f');
    } else if u == 13 {
        push_char(out, '\\');
        push_char(out, 'r');
    } else if u < 32 {
        push_char(out, '\\');
        push_char(out, 'u');
        push_char(out, '0');
        push_char(out, '0');
        push_char(out, hex_digit_exec(u / 16));
        push_char(out, hex_digit_exec(u % 16));
    } else {
        push_char(out, c);
    }
    assert(final(out)@ =~= old(out)@ + escape_char(c));
}

/// Appends the JSON string literal for `s`.
pub fn write_string(out: &mut String, s: &str)
    ensures
        final(out)@ == old(out)@ + string_text(s@),
{
    let ghost start = out@;
    push_char(out, '"');
    let n = s.unicode_len();
    let mut i: usize = 0;
    while i < n
        invariant
            n == s@.len(),
            i <= n,
            out@ == start + seq!['"'] + escaped(s@.take(i as int)),
        decreases n - i,
    {
        let c = s.get_char(i);
        write_escaped_char(out, c);
        assert(s@.take(i + 1).drop_last() =~= s@.take(i as int));
        i = i + 1;
    }
    assert(s@.take(n as int) =~= s@);
    push_char(out, '"');
    assert(out@ =~= start + string_text(s@));
}

/// Appends the decimal digits of `n`.
pub fn write_u64(out: &mut String, n: u64)
    ensures
        final(out)@ == old(out)@ + nat_text(n as nat),
    decreases n,
{
    if n >= 10 {
        write_u64(out, n / 10);
    }
    push_char(out, digit_exec((n % 10) as u32));
}

/// Appends the JSON number for `n`.
pub fn write_i64(out: &mut String, n: i64)
    ensures
        final(out)@ == old(out)@ + int_text(n as int),
{
    if n < 0 {
        push_char(out, '-');
        let m: u64 = (0i128 - (n as i128)) as u64;
        write_u64(out, m);
        assert(final(out)@ =~= old(out)@ + int_text(n as int));
    } else {
        write_u64(out, n as u64);
    }
}

/// Appends the JSON literal for `b`.
pub fn write_bool(out: &mut String, b: bool)
    ensures
        final(out)@ == old(out)@ + bool_text(b),
{
    if b {
        out.append("true");
    } else {
        out.append("false");
    }
    proof {
        reveal_strlit("true");
        reveal_strlit("false");
    }
    assert(final(out)@ =~= old(out)@ + bool_text(b));
}


/// Items separated by commas.
pub open spec fn join(items: Seq<Seq<char>>) -> Seq<char>
    decreases items.len(),
{
    if items.len() == 0 {
        Seq::empty()
    } else if items.len() == 1 {
        items[0]
    } else {
        join(items.drop_last()) + seq![','] + items.last()
    }
}

/// A JSON object from the texts of its members, in order.
pub open spec fn object_text(members: Seq<Seq<char>>) -> Seq<char> {
    seq!['{'] + join(members) + seq!['}']
}

/// A JSON array from the texts of its elements, in order.
pub open spec fn array_text(items: Seq<Seq<char>>) -> Seq<char> {
    seq!['['] + join(items) + seq![']']
}

/// The text of one object member: the key as a string literal, a colon, the value.
pub open spec fn member_text(key: Seq<char>, value: Seq<char>) -> Seq<char> {
    string_text(key) + seq![':'] + value
}

/// Adds the member `key: value` when there is a value, and nothing otherwise.
pub open spec fn push_opt(
    members: Seq<Seq<char>>,
    key: Seq<char>,
    value: Option<Seq<char>>,
) -> Seq<Seq<char>> {
    match value {
        Some(v) => members.push(member_text(key, v)),
        None => members,
    }
}

/// The view of an optional string.
pub open spec fn opt_view(s: Option<String>) -> Option<Seq<char>> {
    match s {
        Some(t) => Some(t@),
        None => None,
    }
}

/// The views of a sequence of strings.
pub open spec fn views(items: Seq<String>) -> Seq<Seq<char>> {
    items.map_values(|s: String| s@)
}

/// Joining one more item appends a comma and the item, or gives the item alone when there
/// was none before.
pub proof fn lemma_join_push(items: Seq<Seq<char>>, item: Seq<char>)
    ensures
        join(items.push(item)) == if items.len() == 0 {
            item
        } else {
            join(items) + seq![','] + item
        },
{
    assert(items.push(item).drop_last() =~= items);
    if items.len() == 0 {
        assert(items.push(item) =~= seq![item]);
    }
}

/// An object whose members are being written.
pub struct JsonObject {
    text: String,
    empty: bool,
    members: Ghost<Seq<Seq<char>>>,
}

impl JsonObject {
    /// The texts of the members written so far.
    pub closed spec fn members(&self) -> Seq<Seq<char>> {
        self.members@
    }

    pub closed spec fn wf(&self) -> bool {
        &&& self.text@ == seq!['{'] + join(self.members@)
        &&& self.empty == (self.members@.len() == 0)
    }

    /// Starts an object with no members.
    pub fn new() -> (o: JsonObject)
        ensures
            o.wf(),
            o.members() == Seq::<Seq<char>>::empty(),
    {
        let mut text = String::new();
        push_char(&mut text, '{');
        JsonObject { text, empty: true, members: Ghost(Seq::empty()) }
    }

    /// Adds the member `key: value`, where `value` is JSON text.
    pub fn field(&mut self, key: &str, value: &str)
        requires
            old(self).wf(),
        ensures
            final(self).wf(),
            final(self).members() == old(self).members().push(member_text(key@, value@)),
    {
        proof {
            lemma_join_push(self.members@, member_text(key@, value@));
        }
        if !self.empty {
            push_char(&mut self.text, ',');
        }
        write_string(&mut self.text, key);
        push_char(&mut self.text, ':');
        self.text.append(value);
        self.empty = false;
        self.members = Ghost(self.members@.push(member_text(key@, value@)));
        assert(self.text@ =~= seq!['{'] + join(self.members@));
    }

    /// Adds the member `key: value` when `value` is present.
    pub fn opt_field(&mut self, key: &str, value: Option<String>)
        requires
            old(self).wf(),
        ensures
            final(self).wf(),
            final(self).members() == push_opt(old(self).members(), key@, opt_view(value)),
    {
        match value {
            Some(v) => self.field(key, v.as_str()),
            None => {},
        }
    }

    /// The text of the finished object.
    pub fn finish(self) -> (s: String)
        requires
            self.wf(),
        ensures
            s@ == object_text(self.members()),
    {
        let mut text = self.text;
        push_char(&mut text, '}');
        assert(text@ =~= object_text(self.members@));
        text
    }
}

/// An array whose elements are being written.
pub struct JsonArray {
    text: String,
    empty: bool,
    items: Ghost<Seq<Seq<char>>>,
}

impl JsonArray {
    /// The texts of the elements written so far.
    pub closed spec fn items(&self) -> Seq<Seq<char>> {
        self.items@
    }

    pub closed spec fn wf(&self) -> bool {
        &&& self.text@ == seq!['['] + join(self.items@)
        &&& self.empty == (self.items@.len() == 0)
    }

    /// Starts an empty array.
    pub fn new() -> (a: JsonArray)
        ensures
            a.wf(),
            a.items() == Seq::<Seq<char>>::empty(),
    {
        let mut text = String::new();
        push_char(&mut text, '[');
        JsonArray { text, empty: true, items: Ghost(Seq::empty()) }
    }

    /// Adds an element, given as JSON text.
    pub fn push(&mut self, value: &str)
        requires
            old(self).wf(),
        ensures
            final(self).wf(),
            final(self).items() == old(self).items().push(value@),
    {
        proof {
            lemma_join_push(self.items@, value@);
        }
        if !self.empty {
            push_char(&mut self.text, ',');
        }
        self.text.append(value);
        self.empty = false;
        self.items = Ghost(self.items@.push(value@));
        assert(self.text@ =~= seq!['['] + join(self.items@));
    }

    /// The text of the finished array.
    pub fn finish(self) -> (s: String)
        requires
            self.wf(),
        ensures
            s@ == array_text(self.items()),
    {
        let mut text = self.text;
        push_char(&mut text, ']');
        assert(text@ =~= array_text(self.items@));
        text
    }
}

/// The JSON number for `n`.
pub fn u64_json(n: u64) -> (s: String)
    ensures
        s@ == int_text(n as int),
{
    let mut s = String::new();
    write_u64(&mut s, n);
    assert(s@ =~= nat_text(n as nat));
    s
}

/// The JSON number for `n`.
pub fn i64_json(n: i64) -> (s: String)
    ensures
        s@ == int_text(n as int),
{
    let mut s = String::new();
    write_i64(&mut s, n);
    assert(s@ =~= int_text(n as int));
    s
}

/// The JSON literal for `b`.
pub fn bool_json(b: bool) -> (s: String)
    ensures
        s@ == bool_text(b),
{
    let mut s = String::new();
    write_bool(&mut s, b);
    assert(s@ =~= bool_text(b));
    s
}

/// The JSON string literal for `t`.
pub fn string_json(t: &str) -> (s: String)
    ensures
        s@ == string_text(t@),
{
    let mut s = String::new();
    write_string(&mut s, t);
    assert(s@ =~= string_text(t@));
    s
}

/// The JSON array of the numbers in `v`.
pub fn usize_array_json(v: &Vec<usize>) -> (s: String)
    ensures
        s@ == array_text(v@.map_values(|n: usize| int_text(n as int))),
{
    let mut a = JsonArray::new();
    let mut i: usize = 0;
    while i < v.len()
        invariant
            i <= v.len(),
            a.wf(),
            a.items() == v@.take(i as int).map_values(|n: usize| int_text(n as int)),
        decreases v.len() - i,
    {
        let t = u64_json(v[i] as u64);
        a.push(t.as_str());
        assert(v@.take(i + 1).map_values(|n: usize| int_text(n as int)) =~= v@.take(
            i as int,
        ).map_values(|n: usize| int_text(n as int)).push(int_text(v@[i as int] as int)));
        i = i + 1;
    }
    assert(v@.take(v.len() as int) =~= v@);
    a.finish()
}

/// The JSON array of the string literals for the strings in `v`.
pub fn string_array_json(v: &Vec<String>) -> (s: String)
    ensures
        s@ == array_text(v@.map_values(|t: String| string_text(t@))),
{
    let mut a = JsonArray::new();
    let mut i: usize = 0;
    while i < v.len()
        invariant
            i <= v.len(),
            a.wf(),
            a.items() == v@.take(i as int).map_values(|t: String| string_text(t@)),
        decreases v.len() - i,
    {
        let t = string_json(v[i].as_str());
        a.push(t.as_str());
        assert(v@.take(i + 1).map_values(|t: String| string_text(t@)) =~= v@.take(
            i as int,
        ).map_values(|t: String| string_text(t@)).push(string_text(v@[i as int]@)));
        i = i + 1;
    }
    assert(v@.take(v.len() as int) =~= v@);
    a.finish()
}


/// The JSON text of an optional `u64`.
pub open spec fn opt_u64_text(o: Option<u64>) -> Option<Seq<char>> {
    match o {
        Some(v) => Some(int_text(v as int)),
        None => None,
    }
}

/// The JSON text of an optional `u64`.
pub fn opt_u64_json(o: Option<u64>) -> (r: Option<String>)
    ensures
        opt_view(r) == opt_u64_text(o),
{
    match o {
        Some(v) => Some(u64_json(v)),
        None => None,
    }
}

/// The JSON text of an optional `i64`.
pub open spec fn opt_i64_text(o: Option<i64>) -> Option<Seq<char>> {
    match o {
        Some(v) => Some(int_text(v as int)),
        None => None,
    }
}

/// The JSON text of an optional `i64`.
pub fn opt_i64_json(o: Option<i64>) -> (r: Option<String>)
    ensures
        opt_view(r) == opt_i64_text(o),
{
    match o {
        Some(v) => Some(i64_json(v)),
        None => None,
    }
}

/// The JSON text of an optional `i32`.
pub open spec fn opt_i32_text(o: Option<i32>) -> Option<Seq<char>> {
    match o {
        Some(v) => Some(int_text(v as int)),
        None => None,
    }
}

/// The JSON text of an optional `i32`.
pub fn opt_i32_json(o: Option<i32>) -> (r: Option<String>)
    ensures
        opt_view(r) == opt_i32_text(o),
{
    match o {
        Some(v) => Some(i64_json(v as i64)),
        None => None,
    }
}

/// The JSON text of an optional `u16`.
pub open spec fn opt_u16_text(o: Option<u16>) -> Option<Seq<char>> {
    match o {
        Some(v) => Some(int_text(v as int)),
        None => None,
    }
}

/// The JSON text of an optional `u16`.
pub fn opt_u16_json(o: Option<u16>) -> (r: Option<String>)
    ensures
        opt_view(r) == opt_u16_text(o),
{
    match o {
        Some(v) => Some(u64_json(v as u64)),
        None => None,
    }
}

/// The JSON text of an optional `usize`.
pub open spec fn opt_usize_text(o: Option<usize>) -> Option<Seq<char>> {
    match o {
        Some(v) => Some(int_text(v as int)),
        None => None,
    }
}

/// The JSON text of an optional `usize`.
pub fn opt_usize_json(o: Option<usize>) -> (r: Option<String>)
    ensures
        opt_view(r) == opt_usize_text(o),
{
    match o {
        Some(v) => Some(u64_json(v as u64)),
        None => None,
    }
}

/// The JSON text of an optional `bool`.
pub open spec fn opt_bool_text(o: Option<bool>) -> Option<Seq<char>> {
    match o {
        Some(v) => Some(bool_text(v)),
        None => None,
    }
}

/// The JSON text of an optional `bool`.
pub fn opt_bool_json(o: Option<bool>) -> (r: Option<String>)
    ensures
        opt_view(r) == opt_bool_text(o),
{
    match o {
        Some(v) => Some(bool_json(v)),
        None => None,
    }
}

/// The JSON text of an optional string.
pub open spec fn opt_string_text(o: Option<String>) -> Option<Seq<char>> {
    match o {
        Some(v) => Some(string_text(v@)),
        None => None,
    }
}

/// The JSON text of an optional string.
pub fn opt_string_json(o: &Option<String>) -> (r: Option<String>)
    ensures
        opt_view(r) == opt_string_text(*o),
{
    match o {
        Some(v) => Some(string_json(v.as_str())),
        None => None,
    }
}

/// The JSON array of numbers for a list of indices.
pub open spec fn usizes_text(v: Seq<usize>) -> Seq<char> {
    array_text(v.map_values(|n: usize| int_text(n as int)))
}

/// The JSON text of an optional list of indices.
pub open spec fn opt_usizes_text(o: Option<Vec<usize>>) -> Option<Seq<char>> {
    match o {
        Some(v) => Some(usizes_text(v@)),
        None => None,
    }
}

/// The JSON text of an optional list of indices.
pub fn opt_usizes_json(o: &Option<Vec<usize>>) -> (r: Option<String>)
    ensures
        opt_view(r) == opt_usizes_text(*o),
{
    match o {
        Some(v) => Some(usize_array_json(v)),
        None => None,
    }
}

/// The JSON array of string literals for a list of strings.
pub open spec fn strings_text(v: Seq<String>) -> Seq<char> {
    array_text(v.map_values(|t: String| string_text(t@)))
}

/// The JSON text of an optional list of strings.
pub open spec fn opt_strings_text(o: Option<Vec<String>>) -> Option<Seq<char>> {
    match o {
        Some(v) => Some(strings_text(v@)),
        None => None,
    }
}

/// The JSON text of an optional list of strings.
pub fn opt_strings_json(o: &Option<Vec<String>>) -> (r: Option<String>)
    ensures
        opt_view(r) == opt_strings_text(*o),
{
    match o {
        Some(v) => Some(string_array_json(v)),
        None => None,
    }
}

/// A key that reads `compat_key` for JSON-RPC servers and `legacy_key` for older ones.
pub open spec fn key(compat: bool, legacy_key: &str, compat_key: &str) -> Seq<char> {
    if compat {
        compat_key@
    } else {
        legacy_key@
    }
}

/// Chooses between the key of the older protocol and that of JSON-RPC.
pub fn pick(compat: bool, legacy_key: &'static str, compat_key: &'static str) -> (k: &'static str)
    ensures
        k@ == key(compat, legacy_key, compat_key),
{
    if compat {
        compat_key
    } else {
        legacy_key
    }
}


/// Whether `c` is a decimal digit.
pub open spec fn is_digit(c: char) -> bool {
    '0' <= c && c <= '9'
}

/// Whether every character of `s` from `i` up to `j` is a decimal digit.
pub open spec fn digits_between(s: Seq<char>, i: int, j: int) -> bool {
    forall|k: int| i <= k < j ==> is_digit(#[trigger] s[k])
}

/// Whether the part of `s` from `a` up to `b` is the integer part of a JSON number: `0`,
/// or digits that do not start with `0`.
pub open spec fn int_part(s: Seq<char>, a: int, b: int) -> bool {
    &&& a < b
    &&& digits_between(s, a, b)
    &&& (b == a + 1 || s[a] != '0')
}

/// Whether the part of `s` from `b` up to `c` is the fraction part of a JSON number:
/// nothing, or a point followed by one or more digits.
pub open spec fn frac_part(s: Seq<char>, b: int, c: int) -> bool {
    b == c || (b + 1 < c && s[b] == '.' && digits_between(s, b + 1, c))
}

/// Whether the rest of `s` from `c` is the exponent part of a JSON number: nothing, or `e`
/// or `E`, then a sign or none, then one or more digits.
pub open spec fn exp_part(s: Seq<char>, c: int) -> bool {
    ||| c == s.len()
    ||| {
        &&& c < s.len()
        &&& (s[c] == 'e' || s[c] == 'E')
        &&& {
            ||| (c + 1 < s.len() && digits_between(s, c + 1, s.len() as int))
            ||| (c + 2 < s.len() && (s[c + 1] == '+' || s[c + 1] == '-') && digits_between(
                s,
                c + 2,
                s.len() as int,
            ))
        }
    }
}

/// Whether `a`, `b` and `c` split `s` into the parts of a JSON number: a minus sign or
/// nothing before `a`, the integer part up to `b`, the fraction part up to `c`, and the
/// exponent part after it.
pub open spec fn number_split(s: Seq<char>, a: int, b: int, c: int) -> bool {
    &&& 0 <= a <= b <= c <= s.len()
    &&& (a == 0 || (a == 1 && s[0] == '-'))
    &&& int_part(s, a, b)
    &&& frac_part(s, b, c)
    &&& exp_part(s, c)
}

/// Whether `s` is a JSON number (RFC 8259): an optional minus sign, an integer part, an
/// optional fraction part and an optional exponent part.
pub open spec fn is_json_number(s: Seq<char>) -> bool {
    exists|a: int, b: int, c: int| #[trigger] number_split(s, a, b, c)
}

/// The end of the run of digits of `s` that starts at `start`.
fn digits_end(s: &str, n: usize, start: usize) -> (q: usize)
    requires
        n == s@.len(),
        start <= n,
    ensures
        start <= q <= n,
        digits_between(s@, start as int, q as int),
        q == n || !is_digit(s@[q as int]),
{
    let mut q = start;
    while q < n
        invariant
            n == s@.len(),
            start <= q <= n,
            digits_between(s@, start as int, q as int),
        decreases n - q,
    {
        let c = s.get_char(q);
        if !('0' <= c && c <= '9') {
            return q;
        }
        q = q + 1;
    }
    q
}

/// Whether `s` is a JSON number.
pub fn json_number(s: &str) -> (r: bool)
    ensures
        r == is_json_number(s@),
{
    let n = s.unicode_len();
    let ghost t = s@;
    let a: usize = if n > 0 && s.get_char(0) == '-' {
        1
    } else {
        0
    };
    // Any split starts its integer part at `a`.
    assert forall|a2: int, b2: int, c2: int| #[trigger] number_split(t, a2, b2, c2) implies a2
        == a by {
        if a2 == 0 {
            assert(is_digit(t[0]));
        }
    }
    let b = digits_end(s, n, a);
    // Any split ends its integer part at `b`.
    assert forall|a2: int, b2: int, c2: int| #[trigger] number_split(t, a2, b2, c2) implies b2
        == b by {
        if b2 > b {
            assert(is_digit(t[b as int]));
        } else if b2 < b {
            assert(is_digit(t[b2]));
            if c2 > b2 {
                assert(t[b2] == '.');
            }
        }
    }
    if b == a {
        assert forall|a2: int, b2: int, c2: int| !number_split(t, a2, b2, c2) by {
        }
        return false;
    }
    if s.get_char(a) == '0' && b > a + 1 {
        assert forall|a2: int, b2: int, c2: int| !number_split(t, a2, b2, c2) by {
        }
        return false;
    }
    let c: usize = if b < n && s.get_char(b) == '.' {
        let r = digits_end(s, n, b + 1);
        if r == b + 1 {
            assert forall|a2: int, b2: int, c2: int| !number_split(t, a2, b2, c2) by {
                if number_split(t, a2, b2, c2) {
                    if c2 > b + 1 {
                        assert(is_digit(t[b + 1]));
                    }
                }
            }
            return false;
        }
        r
    } else {
        b
    };
    // Any split ends its fraction part at `c`.
    assert forall|a2: int, b2: int, c2: int| #[trigger] number_split(t, a2, b2, c2) implies c2
        == c by {
        if c > b {
            if c2 == b {
                assert(t[b as int] == '.');
            } else if c2 > c {
                assert(is_digit(t[c as int]));
            } else if c2 < c {
                assert(is_digit(t[c2]));
            }
        }
    }
    if c == n {
        assert(number_split(t, a as int, b as int, c as int));
        return true;
    }
    let e = s.get_char(c);
    if e != 'e' && e != 'E' {
        assert forall|a2: int, b2: int, c2: int| !number_split(t, a2, b2, c2) by {
        }
        return false;
    }
    let mut d = c + 1;
    if d < n && (s.get_char(d) == '+' || s.get_char(d) == '-') {
        d = d + 1;
    }
    let r = digits_end(s, n, d);
    if r > d && r == n {
        assert(number_split(t, a as int, b as int, c as int));
        true
    } else {
        assert forall|a2: int, b2: int, c2: int| !number_split(t, a2, b2, c2) by {
            if number_split(t, a2, b2, c2) {
                if d == c + 2 {
                    assert(!is_digit(t[c + 1]));
                } else if c + 1 < n {
                    assert(!(t[c + 1] == '+' || t[c + 1] == '-'));
                }
                if r < n {
                    assert(!is_digit(t[r as int]));
                }
            }
        }
        false
    }
}


/// Whether `m` stands in `text` from position `i` on.
pub open spec fn occurs_at(text: Seq<char>, m: Seq<char>, i: int) -> bool {
    &&& 0 <= i
    &&& i + m.len() <= text.len()
    &&& text.subrange(i, i + m.len()) == m
}

/// Whether `m` stands somewhere in `text`.
pub open spec fn occurs_in(text: Seq<char>, m: Seq<char>) -> bool {
    exists|i: int| #[trigger] occurs_at(text, m, i)
}

/// Whether the JSON text `text` holds the member `key: value`: the key as a string literal,
/// a colon, and the value.
pub open spec fn has_member(text: Seq<char>, key: Seq<char>, value: Seq<char>) -> bool {
    occurs_in(text, member_text(key, value))
}

/// Each item of a list joined by commas stands in the joined text.
pub proof fn lemma_join_holds_item(items: Seq<Seq<char>>, j: int) -> (i: int)
    requires
        0 <= j < items.len(),
    ensures
        occurs_at(join(items), items[j], i),
    decreases items.len(),
{
    if items.len() == 1 {
        assert(join(items).subrange(0, items[0].len() as int) =~= items[0]);
        0
    } else {
        let front = join(items.drop_last());
        let whole = join(items);
        assert(whole == front + seq![','] + items.last());
        if j == items.len() - 1 {
            let i: int = front.len() as int + 1;
            assert(whole.subrange(i, i + items[j].len()) =~= items[j]);
            i
        } else {
            let i = lemma_join_holds_item(items.drop_last(), j);
            assert(items.drop_last()[j] == items[j]);
            assert(whole.subrange(i, i + items[j].len()) =~= front.subrange(i, i + items[j].len()));
            i
        }
    }
}

/// A text that stands in a part of a bigger text stands in the bigger text.
pub proof fn lemma_occurs_within(inner: Seq<char>, outer: Seq<char>, m: Seq<char>)
    requires
        occurs_in(inner, m),
        occurs_in(outer, inner),
    ensures
        occurs_in(outer, m),
{
    let i = choose|i: int| occurs_at(inner, m, i);
    let o = choose|o: int| occurs_at(outer, inner, o);
    assert(outer.subrange(o + i, o + i + m.len()) =~= inner.subrange(i, i + m.len()));
    assert(occurs_at(outer, m, o + i));
}

/// An object holds each of its members.
pub proof fn lemma_object_holds_member(members: Seq<Seq<char>>, m: Seq<char>)
    requires
        members.contains(m),
    ensures
        occurs_in(object_text(members), m),
{
    let j = choose|j: int| 0 <= j < members.len() && members[j] == m;
    let i = lemma_join_holds_item(members, j);
    let t = object_text(members);
    assert(t.subrange(i + 1, i + 1 + m.len()) =~= join(members).subrange(i, i + m.len()));
    assert(occurs_at(t, m, i + 1));
}

/// A member added when there is a value is among the members afterwards, and the members
/// before stay.
pub broadcast proof fn lemma_push_opt_keeps(
    members: Seq<Seq<char>>,
    key: Seq<char>,
    value: Option<Seq<char>>,
    m: Seq<char>,
)
    ensures
        (members.contains(m) || (value is Some && m == member_text(key, value->0))) ==> #[trigger] push_opt(
            members,
            key,
            value,
        ).contains(m),
{
    if value is Some {
        let ms = members.push(member_text(key, value->0));
        if members.contains(m) {
            let j = choose|j: int| 0 <= j < members.len() && members[j] == m;
            assert(ms[j] == m);
        } else if m == member_text(key, value->0) {
            assert(ms[members.len() as int] == m);
        }
    }
}

/// A sequence with an item pushed holds the item and what it held before.
pub broadcast proof fn lemma_push_keeps(members: Seq<Seq<char>>, item: Seq<char>, m: Seq<char>)
    ensures
        (members.contains(m) || m == item) ==> #[trigger] members.push(item).contains(m),
{
    let ms = members.push(item);
    if members.contains(m) {
        let j = choose|j: int| 0 <= j < members.len() && members[j] == m;
        assert(ms[j] == m);
    } else if m == item {
        assert(ms[members.len() as int] == m);
    }
}


/// The value of a hexadecimal digit, in either case.
pub open spec fn hex_value(c: char) -> Option<int> {
    if '0' <= c && c <= '9' {
        Some(c as int - '0' as int)
    } else if 'a' <= c && c <= 'f' {
        Some(c as int - 'a' as int + 10)
    } else if 'A' <= c && c <= 'F' {
        Some(c as int - 'A' as int + 10)
    } else {
        None
    }
}

/// The character of a `\uXXXX` escape whose four digits start `t`, if they are hexadecimal
/// digits naming a character outside the surrogate range.
pub open spec fn unicode_escape(t: Seq<char>) -> Option<char> {
    if t.len() >= 4 && hex_value(t[0]) is Some && hex_value(t[1]) is Some && hex_value(t[2])
        is Some && hex_value(t[3]) is Some {
        let code = 4096 * hex_value(t[0])->0 + 256 * hex_value(t[1])->0 + 16 * hex_value(t[2])->0
            + hex_value(t[3])->0;
        if code < 0xD800 || code > 0xDFFF {
            Some(code as char)
        } else {
            None
        }
    } else {
        None
    }
}

/// The character that the escape `\e` stands for, for the short escapes of JSON.
pub open spec fn short_escape(e: char) -> Option<char> {
    if e == '"' {
        Some('"')
    } else if e == '\\' {
        Some('\\')
    } else if e == '/' {
        Some('/')
    } else if e == 'b' {
        Some('\u{8}')
    } else if e == 'f' {
        Some('\u{c}')
    } else if e == 'n' {
        Some('\n')
    } else if e == 'r' {
        Some('\r')
    } else if e == 't' {
        Some('\t')
    } else {
        None
    }
}

/// `c` followed by the characters of `rest`, when there are any.
pub open spec fn prepend(c: char, rest: Option<Seq<char>>) -> Option<Seq<char>> {
    match rest {
        Some(r) => Some(seq![c] + r),
        None => None,
    }
}

/// What the text between the quotes of a JSON string literal stands for (RFC 8259,
/// section 7): a backslash starts an escape (a short one, or `\u` with four hexadecimal
/// digits); a quote or a control character may not stand unescaped; any other character
/// stands for itself. Nothing when the text is no such body.
pub open spec fn decode_string_body(t: Seq<char>) -> Option<Seq<char>>
    decreases t.len(),
{
    if t.len() == 0 {
        Some(Seq::empty())
    } else if t[0] == '\\' {
        if t.len() < 2 {
            None
        } else if t[1] == 'u' {
            match unicode_escape(t.skip(2)) {
                Some(c) => if t.len() >= 6 {
                    prepend(c, decode_string_body(t.skip(6)))
                } else {
                    None
                },
                None => None,
            }
        } else {
            match short_escape(t[1]) {
                Some(c) => prepend(c, decode_string_body(t.skip(2))),
                None => None,
            }
        }
    } else if t[0] == '"' || (t[0] as u32) < 32 {
        None
    } else {
        prepend(t[0], decode_string_body(t.drop_first()))
    }
}

/// Every character other than the quote, the backslash and the control characters is
/// written as itself inside a JSON string.
pub proof fn lemma_plain_chars_stand_for_themselves(c: char)
    requires
        (c as u32) >= 32,
        c != '"',
        c != '\\',
    ensures
        escape_char(c) == seq![c],
{
}

proof fn lemma_hex_round_trip(d: int)
    requires
        0 <= d < 16,
    ensures
        hex_value(hex_digit(d)) == Some(d),
{
}

/// The escaped form of a character, followed by more text, decodes to the character followed
/// by what the text decodes to.
proof fn lemma_decode_escaped_char(c: char, rest: Seq<char>)
    ensures
        decode_string_body(escape_char(c) + rest) == prepend(c, decode_string_body(rest)),
{
    let t = escape_char(c) + rest;
    let u = c as u32;
    if c == '"' || c == '\\' || u == 8 || u == 9 || u == 10 || u == 12 || u == 13 {
        assert(t.skip(2) =~= rest);
    } else if u < 32 {
        lemma_hex_round_trip((u / 16) as int);
        lemma_hex_round_trip((u % 16) as int);
        assert(t.skip(2).skip(4) =~= rest);
        assert(t.skip(6) =~= rest);
        let code = 4096 * 0 + 256 * 0 + 16 * ((u / 16) as int) + (u % 16) as int;
        assert(code == u as int);
        assert(unicode_escape(t.skip(2)) == Some(c));
    } else {
        assert(t.drop_first() =~= rest);
    }
}

/// The escaped form of a non-empty text is that of its first character followed by that
/// of the rest.
proof fn lemma_escaped_front(s: Seq<char>)
    requires
        s.len() > 0,
    ensures
        escaped(s) == escape_char(s[0]) + escaped(s.drop_first()),
    decreases s.len(),
{
    if s.len() == 1 {
        assert(s.drop_last() =~= Seq::<char>::empty());
        assert(s.drop_first() =~= Seq::<char>::empty());
        assert(escaped(s) =~= escape_char(s[0]) + escaped(s.drop_first()));
    } else {
        lemma_escaped_front(s.drop_last());
        assert(s.drop_last().drop_first() =~= s.drop_first().drop_last());
        assert(s.drop_first().last() == s.last());
        assert(escaped(s) =~= escape_char(s[0]) + escaped(s.drop_first()));
    }
}

/// The body of the JSON string literal written for a text decodes back to the text.
proof fn lemma_escaped_decodes(s: Seq<char>)
    ensures
        decode_string_body(escaped(s)) == Some(s),
    decreases s.len(),
{
    if s.len() > 0 {
        lemma_escaped_front(s);
        lemma_escaped_decodes(s.drop_first());
        lemma_decode_escaped_char(s[0], escaped(s.drop_first()));
        assert(seq![s[0]] + s.drop_first() =~= s);
    }
}

/// The JSON string literal written for any text is a valid string literal that stands for
/// exactly that text: a quote, a body that decodes to the text, and a quote.
pub proof fn lemma_string_text_decodes(s: Seq<char>)
    ensures
        string_text(s).len() >= 2,
        string_text(s)[0] == '"',
        string_text(s).last() == '"',
        decode_string_body(string_text(s).subrange(1, string_text(s).len() - 1)) == Some(s),
{
    lemma_escaped_decodes(s);
    assert(string_text(s).subrange(1, string_text(s).len() - 1) =~= escaped(s));
}


/// The number that a text of decimal digits stands for.
pub open spec fn decimal_value(s: Seq<char>) -> int
    decreases s.len(),
{
    if s.len() == 0 {
        0
    } else {
        decimal_value(s.drop_last()) * 10 + (s.last() as int - '0' as int)
    }
}

/// Whether `s` is the way JSON writes a natural number: one or more decimal digits, with no
/// leading zero.
pub open spec fn is_plain_decimal(s: Seq<char>) -> bool {
    &&& s.len() > 0
    &&& digits_between(s, 0, s.len() as int)
    &&& (s.len() == 1 || s[0] != '0')
}

proof fn lemma_digit_char(d: int)
    requires
        0 <= d < 10,
    ensures
        is_digit(digit_char(d)),
        digit_char(d) as int - '0' as int == d,
{
}

/// The text written for a natural number is its decimal form: digits without a leading
/// zero that stand for the number.
pub proof fn lemma_nat_text_decimal(n: nat)
    ensures
        is_plain_decimal(nat_text(n)),
        decimal_value(nat_text(n)) == n,
    decreases n,
{
    if n < 10 {
        lemma_digit_char(n as int);
        let t = nat_text(n);
        assert(t == seq![digit_char(n as int)]);
        assert(t.drop_last() =~= Seq::<char>::empty());
        assert(decimal_value(t.drop_last()) == 0);
        assert(decimal_value(t) == digit_char(n as int) as int - '0' as int);
    } else {
        let q = (n / 10) as nat;
        let d = (n % 10) as int;
        lemma_nat_text_decimal(q);
        lemma_digit_char(d);
        let p = nat_text(q);
        let t = nat_text(n);
        assert(t == p.push(digit_char(d)));
        assert(t.drop_last() =~= p);
        assert(t.last() == digit_char(d));
        assert(decimal_value(t) == decimal_value(p) * 10 + d);
        assert(q * 10 + d == n);
        assert(t[0] == p[0]);
        assert(digits_between(t, 0, t.len() as int)) by {
            assert forall|k: int| 0 <= k < t.len() implies is_digit(#[trigger] t[k]) by {
                if k < p.len() {
                    assert(t[k] == p[k]);
                }
            }
        }
        if p.len() == 1 {
            assert(p.drop_last() =~= Seq::<char>::empty());
            assert(decimal_value(p.drop_last()) == 0);
            assert(decimal_value(p) == p[0] as int - '0' as int);
        }
    }
}

/// The JSON number written for an integer is a minus sign before the decimal form of its
/// magnitude for a negative integer, and the decimal form alone otherwise.
pub proof fn lemma_int_text_decimal(n: int)
    ensures
        n < 0 ==> int_text(n)[0] == '-' && is_plain_decimal(int_text(n).drop_first())
            && decimal_value(int_text(n).drop_first()) == -n,
        n >= 0 ==> is_plain_decimal(int_text(n)) && decimal_value(int_text(n)) == n,
{
    if n < 0 {
        lemma_nat_text_decimal((-n) as nat);
        assert(int_text(n).drop_first() =~= nat_text((-n) as nat));
    } else {
        lemma_nat_text_decimal(n as nat);
    }
}

} // verus!
