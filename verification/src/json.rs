//! Model of the JSON-like values exchanged with the browser host.
//!
//! Every request the library sends to the host and every response it reads
//! back is such a value. [`JsonValue`] is the executable form; [`JsonView`]
//! is its mathematical abstraction, over which all contracts are stated.

use vstd::prelude::*;
use vstd::std_specs::iter::IteratorSpec;

verus! {

/// A JSON-like value as the browser host exchanges it.
#[verifier::ext_equal]
pub enum JsonValue {
    Null,
    Bool(bool),
    Int(i64),
    UInt(u64),
    Str(String),
    Arr(Vec<JsonValue>),
    Obj(Vec<(String, JsonValue)>),
}

/// The mathematical abstraction of a [`JsonValue`].
///
/// Signed and unsigned numbers collapse into a single unbounded integer.
#[verifier::ext_equal]
pub enum JsonView {
    Null,
    Bool(bool),
    Int(int),
    Str(Seq<char>),
    Arr(Seq<JsonView>),
    Obj(Seq<(Seq<char>, JsonView)>),
}

pub open spec fn view_of(v: JsonValue) -> JsonView
    decreases v,
{
    match v {
        JsonValue::Null => JsonView::Null,
        JsonValue::Bool(b) => JsonView::Bool(b),
        JsonValue::Int(i) => JsonView::Int(i as int),
        JsonValue::UInt(u) => JsonView::Int(u as int),
        JsonValue::Str(s) => JsonView::Str(s@),
        JsonValue::Arr(a) => JsonView::Arr(views_of_vec(a)),
        JsonValue::Obj(o) => JsonView::Obj(members_of_vec(o)),
    }
}

pub open spec fn views_of_vec(a: Vec<JsonValue>) -> Seq<JsonView>
    decreases a,
{
    views_of_seq(a@)
}

pub open spec fn views_of_seq(s: Seq<JsonValue>) -> Seq<JsonView>
    decreases s,
{
    if s.len() == 0 {
        Seq::empty()
    } else {
        seq![view_of(s[0])] + views_of_seq(s.drop_first())
    }
}

pub open spec fn members_of_vec(o: Vec<(String, JsonValue)>) -> Seq<(Seq<char>, JsonView)>
    decreases o,
{
    members_of_seq(o@)
}

pub open spec fn members_of_seq(s: Seq<(String, JsonValue)>) -> Seq<(Seq<char>, JsonView)>
    decreases s,
{
    if s.len() == 0 {
        Seq::empty()
    } else {
        seq![member_view(s[0])] + members_of_seq(s.drop_first())
    }
}

pub open spec fn member_view(m: (String, JsonValue)) -> (Seq<char>, JsonView)
    decreases m,
{
    (m.0@, view_of(m.1))
}

impl View for JsonValue {
    type V = JsonView;

    open spec fn view(&self) -> JsonView {
        view_of(*self)
    }
}

pub proof fn lemma_views_of_seq(s: Seq<JsonValue>)
    ensures
        views_of_seq(s).len() == s.len(),
        forall|i: int| 0 <= i < s.len() ==> views_of_seq(s)[i] == view_of(s[i]),
    decreases s.len(),
{
    if s.len() > 0 {
        lemma_views_of_seq(s.drop_first());
    }
}

pub proof fn lemma_members_of_seq(s: Seq<(String, JsonValue)>)
    ensures
        members_of_seq(s).len() == s.len(),
        forall|i: int| 0 <= i < s.len() ==> members_of_seq(s)[i] == member_view(s[i]),
    decreases s.len(),
{
    if s.len() > 0 {
        lemma_members_of_seq(s.drop_first());
    }
}

// ---------------------------------------------------------------------------
// The text form of a value, exactly as the library writes it.
// ---------------------------------------------------------------------------

/// The decimal digit `d` as a character, for `0 <= d <= 9`.
pub open spec fn digit_char(d: int) -> char {
    if d == 0 {
        '0'
    } else if d == 1 {
        '1'
    } else if d == 2 {
        '2'
    } else if d == 3 {
        '3'
    } else if d == 4 {
        '4'
    } else if d == 5 {
        '5'
    } else if d == 6 {
        '6'
    } else if d == 7 {
        '7'
    } else if d == 8 {
        '8'
    } else {
        '9'
    }
}

/// The hexadecimal digit `d` as a lower-case character, for `0 <= d <= 15`.
pub open spec fn hex_char(d: int) -> char {
    if d < 10 {
        digit_char(d)
    } else if d == 10 {
        'a'
    } else if d == 11 {
        'b'
    } else if d == 12 {
        'c'
    } else if d == 13 {
        'd'
    } else if d == 14 {
        'e'
    } else {
        'f'
    }
}

/// The decimal text of a non-negative integer, without sign or padding.
pub open spec fn uint_text(n: int) -> Seq<char>
    decreases n,
{
    if n < 10 {
        seq![digit_char(n)]
    } else {
        uint_text(n / 10).push(digit_char(n % 10))
    }
}

/// The decimal text of an integer: a minus sign for negative values,
/// then the digits.
pub open spec fn int_text(i: int) -> Seq<char> {
    if i < 0 {
        seq!['-'] + uint_text(-i)
    } else {
        uint_text(i)
    }
}

/// How a single character appears inside a JSON string: quote and backslash
/// get a backslash, the named control characters get their short escape,
/// the other control characters get a `\u00..` escape, and everything else
/// stands as it is.
pub open spec fn escape_char(c: char) -> Seq<char> {
    if c == '"' {
        seq!['\\', '"']
    } else if c == '\\' {
        seq!['\\', '\\']
    } else if c == '\u{8}' {
        seq!['\\', 'b']
    } else if c == '\t' {
        seq!['\\', 't']
    } else if c == '\n' {
        seq!['\\', 'n']
    } else if c == '\u{c}' {
        seq!['\\', 'f']
    } else if c == '\r' {
        seq!['\\', 'r']
    } else if (c as u32) < 0x20 {
        seq!['\\', 'u', '0', '0', hex_char((c as u32) as int / 16), hex_char((c as u32) as int % 16)]
    } else {
        seq![c]
    }
}

/// The body of a JSON string: each character escaped, in order.
pub open spec fn escaped_text(s: Seq<char>) -> Seq<char>
    decreases s.len(),
{
    if s.len() == 0 {
        Seq::empty()
    } else {
        escaped_text(s.drop_last()) + escape_char(s.last())
    }
}

/// A JSON string: the escaped body between double quotes.
pub open spec fn string_text(s: Seq<char>) -> Seq<char> {
    seq!['"'] + escaped_text(s) + seq!['"']
}

/// The text of a whole value, as `render` writes it: no spaces, object
/// members in the order the value holds them.
pub open spec fn json_text(v: JsonView) -> Seq<char>
    decreases v,
{
    match v {
        JsonView::Null => "null"@,
        JsonView::Bool(b) => if b {
            "true"@
        } else {
            "false"@
        },
        JsonView::Int(i) => int_text(i),
        JsonView::Str(s) => string_text(s),
        JsonView::Arr(a) => seq!['['] + items_text(a) + seq![']'],
        JsonView::Obj(o) => seq!['{'] + members_text(o) + seq!['}'],
    }
}

/// The elements of an array, rendered and joined by commas.
pub open spec fn items_text(a: Seq<JsonView>) -> Seq<char>
    decreases a,
{
    if a.len() == 0 {
        Seq::empty()
    } else if a.len() == 1 {
        json_text(a[0])
    } else {
        json_text(a[0]) + seq![','] + items_text(a.drop_first())
    }
}

/// One object member: the quoted key, a colon, the rendered value.
pub open spec fn member_text(m: (Seq<char>, JsonView)) -> Seq<char>
    decreases m,
{
    string_text(m.0) + seq![':'] + json_text(m.1)
}

/// The members of an object, rendered and joined by commas.
pub open spec fn members_text(o: Seq<(Seq<char>, JsonView)>) -> Seq<char>
    decreases o,
{
    if o.len() == 0 {
        Seq::empty()
    } else if o.len() == 1 {
        member_text(o[0])
    } else {
        member_text(o[0]) + seq![','] + members_text(o.drop_first())
    }
}

// ---------------------------------------------------------------------------
// Trusted bridge to std.
// ---------------------------------------------------------------------------

/// Relies on `String::push`: appends the given character to the end of the
/// string.
pub assume_specification[ String::push ](s: &mut String, c: char)
    ensures
        final(s)@ == old(s)@.push(c),
;

/// Relies on `str`'s `PartialEq`: two string slices are equal exactly when
/// their character sequences are.
#[verifier::external_body]
pub fn str_eq(a: &str, b: &str) -> (r: bool)
    ensures
        r == (a@ == b@),
{
    a == b
}

// ---------------------------------------------------------------------------
// Executable rendering of scalars.
// ---------------------------------------------------------------------------

/// The decimal digit `d` as a character, for `d <= 9`.
fn digit_of(d: u64) -> (c: char)
    requires
        d <= 9,
    ensures
        c == digit_char(d as int),
{
    match d {
        0 => '0',
        1 => '1',
        2 => '2',
        3 => '3',
        4 => '4',
        5 => '5',
        6 => '6',
        7 => '7',
        8 => '8',
        _ => '9',
    }
}

/// Appends the decimal text of `n`.
fn push_u64(out: &mut String, n: u64)
    ensures
        final(out)@ == old(out)@ + uint_text(n as int),
    decreases n,
{
    if n < 10 {
        let d = digit_of(n);
        out.push(d);
        assert(out@ =~= old(out)@ + uint_text(n as int));
    } else {
        push_u64(out, n / 10);
        let d = digit_of(n % 10);
        out.push(d);
        assert(out@ =~= old(out)@ + uint_text(n as int));
    }
}

/// Appends the decimal text of `i`, with a minus sign when negative.
fn push_i64(out: &mut String, i: i64)
    ensures
        final(out)@ == old(out)@ + int_text(i as int),
{
    if i >= 0 {
        push_u64(out, i as u64);
    } else {
        out.push('-');
        let wide: i128 = i as i128;
        let mag: u64 = (-wide) as u64;
        push_u64(out, mag);
        assert(out@ =~= old(out)@ + int_text(i as int));
    }
}

/// Appending one element extends the rendered list by a comma (after the
/// first element) and the element's text.
pub proof fn lemma_items_text_push(s: Seq<JsonView>, x: JsonView)
    ensures
        items_text(s.push(x)) == if s.len() == 0 {
            json_text(x)
        } else {
            items_text(s) + seq![','] + json_text(x)
        },
    decreases s.len(),
{
    if s.len() == 0 {
        assert(s.push(x)[0] == x);
    } else {
        assert(s.push(x).drop_first() =~= s.drop_first().push(x));
        lemma_items_text_push(s.drop_first(), x);
        if s.len() == 1 {
            assert(items_text(s) == json_text(s[0]));
        }
    }
}

/// Appending one member extends the rendered object alike.
pub proof fn lemma_members_text_push(s: Seq<(Seq<char>, JsonView)>, m: (Seq<char>, JsonView))
    ensures
        members_text(s.push(m)) == if s.len() == 0 {
            member_text(m)
        } else {
            members_text(s) + seq![','] + member_text(m)
        },
    decreases s.len(),
{
    if s.len() == 0 {
        assert(s.push(m)[0] == m);
    } else {
        assert(s.push(m).drop_first() =~= s.drop_first().push(m));
        lemma_members_text_push(s.drop_first(), m);
        if s.len() == 1 {
            assert(members_text(s) == member_text(s[0]));
        }
    }
}

/// The hexadecimal digit `d` as a lower-case character, for `d <= 15`.
fn hex_of(d: u32) -> (c: char)
    requires
        d <= 15,
    ensures
        c == hex_char(d as int),
{
    match d {
        0 => '0',
        1 => '1',
        2 => '2',
        3 => '3',
        4 => '4',
        5 => '5',
        6 => '6',
        7 => '7',
        8 => '8',
        9 => '9',
        10 => 'a',
        11 => 'b',
        12 => 'c',
        13 => 'd',
        14 => 'e',
        _ => 'f',
    }
}

/// Appends the escape of a single character.
fn push_escaped_char(out: &mut String, c: char)
    ensures
        final(out)@ == old(out)@ + escape_char(c),
{
    if c == '"' {
        out.push('\\');
        out.push('"');
    } else if c == '\\' {
        out.push('\\');
        out.push('\\');
    } else if c == '\u{8}' {
        out.push('\\');
        out.push('b');
    } else if c == '\t' {
        out.push('\\');
        out.push('t');
    } else if c == '\n' {
        out.push('\\');
        out.push('n');
    } else if c == '\u{c}' {
        out.push('\\');
        out.push('f');
    } else if c == '\r' {
        out.push('\\');
        out.push('r');
    } else {
        let u = c as u32;
        if u < 0x20 {
            out.push('\\');
            out.push('u');
            out.push('0');
            out.push('0');
            let hi = hex_of(u / 16);
            out.push(hi);
            let lo = hex_of(u % 16);
            out.push(lo);
        } else {
            out.push(c);
        }
    }
    assert(out@ =~= old(out)@ + escape_char(c));
}

/// Appends `s` as a JSON string: quoted, with each character escaped.
fn push_quoted(out: &mut String, s: &str)
    ensures
        final(out)@ == old(out)@ + string_text(s@),
{
    out.push('"');
    let mut it = s.chars();
    let ghost mut done: int = 0;
    loop
        invariant
            0 <= done <= s@.len(),
            it.remaining() == s@.subrange(done, s@.len() as int),
            out@ == old(out)@ + seq!['"'] + escaped_text(s@.take(done)),
        ensures
            out@ == old(out)@ + seq!['"'] + escaped_text(s@),
        decreases s@.len() - done,
    {
        match it.next() {
            Some(c) => {
                proof {
                    assert(s@.subrange(done, s@.len() as int)[0] == s@[done]);
                    assert(s@.take(done + 1).drop_last() =~= s@.take(done));
                    assert(s@.take(done + 1).last() == s@[done]);
                }
                push_escaped_char(out, c);
                proof {
                    assert(s@.subrange(done, s@.len() as int).drop_first() =~= s@.subrange(
                        done + 1,
                        s@.len() as int,
                    ));
                    done = done + 1;
                }
            },
            None => {
                proof {
                    assert(s@.take(done) =~= s@);
                }
                break ;
            },
        }
    }
    out.push('"');
    assert(out@ =~= old(out)@ + string_text(s@));
}

/// Appends the text of `v`, exactly as `json_text` states it.
#[verifier::loop_isolation(false)]
fn push_json(out: &mut String, v: &JsonValue)
    ensures
        final(out)@ == old(out)@ + json_text(v@),
    decreases v,
{
    match v {
        JsonValue::Null => {
            out.append("null");
        },
        JsonValue::Bool(b) => {
            if *b {
                out.append("true");
            } else {
                out.append("false");
            }
        },
        JsonValue::Int(i) => {
            push_i64(out, *i);
        },
        JsonValue::UInt(u) => {
            push_u64(out, *u);
        },
        JsonValue::Str(s) => {
            push_quoted(out, s.as_str());
        },
        JsonValue::Arr(a) => {
            out.push('[');
            let n = a.len();
            let mut k: usize = 0;
            proof {
                lemma_views_of_seq(a@);
            }
            while k < n
                invariant
                    n == a@.len(),
                    0 <= k <= n,
                    views_of_seq(a@).len() == a@.len(),
                    forall|i: int| 0 <= i < a@.len() ==> views_of_seq(a@)[i] == view_of(a@[i]),
                    out@ == old(out)@ + seq!['['] + items_text(views_of_seq(a@).take(k as int)),
                decreases n - k,
            {
                if k > 0 {
                    out.push(',');
                }
                proof {
                    assert(decreases_to!(*v => *a));
                    assert(decreases_to!(*a => a@));
                    assert(decreases_to!(a@ => a@[k as int]));
                    lemma_items_text_push(
                        views_of_seq(a@).take(k as int),
                        view_of(a@[k as int]),
                    );
                    assert(views_of_seq(a@).take(k as int).push(view_of(a@[k as int])) =~= views_of_seq(
                        a@,
                    ).take(k as int + 1));
                }
                push_json(out, &a[k]);
                k = k + 1;
                assert(out@ =~= old(out)@ + seq!['['] + items_text(
                    views_of_seq(a@).take(k as int),
                ));
            }
            proof {
                assert(views_of_seq(a@).take(n as int) =~= views_of_seq(a@));
            }
            out.push(']');
            assert(out@ =~= old(out)@ + json_text(v@));
        },
        JsonValue::Obj(o) => {
            out.push('{');
            let n = o.len();
            let mut k: usize = 0;
            proof {
                lemma_members_of_seq(o@);
            }
            while k < n
                invariant
                    n == o@.len(),
                    0 <= k <= n,
                    members_of_seq(o@).len() == o@.len(),
                    forall|i: int| 0 <= i < o@.len() ==> members_of_seq(o@)[i] == member_view(o@[i]),
                    out@ == old(out)@ + seq!['{'] + members_text(members_of_seq(o@).take(k as int)),
                decreases n - k,
            {
                if k > 0 {
                    out.push(',');
                }
                proof {
                    assert(decreases_to!(*v => *o));
                    assert(decreases_to!(*o => o@));
                    assert(decreases_to!(o@ => o@[k as int]));
                    assert(decreases_to!(o@[k as int] => o@[k as int].1));
                    lemma_members_text_push(
                        members_of_seq(o@).take(k as int),
                        member_view(o@[k as int]),
                    );
                    assert(members_of_seq(o@).take(k as int).push(member_view(o@[k as int]))
                        =~= members_of_seq(o@).take(k as int + 1));
                }
                push_quoted(out, o[k].0.as_str());
                out.push(':');
                push_json(out, &o[k].1);
                k = k + 1;
                assert(out@ =~= old(out)@ + seq!['{'] + members_text(
                    members_of_seq(o@).take(k as int),
                ));
            }
            proof {
                assert(members_of_seq(o@).take(n as int) =~= members_of_seq(o@));
            }
            out.push('}');
            assert(out@ =~= old(out)@ + json_text(v@));
        },
    }
}

/// The text of `v`: compact JSON, members in order, strings escaped as
/// `escape_char` states.
pub fn render(v: &JsonValue) -> (r: String)
    ensures
        r@ == json_text(v@),
{
    let mut out = String::new();
    push_json(&mut out, v);
    out
}

// ---------------------------------------------------------------------------
// Reading values back: member lookup and typed fields.
// ---------------------------------------------------------------------------

/// The value under `key` in an object: the first member with that key,
/// or nothing.
pub open spec fn obj_get(o: Seq<(Seq<char>, JsonView)>, key: Seq<char>) -> Option<JsonView>
    decreases o.len(),
{
    if o.len() == 0 {
        None
    } else if o[0].0 == key {
        Some(o[0].1)
    } else {
        obj_get(o.drop_first(), key)
    }
}

impl JsonValue {
    /// The members of this value, when it is an object.
    pub fn as_members(&self) -> (r: Option<&Vec<(String, JsonValue)>>)
        ensures
            match r {
                Some(o) => self@ == JsonView::Obj(members_of_vec(*o)),
                None => !(self@ is Obj),
            },
    {
        match self {
            JsonValue::Obj(o) => Some(o),
            _ => None,
        }
    }

    /// The elements of this value, when it is an array.
    pub fn as_elements(&self) -> (r: Option<&Vec<JsonValue>>)
        ensures
            match r {
                Some(a) => self@ == JsonView::Arr(views_of_vec(*a)),
                None => !(self@ is Arr),
            },
    {
        match self {
            JsonValue::Arr(a) => Some(a),
            _ => None,
        }
    }
}

/// The first member of `o` named `key`, as `obj_get` states it.
pub fn get_member<'a>(o: &'a Vec<(String, JsonValue)>, key: &str) -> (r: Option<
    &'a JsonValue,
>)
    ensures
        match r {
            Some(v) => obj_get(members_of_vec(*o), key@) == Some(v@),
            None => obj_get(members_of_vec(*o), key@) is None,
        },
{
    proof {
        lemma_members_of_seq(o@);
    }
    let ghost ms = members_of_vec(*o);
    proof {
        assert(ms.skip(0) =~= ms);
    }
    let n = o.len();
    let mut k: usize = 0;
    while k < n
        invariant
            n == o@.len(),
            0 <= k <= n,
            ms == members_of_vec(*o),
            ms.len() == o@.len(),
            forall|i: int| 0 <= i < o@.len() ==> ms[i] == member_view(o@[i]),
            obj_get(ms, key@) == obj_get(ms.skip(k as int), key@),
        decreases n - k,
    {
        proof {
            assert(ms.skip(k as int)[0] == ms[k as int]);
            assert(ms.skip(k as int).drop_first() =~= ms.skip(k as int + 1));
        }
        if str_eq(o[k].0.as_str(), key) {
            return Some(&o[k].1);
        }
        k = k + 1;
    }
    proof {
        assert(ms.skip(n as int) =~= Seq::empty());
    }
    None
}

/// A required string field: present with a string value, or the lookup fails.
pub open spec fn req_str_of(o: Seq<(Seq<char>, JsonView)>, key: Seq<char>) -> Result<
    Seq<char>,
    (),
> {
    match obj_get(o, key) {
        Some(JsonView::Str(s)) => Ok(s),
        _ => Err(()),
    }
}

/// An optional string field: absent or null counts as nothing.
pub open spec fn opt_str_of(o: Seq<(Seq<char>, JsonView)>, key: Seq<char>) -> Result<
    Option<Seq<char>>,
    (),
> {
    match obj_get(o, key) {
        None => Ok(None),
        Some(JsonView::Null) => Ok(None),
        Some(JsonView::Str(s)) => Ok(Some(s)),
        Some(_) => Err(()),
    }
}

/// A required boolean field.
pub open spec fn req_bool_of(o: Seq<(Seq<char>, JsonView)>, key: Seq<char>) -> Result<
    bool,
    (),
> {
    match obj_get(o, key) {
        Some(JsonView::Bool(b)) => Ok(b),
        _ => Err(()),
    }
}

/// An optional boolean field.
pub open spec fn opt_bool_of(o: Seq<(Seq<char>, JsonView)>, key: Seq<char>) -> Result<
    Option<bool>,
    (),
> {
    match obj_get(o, key) {
        None => Ok(None),
        Some(JsonView::Null) => Ok(None),
        Some(JsonView::Bool(b)) => Ok(Some(b)),
        Some(_) => Err(()),
    }
}

/// A required integer field that must fit the target's range.
pub open spec fn req_int_of(
    o: Seq<(Seq<char>, JsonView)>,
    key: Seq<char>,
    lo: int,
    hi: int,
) -> Result<int, ()> {
    match obj_get(o, key) {
        Some(JsonView::Int(i)) => if lo <= i <= hi {
            Ok(i)
        } else {
            Err(())
        },
        _ => Err(()),
    }
}

/// An optional integer field that must fit the target's range when present.
pub open spec fn opt_int_of(
    o: Seq<(Seq<char>, JsonView)>,
    key: Seq<char>,
    lo: int,
    hi: int,
) -> Result<Option<int>, ()> {
    match obj_get(o, key) {
        None => Ok(None),
        Some(JsonView::Null) => Ok(None),
        Some(JsonView::Int(i)) => if lo <= i <= hi {
            Ok(Some(i))
        } else {
            Err(())
        },
        Some(_) => Err(()),
    }
}

/// Reads a required string field, cloning it out of the object.
pub fn req_str(o: &Vec<(String, JsonValue)>, key: &str) -> (r: Result<String, ()>)
    ensures
        match r {
            Ok(s) => req_str_of(members_of_vec(*o), key@) == Ok::<_, ()>(s@),
            Err(e) => req_str_of(members_of_vec(*o), key@) is Err,
        },
{
    match get_member(o, key) {
        Some(JsonValue::Str(s)) => Ok(s.clone()),
        _ => Err(()),
    }
}

/// Reads an optional string field.
pub fn opt_str(o: &Vec<(String, JsonValue)>, key: &str) -> (r: Result<Option<String>, ()>)
    ensures
        match r {
            Ok(Some(s)) => opt_str_of(members_of_vec(*o), key@) == Ok::<_, ()>(Some(s@)),
            Ok(None) => opt_str_of(members_of_vec(*o), key@) == Ok::<Option<Seq<char>>, ()>(None),
            Err(e) => opt_str_of(members_of_vec(*o), key@) is Err,
        },
{
    match get_member(o, key) {
        None => Ok(None),
        Some(JsonValue::Null) => Ok(None),
        Some(JsonValue::Str(s)) => Ok(Some(s.clone())),
        Some(_) => Err(()),
    }
}

/// Reads a required boolean field.
pub fn req_bool(o: &Vec<(String, JsonValue)>, key: &str) -> (r: Result<bool, ()>)
    ensures
        r == req_bool_of(members_of_vec(*o), key@),
{
    match get_member(o, key) {
        Some(JsonValue::Bool(b)) => Ok(*b),
        _ => Err(()),
    }
}

/// Reads an optional boolean field.
pub fn opt_bool(o: &Vec<(String, JsonValue)>, key: &str) -> (r: Result<Option<bool>, ()>)
    ensures
        r == opt_bool_of(members_of_vec(*o), key@),
{
    match get_member(o, key) {
        None => Ok(None),
        Some(JsonValue::Null) => Ok(None),
        Some(JsonValue::Bool(b)) => Ok(Some(*b)),
        Some(_) => Err(()),
    }
}

/// The mathematical value of a number member, when `v` is one.
fn int_value(v: &JsonValue) -> (r: Option<i128>)
    ensures
        match r {
            Some(i) => v@ == JsonView::Int(i as int),
            None => !(v@ is Int),
        },
{
    match v {
        JsonValue::Int(i) => Some(*i as i128),
        JsonValue::UInt(u) => Some(*u as i128),
        _ => None,
    }
}

/// Reads a required `i32` field.
pub fn req_i32(o: &Vec<(String, JsonValue)>, key: &str) -> (r: Result<i32, ()>)
    ensures
        match r {
            Ok(x) => req_int_of(members_of_vec(*o), key@, i32::MIN as int, i32::MAX as int)
                == Ok::<int, ()>(x as int),
            Err(e) => req_int_of(members_of_vec(*o), key@, i32::MIN as int, i32::MAX as int)
                is Err,
        },
{
    match get_member(o, key) {
        Some(v) => match int_value(v) {
            Some(i) => if i32::MIN as i128 <= i && i <= i32::MAX as i128 {
                Ok(i as i32)
            } else {
                Err(())
            },
            None => Err(()),
        },
        None => Err(()),
    }
}

/// Reads an optional `i32` field.
pub fn opt_i32(o: &Vec<(String, JsonValue)>, key: &str) -> (r: Result<Option<i32>, ()>)
    ensures
        match r {
            Ok(Some(x)) => opt_int_of(members_of_vec(*o), key@, i32::MIN as int, i32::MAX as int)
                == Ok::<_, ()>(Some(x as int)),
            Ok(None) => opt_int_of(members_of_vec(*o), key@, i32::MIN as int, i32::MAX as int)
                == Ok::<Option<int>, ()>(None),
            Err(e) => opt_int_of(members_of_vec(*o), key@, i32::MIN as int, i32::MAX as int)
                is Err,
        },
{
    match get_member(o, key) {
        None => Ok(None),
        Some(JsonValue::Null) => Ok(None),
        Some(v) => match int_value(v) {
            Some(i) => if i32::MIN as i128 <= i && i <= i32::MAX as i128 {
                Ok(Some(i as i32))
            } else {
                Err(())
            },
            None => Err(()),
        },
    }
}

/// Reads a required `u32` field.
pub fn req_u32(o: &Vec<(String, JsonValue)>, key: &str) -> (r: Result<u32, ()>)
    ensures
        match r {
            Ok(x) => req_int_of(members_of_vec(*o), key@, 0, u32::MAX as int) == Ok::<int, ()>(
                x as int,
            ),
            Err(e) => req_int_of(members_of_vec(*o), key@, 0, u32::MAX as int) is Err,
        },
{
    match get_member(o, key) {
        Some(v) => match int_value(v) {
            Some(i) => if 0 <= i && i <= u32::MAX as i128 {
                Ok(i as u32)
            } else {
                Err(())
            },
            None => Err(()),
        },
        None => Err(()),
    }
}

/// Reads an optional `u32` field.
pub fn opt_u32(o: &Vec<(String, JsonValue)>, key: &str) -> (r: Result<Option<u32>, ()>)
    ensures
        match r {
            Ok(Some(x)) => opt_int_of(members_of_vec(*o), key@, 0, u32::MAX as int) == Ok::<_, ()>(
                Some(x as int),
            ),
            Ok(None) => opt_int_of(members_of_vec(*o), key@, 0, u32::MAX as int) == Ok::<
                Option<int>,
                (),
            >(None),
            Err(e) => opt_int_of(members_of_vec(*o), key@, 0, u32::MAX as int) is Err,
        },
{
    match get_member(o, key) {
        None => Ok(None),
        Some(JsonValue::Null) => Ok(None),
        Some(v) => match int_value(v) {
            Some(i) => if 0 <= i && i <= u32::MAX as i128 {
                Ok(Some(i as u32))
            } else {
                Err(())
            },
            None => Err(()),
        },
    }
}

/// Reads an optional `i64` field.
pub fn opt_i64(o: &Vec<(String, JsonValue)>, key: &str) -> (r: Result<Option<i64>, ()>)
    ensures
        match r {
            Ok(Some(x)) => opt_int_of(members_of_vec(*o), key@, i64::MIN as int, i64::MAX as int)
                == Ok::<_, ()>(Some(x as int)),
            Ok(None) => opt_int_of(members_of_vec(*o), key@, i64::MIN as int, i64::MAX as int)
                == Ok::<Option<int>, ()>(None),
            Err(e) => opt_int_of(members_of_vec(*o), key@, i64::MIN as int, i64::MAX as int)
                is Err,
        },
{
    match get_member(o, key) {
        None => Ok(None),
        Some(JsonValue::Null) => Ok(None),
        Some(v) => match int_value(v) {
            Some(i) => if i64::MIN as i128 <= i && i <= i64::MAX as i128 {
                Ok(Some(i as i64))
            } else {
                Err(())
            },
            None => Err(()),
        },
    }
}

/// Reads an optional `usize` field.
pub fn opt_usize(o: &Vec<(String, JsonValue)>, key: &str) -> (r: Result<Option<usize>, ()>)
    ensures
        match r {
            Ok(Some(x)) => opt_int_of(members_of_vec(*o), key@, 0, usize::MAX as int) == Ok::<
                _,
                (),
            >(Some(x as int)),
            Ok(None) => opt_int_of(members_of_vec(*o), key@, 0, usize::MAX as int) == Ok::<
                Option<int>,
                (),
            >(None),
            Err(e) => opt_int_of(members_of_vec(*o), key@, 0, usize::MAX as int) is Err,
        },
{
    match get_member(o, key) {
        None => Ok(None),
        Some(JsonValue::Null) => Ok(None),
        Some(v) => match int_value(v) {
            Some(i) => if 0 <= i && i <= usize::MAX as i128 {
                Ok(Some(i as usize))
            } else {
                Err(())
            },
            None => Err(()),
        },
    }
}

// ---------------------------------------------------------------------------
// Building values: optional fields render as JSON null.
// ---------------------------------------------------------------------------

/// An optional boolean as the host sees it: the value, or null.
pub open spec fn opt_bool_view(o: Option<bool>) -> JsonView {
    match o {
        Some(b) => JsonView::Bool(b),
        None => JsonView::Null,
    }
}

/// An optional `i32` as the host sees it.
pub open spec fn opt_i32_view(o: Option<i32>) -> JsonView {
    match o {
        Some(i) => JsonView::Int(i as int),
        None => JsonView::Null,
    }
}

/// An optional `i64` as the host sees it.
pub open spec fn opt_i64_view(o: Option<i64>) -> JsonView {
    match o {
        Some(i) => JsonView::Int(i as int),
        None => JsonView::Null,
    }
}

/// An optional `usize` as the host sees it.
pub open spec fn opt_usize_view(o: Option<usize>) -> JsonView {
    match o {
        Some(i) => JsonView::Int(i as int),
        None => JsonView::Null,
    }
}

/// The view of an optional owned string.
pub open spec fn view_opt_str(o: Option<String>) -> Option<Seq<char>> {
    match o {
        Some(s) => Some(s@),
        None => None,
    }
}

/// An optional string as the host sees it.
pub open spec fn opt_str_view(o: Option<Seq<char>>) -> JsonView {
    match o {
        Some(s) => JsonView::Str(s),
        None => JsonView::Null,
    }
}

/// Builds the value of an optional boolean field.
pub fn from_opt_bool(o: &Option<bool>) -> (v: JsonValue)
    ensures
        v@ == opt_bool_view(*o),
{
    match o {
        Some(b) => JsonValue::Bool(*b),
        None => JsonValue::Null,
    }
}

/// Builds the value of an optional `i32` field.
pub fn from_opt_i32(o: &Option<i32>) -> (v: JsonValue)
    ensures
        v@ == opt_i32_view(*o),
{
    match o {
        Some(i) => JsonValue::Int(*i as i64),
        None => JsonValue::Null,
    }
}

/// Builds the value of an optional `i64` field.
pub fn from_opt_i64(o: &Option<i64>) -> (v: JsonValue)
    ensures
        v@ == opt_i64_view(*o),
{
    match o {
        Some(i) => JsonValue::Int(*i),
        None => JsonValue::Null,
    }
}

/// Builds the value of an optional `usize` field.
pub fn from_opt_usize(o: &Option<usize>) -> (v: JsonValue)
    ensures
        v@ == opt_usize_view(*o),
{
    match o {
        Some(i) => JsonValue::UInt(*i as u64),
        None => JsonValue::Null,
    }
}

/// Builds the value of an optional string field.
pub fn from_opt_str(o: &Option<String>) -> (v: JsonValue)
    ensures
        v@ == opt_str_view(match *o {
            Some(ref s) => Some(s@),
            None => None,
        }),
{
    match o {
        Some(s) => JsonValue::Str(s.clone()),
        None => JsonValue::Null,
    }
}

/// The views of a list of strings.
pub open spec fn str_views(s: Seq<Seq<char>>) -> Seq<JsonView>
    decreases s.len(),
{
    if s.len() == 0 {
        Seq::empty()
    } else {
        seq![JsonView::Str(s[0])] + str_views(s.drop_first())
    }
}

pub proof fn lemma_str_views(s: Seq<Seq<char>>)
    ensures
        str_views(s).len() == s.len(),
        forall|i: int| 0 <= i < s.len() ==> str_views(s)[i] == JsonView::Str(s[i]),
    decreases s.len(),
{
    if s.len() > 0 {
        lemma_str_views(s.drop_first());
    }
}

/// Builds an array of strings.
pub fn from_str_vec(items: &Vec<String>) -> (v: JsonValue)
    ensures
        v@ == JsonView::Arr(str_views(items.deep_view())),
{
    let mut out: Vec<JsonValue> = Vec::new();
    let n = items.len();
    let mut k: usize = 0;
    while k < n
        invariant
            n == items@.len(),
            0 <= k <= n,
            out@.len() == k,
            forall|i: int| 0 <= i < k ==> out@[i] == JsonValue::Str(items@[i]),
        decreases n - k,
    {
        out.push(JsonValue::Str(items[k].clone()));
        k = k + 1;
    }
    let v = JsonValue::Arr(out);
    proof {
        let ghost vs = v->Arr_0;
        lemma_views_of_seq(vs@);
        lemma_str_views(items.deep_view());
        assert(items.deep_view().len() == items@.len());
        assert forall|i: int| 0 <= i < vs@.len() implies views_of_seq(vs@)[i] == str_views(
            items.deep_view(),
        )[i] by {
            assert(views_of_seq(vs@)[i] == view_of(vs@[i]));
            assert(items.deep_view()[i] == items@[i]@);
        }
        assert(views_of_seq(vs@) =~= str_views(items.deep_view()));
    }
    v
}

} // verus!


