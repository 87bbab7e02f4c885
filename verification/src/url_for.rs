//! Addresses made from a pattern with named places and a list of fields.
//!
//! A pattern is text in which `{name}` marks a place. Each place takes the
//! value of the field of that name; the fields that no place names follow as
//! a query string. Values, and the names in the query string, are
//! percent-encoded.

use vstd::prelude::*;
use vstd::string::StringExecFns;
use vstd::utf8::encode_utf8;
use crate::text::{
    copy_range, find_char, first_position, lemma_first_position, lemma_first_position_unique,
    push_char,
};

verus! {

/// Fields as plain text: names with their values, in the order in which the
/// names were first bound.
pub type FieldsView = Seq<(Seq<char>, Seq<char>)>;

/// The names of the fields, in order.
pub open spec fn field_names(fields: FieldsView) -> Seq<Seq<char>> {
    fields.map_values(|field: (Seq<char>, Seq<char>)| field.0)
}

/// The value bound to `name`, if any.
pub open spec fn lookup(fields: FieldsView, name: Seq<char>) -> Option<Seq<char>> {
    let at = first_position(field_names(fields), name);
    if 0 <= at < fields.len() {
        Some(fields[at].1)
    } else {
        None
    }
}

/// The fields after `name` was bound to `value`: a name that was bound
/// before keeps its place and gets the new value, a new name goes to the
/// end.
pub open spec fn bind(fields: FieldsView, name: Seq<char>, value: Seq<char>) -> FieldsView {
    let at = first_position(field_names(fields), name);
    if 0 <= at < fields.len() {
        fields.update(at, (name, value))
    } else {
        fields.push((name, value))
    }
}

/// The fields after each of `more` was bound, in order.
pub open spec fn bind_all(fields: FieldsView, more: FieldsView) -> FieldsView
    decreases more.len(),
{
    if more.len() == 0 {
        fields
    } else {
        bind(bind_all(fields, more.drop_last()), more.last().0, more.last().1)
    }
}

/// No name is bound twice.
pub open spec fn names_distinct(fields: FieldsView) -> bool {
    forall|i: int, j: int|
        0 <= i < j < fields.len() ==> (#[trigger] fields[i]).0 != (#[trigger] fields[j]).0
}

/// After a name was bound it has the value given, every other name has what
/// it had, and names that were distinct stay so.
pub proof fn lemma_bind(fields: FieldsView, name: Seq<char>, value: Seq<char>, other: Seq<char>)
    ensures
        lookup(bind(fields, name, value), name) == Some(value),
        other != name ==> lookup(bind(fields, name, value), other) == lookup(fields, other),
        names_distinct(fields) ==> names_distinct(bind(fields, name, value)),
{
    let names = field_names(fields);
    let bound = bind(fields, name, value);
    let bound_names = field_names(bound);
    let at = first_position(names, name);
    lemma_first_position(names, name);
    lemma_first_position(names, other);
    let other_at = first_position(names, other);
    if at < fields.len() {
        assert(bound_names =~= names);
        assert(bound_names[other_at] == names[other_at]);
    } else {
        assert(bound_names =~= names.push(name));
        lemma_first_position_unique(bound_names, name, at);
        if other != name {
            if other_at < names.len() {
                lemma_first_position_unique(bound_names, other, other_at);
            } else {
                lemma_first_position_unique(bound_names, other, bound_names.len() as int);
            }
        }
        if names_distinct(fields) {
            assert forall|i: int, j: int| 0 <= i < j < bound.len() implies (#[trigger] bound[i]).0
                != (#[trigger] bound[j]).0 by {
                if j == fields.len() {
                    assert(names[i] != name);
                }
            }
        }
    }
    if at < fields.len() && names_distinct(fields) {
        assert forall|i: int, j: int| 0 <= i < j < bound.len() implies (#[trigger] bound[i]).0
            != (#[trigger] bound[j]).0 by {
            assert(bound[i].0 == fields[i].0);
            assert(bound[j].0 == fields[j].0);
        }
    }
}

/// Whether a byte stands for itself in an address: a letter, a digit, or
/// one of `-`, `.`, `_` and `~`.
pub open spec fn is_unreserved(byte: u8) -> bool {
    ||| 0x30 <= byte <= 0x39
    ||| 0x41 <= byte <= 0x5a
    ||| 0x61 <= byte <= 0x7a
    ||| byte == 0x2d
    ||| byte == 0x2e
    ||| byte == 0x5f
    ||| byte == 0x7e
}

/// The upper-case hexadecimal digit of a number below sixteen.
pub open spec fn hex_digit(nibble: u8) -> char {
    if nibble < 10 {
        (0x30 + nibble) as u8 as char
    } else {
        (0x37 + nibble) as u8 as char
    }
}

/// A byte as it stands in an address: itself where it is unreserved, else
/// `%` and its two hexadecimal digits.
pub open spec fn escape_byte(byte: u8) -> Seq<char> {
    if is_unreserved(byte) {
        seq![byte as char]
    } else {
        seq!['%', hex_digit(byte / 16), hex_digit(byte % 16)]
    }
}

/// Bytes as they stand in an address, one after the other.
pub open spec fn escape_bytes(bytes: Seq<u8>) -> Seq<char>
    decreases bytes.len(),
{
    if bytes.len() == 0 {
        Seq::empty()
    } else {
        escape_bytes(bytes.drop_last()) + escape_byte(bytes.last())
    }
}

/// Text as it stands in an address: the bytes of its UTF-8 form,
/// percent-encoded.
pub open spec fn escape(text: Seq<char>) -> Seq<char> {
    escape_bytes(encode_utf8(text))
}

fn hex_digit_of(nibble: u8) -> (digit: char)
    requires
        nibble < 16,
    ensures
        digit == hex_digit(nibble),
{
    if nibble < 10 {
        (0x30 + nibble) as char
    } else {
        (0x37 + nibble) as char
    }
}

fn is_unreserved_byte(byte: u8) -> (plain: bool)
    ensures
        plain == is_unreserved(byte),
{
    (0x30 <= byte && byte <= 0x39) || (0x41 <= byte && byte <= 0x5a) || (0x61 <= byte && byte
        <= 0x7a) || byte == 0x2d || byte == 0x2e || byte == 0x5f || byte == 0x7e
}

/// Appends `text`, percent-encoded, to `out`.
pub fn append_escaped(out: &mut String, text: &str)
    ensures
        final(out)@ == old(out)@ + escape(text@),
{
    let bytes = text.as_bytes();
    let mut at: usize = 0;
    assert(bytes@.take(0) =~= Seq::<u8>::empty());
    assert(out@ =~= old(out)@ + escape_bytes(bytes@.take(0)));
    while at < bytes.len()
        invariant
            at <= bytes.len(),
            bytes@ == encode_utf8(text@),
            out@ == old(out)@ + escape_bytes(bytes@.take(at as int)),
        decreases bytes.len() - at,
    {
        let byte = bytes[at];
        let ghost earlier = out@;
        if is_unreserved_byte(byte) {
            push_char(out, byte as char);
        } else {
            push_char(out, '%');
            push_char(out, hex_digit_of(byte / 16));
            push_char(out, hex_digit_of(byte % 16));
        }
        proof {
            let next = bytes@.take(at + 1);
            assert(next.drop_last() =~= bytes@.take(at as int));
            assert(next.last() == byte);
            assert(out@ =~= earlier + escape_byte(byte));
            assert(out@ =~= old(out)@ + escape_bytes(next));
        }
        at += 1;
    }
    assert(bytes@.take(at as int) =~= bytes@);
}

/// Why no address could be made.
#[derive(Clone, Debug, PartialEq, Eq)]
pub enum UrlError {
    /// No static file is known under this name.
    UnknownStaticFile(String),
    /// The pattern has a place of this name, and no field of that name was
    /// given.
    MissingField(String),
    /// The pattern opens a place with `{` and never closes it.
    UnclosedPlace,
}

/// What a [`UrlError`] holds, as plain text.
pub enum UrlErrorView {
    UnknownStaticFile(Seq<char>),
    MissingField(Seq<char>),
    UnclosedPlace,
}

impl View for UrlError {
    type V = UrlErrorView;

    open spec fn view(&self) -> UrlErrorView {
        match self {
            UrlError::UnknownStaticFile(name) => UrlErrorView::UnknownStaticFile(name@),
            UrlError::MissingField(name) => UrlErrorView::MissingField(name@),
            UrlError::UnclosedPlace => UrlErrorView::UnclosedPlace,
        }
    }
}

/// The view of an address or of the error in its place.
pub open spec fn outcome_view(outcome: Result<String, UrlError>) -> Result<
    Seq<char>,
    UrlErrorView,
> {
    match outcome {
        Ok(address) => Ok(address@),
        Err(error) => Err(error@),
    }
}

/// `tail` with `prefix` put before it, where `tail` is text.
pub open spec fn prefixed(prefix: Seq<char>, tail: Result<Seq<char>, UrlErrorView>) -> Result<
    Seq<char>,
    UrlErrorView,
> {
    match tail {
        Ok(text) => Ok(prefix + text),
        Err(error) => Err(error),
    }
}

/// The pattern with each place filled by the encoded value of its field.
/// The first place, from the left, that is not closed or whose field is
/// missing gives the error.
pub open spec fn fill(pattern: Seq<char>, fields: FieldsView) -> Result<Seq<char>, UrlErrorView>
    decreases pattern.len(),
{
    let open = first_position(pattern, '{');
    if 0 <= open < pattern.len() {
        let inner = pattern.skip(open + 1);
        let close = first_position(inner, '}');
        if 0 <= close < inner.len() {
            let name = inner.take(close);
            match lookup(fields, name) {
                Some(value) => prefixed(
                    pattern.take(open) + escape(value),
                    fill(inner.skip(close + 1), fields),
                ),
                None => Err(UrlErrorView::MissingField(name)),
            }
        } else {
            Err(UrlErrorView::UnclosedPlace)
        }
    } else {
        Ok(pattern)
    }
}

/// The names of the places of a pattern, from the left, up to the first
/// place that is not closed.
pub open spec fn place_names(pattern: Seq<char>) -> Seq<Seq<char>>
    decreases pattern.len(),
{
    let open = first_position(pattern, '{');
    if 0 <= open < pattern.len() {
        let inner = pattern.skip(open + 1);
        let close = first_position(inner, '}');
        if 0 <= close < inner.len() {
            seq![inner.take(close)] + place_names(inner.skip(close + 1))
        } else {
            Seq::empty()
        }
    } else {
        Seq::empty()
    }
}

/// The query string of the fields whose names are not among `used`, in the
/// order of the fields: `?` before the first, `&` before each other, and
/// `=` between a name and its value. It is empty where no field is left.
pub open spec fn query(fields: FieldsView, used: Seq<Seq<char>>) -> Seq<char>
    decreases fields.len(),
{
    if fields.len() == 0 {
        Seq::empty()
    } else {
        let before = query(fields.drop_last(), used);
        let field = fields.last();
        if used.contains(field.0) {
            before
        } else {
            before + seq![if before.len() == 0 { '?' } else { '&' }] + escape(field.0) + seq!['=']
                + escape(field.1)
        }
    }
}

/// The address that a pattern and fields make: the filled pattern, then the
/// query string of the fields that no place of the pattern names.
pub open spec fn address(pattern: Seq<char>, fields: FieldsView) -> Result<
    Seq<char>,
    UrlErrorView,
> {
    match fill(pattern, fields) {
        Ok(path) => Ok(path + query(fields, place_names(pattern))),
        Err(error) => Err(error),
    }
}

/// Pairs of string slices as plain text.
pub open spec fn pair_views(pairs: Seq<(&str, &str)>) -> FieldsView {
    pairs.map_values(|pair: (&str, &str)| (pair.0@, pair.1@))
}

/// Makes an address from a pattern and fields.
pub struct UrlConstructor {
    pattern: String,
    fields: Vec<(String, String)>,
}

/// What a [`UrlConstructor`] holds, as plain text.
pub struct UrlConstructorView {
    pub pattern: Seq<char>,
    pub fields: FieldsView,
}

impl View for UrlConstructor {
    type V = UrlConstructorView;

    closed spec fn view(&self) -> UrlConstructorView {
        UrlConstructorView { pattern: self.pattern@, fields: self.fields.deep_view() }
    }
}

/// Whether `name` is among `names`.
fn holds_name(names: &Vec<String>, name: &String) -> (found: bool)
    ensures
        found == names.deep_view().contains(name@),
{
    let mut at: usize = 0;
    while at < names.len()
        invariant
            at <= names.len(),
            forall|i: int| 0 <= i < at ==> names.deep_view()[i] != name@,
        decreases names.len() - at,
    {
        if names[at] == *name {
            assert(names.deep_view()[at as int] == name@);
            return true;
        }
        at += 1;
    }
    false
}

/// The place of the field called `name` among `fields`, or their number
/// where there is none.
fn field_position(fields: &Vec<(String, String)>, name: &String) -> (at: usize)
    ensures
        at == first_position(field_names(fields.deep_view()), name@),
        at <= fields.len(),
{
    let ghost names = field_names(fields.deep_view());
    let mut at: usize = 0;
    while at < fields.len()
        invariant
            at <= fields.len(),
            names == field_names(fields.deep_view()),
            forall|i: int| 0 <= i < at ==> names[i] != name@,
        decreases fields.len() - at,
    {
        if fields[at].0 == *name {
            proof {
                assert(names[at as int] == name@);
                lemma_first_position_unique(names, name@, at as int);
            }
            return at;
        }
        at += 1;
    }
    proof {
        lemma_first_position_unique(names, name@, at as int);
    }
    at
}

impl UrlConstructor {
    /// A constructor for `pattern`, without fields.
    pub fn new(pattern: &str) -> (constructor: UrlConstructor)
        ensures
            constructor@.pattern == pattern@,
            constructor@.fields == Seq::<(Seq<char>, Seq<char>)>::empty(),
    {
        let constructor = UrlConstructor { pattern: pattern.to_owned(), fields: Vec::new() };
        assert(constructor@.fields =~= Seq::<(Seq<char>, Seq<char>)>::empty());
        constructor
    }

    /// Binds `name` to `value`, in place of a value bound to it before.
    pub fn with_field(self, name: &str, value: &str) -> (constructor: UrlConstructor)
        ensures
            constructor@.pattern == self@.pattern,
            constructor@.fields == bind(self@.fields, name@, value@),
    {
        let mut constructor = self;
        let name = name.to_owned();
        let at = field_position(&constructor.fields, &name);
        if at < constructor.fields.len() {
            constructor.fields.set(at, (name, value.to_owned()));
        } else {
            constructor.fields.push((name, value.to_owned()));
        }
        assert(constructor@.fields =~= bind(self@.fields, name@, value@));
        constructor
    }

    /// Binds each name of `fields` to its value, in order.
    pub fn with_fields(self, fields: &[(&str, &str)]) -> (constructor: UrlConstructor)
        ensures
            constructor@.pattern == self@.pattern,
            constructor@.fields == bind_all(self@.fields, pair_views(fields@)),
    {
        let mut constructor = self;
        let ghost pairs = pair_views(fields@);
        let mut at: usize = 0;
        assert(pairs.take(0) =~= Seq::<(Seq<char>, Seq<char>)>::empty());
        while at < fields.len()
            invariant
                at <= fields.len(),
                pairs == pair_views(fields@),
                constructor@.pattern == self@.pattern,
                constructor@.fields == bind_all(self@.fields, pairs.take(at as int)),
            decreases fields.len() - at,
        {
            let field = fields[at];
            constructor = constructor.with_field(field.0, field.1);
            proof {
                let next = pairs.take(at + 1);
                assert(next.drop_last() =~= pairs.take(at as int));
                assert(next.last() == (field.0@, field.1@));
            }
            at += 1;
        }
        assert(pairs.take(at as int) =~= pairs);
        constructor
    }

    /// Binds each name of `fields` to its value, in order, as `with_fields`
    /// does, for fields that are held as strings.
    pub fn with_owned_fields(self, fields: &Vec<(String, String)>) -> (constructor:
        UrlConstructor)
        ensures
            constructor@.pattern == self@.pattern,
            constructor@.fields == bind_all(self@.fields, fields.deep_view()),
    {
        let mut constructor = self;
        let ghost pairs = fields.deep_view();
        let mut at: usize = 0;
        assert(pairs.take(0) =~= Seq::<(Seq<char>, Seq<char>)>::empty());
        while at < fields.len()
            invariant
                at <= fields.len(),
                pairs == fields.deep_view(),
                constructor@.pattern == self@.pattern,
                constructor@.fields == bind_all(self@.fields, pairs.take(at as int)),
            decreases fields.len() - at,
        {
            let field = &fields[at];
            constructor = constructor.with_field(field.0.as_str(), field.1.as_str());
            proof {
                let next = pairs.take(at + 1);
                assert(next.drop_last() =~= pairs.take(at as int));
                assert(next.last() == (field.0@, field.1@));
            }
            at += 1;
        }
        assert(pairs.take(at as int) =~= pairs);
        constructor
    }

    /// Makes the address: the pattern with its places filled, then the
    /// fields that no place names as the query string.
    pub fn construct(&self) -> (outcome: Result<String, UrlError>)
        ensures
            outcome_view(outcome) == address(self@.pattern, self@.fields),
    {
        let ghost pattern = self.pattern@;
        let ghost fields = self.fields.deep_view();
        let mut out = String::new();
        let mut used: Vec<String> = Vec::new();
        let mut rest: &str = self.pattern.as_str();
        assert(used.deep_view() + place_names(rest@) =~= place_names(pattern));
        assert(out@ + rest@ =~= rest@);
        loop
            invariant_except_break
                pattern == self.pattern@,
                fields == self.fields.deep_view(),
                fill(pattern, fields) == prefixed(out@, fill(rest@, fields)),
                place_names(pattern) == used.deep_view() + place_names(rest@),
            ensures
                fields == self.fields.deep_view(),
                fill(pattern, fields) == Ok::<Seq<char>, UrlErrorView>(out@),
                place_names(pattern) == used.deep_view(),
            decreases rest@.len(),
        {
            let length = rest.unicode_len();
            let open = find_char(rest, '{');
            if open >= length {
                out.append(rest);
                assert(used.deep_view() + place_names(rest@) =~= used.deep_view());
                break ;
            }
            let inner = rest.substring_char(open + 1, length);
            assert(inner@ =~= rest@.skip(open + 1));
            let inner_length = length - open - 1;
            let close = find_char(inner, '}');
            if close >= inner_length {
                return Err(UrlError::UnclosedPlace);
            }
            let name = copy_range(inner, 0, close);
            assert(name@ =~= inner@.take(close as int));
            let at = field_position(&self.fields, &name);
            if at >= self.fields.len() {
                return Err(UrlError::MissingField(name));
            }
            let ghost earlier = out@;
            let ghost earlier_used = used.deep_view();
            out.append(rest.substring_char(0, open));
            append_escaped(&mut out, self.fields[at].1.as_str());
            used.push(name);
            let tail = inner.substring_char(close + 1, inner_length);
            proof {
                assert(tail@ =~= inner@.skip(close + 1));
                assert(rest@.subrange(0, open as int) =~= rest@.take(open as int));
                let value = fields[at as int].1;
                assert(lookup(fields, name@) == Some(value));
                assert(out@ =~= earlier + (rest@.take(open as int) + escape(value)));
                lemma_prefixed_twice(
                    earlier,
                    rest@.take(open as int) + escape(value),
                    fill(tail@, fields),
                );
                assert(used.deep_view() =~= earlier_used + seq![name@]);
                assert(used.deep_view() + place_names(tail@) =~= earlier_used + (seq![name@]
                    + place_names(tail@)));
            }
            rest = tail;
        }
        let mut tail = String::new();
        let mut at: usize = 0;
        assert(fields.take(0) =~= Seq::<(Seq<char>, Seq<char>)>::empty());
        while at < self.fields.len()
            invariant
                at <= self.fields.len(),
                fields == self.fields.deep_view(),
                tail@ == query(fields.take(at as int), used.deep_view()),
            decreases self.fields.len() - at,
        {
            let field = &self.fields[at];
            let ghost earlier = tail@;
            proof {
                let next = fields.take(at + 1);
                assert(next.drop_last() =~= fields.take(at as int));
                assert(next.last() == (field.0@, field.1@));
            }
            if !holds_name(&used, &field.0) {
                if tail.as_str().is_empty() {
                    push_char(&mut tail, '?');
                } else {
                    push_char(&mut tail, '&');
                }
                append_escaped(&mut tail, field.0.as_str());
                push_char(&mut tail, '=');
                append_escaped(&mut tail, field.1.as_str());
                assert(tail@ =~= earlier + seq![if earlier.len() == 0 { '?' } else { '&' }]
                    + escape(field.0@) + seq!['='] + escape(field.1@));
            }
            at += 1;
        }
        assert(fields.take(at as int) =~= fields);
        out.append(tail.as_str());
        Ok(out)
    }
}

/// A prefix put before a prefixed text joins the other prefix.
proof fn lemma_prefixed_twice(
    first: Seq<char>,
    second: Seq<char>,
    tail: Result<Seq<char>, UrlErrorView>,
)
    ensures
        prefixed(first, prefixed(second, tail)) == prefixed(first + second, tail),
{
    if tail is Ok {
        assert(first + (second + tail->Ok_0) =~= (first + second) + tail->Ok_0);
    }
}

} // verus!
