use vstd::prelude::*;
use vstd::string::*;
use crate::json::{lemma_array_view, lemma_object_view, Json, JsonView};
use crate::text::same_text;

verus! {

/// What kind of value a JSON tree is at its root.
#[derive(Clone, Copy, Debug, PartialEq, Eq, Structural)]
pub enum JsonKind {
    Null,
    Bool,
    Int,
    Fraction,
    Str,
    Array,
    Object,
}

/// What a decoder asks of the value it is handed.
#[derive(Clone, Copy, Debug, PartialEq, Eq, Structural)]
pub enum Shape {
    Bool,
    U8,
    I32,
    U32,
    Text,
    Array,
    Object,
}

/// Why a JSON tree could not be decoded into a record.
#[derive(Debug, PartialEq, Eq)]
pub enum DecodeError {
    /// A required key is absent from an object.
    MissingField { name: String },
    /// The value under `field` has another shape than the one declared.
    TypeMismatch { field: String, expected: Shape, got: JsonKind },
    /// A wire string that is no member of the enumeration `enum_name`.
    UnknownVariant { value: String, enum_name: String },
    /// The text under `field` is no RFC 3339 timestamp.
    InvalidTimestamp { field: String, value: String },
}

/// The mathematical value of a `DecodeError`.
pub enum DecodeErrorView {
    MissingField { name: Seq<char> },
    TypeMismatch { field: Seq<char>, expected: Shape, got: JsonKind },
    UnknownVariant { value: Seq<char>, enum_name: Seq<char> },
    InvalidTimestamp { field: Seq<char>, value: Seq<char> },
}

impl View for DecodeError {
    type V = DecodeErrorView;

    open spec fn view(&self) -> DecodeErrorView {
        match self {
            DecodeError::MissingField { name } => DecodeErrorView::MissingField { name: name@ },
            DecodeError::TypeMismatch { field, expected, got } => DecodeErrorView::TypeMismatch {
                field: field@,
                expected: *expected,
                got: *got,
            },
            DecodeError::UnknownVariant { value, enum_name } => DecodeErrorView::UnknownVariant {
                value: value@,
                enum_name: enum_name@,
            },
            DecodeError::InvalidTimestamp { field, value } => DecodeErrorView::InvalidTimestamp {
                field: field@,
                value: value@,
            },
        }
    }
}

/// The kind of a tree's root.
pub open spec fn kind_of(j: JsonView) -> JsonKind {
    match j {
        JsonView::Null => JsonKind::Null,
        JsonView::Bool(_) => JsonKind::Bool,
        JsonView::Int(_) => JsonKind::Int,
        JsonView::Fraction => JsonKind::Fraction,
        JsonView::Str(_) => JsonKind::Str,
        JsonView::Array(_) => JsonKind::Array,
        JsonView::Object(_) => JsonKind::Object,
    }
}

/// The failure of a value under `field` that is not of the shape `expected`.
pub open spec fn mismatch(j: JsonView, field: Seq<char>, expected: Shape) -> DecodeErrorView {
    DecodeErrorView::TypeMismatch { field, expected, got: kind_of(j) }
}

/// The value of the first entry at or after `start` whose key is `key`.
pub open spec fn lookup_from(entries: Seq<(Seq<char>, JsonView)>, key: Seq<char>, start: int) -> Option<JsonView>
    decreases entries.len() - start,
{
    if start < 0 || start >= entries.len() {
        None
    } else if entries[start].0 == key {
        Some(entries[start].1)
    } else {
        lookup_from(entries, key, start + 1)
    }
}

/// The value of the first entry whose key is `key`.
pub open spec fn lookup(entries: Seq<(Seq<char>, JsonView)>, key: Seq<char>) -> Option<JsonView> {
    lookup_from(entries, key, 0)
}

/// From `start` on, a key that is looked up is found where it was before an
/// entry with another key was added at the end.
proof fn lemma_lookup_from_ignores(entries: Seq<(Seq<char>, JsonView)>, extra: (Seq<char>, JsonView), key: Seq<char>, start: int)
    requires
        extra.0 != key,
        0 <= start,
    ensures
        lookup_from(entries.push(extra), key, start) == lookup_from(entries, key, start),
    decreases entries.len() - start,
{
    if start < entries.len() {
        assert(entries.push(extra)[start] == entries[start]);
        if entries[start].0 != key {
            lemma_lookup_from_ignores(entries, extra, key, start + 1);
        }
    } else if start == entries.len() {
        assert(entries.push(extra)[start] == extra);
        assert(lookup_from(entries.push(extra), key, start + 1) is None);
    }
}

/// An entry with another key does not change what is found under a key: a
/// decoder sees nothing of the keys it does not ask for.
pub proof fn lemma_lookup_ignores_other_keys(entries: Seq<(Seq<char>, JsonView)>, extra: (Seq<char>, JsonView), key: Seq<char>)
    requires
        extra.0 != key,
    ensures
        lookup(entries.push(extra), key) == lookup(entries, key),
{
    lemma_lookup_from_ignores(entries, extra, key, 0);
}

impl Json {
    /// The kind of this value.
    pub fn kind(&self) -> (k: JsonKind)
        ensures
            k == kind_of(self@),
    {
        match self {
            Json::Null => JsonKind::Null,
            Json::Bool(_) => JsonKind::Bool,
            Json::Int(_) => JsonKind::Int,
            Json::Fraction => JsonKind::Fraction,
            Json::Str(_) => JsonKind::Str,
            Json::Array(_) => JsonKind::Array,
            Json::Object(_) => JsonKind::Object,
        }
    }

    /// The value under `key`, where this is an object that has the key.
    pub fn get(&self, key: &str) -> (r: Option<&Json>)
        ensures
            match r {
                Some(j) => self@ is Object && lookup(self@->Object_0, key@) == Some(j@),
                None => !(self@ is Object) || lookup(self@->Object_0, key@) is None,
            },
    {
        match self {
            Json::Object(entries) => {
                proof {
                    lemma_object_view(*entries);
                }
                let mut i: usize = 0;
                while i < entries.len()
                    invariant
                        i <= entries@.len(),
                        self@ is Object,
                        self@->Object_0.len() == entries@.len(),
                        forall|k: int| 0 <= k < entries@.len() ==> {
                            &&& (#[trigger] self@->Object_0[k]).0 == entries@[k].0@
                            &&& self@->Object_0[k].1 == entries@[k].1@
                        },
                        lookup(self@->Object_0, key@) == lookup_from(self@->Object_0, key@, i as int),
                    decreases entries@.len() - i,
                {
                    if same_text(entries[i].0.as_str(), key) {
                        return Some(&entries[i].1);
                    }
                    i = i + 1;
                }
                None
            },
            _ => None,
        }
    }
}

/// Builds the failure for a value that is not of the shape `expected`.
pub fn mismatch_error(j: &Json, field: &str, expected: Shape) -> (e: DecodeError)
    ensures
        e@ == mismatch(j@, field@, expected),
{
    DecodeError::TypeMismatch { field: field.to_owned(), expected, got: j.kind() }
}

/// A type that can be decoded from a JSON tree.
pub trait FromJson: Sized {
    /// The mathematical value of a decoded item.
    type Model;

    /// The mathematical value of this item.
    spec fn model(&self) -> Self::Model;

    /// What decoding the tree `j`, found under the key `field`, yields.
    spec fn parsed(j: JsonView, field: Seq<char>) -> Result<Self::Model, DecodeErrorView>;

    /// Decodes the tree `j`, found under the key `field`.
    fn from_json(j: &Json, field: &str) -> (r: Result<Self, DecodeError>)
        ensures
            match r {
                Ok(v) => Self::parsed(j@, field@) == Ok::<Self::Model, DecodeErrorView>(v.model()),
                Err(e) => Self::parsed(j@, field@) == Err::<Self::Model, DecodeErrorView>(e@),
            },
    ;
}

/// The mathematical value of a decoder's result.
pub open spec fn decoded<T: FromJson>(r: Result<T, DecodeError>) -> Result<T::Model, DecodeErrorView> {
    match r {
        Ok(v) => Ok(v.model()),
        Err(e) => Err(e@),
    }
}

impl FromJson for bool {
    type Model = bool;

    open spec fn model(&self) -> bool {
        *self
    }

    open spec fn parsed(j: JsonView, field: Seq<char>) -> Result<bool, DecodeErrorView> {
        match j {
            JsonView::Bool(b) => Ok(b),
            _ => Err(mismatch(j, field, Shape::Bool)),
        }
    }

    fn from_json(j: &Json, field: &str) -> (r: Result<bool, DecodeError>) {
        match j {
            Json::Bool(b) => Ok(*b),
            _ => Err(mismatch_error(j, field, Shape::Bool)),
        }
    }
}

impl FromJson for u8 {
    type Model = u8;

    open spec fn model(&self) -> u8 {
        *self
    }

    open spec fn parsed(j: JsonView, field: Seq<char>) -> Result<u8, DecodeErrorView> {
        match j {
            JsonView::Int(n) if 0 <= n <= u8::MAX => Ok(n as u8),
            _ => Err(mismatch(j, field, Shape::U8)),
        }
    }

    fn from_json(j: &Json, field: &str) -> (r: Result<u8, DecodeError>) {
        match j {
            Json::Int(n) if 0 <= *n && *n <= 255 => Ok(*n as u8),
            _ => Err(mismatch_error(j, field, Shape::U8)),
        }
    }
}

impl FromJson for i32 {
    type Model = i32;

    open spec fn model(&self) -> i32 {
        *self
    }

    open spec fn parsed(j: JsonView, field: Seq<char>) -> Result<i32, DecodeErrorView> {
        match j {
            JsonView::Int(n) if i32::MIN <= n <= i32::MAX => Ok(n as i32),
            _ => Err(mismatch(j, field, Shape::I32)),
        }
    }

    fn from_json(j: &Json, field: &str) -> (r: Result<i32, DecodeError>) {
        match j {
            Json::Int(n) if -2147483648 <= *n && *n <= 2147483647 => Ok(*n as i32),
            _ => Err(mismatch_error(j, field, Shape::I32)),
        }
    }
}

impl FromJson for u32 {
    type Model = u32;

    open spec fn model(&self) -> u32 {
        *self
    }

    open spec fn parsed(j: JsonView, field: Seq<char>) -> Result<u32, DecodeErrorView> {
        match j {
            JsonView::Int(n) if 0 <= n <= u32::MAX => Ok(n as u32),
            _ => Err(mismatch(j, field, Shape::U32)),
        }
    }

    fn from_json(j: &Json, field: &str) -> (r: Result<u32, DecodeError>) {
        match j {
            Json::Int(n) if 0 <= *n && *n <= 4294967295 => Ok(*n as u32),
            _ => Err(mismatch_error(j, field, Shape::U32)),
        }
    }
}

impl FromJson for String {
    type Model = Seq<char>;

    open spec fn model(&self) -> Seq<char> {
        self@
    }

    open spec fn parsed(j: JsonView, field: Seq<char>) -> Result<Seq<char>, DecodeErrorView> {
        match j {
            JsonView::Str(s) => Ok(s),
            _ => Err(mismatch(j, field, Shape::Text)),
        }
    }

    fn from_json(j: &Json, field: &str) -> (r: Result<String, DecodeError>) {
        match j {
            Json::Str(s) => Ok(s.clone()),
            _ => Err(mismatch_error(j, field, Shape::Text)),
        }
    }
}

impl<T: FromJson> FromJson for Option<T> {
    type Model = Option<T::Model>;

    open spec fn model(&self) -> Option<T::Model> {
        match self {
            Some(v) => Some(v.model()),
            None => None,
        }
    }

    open spec fn parsed(j: JsonView, field: Seq<char>) -> Result<Option<T::Model>, DecodeErrorView> {
        match j {
            JsonView::Null => Ok(None),
            _ => match T::parsed(j, field) {
                Ok(m) => Ok(Some(m)),
                Err(e) => Err(e),
            },
        }
    }

    fn from_json(j: &Json, field: &str) -> (r: Result<Option<T>, DecodeError>) {
        match j {
            Json::Null => Ok(None),
            _ => match T::from_json(j, field) {
                Ok(v) => Ok(Some(v)),
                Err(e) => Err(e),
            },
        }
    }
}

/// What decoding the first `n` of `items` yields: their values in order, or
/// the failure of the first that fails.
pub open spec fn parsed_items<T: FromJson>(items: Seq<JsonView>, field: Seq<char>, n: int) -> Result<Seq<T::Model>, DecodeErrorView>
    decreases n,
{
    if n <= 0 {
        Ok(Seq::empty())
    } else {
        match parsed_items::<T>(items, field, n - 1) {
            Err(e) => Err(e),
            Ok(before) => match T::parsed(items[n - 1], field) {
                Err(e) => Err(e),
                Ok(m) => Ok(before.push(m)),
            },
        }
    }
}

/// Once a prefix fails to decode, every longer prefix fails in the same way.
pub proof fn lemma_failure_stays<T: FromJson>(items: Seq<JsonView>, field: Seq<char>, n: int, m: int)
    requires
        0 <= n <= m,
        parsed_items::<T>(items, field, n) is Err,
    ensures
        parsed_items::<T>(items, field, m) == parsed_items::<T>(items, field, n),
    decreases m - n,
{
    if n < m {
        lemma_failure_stays::<T>(items, field, n, m - 1);
    }
}

/// A sequence that decodes holds, item for item and in the order of the
/// wire, what each item decodes to.
pub proof fn lemma_items_in_wire_order<T: FromJson>(items: Seq<JsonView>, field: Seq<char>, n: int)
    requires
        0 <= n <= items.len(),
        parsed_items::<T>(items, field, n) is Ok,
    ensures
        parsed_items::<T>(items, field, n)->Ok_0.len() == n,
        forall|i: int| 0 <= i < n ==> T::parsed(#[trigger] items[i], field) == Ok::<T::Model, DecodeErrorView>(
            parsed_items::<T>(items, field, n)->Ok_0[i],
        ),
    decreases n,
{
    if n > 0 {
        lemma_items_in_wire_order::<T>(items, field, n - 1);
    }
}

/// A sequence that does not decode fails as its first failing item does.
pub proof fn lemma_first_failure<T: FromJson>(items: Seq<JsonView>, field: Seq<char>, n: int) -> (i: int)
    requires
        0 <= n <= items.len(),
        parsed_items::<T>(items, field, n) is Err,
    ensures
        0 <= i < n,
        T::parsed(items[i], field) == Err::<T::Model, DecodeErrorView>(parsed_items::<T>(items, field, n)->Err_0),
        forall|k: int| 0 <= k < i ==> (#[trigger] T::parsed(items[k], field)) is Ok,
    decreases n,
{
    if parsed_items::<T>(items, field, n - 1) is Err {
        lemma_first_failure::<T>(items, field, n - 1)
    } else {
        lemma_items_in_wire_order::<T>(items, field, n - 1);
        n - 1
    }
}

/// The mathematical values of the items of `v`, in order.
pub open spec fn models<T: FromJson>(v: Seq<T>) -> Seq<T::Model> {
    Seq::new(v.len(), |i: int| v[i].model())
}

impl<T: FromJson> FromJson for Vec<T> {
    type Model = Seq<T::Model>;

    open spec fn model(&self) -> Seq<T::Model> {
        models(self@)
    }

    open spec fn parsed(j: JsonView, field: Seq<char>) -> Result<Seq<T::Model>, DecodeErrorView> {
        match j {
            JsonView::Array(items) => parsed_items::<T>(items, field, items.len() as int),
            _ => Err(mismatch(j, field, Shape::Array)),
        }
    }

    fn from_json(j: &Json, field: &str) -> (r: Result<Vec<T>, DecodeError>) {
        match j {
            Json::Array(items) => {
                proof {
                    lemma_array_view(*items);
                }
                let mut out: Vec<T> = Vec::new();
                proof {
                    assert(models(out@) =~= Seq::<T::Model>::empty());
                }
                let mut i: usize = 0;
                while i < items.len()
                    invariant
                        i <= items@.len(),
                        j@ is Array,
                        j@->Array_0.len() == items@.len(),
                        forall|k: int| 0 <= k < items@.len() ==> #[trigger] j@->Array_0[k] == items@[k]@,
                        parsed_items::<T>(j@->Array_0, field@, i as int) == Ok::<Seq<T::Model>, DecodeErrorView>(models(out@)),
                    decreases items@.len() - i,
                {
                    match T::from_json(&items[i], field) {
                        Ok(v) => {
                            proof {
                                assert(models(out@.push(v)) =~= models(out@).push(v.model()));
                            }
                            out.push(v);
                        },
                        Err(e) => {
                            proof {
                                lemma_failure_stays::<T>(j@->Array_0, field@, i + 1, items@.len() as int);
                            }
                            return Err(e);
                        },
                    }
                    i = i + 1;
                }
                Ok(out)
            },
            _ => Err(mismatch_error(j, field, Shape::Array)),
        }
    }
}

/// What decoding the required key `key` of an object yields.
pub open spec fn required_in<T: FromJson>(entries: Seq<(Seq<char>, JsonView)>, key: Seq<char>) -> Result<T::Model, DecodeErrorView> {
    match lookup(entries, key) {
        Some(j) => T::parsed(j, key),
        None => Err(DecodeErrorView::MissingField { name: key }),
    }
}

/// What decoding the optional key `key` of an object yields: no value where
/// the key is absent or holds `null`.
pub open spec fn optional_in<T: FromJson>(entries: Seq<(Seq<char>, JsonView)>, key: Seq<char>) -> Result<Option<T::Model>, DecodeErrorView> {
    match lookup(entries, key) {
        Some(j) => Option::<T>::parsed(j, key),
        None => Ok(None),
    }
}

/// The entries of a tree: those of an object, and none of any other value.
pub open spec fn entries_of(j: JsonView) -> Seq<(Seq<char>, JsonView)> {
    match j {
        JsonView::Object(entries) => entries,
        _ => Seq::empty(),
    }
}

/// Decodes the required key `key` of `j`. A tree that is no object has no
/// keys, so the key is missing from it.
pub fn required_field<T: FromJson>(j: &Json, key: &str) -> (r: Result<T, DecodeError>)
    ensures
        decoded(r) == required_in::<T>(entries_of(j@), key@),
        !(j@ is Object) ==> decoded(r) == Err::<T::Model, DecodeErrorView>(DecodeErrorView::MissingField { name: key@ }),
{
    match j.get(key) {
        Some(value) => T::from_json(value, key),
        None => Err(DecodeError::MissingField { name: key.to_owned() }),
    }
}

/// Decodes the optional key `key` of `j`. A tree that is no object has no
/// keys, so it holds no value under the key.
pub fn optional_field<T: FromJson>(j: &Json, key: &str) -> (r: Result<Option<T>, DecodeError>)
    ensures
        decoded(r) == optional_in::<T>(entries_of(j@), key@),
        !(j@ is Object) ==> decoded(r) == Ok::<Option<T::Model>, DecodeErrorView>(None),
{
    match j.get(key) {
        Some(value) => Option::<T>::from_json(value, key),
        None => Ok(None),
    }
}

/// A closed enumeration of wire strings.
pub trait Symbol: Sized {
    /// The wire string of this variant.
    spec fn wire_text(&self) -> Seq<char>;

    /// The variant that `text` is the wire string of, if there is one.
    spec fn named(text: Seq<char>) -> Option<Self>;

    /// The name of the enumeration.
    spec fn family() -> Seq<char>;

    /// The wire string of this variant.
    fn encode(&self) -> (s: &'static str)
        ensures
            s@ == self.wire_text(),
    ;

    /// The variant that `text` is the wire string of, if there is one. The
    /// match is exact: case and surrounding space count.
    fn variant(text: &str) -> (r: Option<Self>)
        ensures
            r == Self::named(text@),
    ;

    /// The name of the enumeration.
    fn family_name() -> (s: &'static str)
        ensures
            s@ == Self::family(),
    ;

    /// Decoding the wire string of a variant gives that variant back.
    proof fn lemma_decode_encode(v: Self)
        ensures
            Self::named(v.wire_text()) == Some(v),
    ;

    /// A text that decodes is the wire string of the variant it decodes to.
    proof fn lemma_encode_decode(text: Seq<char>)
        ensures
            Self::named(text) matches Some(v) ==> v.wire_text() == text,
    ;
}

/// What decoding the wire string `text` yields: its variant, or the failure
/// that names the text and the enumeration.
pub open spec fn decoded_symbol<S: Symbol>(text: Seq<char>) -> Result<S, DecodeErrorView> {
    match S::named(text) {
        Some(v) => Ok(v),
        None => Err(DecodeErrorView::UnknownVariant { value: text, enum_name: S::family() }),
    }
}

/// What decoding a tree under `field` as a symbol yields.
pub open spec fn parsed_symbol<S: Symbol>(j: JsonView, field: Seq<char>) -> Result<S, DecodeErrorView> {
    match j {
        JsonView::Str(s) => decoded_symbol::<S>(s),
        _ => Err(mismatch(j, field, Shape::Text)),
    }
}

/// Decodes a wire string. A text that is no member of the enumeration is
/// a failure, never a default.
pub fn decode_symbol<S: Symbol>(text: &str) -> (r: Result<S, DecodeError>)
    ensures
        match r {
            Ok(v) => decoded_symbol::<S>(text@) == Ok::<S, DecodeErrorView>(v),
            Err(e) => decoded_symbol::<S>(text@) == Err::<S, DecodeErrorView>(e@),
        },
{
    match S::variant(text) {
        Some(v) => Ok(v),
        None => Err(DecodeError::UnknownVariant { value: text.to_owned(), enum_name: S::family_name().to_owned() }),
    }
}

/// Decodes a tree under `field` as a symbol.
pub fn symbol_from_json<S: Symbol>(j: &Json, field: &str) -> (r: Result<S, DecodeError>)
    ensures
        match r {
            Ok(v) => parsed_symbol::<S>(j@, field@) == Ok::<S, DecodeErrorView>(v),
            Err(e) => parsed_symbol::<S>(j@, field@) == Err::<S, DecodeErrorView>(e@),
        },
{
    match j {
        Json::Str(s) => decode_symbol::<S>(s.as_str()),
        _ => Err(mismatch_error(j, field, Shape::Text)),
    }
}

/// Every enumeration of wire strings decodes from a JSON string, by its
/// wire strings and in no other way.
impl<S: Symbol> FromJson for S {
    type Model = S;

    open spec fn model(&self) -> S {
        *self
    }

    open spec fn parsed(j: JsonView, field: Seq<char>) -> Result<S, DecodeErrorView> {
        parsed_symbol::<S>(j, field)
    }

    fn from_json(j: &Json, field: &str) -> (r: Result<S, DecodeError>) {
        symbol_from_json::<S>(j, field)
    }
}

/// Encoding what a wire string decodes to gives the wire string back.
pub proof fn lemma_symbol_round_trip<S: Symbol>(v: S, text: Seq<char>)
    ensures
        decoded_symbol::<S>(v.wire_text()) == Ok::<S, DecodeErrorView>(v),
        decoded_symbol::<S>(text) matches Ok(w) ==> w.wire_text() == text,
{
    S::lemma_decode_encode(v);
    S::lemma_encode_decode(text);
}

} // verus!
