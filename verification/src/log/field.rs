//! Typed log fields.
//!
//! A [`Field`] is one key/value pair of a structured log record. Every
//! constructor fixes the field's type tag and packs the value into an `i64`
//! payload, a string, or a textual object stand-in; [`Field::encode`] hands
//! the value to an [`Encoder`] according to that tag. Floating-point fields
//! travel as their raw bit pattern.

use vstd::prelude::*;

verus! {

/// The type tag of a log field.
#[derive(Debug, Clone, Copy, PartialEq, Eq, Structural)]
pub enum FieldType {
    Unknown,
    Bool,
    Float,
    Int,
    Int64,
    Duration,
    Uint,
    Uint64,
    String,
    Stringer,
    Error,
    Object,
    TypeOf,
    Skip,
    Caller,
}

/// One value as an encoder receives it.
pub enum EncodedValue {
    Bool(bool),
    FloatBits(u64),
    Int(i32),
    Int64(i64),
    DurationNanos(u64),
    Uint(u32),
    Uint64(u64),
    Str(Seq<char>),
    Object(Seq<char>),
    TypeName(Seq<char>),
}

/// One key/value pair as an encoder receives it.
pub struct EncodedEntry {
    pub key: Seq<char>,
    pub value: EncodedValue,
}

/// A sink for encoded fields. Each call appends exactly one entry to the
/// encoder's output.
pub trait Encoder {
    /// Everything written so far, in order.
    spec fn encoded(&self) -> Seq<EncodedEntry>;

    /// Writes a boolean.
    fn encode_bool(&mut self, key: &str, val: bool)
        ensures
            final(self).encoded() == old(self).encoded().push(
                EncodedEntry { key: key@, value: EncodedValue::Bool(val) },
            );

    /// Writes a double given by its raw bit pattern.
    fn encode_float64_bits(&mut self, key: &str, bits: u64)
        ensures
            final(self).encoded() == old(self).encoded().push(
                EncodedEntry { key: key@, value: EncodedValue::FloatBits(bits) },
            );

    /// Writes a 32-bit signed integer.
    fn encode_int(&mut self, key: &str, val: i32)
        ensures
            final(self).encoded() == old(self).encoded().push(
                EncodedEntry { key: key@, value: EncodedValue::Int(val) },
            );

    /// Writes a 64-bit signed integer.
    fn encode_int64(&mut self, key: &str, val: i64)
        ensures
            final(self).encoded() == old(self).encoded().push(
                EncodedEntry { key: key@, value: EncodedValue::Int64(val) },
            );

    /// Writes a duration given in nanoseconds.
    fn encode_duration(&mut self, key: &str, nanos: u64)
        ensures
            final(self).encoded() == old(self).encoded().push(
                EncodedEntry { key: key@, value: EncodedValue::DurationNanos(nanos) },
            );

    /// Writes a 32-bit unsigned integer.
    fn encode_uint(&mut self, key: &str, val: u32)
        ensures
            final(self).encoded() == old(self).encoded().push(
                EncodedEntry { key: key@, value: EncodedValue::Uint(val) },
            );

    /// Writes a 64-bit unsigned integer.
    fn encode_uint64(&mut self, key: &str, val: u64)
        ensures
            final(self).encoded() == old(self).encoded().push(
                EncodedEntry { key: key@, value: EncodedValue::Uint64(val) },
            );

    /// Writes a string.
    fn encode_string(&mut self, key: &str, val: &str)
        ensures
            final(self).encoded() == old(self).encoded().push(
                EncodedEntry { key: key@, value: EncodedValue::Str(val@) },
            );

    /// Writes an object by its textual stand-in.
    fn encode_object(&mut self, key: &str, val: &str)
        ensures
            final(self).encoded() == old(self).encoded().push(
                EncodedEntry { key: key@, value: EncodedValue::Object(val@) },
            );

    /// Writes a type by its name.
    fn encode_type(&mut self, key: &str, name: &str)
        ensures
            final(self).encoded() == old(self).encoded().push(
                EncodedEntry { key: key@, value: EncodedValue::TypeName(name@) },
            );
}

/// One key/value pair of a structured log record.
#[derive(Debug)]
pub struct Field {
    pub key: String,
    pub field_type: FieldType,
    pub val: i64,
    pub str: String,
    pub obj: Option<String>,
}

impl PartialEq for Field {
    fn eq(&self, other: &Self) -> (r: bool) {
        self.key == other.key && self.field_type == other.field_type && self.val == other.val
            && self.str == other.str
    }
}

impl vstd::std_specs::cmp::PartialEqSpecImpl for Field {
    open spec fn obeys_eq_spec() -> bool {
        true
    }

    open spec fn eq_spec(&self, other: &Self) -> bool {
        self.key@ == other.key@ && self.field_type == other.field_type && self.val == other.val
            && self.str@ == other.str@
    }
}

/// What encoding a field appends to an encoder's output: one entry for a
/// plain value, possibly none for an object-backed field without its object,
/// and nothing for a skipped or caller field.
pub open spec fn spec_encoding(f: Field) -> Seq<EncodedEntry> {
    match f.field_type {
        FieldType::Bool => seq![
            EncodedEntry { key: f.key@, value: EncodedValue::Bool(f.val != 0) },
        ],
        FieldType::Float => seq![
            EncodedEntry { key: f.key@, value: EncodedValue::FloatBits(f.val as u64) },
        ],
        FieldType::Int => seq![
            EncodedEntry { key: f.key@, value: EncodedValue::Int(f.val as i32) },
        ],
        FieldType::Int64 => seq![
            EncodedEntry { key: f.key@, value: EncodedValue::Int64(f.val) },
        ],
        FieldType::Duration => seq![
            EncodedEntry { key: f.key@, value: EncodedValue::DurationNanos(f.val as u64) },
        ],
        FieldType::Uint => seq![
            EncodedEntry { key: f.key@, value: EncodedValue::Uint(f.val as u32) },
        ],
        FieldType::Uint64 => seq![
            EncodedEntry { key: f.key@, value: EncodedValue::Uint64(f.val as u64) },
        ],
        FieldType::String => seq![
            EncodedEntry { key: f.key@, value: EncodedValue::Str(f.str@) },
        ],
        FieldType::Stringer => match f.obj {
            Some(s) => seq![EncodedEntry { key: f.key@, value: EncodedValue::Str(s@) }],
            None => Seq::empty(),
        },
        FieldType::Error => match f.obj {
            Some(s) => seq![EncodedEntry { key: f.key@, value: EncodedValue::Str(s@) }],
            None => Seq::empty(),
        },
        FieldType::Object => match f.obj {
            Some(s) => seq![EncodedEntry { key: f.key@, value: EncodedValue::Object(s@) }],
            None => Seq::empty(),
        },
        FieldType::TypeOf => match f.obj {
            Some(s) => seq![EncodedEntry { key: f.key@, value: EncodedValue::TypeName(s@) }],
            None => Seq::empty(),
        },
        _ => Seq::empty(),
    }
}

impl Field {
    /// A boolean field; `true` is stored as 1, `false` as 0.
    pub fn bool(key: &str, val: bool) -> (r: Field)
        ensures
            r.key@ == key@,
            r.field_type == FieldType::Bool,
            r.val == if val {
                1int
            } else {
                0int
            },
            r.str@.len() == 0,
            r.obj is None,
    {
        Field {
            key: key.to_owned(),
            field_type: FieldType::Bool,
            val: if val {
                1
            } else {
                0
            },
            str: String::new(),
            obj: None,
        }
    }

    /// A double field, given by the raw bit pattern of its value.
    pub fn float64_bits(key: &str, bits: u64) -> (r: Field)
        ensures
            r.key@ == key@,
            r.field_type == FieldType::Float,
            r.val == bits as i64,
            r.str@.len() == 0,
            r.obj is None,
    {
        Field {
            key: key.to_owned(),
            field_type: FieldType::Float,
            val: bits as i64,
            str: String::new(),
            obj: None,
        }
    }

    /// A 32-bit signed integer field.
    pub fn int32(key: &str, val: i32) -> (r: Field)
        ensures
            r.key@ == key@,
            r.field_type == FieldType::Int,
            r.val == val as i64,
            r.str@.len() == 0,
            r.obj is None,
    {
        Field {
            key: key.to_owned(),
            field_type: FieldType::Int,
            val: val as i64,
            str: String::new(),
            obj: None,
        }
    }

    /// A 64-bit signed integer field.
    pub fn int64(key: &str, val: i64) -> (r: Field)
        ensures
            r.key@ == key@,
            r.field_type == FieldType::Int64,
            r.val == val,
            r.str@.len() == 0,
            r.obj is None,
    {
        Field {
            key: key.to_owned(),
            field_type: FieldType::Int64,
            val,
            str: String::new(),
            obj: None,
        }
    }

    /// A 32-bit unsigned integer field.
    pub fn uint(key: &str, val: u32) -> (r: Field)
        ensures
            r.key@ == key@,
            r.field_type == FieldType::Uint,
            r.val == val as i64,
            r.str@.len() == 0,
            r.obj is None,
    {
        Field {
            key: key.to_owned(),
            field_type: FieldType::Uint,
            val: val as i64,
            str: String::new(),
            obj: None,
        }
    }

    /// A 64-bit unsigned integer field; the value is stored as its two's
    /// complement image.
    pub fn uint64(key: &str, val: u64) -> (r: Field)
        ensures
            r.key@ == key@,
            r.field_type == FieldType::Uint64,
            r.val == val as i64,
            r.str@.len() == 0,
            r.obj is None,
    {
        Field {
            key: key.to_owned(),
            field_type: FieldType::Uint64,
            val: val as i64,
            str: String::new(),
            obj: None,
        }
    }

    /// A string field.
    pub fn string(key: &str, val: &str) -> (r: Field)
        ensures
            r.key@ == key@,
            r.field_type == FieldType::String,
            r.val == 0,
            r.str@ == val@,
            r.obj is None,
    {
        Field {
            key: key.to_owned(),
            field_type: FieldType::String,
            val: 0,
            str: val.to_owned(),
            obj: None,
        }
    }

    /// A field holding a value's rendered text.
    pub fn stringer(key: &str, rendered: String) -> (r: Field)
        ensures
            r.key@ == key@,
            r.field_type == FieldType::Stringer,
            r.val == 0,
            r.str@.len() == 0,
            r.obj == Some(rendered),
    {
        Field {
            key: key.to_owned(),
            field_type: FieldType::Stringer,
            val: 0,
            str: String::new(),
            obj: Some(rendered),
        }
    }

    /// An error field under the fixed key `error`.
    pub fn error(message: String) -> (r: Field)
        ensures
            r.key@ == "error"@,
            r.field_type == FieldType::Error,
            r.val == 0,
            r.str@.len() == 0,
            r.obj == Some(message),
    {
        Field {
            key: "error".to_owned(),
            field_type: FieldType::Error,
            val: 0,
            str: String::new(),
            obj: Some(message),
        }
    }

    /// A duration field, given in nanoseconds.
    pub fn duration(key: &str, nanos: u64) -> (r: Field)
        ensures
            r.key@ == key@,
            r.field_type == FieldType::Duration,
            r.val == nanos as i64,
            r.str@.len() == 0,
            r.obj is None,
    {
        Field {
            key: key.to_owned(),
            field_type: FieldType::Duration,
            val: nanos as i64,
            str: String::new(),
            obj: None,
        }
    }

    /// An object field holding the object's textual stand-in.
    pub fn object(key: &str, rendered: String) -> (r: Field)
        ensures
            r.key@ == key@,
            r.field_type == FieldType::Object,
            r.val == 0,
            r.str@.len() == 0,
            r.obj == Some(rendered),
    {
        Field {
            key: key.to_owned(),
            field_type: FieldType::Object,
            val: 0,
            str: String::new(),
            obj: Some(rendered),
        }
    }

    /// A field naming a value's type.
    pub fn type_of(key: &str, name: String) -> (r: Field)
        ensures
            r.key@ == key@,
            r.field_type == FieldType::TypeOf,
            r.val == 0,
            r.str@.len() == 0,
            r.obj == Some(name),
    {
        Field {
            key: key.to_owned(),
            field_type: FieldType::TypeOf,
            val: 0,
            str: String::new(),
            obj: Some(name),
        }
    }

    /// An object field under the fixed key `message`.
    pub fn message(rendered: String) -> (r: Field)
        ensures
            r.key@ == "message"@,
            r.field_type == FieldType::Object,
            r.val == 0,
            r.str@.len() == 0,
            r.obj == Some(rendered),
    {
        Field::object("message", rendered)
    }

    /// Hands this field to the encoder. Exactly the entries given by
    /// [`spec_encoding`] are appended to the encoder's output.
    pub fn encode<E: Encoder>(&self, enc: &mut E)
        requires
            self.field_type != FieldType::Unknown,
        ensures
            final(enc).encoded() == old(enc).encoded() + spec_encoding(*self),
    {
        let ghost pre = enc.encoded();
        match self.field_type {
            FieldType::Bool => enc.encode_bool(self.key.as_str(), self.val != 0),
            FieldType::Float => enc.encode_float64_bits(self.key.as_str(), self.val as u64),
            FieldType::Int => enc.encode_int(self.key.as_str(), self.val as i32),
            FieldType::Int64 => enc.encode_int64(self.key.as_str(), self.val),
            FieldType::Duration => enc.encode_duration(self.key.as_str(), self.val as u64),
            FieldType::Uint => enc.encode_uint(self.key.as_str(), self.val as u32),
            FieldType::Uint64 => enc.encode_uint64(self.key.as_str(), self.val as u64),
            FieldType::String => enc.encode_string(self.key.as_str(), self.str.as_str()),
            FieldType::Stringer => match &self.obj {
                Some(s) => enc.encode_string(self.key.as_str(), s.as_str()),
                None => (),
            },
            FieldType::Error => match &self.obj {
                Some(s) => enc.encode_string(self.key.as_str(), s.as_str()),
                None => (),
            },
            FieldType::Object => match &self.obj {
                Some(s) => enc.encode_object(self.key.as_str(), s.as_str()),
                None => (),
            },
            FieldType::TypeOf => match &self.obj {
                Some(s) => enc.encode_type(self.key.as_str(), s.as_str()),
                None => (),
            },
            _ => (),
        }
        proof {
            assert(final(enc).encoded() =~= pre + spec_encoding(*self));
        }
    }
}

/// One recorded key/value pair, as tests and callers can observe it.
#[derive(Debug)]
pub enum RecordedValue {
    Bool(bool),
    FloatBits(u64),
    Int(i32),
    Int64(i64),
    DurationNanos(u64),
    Uint(u32),
    Uint64(u64),
    Str(String),
    Object(String),
    TypeName(String),
}

/// The view of a recorded value.
pub open spec fn recorded_value_view(v: RecordedValue) -> EncodedValue {
    match v {
        RecordedValue::Bool(b) => EncodedValue::Bool(b),
        RecordedValue::FloatBits(b) => EncodedValue::FloatBits(b),
        RecordedValue::Int(v) => EncodedValue::Int(v),
        RecordedValue::Int64(v) => EncodedValue::Int64(v),
        RecordedValue::DurationNanos(v) => EncodedValue::DurationNanos(v),
        RecordedValue::Uint(v) => EncodedValue::Uint(v),
        RecordedValue::Uint64(v) => EncodedValue::Uint64(v),
        RecordedValue::Str(s) => EncodedValue::Str(s@),
        RecordedValue::Object(s) => EncodedValue::Object(s@),
        RecordedValue::TypeName(s) => EncodedValue::TypeName(s@),
    }
}

/// The view of one recorded entry.
pub open spec fn recorded_entry_view(e: (String, RecordedValue)) -> EncodedEntry {
    EncodedEntry { key: e.0@, value: recorded_value_view(e.1) }
}

/// An encoder that remembers every entry it receives, in order.
#[derive(Debug)]
pub struct RecordingEncoder {
    pub entries: Vec<(String, RecordedValue)>,
}

impl RecordingEncoder {
    /// An encoder with empty output.
    pub fn new() -> (r: Self)
        ensures
            r.encoded() == Seq::<EncodedEntry>::empty(),
    {
        let r = RecordingEncoder { entries: Vec::new() };
        proof {
            assert(r.encoded() =~= Seq::<EncodedEntry>::empty());
        }
        r
    }

    /// How many entries were written.
    pub fn len(&self) -> (r: usize)
        ensures
            r == self.encoded().len(),
    {
        self.entries.len()
    }

    /// The entry at `i`.
    pub fn entry_at(&self, i: usize) -> (r: &(String, RecordedValue))
        requires
            i < self.encoded().len(),
        ensures
            recorded_entry_view(*r) == self.encoded()[i as int],
    {
        &self.entries[i]
    }
}

impl Encoder for RecordingEncoder {
    open spec fn encoded(&self) -> Seq<EncodedEntry> {
        self.entries@.map_values(|e: (String, RecordedValue)| recorded_entry_view(e))
    }

    fn encode_bool(&mut self, key: &str, val: bool) {
        self.entries.push((key.to_owned(), RecordedValue::Bool(val)));
        proof {
            assert(self.encoded() =~= old(self).encoded().push(
                EncodedEntry { key: key@, value: EncodedValue::Bool(val) },
            ));
        }
    }

    fn encode_float64_bits(&mut self, key: &str, bits: u64) {
        self.entries.push((key.to_owned(), RecordedValue::FloatBits(bits)));
        proof {
            assert(self.encoded() =~= old(self).encoded().push(
                EncodedEntry { key: key@, value: EncodedValue::FloatBits(bits) },
            ));
        }
    }

    fn encode_int(&mut self, key: &str, val: i32) {
        self.entries.push((key.to_owned(), RecordedValue::Int(val)));
        proof {
            assert(self.encoded() =~= old(self).encoded().push(
                EncodedEntry { key: key@, value: EncodedValue::Int(val) },
            ));
        }
    }

    fn encode_int64(&mut self, key: &str, val: i64) {
        self.entries.push((key.to_owned(), RecordedValue::Int64(val)));
        proof {
            assert(self.encoded() =~= old(self).encoded().push(
                EncodedEntry { key: key@, value: EncodedValue::Int64(val) },
            ));
        }
    }

    fn encode_duration(&mut self, key: &str, nanos: u64) {
        self.entries.push((key.to_owned(), RecordedValue::DurationNanos(nanos)));
        proof {
            assert(self.encoded() =~= old(self).encoded().push(
                EncodedEntry { key: key@, value: EncodedValue::DurationNanos(nanos) },
            ));
        }
    }

    fn encode_uint(&mut self, key: &str, val: u32) {
        self.entries.push((key.to_owned(), RecordedValue::Uint(val)));
        proof {
            assert(self.encoded() =~= old(self).encoded().push(
                EncodedEntry { key: key@, value: EncodedValue::Uint(val) },
            ));
        }
    }

    fn encode_uint64(&mut self, key: &str, val: u64) {
        self.entries.push((key.to_owned(), RecordedValue::Uint64(val)));
        proof {
            assert(self.encoded() =~= old(self).encoded().push(
                EncodedEntry { key: key@, value: EncodedValue::Uint64(val) },
            ));
        }
    }

    fn encode_string(&mut self, key: &str, val: &str) {
        self.entries.push((key.to_owned(), RecordedValue::Str(val.to_owned())));
        proof {
            assert(self.encoded() =~= old(self).encoded().push(
                EncodedEntry { key: key@, value: EncodedValue::Str(val@) },
            ));
        }
    }

    fn encode_object(&mut self, key: &str, val: &str) {
        self.entries.push((key.to_owned(), RecordedValue::Object(val.to_owned())));
        proof {
            assert(self.encoded() =~= old(self).encoded().push(
                EncodedEntry { key: key@, value: EncodedValue::Object(val@) },
            ));
        }
    }

    fn encode_type(&mut self, key: &str, name: &str) {
        self.entries.push((key.to_owned(), RecordedValue::TypeName(name.to_owned())));
        proof {
            assert(self.encoded() =~= old(self).encoded().push(
                EncodedEntry { key: key@, value: EncodedValue::TypeName(name@) },
            ));
        }
    }
}

} // verus!
