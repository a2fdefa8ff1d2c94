//! Runtime values of Iptscrae: integers, strings and arrays.
//!
//! A value's model replaces each string by its characters, so that two
//! values with the same model behave alike.
use vstd::prelude::*;
use crate::text::{decimal, i32_chars, parse_i32, parse_i32_chars, push_char, push_str, str_chars, string_from, copy_string};

verus! {

broadcast use {vstd::seq_lib::group_seq_properties, vstd::std_specs::vec::axiom_vec_index_decreases};

/// Runtime value on the stack.
#[derive(Debug, PartialEq, Eq)]
pub enum Value {
    Integer(i32),
    String(String),
    Array(Vec<Value>),
}

/// The model of a value: strings are taken by their characters.
pub enum ValueModel {
    Integer(i32),
    Str(Seq<char>),
    Array(Seq<ValueModel>),
}

impl Value {
    /// The model of this value.
    pub open spec fn model(&self) -> ValueModel
        decreases self,
    {
        match self {
            Value::Integer(n) => ValueModel::Integer(*n),
            Value::String(s) => ValueModel::Str(s@),
            Value::Array(a) => ValueModel::Array(models(a@)),
        }
    }
}

/// The models of a sequence of values.
pub open spec fn models(s: Seq<Value>) -> Seq<ValueModel>
    decreases s,
{
    if s.len() == 0 {
        Seq::empty()
    } else {
        models(s.drop_last()).push(s.last().model())
    }
}

/// The models keep the length and take each value's model.
pub proof fn lemma_models(s: Seq<Value>)
    ensures
        models(s).len() == s.len(),
        forall|i: int| 0 <= i < s.len() ==> #[trigger] models(s)[i] == s[i].model(),
    decreases s.len(),
{
    if s.len() > 0 {
        lemma_models(s.drop_last());
    }
}

/// Two sequences whose values have equal models have equal models.
pub proof fn lemma_models_ext(s: Seq<Value>, t: Seq<Value>)
    requires
        s.len() == t.len(),
        forall|i: int| 0 <= i < s.len() ==> #[trigger] s[i].model() == t[i].model(),
    ensures
        models(s) == models(t),
{
    lemma_models(s);
    lemma_models(t);
    assert(models(s) =~= models(t));
}

/// The models of a sequence with one more value.
pub proof fn lemma_models_push(s: Seq<Value>, v: Value)
    ensures
        models(s.push(v)) == models(s).push(v.model()),
{
    assert(s.push(v).drop_last() =~= s);
}

/// The models of a sequence with its last value removed.
pub proof fn lemma_models_drop_last(s: Seq<Value>)
    requires
        s.len() > 0,
    ensures
        models(s.drop_last()) == models(s).drop_last(),
{
    assert(models(s).drop_last() =~= models(s.drop_last()));
}

/// The integer a value stands for: an integer itself, a string read as a
/// decimal integer (0 when it is not one), and 0 for an array.
pub open spec fn int_of(v: ValueModel) -> i32 {
    match v {
        ValueModel::Integer(n) => n,
        ValueModel::Str(s) => match parse_i32(s) {
            Some(n) => n,
            None => 0,
        },
        ValueModel::Array(_) => 0,
    }
}

/// Whether a value counts as true: a nonzero integer, a nonempty string or
/// a nonempty array.
pub open spec fn truthy(v: ValueModel) -> bool {
    match v {
        ValueModel::Integer(n) => n != 0,
        ValueModel::Str(s) => s.len() > 0,
        ValueModel::Array(a) => a.len() > 0,
    }
}

/// The type number of a value: 1 for an integer, 2 for a string, 3 for an array.
pub open spec fn type_id(v: ValueModel) -> i32 {
    match v {
        ValueModel::Integer(_) => 1,
        ValueModel::Str(_) => 2,
        ValueModel::Array(_) => 3,
    }
}

/// The text of a value: an integer in decimal, a string as it is, an array
/// as its items' texts between brackets, separated by ", ".
pub open spec fn display(v: ValueModel) -> Seq<char>
    decreases v,
{
    match v {
        ValueModel::Integer(n) => decimal(n as int),
        ValueModel::Str(s) => s,
        ValueModel::Array(items) => seq!['['] + display_items(items) + seq![']'],
    }
}

/// The texts of items separated by ", ".
pub open spec fn display_items(items: Seq<ValueModel>) -> Seq<char>
    decreases items,
{
    if items.len() == 0 {
        Seq::empty()
    } else if items.len() == 1 {
        display(items[0])
    } else {
        display_items(items.drop_last()) + seq![',', ' '] + display(items.last())
    }
}

impl Value {
    /// An integer value.
    pub fn integer(n: i32) -> (v: Value)
        ensures
            v == Value::Integer(n),
    {
        Value::Integer(n)
    }

    /// A string value holding the given text.
    pub fn string(s: &str) -> (v: Value)
        ensures
            v.model() == ValueModel::Str(s@),
    {
        Value::String(string_from(s))
    }

    /// An array value holding the given elements.
    pub fn array(elements: Vec<Value>) -> (v: Value)
        ensures
            v == Value::Array(elements),
    {
        Value::Array(elements)
    }

    /// The integer, when this is an integer value.
    pub fn as_integer(&self) -> (r: Option<i32>)
        ensures
            r == (match self {
                Value::Integer(n) => Some(*n),
                _ => None,
            }),
    {
        match self {
            Value::Integer(n) => Some(*n),
            _ => None,
        }
    }

    /// The text, when this is a string value.
    pub fn as_string(&self) -> (r: Option<&str>)
        ensures
            match self {
                Value::String(s) => r matches Some(t) && t@ == s@,
                _ => r is None,
            },
    {
        match self {
            Value::String(s) => Some(s.as_str()),
            _ => None,
        }
    }

    /// The elements, when this is an array value.
    pub fn as_array(&self) -> (r: Option<&Vec<Value>>)
        ensures
            match self {
                Value::Array(a) => r == Some(a),
                _ => r is None,
            },
    {
        match self {
            Value::Array(a) => Some(a),
            _ => None,
        }
    }

    /// The elements, to change, when this is an array value.
    pub fn as_array_mut(&mut self) -> (r: Option<&mut Vec<Value>>)
        ensures
            match *old(self) {
                Value::Array(a) => r matches Some(b) && *b == a && *final(self) == Value::Array(*final(b)),
                _ => r is None && *final(self) == *old(self),
            },
    {
        match self {
            Value::Array(a) => Some(a),
            _ => None,
        }
    }

    /// The integer this value stands for (see `int_of`).
    pub fn to_integer(&self) -> (n: i32)
        ensures
            n == int_of(self.model()),
    {
        match self {
            Value::Integer(n) => *n,
            Value::String(s) => {
                let cs = str_chars(s.as_str());
                match parse_i32_chars(cs.as_slice()) {
                    Some(n) => n,
                    None => 0,
                }
            },
            Value::Array(_) => 0,
        }
    }

    /// Whether this value counts as true (see `truthy`).
    pub fn to_bool(&self) -> (b: bool)
        ensures
            b == truthy(self.model()),
    {
        proof {
            if let Value::Array(a) = self {
                lemma_models(a@);
            }
        }
        match self {
            Value::Integer(n) => *n != 0,
            Value::String(s) => s.as_str().unicode_len() != 0,
            Value::Array(a) => a.len() != 0,
        }
    }

    /// Whether this is an integer value.
    pub fn is_integer(&self) -> (b: bool)
        ensures
            b == (self is Integer),
    {
        match self {
            Value::Integer(_) => true,
            _ => false,
        }
    }

    /// Whether this is a string value.
    pub fn is_string(&self) -> (b: bool)
        ensures
            b == (self is String),
    {
        match self {
            Value::String(_) => true,
            _ => false,
        }
    }

    /// Whether this is an array value.
    pub fn is_array(&self) -> (b: bool)
        ensures
            b == (self is Array),
    {
        match self {
            Value::Array(_) => true,
            _ => false,
        }
    }

    /// The name of this value's type.
    pub fn type_label(&self) -> (s: &'static str)
        ensures
            s@ == (match self {
                Value::Integer(_) => "integer"@,
                Value::String(_) => "string"@,
                Value::Array(_) => "array"@,
            }),
    {
        match self {
            Value::Integer(_) => "integer",
            Value::String(_) => "string",
            Value::Array(_) => "array",
        }
    }

    /// The type number of this value (see `type_id`).
    pub fn type_number(&self) -> (n: i32)
        ensures
            n == type_id(self.model()),
    {
        match self {
            Value::Integer(_) => 1,
            Value::String(_) => 2,
            Value::Array(_) => 3,
        }
    }

    /// A copy of this value, with the same model.
    pub fn duplicate(&self) -> (v: Value)
        ensures
            v.model() == self.model(),
        decreases self,
    {
        match self {
            Value::Integer(n) => Value::Integer(*n),
            Value::String(s) => Value::String(copy_string(s)),
            Value::Array(a) => {
                let mut out: Vec<Value> = Vec::new();
                let mut i: usize = 0;
                while i < a.len()
                    invariant
                        *self == Value::Array(*a),
                        i <= a@.len(),
                        out@.len() == i,
                        forall|j: int| 0 <= j < i ==> #[trigger] out@[j].model() == a@[j].model(),
                    decreases a@.len() - i,
                {
                    proof {
                        assert(decreases_to!(*a => a[i as int]));
                        assert(decreases_to!(*self => self->Array_0));
                        assert(decreases_to!(*self => a[i as int]));
                    }
                    let e = a[i].duplicate();
                    out.push(e);
                    i = i + 1;
                }
                proof {
                    lemma_models_ext(out@, a@);
                }
                Value::Array(out)
            },
        }
    }

    /// Appends the text of this value (see `display`).
    pub fn write_text(&self, out: &mut String)
        ensures
            final(out)@ == old(out)@ + display(self.model()),
        decreases self,
    {
        match self {
            Value::Integer(n) => {
                let cs = i32_chars(*n);
                let mut i: usize = 0;
                while i < cs.len()
                    invariant
                        i <= cs@.len(),
                        out@ == old(out)@ + cs@.subrange(0, i as int),
                    decreases cs@.len() - i,
                {
                    push_char(out, cs[i]);
                    i = i + 1;
                }
                assert(cs@.subrange(0, cs@.len() as int) == cs@);
            },
            Value::String(s) => {
                push_str(out, s.as_str());
            },
            Value::Array(a) => {
                proof {
                    lemma_models(a@);
                }
                let ghost start = out@;
                push_char(out, '[');
                let mut i: usize = 0;
                while i < a.len()
                    invariant
                        *self == Value::Array(*a),
                        i <= a@.len(),
                        models(a@).len() == a@.len(),
                        forall|j: int| 0 <= j < a@.len() ==> #[trigger] models(a@)[j] == a@[j].model(),
                        out@ == start + seq!['['] + display_items(models(a@).subrange(0, i as int)),
                    decreases a@.len() - i,
                {
                    let ghost before = out@;
                    if i > 0 {
                        push_char(out, ',');
                        push_char(out, ' ');
                    }
                    proof {
                        assert(decreases_to!(*a => a[i as int]));
                        assert(decreases_to!(*self => self->Array_0));
                        assert(decreases_to!(*self => a[i as int]));
                    }
                    a[i].write_text(out);
                    proof {
                        let ms = models(a@);
                        let pre = ms.subrange(0, i as int);
                        let next = ms.subrange(0, i + 1);
                        assert(next.drop_last() =~= pre);
                        assert(next.last() == a@[i as int].model());
                        if i == 0 {
                            assert(pre =~= Seq::<ValueModel>::empty());
                            assert(next.len() == 1);
                            assert(next[0] == a@[0].model());
                        }
                    }
                    i = i + 1;
                }
                push_char(out, ']');
                assert(models(a@).subrange(0, a@.len() as int) =~= models(a@));
            },
        }
    }

    /// The text of this value (see `display`).
    pub fn to_string(&self) -> (s: String)
        ensures
            s@ == display(self.model()),
    {
        let mut s = String::new();
        self.write_text(&mut s);
        assert(s@ =~= display(self.model()));
        s
    }
}

impl Clone for Value {
    fn clone(&self) -> (v: Value)
        ensures
            v.model() == self.model(),
    {
        self.duplicate()
    }
}

impl From<i32> for Value {
    fn from(n: i32) -> (v: Value) {
        Value::Integer(n)
    }
}

impl vstd::std_specs::convert::FromSpecImpl<i32> for Value {
    open spec fn obeys_from_spec() -> bool {
        true
    }

    open spec fn from_spec(n: i32) -> Value {
        Value::Integer(n)
    }
}

impl<'a> From<&'a str> for Value {
    fn from(s: &'a str) -> (v: Value)
        ensures
            v matches Value::String(t) && t@ == s@,
    {
        Value::String(crate::text::string_from(s))
    }
}

/// A text becomes a string value of the same characters (stated on `from`
/// itself); no spec value stands for the string built, so there is no
/// `from_spec`.
impl<'a> vstd::std_specs::convert::FromSpecImpl<&'a str> for Value {
    open spec fn obeys_from_spec() -> bool {
        false
    }

    open spec fn from_spec(s: &'a str) -> Value {
        vstd::pervasive::arbitrary()
    }
}

impl From<String> for Value {
    fn from(s: String) -> (v: Value) {
        Value::String(s)
    }
}

impl vstd::std_specs::convert::FromSpecImpl<String> for Value {
    open spec fn obeys_from_spec() -> bool {
        true
    }

    open spec fn from_spec(s: String) -> Value {
        Value::String(s)
    }
}

} // verus!
