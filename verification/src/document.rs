//! An in-memory model of wire documents: ordered sequences of key/value
//! fields, with values that may nest arbitrarily. Byte-level encoding and
//! decoding is an external collaborator; this model is what commands are
//! assembled in and replies are inspected through.

use vstd::prelude::*;

verus! {

/// Mathematical model of a wire value. A double is carried by its raw bit
/// pattern, so that value equality is exact bit equality.
#[verifier::ext_equal]
pub enum SpecValue {
    Int32(int),
    Int64(int),
    Double(u64),
    Boolean(bool),
    Text(Seq<char>),
    Array(Seq<SpecValue>),
    Doc(Seq<(Seq<char>, SpecValue)>),
}

/// A wire value: what one position of a document or array holds.
#[derive(Debug, PartialEq)]
pub enum Value {
    Int32(i32),
    Int64(i64),
    /// A 64-bit floating-point wire value, carried by its raw bit pattern.
    Double(u64),
    Boolean(bool),
    Text(String),
    Array(Vec<Value>),
    Doc(Document),
}

/// The mathematical model of a document: its fields in wire order.
pub type SpecDoc = Seq<(Seq<char>, SpecValue)>;

/// The value under `key` in `d`, taking the first field with that key, or
/// `None` when no field has it.
pub open spec fn lookup(d: SpecDoc, key: Seq<char>) -> Option<SpecValue>
    decreases d.len(),
{
    if d.len() == 0 {
        None
    } else if d[0].0 == key {
        Some(d[0].1)
    } else {
        lookup(d.drop_first(), key)
    }
}

/// When no field among the first `i` has the key, the lookup is decided by
/// the rest of the document.
pub proof fn lemma_lookup_skip(d: SpecDoc, key: Seq<char>, i: int)
    requires
        0 <= i <= d.len(),
        forall|j: int| 0 <= j < i ==> (#[trigger] d[j].0) != key,
    ensures
        lookup(d, key) == lookup(d.skip(i), key),
    decreases i,
{
    if i > 0 {
        lemma_lookup_skip(d, key, i - 1);
        assert(d.skip(i - 1)[0] == d[i - 1]);
        assert(d.skip(i - 1).drop_first() =~= d.skip(i));
    } else {
        assert(d.skip(0) =~= d);
    }
}

/// The integer a wire value carries, through either integer width.
pub open spec fn int_of(v: SpecValue) -> Option<int> {
    match v {
        SpecValue::Int32(n) => Some(n),
        SpecValue::Int64(n) => Some(n),
        _ => None,
    }
}

/// The character sequence a wire value carries, if it is text.
pub open spec fn text_of(v: SpecValue) -> Option<Seq<char>> {
    match v {
        SpecValue::Text(s) => Some(s),
        _ => None,
    }
}

/// The sub-document a wire value carries, if it is one.
pub open spec fn doc_of(v: SpecValue) -> Option<SpecDoc> {
    match v {
        SpecValue::Doc(d) => Some(d),
        _ => None,
    }
}

/// The element sequence a wire value carries, if it is an array.
pub open spec fn array_of(v: SpecValue) -> Option<Seq<SpecValue>> {
    match v {
        SpecValue::Array(a) => Some(a),
        _ => None,
    }
}

/// The integer under `key`, or `None` when absent or not an integer.
pub open spec fn int_at(d: SpecDoc, key: Seq<char>) -> Option<int> {
    match lookup(d, key) {
        Some(v) => int_of(v),
        None => None,
    }
}

/// The text under `key`, or `None` when absent or not text.
pub open spec fn text_at(d: SpecDoc, key: Seq<char>) -> Option<Seq<char>> {
    match lookup(d, key) {
        Some(v) => text_of(v),
        None => None,
    }
}

/// The sub-document under `key`, or `None` when absent or not a document.
pub open spec fn doc_at(d: SpecDoc, key: Seq<char>) -> Option<SpecDoc> {
    match lookup(d, key) {
        Some(v) => doc_of(v),
        None => None,
    }
}

/// The array under `key`, or `None` when absent or not an array.
pub open spec fn array_at(d: SpecDoc, key: Seq<char>) -> Option<Seq<SpecValue>> {
    match lookup(d, key) {
        Some(v) => array_of(v),
        None => None,
    }
}

/// One key/value pair of a document.
#[derive(Debug, PartialEq)]
pub struct Field {
    pub key: String,
    pub value: Value,
}

/// An ordered document: the fields stand in insertion order, which is the
/// order they take on the wire.
#[derive(Debug, PartialEq)]
pub struct Document {
    pub fields: Vec<Field>,
}

impl Value {
    /// The mathematical value this wire value stands for.
    pub open spec fn model(self) -> SpecValue
        decreases self,
    {
        match self {
            Value::Int32(n) => SpecValue::Int32(n as int),
            Value::Int64(n) => SpecValue::Int64(n as int),
            Value::Double(bits) => SpecValue::Double(bits),
            Value::Boolean(b) => SpecValue::Boolean(b),
            Value::Text(s) => SpecValue::Text(s@),
            Value::Array(items) => SpecValue::Array(
                Seq::new(items@.len(), |i: int|
                    if 0 <= i < items@.len() {
                        items@[i].model()
                    } else {
                        SpecValue::Boolean(false)
                    }),
            ),
            Value::Doc(d) => SpecValue::Doc(d.model()),
        }
    }
}

impl Document {
    /// The mathematical document: the sequence of modelled fields, in order.
    pub open spec fn model(self) -> Seq<(Seq<char>, SpecValue)>
        decreases self,
    {
        Seq::new(self.fields@.len(), |i: int|
            if 0 <= i < self.fields@.len() {
                (self.fields@[i].key@, self.fields@[i].value.model())
            } else {
                (Seq::<char>::empty(), SpecValue::Boolean(false))
            })
    }

    /// An empty document.
    pub fn new() -> (d: Document)
        ensures
            d.model() == Seq::<(Seq<char>, SpecValue)>::empty(),
    {
        let d = Document { fields: Vec::new() };
        proof {
            assert(d.model() =~= Seq::<(Seq<char>, SpecValue)>::empty());
        }
        d
    }

    /// Append one field at the end of the document.
    pub fn push(&mut self, key: String, value: Value)
        ensures
            final(self).model() == old(self).model().push((key@, value.model())),
    {
        let ghost before = self.model();
        self.fields.push(Field { key, value });
        proof {
            assert(self.model() =~= before.push((key@, value.model())));
        }
    }

    /// The value under `key`, taking the first field with that key.
    pub fn get<'a>(&'a self, key: &str) -> (r: Option<&'a Value>)
        ensures
            match r {
                Some(v) => lookup(self.model(), key@) == Some(v.model()),
                None => lookup(self.model(), key@) is None,
            },
    {
        let k: String = key.to_owned();
        let mut i: usize = 0;
        while i < self.fields.len()
            invariant
                k@ == key@,
                i <= self.fields.len(),
                forall|j: int| 0 <= j < i as int ==>
                    (#[trigger] self.model()[j].0) != key@,
            decreases self.fields.len() - i,
        {
            if self.fields[i].key == k {
                proof {
                    lemma_lookup_skip(self.model(), key@, i as int);
                    assert(self.model().skip(i as int)[0] == self.model()[i as int]);
                }
                return Some(&self.fields[i].value);
            }
            i = i + 1;
        }
        proof {
            lemma_lookup_skip(self.model(), key@, i as int);
            assert(self.model().skip(i as int).len() == 0);
        }
        None
    }
}

impl Value {
    /// The integer this value carries, through either integer width.
    pub fn as_int(&self) -> (r: Option<i64>)
        ensures
            match r {
                Some(n) => int_of(self.model()) == Some(n as int),
                None => int_of(self.model()) is None,
            },
    {
        match self {
            Value::Int32(n) => Some(*n as i64),
            Value::Int64(n) => Some(*n),
            _ => None,
        }
    }

    /// The text this value carries, if it is text.
    pub fn as_text<'a>(&'a self) -> (r: Option<&'a String>)
        ensures
            match r {
                Some(s) => text_of(self.model()) == Some(s@),
                None => text_of(self.model()) is None,
            },
    {
        match self {
            Value::Text(s) => Some(s),
            _ => None,
        }
    }

    /// The sub-document this value carries, if it is one.
    pub fn as_doc<'a>(&'a self) -> (r: Option<&'a Document>)
        ensures
            match r {
                Some(d) => doc_of(self.model()) == Some(d.model()),
                None => doc_of(self.model()) is None,
            },
    {
        match self {
            Value::Doc(d) => Some(d),
            _ => None,
        }
    }

    /// The elements this value carries, if it is an array.
    pub fn as_array<'a>(&'a self) -> (r: Option<&'a Vec<Value>>)
        ensures
            match r {
                Some(a) => array_of(self.model()) matches Some(s) && s.len() == a@.len()
                    && (forall|i: int| 0 <= i < a@.len() ==> s[i] == #[trigger] a@[i].model()),
                None => array_of(self.model()) is None,
            },
    {
        match self {
            Value::Array(a) => Some(a),
            _ => None,
        }
    }
}

impl Clone for Value {
    /// A clone stands for the same mathematical value.
    fn clone(&self) -> (r: Value)
        ensures
            r.model() == self.model(),
        decreases self,
    {
        match self {
            Value::Int32(n) => Value::Int32(*n),
            Value::Int64(n) => Value::Int64(*n),
            Value::Double(bits) => Value::Double(*bits),
            Value::Boolean(b) => Value::Boolean(*b),
            Value::Text(s) => Value::Text(s.clone()),
            Value::Array(items) => {
                let mut out: Vec<Value> = Vec::new();
                let mut i: usize = 0;
                while i < items.len()
                    invariant
                        *self == Value::Array(*items),
                        i <= items.len(),
                        out@.len() == i as int,
                        forall|j: int| 0 <= j < i as int ==>
                            #[trigger] out@[j].model() == items@[j].model(),
                    decreases items.len() - i,
                {
                    proof {
                        assert(decreases_to!(*self => self->Array_0));
                        assert(decreases_to!(*self => items@[i as int]));
                    }
                    out.push(items[i].clone());
                    i = i + 1;
                }
                let r = Value::Array(out);
                proof {
                    let s1 = r.model()->Array_0;
                    let s2 = self.model()->Array_0;
                    assert forall|j: int| 0 <= j < s1.len() implies s1[j] == s2[j] by {
                        assert(out@[j].model() == items@[j].model());
                    }
                    assert(s1 =~= s2);
                }
                r
            },
            Value::Doc(d) => Value::Doc(d.clone()),
        }
    }
}

impl Clone for Field {
    /// A clone keeps the key and stands for the same value.
    fn clone(&self) -> (r: Field)
        ensures
            r.key@ == self.key@,
            r.value.model() == self.value.model(),
        decreases self,
    {
        Field { key: self.key.clone(), value: self.value.clone() }
    }
}

impl Clone for Document {
    /// A clone stands for the same mathematical document.
    fn clone(&self) -> (r: Document)
        ensures
            r.model() == self.model(),
        decreases self,
    {
        let mut fields: Vec<Field> = Vec::new();
        let mut i: usize = 0;
        while i < self.fields.len()
            invariant
                i <= self.fields.len(),
                fields@.len() == i as int,
                forall|j: int| 0 <= j < i as int ==> {
                    &&& #[trigger] fields@[j].key@ == self.fields@[j].key@
                    &&& fields@[j].value.model() == self.fields@[j].value.model()
                },
            decreases self.fields.len() - i,
        {
            fields.push(self.fields[i].clone());
            i = i + 1;
        }
        let r = Document { fields };
        proof {
            assert(r.model() =~= self.model());
        }
        r
    }
}

} // verus!
