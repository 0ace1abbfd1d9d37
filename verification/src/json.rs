//! A structured value model for the line-delimited JSON-RPC protocol.
//!
//! The library works on `JsonValue` trees built from plain Rust values.
//! Contracts speak of the mathematical mirror `Jv`, reached through
//! `deep_view()`. Fractional numbers never take part in any decision the
//! library makes; they are carried through opaquely as `Raw` tokens, a
//! preformatted number rendering supplied by the caller.

use vstd::prelude::*;
use vstd::string::StringExecFns;

verus! {

broadcast use vstd::std_specs::vec::group_vec_axioms, vstd::seq::group_seq_axioms;

/// Mathematical mirror of a `JsonValue`: what contracts speak of.
#[verifier::ext_equal]
pub enum Jv {
    Null,
    Bool(bool),
    Int(int),
    Text(Seq<char>),
    Raw(Seq<char>),
    Arr(Seq<Jv>),
    Obj(Seq<(Seq<char>, Jv)>),
}

/// A JSON document as the library holds it.
///
/// `Raw` carries a number token that the library never inspects (the
/// transport renders fractional numbers into it); everything else is
/// ordinary structured data. Objects keep their fields in insertion order.
pub enum JsonValue {
    Null,
    Bool(bool),
    Int(i64),
    Text(String),
    Raw(String),
    Arr(Vec<JsonValue>),
    Obj(Vec<(String, JsonValue)>),
}

/// The `Jv` that mirrors a `JsonValue`.
pub open spec fn jv_of(v: JsonValue) -> Jv
    decreases v,
{
    match v {
        JsonValue::Null => Jv::Null,
        JsonValue::Bool(b) => Jv::Bool(b),
        JsonValue::Int(i) => Jv::Int(i as int),
        JsonValue::Text(s) => Jv::Text(s@),
        JsonValue::Raw(s) => Jv::Raw(s@),
        JsonValue::Arr(items) => Jv::Arr(jv_of_seq(items@)),
        JsonValue::Obj(fields) => Jv::Obj(jv_of_fields(fields@)),
    }
}

/// Element-wise mirror of an array's items.
pub open spec fn jv_of_seq(s: Seq<JsonValue>) -> Seq<Jv>
    decreases s,
{
    if s.len() == 0 {
        Seq::empty()
    } else {
        seq![jv_of(s[0])] + jv_of_seq(s.drop_first())
    }
}

/// Field-wise mirror of an object's fields.
pub open spec fn jv_of_fields(s: Seq<(String, JsonValue)>) -> Seq<(Seq<char>, Jv)>
    decreases s,
{
    if s.len() == 0 {
        Seq::empty()
    } else {
        seq![(s[0].0@, jv_of(s[0].1))] + jv_of_fields(s.drop_first())
    }
}

impl DeepView for JsonValue {
    type V = Jv;

    open spec fn deep_view(&self) -> Jv {
        jv_of(*self)
    }
}

pub broadcast proof fn lemma_jv_of_seq_len(s: Seq<JsonValue>)
    ensures
        #[trigger] jv_of_seq(s).len() == s.len(),
    decreases s,
{
    if s.len() > 0 {
        lemma_jv_of_seq_len(s.drop_first());
    }
}

pub broadcast proof fn lemma_jv_of_seq_index(s: Seq<JsonValue>, i: int)
    requires
        0 <= i < s.len(),
    ensures
        #[trigger] jv_of_seq(s)[i] == jv_of(s[i]),
    decreases s,
{
    lemma_jv_of_seq_len(s);
    if i > 0 {
        lemma_jv_of_seq_index(s.drop_first(), i - 1);
    }
}

pub broadcast proof fn lemma_jv_of_fields_len(s: Seq<(String, JsonValue)>)
    ensures
        #[trigger] jv_of_fields(s).len() == s.len(),
    decreases s,
{
    if s.len() > 0 {
        lemma_jv_of_fields_len(s.drop_first());
    }
}

pub broadcast proof fn lemma_jv_of_fields_index(s: Seq<(String, JsonValue)>, i: int)
    requires
        0 <= i < s.len(),
    ensures
        #[trigger] jv_of_fields(s)[i] == (s[i].0@, jv_of(s[i].1)),
    decreases s,
{
    lemma_jv_of_fields_len(s);
    if i > 0 {
        lemma_jv_of_fields_index(s.drop_first(), i - 1);
    }
}

/// The number of nodes of a value: a termination measure for
/// traversals.
pub open spec fn node_count(v: JsonValue) -> nat
    decreases v,
{
    match v {
        JsonValue::Arr(items) => 1 + node_count_seq(items@),
        JsonValue::Obj(fields) => 1 + node_count_fields(fields@),
        _ => 1,
    }
}

/// The node count of an array's items together.
pub open spec fn node_count_seq(s: Seq<JsonValue>) -> nat
    decreases s,
{
    if s.len() == 0 {
        0
    } else {
        node_count(s[0]) + node_count_seq(s.drop_first())
    }
}

/// The node count of an object's field values together.
pub open spec fn node_count_fields(s: Seq<(String, JsonValue)>) -> nat
    decreases s,
{
    if s.len() == 0 {
        0
    } else {
        node_count(s[0].1) + node_count_fields(s.drop_first())
    }
}

pub broadcast proof fn lemma_node_count_seq_bound(s: Seq<JsonValue>, i: int)
    requires
        0 <= i < s.len(),
    ensures
        #[trigger] node_count(s[i]) <= node_count_seq(s),
    decreases s,
{
    if i > 0 {
        lemma_node_count_seq_bound(s.drop_first(), i - 1);
    }
}

pub broadcast proof fn lemma_node_count_fields_bound(s: Seq<(String, JsonValue)>, i: int)
    requires
        0 <= i < s.len(),
    ensures
        #[trigger] node_count(s[i].1) <= node_count_fields(s),
    decreases s,
{
    if i > 0 {
        lemma_node_count_fields_bound(s.drop_first(), i - 1);
    }
}

pub broadcast proof fn lemma_jv_of_seq_push(s: Seq<JsonValue>, v: JsonValue)
    ensures
        #[trigger] jv_of_seq(s.push(v)) == jv_of_seq(s).push(jv_of(v)),
    decreases s,
{
    lemma_jv_of_seq_len(s);
    lemma_jv_of_seq_len(s.push(v));
    if s.len() == 0 {
        assert(s.push(v).drop_first() =~= Seq::<JsonValue>::empty());
        assert(jv_of_seq(s.push(v)) =~= jv_of_seq(s).push(jv_of(v)));
    } else {
        assert(s.push(v).drop_first() =~= s.drop_first().push(v));
        lemma_jv_of_seq_push(s.drop_first(), v);
        assert(jv_of_seq(s.push(v)) =~= jv_of_seq(s).push(jv_of(v)));
    }
}

pub broadcast proof fn lemma_jv_of_fields_push(s: Seq<(String, JsonValue)>, k: String, v: JsonValue)
    ensures
        #[trigger] jv_of_fields(s.push((k, v))) == jv_of_fields(s).push((k@, jv_of(v))),
    decreases s,
{
    lemma_jv_of_fields_len(s);
    lemma_jv_of_fields_len(s.push((k, v)));
    if s.len() == 0 {
        assert(s.push((k, v)).drop_first() =~= Seq::<(String, JsonValue)>::empty());
        assert(jv_of_fields(s.push((k, v))) =~= jv_of_fields(s).push((k@, jv_of(v))));
    } else {
        assert(s.push((k, v)).drop_first() =~= s.drop_first().push((k, v)));
        lemma_jv_of_fields_push(s.drop_first(), k, v);
        assert(jv_of_fields(s.push((k, v))) =~= jv_of_fields(s).push((k@, jv_of(v))));
    }
}

/// Builds an object value field by field, in order.
pub struct JsonObj {
    pub fields: Vec<(String, JsonValue)>,
}

impl View for JsonObj {
    type V = Seq<(Seq<char>, Jv)>;

    open spec fn view(&self) -> Seq<(Seq<char>, Jv)> {
        jv_of_fields(self.fields@)
    }
}

impl JsonObj {
    /// An object with no fields yet.
    pub fn new() -> (r: Self)
        ensures
            r@ == Seq::<(Seq<char>, Jv)>::empty(),
    {
        let r = JsonObj { fields: Vec::new() };
        proof {
            assert(r@ =~= Seq::<(Seq<char>, Jv)>::empty());
        }
        r
    }

    /// Appends one field.
    pub fn add(&mut self, key: &str, v: JsonValue)
        ensures
            final(self)@ == old(self)@.push((key@, jv_of(v))),
    {
        let ghost oldfields = self.fields@;
        let ghost gv = v;
        let k = String::from_str(key);
        proof {
            lemma_jv_of_fields_push(oldfields, k, gv);
        }
        self.fields.push((k, v));
    }

    /// The finished object value.
    pub fn done(self) -> (r: JsonValue)
        ensures
            jv_of(r) == Jv::Obj(self@),
    {
        JsonValue::Obj(self.fields)
    }
}

/// Builds an array value item by item, in order.
pub struct JsonArr {
    pub items: Vec<JsonValue>,
}

impl View for JsonArr {
    type V = Seq<Jv>;

    open spec fn view(&self) -> Seq<Jv> {
        jv_of_seq(self.items@)
    }
}

impl JsonArr {
    /// An array with no items yet.
    pub fn new() -> (r: Self)
        ensures
            r@ == Seq::<Jv>::empty(),
    {
        let r = JsonArr { items: Vec::new() };
        proof {
            assert(r@ =~= Seq::<Jv>::empty());
        }
        r
    }

    /// Appends one item.
    pub fn add(&mut self, v: JsonValue)
        ensures
            final(self)@ == old(self)@.push(jv_of(v)),
    {
        let ghost olditems = self.items@;
        let ghost gv = v;
        proof {
            lemma_jv_of_seq_push(olditems, gv);
        }
        self.items.push(v);
    }

    /// The finished array value.
    pub fn done(self) -> (r: JsonValue)
        ensures
            jv_of(r) == Jv::Arr(self@),
    {
        JsonValue::Arr(self.items)
    }
}

/// Looks a key up among an object's fields: the first field with that
/// name, or `None` where no field has it.
pub open spec fn obj_lookup(fields: Seq<(Seq<char>, Jv)>, key: Seq<char>) -> Option<Jv>
    decreases fields.len(),
{
    if fields.len() == 0 {
        None
    } else if fields[0].0 == key {
        Some(fields[0].1)
    } else {
        obj_lookup(fields.drop_first(), key)
    }
}

/// What `get` returns on a value: a field of an object, nothing elsewhere.
pub open spec fn jv_get(v: Jv, key: Seq<char>) -> Option<Jv> {
    match v {
        Jv::Obj(fields) => obj_lookup(fields, key),
        _ => None,
    }
}

/// An integer field of an object: present only where the field exists
/// and holds an integer.
pub open spec fn int_field(a: Jv, key: Seq<char>) -> Option<int> {
    match jv_get(a, key) {
        Some(Jv::Int(i)) => Some(i),
        _ => None,
    }
}

/// An integer field read as nonnegative: a negative value counts as
/// absent, as an unsigned read of a signed number does.
pub open spec fn u64_field(a: Jv, key: Seq<char>) -> Option<int> {
    match int_field(a, key) {
        Some(i) => if i >= 0 {
            Some(i)
        } else {
            None
        },
        None => None,
    }
}

/// A string field of an object.
pub open spec fn str_field(a: Jv, key: Seq<char>) -> Option<Seq<char>> {
    match jv_get(a, key) {
        Some(Jv::Text(s)) => Some(s),
        _ => None,
    }
}

/// A boolean field of an object.
pub open spec fn bool_field(a: Jv, key: Seq<char>) -> Option<bool> {
    match jv_get(a, key) {
        Some(Jv::Bool(b)) => Some(b),
        _ => None,
    }
}

/// An array field of an object.
pub open spec fn arr_field(a: Jv, key: Seq<char>) -> Option<Seq<Jv>> {
    match jv_get(a, key) {
        Some(Jv::Arr(items)) => Some(items),
        _ => None,
    }
}

impl JsonValue {
    /// The named field of an object: the first field under that name,
    /// or nothing where the value is no object or has no such field.
    pub fn get(&self, key: &str) -> (r: Option<&JsonValue>)
        ensures
            match r {
                Some(v) => jv_get(jv_of(*self), key@) == Some(jv_of(*v)),
                None => jv_get(jv_of(*self), key@) is None,
            },
    {
        match self {
            JsonValue::Obj(fields) => {
                let ghost gfields = jv_of_fields(fields@);
                proof {
                    lemma_jv_of_fields_len(fields@);
                }
                let n = fields.len();
                let mut i: usize = 0;
                proof {
                    assert(gfields.skip(0) =~= gfields);
                }
                while i < n
                    invariant
                        *self == JsonValue::Obj(*fields),
                        n == fields@.len(),
                        gfields == jv_of_fields(fields@),
                        gfields.len() == n,
                        i <= n,
                        obj_lookup(gfields, key@) == obj_lookup(gfields.skip(i as int), key@),
                    decreases n - i,
                {
                    proof {
                        lemma_jv_of_fields_index(fields@, i as int);
                    }
                    if crate::strutil::str_eq(fields[i].0.as_str(), key) {
                        proof {
                            assert(gfields.skip(i as int)[0] == gfields[i as int]);
                        }
                        return Some(&fields[i].1);
                    }
                    proof {
                        assert(gfields.skip(i as int)[0] == gfields[i as int]);
                        assert(gfields.skip(i as int).drop_first() =~= gfields.skip(i + 1));
                    }
                    i += 1;
                }
                proof {
                    assert(gfields.skip(n as int) =~= Seq::<(Seq<char>, Jv)>::empty());
                }
                None
            },
            _ => None,
        }
    }

    /// An integer field, or nothing where absent or differently typed.
    pub fn get_i64(&self, key: &str) -> (r: Option<i64>)
        ensures
            match r {
                Some(v) => int_field(jv_of(*self), key@) == Some(v as int),
                None => int_field(jv_of(*self), key@) is None,
            },
    {
        match self.get(key) {
            Some(JsonValue::Int(i)) => Some(*i),
            _ => None,
        }
    }

    /// An integer field read as nonnegative.
    pub fn get_u64(&self, key: &str) -> (r: Option<u64>)
        ensures
            match r {
                Some(v) => u64_field(jv_of(*self), key@) == Some(v as int),
                None => u64_field(jv_of(*self), key@) is None,
            },
    {
        match self.get(key) {
            Some(JsonValue::Int(i)) => {
                if *i >= 0 {
                    Some(*i as u64)
                } else {
                    None
                }
            },
            _ => None,
        }
    }

    /// A boolean field, or nothing where absent or differently typed.
    pub fn get_bool(&self, key: &str) -> (r: Option<bool>)
        ensures
            match r {
                Some(v) => bool_field(jv_of(*self), key@) == Some(v),
                None => bool_field(jv_of(*self), key@) is None,
            },
    {
        match self.get(key) {
            Some(JsonValue::Bool(b)) => Some(*b),
            _ => None,
        }
    }

    /// A string field, or nothing where absent or differently typed.
    pub fn get_str(&self, key: &str) -> (r: Option<&String>)
        ensures
            match r {
                Some(s) => str_field(jv_of(*self), key@) == Some(s@),
                None => str_field(jv_of(*self), key@) is None,
            },
    {
        match self.get(key) {
            Some(JsonValue::Text(s)) => Some(s),
            _ => None,
        }
    }

    /// An array field, or nothing where absent or differently typed.
    pub fn get_arr(&self, key: &str) -> (r: Option<&Vec<JsonValue>>)
        ensures
            match r {
                Some(v) => arr_field(jv_of(*self), key@) == Some(jv_of_seq(v@)),
                None => arr_field(jv_of(*self), key@) is None,
            },
    {
        match self.get(key) {
            Some(JsonValue::Arr(items)) => Some(items),
            _ => None,
        }
    }
}

} // verus!
