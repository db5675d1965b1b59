//! Requests and results, and the uniform carrier that holds any of them.

use vstd::prelude::*;

verus! {

/// One field of an erased value.
#[derive(Clone, Debug, PartialEq, Eq)]
pub enum Value {
    Bool(bool),
    Int(i64),
    Text(String),
}

/// What a field holds, as contracts speak of it.
pub enum ValueModel {
    Bool(bool),
    Int(i64),
    Text(Seq<char>),
}

impl View for Value {
    type V = ValueModel;

    open spec fn view(&self) -> ValueModel {
        match self {
            Value::Bool(b) => ValueModel::Bool(*b),
            Value::Int(i) => ValueModel::Int(*i),
            Value::Text(s) => ValueModel::Text(s@),
        }
    }
}

/// A request or result whose concrete type is no longer known statically:
/// the key of that type, and the fields the value was made of.
#[derive(Clone, Debug, PartialEq, Eq)]
pub struct Erased {
    pub type_key: String,
    pub fields: Vec<Value>,
}

/// The model of an erased value.
pub struct ErasedModel {
    pub type_key: Seq<char>,
    pub fields: Seq<ValueModel>,
}

/// The models of a sequence of fields.
pub open spec fn field_models(fields: Seq<Value>) -> Seq<ValueModel> {
    fields.map_values(|v: Value| v@)
}

impl View for Erased {
    type V = ErasedModel;

    open spec fn view(&self) -> ErasedModel {
        ErasedModel { type_key: self.type_key@, fields: field_models(self.fields@) }
    }
}

impl Erased {
    /// An erased value made of a single text field.
    pub fn with_text(type_key: String, text: String) -> (r: Erased)
        ensures
            r@.type_key == type_key@,
            r@.fields == seq![ValueModel::Text(text@)],
    {
        let fields = vec![Value::Text(text)];
        let r = Erased { type_key, fields };
        assert(r@.fields =~= seq![ValueModel::Text(text@)]);
        r
    }

    /// The text of an erased value of type `type_key` made of a single text
    /// field; `None` for any other carrier.
    pub fn into_text(self, type_key: &String) -> (r: Option<String>)
        ensures
            r is Some <==> self@.type_key == type_key@ && single_text(self@.fields),
            r matches Some(s) ==> self@.fields == seq![ValueModel::Text(s@)],
    {
        if self.type_key != *type_key || self.fields.len() != 1 {
            return None;
        }
        let ghost before = self@.fields;
        let mut fields = self.fields;
        match fields.pop() {
            Some(Value::Text(s)) => {
                assert(before =~= seq![ValueModel::Text(s@)]);
                Some(s)
            },
            _ => None,
        }
    }
}

/// The fields are exactly one text field.
pub open spec fn single_text(fields: Seq<ValueModel>) -> bool {
    fields.len() == 1 && fields[0] is Text
}

/// A value that can be erased into an [`Erased`] carrier and restored from
/// one. The key of the type is its identity: two types must never share a
/// key.
pub trait Message: Sized {
    /// The key that identifies the type: its name.
    spec fn spec_type_key() -> Seq<char>;

    /// The fields that erasing `self` produces.
    spec fn spec_fields(&self) -> Seq<ValueModel>;

    /// Whether `fields` are the fields of some value of the type.
    spec fn spec_readable(fields: Seq<ValueModel>) -> bool;

    /// The fields of every value can be read back.
    proof fn lemma_fields_readable(&self)
        ensures
            Self::spec_readable(self.spec_fields()),
    ;

    fn type_key() -> (r: String)
        ensures
            r@ == Self::spec_type_key(),
    ;

    fn erase(self) -> (r: Erased)
        ensures
            r@.type_key == Self::spec_type_key(),
            r@.fields == self.spec_fields(),
    ;

    /// The value an erased carrier holds, when it holds one of this type.
    fn restore(erased: Erased) -> (r: Option<Self>)
        ensures
            r is Some <==> erased@.type_key == Self::spec_type_key() && Self::spec_readable(
                erased@.fields,
            ),
            r matches Some(v) ==> v.spec_fields() == erased@.fields,
    ;
}

/// A request that causes an effect and returns nothing to its caller.
pub trait Command: Message {}

/// A request for data.
pub trait Query: Message {}

} // verus!
