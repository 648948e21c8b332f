//! Semi-structured description records: an ordered mapping of field names to
//! dynamically typed values, as handed over by the extraction layer that
//! parses source text. Lookups are exact-match, case-sensitive and take the
//! first occurrence of a key.
use vstd::prelude::*;

verus! {

/// A dynamically typed value held by one field of a [`Record`].
pub enum Value {
    /// A scalar string value.
    Str(String),
    /// An ordered sequence of nested records.
    List(Vec<Record>),
}

/// One semi-structured description record: an ordered mapping of field
/// names to values. Keys are expected unique; lookups take the first match.
pub struct Record {
    pub entries: Vec<(String, Value)>,
}

/// The result of the extraction layer: named top-level context records.
pub struct ExtractionResult {
    pub contexts: Vec<(String, Record)>,
}

/// A typed field-extraction or classification failure. The carried string
/// names the offending field (or, for `InvalidMethod`, the offending verb).
#[derive(Clone, PartialEq, Eq, Debug)]
pub enum ModelError {
    /// The requested field is absent from the record.
    MissingField(String),
    /// The requested field is present but holds a value of the wrong shape.
    WrongType(String),
    /// A call record carries a `method` string that is no known HTTP verb.
    InvalidMethod(String),
}

/// The mathematical image of a [`ModelError`].
pub ghost enum SpecError {
    MissingField(Seq<char>),
    WrongType(Seq<char>),
    InvalidMethod(Seq<char>),
}

impl View for ModelError {
    type V = SpecError;

    open spec fn view(&self) -> SpecError {
        match self {
            ModelError::MissingField(s) => SpecError::MissingField(s@),
            ModelError::WrongType(s) => SpecError::WrongType(s@),
            ModelError::InvalidMethod(s) => SpecError::InvalidMethod(s@),
        }
    }
}

/// First entry of `entries[i..]` whose key reads `key`, if any.
pub open spec fn lookup_from(entries: Seq<(String, Value)>, key: Seq<char>, i: int) -> Option<
    Value,
>
    decreases entries.len() - i,
{
    if i < 0 || i >= entries.len() {
        None
    } else if entries[i].0@ == key {
        Some(entries[i].1)
    } else {
        lookup_from(entries, key, i + 1)
    }
}

/// The value of the first field of `r` named `key`, if any.
pub open spec fn lookup(r: Record, key: Seq<char>) -> Option<Value> {
    lookup_from(r.entries@, key, 0)
}

/// What extracting a scalar string field named `key` from `r` yields.
pub open spec fn str_entry(r: Record, key: Seq<char>) -> Result<Seq<char>, SpecError> {
    match lookup(r, key) {
        None => Err(SpecError::MissingField(key)),
        Some(Value::Str(s)) => Ok(s@),
        Some(Value::List(_)) => Err(SpecError::WrongType(key)),
    }
}

/// What extracting a sequence-of-records field named `key` from `r` yields.
pub open spec fn list_entry(r: Record, key: Seq<char>) -> Result<Seq<Record>, SpecError> {
    match lookup(r, key) {
        None => Err(SpecError::MissingField(key)),
        Some(Value::List(v)) => Ok(v@),
        Some(Value::Str(_)) => Err(SpecError::WrongType(key)),
    }
}

/// First context of `cs[i..]` named `key`, if any.
pub open spec fn context_from(cs: Seq<(String, Record)>, key: Seq<char>, i: int) -> Option<Record>
    decreases cs.len() - i,
{
    if i < 0 || i >= cs.len() {
        None
    } else if cs[i].0@ == key {
        Some(cs[i].1)
    } else {
        context_from(cs, key, i + 1)
    }
}

/// The first top-level context of `x` named `key`, if any.
pub open spec fn context_of(x: ExtractionResult, key: Seq<char>) -> Option<Record> {
    context_from(x.contexts@, key, 0)
}

/// Reference to the value of the first field of `r` named `key`, if any.
pub fn find_entry<'a>(r: &'a Record, key: &str) -> (res: Option<&'a Value>)
    ensures
        match res {
            Some(v) => lookup(*r, key@) == Some(*v),
            None => lookup(*r, key@) is None,
        },
{
    let k: String = key.to_owned();
    let mut i: usize = 0;
    while i < r.entries.len()
        invariant
            0 <= i <= r.entries@.len(),
            k@ == key@,
            lookup(*r, key@) == lookup_from(r.entries@, key@, i as int),
        decreases r.entries@.len() - i,
    {
        if r.entries[i].0 == k {
            return Some(&r.entries[i].1);
        }
        i = i + 1;
    }
    None
}

impl Record {
    /// Extract the scalar string field named `key`, per the first-occurrence
    /// lookup rule; fails with a typed error on a missing or mis-typed field.
    pub fn extract_string(&self, key: &str) -> (res: Result<String, ModelError>)
        ensures
            ({
                let want = str_entry(*self, key@);
                match res {
                    Ok(s) => want == Ok::<Seq<char>, SpecError>(s@),
                    Err(e) => want == Err::<Seq<char>, SpecError>(e@),
                }
            }),
    {
        match find_entry(self, key) {
            Some(Value::Str(s)) => Ok(s.clone()),
            Some(Value::List(_)) => Err(ModelError::WrongType(key.to_owned())),
            None => Err(ModelError::MissingField(key.to_owned())),
        }
    }

    /// Extract the sequence-of-records field named `key`, per the
    /// first-occurrence lookup rule; fails with a typed error on a missing
    /// or mis-typed field.
    pub fn extract_records(&self, key: &str) -> (res: Result<&Vec<Record>, ModelError>)
        ensures
            ({
                let want = list_entry(*self, key@);
                match res {
                    Ok(v) => want == Ok::<Seq<Record>, SpecError>(v@),
                    Err(e) => want == Err::<Seq<Record>, SpecError>(e@),
                }
            }),
    {
        match find_entry(self, key) {
            Some(Value::List(v)) => Ok(v),
            Some(Value::Str(_)) => Err(ModelError::WrongType(key.to_owned())),
            None => Err(ModelError::MissingField(key.to_owned())),
        }
    }
}

impl ExtractionResult {
    /// The first top-level context named `key`, if any.
    pub fn get(&self, key: &str) -> (res: Option<&Record>)
        ensures
            match res {
                Some(r) => context_of(*self, key@) == Some(*r),
                None => context_of(*self, key@) is None,
            },
    {
        let k: String = key.to_owned();
        let mut i: usize = 0;
        while i < self.contexts.len()
            invariant
                0 <= i <= self.contexts@.len(),
                k@ == key@,
                context_of(*self, key@) == context_from(self.contexts@, key@, i as int),
            decreases self.contexts@.len() - i,
        {
            if self.contexts[i].0 == k {
                return Some(&self.contexts[i].1);
            }
            i = i + 1;
        }
        None
    }
}

} // verus!
