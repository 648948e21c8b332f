//! Data entities: loosely typed field descriptors, database-type
//! classification, and the entity builder. A missing `name` or `type` aborts
//! one entity's construction; a malformed individual field record is dropped
//! silently while the entity itself still builds (lenient policy).
use crate::record::{list_entry, str_entry, ModelError, Record, SpecError};
use vstd::prelude::*;

verus! {

/// A loosely typed schema descriptor of one entity field; the `ty` text is
/// kept verbatim, with no further validation.
#[derive(Clone, PartialEq, Eq, Debug)]
pub struct Field {
    pub name: String,
    pub ty: String,
}

/// Classification of the persistence technology an entity belongs to.
/// `Unknown` preserves the original text verbatim: an unrecognized database
/// name is forward-compatible data, never an error.
#[derive(Clone, PartialEq, Eq, Debug)]
pub enum DatabaseType {
    MySQL,
    MongoDB,
    Unknown(String),
}

/// Relationship cardinality between two entities: an open classification,
/// deliberately left unpopulated until relationship inference is designed
/// (at least one-to-one, one-to-many, many-to-many and optional variants
/// are expected then). Entity graphs carry no edges yet.
pub struct Multiplicity {}

/// A modeled data element: name, ordered field list and database type.
#[derive(Clone, PartialEq, Eq, Debug)]
pub struct Entity {
    pub name: String,
    pub fields: Vec<Field>,
    pub ty: DatabaseType,
}

/// The mathematical image of a [`Field`].
pub ghost struct SpecField {
    pub name: Seq<char>,
    pub ty: Seq<char>,
}

/// The mathematical image of a [`DatabaseType`].
pub ghost enum SpecDatabaseType {
    MySQL,
    MongoDB,
    Unknown(Seq<char>),
}

/// The mathematical image of an [`Entity`].
pub ghost struct SpecEntity {
    pub name: Seq<char>,
    pub fields: Seq<SpecField>,
    pub ty: SpecDatabaseType,
}

impl View for Field {
    type V = SpecField;

    open spec fn view(&self) -> SpecField {
        SpecField { name: self.name@, ty: self.ty@ }
    }
}

impl View for DatabaseType {
    type V = SpecDatabaseType;

    open spec fn view(&self) -> SpecDatabaseType {
        match self {
            DatabaseType::MySQL => SpecDatabaseType::MySQL,
            DatabaseType::MongoDB => SpecDatabaseType::MongoDB,
            DatabaseType::Unknown(s) => SpecDatabaseType::Unknown(s@),
        }
    }
}

impl View for Entity {
    type V = SpecEntity;

    open spec fn view(&self) -> SpecEntity {
        SpecEntity {
            name: self.name@,
            fields: self.fields@.map_values(|f: Field| f@),
            ty: self.ty@,
        }
    }
}

/// How a database-type string is classified: an exact-match table with a
/// verbatim fallback. Total; never an error.
pub open spec fn database_type_of(s: Seq<char>) -> SpecDatabaseType {
    if s == "MySQL"@ {
        SpecDatabaseType::MySQL
    } else if s == "MongoDB"@ {
        SpecDatabaseType::MongoDB
    } else {
        SpecDatabaseType::Unknown(s)
    }
}

/// The database-type string a classification reads back as.
pub open spec fn database_type_text(t: SpecDatabaseType) -> Seq<char> {
    match t {
        SpecDatabaseType::MySQL => "MySQL"@,
        SpecDatabaseType::MongoDB => "MongoDB"@,
        SpecDatabaseType::Unknown(s) => s,
    }
}

/// Re-serializing a classified database type reproduces the classified text
/// exactly; in particular an `Unknown` value preserves its original string.
pub proof fn lemma_database_type_text_round_trip(s: Seq<char>)
    ensures
        database_type_text(database_type_of(s)) == s,
{
}

/// What building a [`Field`] from one record yields: both `name` and `type`
/// are required, and the first failure is the field's failure.
pub open spec fn field_spec(r: Record) -> Result<SpecField, SpecError> {
    match str_entry(r, "name"@) {
        Err(e) => Err(e),
        Ok(n) => match str_entry(r, "type"@) {
            Err(e) => Err(e),
            Ok(t) => Ok(SpecField { name: n, ty: t }),
        },
    }
}

/// The fields built from `rs[i..]`, in order, with records that fail to
/// parse dropped silently.
pub open spec fn fields_from(rs: Seq<Record>, i: int) -> Seq<SpecField>
    decreases rs.len() - i,
{
    if i < 0 || i >= rs.len() {
        Seq::empty()
    } else {
        match field_spec(rs[i]) {
            Ok(f) => seq![f] + fields_from(rs, i + 1),
            Err(_) => fields_from(rs, i + 1),
        }
    }
}

/// The fields an entity keeps out of its raw `fields` sequence.
pub open spec fn fields_of(rs: Seq<Record>) -> Seq<SpecField> {
    fields_from(rs, 0)
}

/// What building an [`Entity`] from one record yields: `name`, `type` and
/// the `fields` sequence are required (their absence aborts this entity),
/// while each individual field record may fail and is then dropped.
pub open spec fn entity_spec(r: Record) -> Result<SpecEntity, SpecError> {
    match str_entry(r, "name"@) {
        Err(e) => Err(e),
        Ok(n) => match str_entry(r, "type"@) {
            Err(e) => Err(e),
            Ok(t) => match list_entry(r, "fields"@) {
                Err(e) => Err(e),
                Ok(frs) => Ok(
                    SpecEntity { name: n, fields: fields_of(frs), ty: database_type_of(t) },
                ),
            },
        },
    }
}

/// An entity whose every field record is malformed keeps an empty field
/// list; the entity itself is not dropped on that account.
pub proof fn lemma_all_malformed_fields_drop(rs: Seq<Record>)
    requires
        forall|i: int| 0 <= i < rs.len() ==> #[trigger] field_spec(rs[i]) is Err,
    ensures
        fields_of(rs) == Seq::<SpecField>::empty(),
{
    lemma_all_malformed_fields_drop_from(rs, 0);
}

proof fn lemma_all_malformed_fields_drop_from(rs: Seq<Record>, i: int)
    requires
        forall|j: int| 0 <= j < rs.len() ==> #[trigger] field_spec(rs[j]) is Err,
    ensures
        fields_from(rs, i) == Seq::<SpecField>::empty(),
    decreases rs.len() - i,
{
    if 0 <= i < rs.len() {
        lemma_all_malformed_fields_drop_from(rs, i + 1);
    }
}

/// A copy of a database type that reads as the original.
pub(crate) fn clone_database_type(t: &DatabaseType) -> (r: DatabaseType)
    ensures
        r@ == t@,
{
    match t {
        DatabaseType::MySQL => DatabaseType::MySQL,
        DatabaseType::MongoDB => DatabaseType::MongoDB,
        DatabaseType::Unknown(s) => DatabaseType::Unknown(s.clone()),
    }
}

/// A copy of a field descriptor that reads as the original.
pub(crate) fn clone_field(f: &Field) -> (r: Field)
    ensures
        r@ == f@,
{
    Field { name: f.name.clone(), ty: f.ty.clone() }
}

/// A copy of an entity that reads as the original.
pub(crate) fn clone_entity(e: &Entity) -> (r: Entity)
    ensures
        r@ == e@,
{
    let mut fields: Vec<Field> = Vec::new();
    let mut i: usize = 0;
    while i < e.fields.len()
        invariant
            0 <= i <= e.fields@.len(),
            fields@.len() == i,
            forall|m: int| 0 <= m < i ==> (#[trigger] fields@[m])@ == e.fields@[m]@,
        decreases e.fields@.len() - i,
    {
        fields.push(clone_field(&e.fields[i]));
        i = i + 1;
    }
    let r = Entity { name: e.name.clone(), fields, ty: clone_database_type(&e.ty) };
    proof {
        assert(r@.fields =~= e@.fields);
    }
    r
}

impl From<String> for DatabaseType {
    /// Classify a database-type string: exact matches for the known stores,
    /// any other text preserved verbatim as `Unknown`.
    fn from(value: String) -> (r: DatabaseType) {
        let mysql: String = "MySQL".to_owned();
        let mongo: String = "MongoDB".to_owned();
        if value == mysql {
            DatabaseType::MySQL
        } else if value == mongo {
            DatabaseType::MongoDB
        } else {
            DatabaseType::Unknown(value)
        }
    }
}

impl vstd::std_specs::convert::FromSpecImpl<String> for DatabaseType {
    open spec fn obeys_from_spec() -> bool {
        true
    }

    open spec fn from_spec(v: String) -> DatabaseType {
        if v@ == "MySQL"@ {
            DatabaseType::MySQL
        } else if v@ == "MongoDB"@ {
            DatabaseType::MongoDB
        } else {
            DatabaseType::Unknown(v)
        }
    }
}

impl DatabaseType {
    /// The database-type string this classification reads back as; an
    /// `Unknown` value reproduces its original text exactly.
    pub fn text(&self) -> (r: &str)
        ensures
            r@ == database_type_text(self@),
    {
        match self {
            DatabaseType::MySQL => "MySQL",
            DatabaseType::MongoDB => "MongoDB",
            DatabaseType::Unknown(s) => s.as_str(),
        }
    }
}

impl Field {
    /// Build one field descriptor from a record; `name` and `type` are both
    /// required.
    pub fn try_from(r: &Record) -> (res: Result<Field, ModelError>)
        ensures
            ({
                let want = field_spec(*r);
                match res {
                    Ok(f) => want == Ok::<SpecField, SpecError>(f@),
                    Err(e) => want == Err::<SpecField, SpecError>(e@),
                }
            }),
    {
        let name = match r.extract_string("name") {
            Ok(n) => n,
            Err(e) => return Err(e),
        };
        let ty = match r.extract_string("type") {
            Ok(t) => t,
            Err(e) => return Err(e),
        };
        Ok(Field { name, ty })
    }
}

impl Entity {
    /// Build one entity from a record. `name`, `type` and the `fields`
    /// sequence are required; individual field records that fail to parse
    /// are dropped silently, and the entity still builds.
    pub fn try_from(r: &Record) -> (res: Result<Entity, ModelError>)
        ensures
            ({
                let want = entity_spec(*r);
                match res {
                    Ok(e) => want == Ok::<SpecEntity, SpecError>(e@),
                    Err(er) => want == Err::<SpecEntity, SpecError>(er@),
                }
            }),
    {
        let name = match r.extract_string("name") {
            Ok(n) => n,
            Err(e) => return Err(e),
        };
        let ty_text = match r.extract_string("type") {
            Ok(t) => t,
            Err(e) => return Err(e),
        };
        let field_records = match r.extract_records("fields") {
            Ok(v) => v,
            Err(e) => return Err(e),
        };
        let ghost frs = field_records@;
        let mut fields: Vec<Field> = Vec::new();
        let mut i: usize = 0;
        while i < field_records.len()
            invariant
                0 <= i <= frs.len(),
                field_records@ == frs,
                fields_of(frs) == fields@.map_values(|f: Field| f@) + fields_from(
                    frs,
                    i as int,
                ),
            decreases frs.len() - i,
        {
            let ghost fields_before = fields@.map_values(|f: Field| f@);
            match Field::try_from(&field_records[i]) {
                Ok(f) => {
                    let ghost fv = f@;
                    fields.push(f);
                    proof {
                        assert(fields@.map_values(|f: Field| f@) =~= fields_before.push(fv));
                        assert(fields_before.push(fv) + fields_from(frs, i + 1) =~= fields_before
                            + fields_from(frs, i as int));
                    }
                },
                Err(_) => {},
            }
            i = i + 1;
        }
        let ty = DatabaseType::from(ty_text);
        Ok(Entity { name, fields, ty })
    }
}

} // verus!
