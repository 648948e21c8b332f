//! Service nodes and call edges: the call classifier (`Http` verb or `Rpc`),
//! the implementation-language classification, and the builder that turns one
//! raw service record plus a finalized entity list into a `Microservice`.
use crate::entity::{Entity, SpecEntity};
use crate::record::{list_entry, str_entry, ModelError, Record, SpecError};
use vstd::prelude::*;

verus! {

/// An HTTP verb recognized by the call classifier; any other `method` string
/// is a fatal `InvalidMethod` failure.
#[derive(Clone, Copy, PartialEq, Eq, Structural, Debug)]
pub enum HttpMethod {
    Get,
    Post,
    Put,
    Delete,
    Head,
    Options,
    Connect,
    Patch,
    Trace,
}

/// The classified kind of one service-to-service call: an HTTP call with its
/// verb, or a remote procedure call with no further structure.
#[derive(Clone, Copy, PartialEq, Eq, Structural, Debug)]
pub enum MicroserviceCall {
    Http(HttpMethod),
    Rpc,
}

/// Classification of a service's implementation language: an exact-match
/// table with a verbatim fallback, open for extension like `DatabaseType`.
#[derive(Clone, PartialEq, Eq, Debug)]
pub enum Language {
    Java,
    CSharp,
    Cpp,
    Python,
    Go,
    Unknown(String),
}

/// A modeled service node: its name, implementation language, and the
/// entities it references as stable indices into the entity graph's node
/// list (the entity graph must outlive every service graph built on it).
#[derive(Clone, Debug)]
pub struct Microservice {
    pub name: String,
    pub language: Language,
    pub ref_entities: Vec<usize>,
}

/// The mathematical image of a [`Language`].
pub ghost enum SpecLanguage {
    Java,
    CSharp,
    Cpp,
    Python,
    Go,
    Unknown(Seq<char>),
}

/// The mathematical image of a [`Microservice`].
pub ghost struct SpecMicroservice {
    pub name: Seq<char>,
    pub language: SpecLanguage,
    pub ref_entities: Seq<int>,
}

impl View for Language {
    type V = SpecLanguage;

    open spec fn view(&self) -> SpecLanguage {
        match self {
            Language::Java => SpecLanguage::Java,
            Language::CSharp => SpecLanguage::CSharp,
            Language::Cpp => SpecLanguage::Cpp,
            Language::Python => SpecLanguage::Python,
            Language::Go => SpecLanguage::Go,
            Language::Unknown(s) => SpecLanguage::Unknown(s@),
        }
    }
}

impl View for Microservice {
    type V = SpecMicroservice;

    open spec fn view(&self) -> SpecMicroservice {
        SpecMicroservice {
            name: self.name@,
            language: self.language@,
            ref_entities: self.ref_entities@.map_values(|u: usize| u as int),
        }
    }
}

/// The views of a list of entities, in order.
pub open spec fn entity_views(es: Seq<Entity>) -> Seq<SpecEntity> {
    es.map_values(|e: Entity| e@)
}

/// How an implementation-language string is classified.
pub open spec fn language_of(s: Seq<char>) -> SpecLanguage {
    if s == "java"@ {
        SpecLanguage::Java
    } else if s == "csharp"@ {
        SpecLanguage::CSharp
    } else if s == "cpp"@ {
        SpecLanguage::Cpp
    } else if s == "python"@ {
        SpecLanguage::Python
    } else if s == "go"@ {
        SpecLanguage::Go
    } else {
        SpecLanguage::Unknown(s)
    }
}

impl From<String> for Language {
    /// Classify an implementation-language string; unrecognized text is
    /// preserved verbatim as `Unknown`, never an error.
    fn from(value: String) -> (r: Language) {
        let java: String = "java".to_owned();
        let csharp: String = "csharp".to_owned();
        let cpp: String = "cpp".to_owned();
        let python: String = "python".to_owned();
        let go: String = "go".to_owned();
        if value == java {
            Language::Java
        } else if value == csharp {
            Language::CSharp
        } else if value == cpp {
            Language::Cpp
        } else if value == python {
            Language::Python
        } else if value == go {
            Language::Go
        } else {
            Language::Unknown(value)
        }
    }
}

impl vstd::std_specs::convert::FromSpecImpl<String> for Language {
    open spec fn obeys_from_spec() -> bool {
        true
    }

    open spec fn from_spec(v: String) -> Language {
        if v@ == "java"@ {
            Language::Java
        } else if v@ == "csharp"@ {
            Language::CSharp
        } else if v@ == "cpp"@ {
            Language::Cpp
        } else if v@ == "python"@ {
            Language::Python
        } else if v@ == "go"@ {
            Language::Go
        } else {
            Language::Unknown(v)
        }
    }
}

/// Which HTTP verb a `method` string names, if any.
pub open spec fn verb_of(s: Seq<char>) -> Option<HttpMethod> {
    if s == "GET"@ {
        Some(HttpMethod::Get)
    } else if s == "POST"@ {
        Some(HttpMethod::Post)
    } else if s == "PUT"@ {
        Some(HttpMethod::Put)
    } else if s == "DELETE"@ {
        Some(HttpMethod::Delete)
    } else if s == "HEAD"@ {
        Some(HttpMethod::Head)
    } else if s == "OPTIONS"@ {
        Some(HttpMethod::Options)
    } else if s == "CONNECT"@ {
        Some(HttpMethod::Connect)
    } else if s == "PATCH"@ {
        Some(HttpMethod::Patch)
    } else if s == "TRACE"@ {
        Some(HttpMethod::Trace)
    } else {
        None
    }
}

/// The `method` string of a call record, if one is extractable; a missing
/// or mis-typed `method` field leaves the call a plain `Rpc`.
pub open spec fn method_entry(c: Record) -> Option<Seq<char>> {
    match str_entry(c, "method"@) {
        Ok(m) => Some(m),
        Err(_) => None,
    }
}

/// What classifying one call record yields: `Http(verb)` when a `method`
/// string is extractable and names a known verb, a fatal `InvalidMethod`
/// when it names none, and `Rpc` when no `method` string is extractable.
pub open spec fn call_spec(c: Record) -> Result<MicroserviceCall, SpecError> {
    match method_entry(c) {
        None => Ok(MicroserviceCall::Rpc),
        Some(m) => match verb_of(m) {
            Some(v) => Ok(MicroserviceCall::Http(v)),
            None => Err(SpecError::InvalidMethod(m)),
        },
    }
}

/// Parse a `method` string as an HTTP verb by exact match.
fn parse_http_method(m: &str) -> (r: Option<HttpMethod>)
    ensures
        r == verb_of(m@),
{
    let s: String = m.to_owned();
    if s == "GET".to_owned() {
        Some(HttpMethod::Get)
    } else if s == "POST".to_owned() {
        Some(HttpMethod::Post)
    } else if s == "PUT".to_owned() {
        Some(HttpMethod::Put)
    } else if s == "DELETE".to_owned() {
        Some(HttpMethod::Delete)
    } else if s == "HEAD".to_owned() {
        Some(HttpMethod::Head)
    } else if s == "OPTIONS".to_owned() {
        Some(HttpMethod::Options)
    } else if s == "CONNECT".to_owned() {
        Some(HttpMethod::Connect)
    } else if s == "PATCH".to_owned() {
        Some(HttpMethod::Patch)
    } else if s == "TRACE".to_owned() {
        Some(HttpMethod::Trace)
    } else {
        None
    }
}

impl MicroserviceCall {
    /// Classify one call record. A missing (or mis-typed) `method` field
    /// makes the call an `Rpc`; a present `method` string must name a known
    /// HTTP verb, else the classification fails fatally.
    pub fn try_from(c: &Record) -> (res: Result<MicroserviceCall, ModelError>)
        ensures
            ({
                let want = call_spec(*c);
                match res {
                    Ok(k) => want == Ok::<MicroserviceCall, SpecError>(k),
                    Err(e) => want == Err::<MicroserviceCall, SpecError>(e@),
                }
            }),
    {
        match c.extract_string("method") {
            Err(_) => Ok(MicroserviceCall::Rpc),
            Ok(m) => match parse_http_method(m.as_str()) {
                Some(v) => Ok(MicroserviceCall::Http(v)),
                None => Err(ModelError::InvalidMethod(m)),
            },
        }
    }
}

/// The names a service's declared entity-reference records `rs[j..]`
/// expose, in order; a record without an extractable `name` is dropped
/// silently.
pub open spec fn parsed_names_from(rs: Seq<Record>, j: int) -> Seq<Seq<char>>
    decreases rs.len() - j,
{
    if j < 0 || j >= rs.len() {
        Seq::empty()
    } else {
        match str_entry(rs[j], "name"@) {
            Ok(n) => seq![n] + parsed_names_from(rs, j + 1),
            Err(_) => parsed_names_from(rs, j + 1),
        }
    }
}

/// Whether a service's declared entity-reference records yield the name `n`.
pub open spec fn declares_entity(rs: Seq<Record>, n: Seq<char>) -> bool {
    parsed_names_from(rs, 0).contains(n)
}

/// The indices (into the finalized entity list `ents`, from position `k`
/// on) of the entities a service references: exactly those whose name is
/// declared by one of its reference records, unmatched names dropped.
pub open spec fn ref_indices_from(ents: Seq<SpecEntity>, refs: Seq<Record>, k: int) -> Seq<int>
    decreases ents.len() - k,
{
    if k < 0 || k >= ents.len() {
        Seq::empty()
    } else {
        let rest = ref_indices_from(ents, refs, k + 1);
        if declares_entity(refs, ents[k].name) {
            seq![k] + rest
        } else {
            rest
        }
    }
}

/// The referenced-entity indices of a service, in entity-list order.
pub open spec fn ref_indices(ents: Seq<SpecEntity>, refs: Seq<Record>) -> Seq<int> {
    ref_indices_from(ents, refs, 0)
}

/// What building a [`Microservice`] from one service record yields: `name`
/// and `language` are both required, and a failure on either drops the
/// whole service node silently. The `entities` sequence is the service's
/// declared entity references; a missing or mis-typed sequence declares
/// nothing. Declared names are resolved against the finalized entity list
/// by exact match, unmatched names dropped — never an error.
pub open spec fn microservice_spec(r: Record, ents: Seq<SpecEntity>) -> Result<
    SpecMicroservice,
    SpecError,
> {
    match str_entry(r, "name"@) {
        Err(e) => Err(e),
        Ok(n) => match str_entry(r, "language"@) {
            Err(e) => Err(e),
            Ok(l) => {
                let refs = match list_entry(r, "entities"@) {
                    Ok(rs) => rs,
                    Err(_) => Seq::empty(),
                };
                Ok(
                    SpecMicroservice {
                        name: n,
                        language: language_of(l),
                        ref_entities: ref_indices(ents, refs),
                    },
                )
            },
        },
    }
}

/// Collect the names the entity-reference records expose, in order.
fn collect_declared_names(refs: &Vec<Record>) -> (names: Vec<String>)
    ensures
        names@.map_values(|s: String| s@) == parsed_names_from(refs@, 0),
{
    let mut names: Vec<String> = Vec::new();
    let mut j: usize = 0;
    while j < refs.len()
        invariant
            0 <= j <= refs@.len(),
            parsed_names_from(refs@, 0) == names@.map_values(|s: String| s@)
                + parsed_names_from(refs@, j as int),
        decreases refs@.len() - j,
    {
        let ghost before = names@.map_values(|s: String| s@);
        match refs[j].extract_string("name") {
            Ok(n) => {
                let ghost nv = n@;
                names.push(n);
                proof {
                    assert(names@.map_values(|s: String| s@) =~= before.push(nv));
                    assert(before.push(nv) + parsed_names_from(refs@, j + 1) =~= before
                        + parsed_names_from(refs@, j as int));
                }
            },
            Err(_) => {},
        }
        j = j + 1;
    }
    names
}

/// A sequence of string views has a member `n` exactly when one of the
/// strings reads `n`.
proof fn lemma_views_contain(names: Seq<String>, n: Seq<char>)
    ensures
        names.map_values(|s: String| s@).contains(n) == (exists|m: int|
            0 <= m < names.len() && (#[trigger] names[m])@ == n),
{
    let mapped = names.map_values(|s: String| s@);
    if exists|m: int| 0 <= m < names.len() && (#[trigger] names[m])@ == n {
        let m = choose|m: int| 0 <= m < names.len() && (#[trigger] names[m])@ == n;
        assert(mapped[m] == n);
    }
    if mapped.contains(n) {
        let m = choose|m: int| 0 <= m < mapped.len() && mapped[m] == n;
        assert(names[m]@ == n);
    }
}

/// Whether some collected name reads `n`.
fn names_contain(names: &Vec<String>, n: &String) -> (r: bool)
    ensures
        r == names@.map_values(|s: String| s@).contains(n@),
{
    proof {
        lemma_views_contain(names@, n@);
    }
    let mut j: usize = 0;
    while j < names.len()
        invariant
            0 <= j <= names@.len(),
            forall|m: int| 0 <= m < j ==> (#[trigger] names@[m])@ != n@,
        decreases names@.len() - j,
    {
        if names[j].eq(n) {
            proof {
                lemma_views_contain(names@, n@);
            }
            return true;
        }
        j = j + 1;
    }
    proof {
        lemma_views_contain(names@, n@);
    }
    false
}

impl Microservice {
    /// Build one service node from a raw record against the finalized
    /// entity list. `name` and `language` are both required; on a failure
    /// the whole node is dropped (the error is surfaced here and discarded
    /// by the caller). A missing or mis-typed `entities` sequence declares
    /// no references; unresolved entity names are dropped from the
    /// references, never an error.
    pub fn try_from(r: &Record, ents: &Vec<Entity>) -> (res: Result<Microservice, ModelError>)
        ensures
            ({
                let want = microservice_spec(*r, entity_views(ents@));
                match res {
                    Ok(m) => want == Ok::<SpecMicroservice, SpecError>(m@),
                    Err(e) => want == Err::<SpecMicroservice, SpecError>(e@),
                }
            }),
    {
        let name = match r.extract_string("name") {
            Ok(n) => n,
            Err(e) => return Err(e),
        };
        let language_text = match r.extract_string("language") {
            Ok(l) => l,
            Err(e) => return Err(e),
        };
        let ghost refsv = match list_entry(*r, "entities"@) {
            Ok(rs) => rs,
            Err(_) => Seq::empty(),
        };
        let names = match r.extract_records("entities") {
            Ok(refs) => collect_declared_names(refs),
            Err(_) => Vec::new(),
        };
        proof {
            assert(names@.map_values(|s: String| s@) =~= parsed_names_from(refsv, 0));
        }
        let mut ref_entities: Vec<usize> = Vec::new();
        let mut k: usize = 0;
        while k < ents.len()
            invariant
                0 <= k <= ents@.len(),
                names@.map_values(|s: String| s@) == parsed_names_from(refsv, 0),
                ref_indices(entity_views(ents@), refsv) == ref_entities@.map_values(
                    |u: usize| u as int,
                ) + ref_indices_from(entity_views(ents@), refsv, k as int),
            decreases ents@.len() - k,
        {
            let ghost before = ref_entities@.map_values(|u: usize| u as int);
            if names_contain(&names, &ents[k].name) {
                assert(declares_entity(refsv, entity_views(ents@)[k as int].name));
                ref_entities.push(k);
                proof {
                    assert(ref_entities@.map_values(|u: usize| u as int) =~= before.push(k as int));
                    assert(before.push(k as int) + ref_indices_from(
                        entity_views(ents@),
                        refsv,
                        k + 1,
                    ) =~= before + ref_indices_from(entity_views(ents@), refsv, k as int));
                }
            } else {
                assert(!declares_entity(refsv, entity_views(ents@)[k as int].name));
            }
            k = k + 1;
        }
        let language = Language::from(language_text);
        Ok(Microservice { name, language, ref_entities })
    }
}

} // verus!
