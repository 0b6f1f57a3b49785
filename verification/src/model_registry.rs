//! The model registry: the named models that the process knows, each with its
//! metadata and its place in the lifecycle.

use std::time::SystemTime;
use vstd::prelude::*;
use vstd::string::*;

verus! {

/// Where a model stands in its lifecycle.
#[derive(Clone, Copy, Debug, PartialEq, Eq, Structural)]
pub enum ModelStatus {
    Unloaded,
    Loading,
    Loaded,
    Error,
}

/// Which kind of engine generates text for a model.
#[derive(Clone, Copy, Debug, PartialEq, Eq, Structural)]
pub enum EngineKind {
    Dummy,
    Candle,
}

impl ModelStatus {
    /// The variant's name, as it is shown to clients.
    pub open spec fn label(self) -> Seq<char> {
        match self {
            ModelStatus::Unloaded => "Unloaded"@,
            ModelStatus::Loading => "Loading"@,
            ModelStatus::Loaded => "Loaded"@,
            ModelStatus::Error => "Error"@,
        }
    }

    pub fn name(self) -> (r: &'static str)
        ensures
            r@ == self.label(),
    {
        match self {
            ModelStatus::Unloaded => "Unloaded",
            ModelStatus::Loading => "Loading",
            ModelStatus::Loaded => "Loaded",
            ModelStatus::Error => "Error",
        }
    }
}

impl EngineKind {
    /// The variant's name, as it is shown to clients.
    pub open spec fn label(self) -> Seq<char> {
        match self {
            EngineKind::Dummy => "Dummy"@,
            EngineKind::Candle => "Candle"@,
        }
    }

    pub fn name(self) -> (r: &'static str)
        ensures
            r@ == self.label(),
    {
        match self {
            EngineKind::Dummy => "Dummy",
            EngineKind::Candle => "Candle",
        }
    }
}

/// `std::time::SystemTime`, a point in time that is carried and never looked
/// into.
#[verifier::external_type_specification]
#[verifier::external_body]
pub struct ExSystemTime(SystemTime);

/// `SystemTime::now` reads the clock: nothing is promised of the time it
/// returns.
pub assume_specification[ SystemTime::now ]() -> SystemTime;

/// What the registry records of one model.
#[derive(Debug)]
pub struct ModelMetadata {
    pub name: String,
    pub status: ModelStatus,
    pub path: String,
    pub quantization: String,
    pub engine_kind: EngineKind,
    pub last_updated: Option<SystemTime>,
}

impl Clone for ModelMetadata {
    fn clone(&self) -> (r: Self)
        ensures
            r == *self,
    {
        ModelMetadata {
            name: self.name.clone(),
            status: self.status,
            path: self.path.clone(),
            quantization: self.quantization.clone(),
            engine_kind: self.engine_kind,
            last_updated: self.last_updated,
        }
    }
}

impl ModelMetadata {
    /// The record of a model that was never loaded.
    pub fn new(name: &str, path: &str, quantization: &str, engine_kind: EngineKind) -> (r: Self)
        ensures
            r.name@ == name@,
            r.status == ModelStatus::Unloaded,
            r.path@ == path@,
            r.quantization@ == quantization@,
            r.engine_kind == engine_kind,
            r.last_updated is None,
    {
        ModelMetadata {
            name: name.to_owned(),
            status: ModelStatus::Unloaded,
            path: path.to_owned(),
            quantization: quantization.to_owned(),
            engine_kind,
            last_updated: None,
        }
    }
}

/// No two entries carry the same name.
pub open spec fn distinct_names(entries: Seq<ModelMetadata>) -> bool {
    forall|i: int, j: int|
        0 <= i < j < entries.len() ==> (#[trigger] entries[i]).name@ != (
        #[trigger] entries[j]).name@
}

/// Whether an entry named `name` exists.
pub open spec fn has_model(entries: Seq<ModelMetadata>, name: Seq<char>) -> bool {
    exists|i: int| 0 <= i < entries.len() && (#[trigger] entries[i]).name@ == name
}

/// The place of the entry named `name`, where there is one.
pub open spec fn index_of(entries: Seq<ModelMetadata>, name: Seq<char>) -> int {
    choose|i: int| 0 <= i < entries.len() && (#[trigger] entries[i]).name@ == name
}

/// The entry named `name`, if there is one.
pub open spec fn lookup(entries: Seq<ModelMetadata>, name: Seq<char>) -> Option<ModelMetadata> {
    if has_model(entries, name) {
        Some(entries[index_of(entries, name)])
    } else {
        None
    }
}

/// `after` is `before` moved to `status`: the timestamp is set, and nothing
/// else has changed.
pub open spec fn moved_to(
    before: ModelMetadata,
    status: ModelStatus,
    after: ModelMetadata,
) -> bool {
    &&& after.name == before.name
    &&& after.status == status
    &&& after.path == before.path
    &&& after.quantization == before.quantization
    &&& after.engine_kind == before.engine_kind
    &&& after.last_updated is Some
}

/// `before` moved to `status` at the time `at`.
pub open spec fn stamped(
    before: ModelMetadata,
    status: ModelStatus,
    at: SystemTime,
) -> ModelMetadata {
    ModelMetadata { status, last_updated: Some(at), ..before }
}

/// `after` is `before` with the entry named `name` moved to `status`, and all
/// other entries untouched, each in its place.
pub open spec fn status_set(
    before: Seq<ModelMetadata>,
    name: Seq<char>,
    status: ModelStatus,
    after: Seq<ModelMetadata>,
) -> bool {
    if has_model(before, name) {
        let i = index_of(before, name);
        &&& after == before.update(i, after[i])
        &&& moved_to(before[i], status, after[i])
    } else {
        after == before
    }
}

/// The entries that a fresh registry holds.
pub open spec fn is_seed(entries: Seq<ModelMetadata>) -> bool {
    &&& entries.len() == 2
    &&& entries[0].name@ == "mistral-7b"@
    &&& entries[0].path@ == "./models/mistral-7b"@
    &&& entries[0].quantization@ == "q4_k_m"@
    &&& entries[0].engine_kind == EngineKind::Candle
    &&& entries[0].status == ModelStatus::Unloaded
    &&& entries[0].last_updated is None
    &&& entries[1].name@ == "llama-3b"@
    &&& entries[1].path@ == "./models/llama-3b"@
    &&& entries[1].quantization@ == "q4_k_m"@
    &&& entries[1].engine_kind == EngineKind::Dummy
    &&& entries[1].status == ModelStatus::Unloaded
    &&& entries[1].last_updated is None
}

/// The models of the process, each under its own name. The set of names is
/// fixed when the registry is made; only the status of an entry changes, and
/// only through [`ModelRegistry::set_status`].
pub struct ModelRegistry {
    models: Vec<ModelMetadata>,
}

impl View for ModelRegistry {
    type V = Seq<ModelMetadata>;

    closed spec fn view(&self) -> Seq<ModelMetadata> {
        self.models@
    }
}

impl ModelRegistry {
    /// The registry's invariant: every name occurs once.
    #[verifier::type_invariant]
    pub open spec fn wf(&self) -> bool {
        distinct_names(self@)
    }

    /// A registry with the two example models, both unloaded.
    pub fn new() -> (r: Self)
        ensures
            r.wf(),
            is_seed(r@),
    {
        let mut models: Vec<ModelMetadata> = Vec::new();
        models.push(
            ModelMetadata::new("mistral-7b", "./models/mistral-7b", "q4_k_m", EngineKind::Candle),
        );
        models.push(
            ModelMetadata::new("llama-3b", "./models/llama-3b", "q4_k_m", EngineKind::Dummy),
        );
        proof {
            reveal_strlit("mistral-7b");
            reveal_strlit("llama-3b");
            assert("mistral-7b"@.len() != "llama-3b"@.len());
        }
        ModelRegistry { models }
    }

    /// Where the entry named `name` stands, if there is one.
    fn position(&self, name: &str) -> (r: Option<usize>)
        ensures
            r is Some == has_model(self@, name@),
            r matches Some(i) ==> i == index_of(self@, name@) && i < self@.len()
                && self@[i as int].name@ == name@,
    {
        proof {
            use_type_invariant(self);
        }
        let key = name.to_owned();
        let mut i: usize = 0;
        while i < self.models.len()
            invariant
                i <= self.models.len(),
                key@ == name@,
                distinct_names(self.models@),
                forall|k: int| 0 <= k < i ==> (#[trigger] self.models@[k]).name@ != name@,
            decreases self.models.len() - i,
        {
            if self.models[i].name == key {
                return Some(i);
            }
            i = i + 1;
        }
        None
    }

    /// Every entry, in the order in which the registry holds them.
    pub fn list_models(&self) -> (r: Vec<ModelMetadata>)
        ensures
            r@ == self@,
    {
        let mut out: Vec<ModelMetadata> = Vec::new();
        let mut i: usize = 0;
        while i < self.models.len()
            invariant
                i <= self.models.len(),
                out@ == self.models@.take(i as int),
            decreases self.models.len() - i,
        {
            out.push(self.models[i].clone());
            assert(self.models@.take(i + 1) == self.models@.take(i as int).push(
                self.models@[i as int],
            ));
            i = i + 1;
        }
        assert(self.models@.take(self.models@.len() as int) == self.models@);
        out
    }

    /// Moves the model named `name` to `status` and stamps it with the current
    /// time. Returns the entry as it stands afterwards, or `None`, with nothing
    /// changed, where no model has that name.
    pub fn set_status(&mut self, name: &str, status: ModelStatus) -> (r: Option<ModelMetadata>)
        ensures
            final(self).wf(),
            status_set(old(self)@, name@, status, final(self)@),
            r == lookup(final(self)@, name@),
            r is Some == has_model(old(self)@, name@),
    {
        self.set_status_at(name, status, SystemTime::now())
    }

    /// Moves the model named `name` to `status` and stamps it with the time
    /// `at`. Returns the entry as it stands afterwards, or `None`, with nothing
    /// changed, where no model has that name.
    pub fn set_status_at(&mut self, name: &str, status: ModelStatus, at: SystemTime) -> (r: Option<
        ModelMetadata,
    >)
        ensures
            final(self).wf(),
            status_set(old(self)@, name@, status, final(self)@),
            r == lookup(final(self)@, name@),
            r is Some == has_model(old(self)@, name@),
            r matches Some(after) ==> after == stamped(
                lookup(old(self)@, name@)->0,
                status,
                at,
            ),
    {
        proof {
            use_type_invariant(&*self);
        }
        match self.position(name) {
            Some(i) => {
                let ghost before = self.models@;
                let moved = ModelMetadata {
                    name: self.models[i].name.clone(),
                    status,
                    path: self.models[i].path.clone(),
                    quantization: self.models[i].quantization.clone(),
                    engine_kind: self.models[i].engine_kind,
                    last_updated: Some(at),
                };
                let copy = moved.clone();
                let mut models: Vec<ModelMetadata> = Vec::new();
                std::mem::swap(&mut self.models, &mut models);
                models.set(i, moved);
                self.models = models;
                proof {
                    assert(self.models@ == before.update(i as int, self.models@[i as int]));
                    assert(has_model(self.models@, name@));
                    assert(distinct_names(self.models@));
                }
                Some(copy)
            },
            None => {
                proof {
                    assert(!has_model(self.models@, name@));
                }
                None
            },
        }
    }

    /// The entry named `name`, if there is one.
    pub fn get_model(&self, name: &str) -> (r: Option<ModelMetadata>)
        ensures
            r == lookup(self@, name@),
    {
        match self.position(name) {
            Some(i) => Some(self.models[i].clone()),
            None => None,
        }
    }
}

/// A status change keeps every name in its place: the model that was moved is
/// found where it was, with the status it was given.
pub proof fn lemma_status_set_keeps_model(
    before: Seq<ModelMetadata>,
    name: Seq<char>,
    status: ModelStatus,
    after: Seq<ModelMetadata>,
)
    requires
        distinct_names(before),
        has_model(before, name),
        status_set(before, name, status, after),
    ensures
        distinct_names(after),
        has_model(after, name),
        index_of(after, name) == index_of(before, name),
        lookup(after, name) is Some,
        lookup(after, name)->0.status == status,
        lookup(after, name)->0.engine_kind == lookup(before, name)->0.engine_kind,
        lookup(after, name)->0.name == lookup(before, name)->0.name,
        after.len() == before.len(),
{
    let i = index_of(before, name);
    assert(after[i].name@ == name);
    assert forall|a: int, b: int| 0 <= a < b < after.len() implies (#[trigger] after[a]).name@ != (
    #[trigger] after[b]).name@ by {
        assert(after[a].name@ == before[a].name@);
        assert(after[b].name@ == before[b].name@);
    }
    let j = index_of(after, name);
    if j != i {
        if j < i {
            assert(after[j].name@ != after[i].name@);
        } else {
            assert(after[i].name@ != after[j].name@);
        }
    }
}

/// Two status changes of one model, one after the other, are one change to
/// the second status.
pub proof fn lemma_status_set_twice(
    before: Seq<ModelMetadata>,
    name: Seq<char>,
    first: ModelStatus,
    mid: Seq<ModelMetadata>,
    second: ModelStatus,
    after: Seq<ModelMetadata>,
)
    requires
        distinct_names(before),
        has_model(before, name),
        status_set(before, name, first, mid),
        status_set(mid, name, second, after),
    ensures
        status_set(before, name, second, after),
{
    lemma_status_set_keeps_model(before, name, first, mid);
    let i = index_of(before, name);
    assert(after == before.update(i, after[i]));
}

/// The names of a registry are fixed: a status change neither adds a model
/// nor takes one away, and reaches no model but the one it names.
pub proof fn law_names_are_fixed(
    before: Seq<ModelMetadata>,
    name: Seq<char>,
    status: ModelStatus,
    after: Seq<ModelMetadata>,
)
    requires
        distinct_names(before),
        status_set(before, name, status, after),
    ensures
        after.len() == before.len(),
        distinct_names(after),
        forall|i: int| 0 <= i < before.len() ==> (#[trigger] after[i]).name == before[i].name,
        forall|i: int|
            0 <= i < before.len() && before[i].name@ != name ==> (#[trigger] after[i]) == before[i],
        forall|other: Seq<char>| has_model(after, other) == has_model(before, other),
{
    if has_model(before, name) {
        let at = index_of(before, name);
        assert forall|i: int| 0 <= i < before.len() implies (#[trigger] after[i]).name
            == before[i].name by {
            if i != at {
                assert(after[i] == before[i]);
            }
        }
        assert forall|other: Seq<char>| has_model(after, other) == has_model(before, other) by {
            if has_model(after, other) {
                let i = index_of(after, other);
                assert(before[i].name@ == other);
            }
            if has_model(before, other) {
                let i = index_of(before, other);
                assert(after[i].name@ == other);
            }
        }
    }
}

} // verus!
