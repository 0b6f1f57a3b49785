//! The shared state of the process: the registry, the table of engines that
//! were built for its models, and the admission gate. Loading a model marks
//! it as loaded only with its engine in the table. Both parts can also be
//! written on their own, the status through the registry and the engine
//! through the table; a model that is marked as loaded without an engine is
//! found out when a generation asks for it.

use crate::admission::{AdmissionGate, GateView};
use crate::engine::EngineHandle;
use crate::model_registry::{
    has_model, is_seed, lemma_status_set_keeps_model, lemma_status_set_twice, lookup, status_set,
    EngineKind, ModelMetadata, ModelRegistry, ModelStatus,
};
use vstd::prelude::*;
use vstd::string::*;

verus! {

/// One engine, under the name of the model it was built for.
struct Slot {
    name: String,
    engine: EngineHandle,
}

/// Whether a slot named `name` exists.
spec fn has_slot(slots: Seq<Slot>, name: Seq<char>) -> bool {
    exists|i: int| 0 <= i < slots.len() && (#[trigger] slots[i]).name@ == name
}

/// The place of the slot named `name`, where there is one.
spec fn slot_of(slots: Seq<Slot>, name: Seq<char>) -> int {
    choose|i: int| 0 <= i < slots.len() && (#[trigger] slots[i]).name@ == name
}

/// The engines that were built, each under the name of its model. A name
/// holds one engine at most: an engine that is put under a taken name
/// replaces the one that was there.
pub struct EngineTable {
    slots: Vec<Slot>,
}

impl View for EngineTable {
    type V = Map<Seq<char>, EngineHandle>;

    closed spec fn view(&self) -> Map<Seq<char>, EngineHandle> {
        Map::new(
            |name: Seq<char>| has_slot(self.slots@, name),
            |name: Seq<char>| self.slots@[slot_of(self.slots@, name)].engine,
        )
    }
}

impl EngineTable {
    /// The invariant: every name occurs once.
    #[verifier::type_invariant]
    pub closed spec fn wf(&self) -> bool {
        forall|i: int, j: int|
            0 <= i < j < self.slots@.len() ==> (#[trigger] self.slots@[i]).name@ != (
            #[trigger] self.slots@[j]).name@
    }

    /// A table without engines.
    pub fn new() -> (r: Self)
        ensures
            r.wf(),
            r@ == Map::<Seq<char>, EngineHandle>::empty(),
    {
        let r = EngineTable { slots: Vec::new() };
        assert(r@ =~= Map::<Seq<char>, EngineHandle>::empty());
        r
    }

    fn position(&self, name: &str) -> (r: Option<usize>)
        ensures
            r is Some == has_slot(self.slots@, name@),
            r matches Some(i) ==> i == slot_of(self.slots@, name@) && i < self.slots@.len()
                && self.slots@[i as int].name@ == name@,
    {
        proof {
            use_type_invariant(self);
        }
        let key = name.to_owned();
        let mut i: usize = 0;
        while i < self.slots.len()
            invariant
                i <= self.slots.len(),
                key@ == name@,
                self.wf(),
                forall|k: int| 0 <= k < i ==> (#[trigger] self.slots@[k]).name@ != name@,
            decreases self.slots.len() - i,
        {
            if self.slots[i].name == key {
                return Some(i);
            }
            i = i + 1;
        }
        None
    }

    /// A handle to the engine under `name`, if there is one.
    pub fn get(&self, name: &str) -> (r: Option<EngineHandle>)
        ensures
            r == if self@.contains_key(name@) {
                Some(self@[name@])
            } else {
                None
            },
    {
        match self.position(name) {
            Some(i) => Some(self.slots[i].engine.share()),
            None => None,
        }
    }

    /// Puts `engine` under `name`, in place of what was there.
    pub fn insert(&mut self, name: &str, engine: EngineHandle)
        ensures
            final(self).wf(),
            final(self)@ == old(self)@.insert(name@, engine),
    {
        proof {
            use_type_invariant(&*self);
        }
        let found = self.position(name);
        let ghost before = self.slots@;
        let mut slots: Vec<Slot> = Vec::new();
        std::mem::swap(&mut self.slots, &mut slots);
        let slot = Slot { name: name.to_owned(), engine };
        match found {
            Some(i) => {
                slots.set(i, slot);
            },
            None => {
                slots.push(slot);
            },
        }
        self.slots = slots;
        proof {
            let after = self.slots@;
            let at = if found is Some {
                found->0 as int
            } else {
                before.len() as int
            };
            assert(after[at].name@ == name@);
            assert forall|k: int| 0 <= k < after.len() && k != at implies after[k] == before[k]
                && after[k].name@ != name@ by {}
            assert forall|key: Seq<char>| has_slot(after, key) == (key == name@ || has_slot(
                before,
                key,
            )) by {
                if has_slot(after, key) {
                    let k = slot_of(after, key);
                    if k != at {
                        assert(before[k].name@ == key);
                    }
                }
                if has_slot(before, key) && key != name@ {
                    let k = slot_of(before, key);
                    assert(after[k].name@ == key);
                }
            }
            assert forall|key: Seq<char>| has_slot(after, key) && key != name@ implies slot_of(
                after,
                key,
            ) == slot_of(before, key) by {
                let k = slot_of(after, key);
                assert(before[k].name@ == key);
            }
            assert(has_slot(after, name@));
            assert(slot_of(after, name@) == at);
            assert(self@ =~= old(self)@.insert(name@, engine));
        }
    }
}

/// What is to be done to load a model.
pub enum LoadStep {
    /// No model has that name.
    NotFound,
    /// The model is loaded: nothing is to be built.
    AlreadyLoaded(ModelMetadata),
    /// The model is marked as loading: an engine of this kind is to be built
    /// and handed to [`AppState::finish_load`].
    Construct(EngineKind),
}

/// What the caller of a load is told where no model has that name.
pub open spec fn not_found_text(name: Seq<char>) -> Seq<char> {
    "model `"@ + name + "` not found"@
}

/// What the caller of a load is told where the registry no longer knows the
/// model whose engine was built.
pub open spec fn update_failed_text(name: Seq<char>) -> Seq<char> {
    "failed to update status for `"@ + name + "`"@
}

/// What the caller of a load is told where the engine could not be built.
pub open spec fn load_failed_text(name: Seq<char>, reason: Seq<char>) -> Seq<char> {
    "failed to load model `"@ + name + "`: "@ + reason
}

/// Why no engine of a kind was built, where the library builds none of that
/// kind itself.
pub open spec fn not_built_in_text(kind: EngineKind) -> Seq<char> {
    "no built-in engine of kind "@ + kind.label()
}

/// What the caller of a load is told where no model has that name.
pub fn not_found_message(model_name: &str) -> (r: String)
    ensures
        r@ == not_found_text(model_name@),
{
    let mut text = String::from_str("model `");
    text.append(model_name);
    text.append("` not found");
    text
}

/// Builds the engine of kind `kind` for the model `model_name`, where the
/// library has one of that kind: it has the reference engine, and says of
/// every other kind that it has none.
pub fn built_in_engine(kind: EngineKind, model_name: &str) -> (r: Result<EngineHandle, String>)
    ensures
        kind == EngineKind::Dummy ==> (r matches Ok(EngineHandle::Dummy(engine))
            && engine.model_name@ == model_name@),
        kind != EngineKind::Dummy ==> (r matches Err(reason) && reason@ == not_built_in_text(
            kind,
        )),
{
    match kind {
        EngineKind::Dummy => Ok(EngineHandle::dummy(model_name)),
        EngineKind::Candle => {
            let mut reason = String::from_str("no built-in engine of kind ");
            reason.append(kind.name());
            Err(reason)
        },
    }
}

/// The state that every request works on.
pub struct AppState {
    pub registry: ModelRegistry,
    pub engines: EngineTable,
    pub gate: AdmissionGate,
    pub max_concurrent_infer: usize,
}

impl AppState {
    /// The validity of the parts.
    pub open spec fn wf(&self) -> bool {
        &&& self.registry.wf()
        &&& self.engines.wf()
        &&& self.gate.wf()
    }

    /// `other` holds the same models, the same engines and the same gate.
    pub open spec fn same_as(&self, other: &AppState) -> bool {
        &&& self.registry@ == other.registry@
        &&& self.engines@ == other.engines@
        &&& self.gate@ == other.gate@
        &&& self.max_concurrent_infer == other.max_concurrent_infer
    }

    /// What [`begin_load`](AppState::begin_load) does: from `pre` and the
    /// name, the state `post` that it leaves and the step `r` that it returns.
    pub open spec fn begin_load_post(
        pre: &AppState,
        name: Seq<char>,
        post: &AppState,
        r: LoadStep,
    ) -> bool {
        &&& post.engines@ == pre.engines@
        &&& post.gate@ == pre.gate@
        &&& post.max_concurrent_infer == pre.max_concurrent_infer
        &&& match lookup(pre.registry@, name) {
            None => r == LoadStep::NotFound && post.registry@ == pre.registry@,
            Some(meta) => if meta.status == ModelStatus::Loaded {
                r == LoadStep::AlreadyLoaded(meta) && post.registry@ == pre.registry@
            } else {
                r == LoadStep::Construct(meta.engine_kind) && status_set(
                    pre.registry@,
                    name,
                    ModelStatus::Loading,
                    post.registry@,
                )
            },
        }
    }

    /// What [`finish_load`](AppState::finish_load) does.
    pub open spec fn finish_load_post(
        pre: &AppState,
        name: Seq<char>,
        built: Result<EngineHandle, String>,
        post: &AppState,
        r: Result<ModelMetadata, String>,
    ) -> bool {
        &&& post.gate@ == pre.gate@
        &&& post.max_concurrent_infer == pre.max_concurrent_infer
        &&& if !has_model(pre.registry@, name) {
            &&& post.registry@ == pre.registry@
            &&& post.engines@ == pre.engines@
            &&& r matches Err(text) && text@ == update_failed_text(name)
        } else {
            match built {
                Ok(engine) => {
                    &&& post.engines@ == pre.engines@.insert(name, engine)
                    &&& status_set(pre.registry@, name, ModelStatus::Loaded, post.registry@)
                    &&& r == Ok::<ModelMetadata, String>(lookup(post.registry@, name)->0)
                },
                Err(reason) => {
                    &&& post.engines@ == pre.engines@
                    &&& status_set(pre.registry@, name, ModelStatus::Error, post.registry@)
                    &&& r matches Err(text) && text@ == load_failed_text(name, reason@)
                },
            }
        }
    }

    /// What [`load_model`](AppState::load_model) does.
    pub open spec fn load_model_post(
        pre: &AppState,
        name: Seq<char>,
        post: &AppState,
        r: Result<ModelMetadata, String>,
    ) -> bool {
        &&& post.gate@ == pre.gate@
        &&& post.max_concurrent_infer == pre.max_concurrent_infer
        &&& match lookup(pre.registry@, name) {
            None => {
                &&& post.registry@ == pre.registry@
                &&& post.engines@ == pre.engines@
                &&& r matches Err(text) && text@ == not_found_text(name)
            },
            Some(meta) => if meta.status == ModelStatus::Loaded {
                &&& post.registry@ == pre.registry@
                &&& post.engines@ == pre.engines@
                &&& r == Ok::<ModelMetadata, String>(meta)
            } else if meta.engine_kind == EngineKind::Dummy {
                &&& status_set(pre.registry@, name, ModelStatus::Loaded, post.registry@)
                &&& post.engines@.contains_key(name)
                &&& post.engines@[name] matches EngineHandle::Dummy(engine) && engine.model_name@
                    == name
                &&& post.engines@.remove(name) == pre.engines@.remove(name)
                &&& r == Ok::<ModelMetadata, String>(lookup(post.registry@, name)->0)
            } else {
                &&& status_set(pre.registry@, name, ModelStatus::Error, post.registry@)
                &&& post.engines@ == pre.engines@
                &&& r matches Err(text) && text@ == load_failed_text(
                    name,
                    not_built_in_text(meta.engine_kind),
                )
            },
        }
    }

    /// The state at the start of the process: the seeded registry, no engine,
    /// and a gate with `max_concurrent_infer` free slots.
    pub fn new(max_concurrent_infer: usize) -> (r: Self)
        ensures
            r.wf(),
            is_seed(r.registry@),
            r.engines@ == Map::<Seq<char>, EngineHandle>::empty(),
            r.gate@ == (GateView { capacity: max_concurrent_infer as nat, in_flight: 0 }),
            r.max_concurrent_infer == max_concurrent_infer,
    {
        AppState {
            registry: ModelRegistry::new(),
            engines: EngineTable::new(),
            gate: AdmissionGate::new(max_concurrent_infer),
            max_concurrent_infer,
        }
    }

    /// Every model of the registry.
    pub fn list_models(&self) -> (r: Vec<ModelMetadata>)
        ensures
            r@ == self.registry@,
    {
        self.registry.list_models()
    }

    /// A handle to the engine that was built for the model `model_name`, if
    /// one was.
    pub fn get_engine(&self, model_name: &str) -> (r: Option<EngineHandle>)
        ensures
            r == if self.engines@.contains_key(model_name@) {
                Some(self.engines@[model_name@])
            } else {
                None
            },
    {
        self.engines.get(model_name)
    }

    /// The first half of a load: decides what is to be done for the model
    /// `model_name`, and marks it as loading where an engine is to be built.
    /// A model that is loaded is left as it is.
    pub fn begin_load(&mut self, model_name: &str) -> (r: LoadStep)
        ensures
            final(self).wf(),
            Self::begin_load_post(old(self), model_name@, final(self), r),
    {
        proof {
            use_type_invariant(&self.registry);
            use_type_invariant(&self.engines);
            use_type_invariant(&self.gate);
        }
        match self.registry.get_model(model_name) {
            None => LoadStep::NotFound,
            Some(meta) => {
                if meta.status == ModelStatus::Loaded {
                    LoadStep::AlreadyLoaded(meta)
                } else {
                    let _ = self.registry.set_status(model_name, ModelStatus::Loading);
                    LoadStep::Construct(meta.engine_kind)
                }
            },
        }
    }

    /// The second half of a load: takes what building the engine gave. An
    /// engine is put into the table and the model is marked as loaded; a
    /// failure marks the model as failed and is reported with its reason.
    pub fn finish_load(
        &mut self,
        model_name: &str,
        built: Result<EngineHandle, String>,
    ) -> (r: Result<ModelMetadata, String>)
        ensures
            final(self).wf(),
            Self::finish_load_post(old(self), model_name@, built, final(self), r),
    {
        proof {
            use_type_invariant(&self.registry);
            use_type_invariant(&self.engines);
            use_type_invariant(&self.gate);
        }
        if self.registry.get_model(model_name).is_none() {
            let mut text = String::from_str("failed to update status for `");
            text.append(model_name);
            text.append("`");
            return Err(text);
        }
        match built {
            Ok(engine) => {
                self.engines.insert(model_name, engine);
                match self.registry.set_status(model_name, ModelStatus::Loaded) {
                    Some(meta) => Ok(meta),
                    None => {
                        let mut text = String::from_str("failed to update status for `");
                        text.append(model_name);
                        text.append("`");
                        Err(text)
                    },
                }
            },
            Err(reason) => {
                let _ = self.registry.set_status(model_name, ModelStatus::Error);
                let mut text = String::from_str("failed to load model `");
                text.append(model_name);
                text.append("`: ");
                text.append(reason.as_str());
                Err(text)
            },
        }
    }

    /// Loads the model `model_name` with an engine that the library builds
    /// itself. An unknown name is an error. A loaded model is returned as it
    /// is, and no engine is built. Otherwise the model is marked as loading,
    /// its engine is built and put into the table, and the model is marked as
    /// loaded. The library builds the reference engine; where the model is of
    /// another kind, the model is marked as failed.
    pub fn load_model(&mut self, model_name: &str) -> (r: Result<ModelMetadata, String>)
        ensures
            final(self).wf(),
            Self::load_model_post(old(self), model_name@, final(self), r),
    {
        proof {
            use_type_invariant(&self.registry);
        }
        match self.begin_load(model_name) {
            LoadStep::NotFound => Err(not_found_message(model_name)),
            LoadStep::AlreadyLoaded(meta) => Ok(meta),
            LoadStep::Construct(kind) => {
                let ghost mid = self.registry@;
                proof {
                    lemma_status_set_keeps_model(
                        old(self).registry@,
                        model_name@,
                        ModelStatus::Loading,
                        mid,
                    );
                }
                let built = built_in_engine(kind, model_name);
                let r = self.finish_load(model_name, built);
                proof {
                    lemma_status_set_twice(
                        old(self).registry@,
                        model_name@,
                        ModelStatus::Loading,
                        mid,
                        if built is Ok {
                            ModelStatus::Loaded
                        } else {
                            ModelStatus::Error
                        },
                        self.registry@,
                    );
                    if built is Ok {
                        assert(self.engines@.remove(model_name@) == old(self).engines@.remove(
                            model_name@,
                        ));
                    }
                }
                r
            },
        }
    }
}

/// A load that succeeds leaves the model loaded, with one engine under its
/// name; a second load of the same model changes nothing, builds nothing, and
/// returns the same metadata. This holds from every state but those in which
/// the model was marked as loaded while no engine stood under its name.
pub proof fn law_load_is_idempotent(
    s0: AppState,
    s1: AppState,
    s2: AppState,
    name: Seq<char>,
    r1: Result<ModelMetadata, String>,
    r2: Result<ModelMetadata, String>,
    step: LoadStep,
    s3: AppState,
)
    requires
        s0.wf(),
        lookup(s0.registry@, name) matches Some(meta) && meta.status == ModelStatus::Loaded
            ==> s0.engines@.contains_key(name),
        AppState::load_model_post(&s0, name, &s1, r1),
        r1 is Ok,
        AppState::load_model_post(&s1, name, &s2, r2),
        AppState::begin_load_post(&s1, name, &s3, step),
    ensures
        lookup(s1.registry@, name) is Some,
        lookup(s1.registry@, name)->0.status == ModelStatus::Loaded,
        s1.engines@.contains_key(name),
        s2.same_as(&s1),
        r2 == r1,
        lookup(s2.registry@, name)->0.status == ModelStatus::Loaded,
        step is AlreadyLoaded,
        s3.same_as(&s1),
{
    let meta = lookup(s0.registry@, name)->0;
    if meta.status != ModelStatus::Loaded {
        lemma_status_set_keeps_model(s0.registry@, name, ModelStatus::Loaded, s1.registry@);
    }
}

} // verus!
