//! Building the set of compute pipelines that a handler gives out by key.
//!
//! A builder first takes shader modules, each under a label, and then
//! declarations of compute pipelines, each naming a shader label and an entry
//! point. Only a builder that holds a declaration can be built. Building
//! compiles one pipeline for every declaration whose shader is registered and
//! files it under the key made of its entry point, `@` and its shader label.

use crate::label_map::LabelMap;
use core::marker::PhantomData;
use vstd::prelude::*;
use vstd::string::*;

verus! {

/// The phases a builder goes through.
pub trait BufferHandlerBuilderState {
    /// The number of declarations that a builder in this phase holds at
    /// least.
    spec fn least_declared() -> nat;
}

/// The phase in which shaders are registered and nothing is declared yet.
pub struct PermitShaders;

/// The phase after the first declaration of a pipeline.
pub struct CreatedPipeline;

impl BufferHandlerBuilderState for PermitShaders {
    open spec fn least_declared() -> nat {
        0
    }
}

impl BufferHandlerBuilderState for CreatedPipeline {
    open spec fn least_declared() -> nat {
        1
    }
}

/// A declared compute pipeline as contracts see it.
pub struct Request {
    pub shader_label: Seq<char>,
    pub entry_point: Seq<char>,
}

impl Request {
    /// The key under which the pipeline of this request is filed.
    pub open spec fn key(self) -> Seq<char> {
        composite_key(self.entry_point, self.shader_label)
    }
}

/// A declared compute pipeline: the label of its shader and its entry point.
#[derive(Debug, PartialEq, Eq)]
pub struct Declaration {
    pub shader_label: String,
    pub entry_point: String,
}

impl View for Declaration {
    type V = Request;

    open spec fn view(&self) -> Request {
        Request { shader_label: self.shader_label@, entry_point: self.entry_point@ }
    }
}

/// The key of the pipeline for `entry_point` in the shader `shader_label`:
/// the entry point, then `@`, then the label.
pub open spec fn composite_key(entry_point: Seq<char>, shader_label: Seq<char>) -> Seq<char> {
    entry_point + seq!['@'] + shader_label
}

/// Whether request `i` of `declared` names a shader of `modules` and is filed
/// under `key`.
pub open spec fn yields<M>(
    declared: Seq<Request>,
    modules: Map<Seq<char>, M>,
    i: int,
    key: Seq<char>,
) -> bool {
    &&& 0 <= i < declared.len()
    &&& modules.dom().contains(declared[i].shader_label)
    &&& declared[i].key() == key
}

/// Whether `pipeline` is what `compile` may return for `module` and an entry
/// point and key that read `entry_point` and `key`.
pub open spec fn compiled<M, P, F: Fn(&M, &String, &String) -> P>(
    compile: F,
    module: M,
    entry_point: Seq<char>,
    key: Seq<char>,
    pipeline: P,
) -> bool {
    exists|e: String, k: String|
        e@ == entry_point && k@ == key && #[trigger] compile.ensures((&module, &e, &k), pipeline)
}

/// The requests of `declared` whose shader is not in `modules`, in the order
/// in which they were declared.
pub open spec fn unmet<M>(declared: Seq<Request>, modules: Map<Seq<char>, M>) -> Seq<Request>
    decreases declared.len(),
{
    if declared.len() == 0 {
        Seq::empty()
    } else {
        let rest = unmet(declared.drop_last(), modules);
        if modules.dom().contains(declared.last().shader_label) {
            rest
        } else {
            rest.push(declared.last())
        }
    }
}

/// Makes the key of the pipeline for `entry_point` in the shader
/// `shader_label`.
pub fn pipeline_key(entry_point: &str, shader_label: &str) -> (key: String)
    ensures
        key@ == composite_key(entry_point@, shader_label@),
{
    let mut key: String = String::from_str(entry_point);
    key.append("@");
    key.append(shader_label);
    proof {
        reveal_strlit("@");
        assert("@"@ =~= seq!['@']);
    }
    key
}

/// Collects shader modules of type `M` and declarations of pipelines, in the
/// phase `S`.
pub struct BufferHandlerBuilder<S: BufferHandlerBuilderState, M> {
    shaders: LabelMap<M>,
    declared: Vec<Declaration>,
    _phantom: PhantomData<S>,
}

/// What contracts see of a list of declarations.
pub open spec fn requests(declared: Seq<Declaration>) -> Seq<Request> {
    Seq::new(declared.len(), |i: int| declared[i]@)
}

impl<S: BufferHandlerBuilderState, M> BufferHandlerBuilder<S, M> {
    #[verifier::type_invariant]
    spec fn holds_what_phase_asks(self) -> bool {
        self.declared@.len() >= S::least_declared()
    }

    /// The registered shader modules by label.
    pub closed spec fn modules(self) -> Map<Seq<char>, M> {
        self.shaders@
    }

    /// The declared pipelines, in the order of their declaration.
    pub closed spec fn declared(self) -> Seq<Request> {
        requests(self.declared@)
    }
}

fn declare(declared: Vec<Declaration>, label: &str, entry_point: &str) -> (r: Vec<Declaration>)
    ensures
        r@.len() == declared@.len() + 1,
        requests(r@) == requests(declared@).push(
            Request { shader_label: label@, entry_point: entry_point@ },
        ),
{
    let mut r = declared;
    r.push(
        Declaration {
            shader_label: String::from_str(label),
            entry_point: String::from_str(entry_point),
        },
    );
    assert(requests(r@) =~= requests(declared@).push(
        Request { shader_label: label@, entry_point: entry_point@ },
    ));
    r
}

impl<M> BufferHandlerBuilder<PermitShaders, M> {
    /// The builder that holds nothing.
    pub fn new() -> (builder: Self)
        ensures
            builder.modules() == Map::<Seq<char>, M>::empty(),
            builder.declared() == Seq::<Request>::empty(),
    {
        let builder = BufferHandlerBuilder {
            shaders: LabelMap::new(),
            declared: Vec::new(),
            _phantom: PhantomData,
        };
        assert(builder.declared() =~= Seq::<Request>::empty());
        builder
    }

    /// Registers `module` under `shader_label`, in place of a module
    /// registered under that label before.
    pub fn shader(self, shader_label: &str, module: M) -> (builder: Self)
        ensures
            builder.modules() == self.modules().insert(shader_label@, module),
            builder.declared() == self.declared(),
    {
        proof {
            use_type_invariant(&self);
        }
        let shaders = self.shaders.with(String::from_str(shader_label), module);
        BufferHandlerBuilder { shaders, declared: self.declared, _phantom: PhantomData }
    }

    /// Declares the pipeline for `entry_point` in the shader `label`. The
    /// shader need not be registered.
    pub fn compute_pipeline(self, label: &str, entry_point: &str) -> (builder:
        BufferHandlerBuilder<CreatedPipeline, M>)
        ensures
            builder.modules() == self.modules(),
            builder.declared() == self.declared().push(
                Request { shader_label: label@, entry_point: entry_point@ },
            ),
    {
        let declared = declare(self.declared, label, entry_point);
        BufferHandlerBuilder { shaders: self.shaders, declared, _phantom: PhantomData }
    }
}

impl<M> BufferHandlerBuilder<CreatedPipeline, M> {
    /// Declares one more pipeline, for `entry_point` in the shader `label`.
    pub fn compute_pipeline(self, label: &str, entry_point: &str) -> (builder:
        BufferHandlerBuilder<CreatedPipeline, M>)
        ensures
            builder.modules() == self.modules(),
            builder.declared() == self.declared().push(
                Request { shader_label: label@, entry_point: entry_point@ },
            ),
    {
        let declared = declare(self.declared, label, entry_point);
        BufferHandlerBuilder { shaders: self.shaders, declared, _phantom: PhantomData }
    }

    /// Builds the handler. For every declaration whose shader is registered,
    /// `compile` is called with the shader's module, the entry point and the
    /// key, and what it returns is filed under the key; where two
    /// declarations share a key, the handler keeps the pipeline of one of
    /// them. Declarations whose shader is missing are set aside, in order,
    /// for the caller to report.
    pub fn build<P, F: Fn(&M, &String, &String) -> P>(self, compile: F) -> (handler: BufferHandler<
        M,
        P,
    >)
        requires
            forall|i: int, entry_point: &String, key: &String|
                0 <= i < self.declared().len() && self.modules().dom().contains(
                    self.declared()[i].shader_label,
                ) && entry_point@ == self.declared()[i].entry_point && key@
                    == self.declared()[i].key() ==> #[trigger] compile.requires(
                    (&self.modules()[self.declared()[i].shader_label], entry_point, key),
                ),
        ensures
            self.declared().len() > 0,
            handler.modules() == self.modules(),
            forall|key: Seq<char>|
                handler.pipelines().dom().contains(key) <==> exists|i: int|
                    yields(self.declared(), self.modules(), i, key),
            forall|key: Seq<char>| #[trigger]
                handler.pipelines().dom().contains(key) ==> exists|i: int|
                    yields(self.declared(), self.modules(), i, key) && compiled(
                        compile,
                        self.modules()[self.declared()[i].shader_label],
                        self.declared()[i].entry_point,
                        key,
                        handler.pipelines()[key],
                    ),
            handler.skipped() == unmet(self.declared(), self.modules()),
    {
        proof {
            use_type_invariant(&self);
        }
        let shaders = self.shaders;
        let declared = self.declared;
        let ghost all = requests(declared@);
        assert(all == self.declared());
        assert(shaders@ == self.modules());
        let mut pipelines: LabelMap<P> = LabelMap::new();
        let mut skipped: Vec<Declaration> = Vec::new();
        let mut i: usize = 0;
        while i < declared.len()
            invariant
                i <= declared.len(),
                all == requests(declared@),
                forall|j: int, entry_point: &String, key: &String|
                    0 <= j < all.len() && shaders@.dom().contains(all[j].shader_label)
                        && entry_point@ == all[j].entry_point && key@ == all[j].key()
                        ==> #[trigger] compile.requires(
                        (&shaders@[all[j].shader_label], entry_point, key),
                    ),
                forall|key: Seq<char>|
                    pipelines@.dom().contains(key) <==> exists|j: int|
                        j < i && yields(all, shaders@, j, key),
                forall|key: Seq<char>| #[trigger]
                    pipelines@.dom().contains(key) ==> exists|j: int|
                        j < i && yields(all, shaders@, j, key) && compiled(
                            compile,
                            shaders@[all[j].shader_label],
                            all[j].entry_point,
                            key,
                            pipelines@[key],
                        ),
                requests(skipped@) == unmet(all.take(i as int), shaders@),
            decreases declared.len() - i,
        {
            let declaration = &declared[i];
            assert(all.take(i + 1).drop_last() =~= all.take(i as int));
            assert(all.take(i + 1).last() == all[i as int]);
            match shaders.get(declaration.shader_label.as_str()) {
                Some(module) => {
                    let key = pipeline_key(
                        declaration.entry_point.as_str(),
                        declaration.shader_label.as_str(),
                    );
                    let pipeline = compile(module, &declaration.entry_point, &key);
                    let ghost filed = key;
                    let ghost earlier = pipelines@;
                    pipelines = pipelines.with(key, pipeline);
                    proof {
                        assert(yields(all, shaders@, i as int, filed@));
                        assert(compiled(
                            compile,
                            shaders@[all[i as int].shader_label],
                            all[i as int].entry_point,
                            filed@,
                            pipelines@[filed@],
                        )) by {
                            assert(compile.ensures(
                                (&shaders@[all[i as int].shader_label], &declaration.entry_point, &filed),
                                pipeline,
                            ));
                        }
                        assert forall|key: Seq<char>|
                            pipelines@.dom().contains(key) <==> exists|j: int|
                                j < i + 1 && yields(all, shaders@, j, key) by {
                            if earlier.dom().contains(key) {
                                let j = choose|j: int| j < i && yields(all, shaders@, j, key);
                                assert(j < i + 1 && yields(all, shaders@, j, key));
                            }
                            if exists|j: int| j < i + 1 && yields(all, shaders@, j, key) {
                                let j = choose|j: int| j < i + 1 && yields(all, shaders@, j, key);
                                if j < i {
                                    assert(earlier.dom().contains(key));
                                }
                            }
                        }
                        assert forall|key: Seq<char>| #[trigger]
                            pipelines@.dom().contains(key) implies exists|j: int|
                            j < i + 1 && yields(all, shaders@, j, key) && compiled(
                                compile,
                                shaders@[all[j].shader_label],
                                all[j].entry_point,
                                key,
                                pipelines@[key],
                            ) by {
                            if key == filed@ {
                                assert(i < i + 1 && yields(all, shaders@, i as int, key));
                            } else {
                                assert(earlier.dom().contains(key));
                                let j = choose|j: int|
                                    j < i && yields(all, shaders@, j, key) && compiled(
                                        compile,
                                        shaders@[all[j].shader_label],
                                        all[j].entry_point,
                                        key,
                                        earlier[key],
                                    );
                                assert(j < i + 1 && yields(all, shaders@, j, key));
                            }
                        }
                    }
                },
                None => {
                    let ghost before = skipped@;
                    skipped.push(
                        Declaration {
                            shader_label: declaration.shader_label.clone(),
                            entry_point: declaration.entry_point.clone(),
                        },
                    );
                    proof {
                        assert(requests(skipped@) =~= requests(before).push(all[i as int]));
                        assert forall|key: Seq<char>|
                            pipelines@.dom().contains(key) <==> exists|j: int|
                                j < i + 1 && yields(all, shaders@, j, key) by {
                            if pipelines@.dom().contains(key) {
                                let j = choose|j: int| j < i && yields(all, shaders@, j, key);
                                assert(j < i + 1 && yields(all, shaders@, j, key));
                            }
                            if exists|j: int| j < i + 1 && yields(all, shaders@, j, key) {
                                let j = choose|j: int| j < i + 1 && yields(all, shaders@, j, key);
                                assert(j < i);
                            }
                        }
                        assert forall|key: Seq<char>| #[trigger]
                            pipelines@.dom().contains(key) implies exists|j: int|
                            j < i + 1 && yields(all, shaders@, j, key) && compiled(
                                compile,
                                shaders@[all[j].shader_label],
                                all[j].entry_point,
                                key,
                                pipelines@[key],
                            ) by {
                            let j = choose|j: int|
                                j < i && yields(all, shaders@, j, key) && compiled(
                                    compile,
                                    shaders@[all[j].shader_label],
                                    all[j].entry_point,
                                    key,
                                    pipelines@[key],
                                );
                            assert(j < i + 1 && yields(all, shaders@, j, key));
                        }
                    }
                },
            }
            i += 1;
        }
        assert(all.take(i as int) =~= all);
        BufferHandler { shaders, compute_pipelines: pipelines, skipped }
    }
}

/// The compiled pipelines of type `P` by key, with the shader modules they
/// were compiled from.
pub struct BufferHandler<M, P> {
    shaders: LabelMap<M>,
    compute_pipelines: LabelMap<P>,
    skipped: Vec<Declaration>,
}

impl<M, P> BufferHandler<M, P> {
    /// The shader modules by label.
    pub closed spec fn modules(self) -> Map<Seq<char>, M> {
        self.shaders@
    }

    /// The compiled pipelines by key.
    pub closed spec fn pipelines(self) -> Map<Seq<char>, P> {
        self.compute_pipelines@
    }

    /// The requests that were set aside because their shader was missing.
    pub closed spec fn skipped(self) -> Seq<Request> {
        requests(self.skipped@)
    }

    /// The pipeline filed under `label`, a key of the form
    /// `entry_point@shader_label`.
    pub fn pipeline(&self, label: &str) -> (r: Option<&P>)
        ensures
            match r {
                Some(pipeline) => self.pipelines().dom().contains(label@) && *pipeline
                    == self.pipelines()[label@],
                None => !self.pipelines().dom().contains(label@),
            },
    {
        self.compute_pipelines.get(label)
    }

    /// The shader module registered under `label`.
    pub fn shader(&self, label: &str) -> (r: Option<&M>)
        ensures
            match r {
                Some(module) => self.modules().dom().contains(label@) && *module
                    == self.modules()[label@],
                None => !self.modules().dom().contains(label@),
            },
    {
        self.shaders.get(label)
    }

    /// The declarations that were set aside because their shader was
    /// missing, in the order of their declaration.
    pub fn missing(&self) -> (r: &Vec<Declaration>)
        ensures
            requests(r@) == self.skipped(),
    {
        &self.skipped
    }
}

} // verus!
