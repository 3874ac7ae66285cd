//! Compiled shader modules: what a build produces, the module set made from
//! it, and the rule by which a wanted entry point finds its module.

use crate::spirv::{decode, decode_spec, SpirvError};
use vstd::prelude::*;
use vstd::string::*;

verus! {

/// One compiled module: its binary code and, unless it serves every entry
/// point, the name of the one entry point that it holds.
#[derive(Clone, Debug, PartialEq, Eq)]
pub struct CompiledModule {
    pub name: Option<String>,
    pub code: Vec<u32>,
}

/// A module as contracts speak of it.
pub ghost struct ModuleView {
    pub name: Option<Seq<char>>,
    pub code: Seq<u32>,
}

impl View for CompiledModule {
    type V = ModuleView;

    open spec fn view(&self) -> ModuleView {
        ModuleView {
            name: match self.name {
                Some(n) => Some(n@),
                None => None,
            },
            code: self.code@,
        }
    }
}

impl ModuleView {
    /// An unnamed module serves every entry point, a named one only its own.
    pub open spec fn serves(self, entry: Seq<char>) -> bool {
        self.name is None || self.name == Some(entry)
    }
}

/// What one run of the shader compiler hands over, each module still in the
/// bytes that the compiler wrote.
#[derive(Clone, Debug, PartialEq, Eq)]
pub enum BuildResult {
    /// One module that holds every entry point.
    SingleModule(Vec<u8>),
    /// One module for each entry point, by the entry point's name.
    MultiModule(Vec<(String, Vec<u8>)>),
}

impl BuildResult {
    /// The modules of the build in the order of emission: the label and the
    /// bytes of each.
    pub open spec fn sources(&self) -> Seq<(Option<Seq<char>>, Seq<u8>)> {
        match self {
            BuildResult::SingleModule(bytes) => seq![(None, bytes@)],
            BuildResult::MultiModule(entries) => Seq::new(
                entries@.len(),
                |i: int| (Some(entries@[i].0@), entries@[i].1@),
            ),
        }
    }

    /// No entry point is named twice.
    pub open spec fn wf(&self) -> bool {
        forall|i: int, j: int|
            0 <= i < j < self.sources().len() ==> self.sources()[i].0 != self.sources()[j].0
    }

    /// Tells whether no entry point is named twice.
    pub fn is_well_formed(&self) -> (ok: bool)
        ensures
            ok == self.wf(),
    {
        match self {
            BuildResult::SingleModule(_) => true,
            BuildResult::MultiModule(entries) => {
                let n: usize = entries.len();
                let mut j: usize = 0;
                while j < n
                    invariant
                        n == entries@.len(),
                        j <= n,
                        self.sources().len() == n,
                        forall|k: int| 0 <= k < n ==> self.sources()[k].0 == Some(entries@[k].0@),
                        forall|a: int, b: int|
                            0 <= a < b < j ==> self.sources()[a].0 != self.sources()[b].0,
                    decreases n - j,
                {
                    let mut i: usize = 0;
                    while i < j
                        invariant
                            n == entries@.len(),
                            j < n,
                            i <= j,
                            self.sources().len() == n,
                            forall|k: int|
                                0 <= k < n ==> self.sources()[k].0 == Some(entries@[k].0@),
                            forall|a: int|
                                0 <= a < i ==> self.sources()[a].0 != self.sources()[j as int].0,
                        decreases j - i,
                    {
                        if entries[i].0 == entries[j].0 {
                            assert(self.sources()[i as int].0 == self.sources()[j as int].0);
                            return false;
                        }
                        i += 1;
                    }
                    j += 1;
                }
                true
            },
        }
    }
}

/// Why a build gave no module set.
#[derive(Clone, Copy, Debug, PartialEq, Eq, Structural)]
pub enum BuildError {
    /// The shader source did not compile for the target profile.
    CompileFailed,
    /// The module at `index`, in the order of emission, is no shader binary.
    MalformedModule { index: usize, reason: SpirvError },
}

/// `sources[i]` is the first module that does not decode.
pub open spec fn is_first_malformed(sources: Seq<(Option<Seq<char>>, Seq<u8>)>, i: int) -> bool {
    &&& 0 <= i < sources.len()
    &&& decode_spec(sources[i].1) is Err
    &&& forall|j: int| 0 <= j < i ==> decode_spec(sources[j].1) is Ok
}

/// Every module of `sources` decodes.
pub open spec fn all_decode(sources: Seq<(Option<Seq<char>>, Seq<u8>)>) -> bool {
    forall|i: int| 0 <= i < sources.len() ==> decode_spec(sources[i].1) is Ok
}

/// The error of a build in which some module does not decode: it names the
/// first such module and the check that the module fails.
pub open spec fn malformed(sources: Seq<(Option<Seq<char>>, Seq<u8>)>) -> Option<BuildError> {
    if all_decode(sources) {
        None
    } else {
        let index = choose|i: int| is_first_malformed(sources, i);
        Some(
            BuildError::MalformedModule {
                index: index as usize,
                reason: decode_spec(sources[index].1)->Err_0,
            },
        )
    }
}

/// The module set of a build whose modules all decode: one module for each
/// source, in order, under the same label.
pub open spec fn decoded(sources: Seq<(Option<Seq<char>>, Seq<u8>)>) -> Seq<ModuleView> {
    Seq::new(
        sources.len(),
        |i: int| ModuleView { name: sources[i].0, code: decode_spec(sources[i].1)->Ok_0 },
    )
}

/// The module set that pipeline creation draws on.
#[derive(Clone, Debug, PartialEq, Eq)]
pub struct CompiledShaderModules {
    pub named_spv_modules: Vec<CompiledModule>,
}

impl View for CompiledShaderModules {
    type V = Seq<ModuleView>;

    open spec fn view(&self) -> Seq<ModuleView> {
        Seq::new(self.named_spv_modules@.len(), |i: int| self.named_spv_modules@[i]@)
    }
}

/// The wanted entry point is in none of a build's modules.
#[derive(Clone, Debug, PartialEq, Eq)]
pub struct ResolutionError {
    pub wanted_entry: String,
}

/// `modules[i]` serves `entry` and no module before it does.
pub open spec fn is_first_match(modules: Seq<ModuleView>, entry: Seq<char>, i: int) -> bool {
    &&& 0 <= i < modules.len()
    &&& modules[i].serves(entry)
    &&& forall|j: int| 0 <= j < i ==> !modules[j].serves(entry)
}

/// Some module of `modules` serves `entry`.
pub open spec fn resolves(modules: Seq<ModuleView>, entry: Seq<char>) -> bool {
    exists|i: int| 0 <= i < modules.len() && #[trigger] modules[i].serves(entry)
}

/// The module that `entry` resolves to: the first one that serves it.
pub open spec fn resolved(modules: Seq<ModuleView>, entry: Seq<char>) -> Option<ModuleView> {
    if exists|i: int| is_first_match(modules, entry, i) {
        Some(modules[choose|i: int| is_first_match(modules, entry, i)])
    } else {
        None
    }
}

/// Turns a build into the module set, decoding each module's bytes. The
/// modules keep their order and their labels. A build with a module that is no
/// shader binary gives no set: the error names the first such module.
pub fn handle_compile_result(build: &BuildResult) -> (result: Result<
    CompiledShaderModules,
    BuildError,
>)
    ensures
        result is Ok <==> all_decode(build.sources()),
        result matches Ok(modules) ==> modules@ == decoded(build.sources()),
        result matches Err(e) ==> {
            &&& Some(e) == malformed(build.sources())
            &&& e matches BuildError::MalformedModule { index, reason }
            &&& is_first_malformed(build.sources(), index as int)
            &&& decode_spec(build.sources()[index as int].1) == Err::<Seq<u32>, SpirvError>(reason)
        },
{
    let mut named_spv_modules: Vec<CompiledModule> = Vec::new();
    match build {
        BuildResult::SingleModule(bytes) => {
            match decode(bytes.as_slice()) {
                Ok(code) => {
                    named_spv_modules.push(CompiledModule { name: None, code });
                },
                Err(reason) => {
                    proof {
                        lemma_malformed_at(build.sources(), 0);
                    }
                    return Err(BuildError::MalformedModule { index: 0, reason });
                },
            }
        },
        BuildResult::MultiModule(entries) => {
            let n: usize = entries.len();
            let mut i: usize = 0;
            while i < n
                invariant
                    n == entries@.len(),
                    i <= n,
                    build.sources().len() == n,
                    forall|k: int|
                        0 <= k < n ==> build.sources()[k] == (
                            Some(entries@[k].0@),
                            entries@[k].1@,
                        ),
                    named_spv_modules@.len() == i,
                    forall|k: int| 0 <= k < i ==> decode_spec(build.sources()[k].1) is Ok,
                    forall|k: int|
                        0 <= k < i ==> (#[trigger] named_spv_modules@[k])@ == decoded(
                            build.sources(),
                        )[k],
                decreases n - i,
            {
                match decode(entries[i].1.as_slice()) {
                    Ok(code) => {
                        let name: String = entries[i].0.clone();
                        named_spv_modules.push(CompiledModule { name: Some(name), code });
                    },
                    Err(reason) => {
                        proof {
                            lemma_malformed_at(build.sources(), i as int);
                        }
                        return Err(BuildError::MalformedModule { index: i, reason });
                    },
                }
                i += 1;
            }
        },
    }
    let modules = CompiledShaderModules { named_spv_modules };
    assert(modules@ =~= decoded(build.sources()));
    Ok(modules)
}

impl CompiledShaderModules {
    /// Tells whether `module` serves the entry point `wanted_entry`.
    fn serves_entry(module: &CompiledModule, wanted_entry: &String) -> (yes: bool)
        ensures
            yes == module@.serves(wanted_entry@),
    {
        match &module.name {
            Some(name) => *name == *wanted_entry,
            None => true,
        }
    }

    /// The place of the module that `wanted_entry` resolves to: the first, in
    /// the order of emission, that is unnamed or named exactly
    /// `wanted_entry`. There is none exactly when no module serves it.
    pub fn find_entry_point(&self, wanted_entry: &str) -> (found: Option<usize>)
        ensures
            match found {
                Some(i) => is_first_match(self@, wanted_entry@, i as int),
                None => !resolves(self@, wanted_entry@),
            },
    {
        let wanted: String = String::from_str(wanted_entry);
        let n: usize = self.named_spv_modules.len();
        let mut i: usize = 0;
        while i < n
            invariant
                n == self.named_spv_modules@.len(),
                self@.len() == n,
                i <= n,
                wanted@ == wanted_entry@,
                forall|j: int| 0 <= j < i ==> !(#[trigger] self@[j]).serves(wanted_entry@),
            decreases n - i,
        {
            if Self::serves_entry(&self.named_spv_modules[i], &wanted) {
                return Some(i);
            }
            i += 1;
        }
        None
    }

    /// The module that `wanted_entry` resolves to, or the error that names
    /// the entry point where no module serves it.
    pub fn resolve<'a>(&'a self, wanted_entry: &str) -> (result: Result<
        &'a CompiledModule,
        ResolutionError,
    >)
        ensures
            result is Ok <==> resolves(self@, wanted_entry@),
            result matches Ok(module) ==> Some(module@) == resolved(self@, wanted_entry@)
                && module@.serves(wanted_entry@),
            result matches Err(e) ==> e.wanted_entry@ == wanted_entry@,
    {
        match self.find_entry_point(wanted_entry) {
            Some(i) => {
                proof {
                    lemma_resolved_at(self@, wanted_entry@, i as int);
                }
                Ok(&self.named_spv_modules[i])
            },
            None => Err(ResolutionError { wanted_entry: String::from_str(wanted_entry) }),
        }
    }

    /// The module that `wanted_entry` resolves to, for a caller that knows
    /// that some module serves it.
    pub fn spv_module_for_entry_point<'a>(&'a self, wanted_entry: &str) -> (module:
        &'a CompiledModule)
        requires
            resolves(self@, wanted_entry@),
        ensures
            Some(module@) == resolved(self@, wanted_entry@),
            module@.serves(wanted_entry@),
    {
        match self.find_entry_point(wanted_entry) {
            Some(i) => {
                proof {
                    lemma_resolved_at(self@, wanted_entry@, i as int);
                }
                &self.named_spv_modules[i]
            },
            None => unreached(),
        }
    }
}

/// The error of a build names the module at the first place where decoding
/// fails.
pub proof fn lemma_malformed_at(sources: Seq<(Option<Seq<char>>, Seq<u8>)>, i: int)
    requires
        is_first_malformed(sources, i),
        i <= usize::MAX,
    ensures
        malformed(sources) == Some(
            BuildError::MalformedModule {
                index: i as usize,
                reason: decode_spec(sources[i].1)->Err_0,
            },
        ),
{
    let k = choose|k: int| is_first_malformed(sources, k);
    assert(k == i);
}

/// An entry point has at most one first match: resolving it again finds the
/// same module.
pub proof fn lemma_first_match_unique(modules: Seq<ModuleView>, entry: Seq<char>, i: int, j: int)
    requires
        is_first_match(modules, entry, i),
        is_first_match(modules, entry, j),
    ensures
        i == j,
{
}

/// What an entry point resolves to is the module at its first match.
pub proof fn lemma_resolved_at(modules: Seq<ModuleView>, entry: Seq<char>, i: int)
    requires
        is_first_match(modules, entry, i),
    ensures
        resolved(modules, entry) == Some(modules[i]),
        resolves(modules, entry),
{
    let k = choose|k: int| is_first_match(modules, entry, k);
    lemma_first_match_unique(modules, entry, i, k);
}

/// An entry point resolves to a module exactly when some module serves it.
pub proof fn lemma_resolved_iff_resolves(modules: Seq<ModuleView>, entry: Seq<char>)
    ensures
        resolved(modules, entry) is Some <==> resolves(modules, entry),
{
    if resolves(modules, entry) {
        let w = choose|i: int| 0 <= i < modules.len() && #[trigger] modules[i].serves(entry);
        lemma_first_match_exists(modules, entry, w);
    } else if exists|i: int| is_first_match(modules, entry, i) {
        let k = choose|k: int| is_first_match(modules, entry, k);
        assert(modules[k].serves(entry));
    }
}

/// Where a module serves an entry point, the entry point has a first match at
/// or before it.
pub proof fn lemma_first_match_exists(modules: Seq<ModuleView>, entry: Seq<char>, w: int)
    requires
        0 <= w < modules.len(),
        modules[w].serves(entry),
    ensures
        exists|i: int| 0 <= i <= w && is_first_match(modules, entry, i),
    decreases w,
{
    if exists|j: int| 0 <= j < w && #[trigger] modules[j].serves(entry) {
        let j = choose|j: int| 0 <= j < w && #[trigger] modules[j].serves(entry);
        lemma_first_match_exists(modules, entry, j);
    } else {
        assert(is_first_match(modules, entry, w));
    }
}

/// The module that an entry point resolves to is one of the set, and is
/// unnamed or named exactly as the entry point.
pub proof fn lemma_resolved_serves(modules: Seq<ModuleView>, entry: Seq<char>)
    requires
        resolved(modules, entry) is Some,
    ensures
        modules.contains(resolved(modules, entry)->0),
        resolved(modules, entry)->0.name is None || resolved(modules, entry)->0.name == Some(entry),
{
    let k = choose|k: int| is_first_match(modules, entry, k);
    assert(modules[k] == resolved(modules, entry)->0);
}

/// An entry point never resolves to a module that bears another name.
pub proof fn lemma_never_another_name(modules: Seq<ModuleView>, entry: Seq<char>, other: Seq<char>)
    requires
        other != entry,
    ensures
        resolved(modules, entry) matches Some(m) ==> m.name != Some(other),
{
    if resolved(modules, entry) is Some {
        lemma_resolved_serves(modules, entry);
    }
}

/// In the module set of a single-module build, every entry point resolves to
/// the sole module.
pub proof fn lemma_single_module_serves_all(build: BuildResult, entry: Seq<char>)
    requires
        build is SingleModule,
        all_decode(build.sources()),
    ensures
        decoded(build.sources()).len() == 1,
        decoded(build.sources())[0].name is None,
        decoded(build.sources())[0].code == decode_spec(build->SingleModule_0@)->Ok_0,
        resolved(decoded(build.sources()), entry) == Some(decoded(build.sources())[0]),
{
    let modules = decoded(build.sources());
    assert(is_first_match(modules, entry, 0));
    lemma_resolved_at(modules, entry, 0);
}

/// In the module set of a multi-module build that names no entry point
/// twice, every name resolves to the one module emitted under it.
pub proof fn lemma_multi_module_by_name(build: BuildResult, i: int)
    requires
        build is MultiModule,
        build.wf(),
        all_decode(build.sources()),
        0 <= i < build.sources().len(),
    ensures
        resolved(decoded(build.sources()), build.sources()[i].0->0) == Some(
            decoded(build.sources())[i],
        ),
{
    let modules = decoded(build.sources());
    let entry = build.sources()[i].0->0;
    assert forall|j: int| 0 <= j < i implies !modules[j].serves(entry) by {
        assert(build.sources()[j].0 != build.sources()[i].0);
    }
    assert(is_first_match(modules, entry, i));
    lemma_resolved_at(modules, entry, i);
}

} // verus!
