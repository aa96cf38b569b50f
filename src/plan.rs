//! What the synthesis pass emits: the wrapper for a plain boundary export,
//! and the fixed export protocol that each module kind receives.
use vstd::prelude::*;

verus! {

/// The closed set of module kinds.
#[derive(Debug, Clone, Copy, PartialEq, Eq, Structural)]
pub enum ModuleKind {
    /// A content-discovery module.
    Source,
    /// An account-linking module.
    Tracker,
}

/// Parameters of a boundary export.
#[derive(Debug, Clone, Copy, PartialEq, Eq, Structural)]
pub enum ParamShape {
    /// No arguments.
    NoArgs,
    /// One string argument, the authorization code.
    AuthCode,
}

/// Arguments the export hands to the delegate method.
#[derive(Debug, Clone, Copy, PartialEq, Eq, Structural)]
pub enum DelegateArgs {
    /// The delegate is called without arguments.
    NoArgs,
    /// The export's string argument is passed through.
    ForwardAuthCode,
    /// Fixed placeholder arguments are passed.
    Placeholders,
}

/// How the export hands its result to the host.
#[derive(Debug, Clone, Copy, PartialEq, Eq, Structural)]
pub enum ResultShape {
    /// JSON-encoded into the export's bounded buffer.
    BoundedJson,
    /// Raw bytes in a leaked buffer that the host must release.
    LeakedBytes,
}

/// Errors that stop the synthesis pass before it emits anything.
#[derive(Debug, Clone, PartialEq, Eq)]
pub enum SynthError {
    /// The kind path has no segment.
    MissingKind,
    /// The kind path's last segment names no module kind.
    UnsupportedKind(String),
    /// An exported function declares parameters.
    ExportTakesParameters(String),
}

/// One boundary export; it delegates to the method of the same name on the
/// module's singleton value.
pub struct ExportSpec {
    pub name: String,
    pub params: ParamShape,
    pub delegate_args: DelegateArgs,
    pub result: ResultShape,
}

/// The mathematical form of an `ExportSpec`.
pub struct ExportModel {
    pub name: Seq<char>,
    pub params: ParamShape,
    pub delegate_args: DelegateArgs,
    pub result: ResultShape,
}

impl View for ExportSpec {
    type V = ExportModel;

    open spec fn view(&self) -> ExportModel {
        ExportModel {
            name: self.name@,
            params: self.params,
            delegate_args: self.delegate_args,
            result: self.result,
        }
    }
}

pub open spec fn models(exports: Seq<ExportSpec>) -> Seq<ExportModel> {
    exports.map_values(|e: ExportSpec| e@)
}

pub open spec fn strings(path: Seq<String>) -> Seq<Seq<char>> {
    path.map_values(|s: String| s@)
}

/// The kind a path names by its last segment.
pub open spec fn kind_named(path: Seq<Seq<char>>) -> Option<ModuleKind> {
    if path.len() == 0 {
        None
    } else if path.last() == "Source"@ {
        Some(ModuleKind::Source)
    } else if path.last() == "Tracker"@ {
        Some(ModuleKind::Tracker)
    } else {
        None
    }
}

pub open spec fn discover_model() -> ExportModel {
    ExportModel {
        name: "discover"@,
        params: ParamShape::NoArgs,
        delegate_args: DelegateArgs::NoArgs,
        result: ResultShape::BoundedJson,
    }
}

pub open spec fn auth_url_model() -> ExportModel {
    ExportModel {
        name: "auth_url"@,
        params: ParamShape::NoArgs,
        delegate_args: DelegateArgs::Placeholders,
        result: ResultShape::LeakedBytes,
    }
}

pub open spec fn handle_callback_model() -> ExportModel {
    ExportModel {
        name: "handle_callback"@,
        params: ParamShape::AuthCode,
        delegate_args: DelegateArgs::ForwardAuthCode,
        result: ResultShape::BoundedJson,
    }
}

pub open spec fn refresh_token_model() -> ExportModel {
    ExportModel {
        name: "refresh_token"@,
        params: ParamShape::NoArgs,
        delegate_args: DelegateArgs::NoArgs,
        result: ResultShape::BoundedJson,
    }
}

/// The fixed export protocol of each module kind.
pub open spec fn kind_exports(kind: ModuleKind) -> Seq<ExportModel> {
    match kind {
        ModuleKind::Source => seq![discover_model()],
        ModuleKind::Tracker => seq![
            auth_url_model(),
            handle_callback_model(),
            refresh_token_model(),
            discover_model(),
        ],
    }
}

/// The name of the wrapper emitted for the function `name`.
pub open spec fn wrapper_name_of(name: Seq<char>) -> Seq<char> {
    name + "_wrapper"@
}

impl ModuleKind {
    /// Resolves a kind from a path by its last segment (`plugin::Tracker`
    /// names `Tracker`).
    pub fn from_path(path: &Vec<String>) -> (r: Result<ModuleKind, SynthError>)
        ensures
            match kind_named(strings(path@)) {
                Some(k) => r == Ok::<ModuleKind, SynthError>(k),
                None => r matches Err(e) && if path@.len() == 0 {
                    e == SynthError::MissingKind
                } else {
                    e matches SynthError::UnsupportedKind(s) && s@ == path@.last()@
                },
            },
    {
        let n = path.len();
        if n == 0 {
            return Err(SynthError::MissingKind);
        }
        let last = &path[n - 1];
        let ghost p = strings(path@);
        assert(p.last() == last@);
        if last.eq(&"Source".to_owned()) {
            Ok(ModuleKind::Source)
        } else if last.eq(&"Tracker".to_owned()) {
            Ok(ModuleKind::Tracker)
        } else {
            Err(SynthError::UnsupportedKind(last.clone()))
        }
    }

    /// The exports a module of this kind receives, in a fixed order.
    pub fn exports(self) -> (r: Vec<ExportSpec>)
        ensures
            models(r@) == kind_exports(self),
    {
        let discover = ExportSpec {
            name: "discover".to_owned(),
            params: ParamShape::NoArgs,
            delegate_args: DelegateArgs::NoArgs,
            result: ResultShape::BoundedJson,
        };
        let r = match self {
            ModuleKind::Source => vec![discover],
            ModuleKind::Tracker => vec![
                ExportSpec {
                    name: "auth_url".to_owned(),
                    params: ParamShape::NoArgs,
                    delegate_args: DelegateArgs::Placeholders,
                    result: ResultShape::LeakedBytes,
                },
                ExportSpec {
                    name: "handle_callback".to_owned(),
                    params: ParamShape::AuthCode,
                    delegate_args: DelegateArgs::ForwardAuthCode,
                    result: ResultShape::BoundedJson,
                },
                ExportSpec {
                    name: "refresh_token".to_owned(),
                    params: ParamShape::NoArgs,
                    delegate_args: DelegateArgs::NoArgs,
                    result: ResultShape::BoundedJson,
                },
                discover,
            ],
        };
        assert(models(r@) =~= kind_exports(self));
        r
    }
}

/// The wrapper name for the function `name`: the name with `_wrapper` added.
pub fn wrapper_name(name: &String) -> (r: String)
    ensures
        r@ == wrapper_name_of(name@),
{
    name.clone().concat("_wrapper")
}

/// A function declaration as the export annotation sees it.
pub struct FnDecl {
    pub name: String,
    pub param_count: usize,
}

/// A plain boundary export: the original function and the wrapper that calls it.
pub struct ExportPlan {
    pub function: String,
    pub wrapper: String,
}

/// Plans the wrapper for an exported function. Only a function without
/// parameters can be exported.
pub fn plan_export(decl: &FnDecl) -> (r: Result<ExportPlan, SynthError>)
    ensures
        decl.param_count == 0 <==> r is Ok,
        r matches Ok(p) ==> p.function@ == decl.name@ && p.wrapper@ == wrapper_name_of(decl.name@),
        r matches Err(e) ==> e matches SynthError::ExportTakesParameters(s) && s@ == decl.name@,
{
    if decl.param_count != 0 {
        return Err(SynthError::ExportTakesParameters(decl.name.clone()));
    }
    Ok(ExportPlan { function: decl.name.clone(), wrapper: wrapper_name(&decl.name) })
}

/// The exports synthesized for a module type.
pub struct ModulePlan {
    pub module_type: String,
    pub kind: ModuleKind,
    pub exports: Vec<ExportSpec>,
}

/// Plans the exports of the type `module_type` declared with the kind that
/// `kind_path` names. An unrecognized kind fails the whole plan: nothing is
/// emitted.
pub fn plan_module(module_type: &String, kind_path: &Vec<String>) -> (r: Result<ModulePlan, SynthError>)
    ensures
        r is Ok <==> kind_named(strings(kind_path@)) is Some,
        r matches Ok(p) ==> {
            &&& p.module_type@ == module_type@
            &&& kind_named(strings(kind_path@)) == Some(p.kind)
            &&& models(p.exports@) == kind_exports(p.kind)
        },
        r matches Err(e) ==> if kind_path@.len() == 0 {
            e == SynthError::MissingKind
        } else {
            e matches SynthError::UnsupportedKind(s) && s@ == kind_path@.last()@
        },
{
    match ModuleKind::from_path(kind_path) {
        Ok(kind) => Ok(ModulePlan { module_type: module_type.clone(), kind, exports: kind.exports() }),
        Err(e) => Err(e),
    }
}

/// Wrapper names are unique: distinct functions get distinct wrappers.
pub proof fn law_wrapper_names_distinct(a: Seq<char>, b: Seq<char>)
    requires
        a != b,
    ensures
        wrapper_name_of(a) != wrapper_name_of(b),
{
    if wrapper_name_of(a) == wrapper_name_of(b) {
        let n = "_wrapper"@.len();
        assert(a =~= wrapper_name_of(a).take(wrapper_name_of(a).len() - n));
        assert(b =~= wrapper_name_of(b).take(wrapper_name_of(b).len() - n));
    }
}

/// A content-discovery module receives exactly one export, `discover`, which
/// calls the type's `discover` without arguments and encodes its result into
/// the bounded buffer.
pub proof fn law_content_discovery_exports(kind_path: Seq<Seq<char>>)
    requires
        kind_named(kind_path) == Some(ModuleKind::Source),
    ensures
        kind_exports(kind_named(kind_path)->Some_0) == seq![discover_model()],
        discover_model().name == "discover"@,
        discover_model().params == ParamShape::NoArgs,
        discover_model().delegate_args == DelegateArgs::NoArgs,
        discover_model().result == ResultShape::BoundedJson,
{
}

/// An account-linking module receives exactly four exports with distinct
/// names: `auth_url` (placeholder arguments, leaked bytes), `handle_callback`
/// (one authorization code, passed on), `refresh_token` and `discover` (no
/// arguments); all but `auth_url` encode into the bounded buffer.
pub proof fn law_account_linking_exports(kind_path: Seq<Seq<char>>)
    requires
        kind_named(kind_path) == Some(ModuleKind::Tracker),
    ensures
        ({
            let ex = kind_exports(kind_named(kind_path)->Some_0);
            &&& ex.len() == 4
            &&& ex[0].name == "auth_url"@ && ex[1].name == "handle_callback"@
            &&& ex[2].name == "refresh_token"@ && ex[3].name == "discover"@
            &&& forall|i: int, j: int| 0 <= i < j < 4 ==> ex[i].name != ex[j].name
            &&& ex[0].params == ParamShape::NoArgs && ex[0].delegate_args == DelegateArgs::Placeholders
            &&& ex[0].result == ResultShape::LeakedBytes
            &&& ex[1].params == ParamShape::AuthCode && ex[1].delegate_args == DelegateArgs::ForwardAuthCode
            &&& ex[1].result == ResultShape::BoundedJson
            &&& ex[2].params == ParamShape::NoArgs && ex[2].delegate_args == DelegateArgs::NoArgs
            &&& ex[2].result == ResultShape::BoundedJson
            &&& ex[3] == discover_model()
        }),
{
    reveal_strlit("auth_url");
    reveal_strlit("handle_callback");
    reveal_strlit("refresh_token");
    reveal_strlit("discover");
    let ex = kind_exports(ModuleKind::Tracker);
    assert(ex[0].name[0] != ex[1].name[0]);
    assert(ex[0].name[0] != ex[2].name[0]);
    assert(ex[0].name[0] != ex[3].name[0]);
    assert(ex[1].name[0] != ex[2].name[0]);
    assert(ex[1].name[0] != ex[3].name[0]);
    assert(ex[2].name[0] != ex[3].name[0]);
}

} // verus!
