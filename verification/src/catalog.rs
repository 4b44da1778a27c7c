//! Static model catalog for the GLM (Zhipu) provider.
//!
//! The GLM Coding Plan endpoint does not expose a Codex-compatible `/models`
//! catalog, so the provider ships an authoritative in-process catalog instead
//! of fetching one remotely.

use vstd::prelude::*;

verus! {

/// The model that the GLM provider uses unless told otherwise.
pub const GLM_DEFAULT_MODEL: &'static str = "glm-5.3";

/// Context window of GLM-5.3, in tokens.
pub const GLM_5_3_CONTEXT_WINDOW: i64 = 1_000_000;

/// Context window of the other GLM models, in tokens.
pub const GLM_DEFAULT_CONTEXT_WINDOW: i64 = 200_000;

/// Byte limit of the truncation policy of every GLM model.
pub const GLM_TRUNCATION_BYTES: i64 = 10_000;

/// Share of the context window that a GLM model uses, in percent.
pub const GLM_EFFECTIVE_CONTEXT_WINDOW_PERCENT: i64 = 95;

/// How the shell tool is offered to a model.
#[derive(Clone, Copy, Debug, PartialEq, Eq, Structural)]
pub enum ConfigShellToolType {
    Default,
}

/// Whether a model shows in the model picker.
#[derive(Clone, Copy, Debug, PartialEq, Eq, Structural)]
pub enum ModelVisibility {
    List,
    Hide,
}

/// The reasoning summary a model gives by default.
#[derive(Clone, Copy, Debug, PartialEq, Eq, Structural)]
pub enum ReasoningSummary {
    Auto,
    Concise,
    Detailed,
}

/// How web search is offered to a model.
#[derive(Clone, Copy, Debug, PartialEq, Eq, Structural)]
pub enum WebSearchToolType {
    Text,
}

/// What the truncation limit of a model's tool output counts.
#[derive(Clone, Copy, Debug, PartialEq, Eq, Structural)]
pub enum TruncationMode {
    Bytes,
}

/// How hard a model reasons.
#[derive(Clone, Copy, Debug, PartialEq, Eq, Structural)]
pub enum ReasoningEffort {
    Minimal,
    Low,
    Medium,
    High,
    XHigh,
}

/// A reasoning level that a model offers, with its description.
#[derive(Debug)]
pub struct ReasoningEffortPreset {
    pub effort: ReasoningEffort,
    pub description: String,
}

/// How verbose a model's answers are.
#[derive(Clone, Copy, Debug, PartialEq, Eq, Structural)]
pub enum Verbosity {
    Low,
    Medium,
    High,
}

/// How the patch tool is offered to a model.
#[derive(Clone, Copy, Debug, PartialEq, Eq, Structural)]
pub enum ApplyPatchToolType {
    Freeform,
    Function,
}

/// A kind of input that a model accepts.
#[derive(Clone, Copy, Debug, PartialEq, Eq, Structural)]
pub enum InputModality {
    Text,
    Image,
}

/// The inputs that a model accepts unless it says otherwise: text and images.
pub open spec fn default_input_modalities_seq() -> Seq<InputModality> {
    seq![InputModality::Text, InputModality::Image]
}

/// The inputs that a model accepts unless it says otherwise.
pub fn default_input_modalities() -> (r: Vec<InputModality>)
    ensures
        r@ == default_input_modalities_seq(),
{
    let r = vec![InputModality::Text, InputModality::Image];
    assert(r@ =~= default_input_modalities_seq());
    r
}

/// How a model's tool output is truncated.
#[derive(Clone, Copy, Debug, PartialEq, Eq, Structural)]
pub struct TruncationPolicyConfig {
    pub mode: TruncationMode,
    pub limit: i64,
}

/// The description of one model of the catalog.
#[derive(Debug)]
pub struct ModelInfo {
    pub slug: String,
    pub display_name: String,
    pub description: Option<String>,
    pub default_reasoning_level: Option<ReasoningEffort>,
    pub supported_reasoning_levels: Vec<ReasoningEffortPreset>,
    pub shell_type: ConfigShellToolType,
    pub visibility: ModelVisibility,
    pub supported_in_api: bool,
    pub priority: i32,
    /// The model's instructions template is the base instructions.
    pub uses_base_instructions: bool,
    pub include_skills_usage_instructions: bool,
    pub include_plugin_usage_instructions: bool,
    pub include_apps_usage_instructions: bool,
    pub supports_reasoning_summary_parameter: bool,
    pub default_reasoning_summary: ReasoningSummary,
    pub support_verbosity: bool,
    pub default_verbosity: Option<Verbosity>,
    pub apply_patch_tool_type: Option<ApplyPatchToolType>,
    pub web_search_tool_type: WebSearchToolType,
    pub truncation_policy: TruncationPolicyConfig,
    pub supports_image_detail_original: bool,
    pub context_window: Option<i64>,
    pub max_context_window: Option<i64>,
    pub auto_compact_token_limit: Option<i64>,
    pub comp_hash: Option<String>,
    pub effective_context_window_percent: i64,
    pub experimental_supported_tools: Vec<String>,
    pub input_modalities: Vec<InputModality>,
    pub used_fallback_model_metadata: bool,
    pub supports_search_tool: bool,
    pub use_responses_lite: bool,
    pub node_repl_auto_review_required: bool,
    pub node_repl_disabled: bool,
    pub auto_review_model_override: Option<String>,
}

/// A catalog of models.
#[derive(Debug)]
pub struct ModelsResponse {
    pub models: Vec<ModelInfo>,
}

/// `m` is the GLM model `slug`, shown as `display_name`, with priority
/// `priority` and a context window of `context_window` tokens, with the
/// settings that every GLM model shares.
pub open spec fn is_glm_model(
    m: ModelInfo,
    slug: Seq<char>,
    display_name: Seq<char>,
    priority: i32,
    context_window: i64,
) -> bool {
    &&& m.slug@ == slug
    &&& m.display_name@ == display_name
    &&& m.description is None
    &&& m.default_reasoning_level is None
    &&& m.supported_reasoning_levels@.len() == 0
    &&& m.shell_type == ConfigShellToolType::Default
    &&& m.visibility == ModelVisibility::List
    &&& m.supported_in_api
    &&& m.priority == priority
    &&& m.uses_base_instructions
    &&& !m.include_skills_usage_instructions
    &&& !m.include_plugin_usage_instructions
    &&& !m.include_apps_usage_instructions
    &&& m.supports_reasoning_summary_parameter
    &&& m.default_reasoning_summary == ReasoningSummary::Auto
    &&& !m.support_verbosity
    &&& m.default_verbosity is None
    &&& m.apply_patch_tool_type is None
    &&& m.web_search_tool_type == WebSearchToolType::Text
    &&& m.truncation_policy == TruncationPolicyConfig { mode: TruncationMode::Bytes, limit: GLM_TRUNCATION_BYTES }
    &&& !m.supports_image_detail_original
    &&& m.context_window == Some(context_window)
    &&& m.max_context_window == Some(context_window)
    &&& m.auto_compact_token_limit is None
    &&& m.comp_hash is None
    &&& m.effective_context_window_percent == GLM_EFFECTIVE_CONTEXT_WINDOW_PERCENT
    &&& m.experimental_supported_tools@.len() == 0
    &&& m.input_modalities@ == default_input_modalities_seq()
    &&& !m.used_fallback_model_metadata
    &&& !m.supports_search_tool
    &&& !m.use_responses_lite
    &&& !m.node_repl_auto_review_required
    &&& !m.node_repl_disabled
    &&& m.auto_review_model_override is None
}

/// The description of GLM model `slug`.
fn glm_model(slug: &str, display_name: &str, priority: i32, context_window: i64) -> (r: ModelInfo)
    ensures
        is_glm_model(r, slug@, display_name@, priority, context_window),
{
    ModelInfo {
        slug: slug.to_owned(),
        display_name: display_name.to_owned(),
        description: None,
        default_reasoning_level: None,
        supported_reasoning_levels: Vec::new(),
        shell_type: ConfigShellToolType::Default,
        visibility: ModelVisibility::List,
        supported_in_api: true,
        priority,
        uses_base_instructions: true,
        include_skills_usage_instructions: false,
        include_plugin_usage_instructions: false,
        include_apps_usage_instructions: false,
        supports_reasoning_summary_parameter: true,
        default_reasoning_summary: ReasoningSummary::Auto,
        support_verbosity: false,
        default_verbosity: None,
        apply_patch_tool_type: None,
        web_search_tool_type: WebSearchToolType::Text,
        truncation_policy: TruncationPolicyConfig { mode: TruncationMode::Bytes, limit: GLM_TRUNCATION_BYTES },
        supports_image_detail_original: false,
        context_window: Some(context_window),
        max_context_window: Some(context_window),
        auto_compact_token_limit: None,
        comp_hash: None,
        effective_context_window_percent: GLM_EFFECTIVE_CONTEXT_WINDOW_PERCENT,
        experimental_supported_tools: Vec::new(),
        input_modalities: default_input_modalities(),
        used_fallback_model_metadata: false,
        supports_search_tool: false,
        use_responses_lite: false,
        node_repl_auto_review_required: false,
        node_repl_disabled: false,
        auto_review_model_override: None,
    }
}

/// The GLM model catalog: GLM-5.3 (the default, with the largest context
/// window), GLM-5.2 and GLM-4.6, in order of priority.
pub fn static_model_catalog() -> (r: ModelsResponse)
    ensures
        r.models@.len() == 3,
        is_glm_model(r.models@[0], GLM_DEFAULT_MODEL@, "GLM-5.3"@, 0, GLM_5_3_CONTEXT_WINDOW),
        is_glm_model(r.models@[1], "glm-5.2"@, "GLM-5.2"@, 1, GLM_DEFAULT_CONTEXT_WINDOW),
        is_glm_model(r.models@[2], "glm-4.6"@, "GLM-4.6"@, 2, GLM_DEFAULT_CONTEXT_WINDOW),
        r.models@[0].slug@ == "glm-5.3"@ && r.models@[0].priority == 0
            && r.models@[0].context_window == Some(1_000_000i64),
        r.models@[1].slug@ == "glm-5.2"@ && r.models@[1].priority == 1
            && r.models@[1].context_window == Some(200_000i64),
        r.models@[2].slug@ == "glm-4.6"@ && r.models@[2].priority == 2
            && r.models@[2].context_window == Some(200_000i64),
        // The default model comes first and has the lowest priority value.
        r.models@[0].slug@ == GLM_DEFAULT_MODEL@,
        forall|i: int, j: int|
            0 <= i < j < r.models@.len() ==> #[trigger] r.models@[i].priority
                < #[trigger] r.models@[j].priority,
        // Every model shows in the picker and none uses fallback metadata.
        forall|i: int|
            0 <= i < r.models@.len() ==> #[trigger] r.models@[i].visibility == ModelVisibility::List
                && !r.models@[i].used_fallback_model_metadata,
{
    let models = vec![
        glm_model(GLM_DEFAULT_MODEL, "GLM-5.3", 0, GLM_5_3_CONTEXT_WINDOW),
        glm_model("glm-5.2", "GLM-5.2", 1, GLM_DEFAULT_CONTEXT_WINDOW),
        glm_model("glm-4.6", "GLM-4.6", 2, GLM_DEFAULT_CONTEXT_WINDOW),
    ];
    ModelsResponse { models }
}

} // verus!
