use zcode_glm::catalog::static_model_catalog;
use zcode_glm::catalog::ModelVisibility;
use zcode_glm::catalog::ReasoningSummary;
use zcode_glm::catalog::TruncationMode;
use zcode_glm::catalog::InputModality;
use zcode_glm::catalog::GLM_5_3_CONTEXT_WINDOW;
use zcode_glm::catalog::GLM_DEFAULT_CONTEXT_WINDOW;
use zcode_glm::catalog::GLM_DEFAULT_MODEL;

#[test]
fn catalog_marks_glm_5_3_as_lowest_priority_default_candidate() {
    let catalog = static_model_catalog();

    assert_eq!(
        catalog
            .models
            .iter()
            .map(|model| (model.slug.as_str(), model.priority))
            .collect::<Vec<_>>(),
        vec![(GLM_DEFAULT_MODEL, 0), ("glm-5.2", 1), ("glm-4.6", 2)]
    );
    for model in &catalog.models {
        assert_eq!(model.visibility, ModelVisibility::List);
        assert!(!model.used_fallback_model_metadata);
    }
}

#[test]
fn catalog_uses_documented_context_windows() {
    let catalog = static_model_catalog();

    assert_eq!(
        catalog
            .models
            .iter()
            .map(|model| (model.slug.as_str(), model.context_window))
            .collect::<Vec<_>>(),
        vec![
            (GLM_DEFAULT_MODEL, Some(GLM_5_3_CONTEXT_WINDOW)),
            ("glm-5.2", Some(GLM_DEFAULT_CONTEXT_WINDOW)),
            ("glm-4.6", Some(GLM_DEFAULT_CONTEXT_WINDOW)),
        ]
    );
}

#[test]
fn catalog_default_model_and_context_window_values() {
    assert_eq!(GLM_DEFAULT_MODEL, "glm-5.3");
    assert_eq!(GLM_5_3_CONTEXT_WINDOW, 1_000_000);
    assert_eq!(GLM_DEFAULT_CONTEXT_WINDOW, 200_000);
}

#[test]
fn catalog_models_share_glm_settings() {
    let catalog = static_model_catalog();
    let names: Vec<&str> = catalog.models.iter().map(|m| m.display_name.as_str()).collect();
    assert_eq!(names, vec!["GLM-5.3", "GLM-5.2", "GLM-4.6"]);
    for model in &catalog.models {
        assert_eq!(model.description, None);
        assert!(model.supported_in_api);
        assert!(model.uses_base_instructions);
        assert!(model.supports_reasoning_summary_parameter);
        assert_eq!(model.default_reasoning_summary, ReasoningSummary::Auto);
        assert_eq!(model.truncation_policy.mode, TruncationMode::Bytes);
        assert_eq!(model.truncation_policy.limit, 10_000);
        assert_eq!(model.max_context_window, model.context_window);
        assert_eq!(model.effective_context_window_percent, 95);
        assert_eq!(model.auto_compact_token_limit, None);
        assert!(!model.support_verbosity);
        assert!(!model.supports_search_tool);
        assert!(!model.use_responses_lite);
    }
}

#[test]
fn catalog_models_leave_optional_settings_unset() {
    let catalog = static_model_catalog();
    for model in &catalog.models {
        assert_eq!(model.default_reasoning_level, None);
        assert!(model.supported_reasoning_levels.is_empty());
        assert_eq!(model.default_verbosity, None);
        assert_eq!(model.apply_patch_tool_type, None);
        assert_eq!(model.comp_hash, None);
        assert!(model.experimental_supported_tools.is_empty());
        assert_eq!(model.input_modalities, vec![InputModality::Text, InputModality::Image]);
        assert_eq!(model.auto_review_model_override, None);
    }
}
