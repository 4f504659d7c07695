use gemini_rust::cache::{cache_model_name, calculate_optimal_ttl};
use gemini_rust::client::{build_api_endpoint, build_model_endpoint};
use gemini_rust::functions::{FunctionBuilder, FunctionCallingMode, Tool};
use gemini_rust::grounding::{GroundingBuilder, GroundingConfig};
use gemini_rust::models::{GenerationConfig, SchemaType, StructuredOutput};
use gemini_rust::thinking::{
    TaskComplexity, ThinkingBudget, ThinkingBudgetCalculator, ThinkingConfig, ThinkingExt,
};
use gemini_rust::functions::ToolExt;
use gemini_rust::{ApiVersion, GeminiClientBuilder, GeminiConfig, GenerateContentRequest};

#[test]
fn function_builder_collects_parameters() {
    let declaration = FunctionBuilder::new("calculate")
        .description("Perform basic arithmetic operations")
        .enum_param(
            "operation",
            vec![
                String::from("add"),
                String::from("subtract"),
                String::from("multiply"),
                String::from("divide"),
            ],
            "The operation: add, subtract, multiply, or divide",
            true,
        )
        .param("a", "number", "First number", true)
        .param("b", "number", "Second number", false)
        .build();

    assert_eq!(declaration.name, "calculate");
    assert_eq!(declaration.description, "Perform basic arithmetic operations");
    assert_eq!(declaration.parameters.schema_type, "object");
    assert_eq!(declaration.parameters.properties.len(), 3);
    assert_eq!(declaration.parameters.properties[0].0, "operation");
    assert_eq!(
        declaration.parameters.properties[0].1.enum_values.as_ref().map(|v| v.len()),
        Some(4)
    );
    assert_eq!(declaration.parameters.properties[1].0, "a");
    assert_eq!(declaration.parameters.properties[1].1.property_type, "number");
    assert_eq!(
        declaration.parameters.required,
        Some(vec![String::from("operation"), String::from("a")])
    );
}

#[test]
fn function_builder_replaces_a_repeated_parameter() {
    let declaration = FunctionBuilder::new("f")
        .param("x", "string", "first", false)
        .param("x", "number", "second", false)
        .build();
    assert_eq!(declaration.parameters.properties.len(), 1);
    assert_eq!(declaration.parameters.properties[0].1.property_type, "number");
    assert_eq!(declaration.parameters.required, None);
}

#[test]
fn tool_constructors() {
    assert!(matches!(Tool::google_search(), Tool::GoogleSearch(_)));
    assert!(matches!(Tool::url_context(), Tool::UrlContext(_)));
    assert!(matches!(Tool::code_execution(), Tool::CodeExecution { .. }));
    let t = Tool::functions(vec![FunctionBuilder::new("f").build()]);
    if let Tool::FunctionDeclarations { function_declarations } = t {
        assert_eq!(function_declarations.len(), 1);
    } else {
        panic!("expected function declarations");
    }
}

#[test]
fn request_tool_calling_modes() {
    let request = GenerateContentRequest::default().with_auto_function_calling();
    let config = request.tool_config.expect("tool config set");
    let fcc = config.function_calling_config.expect("mode set");
    assert!(matches!(fcc.mode, FunctionCallingMode::Auto));
    assert_eq!(fcc.allowed_function_names, None);

    let request = GenerateContentRequest::default()
        .with_any_function_calling(Some(vec![String::from("f")]));
    let fcc = request.tool_config.unwrap().function_calling_config.unwrap();
    assert!(matches!(fcc.mode, FunctionCallingMode::Any));
    assert_eq!(fcc.allowed_function_names, Some(vec![String::from("f")]));

    let request = GenerateContentRequest::default().without_function_calling();
    let fcc = request.tool_config.unwrap().function_calling_config.unwrap();
    assert!(matches!(fcc.mode, FunctionCallingMode::Disabled));
}

#[test]
fn grounding_builder_combinations() {
    assert!(GroundingBuilder::new().build().is_none());
    assert!(matches!(
        GroundingBuilder::new().with_search().build(),
        Some(GroundingConfig::Search(_))
    ));
    assert!(matches!(
        GroundingBuilder::new().with_url_context().max_urls(5).build(),
        Some(GroundingConfig::UrlContext(u)) if u.max_urls == Some(5)
    ));
    match GroundingBuilder::new().with_search().with_url_context().build() {
        Some(GroundingConfig::Combined { .. }) => {}
        other => panic!("expected combined grounding, got {:?}", other),
    }
}

#[test]
fn grounding_config_to_tools() {
    let config = GroundingBuilder::new().with_search().with_url_context().build().unwrap();
    let tools = config.to_tools();
    assert_eq!(tools.len(), 2);
    assert!(matches!(tools[0], Tool::GoogleSearch(_)));
    assert!(matches!(tools[1], Tool::UrlContext(_)));
}

#[test]
fn thinking_config_constructors() {
    assert_eq!(
        ThinkingConfig::with_budget(1000).thinking_budget,
        ThinkingBudget::Tokens(1000)
    );
    assert_eq!(ThinkingConfig::auto().thinking_budget, ThinkingBudget::Auto);
    assert_eq!(ThinkingConfig::disabled().thinking_budget, ThinkingBudget::Tokens(0));
    assert_eq!(ThinkingConfig::default().thinking_budget, ThinkingBudget::Auto);
}

#[test]
fn thinking_extensions_set_the_config() {
    let config = GenerationConfig::default().with_thinking_budget(1000);
    assert_eq!(
        config.thinking_config.map(|c| c.thinking_budget),
        Some(ThinkingBudget::Tokens(1000))
    );
    let config = GenerationConfig::default().with_auto_thinking();
    assert_eq!(
        config.thinking_config.map(|c| c.thinking_budget),
        Some(ThinkingBudget::Auto)
    );
    let config = GenerationConfig::default().without_thinking();
    assert_eq!(
        config.thinking_config.map(|c| c.thinking_budget),
        Some(ThinkingBudget::Tokens(0))
    );
}

#[test]
fn thinking_budget_estimates() {
    assert_eq!(
        ThinkingBudgetCalculator::estimate("What is two plus two?", TaskComplexity::Simple),
        0
    );
    assert_eq!(
        ThinkingBudgetCalculator::estimate("Compare these options", TaskComplexity::Moderate),
        512
    );
    // A complexity marker earns half again the base budget.
    assert_eq!(
        ThinkingBudgetCalculator::estimate("Please analyze this", TaskComplexity::Moderate),
        768
    );
    assert_eq!(
        ThinkingBudgetCalculator::estimate("explain it step by step", TaskComplexity::Complex),
        3072
    );
    // A hundred words add 256 tokens.
    let long_prompt = "word ".repeat(100);
    assert_eq!(
        ThinkingBudgetCalculator::estimate(&long_prompt, TaskComplexity::Simple),
        256
    );
    // The estimate never exceeds the overall thinking-token cap.
    assert_eq!(
        ThinkingBudgetCalculator::estimate(
            &"analyze ".repeat(5000),
            TaskComplexity::VeryComplex
        ),
        24576
    );
}

#[test]
fn structured_output_schemas() {
    let schema = StructuredOutput::json_schema();
    assert!(matches!(schema.schema_type, SchemaType::Object));
    assert_eq!(schema.properties.as_ref().map(|p| p.len()), Some(0));
    assert!(schema.required.is_none());

    let schema = StructuredOutput::enum_schema(vec![String::from("a"), String::from("b")]);
    assert!(matches!(schema.schema_type, SchemaType::String));
    assert_eq!(
        schema.enum_values,
        Some(vec![String::from("a"), String::from("b")])
    );
}

#[test]
fn optimal_ttl_grows_with_content_size() {
    assert_eq!(calculate_optimal_ttl(0), 3600);
    assert_eq!(calculate_optimal_ttl(50000), 3600);
    assert_eq!(calculate_optimal_ttl(50001), 14400);
    assert_eq!(calculate_optimal_ttl(200001), 43200);
    assert_eq!(calculate_optimal_ttl(600000), 86400);
}

#[test]
fn cache_model_name_wants_a_pinned_release() {
    assert_eq!(
        cache_model_name("gemini-1.5-pro").unwrap(),
        "gemini-1.5-pro-001"
    );
    assert_eq!(
        cache_model_name("gemini-1.5-flash-001").unwrap(),
        "gemini-1.5-flash-001"
    );
    assert!(cache_model_name("gemini-1.5-pro-latest").is_err());
}

#[test]
fn model_names_resolve_to_pinned_releases() {
    let config = GeminiConfig::new(String::from("k"));
    assert_eq!(config.get_model_name(None), "gemini-2.5-flash");
    assert_eq!(
        config.get_model_name(Some("gemini-2.5-pro")),
        "gemini-2.5-pro-preview-05-06"
    );
    assert_eq!(
        config.get_model_name(Some("gemini-2.0-flash")),
        "gemini-2.0-flash-001"
    );
    assert_eq!(
        config.get_model_name(Some("gemini-2.5-pro-preview-05-06")),
        "gemini-2.5-pro-preview-05-06"
    );
    assert_eq!(config.get_model_name(Some("some-other-model")), "some-other-model");

    let mut pinned = GeminiConfig::new(String::from("k"));
    pinned.model_config.use_latest = false;
    assert_eq!(pinned.get_model_name(Some("gemini-2.5-pro")), "gemini-2.5-pro");
}

#[test]
fn endpoints_follow_the_url_scheme() {
    let config = GeminiConfig::new(String::from("k"));
    assert_eq!(
        build_model_endpoint(&config, None, "generateContent"),
        "https://generativelanguage.googleapis.com/v1/models/gemini-2.5-flash:generateContent"
    );
    assert_eq!(
        build_api_endpoint(&config, "cachedContents"),
        "https://generativelanguage.googleapis.com/v1/cachedContents"
    );
}

#[test]
fn builder_setters_fill_the_configuration() {
    let config = GeminiClientBuilder::default()
        .api_key("secret")
        .base_url("http://localhost:8000")
        .api_version(ApiVersion::V1Beta)
        .model("gemini-2.0-flash")
        .timeout(5000)
        .max_retries(7)
        .build()
        .expect("a key was set");
    assert_eq!(config.api_key, "secret");
    assert_eq!(config.base_url, "http://localhost:8000");
    assert!(matches!(config.api_version, ApiVersion::V1Beta));
    assert_eq!(config.model_config.model, "gemini-2.0-flash");
    assert_eq!(config.http_config.timeout_millis, 5000);
    assert_eq!(config.retry_config.max_attempts, 7);
}

#[test]
fn builder_without_key_is_refused() {
    assert!(GeminiClientBuilder::default().build().is_err());
    assert!(GeminiClientBuilder::default().api_key("").build().is_err());
    assert!(GeminiClientBuilder::default().base_url("http://x").build().is_err());
}
