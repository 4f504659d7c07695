//! Function calling support: tool and function declarations, the calls a
//! model makes, and a builder for declaring functions parameter by
//! parameter.

use vstd::prelude::*;
use crate::grounding::{SearchGrounding, UrlContext};
use crate::models::GenerateContentRequest;
use crate::text::str_eq;

verus! {

/// Tool configuration.
#[derive(Debug)]
pub enum Tool {
    /// Function declarations.
    FunctionDeclarations {
        /// List of function declarations available to the model.
        function_declarations: Vec<FunctionDeclaration>,
    },
    /// Google Search tool.
    GoogleSearch(SearchGrounding),
    /// URL Context tool.
    UrlContext(UrlContext),
    /// Code execution tool.
    CodeExecution {
        /// Configuration for code execution.
        code_execution: CodeExecutionConfig,
    },
}

/// Function declaration.
#[derive(Debug)]
pub struct FunctionDeclaration {
    /// Function name.
    pub name: String,
    /// Function description.
    pub description: String,
    /// Parameters schema (OpenAPI format).
    pub parameters: ParameterSchema,
}

/// Parameter schema for functions: named properties with unique names, in
/// declaration order.
#[derive(Debug)]
pub struct ParameterSchema {
    /// Schema type (usually "object").
    pub schema_type: String,
    /// Properties, each a name paired with its schema.
    pub properties: Vec<(String, PropertySchema)>,
    /// Required parameter names.
    pub required: Option<Vec<String>>,
}

/// Individual property schema.
#[derive(Debug)]
pub struct PropertySchema {
    /// Type of the property.
    pub property_type: String,
    /// Description of the property.
    pub description: Option<String>,
    /// Allowed enum values.
    pub enum_values: Option<Vec<String>>,
    /// Schema for array items.
    pub items: Option<Box<PropertySchema>>,
}

/// Function call from the model.
#[derive(Debug, Clone, PartialEq)]
pub struct FunctionCall {
    /// Name of the function to call.
    pub name: String,
    /// Arguments to pass to the function: each name paired with its value as
    /// raw JSON text.
    pub args: Vec<(String, String)>,
}

/// Function response to send back to the model.
#[derive(Debug, Clone, PartialEq)]
pub struct FunctionResponse {
    /// Name of the function that was called.
    pub name: String,
    /// Response data from the function, as raw JSON text.
    pub response: String,
}

/// Code execution configuration.
#[derive(Debug, Clone, PartialEq)]
pub struct CodeExecutionConfig {}

impl Default for CodeExecutionConfig {
    /// There is nothing to configure.
    fn default() -> (r: Self)
        ensures
            r == (CodeExecutionConfig {  }),
    {
        CodeExecutionConfig {  }
    }
}

/// Tool configuration for controlling function calling behavior.
#[derive(Debug)]
pub struct ToolConfig {
    /// Function calling configuration.
    pub function_calling_config: Option<FunctionCallingConfig>,
}

/// Function calling configuration.
#[derive(Debug, Clone, PartialEq)]
pub struct FunctionCallingConfig {
    /// Mode for function calling.
    pub mode: FunctionCallingMode,
    /// Allowed function names (for restricting which functions can be
    /// called).
    pub allowed_function_names: Option<Vec<String>>,
}

/// Function calling mode.
#[derive(Debug, Clone, Copy, PartialEq, Eq, Structural)]
pub enum FunctionCallingMode {
    /// Model decides whether to call functions.
    Auto,
    /// Model must call a function.
    Any,
    /// Model cannot call functions.
    Disabled,
}

/// No two properties share a name.
pub open spec fn prop_names_unique(props: Seq<(String, PropertySchema)>) -> bool {
    forall|i: int, j: int| 0 <= i < j < props.len() ==> props[i].0@ != props[j].0@
}

/// Some property carries this name.
pub open spec fn has_prop(props: Seq<(String, PropertySchema)>, name: Seq<char>) -> bool {
    exists|i: int| 0 <= i < props.len() && props[i].0@ == name
}

/// Builder for function declarations.
#[derive(Debug)]
pub struct FunctionBuilder {
    /// The function's name.
    pub name: String,
    /// The function's description.
    pub description: String,
    /// The parameters declared so far, in order, names unique.
    pub parameters: Vec<(String, PropertySchema)>,
    /// The names of the required parameters, in order of declaration.
    pub required: Vec<String>,
}

impl FunctionBuilder {
    /// The parameter names never repeat.
    pub open spec fn wf(self) -> bool {
        prop_names_unique(self.parameters@)
    }

    /// Create a new function builder with the given name.
    pub fn new(name: &str) -> (r: Self)
        ensures
            r.name@ == name@,
            r.description@ == Seq::<char>::empty(),
            r.parameters@.len() == 0,
            r.required@.len() == 0,
            r.wf(),
    {
        FunctionBuilder {
            name: name.to_owned(),
            description: String::new(),
            parameters: Vec::new(),
            required: Vec::new(),
        }
    }

    /// Set the description of the function.
    pub fn description(self, desc: &str) -> (r: Self)
        ensures
            r.description@ == desc@,
            r.name == self.name,
            r.parameters == self.parameters,
            r.required == self.required,
            self.wf() ==> r.wf(),
    {
        FunctionBuilder { description: desc.to_owned(), ..self }
    }

    /// Record a property under `name`: replace the schema of an existing
    /// property of that name, or append a new one.
    fn upsert_property(&mut self, name: &str, schema: PropertySchema)
        requires
            old(self).wf(),
        ensures
            final(self).wf(),
            final(self).name == old(self).name,
            final(self).description == old(self).description,
            final(self).required == old(self).required,
            forall|i: int|
                0 <= i < old(self).parameters@.len() && old(self).parameters@[i].0@ != name@
                    ==> final(self).parameters@[i] == old(self).parameters@[i],
            has_prop(old(self).parameters@, name@) ==> {
                &&& final(self).parameters@.len() == old(self).parameters@.len()
                &&& forall|i: int|
                    0 <= i < old(self).parameters@.len() && #[trigger] old(
                        self,
                    ).parameters@[i].0@ == name@ ==> final(self).parameters@[i].0@ == name@
                        && final(self).parameters@[i].1 == schema
            },
            !has_prop(old(self).parameters@, name@) ==> {
                &&& final(self).parameters@.len() == old(self).parameters@.len() + 1
                &&& final(self).parameters@.drop_last() == old(self).parameters@
                &&& final(self).parameters@.last().0@ == name@
                &&& final(self).parameters@.last().1 == schema
            },
    {
        let n = self.parameters.len();
        let mut i: usize = 0;
        while i < n
            invariant
                old(self).wf(),
                self.name == old(self).name,
                self.description == old(self).description,
                self.required == old(self).required,
                self.parameters == old(self).parameters,
                n == self.parameters@.len(),
                i <= n,
                forall|j: int| 0 <= j < i ==> self.parameters@[j].0@ != name@,
        decreases n - i,
        {
            if str_eq(self.parameters[i].0.as_str(), name) {
                let entry = (name.to_owned(), schema);
                self.parameters.set(i, entry);
                proof {
                    assert(forall|k: int|
                        0 <= k < self.parameters@.len() ==> #[trigger] self.parameters@[k].0@
                            == old(self).parameters@[k].0@);
                }
                return;
            }
            i = i + 1;
        }
        self.parameters.push((name.to_owned(), schema));
    }

    /// Add a parameter to the function, replacing any parameter already
    /// declared under the same name, and mark it required if asked to.
    pub fn param(self, name: &str, param_type: &str, description: &str, required: bool) -> (r:
        Self)
        requires
            self.wf(),
        ensures
            r.wf(),
            r.name == self.name,
            r.description == self.description,
            required ==> r.required@.len() == self.required@.len() + 1 && r.required@.last()@
                == name@ && r.required@.take(self.required@.len() as int) == self.required@,
            !required ==> r.required == self.required,
            has_prop(r.parameters@, name@),
            forall|i: int|
                0 <= i < self.parameters@.len() && self.parameters@[i].0@ != name@
                    ==> r.parameters@[i] == self.parameters@[i],
            forall|i: int|
                0 <= i < r.parameters@.len() && #[trigger] r.parameters@[i].0@ == name@ ==> {
                    &&& r.parameters@[i].1.property_type@ == param_type@
                    &&& (r.parameters@[i].1.description matches Some(d) && d@ == description@)
                    &&& r.parameters@[i].1.enum_values is None
                    &&& r.parameters@[i].1.items is None
                },
            !has_prop(self.parameters@, name@) ==> r.parameters@.len() == self.parameters@.len()
                + 1,
            has_prop(self.parameters@, name@) ==> r.parameters@.len() == self.parameters@.len(),
    {
        let schema = PropertySchema {
            property_type: param_type.to_owned(),
            description: Some(description.to_owned()),
            enum_values: None,
            items: None,
        };
        let mut this = self;
        this.upsert_property(name, schema);
        if required {
            this.required.push(name.to_owned());
        }
        this
    }

    /// Add a string parameter restricted to the given values, replacing any
    /// parameter already declared under the same name, and mark it required
    /// if asked to.
    pub fn enum_param(self, name: &str, values: Vec<String>, description: &str, required:
        bool) -> (r: Self)
        requires
            self.wf(),
        ensures
            r.wf(),
            r.name == self.name,
            r.description == self.description,
            required ==> r.required@.len() == self.required@.len() + 1 && r.required@.last()@
                == name@ && r.required@.take(self.required@.len() as int) == self.required@,
            !required ==> r.required == self.required,
            has_prop(r.parameters@, name@),
            forall|i: int|
                0 <= i < self.parameters@.len() && self.parameters@[i].0@ != name@
                    ==> r.parameters@[i] == self.parameters@[i],
            forall|i: int|
                0 <= i < r.parameters@.len() && #[trigger] r.parameters@[i].0@ == name@ ==> {
                    &&& r.parameters@[i].1.property_type@ == "string"@
                    &&& (r.parameters@[i].1.description matches Some(d) && d@ == description@)
                    &&& r.parameters@[i].1.enum_values == Some(values)
                    &&& r.parameters@[i].1.items is None
                },
            !has_prop(self.parameters@, name@) ==> r.parameters@.len() == self.parameters@.len()
                + 1,
            has_prop(self.parameters@, name@) ==> r.parameters@.len() == self.parameters@.len(),
    {
        let schema = PropertySchema {
            property_type: String::from_str("string"),
            description: Some(description.to_owned()),
            enum_values: Some(values),
            items: None,
        };
        let mut this = self;
        this.upsert_property(name, schema);
        if required {
            this.required.push(name.to_owned());
        }
        this
    }

    /// Build the function declaration: an object schema holding the declared
    /// properties, with the required names listed only when there are any.
    pub fn build(self) -> (r: FunctionDeclaration)
        ensures
            r.name == self.name,
            r.description == self.description,
            r.parameters.schema_type@ == "object"@,
            r.parameters.properties == self.parameters,
            self.required@.len() == 0 ==> r.parameters.required is None,
            self.required@.len() > 0 ==> r.parameters.required == Some(self.required),
    {
        let required = if self.required.len() == 0 {
            None
        } else {
            Some(self.required)
        };
        FunctionDeclaration {
            name: self.name,
            description: self.description,
            parameters: ParameterSchema {
                schema_type: String::from_str("object"),
                properties: self.parameters,
                required,
            },
        }
    }
}

impl Tool {
    /// Create a tool with function declarations.
    pub fn functions(declarations: Vec<FunctionDeclaration>) -> (r: Self)
        ensures
            r == (Tool::FunctionDeclarations { function_declarations: declarations }),
    {
        Tool::FunctionDeclarations { function_declarations: declarations }
    }

    /// Create a Google Search tool.
    pub fn google_search() -> (r: Self)
        ensures
            r == Tool::GoogleSearch(SearchGrounding { dynamic_retrieval_config: None }),
    {
        Tool::GoogleSearch(SearchGrounding::default())
    }

    /// Create a URL context tool.
    pub fn url_context() -> (r: Self)
        ensures
            r == Tool::UrlContext(UrlContext { max_urls: None }),
    {
        Tool::UrlContext(UrlContext::default())
    }

    /// Create a code execution tool.
    pub fn code_execution() -> (r: Self)
        ensures
            r == (Tool::CodeExecution { code_execution: CodeExecutionConfig {  } }),
    {
        Tool::CodeExecution { code_execution: CodeExecutionConfig::default() }
    }
}

/// Extension trait for configuring how a request may call functions.
pub trait ToolExt: Sized {
    /// `self` with its tool configuration replaced.
    spec fn with_tool_config_spec(self, config: Option<ToolConfig>) -> Self;

    /// Let the model decide whether to call functions.
    fn with_auto_function_calling(self) -> (r: Self)
        ensures
            r == self.with_tool_config_spec(
                Some(
                    ToolConfig {
                        function_calling_config: Some(
                            FunctionCallingConfig {
                                mode: FunctionCallingMode::Auto,
                                allowed_function_names: None,
                            },
                        ),
                    },
                ),
            ),
    ;

    /// Require the model to call a function, optionally restricted to the
    /// named ones.
    fn with_any_function_calling(self, allowed: Option<Vec<String>>) -> (r: Self)
        ensures
            r == self.with_tool_config_spec(
                Some(
                    ToolConfig {
                        function_calling_config: Some(
                            FunctionCallingConfig {
                                mode: FunctionCallingMode::Any,
                                allowed_function_names: allowed,
                            },
                        ),
                    },
                ),
            ),
    ;

    /// Forbid the model from calling functions.
    fn without_function_calling(self) -> (r: Self)
        ensures
            r == self.with_tool_config_spec(
                Some(
                    ToolConfig {
                        function_calling_config: Some(
                            FunctionCallingConfig {
                                mode: FunctionCallingMode::Disabled,
                                allowed_function_names: None,
                            },
                        ),
                    },
                ),
            ),
    ;
}

impl ToolExt for GenerateContentRequest {
    open spec fn with_tool_config_spec(self, config: Option<ToolConfig>) -> Self {
        GenerateContentRequest { tool_config: config, ..self }
    }

    fn with_auto_function_calling(self) -> (r: Self) {
        GenerateContentRequest {
            tool_config: Some(
                ToolConfig {
                    function_calling_config: Some(
                        FunctionCallingConfig {
                            mode: FunctionCallingMode::Auto,
                            allowed_function_names: None,
                        },
                    ),
                },
            ),
            ..self
        }
    }

    fn with_any_function_calling(self, allowed: Option<Vec<String>>) -> (r: Self) {
        GenerateContentRequest {
            tool_config: Some(
                ToolConfig {
                    function_calling_config: Some(
                        FunctionCallingConfig {
                            mode: FunctionCallingMode::Any,
                            allowed_function_names: allowed,
                        },
                    ),
                },
            ),
            ..self
        }
    }

    fn without_function_calling(self) -> (r: Self) {
        GenerateContentRequest {
            tool_config: Some(
                ToolConfig {
                    function_calling_config: Some(
                        FunctionCallingConfig {
                            mode: FunctionCallingMode::Disabled,
                            allowed_function_names: None,
                        },
                    ),
                },
            ),
            ..self
        }
    }
}

} // verus!
