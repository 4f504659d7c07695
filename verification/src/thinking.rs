//! Thinking-mode configuration: how many reasoning tokens a request grants
//! the model, and a calculator that estimates a sensible budget from the
//! prompt.

use vstd::prelude::*;
use crate::models::GenerationConfig;
use crate::text::{count_words, has_substring, str_contains, word_count};

verus! {

/// The most thinking tokens a request may grant.
pub const MAX_THINKING_TOKENS: u32 = 24576;

/// Configuration for thinking mode.
#[derive(Debug, Clone, Copy, PartialEq, Eq, Structural)]
pub struct ThinkingConfig {
    /// Number of thinking tokens the model can use.
    pub thinking_budget: ThinkingBudget,
}

/// Thinking budget specification.
#[derive(Debug, Clone, Copy, PartialEq, Eq, Structural)]
pub enum ThinkingBudget {
    /// Exact number of tokens.
    Tokens(u32),
    /// Let the model decide based on complexity.
    Auto,
}

impl ThinkingConfig {
    /// Create a new thinking configuration with a specific token budget, up
    /// to [`MAX_THINKING_TOKENS`].
    pub fn with_budget(tokens: u32) -> (r: Self)
        requires
            tokens <= MAX_THINKING_TOKENS,
        ensures
            r.thinking_budget == ThinkingBudget::Tokens(tokens),
    {
        ThinkingConfig { thinking_budget: ThinkingBudget::Tokens(tokens) }
    }

    /// Create a configuration that lets the model decide thinking budget.
    pub fn auto() -> (r: Self)
        ensures
            r.thinking_budget == ThinkingBudget::Auto,
    {
        ThinkingConfig { thinking_budget: ThinkingBudget::Auto }
    }

    /// Disable thinking mode.
    pub fn disabled() -> (r: Self)
        ensures
            r.thinking_budget == ThinkingBudget::Tokens(0),
    {
        ThinkingConfig { thinking_budget: ThinkingBudget::Tokens(0) }
    }
}

impl Default for ThinkingConfig {
    /// Same as [`ThinkingConfig::auto`].
    fn default() -> (r: Self)
        ensures
            r.thinking_budget == ThinkingBudget::Auto,
    {
        ThinkingConfig::auto()
    }
}

/// Extension trait for setting thinking mode on a generation configuration.
pub trait ThinkingExt: Sized {
    /// `self` with its thinking configuration replaced.
    spec fn with_thinking_spec(self, config: ThinkingConfig) -> Self;

    /// Apply a thinking configuration.
    fn with_thinking(self, config: ThinkingConfig) -> (r: Self)
        ensures
            r == self.with_thinking_spec(config),
    ;

    /// Set a specific thinking budget in tokens, up to
    /// [`MAX_THINKING_TOKENS`].
    fn with_thinking_budget(self, tokens: u32) -> (r: Self)
        requires
            tokens <= MAX_THINKING_TOKENS,
        ensures
            r == self.with_thinking_spec(
                ThinkingConfig { thinking_budget: ThinkingBudget::Tokens(tokens) },
            ),
    ;

    /// Let the model decide how much to think.
    fn with_auto_thinking(self) -> (r: Self)
        ensures
            r == self.with_thinking_spec(ThinkingConfig { thinking_budget: ThinkingBudget::Auto }),
    ;

    /// Disable thinking mode.
    fn without_thinking(self) -> (r: Self)
        ensures
            r == self.with_thinking_spec(
                ThinkingConfig { thinking_budget: ThinkingBudget::Tokens(0) },
            ),
    ;
}

impl ThinkingExt for GenerationConfig {
    open spec fn with_thinking_spec(self, config: ThinkingConfig) -> Self {
        GenerationConfig { thinking_config: Some(config), ..self }
    }

    fn with_thinking(self, config: ThinkingConfig) -> (r: Self) {
        GenerationConfig { thinking_config: Some(config), ..self }
    }

    fn with_thinking_budget(self, tokens: u32) -> (r: Self) {
        self.with_thinking(ThinkingConfig::with_budget(tokens))
    }

    fn with_auto_thinking(self) -> (r: Self) {
        self.with_thinking(ThinkingConfig::auto())
    }

    fn without_thinking(self) -> (r: Self) {
        self.with_thinking(ThinkingConfig::disabled())
    }
}

/// Helper to determine an appropriate thinking budget from the task.
#[derive(Debug, Clone, Copy, PartialEq, Eq, Structural)]
pub struct ThinkingBudgetCalculator;

/// Task complexity levels for thinking budget estimation.
#[derive(Debug, Clone, Copy, PartialEq, Eq, Structural)]
pub enum TaskComplexity {
    /// Simple queries, fact retrieval.
    Simple,
    /// Moderate reasoning, comparisons.
    Moderate,
    /// Complex analysis, multi-step reasoning.
    Complex,
    /// Very complex problems, deep analysis.
    VeryComplex,
}

/// The base thinking budget granted for each complexity level.
pub open spec fn base_budget(task_type: TaskComplexity) -> int {
    match task_type {
        TaskComplexity::Simple => 0,
        TaskComplexity::Moderate => 512,
        TaskComplexity::Complex => 2048,
        TaskComplexity::VeryComplex => 8192,
    }
}

/// Whether the prompt contains a phrase that marks deliberate, multi-step
/// work and so earns half again the base budget.
pub open spec fn has_complexity_marker(prompt: Seq<char>) -> bool {
    ||| has_substring(prompt, "step by step"@)
    ||| has_substring(prompt, "analyze"@)
    ||| has_substring(prompt, "explain"@)
}

/// The budget owed for a prompt: the base for its complexity level, half
/// again when the prompt carries a complexity marker, plus 256 tokens per
/// full hundred words, capped at [`MAX_THINKING_TOKENS`].
pub open spec fn estimated_budget(prompt: Seq<char>, task_type: TaskComplexity) -> int {
    let adjusted = if has_complexity_marker(prompt) {
        base_budget(task_type) * 3 / 2
    } else {
        base_budget(task_type)
    };
    let length_bonus = word_count(prompt) / 100 * 256;
    vstd::math::min(adjusted + length_bonus, MAX_THINKING_TOKENS as int)
}

impl ThinkingBudgetCalculator {
    /// Estimate a thinking budget from the prompt's length and complexity
    /// markers and the task's complexity level.
    pub fn estimate(prompt: &str, task_type: TaskComplexity) -> (r: u32)
        ensures
            r == estimated_budget(prompt@, task_type),
    {
        let base: u64 = match task_type {
            TaskComplexity::Simple => 0,
            TaskComplexity::Moderate => 512,
            TaskComplexity::Complex => 2048,
            TaskComplexity::VeryComplex => 8192,
        };
        let marked = str_contains(prompt, "step by step") || str_contains(prompt, "analyze")
            || str_contains(prompt, "explain");
        let adjusted: u64 = if marked {
            base * 3 / 2
        } else {
            base
        };
        let words = count_words(prompt);
        let hundreds = (words / 100) as u64;
        let capped_hundreds: u64 = if hundreds > MAX_THINKING_TOKENS as u64 {
            MAX_THINKING_TOKENS as u64
        } else {
            hundreds
        };
        let total = adjusted + capped_hundreds * 256;
        proof {
            assert(word_count(prompt@) / 100 * 256 == hundreds * 256);
            assert(hundreds > MAX_THINKING_TOKENS ==> hundreds * 256 > MAX_THINKING_TOKENS)
                by (nonlinear_arith);
            assert(capped_hundreds * 256 <= 0x1_0000_0000) by (nonlinear_arith)
                requires
                    capped_hundreds <= MAX_THINKING_TOKENS,
            ;
        }
        if total > MAX_THINKING_TOKENS as u64 {
            MAX_THINKING_TOKENS
        } else {
            total as u32
        }
    }
}

} // verus!
