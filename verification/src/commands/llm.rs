//! The decisions behind the prompt commands of the settings screen.
use vstd::prelude::*;

use crate::errors::concat3;
use crate::llm::client::{build_system_prompt, safety_footer, safety_footer_text, system_prompt};
use crate::llm::prompt_text::PARAGRAPH_BREAK;
use crate::llm::template::{render_pieces, render_template, tag_matches, tag_split, TemplateContext};
use crate::pipeline::CLIPBOARD_PLACEHOLDER;
use crate::text::{chars_of, contains, contains_exec, is_blank, trim, views};

verus! {

/// Whether previewing `template` needs the clipboard: only when it refers
/// to it.
pub fn preview_needs_clipboard(template: &str) -> (b: bool)
    ensures
        b == contains(template@, CLIPBOARD_PLACEHOLDER@),
{
    contains_exec(&chars_of(template), &chars_of(CLIPBOARD_PLACEHOLDER))
}

/// The system prompt the language model would receive: the built-in prompt
/// when the custom prompt is off or blank; otherwise the rendered template
/// followed by a blank line and the safety footer of the language.
pub fn preview_custom_prompt(
    template: &str,
    enabled: bool,
    text_structuring: bool,
    structuring_prompt: &str,
    ctx: &TemplateContext,
) -> (s: String)
    ensures
        !enabled || trim(template@).len() == 0 ==> s@ == system_prompt(
            ctx.language@,
            text_structuring,
            structuring_prompt@,
            views(ctx.vocabulary@),
            views(ctx.user_tags@),
        ),
        enabled && trim(template@).len() > 0 ==> s@ == render_pieces(
            tag_split(template@),
            tag_matches(template@),
            ctx.values(),
        ) + PARAGRAPH_BREAK@ + safety_footer_text(ctx.language@),
{
    if !enabled || is_blank(&chars_of(template)) {
        return build_system_prompt(
            ctx.language,
            text_structuring,
            structuring_prompt,
            ctx.vocabulary,
            ctx.user_tags,
        );
    }
    let body = render_template(template, ctx);
    concat3(body.as_str(), PARAGRAPH_BREAK, safety_footer(ctx.language))
}

} // verus!
