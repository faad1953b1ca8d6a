//! The codegen assembler: the merged result written out as a component
//! file.

use crate::imports::{format_imports, import_lines};
use crate::model::{ReplacementModel, ResultModel, TemplateReplacement, TransformationResult};
use crate::sections::{SectionsModel, SfcSections};
use crate::strs::{owned, str_len, str_replace, str_trim};
use crate::text;
use vstd::prelude::*;

verus! {

/// A line with the legacy alias `~/` at the start of a quoted path turned
/// into `@/`.
pub open spec fn alias_rewritten(line: Seq<char>) -> Seq<char> {
    text::replace(text::replace(line, "'~/"@, "'@/"@), "\"~/"@, "\"@/"@)
}

/// Rewrites the legacy path alias in one line.
pub fn rewrite_alias(line: &str) -> (r: String)
    ensures
        r@ == alias_rewritten(line@),
{
    str_replace(str_replace(line, "'~/", "'@/").as_str(), "\"~/", "\"@/")
}

/// `acc` followed by the lines from index `i` on, each ended by a line
/// feed; with `rewrite` the path alias is rewritten in each.
pub open spec fn block_from(lines: Seq<Seq<char>>, i: int, rewrite: bool, acc: Seq<char>) -> Seq<char>
    decreases lines.len() - i,
{
    if i < 0 || i >= lines.len() {
        acc
    } else {
        block_from(
            lines,
            i + 1,
            rewrite,
            acc + (if rewrite {
                alias_rewritten(lines[i])
            } else {
                lines[i]
            }) + "\n"@,
        )
    }
}

/// The text so far and whether a category was written into it.
pub struct Script {
    pub text: Seq<char>,
    pub started: bool,
}

/// The script with one more category: nothing for an empty one, else a
/// blank line if a category went before, and the lines.
pub open spec fn with_category(script: Script, lines: Seq<Seq<char>>, rewrite: bool) -> Script {
    if lines.len() == 0 {
        script
    } else {
        Script {
            text: block_from(
                lines,
                0,
                rewrite,
                if script.started {
                    script.text + "\n"@
                } else {
                    script.text
                },
            ),
            started: true,
        }
    }
}

/// The template after the find and replace pairs from index `i` on were
/// applied in order.
pub open spec fn template_after_from(template: Seq<char>, pairs: Seq<ReplacementModel>, i: int) -> Seq<char>
    decreases pairs.len() - i,
{
    if i < 0 || i >= pairs.len() {
        template
    } else {
        template_after_from(text::replace(template, pairs[i].find, pairs[i].replace), pairs, i + 1)
    }
}

/// `acc` followed by the script blocks from index `i` on, each after a
/// line feed and with the path alias rewritten.
pub open spec fn extra_scripts_from(blocks: Seq<Seq<char>>, i: int, acc: Seq<char>) -> Seq<char>
    decreases blocks.len() - i,
{
    if i < 0 || i >= blocks.len() {
        acc
    } else {
        extra_scripts_from(blocks, i + 1, acc + "\n"@ + alias_rewritten(blocks[i]))
    }
}

/// The text of a section as it is worked on and written out: without the
/// white space around it; a section that holds nothing else counts as
/// absent.
pub open spec fn section_text(content: Option<Seq<char>>) -> Option<Seq<char>> {
    match content {
        Some(raw) => if text::trim(raw).len() > 0 {
            Some(text::trim(raw))
        } else {
            None
        },
        None => None,
    }
}

/// Trims the text of a section.
pub fn trimmed_section(content: &Option<String>) -> (r: Option<String>)
    ensures
        r.deep_view() == section_text(content.deep_view()),
{
    match content {
        Some(raw) => {
            let trimmed = str_trim(raw.as_str());
            if str_len(trimmed.as_str()) > 0 {
                Some(trimmed)
            } else {
                None
            }
        },
        None => None,
    }
}

/// The template section of the output.
pub open spec fn template_part(sections: SectionsModel, result: ResultModel) -> Seq<char> {
    match section_text(sections.template_content) {
        Some(template) => "<template>\n"@ + template_after_from(template, result.template_replacements, 0)
            + "\n</template>\n"@,
        None => Seq::empty(),
    }
}

/// The import block of the output: every statement on a line, and a blank
/// line after the block.
pub open spec fn imports_part(result: ResultModel) -> Seq<char> {
    let lines = import_lines(result.imports_to_add);
    let block = block_from(lines, 0, false, Seq::empty());
    if lines.len() > 0 {
        block + "\n"@
    } else {
        block
    }
}

/// The categories of the script in their fixed order: setup, reactive
/// state, computed, methods, watchers, lifecycle hooks. The path alias is
/// rewritten everywhere but in watchers.
pub open spec fn categories_part(result: ResultModel) -> Seq<char> {
    let s0 = Script { text: Seq::empty(), started: false };
    let s1 = with_category(s0, result.setup, true);
    let s2 = with_category(s1, result.reactive_state, true);
    let s3 = with_category(s2, result.computed_properties, true);
    let s4 = with_category(s3, result.methods, true);
    let s5 = with_category(s4, result.watchers, false);
    let s6 = with_category(s5, result.lifecycle_hooks, true);
    s6.text
}

/// The style section of the output, with the attributes it came with.
pub open spec fn style_part(sections: SectionsModel) -> Seq<char> {
    match section_text(sections.style_content) {
        Some(style) => "\n<style"@ + (match section_text(sections.style_attributes) {
            Some(attributes) => " "@ + attributes,
            None => Seq::empty(),
        }) + ">\n"@ + style + "\n</style>"@,
        None => Seq::empty(),
    }
}

/// The component file that the sections and the merged result make.
pub open spec fn assembled(sections: SectionsModel, result: ResultModel) -> Seq<char> {
    template_part(sections, result) + "<script setup>\n"@ + imports_part(result) + categories_part(result)
        + "</script>"@ + extra_scripts_from(result.additional_scripts, 0, Seq::empty()) + style_part(
        sections,
    )
}

/// The import block is a function of the import table alone: two merged
/// results with the same table give the same block, byte for byte,
/// whatever else they hold.
pub proof fn lemma_import_block_is_determined(a: ResultModel, b: ResultModel)
    requires
        a.imports_to_add == b.imports_to_add,
    ensures
        imports_part(a) == imports_part(b),
{
}

fn append_block(out: &mut String, lines: &Vec<String>, rewrite: bool)
    ensures
        final(out)@ == block_from(lines.deep_view(), 0, rewrite, old(out)@),
{
    let ghost all = lines.deep_view();
    let mut i: usize = 0;
    while i < lines.len()
        invariant
            i <= lines.len(),
            all == lines.deep_view(),
            block_from(all, 0, rewrite, old(out)@) == block_from(all, i as int, rewrite, out@),
        decreases lines.len() - i,
    {
        assert(all[i as int] == lines@[i as int]@);
        if rewrite {
            let line = rewrite_alias(lines[i].as_str());
            out.append(line.as_str());
        } else {
            out.append(lines[i].as_str());
        }
        out.append("\n");
        i += 1;
    }
}

fn append_category(out: &mut String, started: bool, lines: &Vec<String>, rewrite: bool) -> (now: bool)
    ensures
        (Script { text: final(out)@, started: now }) == with_category(
            Script { text: old(out)@, started },
            lines.deep_view(),
            rewrite,
        ),
{
    if lines.len() == 0 {
        started
    } else {
        if started {
            out.append("\n");
        }
        append_block(out, lines, rewrite);
        true
    }
}

/// Applies the find and replace pairs to the template, in order.
pub fn apply_template_replacements(template: &str, pairs: &Vec<TemplateReplacement>) -> (r: String)
    ensures
        r@ == template_after_from(template@, pairs.deep_view(), 0),
{
    let mut current = owned(template);
    let ghost all = pairs.deep_view();
    let mut i: usize = 0;
    while i < pairs.len()
        invariant
            i <= pairs.len(),
            all == pairs.deep_view(),
            template_after_from(template@, all, 0) == template_after_from(current@, all, i as int),
        decreases pairs.len() - i,
    {
        assert(all[i as int] == pairs@[i as int].deep_view());
        current = str_replace(current.as_str(), pairs[i].find.as_str(), pairs[i].replace.as_str());
        i += 1;
    }
    current
}

fn write_template(sections: &SfcSections, result: &TransformationResult) -> (r: String)
    ensures
        r@ == template_part(sections.deep_view(), result.deep_view()),
{
    let mut out = String::new();
    match &trimmed_section(&sections.template_content) {
        Some(template) => {
            let replaced = apply_template_replacements(template.as_str(), &result.template_replacements);
            out.append("<template>\n");
            out.append(replaced.as_str());
            out.append("\n</template>\n");
            assert(out@ =~= template_part(sections.deep_view(), result.deep_view()));
        },
        None => {},
    }
    out
}

fn write_imports(result: &TransformationResult) -> (r: String)
    ensures
        r@ == imports_part(result.deep_view()),
{
    let lines = format_imports(&result.imports_to_add);
    let mut out = String::new();
    append_block(&mut out, &lines, false);
    if lines.len() > 0 {
        out.append("\n");
    }
    out
}

fn write_categories(result: &TransformationResult) -> (r: String)
    ensures
        r@ == categories_part(result.deep_view()),
{
    let mut out = String::new();
    let s1 = append_category(&mut out, false, &result.setup, true);
    let s2 = append_category(&mut out, s1, &result.reactive_state, true);
    let s3 = append_category(&mut out, s2, &result.computed_properties, true);
    let s4 = append_category(&mut out, s3, &result.methods, true);
    let s5 = append_category(&mut out, s4, &result.watchers, false);
    let _ = append_category(&mut out, s5, &result.lifecycle_hooks, true);
    out
}

fn write_extra_scripts(result: &TransformationResult) -> (r: String)
    ensures
        r@ == extra_scripts_from(result.deep_view().additional_scripts, 0, Seq::empty()),
{
    let mut out = String::new();
    let blocks = &result.additional_scripts;
    let ghost all = blocks.deep_view();
    let mut i: usize = 0;
    while i < blocks.len()
        invariant
            i <= blocks.len(),
            all == blocks.deep_view(),
            extra_scripts_from(all, 0, Seq::empty()) == extra_scripts_from(all, i as int, out@),
        decreases blocks.len() - i,
    {
        assert(all[i as int] == blocks@[i as int]@);
        out.append("\n");
        out.append(rewrite_alias(blocks[i].as_str()).as_str());
        i += 1;
    }
    out
}

fn write_style(sections: &SfcSections) -> (r: String)
    ensures
        r@ == style_part(sections.deep_view()),
{
    let mut out = String::new();
    match &trimmed_section(&sections.style_content) {
        Some(style) => {
            out.append("\n<style");
            let ghost attrs: Seq<char> = match section_text(sections.deep_view().style_attributes) {
                Some(a) => " "@ + a,
                None => Seq::empty(),
            };
            match &trimmed_section(&sections.style_attributes) {
                Some(attributes) => {
                    out.append(" ");
                    out.append(attributes.as_str());
                },
                None => {},
            }
            assert(out@ =~= "\n<style"@ + attrs);
            out.append(">\n");
            out.append(style.as_str());
            out.append("\n</style>");
            assert(out@ =~= style_part(sections.deep_view()));
        },
        None => {},
    }
    out
}

/// Writes the component file that the sections and the merged result make.
pub fn assemble(sections: &SfcSections, result: &TransformationResult) -> (r: String)
    ensures
        r@ == assembled(sections.deep_view(), result.deep_view()),
{
    let mut out = write_template(sections, result);
    out.append("<script setup>\n");
    out.append(write_imports(result).as_str());
    out.append(write_categories(result).as_str());
    out.append("</script>");
    out.append(write_extra_scripts(result).as_str());
    out.append(write_style(sections).as_str());
    out
}

} // verus!
