//! The system instructions that accompany a text sent to the formatting
//! model: one line per enabled behaviour, one line per custom rule.

use crate::settings::{rule_views, AppSettings, ReplaceRule, RuleView, SettingsView};
use vstd::prelude::*;
use vstd::string::*;

verus! {

pub const LINE_INTRO: &'static str = "あなたは入力テキストを自然な文に整形します。";

pub const LINE_NATURALIZE: &'static str = "不自然な口語のつなぎを自然に置換します。";

pub const LINE_PUNCTUATION: &'static str = "句読点を適切に挿入します。";

pub const LINE_FOREIGN_WORDS: &'static str = "外来語の表記を統一します（全角/半角の揺れも統一）。";

pub const LINE_PROPER_NOUNS: &'static str = "固有名詞は原文のまま保持します。";

pub const LINE_NO_SUMMARY: &'static str = "要約や脚色はしません。事実の追加・削除も行いません。";

pub const LINE_SAME_LANGUAGE: &'static str = "出力は入力と同じ言語で返してください。";

pub const RULE_LINE_HEAD: &'static str = "次の置換規則を適用: /";

pub const RULE_LINE_ARROW: &'static str = "/ -> ";

pub const LINE_BREAK: &'static str = "\n";

/// The line that announces one custom rule.
pub open spec fn rule_line(rule: RuleView) -> Seq<char> {
    RULE_LINE_HEAD@ + rule.pattern + RULE_LINE_ARROW@ + rule.replace
}

/// A line that is present only when its toggle is on.
pub open spec fn optional_line(on: bool, line: Seq<char>) -> Seq<char> {
    if on {
        line
    } else {
        Seq::empty()
    }
}

/// The fixed lines, each empty when its toggle is off.
pub open spec fn behaviour_lines(s: SettingsView) -> Seq<Seq<char>> {
    seq![
        LINE_INTRO@,
        optional_line(s.naturalize_expressions, LINE_NATURALIZE@),
        optional_line(s.auto_punctuation, LINE_PUNCTUATION@),
        optional_line(s.unify_foreign_words, LINE_FOREIGN_WORDS@),
        optional_line(s.preserve_original_proper_nouns, LINE_PROPER_NOUNS@),
        optional_line(s.no_summary_or_embellishment, LINE_NO_SUMMARY@),
        LINE_SAME_LANGUAGE@,
    ]
}

/// All candidate lines: the fixed ones, then one per custom rule in list order.
pub open spec fn instruction_lines(s: SettingsView) -> Seq<Seq<char>> {
    behaviour_lines(s) + Seq::new(
        s.custom_replace_rules.len(),
        |i: int| rule_line(s.custom_replace_rules[i]),
    )
}

/// `acc` with `line` added on a new line. An empty line adds nothing.
pub open spec fn with_line(acc: Seq<char>, line: Seq<char>) -> Seq<char> {
    if line.len() == 0 {
        acc
    } else if acc.len() == 0 {
        line
    } else {
        acc + LINE_BREAK@ + line
    }
}

/// The lines that are not empty, separated by line breaks.
pub open spec fn joined(lines: Seq<Seq<char>>) -> Seq<char>
    decreases lines.len(),
{
    if lines.len() == 0 {
        Seq::empty()
    } else {
        with_line(joined(lines.drop_last()), lines.last())
    }
}

/// The instruction text for `s`.
pub open spec fn instructions(s: SettingsView) -> Seq<char> {
    joined(instruction_lines(s))
}

fn push_line(acc: &mut String, line: &str)
    ensures
        final(acc)@ == with_line(old(acc)@, line@),
{
    if line.is_empty() {
        return ;
    }
    if !acc.as_str().is_empty() {
        acc.append(LINE_BREAK);
    }
    acc.append(line);
}

fn build_rule_line(rule: &ReplaceRule) -> (line: String)
    ensures
        line@ == rule_line(rule@),
{
    let mut line = String::from_str(RULE_LINE_HEAD);
    line.append(rule.pattern.as_str());
    line.append(RULE_LINE_ARROW);
    line.append(rule.replace.as_str());
    line
}

proof fn lemma_joined_push(lines: Seq<Seq<char>>, line: Seq<char>)
    ensures
        joined(lines.push(line)) == with_line(joined(lines), line),
{
    assert(lines.push(line).drop_last() =~= lines);
}

/// Builds the system instructions for the formatting model from the
/// formatting toggles and the custom rules of `s`.
pub fn build_gemini_instructions(s: &AppSettings) -> (text: String)
    ensures
        text@ == instructions(s@),
{
    let ghost v = s@;
    let ghost fixed = behaviour_lines(v);
    let mut out = String::new();
    let ghost mut done: Seq<Seq<char>> = Seq::empty();
    assert(joined(done) == Seq::<char>::empty());

    push_line(&mut out, LINE_INTRO);
    proof {
        lemma_joined_push(done, fixed[0]);
        done = done.push(fixed[0]);
    }
    if s.naturalize_expressions {
        push_line(&mut out, LINE_NATURALIZE);
    }
    proof {
        lemma_joined_push(done, fixed[1]);
        done = done.push(fixed[1]);
    }
    if s.auto_punctuation {
        push_line(&mut out, LINE_PUNCTUATION);
    }
    proof {
        lemma_joined_push(done, fixed[2]);
        done = done.push(fixed[2]);
    }
    if s.unify_foreign_words {
        push_line(&mut out, LINE_FOREIGN_WORDS);
    }
    proof {
        lemma_joined_push(done, fixed[3]);
        done = done.push(fixed[3]);
    }
    if s.preserve_original_proper_nouns {
        push_line(&mut out, LINE_PROPER_NOUNS);
    }
    proof {
        lemma_joined_push(done, fixed[4]);
        done = done.push(fixed[4]);
    }
    if s.no_summary_or_embellishment {
        push_line(&mut out, LINE_NO_SUMMARY);
    }
    proof {
        lemma_joined_push(done, fixed[5]);
        done = done.push(fixed[5]);
    }
    push_line(&mut out, LINE_SAME_LANGUAGE);
    proof {
        lemma_joined_push(done, fixed[6]);
        done = done.push(fixed[6]);
        assert(done =~= fixed);
    }

    let rules = &s.custom_replace_rules;
    let ghost all = instruction_lines(v);
    let mut i: usize = 0;
    assert(all.take(7) =~= fixed);
    while i < rules.len()
        invariant
            i <= rules.len(),
            v == s@,
            rules == &s.custom_replace_rules,
            all == instruction_lines(v),
            all.len() == 7 + rules.len(),
            out@ == joined(all.take(7 + i)),
        decreases rules.len() - i,
    {
        let line = build_rule_line(&rules[i]);
        proof {
            assert(v.custom_replace_rules == rule_views(rules@));
            assert(all[7 + i] == rule_line(v.custom_replace_rules[i as int]));
            assert(all.take(7 + i + 1) =~= all.take(7 + i).push(line@));
            lemma_joined_push(all.take(7 + i), line@);
        }
        push_line(&mut out, line.as_str());
        i = i + 1;
    }
    assert(all.take(7 + rules.len()) =~= all);
    out
}

} // verus!
