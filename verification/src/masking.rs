//! The masking pipeline: the DLP gate, the built-in redaction stages in their
//! fixed order, and the user-defined rules that run last.

use crate::pattern::{
    detect_any, detects, pattern_found, pattern_replaced, regex_compiles, replace_all, replaced,
    substitute, Category, EMAIL_PLACEHOLDER, NUMBER_SEQ_PLACEHOLDER, PHONE_PLACEHOLDER,
};
use crate::settings::{rule_views, AppSettings, ReplaceRule, RuleView, SettingsView};
use vstd::prelude::*;
use vstd::string::*;

verus! {

/// What the DLP gate decides for one call.
#[derive(Debug, Clone, Copy, PartialEq, Eq)]
pub enum DlpVerdict {
    /// Nothing stands in the way of masking.
    Proceed,
    /// Masking goes on, and the caller is told that sensitive content was seen.
    Warn,
    /// The text is rejected; nothing is masked and nothing is returned.
    Blocked,
}

/// The rejection of a text by the DLP gate. It carries nothing of the text.
#[derive(Debug, Clone, Copy, PartialEq, Eq)]
pub struct DlpBlocked;

impl DlpBlocked {
    /// The reason shown to the caller.
    pub open spec fn message_text() -> Seq<char> {
        "DLP block"@
    }

    pub fn message(&self) -> (m: String)
        ensures
            m@ == Self::message_text(),
    {
        String::from_str("DLP block")
    }
}

/// A text that went through the pipeline.
#[derive(Debug, Clone, PartialEq, Eq)]
pub struct MaskedText {
    /// The text after the built-in stages and the custom rules.
    pub text: String,
    /// The DLP policy saw sensitive content under the `warn` action.
    pub warned: bool,
}

/// Mathematical model of a [`MaskedText`].
pub ghost struct MaskedView {
    pub text: Seq<char>,
    pub warned: bool,
}

impl View for MaskedText {
    type V = MaskedView;

    open spec fn view(&self) -> MaskedView {
        MaskedView { text: self.text@, warned: self.warned }
    }
}

/// One of the built-in detectors finds a span in `text`.
pub open spec fn has_sensitive(text: Seq<char>) -> bool {
    ||| detects(Category::Email, text)
    ||| detects(Category::Phone, text)
    ||| detects(Category::NumberSequence, text)
}

/// The verdict of the DLP policy. With scanning off nothing is looked at;
/// `block` and `warn` act only on text in which a detector finds something;
/// every other action lets the text through.
pub open spec fn dlp_verdict(s: SettingsView, text: Seq<char>) -> DlpVerdict {
    if !s.enable_dlp_scan {
        DlpVerdict::Proceed
    } else if s.dlp_action == "block"@ && has_sensitive(text) {
        DlpVerdict::Blocked
    } else if s.dlp_action == "warn"@ && has_sensitive(text) {
        DlpVerdict::Warn
    } else {
        DlpVerdict::Proceed
    }
}

/// The pattern a rule is compiled from: its flags, if any, as an inline
/// modifier group in front of its pattern.
pub open spec fn effective_pattern(rule: RuleView) -> Seq<char> {
    match rule.flags {
        Some(f) => "(?"@ + f + ")"@ + rule.pattern,
        None => rule.pattern,
    }
}

/// `text` after one rule. A rule that does not compile changes nothing.
pub open spec fn apply_rule(rule: RuleView, text: Seq<char>) -> Seq<char> {
    pattern_replaced(effective_pattern(rule), text, rule.replace)
}

/// `text` after the rules, applied one after the other in list order.
pub open spec fn apply_rules(rules: Seq<RuleView>, text: Seq<char>) -> Seq<char>
    decreases rules.len(),
{
    if rules.len() == 0 {
        text
    } else {
        apply_rule(rules.last(), apply_rules(rules.drop_last(), text))
    }
}

/// `text` after the built-in stages that the settings switch on: emails,
/// then phone-like sequences, then long digit runs.
pub open spec fn builtin_masked(s: SettingsView, text: Seq<char>) -> Seq<char> {
    let after_email = if s.mask_email {
        replaced(Category::Email, text, EMAIL_PLACEHOLDER@)
    } else {
        text
    };
    let after_phone = if s.mask_phone {
        replaced(Category::Phone, after_email, PHONE_PLACEHOLDER@)
    } else {
        after_email
    };
    if s.mask_numbers {
        replaced(Category::NumberSequence, after_phone, NUMBER_SEQ_PLACEHOLDER@)
    } else {
        after_phone
    }
}

/// The text that leaves the pipeline when the DLP policy lets it through.
pub open spec fn masked(s: SettingsView, text: Seq<char>) -> Seq<char> {
    apply_rules(s.custom_replace_rules, builtin_masked(s, text))
}

/// The outcome of the whole pipeline.
pub open spec fn mask_outcome(s: SettingsView, text: Seq<char>) -> Result<MaskedView, DlpBlocked> {
    match dlp_verdict(s, text) {
        DlpVerdict::Blocked => Err(DlpBlocked),
        DlpVerdict::Warn => Ok(MaskedView { text: masked(s, text), warned: true }),
        DlpVerdict::Proceed => Ok(MaskedView { text: masked(s, text), warned: false }),
    }
}

/// Evaluates the DLP gate for `text` under `settings`.
pub fn dlp_gate(settings: &AppSettings, text: &str) -> (verdict: DlpVerdict)
    ensures
        verdict == dlp_verdict(settings@, text@),
{
    if !settings.enable_dlp_scan {
        return DlpVerdict::Proceed;
    }
    let sensitive = detect_any(Category::Email, text) || detect_any(Category::Phone, text)
        || detect_any(Category::NumberSequence, text);
    if !sensitive {
        return DlpVerdict::Proceed;
    }
    if settings.dlp_action == String::from_str("block") {
        DlpVerdict::Blocked
    } else if settings.dlp_action == String::from_str("warn") {
        DlpVerdict::Warn
    } else {
        DlpVerdict::Proceed
    }
}

/// Builds the pattern that `rule` is compiled from.
pub fn rule_pattern(rule: &ReplaceRule) -> (p: String)
    ensures
        p@ == effective_pattern(rule@),
{
    match &rule.flags {
        Some(f) => {
            let mut p = String::from_str("(?");
            p.append(f.as_str());
            p.append(")");
            p.append(rule.pattern.as_str());
            p
        },
        None => rule.pattern.clone(),
    }
}

/// Applies the custom rules of `s` to `input`, in list order. A rule whose
/// pattern does not compile is skipped and the following rules still run.
pub fn apply_custom_rules(s: &AppSettings, input: &str) -> (out: String)
    ensures
        out@ == apply_rules(s@.custom_replace_rules, input@),
{
    let mut out = input.to_owned();
    let rules = &s.custom_replace_rules;
    let ghost views = rule_views(rules@);
    assert(views.take(0) =~= Seq::<RuleView>::empty());
    let mut i: usize = 0;
    while i < rules.len()
        invariant
            i <= rules.len(),
            views == rule_views(rules@),
            out@ == apply_rules(views.take(i as int), input@),
        decreases rules.len() - i,
    {
        let rule = &rules[i];
        let pattern = rule_pattern(rule);
        proof {
            let next = views.take(i + 1);
            assert(next.drop_last() =~= views.take(i as int));
            assert(next.last() == rule@);
        }
        out = substitute(pattern.as_str(), out, rule.replace.as_str());
        i = i + 1;
    }
    assert(views.take(rules.len() as int) =~= views);
    out
}

/// Runs the built-in stages that `settings` switches on over `text`.
pub fn mask_builtin(settings: &AppSettings, text: String) -> (out: String)
    ensures
        out@ == builtin_masked(settings@, text@),
{
    let mut out = text;
    if settings.mask_email {
        out = replace_all(Category::Email, out, EMAIL_PLACEHOLDER);
    }
    if settings.mask_phone {
        out = replace_all(Category::Phone, out, PHONE_PLACEHOLDER);
    }
    if settings.mask_numbers {
        out = replace_all(Category::NumberSequence, out, NUMBER_SEQ_PLACEHOLDER);
    }
    out
}

/// Masks `input` under `settings`: the DLP policy first, then the built-in stages,
/// then the custom rules. A blocked text yields no output at all.
pub fn mask_text(settings: &AppSettings, input: &str) -> (outcome: Result<MaskedText, DlpBlocked>)
    ensures
        match outcome {
            Ok(m) => mask_outcome(settings@, input@) == Ok::<MaskedView, DlpBlocked>(m@),
            Err(e) => mask_outcome(settings@, input@) == Err::<MaskedView, DlpBlocked>(e),
        },
{
    let verdict = dlp_gate(settings, input);
    let warned = match verdict {
        DlpVerdict::Blocked => {
            return Err(DlpBlocked);
        },
        DlpVerdict::Warn => true,
        DlpVerdict::Proceed => false,
    };
    let staged = mask_builtin(settings, input.to_owned());
    let text = apply_custom_rules(settings, staged.as_str());
    Ok(MaskedText { text, warned })
}

/// Rules whose patterns find nothing in `text` leave it as it is.
pub proof fn lemma_rules_without_match_keep_text(rules: Seq<RuleView>, text: Seq<char>)
    requires
        forall|i: int|
            0 <= i < rules.len() ==> !pattern_found(effective_pattern(#[trigger] rules[i]), text),
    ensures
        apply_rules(rules, text) == text,
    decreases rules.len(),
{
    if rules.len() > 0 {
        let front = rules.drop_last();
        assert forall|i: int| 0 <= i < front.len() implies !pattern_found(
            effective_pattern(#[trigger] front[i]),
            text,
        ) by {
            assert(front[i] == rules[i]);
        }
        lemma_rules_without_match_keep_text(front, text);
        assert(rules.last() == rules[rules.len() - 1]);
    }
}

/// Masking is the identity on text in which neither a built-in detector nor a
/// custom rule finds a match, whatever the toggles and the DLP action are.
pub proof fn lemma_mask_without_match_is_identity(s: SettingsView, text: Seq<char>)
    requires
        !has_sensitive(text),
        forall|i: int|
            0 <= i < s.custom_replace_rules.len() ==> !pattern_found(
                effective_pattern(#[trigger] s.custom_replace_rules[i]),
                text,
            ),
    ensures
        mask_outcome(s, text) == Ok::<MaskedView, DlpBlocked>(
            MaskedView { text: text, warned: false },
        ),
{
    assert(builtin_masked(s, text) == text);
    lemma_rules_without_match_keep_text(s.custom_replace_rules, text);
}

/// Under the `block` action, text in which a detector finds something is
/// rejected. The rejection is the same value for every such text.
pub proof fn lemma_block_rejects_sensitive_text(s: SettingsView, text: Seq<char>)
    requires
        s.enable_dlp_scan,
        s.dlp_action == "block"@,
        has_sensitive(text),
    ensures
        mask_outcome(s, text) == Err::<MaskedView, DlpBlocked>(DlpBlocked),
{
}

/// Two rejections cannot be told apart: nothing of the rejected text is in
/// the error.
pub proof fn lemma_rejection_is_independent_of_text(
    s1: SettingsView,
    text1: Seq<char>,
    s2: SettingsView,
    text2: Seq<char>,
)
    requires
        mask_outcome(s1, text1) is Err,
        mask_outcome(s2, text2) is Err,
    ensures
        mask_outcome(s1, text1) == mask_outcome(s2, text2),
{
}

/// The custom rules see the output of the built-in stages, and the built-in
/// stages do not depend on the rules.
pub proof fn lemma_custom_rules_run_last(s: SettingsView, text: Seq<char>)
    requires
        dlp_verdict(s, text) != DlpVerdict::Blocked,
    ensures
        mask_outcome(s, text) is Ok,
        mask_outcome(s, text)->Ok_0.text == apply_rules(
            s.custom_replace_rules,
            builtin_masked(s, text),
        ),
        builtin_masked(s, text) == builtin_masked(
            SettingsView { custom_replace_rules: Seq::empty(), ..s },
            text,
        ),
        masked(SettingsView { custom_replace_rules: Seq::empty(), ..s }, text) == builtin_masked(
            s,
            text,
        ),
{
}

/// Applying one list of rules and then another is applying their
/// concatenation: the order of the list is the order of application.
pub proof fn lemma_apply_rules_concat(first: Seq<RuleView>, second: Seq<RuleView>, text: Seq<char>)
    ensures
        apply_rules(first + second, text) == apply_rules(second, apply_rules(first, text)),
    decreases second.len(),
{
    if second.len() == 0 {
        assert(first + second =~= first);
    } else {
        lemma_apply_rules_concat(first, second.drop_last(), text);
        assert((first + second).drop_last() =~= first + second.drop_last());
        assert((first + second).last() == second.last());
    }
}

/// A rule that does not compile has no effect, wherever it stands in the list.
pub proof fn lemma_uncompilable_rule_is_skipped(
    before: Seq<RuleView>,
    rule: RuleView,
    after: Seq<RuleView>,
    text: Seq<char>,
)
    requires
        !regex_compiles(effective_pattern(rule)),
    ensures
        apply_rules(before + seq![rule] + after, text) == apply_rules(before + after, text),
{
    lemma_apply_rules_concat(before + seq![rule], after, text);
    lemma_apply_rules_concat(before, seq![rule], text);
    lemma_apply_rules_concat(before, after, text);
    let mid = apply_rules(before, text);
    assert(seq![rule].drop_last() =~= Seq::<RuleView>::empty());
    assert(seq![rule].last() == rule);
    assert(apply_rules(seq![rule], mid) == apply_rule(rule, apply_rules(Seq::empty(), mid)));
}

} // verus!
