//! Message-control rules: the rule type, the matching predicate, and the
//! newest-rule-wins filtering decision.

use vstd::prelude::*;

use crate::enums::{DEBUG_SEVERITY_LOW, DONT_CARE};

verus! {

/// A filter directive determining whether matching future messages are
/// delivered or suppressed. `source`, `ty` and `severity` are each either a
/// concrete enumerant or the wildcard [`DONT_CARE`]; an empty `ids` list means
/// "any id". `debug_group` records the debug-group counter that was current
/// when the rule was registered.
pub struct ControlRule {
    pub source: u32,
    pub ty: u32,
    pub severity: u32,
    pub ids: Vec<u32>,
    pub enabled: bool,
    pub debug_group: u32,
}

/// Whether `rule` applies to a message with the given coordinates: every
/// concrete (non-wildcard) field of the rule must agree with the message, and
/// a non-empty id list must contain the message id.
pub open spec fn rule_applies_spec(rule: ControlRule, source: u32, ty: u32, id: u32, severity: u32) -> bool {
    &&& rule.ids@.len() > 0 ==> rule.ids@.contains(id)
    &&& rule.source != DONT_CARE ==> rule.source == source
    &&& rule.ty != DONT_CARE ==> rule.ty == ty
    &&& rule.severity != DONT_CARE ==> rule.severity == severity
}

/// An id-scoped rule (non-empty `ids`) must pin `source` and `ty` to concrete
/// values and must leave `severity` as the wildcard. Registration reports a
/// violation as an error, though the rule is still registered.
pub open spec fn rule_shape_ok(source: u32, ty: u32, severity: u32, ids: Seq<u32>) -> bool {
    ids.len() > 0 ==> source != DONT_CARE && ty != DONT_CARE && severity == DONT_CARE
}

/// The filtering decision for a message against an ordered rule list (oldest
/// first): the `enabled` flag of the newest applicable rule decides; with no
/// applicable rule, the default policy suppresses exactly the messages of
/// severity "low".
pub open spec fn should_process_spec(rules: Seq<ControlRule>, source: u32, ty: u32, id: u32, severity: u32) -> bool
    decreases rules.len(),
{
    if rules.len() == 0 {
        severity != DEBUG_SEVERITY_LOW
    } else if rule_applies_spec(rules.last(), source, ty, id, severity) {
        rules.last().enabled
    } else {
        should_process_spec(rules.drop_last(), source, ty, id, severity)
    }
}

/// True iff `ids` contains `id`.
fn ids_contain(ids: &Vec<u32>, id: u32) -> (r: bool)
    ensures
        r == ids@.contains(id),
{
    let n = ids.len();
    let mut i: usize = 0;
    while i < n
        invariant
            n == ids@.len(),
            i <= n,
            forall|k: int| 0 <= k < i ==> ids@[k] != id,
        decreases n - i,
    {
        if ids[i] == id {
            return true;
        }
        i += 1;
    }
    false
}

/// True iff `rule` applies to the message with the given coordinates.
pub fn rule_applies(rule: &ControlRule, source: u32, ty: u32, id: u32, severity: u32) -> (r: bool)
    ensures
        r == rule_applies_spec(*rule, source, ty, id, severity),
{
    if rule.ids.len() > 0 && !ids_contain(&rule.ids, id) {
        return false;
    }
    if rule.source != DONT_CARE && rule.source != source {
        return false;
    }
    if rule.ty != DONT_CARE && rule.ty != ty {
        return false;
    }
    if rule.severity != DONT_CARE && rule.severity != severity {
        return false;
    }
    true
}

/// With no rules registered, the default policy passes every message whose
/// severity is not "low" and suppresses exactly the messages of severity
/// "low".
pub proof fn lemma_default_policy(source: u32, ty: u32, id: u32, severity: u32)
    ensures
        should_process_spec(Seq::<ControlRule>::empty(), source, ty, id, severity) <==> severity
            != DEBUG_SEVERITY_LOW,
{
}

/// The newest registered rule that applies to a message always decides the
/// filtering outcome, whatever the older rules say.
pub proof fn lemma_newest_rule_wins(rules: Seq<ControlRule>, source: u32, ty: u32, id: u32, severity: u32)
    requires
        rules.len() > 0,
        rule_applies_spec(rules.last(), source, ty, id, severity),
    ensures
        should_process_spec(rules, source, ty, id, severity) == rules.last().enabled,
{
}

/// Rules that do not apply to a message have no say: appending any number
/// of inapplicable newer rules leaves the filtering decision unchanged.
pub proof fn lemma_inapplicable_newer_rules_ignored(rules: Seq<ControlRule>, newer: Seq<ControlRule>, source: u32, ty: u32, id: u32, severity: u32)
    requires
        forall|k: int| 0 <= k < newer.len() ==> !rule_applies_spec(
            #[trigger] newer[k],
            source,
            ty,
            id,
            severity,
        ),
    ensures
        should_process_spec(rules + newer, source, ty, id, severity) == should_process_spec(
            rules,
            source,
            ty,
            id,
            severity,
        ),
    decreases newer.len(),
{
    if newer.len() == 0 {
        assert(rules + newer =~= rules);
    } else {
        assert((rules + newer).last() == newer.last());
        assert((rules + newer).drop_last() =~= rules + newer.drop_last());
        lemma_inapplicable_newer_rules_ignored(
            rules,
            newer.drop_last(),
            source,
            ty,
            id,
            severity,
        );
    }
}

/// A disabled rule registered with a concrete severity and wildcard source,
/// type and ids suppresses exactly the messages of that severity, regardless
/// of their source, type and id; messages of any other severity are decided
/// as if the rule had never been registered.
pub proof fn lemma_severity_rule_suppresses(rules: Seq<ControlRule>, rule: ControlRule, source: u32, ty: u32, id: u32, severity: u32)
    requires
        rule.ids@.len() == 0,
        rule.source == DONT_CARE,
        rule.ty == DONT_CARE,
        rule.severity != DONT_CARE,
        !rule.enabled,
    ensures
        severity == rule.severity ==> !should_process_spec(
            rules.push(rule),
            source,
            ty,
            id,
            severity,
        ),
        severity != rule.severity ==> should_process_spec(rules.push(rule), source, ty, id, severity)
            == should_process_spec(rules, source, ty, id, severity),
{
    assert(rules.push(rule).last() == rule);
    assert(rules.push(rule).drop_last() =~= rules);
}

} // verus!
