//! Case-insensitive allow/deny matching of the foreground application.

use vstd::prelude::*;

use super::config::{ForegroundConfig, ForegroundMode, ForegroundSettings};
use super::filter::{AppView, AutoscrollDecision, ForegroundApp};
use crate::text;
use crate::text::{chars_of, ends_with, same, to_lower, trim};

verus! {

/// The text without `suffix` at its end, where it stands there.
pub open spec fn without_suffix(s: Seq<char>, suffix: Seq<char>) -> Seq<char> {
    if suffix.is_suffix_of(s) {
        s.take(s.len() - suffix.len())
    } else {
        s
    }
}

/// An identifier in the form in which it is compared.
pub open spec fn normalized(s: Seq<char>) -> Seq<char> {
    without_suffix(text::lowered(text::trimmed(s)), ".desktop"@)
}

/// Whether an entry of `list` and `field` are the same but for case, white
/// space around them and a trailing `.desktop`.
pub open spec fn listed(field: Option<Seq<char>>, list: Seq<Seq<char>>) -> bool {
    match field {
        Some(text) => exists|i: int|
            0 <= i < list.len() && normalized(#[trigger] list[i]) == normalized(text),
        None => false,
    }
}

/// Whether any identity field of an application is on the list; the title
/// counts only where it is meant to.
pub open spec fn matched(app: AppView, list: Seq<Seq<char>>, match_title: bool) -> bool {
    ||| listed(app.app_id, list)
    ||| listed(app.class, list)
    ||| listed(app.resource_class, list)
    ||| match_title && listed(app.title, list)
}

/// What the configured lists say of an application.
pub open spec fn decided(app: AppView, cfg: ForegroundSettings) -> AutoscrollDecision {
    let enabled = match cfg.mode {
        ForegroundMode::Denylist => !matched(app, cfg.deny_apps, cfg.match_title),
        ForegroundMode::Allowlist => matched(app, cfg.allow_apps, cfg.match_title),
    };
    if enabled {
        AutoscrollDecision::Enabled
    } else {
        AutoscrollDecision::Disabled
    }
}

/// Normalises an identifier for comparison: trims surrounding whitespace, drops
/// a trailing `.desktop`, and lowercases (ASCII).
#[must_use]
pub fn normalize(s: &str) -> (r: String)
    ensures
        r@ == normalized(s@),
{
    proof {
        reveal_strlit(".desktop");
    }
    let lowered: String = to_lower(trim(s));
    if !ends_with(lowered.as_str(), ".desktop") {
        return lowered;
    }
    let length: usize = chars_of(lowered.as_str()).len();
    let rest: &str = lowered.as_str().substring_char(0, length - 8);
    assert(rest@ =~= lowered@.take(lowered@.len() - 8));
    rest.to_owned()
}

/// Whether the field, where there is one, is on the list.
fn on_list(field: &Option<String>, list: &Vec<String>) -> (r: bool)
    ensures
        r == listed(text::text_of(*field), text::texts(list@)),
{
    let needle: String = match field {
        Some(text) => normalize(text.as_str()),
        None => {
            return false;
        },
    };
    let mut i: usize = 0;
    while i < list.len()
        invariant
            i <= list@.len(),
            *field is Some,
            needle@ == normalized(field->0@),
            forall|j: int|
                0 <= j < i ==> normalized(#[trigger] text::texts(list@)[j]) != normalized(field->0@),
        decreases list@.len() - i,
    {
        let entry: String = normalize(list[i].as_str());
        if same(entry.as_str(), needle.as_str()) {
            assert(normalized(text::texts(list@)[i as int]) == normalized(field->0@));
            return true;
        }
        i += 1;
    }
    false
}

/// Returns true if any populated identity field of `app` matches an entry in
/// `list`. `title` is only considered when `match_title` is set.
fn app_matches(app: &ForegroundApp, list: &Vec<String>, match_title: bool) -> (r: bool)
    ensures
        r == matched(app@, text::texts(list@), match_title),
{
    on_list(&app.app_id, list) || on_list(&app.class, list) || on_list(&app.resource_class, list)
        || (match_title && on_list(&app.title, list))
}

/// Applies the configured policy to `app`.
#[must_use]
pub fn decide(app: &ForegroundApp, cfg: &ForegroundConfig) -> (r: AutoscrollDecision)
    ensures
        r == decided(app@, cfg@),
{
    match cfg.mode {
        ForegroundMode::Denylist => {
            if app_matches(app, &cfg.deny_apps, cfg.match_title) {
                AutoscrollDecision::Disabled
            } else {
                AutoscrollDecision::Enabled
            }
        },
        ForegroundMode::Allowlist => {
            if app_matches(app, &cfg.allow_apps, cfg.match_title) {
                AutoscrollDecision::Enabled
            } else {
                AutoscrollDecision::Disabled
            }
        },
    }
}

/// Matching goes by the normal form of the entries: how an entry of the list is
/// written beyond that plays no part.
pub proof fn law_matching_goes_by_normal_form(
    app: AppView,
    list: Seq<Seq<char>>,
    other: Seq<Seq<char>>,
    match_title: bool,
)
    requires
        list.len() == other.len(),
        forall|i: int|
            0 <= i < list.len() ==> normalized(#[trigger] list[i]) == normalized(other[i]),
    ensures
        matched(app, list, match_title) == matched(app, other, match_title),
{
    lemma_listed_agrees(app.app_id, list, other);
    lemma_listed_agrees(app.class, list, other);
    lemma_listed_agrees(app.resource_class, list, other);
    lemma_listed_agrees(app.title, list, other);
}

proof fn lemma_listed_agrees(field: Option<Seq<char>>, list: Seq<Seq<char>>, other: Seq<Seq<char>>)
    requires
        list.len() == other.len(),
        forall|i: int|
            0 <= i < list.len() ==> normalized(#[trigger] list[i]) == normalized(other[i]),
    ensures
        listed(field, list) == listed(field, other),
{
    if let Some(text) = field {
        if listed(field, list) {
            let i = choose|i: int|
                0 <= i < list.len() && normalized(#[trigger] list[i]) == normalized(text);
            assert(normalized(other[i]) == normalized(text));
        }
        if listed(field, other) {
            let i = choose|i: int|
                0 <= i < other.len() && normalized(#[trigger] other[i]) == normalized(text);
            assert(normalized(list[i]) == normalized(text));
        }
    }
}

/// The normal form takes no notice of ASCII case.
pub proof fn law_normal_form_ignores_case(a: Seq<char>, b: Seq<char>)
    requires
        text::lowered(a) == text::lowered(b),
    ensures
        normalized(a) == normalized(b),
{
    lemma_trimming_keeps_case_apart(a);
    lemma_trimming_keeps_case_apart(b);
}

proof fn lemma_small_is_no_space(c: char)
    ensures
        text::whitespace(text::small(c)) == text::whitespace(c),
{
}

proof fn lemma_trimming_keeps_case_apart(s: Seq<char>)
    ensures
        text::lowered(text::trimmed(s)) == text::trimmed(text::lowered(s)),
{
    lemma_start_of_lowered(s);
    lemma_end_of_lowered(text::trimmed_start(s));
}

proof fn lemma_start_of_lowered(s: Seq<char>)
    ensures
        text::lowered(text::trimmed_start(s)) == text::trimmed_start(text::lowered(s)),
    decreases s.len(),
{
    if s.len() > 0 {
        lemma_small_is_no_space(s[0]);
        if text::whitespace(s[0]) {
            assert(text::lowered(s).skip(1) =~= text::lowered(s.skip(1)));
            lemma_start_of_lowered(s.skip(1));
        }
    }
}

proof fn lemma_end_of_lowered(s: Seq<char>)
    ensures
        text::lowered(text::trimmed_end(s)) == text::trimmed_end(text::lowered(s)),
    decreases s.len(),
{
    if s.len() > 0 {
        lemma_small_is_no_space(s.last());
        if text::whitespace(s.last()) {
            assert(text::lowered(s).drop_last() =~= text::lowered(s.drop_last()));
            lemma_end_of_lowered(s.drop_last());
        }
    }
}

/// A text has the normal form of what is left of it without white space around
/// it and without capitals.
pub proof fn law_tidied_text_keeps_its_normal_form(s: Seq<char>)
    ensures
        normalized(text::lowered(text::trimmed(s))) == normalized(s),
{
    let tidied = text::lowered(text::trimmed(s));
    lemma_trimming_keeps_case_apart(text::trimmed(s));
    lemma_trimmed_start_is_clean(s);
    lemma_trimmed_end_is_clean(text::trimmed_start(s));
    assert(text::trimmed(text::trimmed(s)) == text::trimmed(s));
    assert(text::trimmed(tidied) == tidied);
    assert(text::lowered(tidied) =~= tidied);
}

proof fn lemma_trimmed_start_is_clean(s: Seq<char>)
    ensures
        text::trimmed_start(s).len() > 0 ==> !text::whitespace(text::trimmed_start(s)[0]),
    decreases s.len(),
{
    if s.len() > 0 && text::whitespace(s[0]) {
        lemma_trimmed_start_is_clean(s.skip(1));
    }
}

proof fn lemma_trimmed_end_is_clean(s: Seq<char>)
    ensures
        text::trimmed_end(s).len() > 0 ==> {
            &&& !text::whitespace(text::trimmed_end(s).last())
            &&& text::trimmed_end(s)[0] == s[0]
        },
    decreases s.len(),
{
    if s.len() > 0 && text::whitespace(s.last()) {
        lemma_trimmed_end_is_clean(s.drop_last());
    }
}

/// Whether two fields are the same but for ASCII case.
pub open spec fn same_but_for_case(a: Option<Seq<char>>, b: Option<Seq<char>>) -> bool {
    match (a, b) {
        (Some(a), Some(b)) => text::lowered(a) == text::lowered(b),
        (None, None) => true,
        _ => false,
    }
}

/// Whether two lists are the same but for ASCII case.
pub open spec fn lists_same_but_for_case(a: Seq<Seq<char>>, b: Seq<Seq<char>>) -> bool {
    &&& a.len() == b.len()
    &&& forall|i: int|
        0 <= i < a.len() ==> text::lowered(#[trigger] a[i]) == text::lowered(b[i])
}

/// Decisions take no notice of ASCII case, neither in what an application says
/// of itself nor in the lists.
pub proof fn law_decisions_ignore_case(
    app: AppView,
    other_app: AppView,
    cfg: ForegroundSettings,
    other_cfg: ForegroundSettings,
)
    requires
        same_but_for_case(app.app_id, other_app.app_id),
        same_but_for_case(app.class, other_app.class),
        same_but_for_case(app.resource_class, other_app.resource_class),
        same_but_for_case(app.title, other_app.title),
        lists_same_but_for_case(cfg.allow_apps, other_cfg.allow_apps),
        lists_same_but_for_case(cfg.deny_apps, other_cfg.deny_apps),
        cfg.mode == other_cfg.mode,
        cfg.match_title == other_cfg.match_title,
    ensures
        decided(app, cfg) == decided(other_app, other_cfg),
{
    lemma_matched_ignores_case(app, other_app, cfg.allow_apps, other_cfg.allow_apps, cfg.match_title);
    lemma_matched_ignores_case(app, other_app, cfg.deny_apps, other_cfg.deny_apps, cfg.match_title);
}

proof fn lemma_matched_ignores_case(
    app: AppView,
    other_app: AppView,
    list: Seq<Seq<char>>,
    other: Seq<Seq<char>>,
    match_title: bool,
)
    requires
        same_but_for_case(app.app_id, other_app.app_id),
        same_but_for_case(app.class, other_app.class),
        same_but_for_case(app.resource_class, other_app.resource_class),
        same_but_for_case(app.title, other_app.title),
        lists_same_but_for_case(list, other),
    ensures
        matched(app, list, match_title) == matched(other_app, other, match_title),
{
    assert forall|i: int| 0 <= i < list.len() implies normalized(#[trigger] list[i]) == normalized(
        other[i],
    ) by {
        law_normal_form_ignores_case(list[i], other[i]);
    }
    law_matching_goes_by_normal_form(app, list, other, match_title);
    lemma_listed_by_normal_form(app.app_id, other_app.app_id, other);
    lemma_listed_by_normal_form(app.class, other_app.class, other);
    lemma_listed_by_normal_form(app.resource_class, other_app.resource_class, other);
    lemma_listed_by_normal_form(app.title, other_app.title, other);
}

proof fn lemma_listed_by_normal_form(
    field: Option<Seq<char>>,
    other: Option<Seq<char>>,
    list: Seq<Seq<char>>,
)
    requires
        same_but_for_case(field, other),
    ensures
        listed(field, list) == listed(other, list),
{
    if let (Some(a), Some(b)) = (field, other) {
        law_normal_form_ignores_case(a, b);
    }
}

/// With an empty list a denylist enables every application and an allowlist
/// none.
pub proof fn law_empty_lists(app: AppView, cfg: ForegroundSettings)
    ensures
        cfg.mode == ForegroundMode::Denylist && cfg.deny_apps.len() == 0 ==> decided(app, cfg)
            == AutoscrollDecision::Enabled,
        cfg.mode == ForegroundMode::Allowlist && cfg.allow_apps.len() == 0 ==> decided(app, cfg)
            == AutoscrollDecision::Disabled,
{
}

/// The title plays no part unless it is meant to.
pub proof fn law_title_ignored_by_default(
    app: AppView,
    title: Option<Seq<char>>,
    cfg: ForegroundSettings,
)
    requires
        !cfg.match_title,
    ensures
        decided(app, cfg) == decided((AppView { title, ..app }), cfg),
{
}

/// Whether two texts name the same application: without the white space around
/// them and the ASCII capitals they are the same, but that one of them may have
/// a `.desktop` at its end that the other lacks.
pub open spec fn same_name(a: Seq<char>, b: Seq<char>) -> bool {
    let x = text::lowered(text::trimmed(a));
    let y = text::lowered(text::trimmed(b));
    let ending = ".desktop"@;
    if ending.is_suffix_of(x) == ending.is_suffix_of(y) {
        x == y
    } else if ending.is_suffix_of(x) {
        x == y + ending
    } else {
        y == x + ending
    }
}

/// Whether an entry of a list names the application, by its id, its class or its
/// resource class, or by its title where that counts.
pub open spec fn names(entry: Seq<char>, app: AppView, match_title: bool) -> bool {
    ||| app.app_id matches Some(name) && same_name(entry, name)
    ||| app.class matches Some(name) && same_name(entry, name)
    ||| app.resource_class matches Some(name) && same_name(entry, name)
    ||| match_title && (app.title matches Some(name) && same_name(entry, name))
}

proof fn lemma_same_name(a: Seq<char>, b: Seq<char>)
    ensures
        normalized(a) == normalized(b) <==> same_name(a, b),
{
    let x = text::lowered(text::trimmed(a));
    let y = text::lowered(text::trimmed(b));
    let ending = ".desktop"@;
    if ending.is_suffix_of(x) {
        assert(x =~= x.take(x.len() - ending.len()) + ending);
        assert((normalized(b) + ending).take(normalized(b).len() as int) =~= normalized(b));
    }
    if ending.is_suffix_of(y) {
        assert(y =~= y.take(y.len() - ending.len()) + ending);
        assert((normalized(a) + ending).take(normalized(a).len() as int) =~= normalized(a));
    }
}

proof fn lemma_listed_is_named(field: Option<Seq<char>>, list: Seq<Seq<char>>)
    ensures
        listed(field, list) <==> exists|i: int|
            0 <= i < list.len() && (field matches Some(name) && same_name(
                #[trigger] list[i],
                name,
            )),
{
    if let Some(name) = field {
        assert forall|i: int| 0 <= i < list.len() implies (normalized(#[trigger] list[i])
            == normalized(name) <==> same_name(list[i], name)) by {
            lemma_same_name(list[i], name);
        }
        if listed(field, list) {
            let i = choose|i: int|
                0 <= i < list.len() && normalized(#[trigger] list[i]) == normalized(name);
            assert(same_name(list[i], name));
        }
        if exists|i: int| 0 <= i < list.len() && same_name(#[trigger] list[i], name) {
            let i = choose|i: int| 0 <= i < list.len() && same_name(#[trigger] list[i], name);
            assert(normalized(list[i]) == normalized(name));
        }
    }
}

/// An application is on a list exactly where an entry of the list names it; an
/// entry that names nothing of it never puts it there.
pub proof fn law_only_named_apps_are_on_a_list(
    app: AppView,
    list: Seq<Seq<char>>,
    match_title: bool,
)
    ensures
        matched(app, list, match_title) <==> exists|i: int|
            0 <= i < list.len() && names(#[trigger] list[i], app, match_title),
{
    lemma_listed_is_named(app.app_id, list);
    lemma_listed_is_named(app.class, list);
    lemma_listed_is_named(app.resource_class, list);
    lemma_listed_is_named(app.title, list);
    if exists|i: int| 0 <= i < list.len() && names(#[trigger] list[i], app, match_title) {
        let i = choose|i: int| 0 <= i < list.len() && names(#[trigger] list[i], app, match_title);
        assert(0 <= i < list.len());
    }
    if listed(app.app_id, list) {
        let i = choose|i: int|
            0 <= i < list.len() && (app.app_id matches Some(name) && same_name(
                #[trigger] list[i],
                name,
            ));
        assert(names(list[i], app, match_title));
    }
    if listed(app.class, list) {
        let i = choose|i: int|
            0 <= i < list.len() && (app.class matches Some(name) && same_name(
                #[trigger] list[i],
                name,
            ));
        assert(names(list[i], app, match_title));
    }
    if listed(app.resource_class, list) {
        let i = choose|i: int|
            0 <= i < list.len() && (app.resource_class matches Some(name) && same_name(
                #[trigger] list[i],
                name,
            ));
        assert(names(list[i], app, match_title));
    }
    if match_title && listed(app.title, list) {
        let i = choose|i: int|
            0 <= i < list.len() && (app.title matches Some(name) && same_name(
                #[trigger] list[i],
                name,
            ));
        assert(names(list[i], app, match_title));
    }
}

/// A denylist turns autoscroll off for the applications that an entry of it
/// names, and for no other; an allowlist turns it on for those, and for no
/// other. The list of the other mode plays no part.
pub proof fn law_lists_decide(app: AppView, cfg: ForegroundSettings)
    ensures
        cfg.mode == ForegroundMode::Denylist ==> {
            decided(app, cfg) == AutoscrollDecision::Disabled <==> exists|i: int|
                0 <= i < cfg.deny_apps.len() && names(
                    #[trigger] cfg.deny_apps[i],
                    app,
                    cfg.match_title,
                )
        },
        cfg.mode == ForegroundMode::Allowlist ==> {
            decided(app, cfg) == AutoscrollDecision::Enabled <==> exists|i: int|
                0 <= i < cfg.allow_apps.len() && names(
                    #[trigger] cfg.allow_apps[i],
                    app,
                    cfg.match_title,
                )
        },
{
    law_only_named_apps_are_on_a_list(app, cfg.deny_apps, cfg.match_title);
    law_only_named_apps_are_on_a_list(app, cfg.allow_apps, cfg.match_title);
}

/// The normal form of a text: without white space around it and without ASCII
/// capitals it is the normal form itself, or that with one `.desktop` after it.
pub proof fn law_normal_form(s: Seq<char>)
    ensures
        ({
            let tidied = text::lowered(text::trimmed(s));
            &&& ".desktop"@.is_suffix_of(tidied) ==> tidied == normalized(s) + ".desktop"@
            &&& !".desktop"@.is_suffix_of(tidied) ==> tidied == normalized(s)
        }),
{
    let tidied = text::lowered(text::trimmed(s));
    if ".desktop"@.is_suffix_of(tidied) {
        assert(tidied =~= tidied.take(tidied.len() - ".desktop"@.len()) + ".desktop"@);
    }
}

} // verus!
