//! The language of the program.

use vstd::prelude::*;
use vstd::string::*;

use crate::text::{begins, cat, lower, same, same_ignore_case, split, split_on, starts_with, views};

verus! {

/// What `str::to_lowercase` makes of a text.
pub uninterp spec fn lowercased(s: Seq<char>) -> Seq<char>;

/// A text of ASCII characters.
pub open spec fn is_ascii(s: Seq<char>) -> bool {
    forall|i: int| 0 <= i < s.len() ==> (#[trigger] s[i] as int) < 128
}

/// `str::to_lowercase` turns a text into lower case, by the rules of Unicode; of a
/// text of ASCII characters, that turns the capital letters into small ones and
/// keeps the rest.
#[verifier::external_body]
fn to_lowercase(s: &str) -> (r: String)
    ensures
        r@ == lowercased(s@),
        is_ascii(s@) ==> r@ == lower(s@),
{
    s.to_lowercase()
}

/// A text in lower case; only of a text that is not all ASCII is that left to
/// `str::to_lowercase`.
pub open spec fn in_lower_case(s: Seq<char>) -> Seq<char> {
    if is_ascii(s) {
        lower(s)
    } else {
        lowercased(s)
    }
}

/// Regions of traditional Chinese.
pub open spec fn traditional_chinese(locale: Seq<char>) -> bool {
    ||| locale == "zh-hk"@
    ||| locale == "zh-mo"@
    ||| locale == "zh-hant"@
    ||| locale == "zh-hant-tw"@
    ||| locale == "zh-hant-hk"@
    ||| locale == "zh-hant-mo"@
}

/// Regions of simplified Chinese.
pub open spec fn simplified_chinese(locale: Seq<char>) -> bool {
    ||| locale == "zh-sg"@
    ||| locale == "zh-hans"@
    ||| locale == "zh-hans-cn"@
    ||| locale == "zh-hans-sg"@
}

/// Regions of British English.
pub open spec fn commonwealth_english(locale: Seq<char>) -> bool {
    ||| locale == "en-au"@
    ||| locale == "en-nz"@
    ||| locale == "en-ie"@
    ||| locale == "en-in"@
    ||| locale == "en-sg"@
    ||| locale == "en-za"@
    ||| locale == "en-hk"@
    ||| locale == "en-my"@
    ||| locale == "en-ph"@
    ||| locale == "en-pk"@
    ||| locale == "en-ng"@
    ||| locale == "en-ke"@
    ||| locale == "en-gh"@
}

/// Regions of Latin American Spanish.
pub open spec fn american_spanish(locale: Seq<char>) -> bool {
    ||| locale == "es-ar"@
    ||| locale == "es-co"@
    ||| locale == "es-cl"@
    ||| locale == "es-pe"@
    ||| locale == "es-ve"@
    ||| locale == "es-ec"@
    ||| locale == "es-gt"@
    ||| locale == "es-cu"@
    ||| locale == "es-bo"@
    ||| locale == "es-do"@
    ||| locale == "es-hn"@
    ||| locale == "es-py"@
    ||| locale == "es-sv"@
    ||| locale == "es-ni"@
    ||| locale == "es-cr"@
    ||| locale == "es-pa"@
    ||| locale == "es-uy"@
    ||| locale == "es-pr"@
    ||| locale == "es-us"@
    ||| locale == "es-419"@
}

/// Regions of European French.
pub open spec fn european_french(locale: Seq<char>) -> bool {
    ||| locale == "fr-be"@
    ||| locale == "fr-ch"@
    ||| locale == "fr-lu"@
    ||| locale == "fr-mc"@
    ||| locale == "fr-sn"@
    ||| locale == "fr-ci"@
    ||| locale == "fr-ml"@
    ||| locale == "fr-cm"@
    ||| locale == "fr-mg"@
    ||| locale == "fr-cd"@
    ||| locale == "fr-dz"@
    ||| locale == "fr-tn"@
    ||| locale == "fr-ma"@
}

/// Regions of European Portuguese.
pub open spec fn european_portuguese(locale: Seq<char>) -> bool {
    ||| locale == "pt-ao"@
    ||| locale == "pt-mz"@
    ||| locale == "pt-gw"@
    ||| locale == "pt-tl"@
    ||| locale == "pt-cv"@
    ||| locale == "pt-st"@
}

/// Regions of Serbian in Latin letters.
pub open spec fn latin_serbian(locale: Seq<char>) -> bool {
    ||| locale == "sr-latn-ba"@
    ||| locale == "sr-latn-me"@
    ||| locale == "sr-latn-xk"@
}

/// Regions of Serbian in Cyrillic letters.
pub open spec fn cyrillic_serbian(locale: Seq<char>) -> bool {
    ||| locale == "sr-cyrl-ba"@
    ||| locale == "sr-cyrl-me"@
    ||| locale == "sr-cyrl-xk"@
}

/// The variant that a region shares its language with, where the language has
/// several. The locale is in lower case.
pub open spec fn affinity(locale: Seq<char>) -> Option<Seq<char>> {
    if traditional_chinese(locale) {
        Some("zh-TW"@)
    } else if simplified_chinese(locale) {
        Some("zh-CN"@)
    } else if commonwealth_english(locale) {
        Some("en-GB"@)
    } else if american_spanish(locale) {
        Some("es-MX"@)
    } else if european_french(locale) {
        Some("fr-FR"@)
    } else if european_portuguese(locale) {
        Some("pt-PT"@)
    } else if latin_serbian(locale) {
        Some("sr-Latn-RS"@)
    } else if cyrillic_serbian(locale) {
        Some("sr-Cyrl-RS"@)
    } else {
        None
    }
}

/// Whether a locale is among some, whatever its case.
pub open spec fn is_among(locale: Seq<char>, available: Seq<Seq<char>>) -> bool {
    exists|i: int| 0 <= i < available.len() && lower(#[trigger] available[i]) == lower(locale)
}

/// The first locale of a language.
pub open spec fn of_language(available: Seq<Seq<char>>, prefix: Seq<char>) -> Option<Seq<char>>
    decreases available.len(),
{
    if available.len() == 0 {
        None
    } else if begins(in_lower_case(available[0]), prefix) {
        Some(available[0])
    } else {
        of_language(available.skip(1), prefix)
    }
}

/// The variant that the region of a locale is close to, where it is there.
pub open spec fn close_variant(locale: Seq<char>, available: Seq<Seq<char>>) -> Option<Seq<char>> {
    match affinity(in_lower_case(locale)) {
        Some(variant) if is_among(variant, available) => Some(variant),
        _ => None,
    }
}

/// The first locale of the language of another.
pub open spec fn same_language(locale: Seq<char>, available: Seq<Seq<char>>) -> Option<Seq<char>> {
    of_language(available, in_lower_case(split_on(locale, '-')[0]) + "-"@)
}

/// The locale that is used for one that is asked for: the same, where it is there;
/// else the variant that its region is close to; else any of its language; else
/// American English.
pub open spec fn normalized(locale: Seq<char>, available: Seq<Seq<char>>) -> Seq<char> {
    if is_among(locale, available) {
        locale
    } else if close_variant(locale, available) is Some {
        close_variant(locale, available)->0
    } else {
        match same_language(locale, available) {
            Some(found) => found,
            None => "en-US"@,
        }
    }
}

fn is_traditional_chinese(l: &str) -> (r: bool)
    ensures
        r == traditional_chinese(l@),
{
    same(l, "zh-hk") || same(l, "zh-mo") || same(l, "zh-hant") || same(l, "zh-hant-tw") || same(l, "zh-hant-hk") || same(l, "zh-hant-mo")
}

fn is_simplified_chinese(l: &str) -> (r: bool)
    ensures
        r == simplified_chinese(l@),
{
    same(l, "zh-sg") || same(l, "zh-hans") || same(l, "zh-hans-cn") || same(l, "zh-hans-sg")
}

fn is_commonwealth_english(l: &str) -> (r: bool)
    ensures
        r == commonwealth_english(l@),
{
    same(l, "en-au") || same(l, "en-nz") || same(l, "en-ie") || same(l, "en-in") || same(l, "en-sg") || same(l, "en-za") || same(l, "en-hk") || same(l, "en-my") || same(l, "en-ph") || same(l, "en-pk") || same(l, "en-ng") || same(l, "en-ke") || same(l, "en-gh")
}

fn is_american_spanish(l: &str) -> (r: bool)
    ensures
        r == american_spanish(l@),
{
    same(l, "es-ar") || same(l, "es-co") || same(l, "es-cl") || same(l, "es-pe") || same(l, "es-ve") || same(l, "es-ec") || same(l, "es-gt") || same(l, "es-cu") || same(l, "es-bo") || same(l, "es-do") || same(l, "es-hn") || same(l, "es-py") || same(l, "es-sv") || same(l, "es-ni") || same(l, "es-cr") || same(l, "es-pa") || same(l, "es-uy") || same(l, "es-pr") || same(l, "es-us") || same(l, "es-419")
}

fn is_european_french(l: &str) -> (r: bool)
    ensures
        r == european_french(l@),
{
    same(l, "fr-be") || same(l, "fr-ch") || same(l, "fr-lu") || same(l, "fr-mc") || same(l, "fr-sn") || same(l, "fr-ci") || same(l, "fr-ml") || same(l, "fr-cm") || same(l, "fr-mg") || same(l, "fr-cd") || same(l, "fr-dz") || same(l, "fr-tn") || same(l, "fr-ma")
}

fn is_european_portuguese(l: &str) -> (r: bool)
    ensures
        r == european_portuguese(l@),
{
    same(l, "pt-ao") || same(l, "pt-mz") || same(l, "pt-gw") || same(l, "pt-tl") || same(l, "pt-cv") || same(l, "pt-st")
}

fn is_latin_serbian(l: &str) -> (r: bool)
    ensures
        r == latin_serbian(l@),
{
    same(l, "sr-latn-ba") || same(l, "sr-latn-me") || same(l, "sr-latn-xk")
}

fn is_cyrillic_serbian(l: &str) -> (r: bool)
    ensures
        r == cyrillic_serbian(l@),
{
    same(l, "sr-cyrl-ba") || same(l, "sr-cyrl-me") || same(l, "sr-cyrl-xk")
}

fn affinity_of(l: &str) -> (r: Option<&'static str>)
    ensures
        match r {
            Some(t) => affinity(l@) == Some(t@),
            None => affinity(l@) is None,
        },
{
    if is_traditional_chinese(l) {
        Some("zh-TW")
    } else if is_simplified_chinese(l) {
        Some("zh-CN")
    } else if is_commonwealth_english(l) {
        Some("en-GB")
    } else if is_american_spanish(l) {
        Some("es-MX")
    } else if is_european_french(l) {
        Some("fr-FR")
    } else if is_european_portuguese(l) {
        Some("pt-PT")
    } else if is_latin_serbian(l) {
        Some("sr-Latn-RS")
    } else if is_cyrillic_serbian(l) {
        Some("sr-Cyrl-RS")
    } else {
        None
    }
}

fn has_locale(available: &Vec<String>, locale: &str) -> (r: bool)
    ensures
        r == is_among(locale@, views(available@)),
{
    let mut i: usize = 0;
    while i < available.len()
        invariant
            i <= available@.len(),
            forall|k: int| 0 <= k < i ==> lower(#[trigger] views(available@)[k]) != lower(locale@),
        decreases available.len() - i,
    {
        proof {
            assert(views(available@)[i as int] == available@[i as int]@);
        }
        if same_ignore_case(available[i].as_str(), locale) {
            return true;
        }
        i += 1;
    }
    false
}

fn find_language(available: &Vec<String>, prefix: &str) -> (r: Option<String>)
    ensures
        crate::text::opt_view(r) == of_language(views(available@), prefix@),
{
    let ghost all = views(available@);
    let mut i: usize = 0;
    proof {
        assert(all.skip(0) =~= all);
    }
    while i < available.len()
        invariant
            i <= available@.len(),
            all == views(available@),
            of_language(all, prefix@) == of_language(all.skip(i as int), prefix@),
        decreases available.len() - i,
    {
        proof {
            assert(all.skip(i as int)[0] == available@[i as int]@);
            assert(all.skip(i as int).skip(1) =~= all.skip(i + 1));
        }
        let lowered = to_lowercase(available[i].as_str());
        if starts_with(lowered.as_str(), prefix) {
            return Some(available[i].clone());
        }
        i += 1;
    }
    proof {
        assert(all.skip(i as int).len() == 0);
    }
    None
}

/// The locale that is used for one that is asked for.
pub fn normalize_locale(locale: &str, available: &Vec<String>) -> (r: String)
    ensures
        r@ == normalized(locale@, views(available@)),
{
    if has_locale(available, locale) {
        return locale.to_owned();
    }
    let lowered = to_lowercase(locale);
    if let Some(target) = affinity_of(lowered.as_str()) {
        if has_locale(available, target) {
            return target.to_owned();
        }
    }
    let parts = split(locale, '-');
    proof {
        assert(views(parts@)[0] == parts@[0]@);
    }
    let language = to_lowercase(parts[0].as_str());
    let prefix = cat(language.as_str(), "-");
    match find_language(available, prefix.as_str()) {
        Some(found) => found,
        None => "en-US".to_owned(),
    }
}

/// A locale that is there is used as it was asked for.
pub proof fn law_a_known_locale_is_kept(locale: Seq<char>, available: Seq<Seq<char>>)
    requires
        is_among(locale, available),
    ensures
        normalized(locale, available) == locale,
{
}

/// Whether any of the locales that are there stands for one that is asked for.
pub open spec fn is_served(locale: Seq<char>, available: Seq<Seq<char>>) -> bool {
    ||| is_among(locale, available)
    ||| close_variant(locale, available) is Some
    ||| same_language(locale, available) is Some
}

/// Where one of the locales that are there stands for the one that is asked for,
/// what is used is among them, whatever its case; else it is American English.
pub proof fn law_a_usable_locale_is_used(locale: Seq<char>, available: Seq<Seq<char>>)
    ensures
        is_served(locale, available) ==> is_among(normalized(locale, available), available),
        !is_served(locale, available) ==> normalized(locale, available) == "en-US"@,
{
    let prefix = in_lower_case(split_on(locale, '-')[0]) + "-"@;
    lemma_of_language(available, prefix);
}

/// American English is used where it is asked for and there, where the language
/// that is asked for has no closer variant and American English is the first of
/// it, and where nothing stands for what is asked for; and nowhere else.
pub proof fn law_when_american_english_is_used(locale: Seq<char>, available: Seq<Seq<char>>)
    ensures
        (normalized(locale, available) == "en-US"@) == {
            ||| is_among(locale, available) && locale == "en-US"@
            ||| !is_among(locale, available) && close_variant(locale, available) is None
                && same_language(locale, available) == Some("en-US"@)
            ||| !is_served(locale, available)
        },
{
    reveal_strlit("en-US");
    reveal_strlit("zh-TW");
    reveal_strlit("zh-CN");
    reveal_strlit("en-GB");
    reveal_strlit("es-MX");
    reveal_strlit("fr-FR");
    reveal_strlit("pt-PT");
    reveal_strlit("sr-Latn-RS");
    reveal_strlit("sr-Cyrl-RS");
    let close = affinity(in_lower_case(locale));
    if close == Some("en-US"@) {
        assert("en-US"@[3] == 'U');
        assert("en-US"@[0] == 'e');
        assert("en-US"@.len() == 5);
        assert(false);
    }
}

/// Asking for what is used gives the same again. Only where nothing stands for a
/// locale and another English stands for American English does it not.
pub proof fn law_normalizing_twice_is_normalizing_once(
    locale: Seq<char>,
    available: Seq<Seq<char>>,
)
    requires
        is_served(locale, available) || normalized("en-US"@, available) == "en-US"@,
    ensures
        normalized(normalized(locale, available), available) == normalized(locale, available),
{
    law_a_usable_locale_is_used(locale, available);
}

proof fn lemma_of_language(available: Seq<Seq<char>>, prefix: Seq<char>)
    ensures
        match of_language(available, prefix) {
            Some(found) => is_among(found, available),
            None => true,
        },
    decreases available.len(),
{
    if available.len() > 0 {
        if begins(in_lower_case(available[0]), prefix) {
            assert(lower(available[0]) == lower(available[0]));
        } else {
            let rest = available.skip(1);
            lemma_of_language(rest, prefix);
            if of_language(rest, prefix) is Some {
                let found = of_language(rest, prefix)->0;
                let i = choose|i: int|
                    0 <= i < rest.len() && lower(#[trigger] rest[i]) == lower(found);
                assert(available[i + 1] == rest[i]);
            }
        }
    }
}

// ---------------------------------------------------------------------------
// Laws
// ---------------------------------------------------------------------------

/// A locale is never taken for one of another language.
pub proof fn law_a_close_variant_is_of_the_language(locale: Seq<char>)
    requires
        affinity(locale) is Some,
    ensures
        locale.len() > 2,
        affinity(locale)->0.len() > 2,
        locale.take(2) == affinity(locale)->0.take(2),
{
    if traditional_chinese(locale) || simplified_chinese(locale) {
        lemma_chinese(locale);
    } else if commonwealth_english(locale) {
        lemma_english(locale);
    } else if american_spanish(locale) {
        lemma_spanish(locale);
    } else if european_french(locale) {
        lemma_french(locale);
    } else if european_portuguese(locale) {
        lemma_portuguese(locale);
    } else {
        lemma_serbian(locale);
    }
}

proof fn lemma_chinese(locale: Seq<char>)
    requires
        traditional_chinese(locale) || simplified_chinese(locale),
    ensures
        locale.len() > 2,
        affinity(locale) is Some,
        affinity(locale)->0.len() > 2,
        locale.take(2) == affinity(locale)->0.take(2),
{
    reveal_strlit("zh-hk");
    reveal_strlit("zh-mo");
    reveal_strlit("zh-hant");
    reveal_strlit("zh-hant-tw");
    reveal_strlit("zh-hant-hk");
    reveal_strlit("zh-hant-mo");
    reveal_strlit("zh-sg");
    reveal_strlit("zh-hans");
    reveal_strlit("zh-hans-cn");
    reveal_strlit("zh-hans-sg");
    reveal_strlit("zh-TW");
    reveal_strlit("zh-CN");
    assert(affinity(locale)->0[0] == locale[0] && affinity(locale)->0[1] == locale[1]);
    assert(locale.take(2) =~= affinity(locale)->0.take(2));
}

proof fn lemma_english(locale: Seq<char>)
    requires
        commonwealth_english(locale),
        !traditional_chinese(locale),
        !simplified_chinese(locale),
    ensures
        locale.len() > 2,
        affinity(locale) is Some,
        affinity(locale)->0.len() > 2,
        locale.take(2) == affinity(locale)->0.take(2),
{
    reveal_strlit("en-au");
    reveal_strlit("en-nz");
    reveal_strlit("en-ie");
    reveal_strlit("en-in");
    reveal_strlit("en-sg");
    reveal_strlit("en-za");
    reveal_strlit("en-hk");
    reveal_strlit("en-my");
    reveal_strlit("en-ph");
    reveal_strlit("en-pk");
    reveal_strlit("en-ng");
    reveal_strlit("en-ke");
    reveal_strlit("en-gh");
    reveal_strlit("en-GB");
    assert(affinity(locale)->0[0] == locale[0] && affinity(locale)->0[1] == locale[1]);
    assert(locale.take(2) =~= affinity(locale)->0.take(2));
}

proof fn lemma_spanish(locale: Seq<char>)
    requires
        american_spanish(locale),
        !traditional_chinese(locale),
        !simplified_chinese(locale),
        !commonwealth_english(locale),
    ensures
        locale.len() > 2,
        affinity(locale) is Some,
        affinity(locale)->0.len() > 2,
        locale.take(2) == affinity(locale)->0.take(2),
{
    reveal_strlit("es-ar");
    reveal_strlit("es-co");
    reveal_strlit("es-cl");
    reveal_strlit("es-pe");
    reveal_strlit("es-ve");
    reveal_strlit("es-ec");
    reveal_strlit("es-gt");
    reveal_strlit("es-cu");
    reveal_strlit("es-bo");
    reveal_strlit("es-do");
    reveal_strlit("es-hn");
    reveal_strlit("es-py");
    reveal_strlit("es-sv");
    reveal_strlit("es-ni");
    reveal_strlit("es-cr");
    reveal_strlit("es-pa");
    reveal_strlit("es-uy");
    reveal_strlit("es-pr");
    reveal_strlit("es-us");
    reveal_strlit("es-419");
    reveal_strlit("es-MX");
    assert(affinity(locale)->0[0] == locale[0] && affinity(locale)->0[1] == locale[1]);
    assert(locale.take(2) =~= affinity(locale)->0.take(2));
}

proof fn lemma_french(locale: Seq<char>)
    requires
        european_french(locale),
        !traditional_chinese(locale),
        !simplified_chinese(locale),
        !commonwealth_english(locale),
        !american_spanish(locale),
    ensures
        locale.len() > 2,
        affinity(locale) is Some,
        affinity(locale)->0.len() > 2,
        locale.take(2) == affinity(locale)->0.take(2),
{
    reveal_strlit("fr-be");
    reveal_strlit("fr-ch");
    reveal_strlit("fr-lu");
    reveal_strlit("fr-mc");
    reveal_strlit("fr-sn");
    reveal_strlit("fr-ci");
    reveal_strlit("fr-ml");
    reveal_strlit("fr-cm");
    reveal_strlit("fr-mg");
    reveal_strlit("fr-cd");
    reveal_strlit("fr-dz");
    reveal_strlit("fr-tn");
    reveal_strlit("fr-ma");
    reveal_strlit("fr-FR");
    assert(affinity(locale)->0[0] == locale[0] && affinity(locale)->0[1] == locale[1]);
    assert(locale.take(2) =~= affinity(locale)->0.take(2));
}

proof fn lemma_portuguese(locale: Seq<char>)
    requires
        european_portuguese(locale),
        !traditional_chinese(locale),
        !simplified_chinese(locale),
        !commonwealth_english(locale),
        !american_spanish(locale),
        !european_french(locale),
    ensures
        locale.len() > 2,
        affinity(locale) is Some,
        affinity(locale)->0.len() > 2,
        locale.take(2) == affinity(locale)->0.take(2),
{
    reveal_strlit("pt-ao");
    reveal_strlit("pt-mz");
    reveal_strlit("pt-gw");
    reveal_strlit("pt-tl");
    reveal_strlit("pt-cv");
    reveal_strlit("pt-st");
    reveal_strlit("pt-PT");
    assert(affinity(locale)->0[0] == locale[0] && affinity(locale)->0[1] == locale[1]);
    assert(locale.take(2) =~= affinity(locale)->0.take(2));
}

proof fn lemma_serbian(locale: Seq<char>)
    requires
        latin_serbian(locale) || cyrillic_serbian(locale),
        !traditional_chinese(locale),
        !simplified_chinese(locale),
        !commonwealth_english(locale),
        !american_spanish(locale),
        !european_french(locale),
        !european_portuguese(locale),
    ensures
        locale.len() > 2,
        affinity(locale) is Some,
        affinity(locale)->0.len() > 2,
        locale.take(2) == affinity(locale)->0.take(2),
{
    reveal_strlit("sr-latn-ba");
    reveal_strlit("sr-latn-me");
    reveal_strlit("sr-latn-xk");
    reveal_strlit("sr-cyrl-ba");
    reveal_strlit("sr-cyrl-me");
    reveal_strlit("sr-cyrl-xk");
    reveal_strlit("sr-Latn-RS");
    reveal_strlit("sr-Cyrl-RS");
    assert(affinity(locale)->0[0] == locale[0] && affinity(locale)->0[1] == locale[1]);
    assert(locale.take(2) =~= affinity(locale)->0.take(2));
}


} // verus!
