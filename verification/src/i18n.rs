//! Translations of the interface's labels, and the keyed lists that fill
//! the select boxes of the forms.

use vstd::prelude::*;
use crate::text::{find_value, i64_to_decimal, int_decimal, lookup, str_eq};

verus! {

/// The translations of a locale: labels and their texts.
pub struct TranslationMap {
    pub entries: Vec<(String, String)>,
}

impl TranslationMap {
    /// The label-text pairs, as plain values.
    pub open spec fn spec_entries(&self) -> Seq<(Seq<char>, Seq<char>)> {
        self.entries.deep_view()
    }

    /// The translation of a label, if the locale has one.
    pub fn get(&self, label: &str) -> (r: Option<String>)
        ensures
            r.deep_view() == lookup(self.spec_entries(), label@),
    {
        find_value(&self.entries, label)
    }

    /// The translation of a label, or the given default when the locale has
    /// none.
    pub fn get_or_default(&self, label: &str, default: &str) -> (r: String)
        ensures
            r@ == match lookup(self.spec_entries(), label@) {
                Some(t) => t,
                None => default@,
            },
    {
        match self.get(label) {
            Some(t) => t,
            None => default.to_owned(),
        }
    }
}

/// The text that the `I18N` component shows: the label's translation, or
/// the default.
pub fn i18n(translation: &TranslationMap, label: &str, default: &str) -> (r: String)
    ensures
        r@ == match lookup(translation.spec_entries(), label@) {
            Some(t) => t,
            None => default@,
        },
{
    translation.get_or_default(label, default)
}

/// The options of a select box: each option's value and its text.
pub struct KeyedList(pub Vec<(String, String)>);

impl KeyedList {
    /// The options of a select box whose values are numeric identifiers,
    /// written in decimal.
    pub fn from(value: Vec<(i32, String)>) -> (r: KeyedList)
        ensures
            r.0.len() == value.len(),
            forall|i: int|
                0 <= i < value.len() ==> (#[trigger] r.0[i]).0@ == int_decimal(value[i].0 as int) && r.0[i].1@
                    == value[i].1@,
    {
        let mut out: Vec<(String, String)> = Vec::new();
        let n = value.len();
        let mut i: usize = 0;
        while i < n
            invariant
                n == value.len(),
                i <= n,
                out.len() == i,
                forall|j: int|
                    0 <= j < i ==> (#[trigger] out[j]).0@ == int_decimal(value[j].0 as int) && out[j].1@
                        == value[j].1@,
            decreases n - i,
        {
            let key = i64_to_decimal(value[i].0 as i64);
            let val = value[i].1.clone();
            out.push((key, val));
            i = i + 1;
        }
        KeyedList(out)
    }

    /// Which option is selected, for a default value: the options whose
    /// value is the default one (none without a default).
    pub fn selected(&self, default_value: &Option<String>) -> (r: Vec<bool>)
        ensures
            r.len() == self.0.len(),
            forall|i: int|
                0 <= i < r.len() ==> #[trigger] r[i] == match default_value {
                    Some(d) => d@ == self.0[i].0@,
                    None => false,
                },
    {
        let mut out: Vec<bool> = Vec::new();
        let n = self.0.len();
        let mut i: usize = 0;
        while i < n
            invariant
                n == self.0.len(),
                i <= n,
                out.len() == i,
                forall|j: int|
                    0 <= j < i ==> #[trigger] out[j] == match default_value {
                        Some(d) => d@ == self.0[j].0@,
                        None => false,
                    },
            decreases n - i,
        {
            let sel = match default_value {
                Some(d) => str_eq(d.as_str(), self.0[i].0.as_str()),
                None => false,
            };
            out.push(sel);
            i = i + 1;
        }
        out
    }
}

/// Which locale the interface is shown in, before it is looked up.
pub enum LocaleQuery {
    /// The locale that the signed-in user chose, by its identifier.
    ById(i32),
    /// The locale that matches the browser's preferred languages.
    ByWebNames(Vec<String>),
    /// No hint: the default locale.
    Default,
}

/// The locale to look up: the signed-in user's own, otherwise the one of
/// the browser's languages, otherwise the default one.
pub fn locale_query(user_locale_id: Option<i32>, navigator_languages: Option<Vec<String>>) -> (r: LocaleQuery)
    ensures
        match user_locale_id {
            Some(id) => r matches LocaleQuery::ById(x) && x == id,
            None => match navigator_languages {
                Some(langs) => r matches LocaleQuery::ByWebNames(l) && l@ == langs@,
                None => r is Default,
            },
        },
{
    match user_locale_id {
        Some(id) => LocaleQuery::ById(id),
        None => match navigator_languages {
            Some(langs) => LocaleQuery::ByWebNames(langs),
            None => LocaleQuery::Default,
        },
    }
}

/// The translations shown: those of the locale that was found, or those of
/// the default locale when none was.
pub fn chosen_translation(found: Option<TranslationMap>, default: TranslationMap) -> (r: TranslationMap)
    ensures
        r == match found {
            Some(t) => t,
            None => default,
        },
{
    match found {
        Some(t) => t,
        None => default,
    }
}

} // verus!
