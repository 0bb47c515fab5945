//! The languages of the user interface.

use crate::search::{first_index, lemma_first_index_is, lemma_first_index_none};
use crate::text::{str_eq, str_starts_with};
use vstd::prelude::*;
use vstd::string::StringExecFns;

verus! {

/// A language of the user interface.
#[derive(Clone, Copy, Debug, PartialEq, Eq, Structural)]
pub enum Language {
    /// Chinese, as written in mainland China.
    ZhCN,
    /// English, as written in the United States.
    EnUS,
}

/// The language for a locale: Chinese for a locale that begins with `zh`,
/// English for every other and where the locale is not known.
pub open spec fn language_for_locale(locale: Option<Seq<char>>) -> Language {
    match locale {
        Some(name) => if "zh"@.is_prefix_of(name) {
            Language::ZhCN
        } else {
            Language::EnUS
        },
        None => Language::EnUS,
    }
}

/// Calls `sys_locale::get_locale`: the locale that the system reports, if
/// it reports one. Nothing is claimed of the value: it depends on the
/// machine and its settings.
#[verifier::external_body]
fn system_locale() -> Option<String> {
    sys_locale::get_locale()
}

impl Language {
    /// The code of the language, as in `en-US`.
    pub fn code(&self) -> (code: &'static str)
        ensures
            code@ == match self {
                Language::ZhCN => "zh-CN"@,
                Language::EnUS => "en-US"@,
            },
    {
        match self {
            Language::ZhCN => "zh-CN",
            Language::EnUS => "en-US",
        }
    }

    /// The name of the language in the language itself.
    pub fn name(&self) -> (name: &'static str)
        ensures
            name@ == match self {
                Language::ZhCN => "中文"@,
                Language::EnUS => "English"@,
            },
    {
        match self {
            Language::ZhCN => "中文",
            Language::EnUS => "English",
        }
    }

    /// The language for the locale `locale`.
    pub fn for_locale(locale: Option<&str>) -> (language: Language)
        ensures
            language == language_for_locale(
                match locale {
                    Some(name) => Some(name@),
                    None => None,
                },
            ),
    {
        match locale {
            Some(name) => if str_starts_with(name, "zh") {
                Language::ZhCN
            } else {
                Language::EnUS
            },
            None => Language::EnUS,
        }
    }

    /// The language of the system: that of the locale which the system
    /// reports.
    pub fn detect_system() -> (language: Language)
        ensures
            language == Language::ZhCN || language == Language::EnUS,
    {
        match system_locale() {
            Some(name) => Language::for_locale(Some(name.as_str())),
            None => Language::for_locale(None),
        }
    }
}

/// An entry of a table of translations.
#[derive(Debug)]
pub struct Translation {
    /// The key, with the names of its groups before it, as in
    /// `menu.file.open`.
    pub key: String,
    /// The text; `None` where the key names a group, or something else that
    /// is no text.
    pub text: Option<String>,
}

/// The translations of the user interface into one language.
#[derive(Debug)]
pub struct I18n {
    /// The entries. The first entry of a key is the one that counts.
    pub translations: Vec<Translation>,
}

/// The first entry of `key`.
pub open spec fn entry_of(translations: Seq<Translation>, key: Seq<char>) -> Option<int> {
    first_index(translations.len() as int, |k: int| translations[k].key@ == key)
}

/// The translation of `key`: the text of its entry, or a note that the key
/// is missing or names no text.
pub open spec fn translated(translations: Seq<Translation>, key: Seq<char>) -> Seq<char> {
    match entry_of(translations, key) {
        Some(k) => match translations[k].text {
            Some(text) => text@,
            None => "[Invalid: "@ + key + "]"@,
        },
        None => "[Missing: "@ + key + "]"@,
    }
}

impl I18n {
    /// The translations with the given entries.
    pub fn new(translations: Vec<Translation>) -> (i18n: I18n)
        ensures
            i18n.translations@ == translations@,
    {
        I18n { translations }
    }

    /// The translation of `key`.
    pub fn t(&self, key: &str) -> (text: String)
        ensures
            text@ == translated(self.translations@, key@),
    {
        let ghost pred = |k: int| self.translations@[k].key@ == key@;
        let mut k: usize = 0;
        while k < self.translations.len()
            invariant
                k <= self.translations@.len(),
                pred == |k: int| self.translations@[k].key@ == key@,
                forall|j: int| 0 <= j < k ==> !#[trigger] pred(j),
            decreases self.translations@.len() - k,
        {
            if str_eq(self.translations[k].key.as_str(), key) {
                proof {
                    assert(pred(k as int));
                    lemma_first_index_is(self.translations@.len() as int, pred, k as int);
                }
                return match &self.translations[k].text {
                    Some(text) => text.clone(),
                    None => {
                        let mut note: String = String::from_str("[Invalid: ");
                        note.append(key);
                        note.append("]");
                        note
                    },
                };
            }
            assert(!pred(k as int));
            k = k + 1;
        }
        proof {
            lemma_first_index_none(self.translations@.len() as int, pred);
        }
        let mut note: String = String::from_str("[Missing: ");
        note.append(key);
        note.append("]");
        note
    }

    /// Takes `translations` as the translations, for another language.
    pub fn set_language(&mut self, translations: Vec<Translation>)
        ensures
            final(self).translations@ == translations@,
    {
        self.translations = translations;
    }
}

} // verus!
