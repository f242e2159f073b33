//! Translations keyed by locale and translation key.

use vstd::prelude::*;
use vstd::string::*;

verus! {

/// One locale's translations: the locale name and its key/value pairs.
#[derive(Debug)]
pub struct LocaleTranslations {
    /// Locale name, for example `en_US`.
    pub locale: String,
    /// Translation key/value pairs for this locale.
    pub entries: Vec<TranslationEntry>,
}

/// One translation: key and translated text.
#[derive(Debug)]
pub struct TranslationEntry {
    /// Translation key.
    pub key: String,
    /// Translated text.
    pub value: String,
}

/// Structure containing translations, one entry per locale.
#[derive(Debug)]
pub struct I18N {
    trs: Vec<LocaleTranslations>,
}

/// The value of the first entry whose key matches.
pub open spec fn spec_lookup_entry(entries: Seq<TranslationEntry>, key: Seq<char>) -> Option<
    Seq<char>,
>
    decreases entries.len(),
{
    if entries.len() == 0 {
        None
    } else if entries[0].key@ == key {
        Some(entries[0].value@)
    } else {
        spec_lookup_entry(entries.skip(1), key)
    }
}

/// The entries of the first locale whose name matches.
pub open spec fn spec_lookup_locale(trs: Seq<LocaleTranslations>, locale: Seq<char>) -> Option<
    Seq<TranslationEntry>,
>
    decreases trs.len(),
{
    if trs.len() == 0 {
        None
    } else if trs[0].locale@ == locale {
        Some(trs[0].entries@)
    } else {
        spec_lookup_locale(trs.skip(1), locale)
    }
}

/// What [`I18N::translate`] returns: the value for the key in the named
/// locale, if both exist.
pub open spec fn spec_translate(
    trs: Seq<LocaleTranslations>,
    locale: Seq<char>,
    key: Seq<char>,
) -> Option<Seq<char>> {
    match spec_lookup_locale(trs, locale) {
        Some(entries) => spec_lookup_entry(entries, key),
        None => None,
    }
}

/// Skipping past non-matching locales does not change the lookup.
proof fn lemma_lookup_locale_skip(trs: Seq<LocaleTranslations>, locale: Seq<char>, i: int)
    requires
        0 <= i <= trs.len(),
        forall|k: int| 0 <= k < i ==> (#[trigger] trs[k].locale)@ != locale,
    ensures
        spec_lookup_locale(trs, locale) == spec_lookup_locale(trs.skip(i), locale),
    decreases i,
{
    if i > 0 {
        assert(trs.skip(1).skip(i - 1) =~= trs.skip(i));
        assert(forall|k: int| 0 <= k < i - 1 ==> (#[trigger] trs.skip(1)[k].locale)@ != locale);
        lemma_lookup_locale_skip(trs.skip(1), locale, i - 1);
    } else {
        assert(trs.skip(0) =~= trs);
    }
}

/// Skipping past non-matching keys does not change the lookup.
proof fn lemma_lookup_entry_skip(entries: Seq<TranslationEntry>, key: Seq<char>, i: int)
    requires
        0 <= i <= entries.len(),
        forall|k: int| 0 <= k < i ==> (#[trigger] entries[k].key)@ != key,
    ensures
        spec_lookup_entry(entries, key) == spec_lookup_entry(entries.skip(i), key),
    decreases i,
{
    if i > 0 {
        assert(entries.skip(1).skip(i - 1) =~= entries.skip(i));
        assert(forall|k: int| 0 <= k < i - 1 ==> (#[trigger] entries.skip(1)[k].key)@ != key);
        lemma_lookup_entry_skip(entries.skip(1), key, i - 1);
    } else {
        assert(entries.skip(0) =~= entries);
    }
}

impl I18N {
    /// Spec view: the locale entries in order.
    pub closed spec fn view(&self) -> Seq<LocaleTranslations> {
        self.trs@
    }

    /// Creates a translation table.  Translations are loaded through the
    /// resource loader by the embedding; until that is wired up the table
    /// starts empty, whatever path is given.
    pub fn new(locales_path: &str) -> (i18n: I18N)
        ensures
            i18n@.len() == 0,
    {
        let _ = locales_path;
        I18N { trs: Vec::new() }
    }

    /// The available locale names, in table order.
    pub fn available_locales(&self) -> (locales: Vec<String>)
        ensures
            locales@.len() == self@.len(),
            forall|i: int|
                0 <= i < locales@.len() ==> (#[trigger] locales@[i])@ == self@[i].locale@,
    {
        let mut locales: Vec<String> = Vec::new();
        let n = self.trs.len();
        let mut i: usize = 0;
        while i < n
            invariant
                n == self.trs@.len(),
                i <= n,
                locales@.len() == i,
                forall|k: int|
                    0 <= k < i ==> (#[trigger] locales@[k])@ == self.trs@[k].locale@,
            decreases n - i,
        {
            locales.push(self.trs[i].locale.clone());
            i = i + 1;
        }
        locales
    }

    /// Gets the translated text for a key in a locale: the first matching
    /// entry of the first matching locale, or nothing when either is
    /// absent.
    pub fn translate(&self, locale: &str, key: &str) -> (translated: Option<String>)
        ensures
            match translated {
                Some(text) => spec_translate(self@, locale@, key@) == Some(text@),
                None => spec_translate(self@, locale@, key@) is None,
            },
    {
        let wanted_locale = String::from_str(locale);
        let n = self.trs.len();
        let mut i: usize = 0;
        while i < n
            invariant
                n == self.trs@.len(),
                i <= n,
                wanted_locale@ == locale@,
                forall|k: int| 0 <= k < i ==> (#[trigger] self.trs@[k].locale)@ != locale@,
            decreases n - i,
        {
            if self.trs[i].locale == wanted_locale {
                proof {
                    lemma_lookup_locale_skip(self.trs@, locale@, i as int);
                    assert(self.trs@.skip(i as int)[0] == self.trs@[i as int]);
                }
                return translate_in_entries(&self.trs[i].entries, key);
            }
            i = i + 1;
        }
        proof {
            lemma_lookup_locale_skip(self.trs@, locale@, n as int);
            assert(self.trs@.skip(n as int) =~= Seq::empty());
        }
        None
    }
}

/// Finds the first entry with the given key and clones its value.
fn translate_in_entries(entries: &Vec<TranslationEntry>, key: &str) -> (translated: Option<String>)
    ensures
        match translated {
            Some(text) => spec_lookup_entry(entries@, key@) == Some(text@),
            None => spec_lookup_entry(entries@, key@) is None,
        },
{
    let wanted = String::from_str(key);
    let n = entries.len();
    let mut i: usize = 0;
    while i < n
        invariant
            n == entries@.len(),
            i <= n,
            wanted@ == key@,
            forall|k: int| 0 <= k < i ==> (#[trigger] entries@[k].key)@ != key@,
        decreases n - i,
    {
        if entries[i].key == wanted {
            proof {
                lemma_lookup_entry_skip(entries@, key@, i as int);
                assert(entries@.skip(i as int)[0] == entries@[i as int]);
            }
            return Some(entries[i].value.clone());
        }
        i = i + 1;
    }
    proof {
        lemma_lookup_entry_skip(entries@, key@, n as int);
        assert(entries@.skip(n as int) =~= Seq::empty());
    }
    None
}

} // verus!
