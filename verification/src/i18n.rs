//! Languages, bilingual strings, and the table of system messages.

use vstd::prelude::*;
use vstd::string::StrSliceExecFns;

verus! {

/// Supported languages.
#[derive(Clone, Copy, Debug, PartialEq, Eq, Structural)]
pub enum Language {
    En,
    Fr,
}

/// A string localized in both English and French.
#[derive(Clone, Debug)]
pub struct LocalizedString {
    pub en: String,
    pub fr: String,
}

impl LocalizedString {
    /// The text this string shows under `lang`.
    pub open spec fn spec_get(&self, lang: Language) -> Seq<char> {
        match lang {
            Language::En => self.en@,
            Language::Fr => self.fr@,
        }
    }

    /// Build a bilingual string from the two texts.
    pub fn new(en: &str, fr: &str) -> (s: LocalizedString)
        ensures
            s.en@ == en@,
            s.fr@ == fr@,
    {
        LocalizedString { en: en.to_owned(), fr: fr.to_owned() }
    }

    /// Get the text for the given language.
    pub fn get(&self, lang: Language) -> (r: &str)
        ensures
            r@ == self.spec_get(lang),
    {
        match lang {
            Language::En => self.en.as_str(),
            Language::Fr => self.fr.as_str(),
        }
    }
}

/// System message keys for menu and status text.
#[derive(Clone, Copy, Debug, PartialEq, Eq, Structural)]
pub enum Msg {
    LanguagePrompt,
    LanguageOption1,
    LanguageOption2,
    ContinueOrNew,
    ContinueOption,
    NewGameOption,
    ElaraTyping,
    ElaraUnavailable,
    ElaraBackAround,
    WaitOrQuit,
    WaitOption,
    QuitOption,
    SignalLost,
    DaySeparator,
    BacklogHeader,
    SessionStart,
    EndingReached,
    DaysSurvived,
    KeyChoices,
    PlayAgain,
    YesOption,
    NoOption,
    InvalidChoice,
    SaveDeleted,
    IntroRadioCrackle,
}

/// The system-message table: the exact text each key resolves to under each
/// language. The language-selection lines are shown before a language
/// exists, so they read the same under both.
pub open spec fn spec_sys_msg(key: Msg, lang: Language) -> Seq<char> {
    match (key, lang) {
        (Msg::LanguagePrompt, _) => "Choose your language / Choisissez votre langue:"@,
        (Msg::LanguageOption1, _) => "1. English"@,
        (Msg::LanguageOption2, _) => "2. Fran\u{00e7}ais"@,
        (Msg::ContinueOrNew, Language::En) => "A save file was found. What would you like to do?"@,
        (
            Msg::ContinueOrNew,
            Language::Fr,
        ) => "Une sauvegarde a \u{00e9}t\u{00e9} trouv\u{00e9}e. Que voulez-vous faire ?"@,
        (Msg::ContinueOption, Language::En) => "1. Continue"@,
        (Msg::ContinueOption, Language::Fr) => "1. Continuer"@,
        (Msg::NewGameOption, Language::En) => "2. New Game"@,
        (Msg::NewGameOption, Language::Fr) => "2. Nouvelle Partie"@,
        (Msg::ElaraTyping, Language::En) => "Elara is typing"@,
        (Msg::ElaraTyping, Language::Fr) => "Elara \u{00e9}crit"@,
        (Msg::ElaraUnavailable, Language::En) => "Elara is not available right now."@,
        (Msg::ElaraUnavailable, Language::Fr) => "Elara n'est pas disponible pour le moment."@,
        (Msg::ElaraBackAround, Language::En) => "She said she'd be back around"@,
        (Msg::ElaraBackAround, Language::Fr) => "Elle a dit qu'elle reviendrait vers"@,
        (Msg::WaitOrQuit, Language::En) => "What would you like to do?"@,
        (Msg::WaitOrQuit, Language::Fr) => "Que voulez-vous faire ?"@,
        (Msg::WaitOption, Language::En) => "1. Wait"@,
        (Msg::WaitOption, Language::Fr) => "1. Attendre"@,
        (Msg::QuitOption, Language::En) => "2. Quit and come back later"@,
        (Msg::QuitOption, Language::Fr) => "2. Quitter et revenir plus tard"@,
        (Msg::SignalLost, Language::En) => "Signal lost..."@,
        (Msg::SignalLost, Language::Fr) => "Signal perdu..."@,
        (Msg::DaySeparator, Language::En) => "Day"@,
        (Msg::DaySeparator, Language::Fr) => "Jour"@,
        (Msg::BacklogHeader, Language::En) => "--- Previous messages ---"@,
        (Msg::BacklogHeader, Language::Fr) => "--- Messages pr\u{00e9}c\u{00e9}dents ---"@,
        (Msg::SessionStart, _) => "Session"@,
        (Msg::EndingReached, Language::En) => "ENDING REACHED"@,
        (Msg::EndingReached, Language::Fr) => "FIN ATTEINTE"@,
        (Msg::DaysSurvived, Language::En) => "Days survived:"@,
        (Msg::DaysSurvived, Language::Fr) => "Jours de survie :"@,
        (Msg::KeyChoices, Language::En) => "Key choices made:"@,
        (Msg::KeyChoices, Language::Fr) => "Choix d\u{00e9}terminants :"@,
        (Msg::PlayAgain, Language::En) => "Play again?"@,
        (Msg::PlayAgain, Language::Fr) => "Rejouer ?"@,
        (Msg::YesOption, Language::En) => "1. Yes"@,
        (Msg::YesOption, Language::Fr) => "1. Oui"@,
        (Msg::NoOption, Language::En) => "2. No"@,
        (Msg::NoOption, Language::Fr) => "2. Non"@,
        (Msg::InvalidChoice, Language::En) => "Invalid choice. Please try again."@,
        (Msg::InvalidChoice, Language::Fr) => "Choix invalide. Veuillez r\u{00e9}essayer."@,
        (Msg::SaveDeleted, Language::En) => "Save file deleted. Starting fresh."@,
        (Msg::SaveDeleted, Language::Fr) => "Sauvegarde supprim\u{00e9}e. Red\u{00e9}marrage."@,
        (
            Msg::IntroRadioCrackle,
            Language::En,
        ) => "* krrzzz... krrzzz... *\n\nA faint signal cuts through the static.\nSomeone is trying to reach you."@,
        (
            Msg::IntroRadioCrackle,
            Language::Fr,
        ) => "* krrzzz... krrzzz... *\n\nUn faible signal perce \u{00e0} travers le gr\u{00e9}sillement.\nQuelqu'un essaie de vous joindre."@,
    }
}

/// Get a localized system message: exactly the table's text for the key and
/// language, never empty.
pub fn sys_msg(key: Msg, lang: Language) -> (r: &'static str)
    ensures
        r@ == spec_sys_msg(key, lang),
        r@.len() > 0,
        spec_sys_msg(Msg::LanguagePrompt, Language::En) == spec_sys_msg(
            Msg::LanguagePrompt,
            Language::Fr,
        ),
{
    proof {
        reveal_strlit("Choose your language / Choisissez votre langue:");
        reveal_strlit("1. English");
        reveal_strlit("2. Fran\u{00e7}ais");
        reveal_strlit("A save file was found. What would you like to do?");
        reveal_strlit("Une sauvegarde a \u{00e9}t\u{00e9} trouv\u{00e9}e. Que voulez-vous faire ?");
        reveal_strlit("1. Continue");
        reveal_strlit("1. Continuer");
        reveal_strlit("2. New Game");
        reveal_strlit("2. Nouvelle Partie");
        reveal_strlit("Elara is typing");
        reveal_strlit("Elara \u{00e9}crit");
        reveal_strlit("Elara is not available right now.");
        reveal_strlit("Elara n'est pas disponible pour le moment.");
        reveal_strlit("She said she'd be back around");
        reveal_strlit("Elle a dit qu'elle reviendrait vers");
        reveal_strlit("What would you like to do?");
        reveal_strlit("Que voulez-vous faire ?");
        reveal_strlit("1. Wait");
        reveal_strlit("1. Attendre");
        reveal_strlit("2. Quit and come back later");
        reveal_strlit("2. Quitter et revenir plus tard");
        reveal_strlit("Signal lost...");
        reveal_strlit("Signal perdu...");
        reveal_strlit("Day");
        reveal_strlit("Jour");
        reveal_strlit("--- Previous messages ---");
        reveal_strlit("--- Messages pr\u{00e9}c\u{00e9}dents ---");
        reveal_strlit("Session");
        reveal_strlit("ENDING REACHED");
        reveal_strlit("FIN ATTEINTE");
        reveal_strlit("Days survived:");
        reveal_strlit("Jours de survie :");
        reveal_strlit("Key choices made:");
        reveal_strlit("Choix d\u{00e9}terminants :");
        reveal_strlit("Play again?");
        reveal_strlit("Rejouer ?");
        reveal_strlit("1. Yes");
        reveal_strlit("1. Oui");
        reveal_strlit("2. No");
        reveal_strlit("2. Non");
        reveal_strlit("Invalid choice. Please try again.");
        reveal_strlit("Choix invalide. Veuillez r\u{00e9}essayer.");
        reveal_strlit("Save file deleted. Starting fresh.");
        reveal_strlit("Sauvegarde supprim\u{00e9}e. Red\u{00e9}marrage.");
        reveal_strlit(
            "* krrzzz... krrzzz... *\n\nA faint signal cuts through the static.\nSomeone is trying to reach you.",
        );
        reveal_strlit(
            "* krrzzz... krrzzz... *\n\nUn faible signal perce \u{00e0} travers le gr\u{00e9}sillement.\nQuelqu'un essaie de vous joindre.",
        );
    }
    match (key, lang) {
        (Msg::LanguagePrompt, _) => "Choose your language / Choisissez votre langue:",
        (Msg::LanguageOption1, _) => "1. English",
        (Msg::LanguageOption2, _) => "2. Fran\u{00e7}ais",
        (Msg::ContinueOrNew, Language::En) => "A save file was found. What would you like to do?",
        (
            Msg::ContinueOrNew,
            Language::Fr,
        ) => "Une sauvegarde a \u{00e9}t\u{00e9} trouv\u{00e9}e. Que voulez-vous faire ?",
        (Msg::ContinueOption, Language::En) => "1. Continue",
        (Msg::ContinueOption, Language::Fr) => "1. Continuer",
        (Msg::NewGameOption, Language::En) => "2. New Game",
        (Msg::NewGameOption, Language::Fr) => "2. Nouvelle Partie",
        (Msg::ElaraTyping, Language::En) => "Elara is typing",
        (Msg::ElaraTyping, Language::Fr) => "Elara \u{00e9}crit",
        (Msg::ElaraUnavailable, Language::En) => "Elara is not available right now.",
        (Msg::ElaraUnavailable, Language::Fr) => "Elara n'est pas disponible pour le moment.",
        (Msg::ElaraBackAround, Language::En) => "She said she'd be back around",
        (Msg::ElaraBackAround, Language::Fr) => "Elle a dit qu'elle reviendrait vers",
        (Msg::WaitOrQuit, Language::En) => "What would you like to do?",
        (Msg::WaitOrQuit, Language::Fr) => "Que voulez-vous faire ?",
        (Msg::WaitOption, Language::En) => "1. Wait",
        (Msg::WaitOption, Language::Fr) => "1. Attendre",
        (Msg::QuitOption, Language::En) => "2. Quit and come back later",
        (Msg::QuitOption, Language::Fr) => "2. Quitter et revenir plus tard",
        (Msg::SignalLost, Language::En) => "Signal lost...",
        (Msg::SignalLost, Language::Fr) => "Signal perdu...",
        (Msg::DaySeparator, Language::En) => "Day",
        (Msg::DaySeparator, Language::Fr) => "Jour",
        (Msg::BacklogHeader, Language::En) => "--- Previous messages ---",
        (Msg::BacklogHeader, Language::Fr) => "--- Messages pr\u{00e9}c\u{00e9}dents ---",
        (Msg::SessionStart, _) => "Session",
        (Msg::EndingReached, Language::En) => "ENDING REACHED",
        (Msg::EndingReached, Language::Fr) => "FIN ATTEINTE",
        (Msg::DaysSurvived, Language::En) => "Days survived:",
        (Msg::DaysSurvived, Language::Fr) => "Jours de survie :",
        (Msg::KeyChoices, Language::En) => "Key choices made:",
        (Msg::KeyChoices, Language::Fr) => "Choix d\u{00e9}terminants :",
        (Msg::PlayAgain, Language::En) => "Play again?",
        (Msg::PlayAgain, Language::Fr) => "Rejouer ?",
        (Msg::YesOption, Language::En) => "1. Yes",
        (Msg::YesOption, Language::Fr) => "1. Oui",
        (Msg::NoOption, Language::En) => "2. No",
        (Msg::NoOption, Language::Fr) => "2. Non",
        (Msg::InvalidChoice, Language::En) => "Invalid choice. Please try again.",
        (Msg::InvalidChoice, Language::Fr) => "Choix invalide. Veuillez r\u{00e9}essayer.",
        (Msg::SaveDeleted, Language::En) => "Save file deleted. Starting fresh.",
        (Msg::SaveDeleted, Language::Fr) => "Sauvegarde supprim\u{00e9}e. Red\u{00e9}marrage.",
        (
            Msg::IntroRadioCrackle,
            Language::En,
        ) => "* krrzzz... krrzzz... *\n\nA faint signal cuts through the static.\nSomeone is trying to reach you.",
        (
            Msg::IntroRadioCrackle,
            Language::Fr,
        ) => "* krrzzz... krrzzz... *\n\nUn faible signal perce \u{00e0} travers le gr\u{00e9}sillement.\nQuelqu'un essaie de vous joindre.",
    }
}

/// Whether `s` spells one of the accepted names of a language, compared
/// after folding upper-case letters (including the cedilla) to lower case.
pub open spec fn spec_parse_language(s: Seq<char>) -> Option<Language> {
    let folded = s.map_values(|c: char| spec_fold_char(c));
    if folded == "en"@ || folded == "english"@ {
        Some(Language::En)
    } else if folded == "fr"@ || folded == "french"@ || folded == "fran\u{e7}ais"@ || folded
        == "francais"@ {
        Some(Language::Fr)
    } else {
        None
    }
}

/// Case folding used by `parse_language`: ASCII upper case to lower case,
/// and the upper-case cedilla to its lower-case form.
pub open spec fn spec_fold_char(c: char) -> char {
    if 65 <= c as u32 <= 90 {
        ((c as u8) + 0x20) as char
    } else if c as u32 == 0xc7 {
        '\u{e7}'
    } else {
        c
    }
}

/// Exec case folding, mirroring `spec_fold_char`.
fn fold_char(c: char) -> (r: char)
    ensures
        r == spec_fold_char(c),
{
    let u = c as u32;
    if 65 <= u && u <= 90 {
        ((c as u8) + 0x20) as char
    } else if u == 0xc7 {
        '\u{e7}'
    } else {
        c
    }
}

/// Whether `s`, folded to lower case, spells exactly `lit`.
fn eq_folded(s: &str, lit: &str) -> (r: bool)
    ensures
        r == (s@.map_values(|c: char| spec_fold_char(c)) == lit@),
{
    let ghost folded = s@.map_values(|c: char| spec_fold_char(c));
    let n = s.unicode_len();
    let m = lit.unicode_len();
    if n != m {
        proof {
            assert(folded.len() == s@.len());
        }
        return false;
    }
    let mut i: usize = 0;
    while i < n
        invariant
            n == s@.len() == lit@.len(),
            folded == s@.map_values(|c: char| spec_fold_char(c)),
            0 <= i <= n,
            forall|j: int| 0 <= j < i ==> folded[j] == lit@[j],
        decreases n - i,
    {
        let c = fold_char(s.get_char(i));
        let l = lit.get_char(i);
        if c != l {
            proof {
                assert(folded[i as int] == spec_fold_char(s@[i as int]));
            }
            return false;
        }
        proof {
            assert(folded[i as int] == spec_fold_char(s@[i as int]));
        }
        i += 1;
    }
    proof {
        assert(folded =~= lit@);
    }
    true
}

/// Parse a language name (as given on a command line), case-insensitively.
pub fn parse_language(s: &str) -> (r: Option<Language>)
    ensures
        r == spec_parse_language(s@),
{
    if eq_folded(s, "en") || eq_folded(s, "english") {
        Some(Language::En)
    } else if eq_folded(s, "fr") || eq_folded(s, "french") || eq_folded(s, "fran\u{e7}ais")
        || eq_folded(s, "francais") {
        Some(Language::Fr)
    } else {
        None
    }
}

} // verus!
