//! The endings: their keys, localized titles and descriptions.

use vstd::prelude::*;

use crate::i18n::LocalizedString;
use crate::text::str_eq;

verus! {

/// The five ways the story can resolve.
#[derive(Clone, Copy, Debug, PartialEq, Eq, Structural)]
pub enum EndingType {
    NewDawn,
    TheSignal,
    Static,
    GoneDark,
    TheEsharaWins,
}

/// The ending named by a node's ending key, if the key is known.
pub open spec fn spec_ending_for_key(key: Seq<char>) -> Option<EndingType> {
    if key == "new_dawn"@ {
        Some(EndingType::NewDawn)
    } else if key == "signal"@ {
        Some(EndingType::TheSignal)
    } else if key == "static"@ {
        Some(EndingType::Static)
    } else if key == "gone_dark"@ {
        Some(EndingType::GoneDark)
    } else if key == "eshara_wins"@ {
        Some(EndingType::TheEsharaWins)
    } else {
        None
    }
}

/// Resolve an ending key to its ending. An unknown key gives `None`; the
/// caller renders a fallback rather than crashing, since a missing key is a
/// configuration mistake, not a runtime error.
pub fn ending_for_key(key: &str) -> (r: Option<EndingType>)
    ensures
        r == spec_ending_for_key(key@),
{
    if str_eq(key, "new_dawn") {
        Some(EndingType::NewDawn)
    } else if str_eq(key, "signal") {
        Some(EndingType::TheSignal)
    } else if str_eq(key, "static") {
        Some(EndingType::Static)
    } else if str_eq(key, "gone_dark") {
        Some(EndingType::GoneDark)
    } else if str_eq(key, "eshara_wins") {
        Some(EndingType::TheEsharaWins)
    } else {
        None
    }
}

/// The title table: the exact English and French title of each ending.
pub open spec fn spec_ending_title(ending: EndingType) -> (Seq<char>, Seq<char>) {
    match ending {
        EndingType::NewDawn => ("New Dawn"@, "Aube Nouvelle"@),
        EndingType::TheSignal => ("The Signal"@, "Le Signal"@),
        EndingType::Static => ("Static"@, "Gr\u{e9}sillement"@),
        EndingType::GoneDark => ("Gone Dark"@, "Signal Perdu"@),
        EndingType::TheEsharaWins => ("The Eshara Wins"@, "L'Eshara Triomphe"@),
    }
}

/// Get the localized title for an ending: exactly the table's texts, both
/// non-empty.
pub fn ending_title(ending: &EndingType) -> (r: LocalizedString)
    ensures
        r.en@ == spec_ending_title(*ending).0,
        r.fr@ == spec_ending_title(*ending).1,
        r.en@.len() > 0,
        r.fr@.len() > 0,
{
    proof {
        reveal_strlit("New Dawn");
        reveal_strlit("Aube Nouvelle");
        reveal_strlit("The Signal");
        reveal_strlit("Le Signal");
        reveal_strlit("Static");
        reveal_strlit("Gr\u{e9}sillement");
        reveal_strlit("Gone Dark");
        reveal_strlit("Signal Perdu");
        reveal_strlit("The Eshara Wins");
        reveal_strlit("L'Eshara Triomphe");
    }
    match ending {
        EndingType::NewDawn => LocalizedString::new("New Dawn", "Aube Nouvelle"),
        EndingType::TheSignal => LocalizedString::new("The Signal", "Le Signal"),
        EndingType::Static => LocalizedString::new("Static", "Gr\u{e9}sillement"),
        EndingType::GoneDark => LocalizedString::new("Gone Dark", "Signal Perdu"),
        EndingType::TheEsharaWins => LocalizedString::new(
            "The Eshara Wins",
            "L'Eshara Triomphe",
        ),
    }
}

/// The description table: the exact English and French description of each
/// ending.
pub open spec fn spec_ending_description(ending: EndingType) -> (Seq<char>, Seq<char>) {
    match ending {
        EndingType::NewDawn => (
            "Elara found the safe zone. Your guidance saved her. There is hope."@,
            "Elara a trouv\u{e9} la zone s\u{fb}re. Tes conseils l'ont sauv\u{e9}e. Il y a de l'espoir."@,
        ),
        EndingType::TheSignal => (
            "Elara managed to reverse the Eshara, but at great personal cost."@,
            "Elara a r\u{e9}ussi \u{e0} inverser l'Eshara, mais \u{e0} un prix terrible."@,
        ),
        EndingType::Static => (
            "Elara survived, but the radio broke. Her last words: \"Thank you. For everything. I'll be okay. I think.\""@,
            "Elara a surv\u{e9}cu, mais la radio a l\u{e2}ch\u{e9}. Ses derniers mots : \u{ab} Merci. Pour tout. \u{c7}a va aller. Je crois. \u{bb}"@,
        ),
        EndingType::GoneDark => (
            "Elara didn't make it. The radio went silent."@,
            "Elara n'a pas surv\u{e9}cu. La radio s'est tue."@,
        ),
        EndingType::TheEsharaWins => (
            "Elara was consumed by the phenomena. Her last messages became... wrong."@,
            "Elara a \u{e9}t\u{e9} absorb\u{e9}e par les ph\u{e9}nom\u{e8}nes. Ses derniers messages sont devenus... \u{e9}tranges."@,
        ),
    }
}

/// Get the localized description for an ending: exactly the table's texts,
/// both non-empty.
pub fn ending_description(ending: &EndingType) -> (r: LocalizedString)
    ensures
        r.en@ == spec_ending_description(*ending).0,
        r.fr@ == spec_ending_description(*ending).1,
        r.en@.len() > 0,
        r.fr@.len() > 0,
{
    proof {
        reveal_strlit("Elara found the safe zone. Your guidance saved her. There is hope.");
        reveal_strlit(
            "Elara a trouv\u{e9} la zone s\u{fb}re. Tes conseils l'ont sauv\u{e9}e. Il y a de l'espoir.",
        );
        reveal_strlit("Elara managed to reverse the Eshara, but at great personal cost.");
        reveal_strlit(
            "Elara a r\u{e9}ussi \u{e0} inverser l'Eshara, mais \u{e0} un prix terrible.",
        );
        reveal_strlit(
            "Elara survived, but the radio broke. Her last words: \"Thank you. For everything. I'll be okay. I think.\"",
        );
        reveal_strlit(
            "Elara a surv\u{e9}cu, mais la radio a l\u{e2}ch\u{e9}. Ses derniers mots : \u{ab} Merci. Pour tout. \u{c7}a va aller. Je crois. \u{bb}",
        );
        reveal_strlit("Elara didn't make it. The radio went silent.");
        reveal_strlit("Elara n'a pas surv\u{e9}cu. La radio s'est tue.");
        reveal_strlit("Elara was consumed by the phenomena. Her last messages became... wrong.");
        reveal_strlit(
            "Elara a \u{e9}t\u{e9} absorb\u{e9}e par les ph\u{e9}nom\u{e8}nes. Ses derniers messages sont devenus... \u{e9}tranges.",
        );
    }
    match ending {
        EndingType::NewDawn => LocalizedString::new(
            "Elara found the safe zone. Your guidance saved her. There is hope.",
            "Elara a trouv\u{e9} la zone s\u{fb}re. Tes conseils l'ont sauv\u{e9}e. Il y a de l'espoir.",
        ),
        EndingType::TheSignal => LocalizedString::new(
            "Elara managed to reverse the Eshara, but at great personal cost.",
            "Elara a r\u{e9}ussi \u{e0} inverser l'Eshara, mais \u{e0} un prix terrible.",
        ),
        EndingType::Static => LocalizedString::new(
            "Elara survived, but the radio broke. Her last words: \"Thank you. For everything. I'll be okay. I think.\"",
            "Elara a surv\u{e9}cu, mais la radio a l\u{e2}ch\u{e9}. Ses derniers mots : \u{ab} Merci. Pour tout. \u{c7}a va aller. Je crois. \u{bb}",
        ),
        EndingType::GoneDark => LocalizedString::new(
            "Elara didn't make it. The radio went silent.",
            "Elara n'a pas surv\u{e9}cu. La radio s'est tue.",
        ),
        EndingType::TheEsharaWins => LocalizedString::new(
            "Elara was consumed by the phenomena. Her last messages became... wrong.",
            "Elara a \u{e9}t\u{e9} absorb\u{e9}e par les ph\u{e9}nom\u{e8}nes. Ses derniers messages sont devenus... \u{e9}tranges.",
        ),
    }
}

} // verus!
