use eshara::endings::{ending_description, ending_for_key, ending_title, EndingType};
use eshara::i18n::Language;

#[test]
fn test_all_endings_have_titles() {
    let endings = vec![
        EndingType::NewDawn,
        EndingType::TheSignal,
        EndingType::Static,
        EndingType::GoneDark,
        EndingType::TheEsharaWins,
    ];
    for ending in endings {
        let title = ending_title(&ending);
        assert!(!title.get(Language::En).is_empty());
        assert!(!title.get(Language::Fr).is_empty());
        let desc = ending_description(&ending);
        assert!(!desc.get(Language::En).is_empty());
        assert!(!desc.get(Language::Fr).is_empty());
    }
}

#[test]
fn test_ending_for_key() {
    assert_eq!(ending_for_key("new_dawn"), Some(EndingType::NewDawn));
    assert_eq!(ending_for_key("signal"), Some(EndingType::TheSignal));
    assert_eq!(ending_for_key("static"), Some(EndingType::Static));
    assert_eq!(ending_for_key("gone_dark"), Some(EndingType::GoneDark));
    assert_eq!(ending_for_key("eshara_wins"), Some(EndingType::TheEsharaWins));
    assert_eq!(ending_for_key("happily_ever_after"), None);
}

#[test]
fn test_ending_titles_exact() {
    let title = ending_title(&EndingType::NewDawn);
    assert_eq!(title.get(Language::En), "New Dawn");
    assert_eq!(title.get(Language::Fr), "Aube Nouvelle");
    let title = ending_title(&EndingType::GoneDark);
    assert_eq!(title.get(Language::En), "Gone Dark");
}
