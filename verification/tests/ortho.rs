use kbd_verbs::ortho::{
    parse, text_reads, Consonant, Letter, Manner, Place, ValidChar, Voiceness, Vowel,
};

fn consonant(place: Place, manner: Manner, voiceness: Voiceness, is_labialized: bool) -> Consonant {
    Consonant { place, manner, voiceness, is_labialized }
}

#[test]
fn parses_a_consonant_with_palochka_and_a_vowel() {
    let letters = parse("щIэ").unwrap();
    assert_eq!(
        letters,
        vec![
            Letter::Consonant(consonant(Place::Palatal, Manner::Fricative, Voiceness::Ejective, false)),
            Letter::Vowel(Vowel::A),
        ]
    );
}

#[test]
fn parses_labialized_consonants_as_one_letter() {
    let letters = parse("гъу").unwrap();
    assert_eq!(
        letters,
        vec![Letter::Consonant(consonant(Place::Uvular, Manner::Fricative, Voiceness::Voiced, true))]
    );
    let letters = parse("кхъу").unwrap();
    assert_eq!(
        letters,
        vec![Letter::Consonant(consonant(Place::Uvular, Manner::Affricative, Voiceness::Voiceless, true))]
    );
}

#[test]
fn parses_digraphs_and_combined_letters() {
    let letters = parse("дзя").unwrap();
    assert_eq!(letters.len(), 2);
    assert_eq!(
        letters[0],
        Letter::Consonant(consonant(Place::Alveolar, Manner::Affricative, Voiceness::Voiced, false))
    );
    assert!(letters[1].is_combi());
    assert_eq!(letters[1].to_string(), "я");
    let letters = parse("ио").unwrap();
    assert_eq!(letters.len(), 2);
    assert!(letters.iter().all(|l| l.is_vowel_or_combi()));
}

#[test]
fn parse_refuses_the_first_unknown_character() {
    assert_eq!(parse("аbc").unwrap_err(), "invalid character: b");
    assert_eq!(parse("эюx").unwrap_err(), "invalid character: x");
}

#[test]
fn parse_of_nothing_is_nothing() {
    assert!(parse("").unwrap().is_empty());
}

#[test]
fn vowels() {
    assert_eq!(Vowel::try_from("а").unwrap(), Vowel::AA);
    assert_eq!(Vowel::try_from("э").unwrap(), Vowel::A);
    assert_eq!(Vowel::try_from("ы").unwrap(), Vowel::Y);
    assert_eq!(Vowel::try_from("аа").unwrap_err(), "аа is too long or too short.");
    assert_eq!(Vowel::try_from("о").unwrap_err(), "о can not be transfromed into a `Vowel`");
    assert_eq!(Vowel::Y.to_string(), "ы");
    assert_eq!(Vowel::AA.to_char(), 'а');
}

#[test]
fn consonants_from_text() {
    assert_eq!(
        Consonant::try_from("лъ").unwrap(),
        consonant(Place::Lateral, Manner::Fricative, Voiceness::Voiceless, false)
    );
    assert_eq!(
        Consonant::try_from("кхъу").unwrap(),
        consonant(Place::Uvular, Manner::Affricative, Voiceness::Voiceless, true)
    );
    assert_eq!(Consonant::try_from("abc").unwrap_err(), "Unknown consonant: abc");
}

#[test]
fn consonants_as_text() {
    assert_eq!(
        consonant(Place::Palatal, Manner::Fricative, Voiceness::Voiced, false).to_str().unwrap(),
        "жь"
    );
    // The nasals are written the other way round.
    assert_eq!(consonant(Place::Labial, Manner::Nasal, Voiceness::Voiced, false).to_str().unwrap(), "н");
    assert_eq!(
        consonant(Place::Labial, Manner::Approximant, Voiceness::Voiced, false).to_string(),
        "у"
    );
}

#[test]
fn consonants_without_a_letter() {
    assert_eq!(
        consonant(Place::Labial, Manner::Approximant, Voiceness::Voiceless, false).to_str().unwrap_err(),
        "This is WRONG!!!"
    );
    assert_eq!(
        consonant(Place::Velar, Manner::Plosive, Voiceness::Voiced, false).to_str().unwrap_err(),
        "kabardian doesn't have a voiced velar plosive, did you mean voiced velar fricative?"
    );
    assert_eq!(
        consonant(Place::Alveolar, Manner::Fricative, Voiceness::Voiced, true).to_str().unwrap_err(),
        ""
    );
    assert_eq!(
        consonant(Place::Glottal, Manner::Nasal, Voiceness::Ejective, false).to_str().unwrap_err(),
        "(Glottal, Nasal, Ejective, false)"
    );
}

#[test]
fn consonant_texts_read_and_written_back_are_unchanged() {
    let texts = [
        "п", "б", "пI", "т", "д", "тI", "к", "гу", "къ", "I", "Iу", "ц", "дз", "цI", "ч", "дж",
        "кI", "кхъ", "кхъу", "ф", "в", "фI", "с", "з", "лъ", "л", "лI", "ш", "ж", "щ", "жь", "щI",
        "х", "г", "хъ", "гъ", "хь", "ху", "хъу", "й", "у", "р",
    ];
    for text in texts {
        let c = Consonant::try_from(text).unwrap();
        assert_eq!(c.to_str().unwrap(), text);
    }
}

#[test]
fn consonant_kinds() {
    let m = Consonant::try_from("м").unwrap();
    assert!(m.is_nasal());
    assert!(!m.is_trill());
    assert!(Consonant::try_from("р").unwrap().is_trill());
    assert!(Consonant::try_from("у").unwrap().is_labial_approximant_voice());
    assert!(Consonant::try_from("б").unwrap().is_labial_plosive());
    assert!(Consonant::try_from("къ").unwrap().needs_epenthetic_y());
    assert!(!Consonant::try_from("с").unwrap().needs_epenthetic_y());
    assert!(Consonant::try_from("к").unwrap().needs_epenthetic_y());
    assert!(!Consonant::try_from("х").unwrap().needs_epenthetic_y());
    assert!(!Consonant::try_from("I").unwrap().needs_epenthetic_y());
    let t = Consonant::try_from("т").unwrap();
    assert!(t.is_place_and_manner(Place::Alveolar, Manner::Plosive));
    assert!(t.is_place(Place::Alveolar));
    assert!(t.is_manner(Manner::Plosive));
}

#[test]
fn letters() {
    let letters = parse("дэи").unwrap();
    assert!(letters[0].is_consonant());
    assert!(letters[0].is_consonant_or_combi());
    assert!(letters[1].is_vowel());
    assert!(letters[2].is_combi());
    assert_eq!(letters[0].voiceness(), Voiceness::Voiced);
    assert_eq!(letters[0].to_string(), "д");
    assert_eq!(letters[1].to_string(), "э");
    assert_eq!(letters[2].to_string(), "и");
}

#[test]
fn alphabet_characters() {
    assert_eq!(ValidChar::try_from('ў').unwrap(), ValidChar::U);
    assert_eq!(ValidChar::try_from('ў').unwrap().to_char(), 'у');
    assert_eq!(ValidChar::try_from('щ').unwrap().to_char(), 'щ');
    assert_eq!(ValidChar::try_from('x').unwrap_err(), "x is not a valid character");
    for c in "аэыеиоуйямнлрфвсзшщжхцчпбтдкгьъI".chars() {
        assert_eq!(ValidChar::try_from(c).unwrap().to_char(), c);
    }
}

#[test]
fn texts_that_read() {
    assert!(text_reads("щIэ"));
    assert!(text_reads("кхъуэ"));
    assert!(text_reads(""));
    assert!(!text_reads("ъ"));
    assert!(!text_reads("юэ"));
    assert!(!text_reads("abc"));
}

#[test]
fn combined_letters_are_a_consonant_and_a_vowel() {
    for c in ["я", "е", "и", "о", "у"] {
        let letters = parse(c).unwrap();
        assert_eq!(letters.len(), 1);
        assert!(letters[0].is_combi());
        assert_eq!(letters[0].to_string(), c);
    }
}
