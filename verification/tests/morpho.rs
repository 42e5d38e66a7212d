use kbd_verbs::evaluation::{evaluate_morphemes, morphemes_to_string, try_evaluate_morphemes};
use kbd_verbs::morpho::{
    new_concessive, new_conditional, new_indicative, new_interrogative, new_masdar,
    new_subjunctive, Case, Morpheme, Number, Person, PersonMarker, Polarity, Preverb,
    PreverbSoundForm, Pronoun, Tense, Transitivity,
};
use kbd_verbs::wiki::template::VerbStem;

#[test]
fn preverbs() {
    assert_eq!(Preverb::try_from("").unwrap_err(), "Preverb must not be empty");
    let p = Preverb::try_from("дэ").unwrap();
    assert_eq!(p.as_str(), "дэ");
    assert_eq!(p.form(&PreverbSoundForm::Full), "дэ");
    assert_eq!(p.form(&PreverbSoundForm::Reduced), "ды");
    assert_eq!(p.form(&PreverbSoundForm::BeforeVowel), "д");
    assert_eq!(p.duplicate(), p);
    let last = p.last_consonant().unwrap();
    assert_eq!(last.to_string(), "д");
    assert!(p.first_letter().is_consonant());
}

#[test]
fn cases() {
    assert_eq!(Case::try_from("р").unwrap(), Case::Absolutive);
    assert_eq!(Case::try_from("м").unwrap(), Case::Ergative);
    assert_eq!(Case::try_from("x").unwrap_err(), "Invalid case: x");
    assert_eq!(Case::variants(), vec![Case::Absolutive, Case::Ergative]);
}

#[test]
fn person_markers_from_text() {
    assert_eq!(
        PersonMarker::try_from("с").unwrap(),
        PersonMarker::new(Person::First, Number::Singular, Case::Ergative)
    );
    assert_eq!(
        PersonMarker::try_from("п").unwrap(),
        PersonMarker::new(Person::Second, Number::Singular, Case::Ergative)
    );
    assert_eq!(PersonMarker::try_from("").unwrap_err(), "Empty string");
    // The limit counts bytes, so no two-letter marker is read.
    assert_eq!(
        PersonMarker::try_from("сы").unwrap_err(),
        "String too long: сы. A person marker can only have up to 2 chars"
    );
    assert_eq!(PersonMarker::try_from("ab").unwrap_err(), "Invalid person marker: ab");
    assert_eq!(PersonMarker::try_from("ж").unwrap_err(), "Invalid person marker: ж");
}

#[test]
fn person_markers_read_back_from_their_text() {
    for number in Number::variants() {
        for person in Person::variants() {
            let m = PersonMarker::new(person, number, Case::Ergative);
            assert_eq!(PersonMarker::try_from(m.base_string().as_str()).unwrap(), m);
        }
    }
    let m = PersonMarker::new(Person::Second, Number::Singular, Case::Absolutive);
    assert_eq!(PersonMarker::try_from(m.base_string().as_str()).unwrap(), m);
}

#[test]
fn person_marker_forms() {
    let first = PersonMarker::new(Person::First, Number::Singular, Case::Absolutive);
    assert_eq!(first.base_string(), "сы");
    assert_eq!(first.as_voiced(), "зы");
    assert_eq!(first.as_voiceless(), "сы");
    assert_eq!(first.as_after_consonant(), "сы");
    assert!(first.is_absolutive());
    assert!(!first.is_ergative());
    let third = PersonMarker::new(Person::Third, Number::Plural, Case::Ergative);
    assert_eq!(third.base_string(), "я");
    assert!(third.is_third());
    assert!(third.is_third_ergative());
    assert!(third.is_third_plural_ergative());
    assert!(!third.is_third_singular_ergative());
    let second = PersonMarker::new(Person::Second, Number::Singular, Case::Ergative);
    assert!(second.is_second_singular());
    assert_eq!(second.base_string(), "б");
}

#[test]
fn pronouns() {
    let p = Pronoun::new(Case::Ergative, Number::Plural, Person::Third);
    assert_eq!(p.to_string(), "абыхэм");
    assert_eq!(p.as_str(), "абыхэм");
    let texts: Vec<String> = Pronoun::variants_case(&Case::Absolutive)
        .iter()
        .map(|p| p.to_string())
        .collect();
    assert_eq!(texts, ["сэ", "уэ", "ар", "дэ", "фэ", "ахэр"]);
    let texts: Vec<String> = Pronoun::variants_person(&Person::Second)
        .iter()
        .map(|p| p.to_string())
        .collect();
    assert_eq!(texts, ["уэ", "уэ", "фэ", "фэ"]);
}

#[test]
fn categories() {
    assert_eq!(Tense::variants().len(), 10);
    assert_eq!(Tense::variants_iter().count(), 10);
    assert_eq!(Polarity::variants(), vec![Polarity::Positive, Polarity::Negative]);
    assert_eq!(Polarity::Negative.to_string_prefix(), "мы");
    assert_eq!(Polarity::Negative.to_string_suffix(), "къым");
    assert_eq!(Polarity::Positive.to_string_prefix(), "");
    assert_eq!(Number::variants_iter().count(), 2);
    assert_eq!(Person::variants_iter().count(), 3);
    assert_eq!(Transitivity::Transitive.subject_case(), Case::Ergative);
    assert_eq!(Transitivity::Intransitive.subject_case(), Case::Absolutive);
    assert_eq!(Transitivity::Transitive.direct_object_case(), Some(Case::Absolutive));
    assert_eq!(Transitivity::Intransitive.direct_object_case(), None);
}

#[test]
fn morphemes() {
    let m = Morpheme::from("мы");
    assert_eq!(m.to_string(), "мы");
    assert!(matches!(m, Morpheme::NegationPrefix));
    let g = Morpheme::new_generic("н");
    assert!(g.is_generic_certain("н"));
    assert!(!g.is_generic_certain("о"));
    assert_eq!(Morpheme::new_imperative_raj().to_string(), "ре");
    assert_eq!(Morpheme::new_negative_prefix().to_string(), "мы");
    let marker = PersonMarker::new(Person::First, Number::Plural, Case::Absolutive);
    assert_eq!(Morpheme::new_person_marker(&marker).to_string(), "ды");
    let preverb = Preverb::try_from("хэ").unwrap();
    assert_eq!(Morpheme::new_preverb(&preverb).to_string(), "хэ");
    assert!(Morpheme::new_preverb(&preverb).first_letter().unwrap().is_consonant());
    assert!(Morpheme::new_preverb(&preverb).last_latter().unwrap().is_vowel());
    assert_eq!(Morpheme::new_preverb(&preverb).to_letters().len(), 2);
}

#[test]
fn morphemes_joined() {
    let stem = VerbStem::new("в", Transitivity::Intransitive);
    let morphemes = new_masdar(&Polarity::Negative, &None, &stem);
    assert_eq!(morphemes_to_string(&morphemes), "мы-{{{псалъэпкъ}}}-н");
}

#[test]
fn indicative_forms() {
    let stem = VerbStem::new("в", Transitivity::Intransitive);
    let marker = PersonMarker::new(Person::First, Number::Singular, Case::Absolutive);
    let morphemes =
        new_indicative(&Polarity::Positive, &Tense::Present, &None, &stem, &marker, &None);
    assert_eq!(morphemes_to_string(&morphemes), "сы-о-{{{псалъэпкъ}}}-р");
    let morphemes =
        new_indicative(&Polarity::Negative, &Tense::Perfect, &None, &stem, &marker, &None);
    assert_eq!(morphemes_to_string(&morphemes), "сы-{{{псалъэпкъ}}}-акъым");
    let morphemes =
        new_interrogative(&Polarity::Positive, &Tense::Present, &None, &stem, &marker, &None);
    assert!(evaluate_morphemes(&morphemes).starts_with("сы"));
}

#[test]
fn conditional_subjunctive_and_concessive_forms() {
    let stem = VerbStem::new("в", Transitivity::Intransitive);
    let marker = PersonMarker::new(Person::Second, Number::Plural, Case::Absolutive);
    let morphemes =
        new_conditional(&Polarity::Positive, &Tense::Future1, &None, &stem, &marker, &None);
    assert_eq!(morphemes_to_string(&morphemes), "фы-{{{псалъэпкъ}}}-н-мэ");
    let morphemes =
        new_subjunctive(&Polarity::Positive, &Tense::Future1, &None, &stem, &marker, &None);
    assert_eq!(morphemes_to_string(&morphemes), "фы-{{{псалъэпкъ}}}-нт");
    let morphemes =
        new_concessive(&Polarity::Positive, &Tense::Present, &None, &stem, &marker, &None);
    assert!(morphemes_to_string(&morphemes).starts_with("фы-{{{псалъэпкъ}}}"));
}

#[test]
fn forms_that_cannot_be_written() {
    let stem = VerbStem::new("в", Transitivity::Intransitive);
    let preverb = Preverb::try_from("ъ").unwrap();
    let morphemes = new_masdar(&Polarity::Positive, &Some(preverb), &stem);
    assert_eq!(try_evaluate_morphemes(&morphemes), None);
    let morphemes = new_masdar(&Polarity::Positive, &None, &stem);
    assert_eq!(try_evaluate_morphemes(&morphemes), Some("{{{псалъэпкъ}}}ын".to_owned()));
}
