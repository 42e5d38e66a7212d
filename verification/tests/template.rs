use kbd_verbs::morpho::{Preverb, Transitivity};
use kbd_verbs::template as kinds_reading;
use kbd_verbs::wiki::template::{
    split_and_combine, FirstConsonant, LastConsonant, TemplateDesc, ThematicVowel, VerbStem,
    VowelKind,
};

#[test]
fn test_split_and_combine() {
    let combined_chars = vec!["жь", "эа"];

    let input = "жь0й";
    let result = split_and_combine(input, &combined_chars);
    assert_eq!(result, vec!["жь", "0", "й"]);

    let input = "дблэа";
    let result = split_and_combine(input, &combined_chars);
    assert_eq!(result, vec!["д", "б", "л", "эа"]);
}

#[test]
fn split_and_combine_takes_the_first_combination_that_fits() {
    let combined_chars = vec!["аб", "абв"];
    let result = split_and_combine("абвг", &combined_chars);
    assert_eq!(result, vec!["аб", "в", "г"]);
    let joined: String = result.concat();
    assert_eq!(joined, "абвг");
}

#[test]
fn split_and_combine_of_nothing_is_nothing() {
    let combined_chars = vec!["жь"];
    let result = split_and_combine("", &combined_chars);
    assert!(result.is_empty());
}

#[test]
fn reads_an_intransitive_template() {
    let desc = TemplateDesc::try_from("спр-лъэмыӏ-0-0д-э").unwrap();
    assert_eq!(desc.transitivity, Transitivity::Intransitive);
    assert!(desc.preverb.is_none());
    assert_eq!(desc.stem.first_consonant, None);
    assert_eq!(desc.stem.vowel, VowelKind::Without);
    assert_eq!(desc.stem.last_consonant, LastConsonant::Ordinary);
    assert!(!desc.stem.is_alternating);
    assert_eq!(desc.stem.thematic_vowel, ThematicVowel::A);
    assert_eq!(desc.stem.string, "0д");
    assert_eq!(desc.original_string, "спр-лъэмыӏ-0-0д-э");
}

#[test]
fn reads_a_transitive_template() {
    let desc = TemplateDesc::try_from("спр-лъэӏ-0-жь0д-ы").unwrap();
    assert_eq!(desc.transitivity, Transitivity::Transitive);
    assert_eq!(desc.stem.first_consonant, Some(FirstConsonant::Voiced));
    assert_eq!(desc.stem.vowel, VowelKind::Without);
    assert_eq!(desc.stem.last_consonant, LastConsonant::Ordinary);
    assert_eq!(desc.stem.thematic_vowel, ThematicVowel::Y);

    let desc = TemplateDesc::try_from("спр-лъэӏ-0-убт-ы").unwrap();
    assert_eq!(desc.stem.first_consonant, Some(FirstConsonant::Wy));
    assert_eq!(desc.stem.vowel, VowelKind::With);
    assert_eq!(desc.stem.last_consonant, LastConsonant::Velar);
}

#[test]
fn reads_a_preverb() {
    let desc = TemplateDesc::try_from("спр-лъэмыӏ-дэ-бл-ы").unwrap();
    assert_eq!(desc.preverb.as_ref().map(|p| p.as_str().to_owned()), Some("дэ".to_owned()));
    assert_eq!(desc.stem.last_consonant, LastConsonant::Labial);
}

#[test]
fn reads_an_alternating_root_form() {
    let desc = TemplateDesc::try_from("спр-лъэӏ-0-дблэа-ы").unwrap();
    assert_eq!(desc.stem.first_consonant, Some(FirstConsonant::Unvoiced));
    assert_eq!(desc.stem.vowel, VowelKind::With);
    assert_eq!(desc.stem.last_consonant, LastConsonant::Labial);
    assert!(desc.stem.is_alternating);
    // The alternation mark is not written back.
    assert_eq!(desc.try_to_string().unwrap(), "спр-лъэӏ-0-дбл-ы");
}

#[test]
fn template_strings_read_and_written_back_are_unchanged() {
    let templates = [
        "спр-лъэмыӏ-0-0д-э",
        "спр-лъэмыӏ-0-0д-ы",
        "спр-лъэмыӏ-0-0л-ы",
        "спр-лъэмыӏ-0-0т-ы",
        "спр-лъэмыӏ-0-бд-э",
        "спр-лъэмыӏ-0-бт-ы",
        "спр-лъэӏ-0-дбд-ы",
        "спр-лъэӏ-0-д0д-э",
        "спр-лъэӏ-0-убт-ы",
        "спр-лъэӏ-0-д0д-ы",
        "спр-лъэӏ-0-д0л-ы",
        "спр-лъэмыӏ-е-бд-ы",
    ];
    for template in templates {
        let desc = TemplateDesc::try_from(template).unwrap();
        assert_eq!(desc.try_to_string().unwrap(), template);
    }
}

#[test]
fn refuses_a_template_without_its_prefix() {
    let err = TemplateDesc::try_from("абв-лъэмыӏ-0-0д-э").unwrap_err();
    assert_eq!(err, "The string must start with 'спр', instead it starts with абв");
}

#[test]
fn refuses_a_template_with_too_few_segments() {
    let err = TemplateDesc::try_from("спр-лъэмыӏ-0-0д").unwrap_err();
    assert_eq!(err, "The string must have 5 segments, instead it has 4");
    let err = TemplateDesc::try_from("спр-лъэмыӏ-0-0д-э-ы-ы-ы-ы-ы-ы").unwrap_err();
    assert_eq!(err, "The string must have 5 segments, instead it has 11");
}

#[test]
fn refuses_a_first_consonant_that_does_not_fit_the_transitivity() {
    let err = TemplateDesc::try_from("спр-лъэмыӏ-0-д0д-ы").unwrap_err();
    assert_eq!(
        err,
        "The first consonant is not allowed to be Some if the verb is intransitive."
    );
    let err = TemplateDesc::try_from("спр-лъэӏ-0-0д-ы").unwrap_err();
    assert_eq!(
        err,
        "The first consonant is not allowed to be None if the verb is transitive."
    );
}

#[test]
fn writing_an_intransitive_verb_with_a_first_consonant_fails() {
    let desc = TemplateDesc {
        transitivity: Transitivity::Intransitive,
        preverb: Some(Preverb::try_from("дэ").unwrap()),
        stem: VerbStem {
            first_consonant: Some(FirstConsonant::Unvoiced),
            vowel: VowelKind::Without,
            last_consonant: LastConsonant::Ordinary,
            is_alternating: false,
            thematic_vowel: ThematicVowel::Y,
            string: "д0д".to_owned(),
        },
        original_string: "спр-лъэмыӏ-дэ-д0д-ы".to_owned(),
    };
    let err = desc.try_to_string().unwrap_err();
    assert!(err.starts_with("Intransitive verbs cannot have first consonant. Got TemplateDesc {"));
}

#[test]
fn writes_a_description_with_every_kind_of_letter() {
    let desc = TemplateDesc {
        transitivity: Transitivity::Transitive,
        preverb: Some(Preverb::try_from("хэ").unwrap()),
        stem: VerbStem {
            first_consonant: Some(FirstConsonant::Voiced),
            vowel: VowelKind::Alternating,
            last_consonant: LastConsonant::Yy,
            is_alternating: true,
            thematic_vowel: ThematicVowel::A,
            string: String::new(),
        },
        original_string: String::new(),
    };
    assert_eq!(desc.try_to_string().unwrap(), "спр-лъэӏ-хэ-жьбйэа-э");
}

#[test]
fn verb_stem_of_a_text() {
    // "гъу" is a single, labialized consonant.
    let stem = VerbStem::new("гъу", Transitivity::Intransitive);
    assert_eq!(stem.first_consonant, None);
    assert_eq!(stem.vowel, VowelKind::Without);
    assert_eq!(stem.last_consonant, LastConsonant::Labial);
    assert_eq!(stem.thematic_vowel, ThematicVowel::Y);

    let stem = VerbStem::new("щIэ", Transitivity::Transitive);
    assert_eq!(stem.first_consonant, Some(FirstConsonant::Unvoiced));
    assert_eq!(stem.thematic_vowel, ThematicVowel::A);
    assert_eq!(stem.vowel, VowelKind::With);
}

#[test]
fn kinds_reading_of_template_strings() {
    let desc = kinds_reading::create_template_from_string("спр-лъэмыӏ-0-бд-э".to_owned()).unwrap();
    assert_eq!(desc.transitivity, Transitivity::Intransitive);
    assert_eq!(desc.stem.first_consonant, kinds_reading::ConsonantKind::Ordinary);
    assert_eq!(desc.stem.thematic_vowel, kinds_reading::ThematicVowel::A);
    assert_eq!(desc.original_string, "спр-лъэмыӏ-0-бд-э");

    let desc = kinds_reading::create_template_from_string("спр-лъэӏ-0-жь0д-ы".to_owned()).unwrap();
    assert_eq!(desc.transitivity, Transitivity::Transitive);
    assert_eq!(desc.stem.first_consonant, kinds_reading::ConsonantKind::Voiced);
    assert_eq!(desc.stem.thematic_vowel, kinds_reading::ThematicVowel::Y);
    assert_eq!(
        kinds_reading::treat_thematic_vowel(&desc.stem.thematic_vowel, &desc.stem),
        "ы"
    );

    let desc = kinds_reading::create_template_from_string("спр-лъэмыӏ-0-0л-ы".to_owned()).unwrap();
    assert_eq!(
        kinds_reading::treat_thematic_vowel(&desc.stem.thematic_vowel, &desc.stem),
        ""
    );
}

#[test]
fn kinds_reading_refuses_what_it_does_not_know() {
    assert!(kinds_reading::create_template_from_string("абв-лъэмыӏ-0-0д-э".to_owned()).is_none());
    assert!(kinds_reading::create_template_from_string("спр-лъэ-0-0д-э".to_owned()).is_none());
    assert!(kinds_reading::create_template_from_string("спр-лъэмыӏ-0-0д-а".to_owned()).is_none());
}

#[test]
fn thematic_vowels_as_text() {
    assert_eq!(ThematicVowel::A.to_string(), "э");
    assert_eq!(ThematicVowel::Y.to_string(), "ы");
    assert_eq!(kinds_reading::ThematicVowel::A.to_string(), "э");
}

#[test]
fn a_description_written_and_read_back_is_unchanged() {
    let desc = TemplateDesc {
        transitivity: Transitivity::Transitive,
        preverb: Some(Preverb::try_from("хэ").unwrap()),
        stem: VerbStem {
            first_consonant: Some(FirstConsonant::Voiced),
            vowel: VowelKind::With,
            last_consonant: LastConsonant::Velar,
            is_alternating: false,
            thematic_vowel: ThematicVowel::A,
            string: "жьбт".to_owned(),
        },
        original_string: String::new(),
    };
    let text = desc.clone().try_to_string().unwrap();
    let back = TemplateDesc::try_from(text.as_str()).unwrap();
    assert_eq!(back.transitivity, desc.transitivity);
    assert_eq!(back.preverb, desc.preverb);
    assert_eq!(back.stem, desc.stem);
    assert_eq!(back.original_string, text);
}

#[test]
fn reads_a_root_in_jot() {
    let desc = TemplateDesc::try_from("спр-лъэмыӏ-0-бй-ы").unwrap();
    assert_eq!(desc.stem.first_consonant, None);
    assert_eq!(desc.stem.vowel, VowelKind::With);
    assert_eq!(desc.stem.last_consonant, LastConsonant::Yy);
    assert_eq!(desc.stem.thematic_vowel, ThematicVowel::Y);

    let desc = TemplateDesc::try_from("спр-лъэӏ-0-жь0й-ы").unwrap();
    assert_eq!(desc.stem.first_consonant, Some(FirstConsonant::Voiced));
    assert_eq!(desc.stem.vowel, VowelKind::Without);
    assert_eq!(desc.stem.last_consonant, LastConsonant::Yy);
    assert_eq!(desc.try_to_string().unwrap(), "спр-лъэӏ-0-жь0й-ы");
}

#[test]
fn a_root_in_jot_written_and_read_back_is_unchanged() {
    let desc = TemplateDesc {
        transitivity: Transitivity::Intransitive,
        preverb: None,
        stem: VerbStem {
            first_consonant: None,
            vowel: VowelKind::Without,
            last_consonant: LastConsonant::Yy,
            is_alternating: false,
            thematic_vowel: ThematicVowel::A,
            string: "0й".to_owned(),
        },
        original_string: String::new(),
    };
    let text = desc.clone().try_to_string().unwrap();
    assert_eq!(text, "спр-лъэмыӏ-0-0й-э");
    let back = TemplateDesc::try_from(text.as_str()).unwrap();
    assert_eq!(back.stem, desc.stem);
    assert_eq!(back.original_string, text);
}
