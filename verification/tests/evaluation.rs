use kbd_verbs::evaluation::evaluate_morphemes;
use kbd_verbs::morpho::{
    new_imperative, new_masdar, Case, Morpheme, Number, Person, PersonMarker, Polarity, Preverb,
    Transitivity,
};
use kbd_verbs::wiki;

#[test]
fn masdar_0() {
    let stem_str = "в";
    let stem = wiki::template::VerbStem::new(stem_str, Transitivity::Intransitive);
    let morphemes = new_masdar(&Polarity::Positive, &None, &stem);
    let string = evaluate_morphemes(&morphemes).replace("{{{псалъэпкъ}}}", stem_str);
    assert_eq!(string, "вын");
}

#[test]
fn masdar_1() {
    let stem_str = "гу";
    let stem = wiki::template::VerbStem::new(stem_str, Transitivity::Intransitive);
    let morphemes = new_masdar(&Polarity::Positive, &None, &stem);
    let string = evaluate_morphemes(&morphemes).replace("{{{псалъэпкъ}}}", stem_str);
    assert_eq!(string, "гун");
}

#[test]
fn imperative_0() {
    let stem_str = "в";
    let transitivity = Transitivity::Intransitive;
    let stem = wiki::template::VerbStem::new(stem_str, transitivity);
    let mut strings = vec![];
    for polarity in Polarity::variants_iter() {
        for number in Number::variants_iter() {
            let morphemes = new_imperative(
                &polarity,
                &None,
                &stem,
                &PersonMarker::new(Person::Second, number, transitivity.subject_case()),
                &None,
                &transitivity,
            );
            let string = evaluate_morphemes(&morphemes).replace("{{{псалъэпкъ}}}", stem_str);
            strings.push(string);
        }
    }
    assert_eq!(strings, ["вы", "фыв", "умыв", "фымыв"]);
}

#[test]
fn imperative_1() {
    let stem_str = "гу";
    let transitivity = Transitivity::Intransitive;
    let stem = wiki::template::VerbStem::new(stem_str, transitivity);
    let mut strings = vec![];
    for polarity in Polarity::variants_iter() {
        for number in Number::variants_iter() {
            let morphemes = new_imperative(
                &polarity,
                &None,
                &stem,
                &PersonMarker::new(Person::Second, number, transitivity.subject_case()),
                &None,
                &transitivity,
            );
            let string = evaluate_morphemes(&morphemes).replace("{{{псалъэпкъ}}}", stem_str);
            strings.push(string);
        }
    }
    assert_eq!(strings, ["гу", "фыгу", "умыгу", "фымыгу"]);
}

#[test]
fn imperative_2() {
    let stem_str = "в";
    let transitivity = Transitivity::Transitive;
    let stem = wiki::template::VerbStem::new(stem_str, transitivity);
    let mut strings = vec![];
    for polarity in Polarity::variants_iter() {
        for number in Number::variants_iter() {
            let morphemes = new_imperative(
                &polarity,
                &None,
                &stem,
                &PersonMarker::new(
                    Person::Third,
                    Number::Singular,
                    transitivity.direct_object_case().unwrap(),
                ),
                &Some(PersonMarker::new(Person::Second, number, transitivity.subject_case())),
                &transitivity,
            );
            let string = evaluate_morphemes(&morphemes).replace("{{{псалъэпкъ}}}", stem_str);
            strings.push(string);
        }
    }
    assert_eq!(strings, ["вы", "ввы", "умыв", "фымыв"]);
}

#[test]
fn imperative_3() {
    let stem_str = "гу";
    let transitivity = Transitivity::Transitive;
    let stem = wiki::template::VerbStem::new(stem_str, transitivity);
    let mut strings = vec![];
    for polarity in Polarity::variants_iter() {
        for number in Number::variants_iter() {
            let do_case = transitivity.direct_object_case().unwrap();
            let s_case = transitivity.subject_case();

            let morphemes = new_imperative(
                &polarity,
                &None,
                &stem,
                &PersonMarker::new(Person::Third, Number::Singular, do_case),
                &Some(PersonMarker::new(Person::Second, number, s_case)),
                &transitivity,
            );
            let string = evaluate_morphemes(&morphemes).replace("{{{псалъэпкъ}}}", stem_str);
            strings.push(string);
        }
    }
    assert_eq!(strings, ["гу", "вгу", "умыгу", "фымыгу"]);
}

#[test]
fn imperative_4() {
    let preverb = "дэ";
    let stem_str = "кIэ";
    let transitivity = Transitivity::Transitive;
    let stem = wiki::template::VerbStem::new(stem_str, transitivity);
    let mut strings = vec![];
    for polarity in Polarity::variants_iter() {
        for number in Number::variants_iter() {
            let morphemes = new_imperative(
                &polarity,
                &Some(Preverb::try_from(preverb.to_owned().as_str()).unwrap()),
                &stem,
                &PersonMarker::new(
                    Person::Third,
                    Number::Singular,
                    transitivity.direct_object_case().unwrap(),
                ),
                &Some(PersonMarker::new(Person::Second, number, transitivity.subject_case())),
                &transitivity,
            );
            let string = evaluate_morphemes(&morphemes).replace("{{{псалъэпкъ}}}", "кI");
            strings.push(string);
        }
    }
    assert_eq!(strings, ["дэкIэ", "дэфкIэ", "думыкIэ", "дэвмыкIэ"]);
}

fn written(morphemes: Vec<Morpheme>, root: &str) -> String {
    let morphemes: std::collections::VecDeque<_> = morphemes.into_iter().collect();
    kbd_verbs::evaluation::try_evaluate_morphemes(&morphemes)
        .unwrap()
        .replace("{{{псалъэпкъ}}}", root)
}

#[test]
fn third_plural_ergative_is_ja_at_the_start_and_a_after_a_preverb() {
    let stem = wiki::template::VerbStem::new("кIэ", Transitivity::Transitive);
    let they = PersonMarker::new(Person::Third, Number::Plural, Case::Ergative);
    let alone = written(
        vec![Morpheme::new_person_marker(&they), Morpheme::Stem(stem.clone())],
        "кI",
    );
    assert_eq!(alone, "якIэ");
    let after = written(
        vec![
            Morpheme::new_preverb(&Preverb::try_from("дэ").unwrap()),
            Morpheme::new_person_marker(&they),
            Morpheme::Stem(stem.clone()),
        ],
        "кI",
    );
    assert_eq!(after, "дакIэ");
    let before_negation = written(
        vec![
            Morpheme::new_preverb(&Preverb::try_from("дэ").unwrap()),
            Morpheme::new_person_marker(&they),
            Morpheme::new_negative_prefix(),
            Morpheme::Stem(stem),
        ],
        "кI",
    );
    assert_eq!(before_negation, "дамыкIэ");
}

#[test]
fn thematic_y_stays_or_goes_by_its_neighbours() {
    let stem = wiki::template::VerbStem::new("в", Transitivity::Intransitive);
    assert_eq!(written(vec![Morpheme::Stem(stem.clone())], "в"), "вы");
    let before_n = written(
        vec![Morpheme::Stem(stem.clone()), Morpheme::new_generic("н")],
        "в",
    );
    assert_eq!(before_n, "вын");
    let before_sh = written(
        vec![Morpheme::Stem(stem.clone()), Morpheme::new_generic("щ")],
        "в",
    );
    assert_eq!(before_sh, "выщ");
    let before_a = written(
        vec![Morpheme::Stem(stem), Morpheme::new_generic("ащ")],
        "в",
    );
    assert_eq!(before_a, "ващ");
}

#[test]
fn thematic_e_goes_before_a() {
    let stem = wiki::template::VerbStem::new("кIэ", Transitivity::Transitive);
    let before_a = written(
        vec![Morpheme::Stem(stem.clone()), Morpheme::new_generic("ащ")],
        "кI",
    );
    assert_eq!(before_a, "кIащ");
    let before_sh = written(
        vec![Morpheme::Stem(stem), Morpheme::new_generic("щ")],
        "кI",
    );
    assert_eq!(before_sh, "кIэщ");
}

#[test]
fn second_singular_ergative_gets_an_epenthetic_y_after_a_uvular_plosive() {
    let stem = wiki::template::VerbStem::new("кIэ", Transitivity::Transitive);
    let you = PersonMarker::new(Person::Second, Number::Singular, Case::Ergative);
    let after_qe = written(
        vec![
            Morpheme::new_preverb(&Preverb::try_from("къэ").unwrap()),
            Morpheme::new_person_marker(&you),
            Morpheme::new_negative_prefix(),
            Morpheme::Stem(stem.clone()),
        ],
        "кI",
    );
    assert_eq!(after_qe, "къыумыкIэ");
    let after_de = written(
        vec![
            Morpheme::new_preverb(&Preverb::try_from("дэ").unwrap()),
            Morpheme::new_person_marker(&you),
            Morpheme::new_negative_prefix(),
            Morpheme::Stem(stem),
        ],
        "кI",
    );
    assert_eq!(after_de, "думыкIэ");
}
