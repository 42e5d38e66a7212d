use kbd_verbs::morpho::{Polarity, Tense};
use kbd_verbs::wiki::table::Wikitable;
use kbd_verbs::wiki::template::TemplateDesc;
use kbd_verbs::morpho::Preverb;
use kbd_verbs::wiki::{
    create_template, indcicative_tense_string, table_conditional, table_imperative,
    table_imperative_raj, table_masdar, table_masdar_personal, tables_writable,
};

#[test]
fn wikitable_markup() {
    let mut table = Wikitable::new();
    table.add("a".to_owned());
    table.add("b".to_owned());
    table.add_row();
    table.add("c".to_owned());
    table.add("d".to_owned());
    table.add("e".to_owned());
    table.add_row();
    table.add("f".to_owned());
    assert_eq!(
        table.to_string(),
        "{| class=\"wikitable\"\n|-\n! a !! b \n|-\n| c || d || e \n|-\n| f \n|-\n|}"
    );
}

#[test]
fn wikitable_with_only_a_header() {
    let mut table = Wikitable::new();
    table.add("x".to_owned());
    assert_eq!(table.to_string(), "{| class=\"wikitable\"\n|-\n! x \n|-\n|}");
}

#[test]
fn masdar_table_of_an_intransitive_verb() {
    let desc = TemplateDesc::try_from("спр-лъэмыӏ-0-0д-э").unwrap();
    assert_eq!(
        table_masdar(&desc),
        "{| class=\"wikitable\"\n|-\n! Инфинитив (масдар) !!  \n|-\n\
         | щыӀэныгъэ: || {{{псалъэпкъ}}}эн \n|-\n\
         | щымыӀэныгъэ: || мы{{{псалъэпкъ}}}эн \n|-\n|}"
    );
}

#[test]
fn personal_masdar_table_of_an_intransitive_verb() {
    let desc = TemplateDesc::try_from("спр-лъэмыӏ-0-0д-э").unwrap();
    let table = table_masdar_personal(&desc);
    assert!(table.starts_with(
        "{| class=\"wikitable\"\n|-\n! Инфинитив (масдар) щхьэкӀэ зэхъуэкӀа !! сэ !! уэ !! ар !! дэ !! фэ !! ахэр \n|-\n"
    ));
    assert!(table.contains(
        "| щыӀэныгъэ: || сы{{{псалъэпкъ}}}эн || у{{{псалъэпкъ}}}эн || {{{псалъэпкъ}}}эн || ды{{{псалъэпкъ}}}эн || фы{{{псалъэпкъ}}}эн || {{{псалъэпкъ}}}эн(хэ) \n"
    ));
    assert!(table.contains(
        "| щымыӀэныгъэ: || сымы{{{псалъэпкъ}}}эн || умы{{{псалъэпкъ}}}эн || мы{{{псалъэпкъ}}}эн || дымы{{{псалъэпкъ}}}эн || фымы{{{псалъэпкъ}}}эн || мы{{{псалъэпкъ}}}эн(хэ) \n"
    ));
}

#[test]
fn imperative_table_of_an_intransitive_verb() {
    let desc = TemplateDesc::try_from("спр-лъэмыӏ-0-0д-э").unwrap();
    let table = table_imperative(&desc);
    assert_eq!(
        table,
        "{| class=\"wikitable\"\n|-\n! унафэ наклоненэ !! уэ !! фэ \n|-\n\
         | щыӀэныгъэ: || {{{псалъэпкъ}}}э! || фы{{{псалъэпкъ}}}э! \n|-\n\
         | щымыӀэныгъэ: || умы{{{псалъэпкъ}}}э! || фымы{{{псалъэпкъ}}}э! \n|-\n|}"
    );
}

#[test]
fn conditional_table_has_only_its_tenses() {
    let desc = TemplateDesc::try_from("спр-лъэмыӏ-0-0д-э").unwrap();
    let table = table_conditional(&desc);
    // The opening and the header, then a line for each row: five tenses, two polarities.
    assert_eq!(table.matches("\n|-\n").count(), 2 + 10);
    assert!(table.contains(&indcicative_tense_string(&Tense::Present, &Polarity::Positive)));
    assert!(!table.contains(&indcicative_tense_string(&Tense::Imperfect, &Polarity::Positive)));
}

#[test]
fn tense_labels() {
    assert_eq!(
        indcicative_tense_string(&Tense::Present, &Polarity::Positive),
        "ит зэман – щыӀэныгъэ:"
    );
    assert_eq!(
        indcicative_tense_string(&Tense::Aorist2, &Polarity::Negative),
        "блэкӀа гъэкӀэщӀа зэман II – щымыӀэныгъэ:"
    );
}

#[test]
fn template_page_of_an_intransitive_verb() {
    let desc = TemplateDesc::try_from("спр-лъэмыӏ-0-0д-э").unwrap();
    let masdar = table_masdar(&desc);
    let page = create_template(desc);
    assert!(page.starts_with(&format!(
        "<!-- Template:Wt/kbd/спр-лъэмыӏ-0-0д-э -->\n{}\n----------------------------------------------\n",
        masdar
    )));
    assert!(page.ends_with(
        "\n----------------------------------------------\n|}<noinclude>\n[[Category:Wt/kbd]]\n</noinclude>"
    ));
    assert_eq!(page.matches("{| class=\"wikitable\"").count(), 8);
}

#[test]
fn template_page_of_a_transitive_verb() {
    let desc = TemplateDesc::try_from("спр-лъэӏ-0-д0д-ы").unwrap();
    let page = create_template(desc);
    assert_eq!(page.matches("{| class=\"wikitable\"").count(), 8);
    assert!(page.contains("! ЗэраӀуатэ наклоненэ !! сэ !! уэ !! абы !! дэ !! фэ !! абыхэм \n"));
}

#[test]
fn tables_of_the_known_templates_can_be_written() {
    let templates = [
        "спр-лъэмыӏ-0-0д-э",
        "спр-лъэмыӏ-0-0л-ы",
        "спр-лъэмыӏ-0-бт-ы",
        "спр-лъэӏ-0-дбд-ы",
        "спр-лъэӏ-0-убт-ы",
    ];
    for template in templates {
        let desc = TemplateDesc::try_from(template).unwrap();
        assert!(tables_writable(&desc), "{}", template);
    }
}

#[test]
fn tables_with_the_preverb_e_cannot_be_written() {
    // The preverb "е" has no form before a vowel, which the imperative with "ре" needs.
    let desc = TemplateDesc::try_from("спр-лъэмыӏ-е-бд-ы").unwrap();
    assert!(!tables_writable(&desc));
}

#[test]
fn tables_with_a_preverb_that_does_not_read_cannot_be_written() {
    let mut desc = TemplateDesc::try_from("спр-лъэмыӏ-0-0д-э").unwrap();
    desc.preverb = Some(Preverb::try_from("ъ").unwrap());
    assert!(!tables_writable(&desc));
}

#[test]
fn second_person_singular_ergative_takes_the_voice_of_the_stem() {
    let desc = TemplateDesc::try_from("спр-лъэӏ-0-д0д-ы").unwrap();
    let table = table_masdar_personal(&desc);
    assert!(table.contains("|| п{{{псалъэпкъ}}}"));
    assert!(!table.contains("|| б{{{псалъэпкъ}}}"));
    let desc = TemplateDesc::try_from("спр-лъэӏ-0-жь0д-ы").unwrap();
    let table = table_masdar_personal(&desc);
    assert!(table.contains("|| б{{{псалъэпкъ}}}"));
    assert!(!table.contains("|| п{{{псалъэпкъ}}}"));
}

#[test]
fn raj_imperative_table_of_an_intransitive_verb() {
    let desc = TemplateDesc::try_from("спр-лъэмыӏ-0-0д-э").unwrap();
    let table = table_imperative_raj(&desc);
    assert!(table.starts_with(
        "{| class=\"wikitable\"\n|-\n! Ре-кӀэ унафэ наклоненэ !! сэ !! уэ !! ар !! дэ !! фэ !! ахэр \n|-\n| щыӀэныгъэ: || "
    ));
    assert!(table.contains(
        "| щыӀэныгъэ: || сре{{{псалъэпкъ}}}э || уре{{{псалъэпкъ}}}э || ире{{{псалъэпкъ}}}э || дре{{{псалъэпкъ}}}э || фре{{{псалъэпкъ}}}э || ире{{{псалъэпкъ}}}э \n"
    ));
    assert!(table.contains(
        "| щымыӀэныгъэ: || сремы{{{псалъэпкъ}}}э || уремы{{{псалъэпкъ}}}э || иремы{{{псалъэпкъ}}}э || дремы{{{псалъэпкъ}}}э || фремы{{{псалъэпкъ}}}э || иремы{{{псалъэпкъ}}}э \n"
    ));
}
