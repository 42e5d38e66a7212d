//! Everything specific to the wiki: the conjugation tables of a verb template.
pub mod table;
pub mod template;

use std::collections::VecDeque;

use vstd::prelude::*;

use crate::evaluation::{evaluate_morphemes, evaluation, try_evaluate_morphemes};
use crate::morpho::{
    conditional_2_suffix, conditional_like_spec, conditional_suffix, imperative_raj_spec,
    imperative_spec, indicative_spec, interrogative_spec, is_conditional_tense, marker,
    masdar_personal_spec, masdar_spec, new_conditional, new_conditional_2, new_imperative,
    new_imperative_raj, new_indicative, new_interrogative, new_masdar, new_masdar_personal,
    number_variants, person_variants, polarity_prefix, polarity_variants, pronoun_text,
    pronouns_of_case, pronouns_of_person, subject_case_of, tense_variants, morphemes_view, Case,
    Morpheme, MorphemeView, Number, Person, PersonMarker, Polarity, Pronoun, Tense, Transitivity, preverb_part,
};
use crate::text::{push_char, push_text, string_views};

use self::table::{table_text, Wikitable};
use self::template::TemplateDesc;

verus! {

// ---------------------------------------------------------------------------
// Rows and columns of the tables
// ---------------------------------------------------------------------------

/// The number and person of each column: singular then plural, first to third person.
pub open spec fn number_person_pairs() -> Seq<(Number, Person)> {
    seq![
        (Number::Singular, Person::First),
        (Number::Singular, Person::Second),
        (Number::Singular, Person::Third),
        (Number::Plural, Person::First),
        (Number::Plural, Person::Second),
        (Number::Plural, Person::Third),
    ]
}

/// The tense and polarity of each row of a table of tenses: every tense, positive then
/// negative.
pub open spec fn tense_polarity_pairs() -> Seq<(Tense, Polarity)> {
    seq![
        (Tense::Present, Polarity::Positive),
        (Tense::Present, Polarity::Negative),
        (Tense::Imperfect, Polarity::Positive),
        (Tense::Imperfect, Polarity::Negative),
        (Tense::Perfect, Polarity::Positive),
        (Tense::Perfect, Polarity::Negative),
        (Tense::PlusQuamPerfect, Polarity::Positive),
        (Tense::PlusQuamPerfect, Polarity::Negative),
        (Tense::FarPast1, Polarity::Positive),
        (Tense::FarPast1, Polarity::Negative),
        (Tense::FarPast2, Polarity::Positive),
        (Tense::FarPast2, Polarity::Negative),
        (Tense::Aorist1, Polarity::Positive),
        (Tense::Aorist1, Polarity::Negative),
        (Tense::Aorist2, Polarity::Positive),
        (Tense::Aorist2, Polarity::Negative),
        (Tense::Future1, Polarity::Positive),
        (Tense::Future1, Polarity::Negative),
        (Tense::Future2, Polarity::Positive),
        (Tense::Future2, Polarity::Negative),
    ]
}

/// The number and person pairs, as the table columns go.
fn number_and_person() -> (v: Vec<(Number, Person)>)
    ensures
        v@ == number_person_pairs(),
{
    let numbers = Number::variants();
    let persons = Person::variants();
    let mut v: Vec<(Number, Person)> = Vec::new();
    let mut i: usize = 0;
    while i < numbers.len()
        invariant
            numbers@ == number_variants(),
            persons@ == person_variants(),
            i <= numbers.len(),
            v@ == number_person_pairs().take(3 * i),
        decreases numbers.len() - i,
    {
        let mut j: usize = 0;
        while j < persons.len()
            invariant
                numbers@ == number_variants(),
                persons@ == person_variants(),
                i < numbers.len(),
                j <= persons.len(),
                v@ == number_person_pairs().take(3 * i + j),
            decreases persons.len() - j,
        {
            v.push((numbers[i], persons[j]));
            j = j + 1;
            assert(v@ =~= number_person_pairs().take(3 * i + j));
        }
        i = i + 1;
    }
    assert(v@ =~= number_person_pairs());
    v
}

/// The tense and polarity pairs, as the rows of a table of tenses go.
fn tense_and_polarity() -> (v: Vec<(Tense, Polarity)>)
    ensures
        v@ == tense_polarity_pairs(),
{
    let tenses = Tense::variants();
    let polarities = Polarity::variants();
    let mut v: Vec<(Tense, Polarity)> = Vec::new();
    let mut i: usize = 0;
    while i < tenses.len()
        invariant
            tenses@ == tense_variants(),
            polarities@ == polarity_variants(),
            i <= tenses.len(),
            v@ == tense_polarity_pairs().take(2 * i),
        decreases tenses.len() - i,
    {
        let mut j: usize = 0;
        while j < polarities.len()
            invariant
                tenses@ == tense_variants(),
                polarities@ == polarity_variants(),
                i < tenses.len(),
                j <= polarities.len(),
                v@ == tense_polarity_pairs().take(2 * i + j),
            decreases polarities.len() - j,
        {
            v.push((tenses[i], polarities[j]));
            j = j + 1;
            assert(v@ =~= tense_polarity_pairs().take(2 * i + j));
        }
        i = i + 1;
    }
    assert(v@ =~= tense_polarity_pairs());
    v
}

/// The person markers of a subject: for an absolutive subject its absolutive marker
/// alone; for an ergative one a third person absolutive object and the ergative subject.
pub open spec fn person_markers(subject_case: Case, person: Person, number: Number) -> (
    PersonMarker,
    Option<PersonMarker>,
) {
    if subject_case == Case::Absolutive {
        (marker(person, number, Case::Absolutive), None)
    } else {
        (marker(Person::Third, number, Case::Absolutive), Some(marker(person, number, Case::Ergative)))
    }
}

fn get_person_markers(subject_case: &Case, person: &Person, number: &Number) -> (r: (
    PersonMarker,
    Option<PersonMarker>,
))
    ensures
        r == person_markers(*subject_case, *person, *number),
{
    if *subject_case == Case::Absolutive {
        (PersonMarker::new(*person, *number, Case::Absolutive), None)
    } else {
        (
            PersonMarker::new(Person::Third, *number, Case::Absolutive),
            Some(PersonMarker::new(*person, *number, Case::Ergative)),
        )
    }
}

/// Each column of a table stands for one person and number, and no two columns share their
/// markers: for an ergative subject the ergative marker has the column's person and number
/// and the absolutive object is of the third person; for an absolutive subject the marker
/// has the column's person and number.
pub proof fn person_markers_follow_the_column(
    case: Case,
    p1: Person,
    n1: Number,
    p2: Person,
    n2: Number,
)
    ensures
        case == Case::Ergative ==> person_markers(case, p1, n1).1 == Some(
            marker(p1, n1, Case::Ergative),
        ),
        case == Case::Ergative ==> person_markers(case, p1, n1).0.person == Person::Third,
        case == Case::Absolutive ==> person_markers(case, p1, n1) == (
            marker(p1, n1, Case::Absolutive),
            None::<PersonMarker>,
        ),
        person_markers(case, p1, n1) == person_markers(case, p2, n2) ==> p1 == p2 && n1 == n2,
{
}

/// In the tables of a transitive verb, every cell but those of the raj imperative carries
/// the ergative marker of its column's person and number, after a third person absolutive
/// object of the same number; in those of an intransitive verb, every cell starts with the
/// absolutive marker of its column's person and number.
pub proof fn cells_carry_the_markers_of_their_column(
    d: TemplateDesc,
    mood: PersonalMood,
    tense: Tense,
    polarity: Polarity,
    n: Number,
    p: Person,
)
    requires
        mood != PersonalMood::ImperativeRaj,
    ensures
        d.transitivity == Transitivity::Transitive ==> personal_morphemes(
            d,
            mood,
            tense,
            polarity,
            (n, p),
        ).contains(MorphemeView::PersonMarker(marker(p, n, Case::Ergative))),
        d.transitivity == Transitivity::Transitive ==> personal_morphemes(
            d,
            mood,
            tense,
            polarity,
            (n, p),
        )[0] == MorphemeView::PersonMarker(marker(Person::Third, n, Case::Absolutive)),
        d.transitivity == Transitivity::Intransitive ==> personal_morphemes(
            d,
            mood,
            tense,
            polarity,
            (n, p),
        )[0] == MorphemeView::PersonMarker(marker(p, n, Case::Absolutive)),
{
    let ms = personal_morphemes(d, mood, tense, polarity, (n, p));
    let k: int = 1 + preverb_part(d.preverb).len() as int;
    if d.transitivity == Transitivity::Transitive {
        assert(ms[k] == MorphemeView::PersonMarker(marker(p, n, Case::Ergative)));
    }
}

/// The moods whose tables have a column for each number and person.
#[derive(Debug, Clone, Copy, PartialEq, Eq, Structural)]
pub enum PersonalMood {
    MasdarPersonal,
    ImperativeRaj,
    Indicative,
    Interrogative,
    Conditional,
    Conditional2,
}

/// Whether a mood has forms in a tense: the conditional moods only in some tenses.
pub open spec fn mood_has_tense(mood: PersonalMood, tense: Tense) -> bool {
    match mood {
        PersonalMood::Conditional | PersonalMood::Conditional2 => is_conditional_tense(tense),
        _ => true,
    }
}

/// Whether the table of a mood has a row for each tense (or only one for each polarity).
pub open spec fn mood_has_tenses(mood: PersonalMood) -> bool {
    !(mood is MasdarPersonal || mood is ImperativeRaj)
}

/// The morphemes of the form of a mood for a tense, a polarity, a number and a person.
pub open spec fn personal_morphemes(
    d: TemplateDesc,
    mood: PersonalMood,
    tense: Tense,
    polarity: Polarity,
    np: (Number, Person),
) -> Seq<MorphemeView> {
    let m = person_markers(subject_case_of(d.transitivity), np.1, np.0);
    match mood {
        PersonalMood::MasdarPersonal => masdar_personal_spec(
            polarity,
            d.preverb,
            d.stem,
            m.0,
            m.1,
        ),
        PersonalMood::ImperativeRaj => imperative_raj_spec(
            polarity,
            d.preverb,
            d.stem,
            np.1,
            np.0,
        ),
        PersonalMood::Indicative => indicative_spec(polarity, tense, d.preverb, d.stem, m.0, m.1),
        PersonalMood::Interrogative => interrogative_spec(
            polarity,
            tense,
            d.preverb,
            d.stem,
            m.0,
            m.1,
        ),
        PersonalMood::Conditional => conditional_like_spec(
            polarity,
            conditional_suffix(tense),
            "мэ"@,
            d.preverb,
            d.stem,
            m.0,
            m.1,
        ),
        PersonalMood::Conditional2 => conditional_like_spec(
            polarity,
            conditional_2_suffix(tense),
            "мэ"@,
            d.preverb,
            d.stem,
            m.0,
            m.1,
        ),
    }
}

/// The written form of a mood for a tense, a polarity, a number and a person.
pub open spec fn personal_form(
    d: TemplateDesc,
    mood: PersonalMood,
    tense: Tense,
    polarity: Polarity,
    np: (Number, Person),
) -> Option<Seq<char>> {
    evaluation(personal_morphemes(d, mood, tense, polarity, np))
}

/// Every form of a mood that its table shows can be written.
pub open spec fn mood_defined(d: TemplateDesc, mood: PersonalMood) -> bool {
    forall|tense: Tense, polarity: Polarity, np: (Number, Person)|
        mood_has_tense(mood, tense) ==> (#[trigger] personal_form(d, mood, tense, polarity, np)) is Some
}

/// The written form of the masdar for a polarity.
pub open spec fn masdar_form(d: TemplateDesc, polarity: Polarity) -> Option<Seq<char>> {
    evaluation(masdar_spec(polarity, d.preverb, d.stem))
}

/// The written form of the imperative for a polarity and a number.
pub open spec fn imperative_form(d: TemplateDesc, polarity: Polarity, number: Number) -> Option<
    Seq<char>,
> {
    let m = person_markers(subject_case_of(d.transitivity), Person::Second, number);
    evaluation(imperative_spec(polarity, d.preverb, d.stem, m.0, m.1, d.transitivity))
}

/// Every form that the tables of a template show can be written.
pub open spec fn tables_defined(d: TemplateDesc) -> bool {
    &&& forall|polarity: Polarity| (#[trigger] masdar_form(d, polarity)) is Some
    &&& forall|polarity: Polarity, number: Number| (#[trigger] imperative_form(d, polarity, number)) is Some
    &&& mood_defined(d, PersonalMood::MasdarPersonal)
    &&& mood_defined(d, PersonalMood::ImperativeRaj)
    &&& mood_defined(d, PersonalMood::Indicative)
    &&& mood_defined(d, PersonalMood::Interrogative)
    &&& mood_defined(d, PersonalMood::Conditional)
    &&& mood_defined(d, PersonalMood::Conditional2)
}

/// The label of a row of one polarity ("щыӀэныгъэ:", "щымыӀэныгъэ:").
pub open spec fn status_label(polarity: Polarity) -> Seq<char> {
    "щы"@ + polarity_prefix(polarity) + "Ӏэныгъэ:"@
}

/// The name of a tense in the label of its rows, up to the polarity.
pub open spec fn tense_title(tense: Tense) -> Seq<char> {
    match tense {
        Tense::Present => "ит зэман – щы"@,
        Tense::Imperfect => "блэкӀа зэфӀэмыкӀа зэман (имперфект) – щы"@,
        Tense::Perfect => "блэкӀа зэфӀэкӀа зэман (перфект) – щы"@,
        Tense::PlusQuamPerfect => "блэкӀа зэфӀэкӀа и пэ ит зэман (плюс квамперфект) – щы"@,
        Tense::FarPast1 => "блэкӀа жыжьэ зэфӀэкӀа зэман – щы"@,
        Tense::FarPast2 => "блэкӀа жыжьэ зэфӀэкӀа и пэ ит зэман – щы"@,
        Tense::Aorist1 => "блэкӀа гъэкӀэщӀа зэман I – щы"@,
        Tense::Aorist2 => "блэкӀа гъэкӀэщӀа зэман II – щы"@,
        Tense::Future1 => "къэкӀуэну мыгъэбелджыла зэман – щы"@,
        Tense::Future2 => "къэкӀуэну гъэбелджыла зэман – щы"@,
    }
}

/// The label of the row of a tense and polarity.
pub open spec fn tense_label(tense: Tense, polarity: Polarity) -> Seq<char> {
    tense_title(tense) + polarity_prefix(polarity) + "Ӏэныгъэ:"@
}

/// The header row of a table with a column for each pronoun of a case.
pub open spec fn pronoun_header(name: Seq<char>, case: Case) -> Seq<Seq<char>> {
    seq![name] + pronouns_of_case(case).map_values(|p: Pronoun| pronoun_text(p))
}

/// What follows a written form in its cell: the personal masdar of the third person plural
/// is marked "(хэ)", for the plural suffix it may take.
pub open spec fn cell_suffix(mood: PersonalMood, np: (Number, Person)) -> Seq<char> {
    if mood == PersonalMood::MasdarPersonal && np == (Number::Plural, Person::Third) {
        "(хэ)"@
    } else {
        seq![]
    }
}

/// The cells of a mood for a tense and polarity, one for each number and person.
pub open spec fn personal_cells(
    d: TemplateDesc,
    mood: PersonalMood,
    tense: Tense,
    polarity: Polarity,
) -> Seq<Seq<char>> {
    number_person_pairs().map_values(
        |np: (Number, Person)|
            personal_form(d, mood, tense, polarity, np).unwrap() + cell_suffix(mood, np),
    )
}

/// The pairs of tense and polarity in the rows of a table: those whose tense the mood has,
/// in order.
pub open spec fn rows_with_tense(mood: PersonalMood, tps: Seq<(Tense, Polarity)>) -> Seq<
    (Tense, Polarity),
>
    decreases tps.len(),
{
    if tps.len() == 0 {
        seq![]
    } else if mood_has_tense(mood, tps.last().0) {
        rows_with_tense(mood, tps.drop_last()).push(tps.last())
    } else {
        rows_with_tense(mood, tps.drop_last())
    }
}

/// The rows of the masdar table.
pub open spec fn masdar_rows(d: TemplateDesc) -> Seq<Seq<Seq<char>>> {
    seq![seq!["Инфинитив (масдар)"@, seq![]]] + polarity_variants().map_values(
        |polarity: Polarity| seq![status_label(polarity), masdar_form(d, polarity).unwrap()],
    )
}

/// The rows of the imperative table.
pub open spec fn imperative_rows(d: TemplateDesc) -> Seq<Seq<Seq<char>>> {
    seq![
        seq!["унафэ наклоненэ"@] + number_variants().map_values(
            |number: Number|
                pronoun_text(
                    Pronoun {
                        case: subject_case_of(d.transitivity),
                        number,
                        person: Person::Second,
                    },
                ),
        ),
    ] + polarity_variants().map_values(
        |polarity: Polarity|
            seq![status_label(polarity)] + number_variants().map_values(
                |number: Number| imperative_form(d, polarity, number).unwrap() + seq!['!'],
            ),
    )
}

/// The rows of a table with a row for each polarity and a column for each pronoun.
pub open spec fn polarity_rows(d: TemplateDesc, name: Seq<char>, mood: PersonalMood) -> Seq<
    Seq<Seq<char>>,
> {
    seq![pronoun_header(name, subject_case_of(d.transitivity))] + polarity_variants().map_values(
        |polarity: Polarity|
            seq![status_label(polarity)] + personal_cells(d, mood, Tense::Present, polarity),
    )
}

/// The rows of a table with a row for each tense and polarity and a column for each
/// pronoun.
pub open spec fn tense_rows(d: TemplateDesc, name: Seq<char>, mood: PersonalMood) -> Seq<
    Seq<Seq<char>>,
> {
    seq![pronoun_header(name, subject_case_of(d.transitivity))] + rows_with_tense(
        mood,
        tense_polarity_pairs(),
    ).map_values(
        |tp: (Tense, Polarity)| seq![tense_label(tp.0, tp.1)] + personal_cells(d, mood, tp.0, tp.1),
    )
}

// ---------------------------------------------------------------------------
// Filling the tables
// ---------------------------------------------------------------------------

/// Adds cells at the end of the last row.
fn add_cells(table: &mut Wikitable, cells: &Vec<String>)
    requires
        old(table)@.len() > 0,
    ensures
        final(table)@ == old(table)@.update(
            old(table)@.len() - 1,
            old(table)@.last() + string_views(cells@),
        ),
{
    let ghost views = string_views(cells@);
    let ghost last = old(table)@.len() - 1;
    let mut k: usize = 0;
    assert(old(table)@.last() + views.take(0) =~= old(table)@.last());
    assert(table@ =~= old(table)@.update(last, old(table)@.last() + views.take(0)));
    while k < cells.len()
        invariant
            views == string_views(cells@),
            last == old(table)@.len() - 1,
            old(table)@.len() > 0,
            k <= cells.len(),
            table@ == old(table)@.update(last, old(table)@.last() + views.take(k as int)),
        decreases cells.len() - k,
    {
        let cell = cells[k].clone();
        table.add(cell);
        assert(old(table)@.last() + views.take(k + 1) =~= (old(table)@.last() + views.take(
            k as int,
        )).push(views[k as int]));
        k = k + 1;
        assert(table@ =~= old(table)@.update(last, old(table)@.last() + views.take(k as int)));
    }
    assert(views.take(k as int) =~= views);
}


/// The label of a row of one polarity.
fn status_label_string(polarity: Polarity) -> (s: String)
    ensures
        s@ == status_label(polarity),
{
    let mut s = String::from_str("щы");
    let prefix = polarity.to_string_prefix();
    push_text(&mut s, prefix.as_str());
    push_text(&mut s, "Ӏэныгъэ:");
    s
}

/// The name of a tense in the label of its rows, up to the polarity.
fn tense_title_str(tense: &Tense) -> (s: &'static str)
    ensures
        s@ == tense_title(*tense),
{
    match tense {
        Tense::Present => "ит зэман – щы",
        Tense::Imperfect => "блэкӀа зэфӀэмыкӀа зэман (имперфект) – щы",
        Tense::Perfect => "блэкӀа зэфӀэкӀа зэман (перфект) – щы",
        Tense::PlusQuamPerfect => "блэкӀа зэфӀэкӀа и пэ ит зэман (плюс квамперфект) – щы",
        Tense::FarPast1 => "блэкӀа жыжьэ зэфӀэкӀа зэман – щы",
        Tense::FarPast2 => "блэкӀа жыжьэ зэфӀэкӀа и пэ ит зэман – щы",
        Tense::Aorist1 => "блэкӀа гъэкӀэщӀа зэман I – щы",
        Tense::Aorist2 => "блэкӀа гъэкӀэщӀа зэман II – щы",
        Tense::Future1 => "къэкӀуэну мыгъэбелджыла зэман – щы",
        Tense::Future2 => "къэкӀуэну гъэбелджыла зэман – щы",
    }
}

/// The label of the row of a tense and polarity.
pub fn indcicative_tense_string(tense: &Tense, polarity: &Polarity) -> (s: String)
    ensures
        s@ == tense_label(*tense, *polarity),
{
    let p = polarity.to_string_prefix();
    let mut s = String::from_str(tense_title_str(tense));
    push_text(&mut s, p.as_str());
    push_text(&mut s, "Ӏэныгъэ:");
    s
}

/// The texts of some pronouns.
fn pronoun_texts(pronouns: &Vec<Pronoun>) -> (texts: Vec<String>)
    ensures
        string_views(texts@) == pronouns@.map_values(|p: Pronoun| pronoun_text(p)),
{
    let mut texts: Vec<String> = Vec::new();
    let mut i: usize = 0;
    while i < pronouns.len()
        invariant
            i <= pronouns.len(),
            string_views(texts@) == pronouns@.take(i as int).map_values(
                |p: Pronoun| pronoun_text(p),
            ),
        decreases pronouns.len() - i,
    {
        let t = pronouns[i].to_string();
        let ghost before = string_views(texts@);
        texts.push(t);
        assert(string_views(texts@) =~= before.push(pronoun_text(pronouns@[i as int])));
        assert(pronouns@.take(i + 1).map_values(|p: Pronoun| pronoun_text(p)) =~= pronouns@.take(
            i as int,
        ).map_values(|p: Pronoun| pronoun_text(p)).push(pronoun_text(pronouns@[i as int])));
        i = i + 1;
        assert(string_views(texts@) =~= pronouns@.take(i as int).map_values(
            |p: Pronoun| pronoun_text(p),
        ));
    }
    assert(pronouns@.take(i as int) =~= pronouns@);
    texts
}

/// A table whose header row is the name and the pronouns of a case.
fn header_table(name: &str, case: Case) -> (table: Wikitable)
    ensures
        table@ == seq![pronoun_header(name@, case)],
{
    let mut table = Wikitable::new();
    table.add(String::from_str(name));
    let pronouns = Pronoun::variants_case(&case);
    let texts = pronoun_texts(&pronouns);
    add_cells(&mut table, &texts);
    assert(table@ =~= seq![pronoun_header(name@, case)]);
    table
}

/// Whether a mood has forms in a tense.
fn has_tense(mood: PersonalMood, tense: Tense) -> (r: bool)
    ensures
        r == mood_has_tense(mood, tense),
{
    match mood {
        PersonalMood::Conditional | PersonalMood::Conditional2 => tense == Tense::Present || tense
            == Tense::Perfect || tense == Tense::FarPast1 || tense == Tense::Future1 || tense
            == Tense::Future2,
        _ => true,
    }
}

/// The written forms of a mood for a tense and polarity, one for each number and person.
fn personal_forms(
    desc: &TemplateDesc,
    mood: PersonalMood,
    tense: Tense,
    polarity: Polarity,
    pairs: &Vec<(Number, Person)>,
) -> (cells: Vec<String>)
    requires
        pairs@ == number_person_pairs(),
        mood_has_tense(mood, tense),
        mood_defined(*desc, mood),
    ensures
        string_views(cells@) == personal_cells(*desc, mood, tense, polarity),
{
    let ghost all = personal_cells(*desc, mood, tense, polarity);
    let mut cells: Vec<String> = Vec::new();
    let mut k: usize = 0;
    while k < pairs.len()
        invariant
            pairs@ == number_person_pairs(),
            all == personal_cells(*desc, mood, tense, polarity),
            mood_has_tense(mood, tense),
            mood_defined(*desc, mood),
            k <= pairs.len(),
            string_views(cells@) == all.take(k as int),
        decreases pairs.len() - k,
    {
        let (number, person) = pairs[k];
        let morphemes = personal_morphemes_of(desc, mood, tense, polarity, number, person);
        assert(morphemes_view(morphemes@) == personal_morphemes(
            *desc,
            mood,
            tense,
            polarity,
            pairs@[k as int],
        ));
        assert(personal_form(*desc, mood, tense, polarity, pairs@[k as int]) is Some);
        let mut string = evaluate_morphemes(&morphemes);
        if mood == PersonalMood::MasdarPersonal && number == Number::Plural && person
            == Person::Third {
            push_text(&mut string, "(хэ)");
        }
        assert(all[k as int] == personal_form(*desc, mood, tense, polarity, pairs@[k as int]).unwrap()
            + cell_suffix(mood, pairs@[k as int]));
        let ghost before = string_views(cells@);
        cells.push(string);
        assert(string_views(cells@) =~= before.push(all[k as int]));
        assert(all.take(k + 1) =~= all.take(k as int).push(all[k as int]));
        k = k + 1;
        assert(string_views(cells@) =~= all.take(k as int));
    }
    assert(all.take(k as int) =~= all);
    cells
}

/// A table with a row for each polarity and a column for each pronoun.
fn polarity_table(desc: &TemplateDesc, name: &str, mood: PersonalMood) -> (s: String)
    requires
        !mood_has_tenses(mood),
        mood_defined(*desc, mood),
    ensures
        s@ == table_text(polarity_rows(*desc, name@, mood)),
{
    let ghost rows = polarity_rows(*desc, name@, mood);
    let mut table = header_table(name, desc.transitivity.subject_case());
    let pairs = number_and_person();
    let polarities = Polarity::variants();
    let mut i: usize = 0;
    assert(table@ =~= rows.take(1));
    while i < polarities.len()
        invariant
            rows == polarity_rows(*desc, name@, mood),
            polarities@ == polarity_variants(),
            pairs@ == number_person_pairs(),
            !mood_has_tenses(mood),
            mood_defined(*desc, mood),
            i <= polarities.len(),
            table@ == rows.take(i + 1),
        decreases polarities.len() - i,
    {
        let polarity = polarities[i];
        table.add_row();
        table.add(status_label_string(polarity));
        let cells = personal_forms(desc, mood, Tense::Present, polarity, &pairs);
        add_cells(&mut table, &cells);
        assert(table@[i + 1] =~= rows[i + 1]);
        i = i + 1;
        assert(table@ =~= rows.take(i + 1));
    }
    assert(table@ =~= rows);
    assert forall|j: int| 0 <= j < rows.len() implies #[trigger] rows[j].len() > 0 by {
        if j > 0 {
            assert(rows[j][0] == status_label(polarity_variants()[j - 1]));
        }
    }
    table.to_string()
}

/// The row of a tense and polarity in the table of a mood.
pub open spec fn tense_row(d: TemplateDesc, mood: PersonalMood, tp: (Tense, Polarity)) -> Seq<
    Seq<char>,
> {
    seq![tense_label(tp.0, tp.1)] + personal_cells(d, mood, tp.0, tp.1)
}

/// A table with a row for each tense and polarity of a mood and a column for each pronoun.
fn tense_table(desc: &TemplateDesc, name: &str, mood: PersonalMood) -> (s: String)
    requires
        mood_has_tenses(mood),
        mood_defined(*desc, mood),
    ensures
        s@ == table_text(tense_rows(*desc, name@, mood)),
{
    let ghost header = pronoun_header(name@, subject_case_of(desc.transitivity));
    let mut table = header_table(name, desc.transitivity.subject_case());
    let pairs = number_and_person();
    let tense_and_polarities = tense_and_polarity();
    let mut k: usize = 0;
    assert(tense_and_polarities@.take(0) =~= seq![]);
    assert(table@ =~= seq![header] + rows_with_tense(mood, tense_and_polarities@.take(0)).map_values(
        |tp: (Tense, Polarity)| tense_row(*desc, mood, tp),
    ));
    while k < tense_and_polarities.len()
        invariant
            tense_and_polarities@ == tense_polarity_pairs(),
            pairs@ == number_person_pairs(),
            header == pronoun_header(name@, subject_case_of(desc.transitivity)),
            mood_defined(*desc, mood),
            k <= tense_and_polarities.len(),
            table@ == seq![header] + rows_with_tense(mood, tense_and_polarities@.take(k as int)).map_values(
                |tp: (Tense, Polarity)| tense_row(*desc, mood, tp),
            ),
            forall|j: int| 0 <= j < table@.len() ==> #[trigger] table@[j].len() > 0,
        decreases tense_and_polarities.len() - k,
    {
        let (tense, polarity) = tense_and_polarities[k];
        let ghost before = rows_with_tense(mood, tense_and_polarities@.take(k as int));
        assert(tense_and_polarities@.take(k + 1).drop_last() =~= tense_and_polarities@.take(
            k as int,
        ));
        if has_tense(mood, tense) {
            table.add_row();
            table.add(indcicative_tense_string(&tense, &polarity));
            let cells = personal_forms(desc, mood, tense, polarity, &pairs);
            add_cells(&mut table, &cells);
            assert(rows_with_tense(mood, tense_and_polarities@.take(k + 1)) == before.push(
                (tense, polarity),
            ));
            assert(table@ =~= seq![header] + before.push((tense, polarity)).map_values(
                |tp: (Tense, Polarity)| tense_row(*desc, mood, tp),
            ));
        } else {
            assert(rows_with_tense(mood, tense_and_polarities@.take(k + 1)) == before);
        }
        k = k + 1;
    }
    assert(tense_and_polarities@.take(k as int) =~= tense_polarity_pairs());
    assert(table@ =~= tense_rows(*desc, name@, mood));
    table.to_string()
}


/*
    {| class="wikitable"
    |-
    ! Инфинитив (масдар) !!
    |-
    | щыӀэныгъэ: || {{{псалъэпкъ}}}эн
    |-
    | щымыӀэныгъэ: || мы{{{псалъэпкъ}}}эн
    |}
*/
/// The table of the masdar (infinitive), one row for each polarity.
pub fn table_masdar(desc: &TemplateDesc) -> (s: String)
    requires
        forall|polarity: Polarity| (#[trigger] masdar_form(*desc, polarity)) is Some,
    ensures
        s@ == table_text(masdar_rows(*desc)),
{
    let ghost rows = masdar_rows(*desc);
    let mut table = Wikitable::new();
    table.add(String::from_str("Инфинитив (масдар)"));
    table.add(String::new());
    let polarities = Polarity::variants();
    let mut i: usize = 0;
    assert(table@[0] =~= rows[0]);
    assert(table@ =~= rows.take(1));
    while i < polarities.len()
        invariant
            rows == masdar_rows(*desc),
            polarities@ == polarity_variants(),
            forall|polarity: Polarity| (#[trigger] masdar_form(*desc, polarity)) is Some,
            i <= polarities.len(),
            table@ == rows.take(i + 1),
        decreases polarities.len() - i,
    {
        let polarity = polarities[i];
        table.add_row();
        table.add(status_label_string(polarity));
        let morphemes = new_masdar(&polarity, &desc.preverb, &desc.stem);
        assert(masdar_form(*desc, polarity) is Some);
        let string = evaluate_morphemes(&morphemes);
        table.add(string);
        assert(table@[i + 1] =~= rows[i + 1]);
        i = i + 1;
        assert(table@ =~= rows.take(i + 1));
    }
    assert(table@ =~= rows);
    assert forall|j: int| 0 <= j < rows.len() implies #[trigger] rows[j].len() > 0 by {}
    table.to_string()
}

/*
{| class="wikitable"
|-
! унафэ наклоненэ !! уэ !! фэ
|-
| щыӀэныгъэ: || {{{псалъэпкъ}}}э! || фы{{{псалъэпкъ}}}э!
|-
| щымыӀэныгъэ: || умы{{{псалъэпкъ}}}э! || фымы{{{псалъэпкъ}}}э!
|}
*/
/// The table of the imperative: the pronouns of the second person as header, one row for
/// each polarity and a column for each number.
pub fn table_imperative(desc: &TemplateDesc) -> (s: String)
    requires
        forall|polarity: Polarity, number: Number| (#[trigger] imperative_form(
            *desc,
            polarity,
            number,
        )) is Some,
    ensures
        s@ == table_text(imperative_rows(*desc)),
{
    let ghost rows = imperative_rows(*desc);
    let mut table = Wikitable::new();
    table.add(String::from_str("унафэ наклоненэ"));
    let subject_case = desc.transitivity.subject_case();
    let numbers = Number::variants();
    let mut pronouns: Vec<Pronoun> = Vec::new();
    pronouns.push(Pronoun::new(subject_case, numbers[0], Person::Second));
    pronouns.push(Pronoun::new(subject_case, numbers[1], Person::Second));
    let texts = pronoun_texts(&pronouns);
    add_cells(&mut table, &texts);
    assert(pronouns@.map_values(|p: Pronoun| pronoun_text(p)) =~= number_variants().map_values(
        |number: Number|
            pronoun_text(
                Pronoun { case: subject_case_of(desc.transitivity), number, person: Person::Second },
            ),
    ));
    assert(table@[0] =~= rows[0]);
    assert(table@ =~= rows.take(1));
    let polarities = Polarity::variants();
    let mut i: usize = 0;
    while i < polarities.len()
        invariant
            rows == imperative_rows(*desc),
            polarities@ == polarity_variants(),
            numbers@ == number_variants(),
            subject_case == subject_case_of(desc.transitivity),
            forall|polarity: Polarity, number: Number| (#[trigger] imperative_form(
                *desc,
                polarity,
                number,
            )) is Some,
            i <= polarities.len(),
            table@ == rows.take(i + 1),
        decreases polarities.len() - i,
    {
        let polarity = polarities[i];
        let ghost cells = number_variants().map_values(
            |number: Number| imperative_form(*desc, polarity, number).unwrap() + seq!['!'],
        );
        table.add_row();
        table.add(status_label_string(polarity));
        let ghost start = table@;
        let mut j: usize = 0;
        assert(table@ =~= start.update(i + 1, start[i + 1] + cells.take(0)));
        while j < numbers.len()
            invariant
                numbers@ == number_variants(),
                subject_case == subject_case_of(desc.transitivity),
                cells == number_variants().map_values(
                    |number: Number| imperative_form(*desc, polarity, number).unwrap() + seq!['!'],
                ),
                forall|polarity: Polarity, number: Number| (#[trigger] imperative_form(
                    *desc,
                    polarity,
                    number,
                )) is Some,
                start.len() == i + 2,
                j <= numbers.len(),
                table@ == start.update(i + 1, start[i + 1] + cells.take(j as int)),
            decreases numbers.len() - j,
        {
            let number = numbers[j];
            let (abs_marker, erg_marker) = get_person_markers(
                &subject_case,
                &Person::Second,
                &number,
            );
            let morphemes = new_imperative(
                &polarity,
                &desc.preverb,
                &desc.stem,
                &abs_marker,
                &erg_marker,
                &desc.transitivity,
            );
            assert(imperative_form(*desc, polarity, number) is Some);
            let mut string = evaluate_morphemes(&morphemes);
            push_char(&mut string, '!');
            assert(cells[j as int] == imperative_form(*desc, polarity, numbers@[j as int]).unwrap()
                + seq!['!']);
            assert(string@ == cells[j as int]);
            table.add(string);
            assert(cells.take(j + 1) =~= cells.take(j as int).push(cells[j as int]));
            j = j + 1;
            assert(table@ =~= start.update(i + 1, start[i + 1] + cells.take(j as int)));
        }
        assert(cells.take(j as int) =~= cells);
        assert(table@[i + 1] =~= rows[i + 1]);
        i = i + 1;
        assert(table@ =~= rows.take(i + 1));
    }
    assert(table@ =~= rows);
    assert forall|j: int| 0 <= j < rows.len() implies #[trigger] rows[j].len() > 0 by {
        if j > 0 {
            assert(rows[j][0] == status_label(polarity_variants()[j - 1]));
        }
    }
    table.to_string()
}

/*
    {| class="wikitable"
    |-
    ! Инфинитив (масдар) щхьэкӀэ зэхъуэкӀа !! сэ  !! уэ !! ар !! дэ !! фэ !! ахэр
    |-
    | щыӀэныгъэ: || сы{{{псалъэпкъ}}}эн || у{{{псалъэпкъ}}}эн || {{{псалъэпкъ}}}эн || ды{{{псалъэпкъ}}}эн || фы{{{псалъэпкъ}}}эн || {{{псалъэпкъ}}}эн(хэ)
    |-
    | щымыӀэныгъэ: || сымы{{{псалъэпкъ}}}эн || умы{{{псалъэпкъ}}}эн || мы{{{псалъэпкъ}}}эн || дымы{{{псалъэпкъ}}}эн || фымы{{{псалъэпкъ}}}эн || мы{{{псалъэпкъ}}}эн(хэ)
    |}
*/
/// The table of the masdar with person markers.
pub fn table_masdar_personal(desc: &TemplateDesc) -> (s: String)
    requires
        mood_defined(*desc, PersonalMood::MasdarPersonal),
    ensures
        s@ == table_text(polarity_rows(*desc, "Инфинитив (масдар) щхьэкӀэ зэхъуэкӀа"@, PersonalMood::MasdarPersonal)),
{
    polarity_table(desc, "Инфинитив (масдар) щхьэкӀэ зэхъуэкӀа", PersonalMood::MasdarPersonal)
}

/*
{| class="wikitable"
|-
! Ре-кӀэ унафэ наклоненэ !! сэ  !! уэ !! ар !! дэ !! фэ !! ахэр
|-
| щыӀэныгъэ: || сре{{{псалъэпкъ}}}э || уре{{{псалъэпкъ}}}э || ире{{{псалъэпкъ}}}э || дре{{{псалъэпкъ}}}э || фре{{{псалъэпкъ}}}э || ире{{{псалъэпкъ}}}э
|-
| щымыӀэныгъэ: || сремы{{{псалъэпкъ}}}э || уремы{{{псалъэпкъ}}}э || иремы{{{псалъэпкъ}}}э || дремы{{{псалъэпкъ}}}э || фремы{{{псалъэпкъ}}}э || иремы{{{псалъэпкъ}}}э
|}
*/
/// The table of the imperative with "ре".
pub fn table_imperative_raj(desc: &TemplateDesc) -> (s: String)
    requires
        mood_defined(*desc, PersonalMood::ImperativeRaj),
    ensures
        s@ == table_text(polarity_rows(*desc, "Ре-кӀэ унафэ наклоненэ"@, PersonalMood::ImperativeRaj)),
{
    polarity_table(desc, "Ре-кӀэ унафэ наклоненэ", PersonalMood::ImperativeRaj)
}

/// The table of the indicative mood, a row for each tense and polarity.
pub fn table_indicative(desc: &TemplateDesc) -> (s: String)
    requires
        mood_defined(*desc, PersonalMood::Indicative),
    ensures
        s@ == table_text(tense_rows(*desc, "ЗэраӀуатэ наклоненэ"@, PersonalMood::Indicative)),
{
    tense_table(desc, "ЗэраӀуатэ наклоненэ", PersonalMood::Indicative)
}

/// The table of the interrogative mood, a row for each tense and polarity.
pub fn table_interrogative(desc: &TemplateDesc) -> (s: String)
    requires
        mood_defined(*desc, PersonalMood::Interrogative),
    ensures
        s@ == table_text(tense_rows(*desc, "ЗэрыупщӀэ наклоненэ"@, PersonalMood::Interrogative)),
{
    tense_table(desc, "ЗэрыупщӀэ наклоненэ", PersonalMood::Interrogative)
}

/// The table of the conditional mood, a row for each of its tenses and each polarity.
pub fn table_conditional(desc: &TemplateDesc) -> (s: String)
    requires
        mood_defined(*desc, PersonalMood::Conditional),
    ensures
        s@ == table_text(tense_rows(*desc, "условнэ ипэжыпӀэкӀэ щыӀэ наклоненэ"@, PersonalMood::Conditional)),
{
    tense_table(desc, "условнэ ипэжыпӀэкӀэ щыӀэ наклоненэ", PersonalMood::Conditional)
}

/// The table of the second conditional mood, a row for each of its tenses and each
/// polarity.
pub fn table_conditional_2(desc: &TemplateDesc) -> (s: String)
    requires
        mood_defined(*desc, PersonalMood::Conditional2),
    ensures
        s@ == table_text(tense_rows(*desc, "условнэ ипэжыпӀэкӀэ щыӀэ наклоненэ"@, PersonalMood::Conditional2)),
{
    tense_table(desc, "условнэ ипэжыпӀэкӀэ щыӀэ наклоненэ", PersonalMood::Conditional2)
}

/// The tables of a template, in order.
pub open spec fn template_tables(d: TemplateDesc) -> Seq<Seq<char>> {
    seq![
        table_text(masdar_rows(d)),
        table_text(polarity_rows(d, "Инфинитив (масдар) щхьэкӀэ зэхъуэкӀа"@, PersonalMood::MasdarPersonal)),
        table_text(imperative_rows(d)),
        table_text(polarity_rows(d, "Ре-кӀэ унафэ наклоненэ"@, PersonalMood::ImperativeRaj)),
        table_text(tense_rows(d, "ЗэраӀуатэ наклоненэ"@, PersonalMood::Indicative)),
        table_text(tense_rows(d, "ЗэрыупщӀэ наклоненэ"@, PersonalMood::Interrogative)),
        table_text(tense_rows(d, "условнэ ипэжыпӀэкӀэ щыӀэ наклоненэ"@, PersonalMood::Conditional)),
        table_text(tense_rows(d, "условнэ ипэжыпӀэкӀэ щыӀэ наклоненэ"@, PersonalMood::Conditional2)),
    ]
}

/// Tables one after the other, each followed by a separating line.
pub open spec fn separated_tables(tables: Seq<Seq<char>>) -> Seq<char>
    decreases tables.len(),
{
    if tables.len() == 0 {
        seq![]
    } else {
        separated_tables(tables.drop_last()) + tables.last() + "\n----------------------------------------------\n"@
    }
}

/// The wiki page of a template: a comment naming it, its tables and the closing markup.
pub open spec fn template_page(d: TemplateDesc) -> Seq<char> {
    "<!-- Template:Wt/kbd/"@ + d.original_string@ + " -->\n"@ + separated_tables(
        template_tables(d),
    ) + "|}<noinclude>\n[[Category:Wt/kbd]]\n</noinclude>"@
}

/// Adds the table at index `k` of some tables to those before it.
fn push_table(r: &mut Vec<String>, table: String, Ghost(tables): Ghost<Seq<Seq<char>>>, k: usize)
    requires
        k < tables.len(),
        string_views(old(r)@) == tables.take(k as int),
        table@ == tables[k as int],
    ensures
        string_views(final(r)@) == tables.take(k + 1),
{
    let ghost before = string_views(r@);
    r.push(table);
    assert(string_views(r@) =~= before.push(tables[k as int]));
    assert(string_views(r@) =~= tables.take(k + 1));
}

/// The tables of a template, in order.
fn all_tables(desc: &TemplateDesc) -> (r: Vec<String>)
    requires
        tables_defined(*desc),
    ensures
        string_views(r@) == template_tables(*desc),
{
    let ghost tables = template_tables(*desc);
    let mut r: Vec<String> = Vec::new();
    assert(string_views(r@) =~= tables.take(0));
    // Инфинитив (масдар)
    push_table(&mut r, table_masdar(desc), Ghost(tables), 0);
    // Инфинитив (масдар) щхьэкӀэ зэхъуэкӀа
    push_table(&mut r, table_masdar_personal(desc), Ghost(tables), 1);
    // унафэ наклоненэ
    push_table(&mut r, table_imperative(desc), Ghost(tables), 2);
    // Ре-кӀэ унафэ наклоненэ
    push_table(&mut r, table_imperative_raj(desc), Ghost(tables), 3);
    // The moods of tenses need mostly the same logic, as only the endings change.
    push_table(&mut r, table_indicative(desc), Ghost(tables), 4);
    push_table(&mut r, table_interrogative(desc), Ghost(tables), 5);
    push_table(&mut r, table_conditional(desc), Ghost(tables), 6);
    push_table(&mut r, table_conditional_2(desc), Ghost(tables), 7);
    assert(tables.take(8) =~= tables);
    r
}

/// The wiki page with all the conjugation tables of a template.
pub fn create_template(desc: TemplateDesc) -> (result: String)
    requires
        tables_defined(desc),
    ensures
        result@ == template_page(desc),
{
    let mut result = String::from_str("<!-- Template:Wt/kbd/");
    push_text(&mut result, desc.original_string.as_str());
    push_text(&mut result, " -->\n");
    let ghost head = result@;
    let r = all_tables(&desc);
    let ghost tables = template_tables(desc);
    let mut i: usize = 0;
    assert(tables.take(0) =~= seq![]);
    while i < r.len()
        invariant
            string_views(r@) == tables,
            i <= r.len(),
            result@ == head + separated_tables(tables.take(i as int)),
        decreases r.len() - i,
    {
        push_text(&mut result, r[i].as_str());
        push_text(&mut result, "\n----------------------------------------------\n");
        assert(tables.take(i + 1).drop_last() =~= tables.take(i as int));
        assert(r@[i as int]@ == tables[i as int]);
        i = i + 1;
        assert(result@ =~= head + separated_tables(tables.take(i as int)));
    }
    assert(tables.take(i as int) =~= tables);
    push_text(&mut result, "|}<noinclude>\n[[Category:Wt/kbd]]\n</noinclude>");
    assert(result@ =~= template_page(desc));
    result
}


// ---------------------------------------------------------------------------
// Whether the tables can be written
// ---------------------------------------------------------------------------

/// Every number and person has its column.
proof fn lemma_number_person_complete(np: (Number, Person))
    ensures
        exists|k: int| 0 <= k < 6 && number_person_pairs()[k] == np,
{
    match np {
        (Number::Singular, Person::First) => assert(number_person_pairs()[0] == np),
        (Number::Singular, Person::Second) => assert(number_person_pairs()[1] == np),
        (Number::Singular, Person::Third) => assert(number_person_pairs()[2] == np),
        (Number::Plural, Person::First) => assert(number_person_pairs()[3] == np),
        (Number::Plural, Person::Second) => assert(number_person_pairs()[4] == np),
        (Number::Plural, Person::Third) => assert(number_person_pairs()[5] == np),
    }
}

/// Every tense and polarity has its row.
proof fn lemma_tense_polarity_complete(tp: (Tense, Polarity))
    ensures
        exists|k: int| 0 <= k < 20 && tense_polarity_pairs()[k] == tp,
{
    match tp {
        (Tense::Present, Polarity::Positive) => assert(tense_polarity_pairs()[0] == tp),
        (Tense::Present, Polarity::Negative) => assert(tense_polarity_pairs()[1] == tp),
        (Tense::Imperfect, Polarity::Positive) => assert(tense_polarity_pairs()[2] == tp),
        (Tense::Imperfect, Polarity::Negative) => assert(tense_polarity_pairs()[3] == tp),
        (Tense::Perfect, Polarity::Positive) => assert(tense_polarity_pairs()[4] == tp),
        (Tense::Perfect, Polarity::Negative) => assert(tense_polarity_pairs()[5] == tp),
        (Tense::PlusQuamPerfect, Polarity::Positive) => assert(tense_polarity_pairs()[6] == tp),
        (Tense::PlusQuamPerfect, Polarity::Negative) => assert(tense_polarity_pairs()[7] == tp),
        (Tense::FarPast1, Polarity::Positive) => assert(tense_polarity_pairs()[8] == tp),
        (Tense::FarPast1, Polarity::Negative) => assert(tense_polarity_pairs()[9] == tp),
        (Tense::FarPast2, Polarity::Positive) => assert(tense_polarity_pairs()[10] == tp),
        (Tense::FarPast2, Polarity::Negative) => assert(tense_polarity_pairs()[11] == tp),
        (Tense::Aorist1, Polarity::Positive) => assert(tense_polarity_pairs()[12] == tp),
        (Tense::Aorist1, Polarity::Negative) => assert(tense_polarity_pairs()[13] == tp),
        (Tense::Aorist2, Polarity::Positive) => assert(tense_polarity_pairs()[14] == tp),
        (Tense::Aorist2, Polarity::Negative) => assert(tense_polarity_pairs()[15] == tp),
        (Tense::Future1, Polarity::Positive) => assert(tense_polarity_pairs()[16] == tp),
        (Tense::Future1, Polarity::Negative) => assert(tense_polarity_pairs()[17] == tp),
        (Tense::Future2, Polarity::Positive) => assert(tense_polarity_pairs()[18] == tp),
        (Tense::Future2, Polarity::Negative) => assert(tense_polarity_pairs()[19] == tp),
    }
}

/// The morphemes of the form of a mood for a tense, a polarity, a number and a person.
fn personal_morphemes_of(
    desc: &TemplateDesc,
    mood: PersonalMood,
    tense: Tense,
    polarity: Polarity,
    number: Number,
    person: Person,
) -> (morphemes: VecDeque<Morpheme>)
    requires
        mood_has_tense(mood, tense),
    ensures
        morphemes_view(morphemes@) == personal_morphemes(*desc, mood, tense, polarity, (number, person)),
{
    let subject_case = desc.transitivity.subject_case();
    let (abs_marker, erg_marker) = get_person_markers(&subject_case, &person, &number);
    match mood {
        PersonalMood::MasdarPersonal => new_masdar_personal(
            &polarity,
            &desc.preverb,
            &desc.stem,
            &abs_marker,
            &erg_marker,
        ),
        PersonalMood::ImperativeRaj => new_imperative_raj(
            &polarity,
            &desc.preverb,
            &desc.stem,
            &person,
            &number,
        ),
        PersonalMood::Indicative => new_indicative(
            &polarity,
            &tense,
            &desc.preverb,
            &desc.stem,
            &abs_marker,
            &erg_marker,
        ),
        PersonalMood::Interrogative => new_interrogative(
            &polarity,
            &tense,
            &desc.preverb,
            &desc.stem,
            &abs_marker,
            &erg_marker,
        ),
        PersonalMood::Conditional => new_conditional(
            &polarity,
            &tense,
            &desc.preverb,
            &desc.stem,
            &abs_marker,
            &erg_marker,
        ),
        PersonalMood::Conditional2 => new_conditional_2(
            &polarity,
            &tense,
            &desc.preverb,
            &desc.stem,
            &abs_marker,
            &erg_marker,
        ),
    }
}

/// Whether every form of a mood that its table shows can be written.
fn mood_writable(desc: &TemplateDesc, mood: PersonalMood) -> (r: bool)
    ensures
        r == mood_defined(*desc, mood),
{
    let pairs = number_and_person();
    let tps = tense_and_polarity();
    let mut k: usize = 0;
    while k < tps.len()
        invariant
            pairs@ == number_person_pairs(),
            tps@ == tense_polarity_pairs(),
            k <= tps.len(),
            forall|a: int, b: int|
                #![trigger tps@[a], pairs@[b]]
                0 <= a < k && 0 <= b < 6 && mood_has_tense(mood, tps@[a].0) ==> personal_form(
                    *desc,
                    mood,
                    tps@[a].0,
                    tps@[a].1,
                    pairs@[b],
                ) is Some,
        decreases tps.len() - k,
    {
        let (tense, polarity) = tps[k];
        if has_tense(mood, tense) {
            let mut m: usize = 0;
            while m < pairs.len()
                invariant
                    pairs@ == number_person_pairs(),
                    tps@ == tense_polarity_pairs(),
                    k < tps.len(),
                    tps@[k as int] == (tense, polarity),
                    mood_has_tense(mood, tense),
                    m <= pairs.len(),
                    forall|b: int|
                        0 <= b < m ==> personal_form(*desc, mood, tense, polarity, #[trigger] pairs@[b])
                            is Some,
                decreases pairs.len() - m,
            {
                let (number, person) = pairs[m];
                let morphemes = personal_morphemes_of(desc, mood, tense, polarity, number, person);
                if try_evaluate_morphemes(&morphemes).is_none() {
                    assert(personal_form(*desc, mood, tense, polarity, pairs@[m as int]) is None);
                    return false;
                }
                m = m + 1;
            }
        }
        k = k + 1;
    }
    assert forall|tense: Tense, polarity: Polarity, np: (Number, Person)|
        mood_has_tense(mood, tense) implies (#[trigger] personal_form(
        *desc,
        mood,
        tense,
        polarity,
        np,
    )) is Some by {
        lemma_tense_polarity_complete((tense, polarity));
        lemma_number_person_complete(np);
        let a = choose|a: int| 0 <= a < 20 && tense_polarity_pairs()[a] == (tense, polarity);
        let b = choose|b: int| 0 <= b < 6 && number_person_pairs()[b] == np;
        assert(tps@[a] == (tense, polarity) && pairs@[b] == np);
    }
    true
}

/// Whether every form of the masdar table can be written.
fn masdar_writable(desc: &TemplateDesc) -> (r: bool)
    ensures
        r == (forall|polarity: Polarity| (#[trigger] masdar_form(*desc, polarity)) is Some),
{
    let positive = new_masdar(&Polarity::Positive, &desc.preverb, &desc.stem);
    let negative = new_masdar(&Polarity::Negative, &desc.preverb, &desc.stem);
    let r = try_evaluate_morphemes(&positive).is_some() && try_evaluate_morphemes(
        &negative,
    ).is_some();
    assert(r ==> forall|polarity: Polarity| (#[trigger] masdar_form(*desc, polarity)) is Some) by {
        if r {
            assert forall|polarity: Polarity| (#[trigger] masdar_form(*desc, polarity)) is Some by {
                match polarity {
                    Polarity::Positive => {},
                    Polarity::Negative => {},
                }
            }
        }
    }
    assert(!r ==> !(masdar_form(*desc, Polarity::Positive) is Some && masdar_form(
        *desc,
        Polarity::Negative,
    ) is Some));
    r
}

/// Whether every form of the imperative table can be written.
fn imperative_writable(desc: &TemplateDesc) -> (r: bool)
    ensures
        r == (forall|polarity: Polarity, number: Number| (#[trigger] imperative_form(
            *desc,
            polarity,
            number,
        )) is Some),
{
    let subject_case = desc.transitivity.subject_case();
    let polarities = Polarity::variants();
    let numbers = Number::variants();
    let mut i: usize = 0;
    while i < polarities.len()
        invariant
            polarities@ == polarity_variants(),
            numbers@ == number_variants(),
            subject_case == subject_case_of(desc.transitivity),
            i <= polarities.len(),
            forall|a: int, b: int|
                #![trigger polarities@[a], numbers@[b]]
                0 <= a < i && 0 <= b < 2 ==> imperative_form(*desc, polarities@[a], numbers@[b])
                    is Some,
        decreases polarities.len() - i,
    {
        let polarity = polarities[i];
        let mut j: usize = 0;
        while j < numbers.len()
            invariant
                polarities@ == polarity_variants(),
                numbers@ == number_variants(),
                subject_case == subject_case_of(desc.transitivity),
                i < polarities.len(),
                polarity == polarities@[i as int],
                j <= numbers.len(),
                forall|b: int|
                    0 <= b < j ==> imperative_form(*desc, polarity, #[trigger] numbers@[b]) is Some,
            decreases numbers.len() - j,
        {
            let number = numbers[j];
            let (abs_marker, erg_marker) = get_person_markers(
                &subject_case,
                &Person::Second,
                &number,
            );
            let morphemes = new_imperative(
                &polarity,
                &desc.preverb,
                &desc.stem,
                &abs_marker,
                &erg_marker,
                &desc.transitivity,
            );
            if try_evaluate_morphemes(&morphemes).is_none() {
                assert(imperative_form(*desc, polarity, number) is None);
                return false;
            }
            j = j + 1;
        }
        i = i + 1;
    }
    assert forall|polarity: Polarity, number: Number| (#[trigger] imperative_form(
        *desc,
        polarity,
        number,
    )) is Some by {
        let a: int = if polarity == Polarity::Positive {
            0
        } else {
            1
        };
        let b: int = if number == Number::Singular {
            0
        } else {
            1
        };
        assert(polarities@[a] == polarity && numbers@[b] == number);
    }
    true
}

/// Whether every form that the tables of a template show can be written, so that
/// `create_template` can write them.
pub fn tables_writable(desc: &TemplateDesc) -> (r: bool)
    ensures
        r == tables_defined(*desc),
{
    masdar_writable(desc) && imperative_writable(desc) && mood_writable(
        desc,
        PersonalMood::MasdarPersonal,
    ) && mood_writable(desc, PersonalMood::ImperativeRaj) && mood_writable(
        desc,
        PersonalMood::Indicative,
    ) && mood_writable(desc, PersonalMood::Interrogative) && mood_writable(
        desc,
        PersonalMood::Conditional,
    ) && mood_writable(desc, PersonalMood::Conditional2)
}

} // verus!
