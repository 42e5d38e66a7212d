//! Morphology: the grammatical categories of the verb and the builders that lay out
//! the morphemes of each verb form.
use std::collections::VecDeque;

use vstd::prelude::*;
use vstd::std_specs::iter::IteratorSpec;

use crate::ortho::{self, letters_of, parses, Consonant, Letter};
use crate::text::{push_char, str_chars, string_of};
use crate::wiki::template::VerbStem;

verus! {

pub enum Mood {
    Imperative,
    Indicative,
    Interogative,
    Subjunctive,
    Conditional,
    Concessive,
}

pub enum TenseSuffix {
    R,
    Ta,
    A,
    Sh,
    Gha,
    N,
    Nu,
}

#[derive(Debug, Clone, Copy, PartialEq, Eq, Structural)]
pub enum Tense {
    Present,
    Imperfect,
    Perfect,
    PlusQuamPerfect,
    FarPast1,
    FarPast2,
    Aorist1,
    Aorist2,
    Future1,
    Future2,
}

pub open spec fn tense_variants() -> Seq<Tense> {
    seq![
        Tense::Present,
        Tense::Imperfect,
        Tense::Perfect,
        Tense::PlusQuamPerfect,
        Tense::FarPast1,
        Tense::FarPast2,
        Tense::Aorist1,
        Tense::Aorist2,
        Tense::Future1,
        Tense::Future2,
    ]
}

impl Tense {
    /// All tenses, in order.
    pub fn variants() -> (v: Vec<Self>)
        ensures
            v@ == tense_variants(),
    {
        let v = vec![
            Tense::Present,
            Tense::Imperfect,
            Tense::Perfect,
            Tense::PlusQuamPerfect,
            Tense::FarPast1,
            Tense::FarPast2,
            Tense::Aorist1,
            Tense::Aorist2,
            Tense::Future1,
            Tense::Future2,
        ];
        assert(v@ =~= tense_variants());
        v
    }

    /// All tenses, in order, one after the other.
    pub fn variants_iter() -> (it: std::vec::IntoIter<Self>)
        ensures
            it.remaining() == tense_variants(),
    {
        broadcast use vstd::std_specs::vec::axiom_spec_into_iter;

        Self::variants().into_iter()
    }
}

/// Representation of the sound form of a preverb.
///
/// къэ-, къы-, къ-
/// хэ-, хы-, х-
/// дэ-, ды-, д-
#[derive(Debug, Clone, Copy, PartialEq, Eq, Structural)]
pub enum PreverbSoundForm {
    Full,
    Reduced,
    BeforeVowel,
}

#[derive(Debug, Clone, Copy, PartialEq, Eq, Structural)]
pub enum Transitivity {
    Transitive,
    Intransitive,
}

pub open spec fn subject_case_of(t: Transitivity) -> Case {
    match t {
        Transitivity::Transitive => Case::Ergative,
        Transitivity::Intransitive => Case::Absolutive,
    }
}

impl Transitivity {
    pub fn subject_case(&self) -> (c: Case)
        ensures
            c == subject_case_of(*self),
    {
        match self {
            Transitivity::Transitive => Case::Ergative,
            Transitivity::Intransitive => Case::Absolutive,
        }
    }

    pub fn direct_object_case(&self) -> (c: Option<Case>)
        ensures
            c == (match *self {
                Transitivity::Transitive => Some(Case::Absolutive),
                Transitivity::Intransitive => None,
            }),
    {
        match self {
            Transitivity::Transitive => Some(Case::Absolutive),
            Transitivity::Intransitive => None,
        }
    }
}

#[derive(Debug, Clone, Copy, PartialEq, Eq, Structural)]
pub struct Pronoun {
    pub case: Case,
    pub number: Number,
    pub person: Person,
}

/// The text of a personal pronoun.
pub open spec fn pronoun_text(p: Pronoun) -> Seq<char> {
    match (p.person, p.number, p.case) {
        (Person::First, Number::Singular, _) => seq!['с', 'э'],
        (Person::Second, Number::Singular, _) => seq!['у', 'э'],
        (Person::First, Number::Plural, _) => seq!['д', 'э'],
        (Person::Second, Number::Plural, _) => seq!['ф', 'э'],
        (Person::Third, Number::Singular, Case::Absolutive) => seq!['а', 'р'],
        (Person::Third, Number::Plural, Case::Absolutive) => seq!['а', 'х', 'э', 'р'],
        (Person::Third, Number::Singular, Case::Ergative) => seq!['а', 'б', 'ы'],
        (Person::Third, Number::Plural, Case::Ergative) => seq!['а', 'б', 'ы', 'х', 'э', 'м'],
    }
}

/// The six pronouns of a case: singular then plural, first to third person.
pub open spec fn pronouns_of_case(case: Case) -> Seq<Pronoun> {
    seq![
        Pronoun { case, number: Number::Singular, person: Person::First },
        Pronoun { case, number: Number::Singular, person: Person::Second },
        Pronoun { case, number: Number::Singular, person: Person::Third },
        Pronoun { case, number: Number::Plural, person: Person::First },
        Pronoun { case, number: Number::Plural, person: Person::Second },
        Pronoun { case, number: Number::Plural, person: Person::Third },
    ]
}

/// The four pronouns of a person: singular then plural, absolutive then ergative.
pub open spec fn pronouns_of_person(person: Person) -> Seq<Pronoun> {
    seq![
        Pronoun { case: Case::Absolutive, number: Number::Singular, person },
        Pronoun { case: Case::Ergative, number: Number::Singular, person },
        Pronoun { case: Case::Absolutive, number: Number::Plural, person },
        Pronoun { case: Case::Ergative, number: Number::Plural, person },
    ]
}

impl Pronoun {
    pub fn new(case: Case, number: Number, person: Person) -> (p: Self)
        ensures
            p == (Pronoun { case, number, person }),
    {
        Self { case, number, person }
    }

    /// The pronouns of a case, one for each number and person.
    pub fn variants_case(case: &Case) -> (v: Vec<Self>)
        ensures
            v@ == pronouns_of_case(*case),
    {
        let numbers = Number::variants();
        let persons = Person::variants();
        let mut v: Vec<Self> = Vec::new();
        let mut i: usize = 0;
        while i < numbers.len()
            invariant
                numbers@ == number_variants(),
                persons@ == person_variants(),
                i <= numbers.len(),
                v@ == pronouns_of_case(*case).take(3 * i),
            decreases numbers.len() - i,
        {
            let mut j: usize = 0;
            while j < persons.len()
                invariant
                    numbers@ == number_variants(),
                    persons@ == person_variants(),
                    i < numbers.len(),
                    j <= persons.len(),
                    v@ == pronouns_of_case(*case).take(3 * i + j),
                decreases persons.len() - j,
            {
                v.push(Pronoun::new(*case, numbers[i], persons[j]));
                j = j + 1;
                assert(v@ =~= pronouns_of_case(*case).take(3 * i + j));
            }
            i = i + 1;
        }
        assert(v@ =~= pronouns_of_case(*case));
        v
    }

    /// The pronouns of a person, one for each number and case.
    pub fn variants_person(person: &Person) -> (v: Vec<Self>)
        ensures
            v@ == pronouns_of_person(*person),
    {
        let numbers = Number::variants();
        let cases = Case::variants();
        let mut v: Vec<Self> = Vec::new();
        let mut i: usize = 0;
        while i < numbers.len()
            invariant
                numbers@ == number_variants(),
                cases@ == case_variants(),
                i <= numbers.len(),
                v@ == pronouns_of_person(*person).take(2 * i),
            decreases numbers.len() - i,
        {
            let mut j: usize = 0;
            while j < cases.len()
                invariant
                    numbers@ == number_variants(),
                    cases@ == case_variants(),
                    i < numbers.len(),
                    j <= cases.len(),
                    v@ == pronouns_of_person(*person).take(2 * i + j),
                decreases cases.len() - j,
            {
                v.push(Pronoun::new(cases[j], numbers[i], *person));
                j = j + 1;
                assert(v@ =~= pronouns_of_person(*person).take(2 * i + j));
            }
            i = i + 1;
        }
        assert(v@ =~= pronouns_of_person(*person));
        v
    }

    /// The text of the pronoun.
    pub fn as_str(&self) -> (s: &'static str)
        ensures
            s@ == pronoun_text(*self),
    {
        proof {
            reveal_strlit("сэ");
            reveal_strlit("уэ");
            reveal_strlit("дэ");
            reveal_strlit("фэ");
            reveal_strlit("ар");
            reveal_strlit("ахэр");
            reveal_strlit("абы");
            reveal_strlit("абыхэм");
        }
        match (self.person, self.number, self.case) {
            (Person::First, Number::Singular, _) => "сэ",
            (Person::Second, Number::Singular, _) => "уэ",
            (Person::First, Number::Plural, _) => "дэ",
            (Person::Second, Number::Plural, _) => "фэ",
            (Person::Third, Number::Singular, Case::Absolutive) => "ар",
            (Person::Third, Number::Plural, Case::Absolutive) => "ахэр",
            (Person::Third, Number::Singular, Case::Ergative) => "абы",
            (Person::Third, Number::Plural, Case::Ergative) => "абыхэм",
        }
    }

    /// The pronoun as text.
    pub fn to_string(&self) -> (s: String)
        ensures
            s@ == pronoun_text(*self),
    {
        match (self.person, self.number, self.case) {
            (Person::First, Number::Singular, _) => string_of(&['с', 'э']),
            (Person::Second, Number::Singular, _) => string_of(&['у', 'э']),
            (Person::First, Number::Plural, _) => string_of(&['д', 'э']),
            (Person::Second, Number::Plural, _) => string_of(&['ф', 'э']),
            (Person::Third, Number::Singular, Case::Absolutive) => string_of(&['а', 'р']),
            (Person::Third, Number::Plural, Case::Absolutive) => string_of(&['а', 'х', 'э', 'р']),
            (Person::Third, Number::Singular, Case::Ergative) => string_of(&['а', 'б', 'ы']),
            (Person::Third, Number::Plural, Case::Ergative) => string_of(
                &['а', 'б', 'ы', 'х', 'э', 'м'],
            ),
        }
    }
}

#[derive(Debug, Clone, Copy, PartialEq, Eq, Structural)]
pub enum Polarity {
    Positive,
    Negative,
}

pub open spec fn polarity_variants() -> Seq<Polarity> {
    seq![Polarity::Positive, Polarity::Negative]
}

/// The text that a polarity puts before a word ("мы" for the negative).
pub open spec fn polarity_prefix(p: Polarity) -> Seq<char> {
    match p {
        Polarity::Positive => seq![],
        Polarity::Negative => seq!['м', 'ы'],
    }
}

/// The text that a polarity puts after a word ("къым" for the negative).
pub open spec fn polarity_suffix(p: Polarity) -> Seq<char> {
    match p {
        Polarity::Positive => seq![],
        Polarity::Negative => seq!['к', 'ъ', 'ы', 'м'],
    }
}

impl Polarity {
    pub fn variants() -> (v: Vec<Self>)
        ensures
            v@ == polarity_variants(),
    {
        let v = vec![Polarity::Positive, Polarity::Negative];
        assert(v@ =~= polarity_variants());
        v
    }

    pub fn variants_iter() -> (it: std::vec::IntoIter<Self>)
        ensures
            it.remaining() == polarity_variants(),
    {
        broadcast use vstd::std_specs::vec::axiom_spec_into_iter;

        Self::variants().into_iter()
    }

    pub fn to_string_prefix(self) -> (s: String)
        ensures
            s@ == polarity_prefix(self),
    {
        match self {
            Polarity::Positive => String::new(),
            Polarity::Negative => string_of(&['м', 'ы']),
        }
    }

    pub fn to_string_suffix(self) -> (s: String)
        ensures
            s@ == polarity_suffix(self),
    {
        match self {
            Polarity::Positive => String::new(),
            Polarity::Negative => string_of(&['к', 'ъ', 'ы', 'м']),
        }
    }
}

/// A preverb, held as its full text (e.g. "дэ").
#[derive(Debug, Clone, PartialEq, Eq)]
pub struct Preverb {
    base: String,
}

impl View for Preverb {
    type V = Seq<char>;

    closed spec fn view(&self) -> Seq<char> {
        self.base@
    }
}

/// Whether a text ends with 'э' or 'ы', so that it has reduced forms.
pub open spec fn ends_with_e_or_y(s: Seq<char>) -> bool {
    s.len() > 0 && (s.last() == 'э' || s.last() == 'ы')
}

/// The text of a preverb in one of its sound forms.
pub open spec fn preverb_form_text(base: Seq<char>, form: PreverbSoundForm) -> Seq<char> {
    match form {
        PreverbSoundForm::Full => base,
        PreverbSoundForm::Reduced => base.drop_last().push('ы'),
        PreverbSoundForm::BeforeVowel => base.drop_last(),
    }
}

/// The reduced form of a preverb is its form before a vowel followed by 'ы' ("дэ" gives
/// "д" and "ды").
pub proof fn preverb_reduced_form(base: Seq<char>)
    ensures
        preverb_form_text(base, PreverbSoundForm::Reduced) == preverb_form_text(
            base,
            PreverbSoundForm::BeforeVowel,
        ).push('ы'),
        preverb_form_text(base, PreverbSoundForm::Full) == base,
{
}

/// The last consonant among the letters of a text.
pub open spec fn last_consonant_of_text(s: Seq<char>) -> Option<Consonant> {
    crate::wiki::template::last_consonant_letter(letters_of(s))
}

impl Preverb {
    /// A preverb with the given text; the empty text is an error.
    pub fn try_from(base: &str) -> (r: Result<Self, String>)
        ensures
            r is Ok <==> base@.len() > 0,
            r matches Ok(p) ==> p@ == base@,
            r matches Err(e) ==> e@ == "Preverb must not be empty"@,
    {
        if base.is_empty() {
            return Err(String::from_str("Preverb must not be empty"));
        }
        Ok(Preverb { base: String::from_str(base) })
    }

    /// The text of the preverb.
    pub fn as_str(&self) -> (s: &str)
        ensures
            s@ == self@,
    {
        self.base.as_str()
    }

    /// An equal copy of the preverb.
    pub fn duplicate(&self) -> (r: Self)
        ensures
            r == *self,
    {
        Preverb { base: self.base.clone() }
    }

    pub fn first_letter(&self) -> (l: Letter)
        requires
            parses(self@),
            letters_of(self@).len() > 0,
        ensures
            l == letters_of(self@)[0],
    {
        let letters = match ortho::parse(self.base.as_str()) {
            Ok(l) => l,
            Err(_) => {
                proof {
                    assert(false);
                }
                return Letter::Vowel(ortho::Vowel::A);
            },
        };
        letters[0]
    }

    pub fn last_consonant(&self) -> (c: Option<Consonant>)
        requires
            parses(self@),
        ensures
            c == last_consonant_of_text(self@),
    {
        let letters = match ortho::parse(self.base.as_str()) {
            Ok(l) => l,
            Err(_) => {
                proof {
                    assert(false);
                }
                return None;
            },
        };
        let ghost ls = letters@;
        let mut last: Option<Consonant> = None;
        let mut i: usize = 0;
        while i < letters.len()
            invariant
                ls == letters@,
                ls == letters_of(self@),
                i <= ls.len(),
                last == crate::wiki::template::last_consonant_letter(ls.take(i as int)),
            decreases ls.len() - i,
        {
            assert(ls.take(i + 1).drop_last() =~= ls.take(i as int));
            if let Letter::Consonant(consonant) = letters[i] {
                last = Some(consonant);
            }
            i = i + 1;
        }
        assert(ls.take(ls.len() as int) =~= ls);
        last
    }

    pub fn form(&self, form: &PreverbSoundForm) -> (s: String)
        requires
            *form != PreverbSoundForm::Full ==> ends_with_e_or_y(self@),
        ensures
            s@ == preverb_form_text(self@, *form),
    {
        match form {
            PreverbSoundForm::Full => self.base.clone(),
            PreverbSoundForm::Reduced => self.reduced(),
            PreverbSoundForm::BeforeVowel => self.before_vowel(),
        }
    }

    fn before_vowel(&self) -> (s: String)
        requires
            ends_with_e_or_y(self@),
        ensures
            s@ == self@.drop_last(),
    {
        let cs = str_chars(self.base.as_str());
        let n = cs.len();
        string_of(&cs.as_slice()[0..n - 1])
    }

    fn reduced(&self) -> (s: String)
        requires
            ends_with_e_or_y(self@),
        ensures
            s@ == self@.drop_last().push('ы'),
    {
        let mut s = self.before_vowel();
        push_char(&mut s, 'ы');
        s
    }

    fn get_string(&self, form: PreverbSoundForm) -> (s: String)
        requires
            ends_with_e_or_y(self@),
        ensures
            s@ == preverb_form_text(self@, form),
    {
        match form {
            PreverbSoundForm::Full => self.base.clone(),
            PreverbSoundForm::Reduced => self.reduced(),
            PreverbSoundForm::BeforeVowel => self.before_vowel(),
        }
    }
}

/// A morpheme of a verb form.
#[derive(Debug, Clone, PartialEq, Eq)]
pub enum Morpheme {
    Preverb(Preverb),
    PersonMarker(PersonMarker),
    NegationPrefix,
    RajImperative,
    Stem(VerbStem),
    Generic(String),
}

/// The mathematical value of a morpheme: its texts as character sequences.
pub enum MorphemeView {
    Preverb(Seq<char>),
    PersonMarker(PersonMarker),
    NegationPrefix,
    RajImperative,
    Stem(VerbStem),
    Generic(Seq<char>),
}

impl View for Morpheme {
    type V = MorphemeView;

    open spec fn view(&self) -> MorphemeView {
        match self {
            Morpheme::Preverb(p) => MorphemeView::Preverb(p@),
            Morpheme::PersonMarker(m) => MorphemeView::PersonMarker(*m),
            Morpheme::NegationPrefix => MorphemeView::NegationPrefix,
            Morpheme::RajImperative => MorphemeView::RajImperative,
            Morpheme::Stem(s) => MorphemeView::Stem(*s),
            Morpheme::Generic(g) => MorphemeView::Generic(g@),
        }
    }
}

/// The values of a sequence of morphemes.
pub open spec fn morphemes_view(ms: Seq<Morpheme>) -> Seq<MorphemeView> {
    ms.map_values(|m: Morpheme| m@)
}

/// The placeholder that stands for the stem in a template.
pub open spec fn stem_placeholder() -> Seq<char> {
    "{{{псалъэпкъ}}}"@
}

/// The text of a morpheme.
pub open spec fn morpheme_text(m: MorphemeView) -> Seq<char> {
    match m {
        MorphemeView::Preverb(b) => b,
        MorphemeView::PersonMarker(pm) => marker_text(pm),
        MorphemeView::NegationPrefix => seq!['м', 'ы'],
        MorphemeView::RajImperative => seq!['р', 'е'],
        MorphemeView::Stem(_) => stem_placeholder(),
        MorphemeView::Generic(g) => g,
    }
}

/// The morpheme that a text stands for.
pub open spec fn morpheme_of_text(s: Seq<char>) -> MorphemeView {
    if s == seq!['м', 'ы'] {
        MorphemeView::NegationPrefix
    } else if s == seq!['р', 'е'] {
        MorphemeView::RajImperative
    } else {
        MorphemeView::Generic(s)
    }
}

impl Morpheme {
    /// The morpheme as text.
    pub fn to_string(&self) -> (s: String)
        ensures
            s@ == morpheme_text(self@),
    {
        match self {
            Morpheme::Preverb(preverb) => preverb.base.clone(),
            Morpheme::PersonMarker(person_marker) => person_marker.base_string(),
            Morpheme::NegationPrefix => string_of(&['м', 'ы']),
            Morpheme::RajImperative => string_of(&['р', 'е']),
            Morpheme::Stem(_) => String::from_str("{{{псалъэпкъ}}}"),
            Morpheme::Generic(generic) => generic.clone(),
        }
    }

    /// The morpheme that a text stands for: the negation prefix, the raj imperative, or a
    /// generic one.
    pub fn from(base: &str) -> (m: Self)
        ensures
            m@ == morpheme_of_text(base@),
    {
        let cs = str_chars(base);
        if cs.len() == 2 && cs[0] == 'м' && cs[1] == 'ы' {
            assert(base@ =~= seq!['м', 'ы']);
            return Morpheme::NegationPrefix;
        }
        if cs.len() == 2 && cs[0] == 'р' && cs[1] == 'е' {
            assert(base@ =~= seq!['р', 'е']);
            return Morpheme::RajImperative;
        }
        assert(cs.len() == 2 ==> base@ =~= seq![cs@[0], cs@[1]]);
        Morpheme::Generic(String::from_str(base))
    }

    pub fn first_letter(&self) -> (l: Option<Letter>)
        requires
            parses(morpheme_text(self@)),
        ensures
            l == (if letters_of(morpheme_text(self@)).len() > 0 {
                Some(letters_of(morpheme_text(self@))[0])
            } else {
                None
            }),
    {
        let letters = self.to_letters();
        if letters.len() > 0 {
            Some(letters[0])
        } else {
            None
        }
    }

    pub fn last_latter(&self) -> (l: Option<Letter>)
        requires
            parses(morpheme_text(self@)),
        ensures
            l == (if letters_of(morpheme_text(self@)).len() > 0 {
                Some(letters_of(morpheme_text(self@)).last())
            } else {
                None
            }),
    {
        let letters = self.to_letters();
        if letters.len() > 0 {
            Some(letters[letters.len() - 1])
        } else {
            None
        }
    }

    pub fn to_letters(&self) -> (ls: Vec<Letter>)
        requires
            parses(morpheme_text(self@)),
        ensures
            ls@ == letters_of(morpheme_text(self@)),
    {
        let s = self.to_string();
        match ortho::parse(s.as_str()) {
            Ok(l) => l,
            Err(_) => {
                proof {
                    assert(false);
                }
                Vec::new()
            },
        }
    }

    pub fn is_generic_certain(&self, generic: &str) -> (r: bool)
        ensures
            r == (self@ matches MorphemeView::Generic(g) && g == generic@),
    {
        match self {
            Morpheme::Generic(g) => crate::text::str_eq(g.as_str(), generic),
            _ => false,
        }
    }

    pub fn new_generic(base: &str) -> (m: Self)
        ensures
            m@ == MorphemeView::Generic(base@),
    {
        Morpheme::Generic(String::from_str(base))
    }

    pub fn new_negative_prefix() -> (m: Self)
        ensures
            m@ == MorphemeView::NegationPrefix,
    {
        Morpheme::NegationPrefix
    }

    pub fn new_imperative_raj() -> (m: Self)
        ensures
            m@ == MorphemeView::RajImperative,
    {
        Morpheme::RajImperative
    }

    pub fn new_preverb(preverb: &Preverb) -> (m: Self)
        ensures
            m@ == MorphemeView::Preverb(preverb@),
    {
        Morpheme::Preverb(preverb.duplicate())
    }

    pub fn new_person_marker(marker: &PersonMarker) -> (m: Self)
        ensures
            m@ == MorphemeView::PersonMarker(*marker),
    {
        Morpheme::PersonMarker(*marker)
    }
}

#[derive(Debug, Clone, Copy, PartialEq, Eq, Structural)]
pub enum Case {
    /// (-р) subject of intransitive verb, direct object of transitive verb
    Absolutive,
    /// (-м) subject of transitive verb
    Ergative,
}

pub open spec fn case_variants() -> Seq<Case> {
    seq![Case::Absolutive, Case::Ergative]
}

/// The case that a case ending stands for.
pub open spec fn case_of_text(s: Seq<char>) -> Option<Case> {
    if s == seq!['р'] {
        Some(Case::Absolutive)
    } else if s == seq!['м'] {
        Some(Case::Ergative)
    } else {
        None
    }
}

impl Case {
    pub fn variants() -> (v: Vec<Self>)
        ensures
            v@ == case_variants(),
    {
        let v = vec![Case::Absolutive, Case::Ergative];
        assert(v@ =~= case_variants());
        v
    }

    pub fn variants_iter() -> (it: std::vec::IntoIter<Self>)
        ensures
            it.remaining() == case_variants(),
    {
        broadcast use vstd::std_specs::vec::axiom_spec_into_iter;

        Self::variants().into_iter()
    }

    /// The case written by an ending: "р" absolutive, "м" ergative.
    pub fn try_from(s: &str) -> (r: Result<Self, String>)
        ensures
            r is Ok <==> case_of_text(s@) is Some,
            r matches Ok(c) ==> case_of_text(s@) == Some(c),
            r matches Err(e) ==> e@ == "Invalid case: "@ + s@,
    {
        let cs = str_chars(s);
        if cs.len() == 1 {
            assert(s@ =~= seq![cs@[0]]);
            if cs[0] == 'р' {
                return Ok(Case::Absolutive);
            }
            if cs[0] == 'м' {
                return Ok(Case::Ergative);
            }
        }
        let mut msg = String::from_str("Invalid case: ");
        msg.append(s);
        Err(msg)
    }
}

/// The number of a noun or verb.
#[derive(Debug, Clone, Copy, PartialEq, Eq, Structural)]
pub enum Number {
    Singular,
    Plural,
}

pub open spec fn number_variants() -> Seq<Number> {
    seq![Number::Singular, Number::Plural]
}

impl Number {
    pub fn variants() -> (v: Vec<Self>)
        ensures
            v@ == number_variants(),
    {
        let v = vec![Number::Singular, Number::Plural];
        assert(v@ =~= number_variants());
        v
    }

    pub fn variants_iter() -> (it: std::vec::IntoIter<Self>)
        ensures
            it.remaining() == number_variants(),
    {
        broadcast use vstd::std_specs::vec::axiom_spec_into_iter;

        Self::variants().into_iter()
    }
}

/// The person of a verb.
#[derive(Debug, Clone, Copy, PartialEq, Eq, Structural)]
pub enum Person {
    First,
    Second,
    Third,
}

pub open spec fn person_variants() -> Seq<Person> {
    seq![Person::First, Person::Second, Person::Third]
}

impl Person {
    pub fn variants() -> (v: Vec<Self>)
        ensures
            v@ == person_variants(),
    {
        let v = vec![Person::First, Person::Second, Person::Third];
        assert(v@ =~= person_variants());
        v
    }

    pub fn variants_iter() -> (it: std::vec::IntoIter<Self>)
        ensures
            it.remaining() == person_variants(),
    {
        broadcast use vstd::std_specs::vec::axiom_spec_into_iter;

        Self::variants().into_iter()
    }
}

#[derive(Debug, Clone, Copy, PartialEq, Eq, Structural)]
pub struct PersonMarker {
    pub person: Person,
    pub number: Number,
    /// The case of the person marker: not the actual case, but more so the "surface level"
    /// appearance of the person markers.
    pub case: Case,
}

pub open spec fn marker(person: Person, number: Number, case: Case) -> PersonMarker {
    PersonMarker { person, number, case }
}

/// The base text of a person marker.
pub open spec fn marker_text(m: PersonMarker) -> Seq<char> {
    match (m.person, m.number, m.case) {
        (Person::First, Number::Singular, Case::Absolutive) => seq!['с', 'ы'],
        (Person::Second, Number::Singular, Case::Absolutive) => seq!['у'],
        (Person::Third, Number::Singular, Case::Absolutive) => seq![],
        (Person::First, Number::Plural, Case::Absolutive) => seq!['д', 'ы'],
        (Person::Second, Number::Plural, Case::Absolutive) => seq!['ф', 'ы'],
        (Person::Third, Number::Plural, Case::Absolutive) => seq![],
        (Person::First, Number::Singular, Case::Ergative) => seq!['с'],
        (Person::Second, Number::Singular, Case::Ergative) => seq!['б'],
        (Person::Third, Number::Singular, Case::Ergative) => seq!['и'],
        (Person::First, Number::Plural, Case::Ergative) => seq!['д'],
        (Person::Second, Number::Plural, Case::Ergative) => seq!['ф'],
        (Person::Third, Number::Plural, Case::Ergative) => seq!['я'],
    }
}

/// The person marker that a text stands for, when `PersonMarker::try_from` reads it.
pub open spec fn marker_of_text(s: Seq<char>) -> Option<PersonMarker> {
    if s == seq!['с', 'ы'] {
        Some(marker(Person::First, Number::Singular, Case::Absolutive))
    } else if s == seq!['у'] {
        Some(marker(Person::Second, Number::Singular, Case::Absolutive))
    } else if s == seq!['д', 'ы'] {
        Some(marker(Person::First, Number::Plural, Case::Absolutive))
    } else if s == seq!['ф', 'ы'] {
        Some(marker(Person::Second, Number::Plural, Case::Absolutive))
    } else if s == seq!['с'] {
        Some(marker(Person::First, Number::Singular, Case::Ergative))
    } else if s == seq!['п'] || s == seq!['б'] {
        Some(marker(Person::Second, Number::Singular, Case::Ergative))
    } else if s == seq!['и'] {
        Some(marker(Person::Third, Number::Singular, Case::Ergative))
    } else if s == seq!['д'] {
        Some(marker(Person::First, Number::Plural, Case::Ergative))
    } else if s == seq!['ф'] {
        Some(marker(Person::Second, Number::Plural, Case::Ergative))
    } else if s == seq!['я'] {
        Some(marker(Person::Third, Number::Plural, Case::Ergative))
    } else {
        None
    }
}

/// Every person marker with a text stands for itself: the marker that its text stands for
/// is the marker again. The third person absolutive markers have no text; of the others,
/// `PersonMarker::try_from` reads those of one letter (its limit counts bytes).
pub proof fn person_marker_round_trip(m: PersonMarker)
    requires
        !(m.person == Person::Third && m.case == Case::Absolutive),
    ensures
        0 < marker_text(m).len() <= 2,
        marker_of_text(marker_text(m)) == Some(m),
{
    assert(m == marker(m.person, m.number, m.case));
    assert(seq!['с', 'ы'][0] == 'с' && seq!['д', 'ы'][0] == 'д' && seq!['ф', 'ы'][0] == 'ф');
    assert(seq!['с', 'ы'].len() == 2 && seq!['д', 'ы'].len() == 2 && seq!['ф', 'ы'].len() == 2);
    assert(seq!['с'].len() == 1 && seq!['д'].len() == 1 && seq!['ф'].len() == 1);
    assert(seq!['с'][0] == 'с' && seq!['у'][0] == 'у' && seq!['п'][0] == 'п');
    assert(seq!['б'][0] == 'б' && seq!['и'][0] == 'и' && seq!['д'][0] == 'д');
    assert(seq!['ф'][0] == 'ф' && seq!['я'][0] == 'я');
    match (m.person, m.number, m.case) {
        (Person::First, Number::Singular, Case::Absolutive) => {
            assert(marker_of_text(seq!['с', 'ы']) == Some(marker(Person::First, Number::Singular, Case::Absolutive)));
        },
        (Person::Second, Number::Singular, Case::Absolutive) => {
            assert(marker_of_text(seq!['у']) == Some(marker(Person::Second, Number::Singular, Case::Absolutive)));
        },
        (Person::First, Number::Plural, Case::Absolutive) => {
            assert(marker_of_text(seq!['д', 'ы']) == Some(marker(Person::First, Number::Plural, Case::Absolutive)));
        },
        (Person::Second, Number::Plural, Case::Absolutive) => {
            assert(marker_of_text(seq!['ф', 'ы']) == Some(marker(Person::Second, Number::Plural, Case::Absolutive)));
        },
        (Person::First, Number::Singular, Case::Ergative) => {
            assert(marker_of_text(seq!['с']) == Some(marker(Person::First, Number::Singular, Case::Ergative)));
        },
        (Person::Second, Number::Singular, Case::Ergative) => {
            assert(marker_of_text(seq!['б']) == Some(marker(Person::Second, Number::Singular, Case::Ergative)));
        },
        (Person::Third, Number::Singular, Case::Ergative) => {
            assert(marker_of_text(seq!['и']) == Some(marker(Person::Third, Number::Singular, Case::Ergative)));
        },
        (Person::First, Number::Plural, Case::Ergative) => {
            assert(marker_of_text(seq!['д']) == Some(marker(Person::First, Number::Plural, Case::Ergative)));
        },
        (Person::Second, Number::Plural, Case::Ergative) => {
            assert(marker_of_text(seq!['ф']) == Some(marker(Person::Second, Number::Plural, Case::Ergative)));
        },
        (Person::Third, Number::Plural, Case::Ergative) => {
            assert(marker_of_text(seq!['я']) == Some(marker(Person::Third, Number::Plural, Case::Ergative)));
        },
        _ => {},
    }
}

/// The voiced form of the first letter of a marker: 'с' to 'з', 'ф' to 'в'.
pub open spec fn voiced_char(c: char) -> char {
    if c == 'с' {
        'з'
    } else if c == 'ф' {
        'в'
    } else {
        c
    }
}

/// The voiceless form of the first letter of a marker: 'б' to 'п', 'д' to 'т'.
pub open spec fn voiceless_char(c: char) -> char {
    if c == 'б' {
        'п'
    } else if c == 'д' {
        'т'
    } else {
        c
    }
}

/// The text with the first occurrence of a character taken out.
pub open spec fn remove_first(s: Seq<char>, c: char) -> Seq<char>
    decreases s.len(),
{
    if s.len() == 0 {
        s
    } else if s[0] == c {
        s.drop_first()
    } else {
        seq![s[0]] + remove_first(s.drop_first(), c)
    }
}

/// The marker's form before the 'о' of the present tense.
pub open spec fn before_o_text(m: PersonMarker) -> Seq<char> {
    let base = marker_text(m);
    if base.len() > 0 && base.last() == 'ы' {
        remove_first(base, 'ы')
    } else {
        base
    }
}

impl PersonMarker {
    /// The marker written as `value`. The length limit counts the bytes of the UTF-8 text,
    /// so that of the markers only those of one letter are read; "сы", "ды" and "фы" (four
    /// bytes each) are refused as too long, though the message speaks of characters.
    pub fn try_from(value: &str) -> (r: Result<Self, String>)
        ensures
            r is Ok <==> (value@.len() > 0 && value.len() <= 2 && marker_of_text(value@) is Some),
            r matches Ok(m) ==> marker_of_text(value@) == Some(m),
            r matches Err(e) ==> e@ == if value@.len() == 0 {
                "Empty string"@
            } else if value.len() > 2 {
                "String too long: "@ + value@ + ". A person marker can only have up to 2 chars"@
            } else {
                "Invalid person marker: "@ + value@
            },
    {
        if value.is_empty() {
            return Err(String::from_str("Empty string"));
        }
        if value.len() > 2 {
            let mut msg = String::from_str("String too long: ");
            msg.append(value);
            msg.append(". A person marker can only have up to 2 chars");
            return Err(msg);
        }
        let cs = str_chars(value);
        let n = cs.len();
        let found = if n == 1 {
            assert(value@ =~= seq![cs@[0]]);
            match cs[0] {
                'у' => Some(PersonMarker::new(Person::Second, Number::Singular, Case::Absolutive)),
                'с' => Some(PersonMarker::new(Person::First, Number::Singular, Case::Ergative)),
                'п' | 'б' => Some(PersonMarker::new(Person::Second, Number::Singular, Case::Ergative)),
                'и' => Some(PersonMarker::new(Person::Third, Number::Singular, Case::Ergative)),
                'д' => Some(PersonMarker::new(Person::First, Number::Plural, Case::Ergative)),
                'ф' => Some(PersonMarker::new(Person::Second, Number::Plural, Case::Ergative)),
                'я' => Some(PersonMarker::new(Person::Third, Number::Plural, Case::Ergative)),
                _ => None,
            }
        } else if n == 2 {
            assert(value@ =~= seq![cs@[0], cs@[1]]);
            match (cs[0], cs[1]) {
                ('с', 'ы') => Some(PersonMarker::new(Person::First, Number::Singular, Case::Absolutive)),
                ('д', 'ы') => Some(PersonMarker::new(Person::First, Number::Plural, Case::Absolutive)),
                ('ф', 'ы') => Some(PersonMarker::new(Person::Second, Number::Plural, Case::Absolutive)),
                _ => None,
            }
        } else {
            None
        };
        match found {
            Some(m) => Ok(m),
            None => {
                let mut msg = String::from_str("Invalid person marker: ");
                msg.append(value);
                Err(msg)
            },
        }
    }

    pub fn new(person: Person, number: Number, case: Case) -> (m: Self)
        ensures
            m == marker(person, number, case),
    {
        PersonMarker { person, number, case }
    }

    pub fn to_letters(self) -> (ls: Vec<Letter>)
        requires
            parses(marker_text(self)),
        ensures
            ls@ == letters_of(marker_text(self)),
    {
        let s = self.base_string();
        match ortho::parse(s.as_str()) {
            Ok(l) => l,
            Err(_) => {
                proof {
                    assert(false);
                }
                Vec::new()
            },
        }
    }

    pub fn is_third(&self) -> (r: bool)
        ensures
            r == (self.person == Person::Third),
    {
        self.person == Person::Third
    }

    pub fn is_second_singular(&self) -> (r: bool)
        ensures
            r == (self.person == Person::Second && self.number == Number::Singular),
    {
        self.person == Person::Second && self.number == Number::Singular
    }

    pub fn is_third_ergative(&self) -> (r: bool)
        ensures
            r == (self.person == Person::Third && self.case == Case::Ergative),
    {
        self.person == Person::Third && self.case == Case::Ergative
    }

    pub fn is_third_singular_ergative(&self) -> (r: bool)
        ensures
            r == (self.person == Person::Third && self.number == Number::Singular && self.case
                == Case::Ergative),
    {
        self.person == Person::Third && self.number == Number::Singular && self.case
            == Case::Ergative
    }

    pub fn is_third_plural_ergative(&self) -> (r: bool)
        ensures
            r == (self.person == Person::Third && self.number == Number::Plural && self.case
                == Case::Ergative),
    {
        self.person == Person::Third && self.number == Number::Plural && self.case
            == Case::Ergative
    }

    pub fn is_ergative(&self) -> (r: bool)
        ensures
            r == (self.case == Case::Ergative),
    {
        self.case == Case::Ergative
    }

    pub fn is_absolutive(&self) -> (r: bool)
        ensures
            r == (self.case == Case::Absolutive),
    {
        self.case == Case::Absolutive
    }

    /// The marker with its first letter voiced; the marker must start with 'с', 'ф', 'б',
    /// 'д' or 'и'.
    pub fn as_voiced(&self) -> (s: String)
        requires
            marker_text(*self).len() > 0,
            ({
                let c = marker_text(*self)[0];
                c == 'с' || c == 'ф' || c == 'б' || c == 'д' || c == 'и'
            }),
        ensures
            s@ == seq![voiced_char(marker_text(*self)[0])] + marker_text(*self).drop_first(),
    {
        let base = str_chars(self.base_string().as_str());
        let old = base[0];
        let new = match old {
            'с' => 'з',
            'ф' => 'в',
            x => x,
        };
        replace_first_char(&base, new)
    }

    /// The marker with its first letter voiceless; the marker must start with 'б', 'д', 'с',
    /// 'ф' or 'и'.
    pub fn as_voiceless(&self) -> (s: String)
        requires
            marker_text(*self).len() > 0,
            ({
                let c = marker_text(*self)[0];
                c == 'б' || c == 'д' || c == 'с' || c == 'ф' || c == 'и'
            }),
        ensures
            s@ == seq![voiceless_char(marker_text(*self)[0])] + marker_text(*self).drop_first(),
    {
        let base = str_chars(self.base_string().as_str());
        let old = base[0];
        let new = match old {
            'б' => 'п',
            'д' => 'т',
            x => x,
        };
        replace_first_char(&base, new)
    }

    /// The marker's form after a consonant: 'я' becomes 'а'; the marker must start with 'я',
    /// 'с', 'б', 'д', 'ф' or 'и'.
    pub fn as_after_consonant(&self) -> (s: String)
        requires
            marker_text(*self).len() > 0,
            ({
                let c = marker_text(*self)[0];
                c == 'я' || c == 'с' || c == 'б' || c == 'д' || c == 'ф' || c == 'и'
            }),
        ensures
            s@ == seq![
                if marker_text(*self)[0] == 'я' {
                    'а'
                } else {
                    marker_text(*self)[0]
                },
            ] + marker_text(*self).drop_first(),
    {
        let base = str_chars(self.base_string().as_str());
        let old = base[0];
        let new = match old {
            'я' => 'а',
            x => x,
        };
        replace_first_char(&base, new)
    }

    /// The marker's form before 'о': a final 'ы' goes away.
    pub fn as_before_o(&self) -> (s: String)
        ensures
            s@ == before_o_text(*self),
    {
        let base = self.base_string();
        let cs = str_chars(base.as_str());
        if cs.len() > 0 && cs[cs.len() - 1] == 'ы' {
            assert(cs@[cs@.len() - 1] == 'ы');
            remove_first_char(&cs, 'ы')
        } else {
            base
        }
    }

    pub fn base_string(&self) -> (s: String)
        ensures
            s@ == marker_text(*self),
    {
        let result: &[char] = match (self.person, self.number, self.case) {
            (Person::First, Number::Singular, Case::Absolutive) => &['с', 'ы'],
            (Person::Second, Number::Singular, Case::Absolutive) => &['у'],
            (Person::Third, Number::Singular, Case::Absolutive) => &[],
            (Person::First, Number::Plural, Case::Absolutive) => &['д', 'ы'],
            (Person::Second, Number::Plural, Case::Absolutive) => &['ф', 'ы'],
            (Person::Third, Number::Plural, Case::Absolutive) => &[],
            (Person::First, Number::Singular, Case::Ergative) => &['с'],
            (Person::Second, Number::Singular, Case::Ergative) => &['б'],
            (Person::Third, Number::Singular, Case::Ergative) => &['и'],
            (Person::First, Number::Plural, Case::Ergative) => &['д'],
            (Person::Second, Number::Plural, Case::Ergative) => &['ф'],
            (Person::Third, Number::Plural, Case::Ergative) => &['я'],
        };
        string_of(result)
    }
}

/// A text whose first character is replaced.
fn replace_first_char(cs: &Vec<char>, new: char) -> (s: String)
    requires
        cs@.len() > 0,
    ensures
        s@ == seq![new] + cs@.drop_first(),
{
    let mut s = String::new();
    push_char(&mut s, new);
    let mut i: usize = 1;
    while i < cs.len()
        invariant
            1 <= i <= cs.len(),
            s@ == seq![new] + cs@.subrange(1, i as int),
        decreases cs.len() - i,
    {
        push_char(&mut s, cs[i]);
        i = i + 1;
        assert(s@ =~= seq![new] + cs@.subrange(1, i as int));
    }
    assert(cs@.subrange(1, cs@.len() as int) =~= cs@.drop_first());
    s
}

proof fn lemma_remove_first_split(s: Seq<char>, c: char, k: int)
    requires
        0 <= k < s.len(),
        s[k] == c,
        forall|j: int| 0 <= j < k ==> s[j] != c,
    ensures
        remove_first(s, c) == s.take(k) + s.skip(k + 1),
    decreases k,
{
    if k == 0 {
        assert(s.take(0) + s.skip(1) =~= s.drop_first());
    } else {
        lemma_remove_first_split(s.drop_first(), c, k - 1);
        assert(seq![s[0]] + (s.drop_first().take(k - 1) + s.drop_first().skip(k)) =~= s.take(k)
            + s.skip(k + 1));
    }
}

/// A text with the first occurrence of a character taken out; the character occurs in it.
fn remove_first_char(cs: &Vec<char>, c: char) -> (s: String)
    requires
        cs@.contains(c),
    ensures
        s@ == remove_first(cs@, c),
{
    let mut k: usize = 0;
    while k < cs.len()
        invariant
            k <= cs.len(),
            cs@.contains(c),
            forall|j: int| 0 <= j < k ==> cs@[j] != c,
        ensures
            k <= cs.len(),
            k < cs.len() ==> cs@[k as int] == c,
            forall|j: int| 0 <= j < k ==> cs@[j] != c,
        decreases cs.len() - k,
    {
        if cs[k] == c {
            break;
        }
        k = k + 1;
    }
    if k == cs.len() {
        proof {
            let j = choose|j: int| 0 <= j < cs@.len() && cs@[j] == c;
            assert(cs@[j] != c);
        }
    }
    proof {
        lemma_remove_first_split(cs@, c, k as int);
    }
    let mut s = string_of(&cs.as_slice()[0..k]);
    let mut i: usize = k + 1;
    while i < cs.len()
        invariant
            k < cs.len(),
            k + 1 <= i <= cs.len(),
            s@ == cs@.take(k as int) + cs@.subrange(k + 1, i as int),
        decreases cs.len() - i,
    {
        push_char(&mut s, cs[i]);
        i = i + 1;
        assert(s@ =~= cs@.take(k as int) + cs@.subrange(k + 1, i as int));
    }
    assert(cs@.subrange(k + 1, cs@.len() as int) =~= cs@.skip(k + 1));
    s
}


// ---------------------------------------------------------------------------
// Laying out the morphemes of a verb form
// ---------------------------------------------------------------------------

/// The preverb morpheme, if there is a preverb.
pub open spec fn preverb_part(preverb: Option<Preverb>) -> Seq<MorphemeView> {
    match preverb {
        Some(p) => seq![MorphemeView::Preverb(p@)],
        None => seq![],
    }
}

/// The negation prefix, for the negative polarity.
pub open spec fn negation_part(polarity: Polarity) -> Seq<MorphemeView> {
    if polarity == Polarity::Negative {
        seq![MorphemeView::NegationPrefix]
    } else {
        seq![]
    }
}

/// The ergative marker of the same person and number, if there is a marker.
pub open spec fn ergative_part(m: Option<PersonMarker>) -> Seq<MorphemeView> {
    match m {
        Some(x) => seq![MorphemeView::PersonMarker(marker(x.person, x.number, Case::Ergative))],
        None => seq![],
    }
}

/// The absolutive marker of the same person and number.
pub open spec fn absolutive_marker(m: PersonMarker) -> MorphemeView {
    MorphemeView::PersonMarker(marker(m.person, m.number, Case::Absolutive))
}

/// The morphemes of the masdar (infinitive).
pub open spec fn masdar_spec(polarity: Polarity, preverb: Option<Preverb>, stem: VerbStem) -> Seq<
    MorphemeView,
> {
    preverb_part(preverb) + negation_part(polarity) + seq![
        MorphemeView::Stem(stem),
        MorphemeView::Generic("н"@),
    ]
}

/// The morphemes of the imperative with "ре".
pub open spec fn imperative_raj_spec(
    polarity: Polarity,
    preverb: Option<Preverb>,
    stem: VerbStem,
    person: Person,
    number: Number,
) -> Seq<MorphemeView> {
    let number2 = if person == Person::Third && number == Number::Plural {
        Number::Singular
    } else {
        number
    };
    let marker_part = if preverb is Some && person == Person::Third {
        seq![]
    } else {
        seq![MorphemeView::PersonMarker(marker(person, number2, Case::Ergative))]
    };
    marker_part + preverb_part(preverb) + seq![MorphemeView::RajImperative] + negation_part(
        polarity,
    ) + seq![MorphemeView::Stem(stem)]
}

/// The morphemes of the masdar with person markers.
pub open spec fn masdar_personal_spec(
    polarity: Polarity,
    preverb: Option<Preverb>,
    stem: VerbStem,
    abs_marker: PersonMarker,
    erg_marker: Option<PersonMarker>,
) -> Seq<MorphemeView> {
    seq![absolutive_marker(abs_marker)] + preverb_part(preverb) + ergative_part(erg_marker)
        + negation_part(polarity) + seq![MorphemeView::Stem(stem), MorphemeView::Generic("н"@)]
}

/// The morphemes of the imperative.
pub open spec fn imperative_spec(
    polarity: Polarity,
    preverb: Option<Preverb>,
    stem: VerbStem,
    abs_marker: PersonMarker,
    erg_marker: Option<PersonMarker>,
    transitivity: Transitivity,
) -> Seq<MorphemeView> {
    let erg = match erg_marker {
        Some(m) => if polarity == Polarity::Positive && m.person == Person::Second && m.number
            == Number::Singular && transitivity == Transitivity::Transitive {
            seq![]
        } else {
            seq![MorphemeView::PersonMarker(marker(Person::Second, m.number, Case::Ergative))]
        },
        None => seq![],
    };
    let abs = if abs_marker.person != Person::Third && !(polarity == Polarity::Positive
        && abs_marker.person == Person::Second && abs_marker.number == Number::Singular
        && transitivity == Transitivity::Intransitive) {
        seq![MorphemeView::PersonMarker(marker(Person::Second, abs_marker.number, Case::Absolutive))]
    } else {
        seq![]
    };
    abs + preverb_part(preverb) + erg + negation_part(polarity) + seq![MorphemeView::Stem(stem)]
}

/// The suffix of the indicative mood for a tense and polarity.
pub open spec fn indicative_suffix(tense: Tense, polarity: Polarity) -> Seq<char> {
    let pos = polarity == Polarity::Positive;
    match tense {
        Tense::Present => if pos { "р"@ } else { "ркъым"@ },
        Tense::Imperfect => if pos { "рт"@ } else { "ртэкъым"@ },
        Tense::Perfect => if pos { "ащ"@ } else { "акъым"@ },
        Tense::PlusQuamPerfect => if pos { "ат"@ } else { "атэкъым"@ },
        Tense::FarPast1 => if pos { "гъащ"@ } else { "гъакъым"@ },
        Tense::FarPast2 => if pos { "гъат"@ } else { "гъатэкъым"@ },
        Tense::Aorist1 => if pos { "щ"@ } else { "къым"@ },
        Tense::Aorist2 => if pos { "т"@ } else { "тэкъым"@ },
        Tense::Future1 => if pos { "нщ"@ } else { "нкъым"@ },
        Tense::Future2 => if pos { "ну"@ } else { "нукъым"@ },
    }
}

/// The morphemes of the indicative mood.
pub open spec fn indicative_spec(
    polarity: Polarity,
    tense: Tense,
    preverb: Option<Preverb>,
    stem: VerbStem,
    abs_marker: PersonMarker,
    erg_marker: Option<PersonMarker>,
) -> Seq<MorphemeView> {
    let o = if polarity == Polarity::Positive && tense == Tense::Present {
        seq![MorphemeView::Generic("о"@)]
    } else {
        seq![]
    };
    seq![absolutive_marker(abs_marker)] + preverb_part(preverb) + ergative_part(erg_marker) + o
        + seq![MorphemeView::Stem(stem), MorphemeView::Generic(indicative_suffix(tense, polarity))]
}

/// The suffix of the interrogative mood for a tense and polarity.
pub open spec fn interrogative_suffix(tense: Tense, polarity: Polarity) -> Seq<char> {
    let pos = polarity == Polarity::Positive;
    match tense {
        Tense::Present => if pos { "рэ"@ } else { "ркъэ"@ },
        Tense::Imperfect => if pos { "рт"@ } else { "ртэкъым"@ },
        Tense::Perfect => if pos { "ащ"@ } else { "акъэ"@ },
        Tense::PlusQuamPerfect => if pos { "ат"@ } else { "атэкъэ"@ },
        Tense::FarPast1 => if pos { "гъащ"@ } else { "гъакъэ"@ },
        Tense::FarPast2 => if pos { "гъат"@ } else { "гъатэкъэ"@ },
        Tense::Aorist1 => if pos { ""@ } else { "къэ"@ },
        Tense::Aorist2 => if pos { "т"@ } else { "тэкъэ"@ },
        Tense::Future1 => if pos { "нщ"@ } else { "нкъэ"@ },
        Tense::Future2 => if pos { "ну"@ } else { "нукъэ"@ },
    }
}

/// The morphemes of the interrogative mood.
pub open spec fn interrogative_spec(
    polarity: Polarity,
    tense: Tense,
    preverb: Option<Preverb>,
    stem: VerbStem,
    abs_marker: PersonMarker,
    erg_marker: Option<PersonMarker>,
) -> Seq<MorphemeView> {
    seq![absolutive_marker(abs_marker)] + preverb_part(preverb) + ergative_part(erg_marker) + seq![
        MorphemeView::Stem(stem),
        MorphemeView::Generic(interrogative_suffix(tense, polarity)),
    ]
}

/// The tenses that the conditional and concessive moods have.
pub open spec fn is_conditional_tense(tense: Tense) -> bool {
    tense == Tense::Present || tense == Tense::Perfect || tense == Tense::FarPast1 || tense
        == Tense::Future1 || tense == Tense::Future2
}

/// The tense suffix of the conditional and concessive moods.
pub open spec fn conditional_suffix(tense: Tense) -> Seq<char> {
    match tense {
        Tense::Present => ""@,
        Tense::Perfect => "а"@,
        Tense::FarPast1 => "гъа"@,
        Tense::Future1 => "н"@,
        _ => "ну"@,
    }
}

/// The tense suffix of the second conditional and concessive moods.
pub open spec fn conditional_2_suffix(tense: Tense) -> Seq<char> {
    match tense {
        Tense::Present => "тэ"@,
        Tense::Perfect => "атэ"@,
        Tense::FarPast1 => "гъатэ"@,
        Tense::Future1 => "нтэ"@,
        _ => "нутэ"@,
    }
}

/// The morphemes of the conditional-like moods: a tense suffix (left out when empty) and
/// a mood ending.
pub open spec fn conditional_like_spec(
    polarity: Polarity,
    suffix: Seq<char>,
    ending: Seq<char>,
    preverb: Option<Preverb>,
    stem: VerbStem,
    abs_marker: PersonMarker,
    erg_marker: Option<PersonMarker>,
) -> Seq<MorphemeView> {
    let tense_part = if suffix.len() > 0 {
        seq![MorphemeView::Generic(suffix)]
    } else {
        seq![]
    };
    seq![absolutive_marker(abs_marker)] + preverb_part(preverb) + ergative_part(erg_marker)
        + negation_part(polarity) + seq![MorphemeView::Stem(stem)] + tense_part + seq![
        MorphemeView::Generic(ending),
    ]
}

/// The tense suffix of the subjunctive mood.
pub open spec fn subjunctive_suffix(tense: Tense, polarity: Polarity) -> Seq<char> {
    let pos = polarity == Polarity::Positive;
    if tense == Tense::Future1 {
        if pos { "нт"@ } else { "нтэкъым"@ }
    } else {
        if pos { "нут"@ } else { "нутэкъым"@ }
    }
}

/// The morphemes of the subjunctive mood.
pub open spec fn subjunctive_spec(
    polarity: Polarity,
    tense: Tense,
    preverb: Option<Preverb>,
    stem: VerbStem,
    abs_marker: PersonMarker,
    erg_marker: Option<PersonMarker>,
) -> Seq<MorphemeView> {
    seq![absolutive_marker(abs_marker)] + preverb_part(preverb) + ergative_part(erg_marker) + seq![
        MorphemeView::Stem(stem),
        MorphemeView::Generic(subjunctive_suffix(tense, polarity)),
    ]
}

// ---------------------------------------------------------------------------
// Laws of the tense suffixes
// ---------------------------------------------------------------------------

/// The characters of the suffix texts.
proof fn lemma_suffix_literals()
    ensures
        "р"@ == seq!['р'],
        "ркъым"@ == seq!['р', 'к', 'ъ', 'ы', 'м'],
        "рт"@ == seq!['р', 'т'],
        "ртэкъым"@ == seq!['р', 'т', 'э', 'к', 'ъ', 'ы', 'м'],
        "ащ"@ == seq!['а', 'щ'],
        "акъым"@ == seq!['а', 'к', 'ъ', 'ы', 'м'],
        "ат"@ == seq!['а', 'т'],
        "атэкъым"@ == seq!['а', 'т', 'э', 'к', 'ъ', 'ы', 'м'],
        "гъащ"@ == seq!['г', 'ъ', 'а', 'щ'],
        "гъакъым"@ == seq!['г', 'ъ', 'а', 'к', 'ъ', 'ы', 'м'],
        "гъат"@ == seq!['г', 'ъ', 'а', 'т'],
        "гъатэкъым"@ == seq!['г', 'ъ', 'а', 'т', 'э', 'к', 'ъ', 'ы', 'м'],
        "щ"@ == seq!['щ'],
        "къым"@ == seq!['к', 'ъ', 'ы', 'м'],
        "т"@ == seq!['т'],
        "тэкъым"@ == seq!['т', 'э', 'к', 'ъ', 'ы', 'м'],
        "нщ"@ == seq!['н', 'щ'],
        "нкъым"@ == seq!['н', 'к', 'ъ', 'ы', 'м'],
        "ну"@ == seq!['н', 'у'],
        "нукъым"@ == seq!['н', 'у', 'к', 'ъ', 'ы', 'м'],
        "рэ"@ == seq!['р', 'э'],
        "ркъэ"@ == seq!['р', 'к', 'ъ', 'э'],
        "акъэ"@ == seq!['а', 'к', 'ъ', 'э'],
        "атэкъэ"@ == seq!['а', 'т', 'э', 'к', 'ъ', 'э'],
        "гъакъэ"@ == seq!['г', 'ъ', 'а', 'к', 'ъ', 'э'],
        "гъатэкъэ"@ == seq!['г', 'ъ', 'а', 'т', 'э', 'к', 'ъ', 'э'],
        ""@ == Seq::<char>::empty(),
        "къэ"@ == seq!['к', 'ъ', 'э'],
        "тэкъэ"@ == seq!['т', 'э', 'к', 'ъ', 'э'],
        "нкъэ"@ == seq!['н', 'к', 'ъ', 'э'],
        "нукъэ"@ == seq!['н', 'у', 'к', 'ъ', 'э'],
        "а"@ == seq!['а'],
        "гъа"@ == seq!['г', 'ъ', 'а'],
        "н"@ == seq!['н'],
        "тэ"@ == seq!['т', 'э'],
        "атэ"@ == seq!['а', 'т', 'э'],
        "гъатэ"@ == seq!['г', 'ъ', 'а', 'т', 'э'],
        "нтэ"@ == seq!['н', 'т', 'э'],
        "нутэ"@ == seq!['н', 'у', 'т', 'э'],
        "нт"@ == seq!['н', 'т'],
        "нтэкъым"@ == seq!['н', 'т', 'э', 'к', 'ъ', 'ы', 'м'],
        "нут"@ == seq!['н', 'у', 'т'],
        "нутэкъым"@ == seq!['н', 'у', 'т', 'э', 'к', 'ъ', 'ы', 'м'],
        "экъым"@ == seq!['э', 'к', 'ъ', 'ы', 'м'],
        "э"@ == seq!['э'],
        "ым"@ == seq!['ы', 'м'],
        "гъ"@ == seq!['г', 'ъ'],
{
    reveal_strlit("р");
    reveal_strlit("ркъым");
    reveal_strlit("рт");
    reveal_strlit("ртэкъым");
    reveal_strlit("ащ");
    reveal_strlit("акъым");
    reveal_strlit("ат");
    reveal_strlit("атэкъым");
    reveal_strlit("гъащ");
    reveal_strlit("гъакъым");
    reveal_strlit("гъат");
    reveal_strlit("гъатэкъым");
    reveal_strlit("щ");
    reveal_strlit("къым");
    reveal_strlit("т");
    reveal_strlit("тэкъым");
    reveal_strlit("нщ");
    reveal_strlit("нкъым");
    reveal_strlit("ну");
    reveal_strlit("нукъым");
    reveal_strlit("рэ");
    reveal_strlit("ркъэ");
    reveal_strlit("акъэ");
    reveal_strlit("атэкъэ");
    reveal_strlit("гъакъэ");
    reveal_strlit("гъатэкъэ");
    reveal_strlit("");
    reveal_strlit("къэ");
    reveal_strlit("тэкъэ");
    reveal_strlit("нкъэ");
    reveal_strlit("нукъэ");
    reveal_strlit("а");
    reveal_strlit("гъа");
    reveal_strlit("н");
    reveal_strlit("тэ");
    reveal_strlit("атэ");
    reveal_strlit("гъатэ");
    reveal_strlit("нтэ");
    reveal_strlit("нутэ");
    reveal_strlit("нт");
    reveal_strlit("нтэкъым");
    reveal_strlit("нут");
    reveal_strlit("нутэкъым");
    reveal_strlit("экъым");
    reveal_strlit("э");
    reveal_strlit("ым");
    reveal_strlit("гъ");
}

/// The negative of a statement's suffix: a closing 'щ' gives way to 'къым', a closing 'т'
/// takes 'экъым' after it, and any other suffix takes 'къым'.
pub open spec fn negated_statement(s: Seq<char>) -> Seq<char> {
    if s.len() > 0 && s.last() == 'щ' {
        s.drop_last() + "къым"@
    } else if s.len() > 0 && s.last() == 'т' {
        s + "экъым"@
    } else {
        s + "къым"@
    }
}

/// The indicative tells every tense apart: in each polarity, two tenses never share a
/// suffix.
pub proof fn indicative_suffixes_tell_tenses_apart(t1: Tense, t2: Tense, polarity: Polarity)
    requires
        t1 != t2,
    ensures
        indicative_suffix(t1, polarity) != indicative_suffix(t2, polarity),
{
    lemma_suffix_literals();
    let a = indicative_suffix(t1, polarity);
    let b = indicative_suffix(t2, polarity);
    if a == b {
        assert(a.len() == b.len());
        if a.len() > 0 {
            assert(a[0] == b[0]);
        }
        if a.len() > 1 {
            assert(a[1] == b[1]);
        }
        if a.len() > 2 {
            assert(a[2] == b[2]);
        }
        if a.len() > 3 {
            assert(a[3] == b[3]);
        }
        if a.len() > 4 {
            assert(a[4] == b[4]);
        }
        if a.len() > 5 {
            assert(a[5] == b[5]);
        }
        if a.len() > 6 {
            assert(a[6] == b[6]);
        }
        if a.len() > 7 {
            assert(a[7] == b[7]);
        }
        if a.len() > 8 {
            assert(a[8] == b[8]);
        }
        match t1 {
            Tense::Present => {},
            Tense::Imperfect => {},
            Tense::Perfect => {},
            Tense::PlusQuamPerfect => {},
            Tense::FarPast1 => {},
            Tense::FarPast2 => {},
            Tense::Aorist1 => {},
            Tense::Aorist2 => {},
            Tense::Future1 => {},
            Tense::Future2 => {},
        }
    }
}

/// The negative statement of every tense is its positive statement negated: 'щ' becomes
/// 'къым', 'т' takes 'экъым', anything else takes 'къым'.
pub proof fn negative_statement_negates_the_positive(t: Tense)
    ensures
        indicative_suffix(t, Polarity::Negative) == negated_statement(
            indicative_suffix(t, Polarity::Positive),
        ),
{
    lemma_suffix_literals();
    match t {
        Tense::Present => {},
        Tense::Imperfect => {},
        Tense::Perfect => {},
        Tense::PlusQuamPerfect => {},
        Tense::FarPast1 => {},
        Tense::FarPast2 => {},
        Tense::Aorist1 => {},
        Tense::Aorist2 => {},
        Tense::Future1 => {},
        Tense::Future2 => {},
    }
}

/// A question differs from the statement only at its end. In the positive, the present
/// 'р' takes 'э' and the first aorist drops its 'щ'; the other tenses ask with the
/// statement's suffix. In the negative, the closing 'ым' of 'къым' becomes 'э', so that a
/// negative question is never the negative statement, but for the imperfect, which keeps
/// the statement's 'ртэкъым'.
pub proof fn question_is_the_statement_with_another_end(t: Tense)
    ensures
        interrogative_suffix(t, Polarity::Positive) == if t == Tense::Present {
            indicative_suffix(t, Polarity::Positive) + "э"@
        } else if t == Tense::Aorist1 {
            indicative_suffix(t, Polarity::Positive).drop_last()
        } else {
            indicative_suffix(t, Polarity::Positive)
        },
        t != Tense::Imperfect ==> indicative_suffix(t, Polarity::Negative) == interrogative_suffix(
            t,
            Polarity::Negative,
        ).drop_last() + "ым"@,
        t != Tense::Imperfect ==> interrogative_suffix(t, Polarity::Negative)
            != indicative_suffix(t, Polarity::Negative),
        t == Tense::Imperfect ==> interrogative_suffix(t, Polarity::Negative)
            == indicative_suffix(t, Polarity::Negative),
{
    lemma_suffix_literals();
    let q = interrogative_suffix(t, Polarity::Negative);
    let s = indicative_suffix(t, Polarity::Negative);
    match t {
        Tense::Present => {},
        Tense::Imperfect => {},
        Tense::Perfect => {},
        Tense::PlusQuamPerfect => {},
        Tense::FarPast1 => {},
        Tense::FarPast2 => {},
        Tense::Aorist1 => {},
        Tense::Aorist2 => {},
        Tense::Future1 => {},
        Tense::Future2 => {},
    }
    if t != Tense::Imperfect {
        assert(q.last() == 'э');
        assert(s.last() == 'м');
    }
}

/// The past tenses are built from smaller suffixes: the perfect is 'а' before the 'щ' of
/// the first aorist, the pluperfect 'а' before the 'т' of the second, the imperfect the
/// present 'р' before the 'т' of the second aorist; and the far pasts are 'гъ' before the
/// perfect and the pluperfect, in the statement, the question and both conditionals.
pub proof fn past_tenses_are_built_from_smaller_suffixes(polarity: Polarity)
    ensures
        indicative_suffix(Tense::Perfect, polarity) == "а"@ + indicative_suffix(
            Tense::Aorist1,
            polarity,
        ),
        indicative_suffix(Tense::PlusQuamPerfect, polarity) == "а"@ + indicative_suffix(
            Tense::Aorist2,
            polarity,
        ),
        indicative_suffix(Tense::Imperfect, polarity) == "р"@ + indicative_suffix(
            Tense::Aorist2,
            polarity,
        ),
        indicative_suffix(Tense::FarPast1, polarity) == "гъ"@ + indicative_suffix(
            Tense::Perfect,
            polarity,
        ),
        indicative_suffix(Tense::FarPast2, polarity) == "гъ"@ + indicative_suffix(
            Tense::PlusQuamPerfect,
            polarity,
        ),
        interrogative_suffix(Tense::FarPast1, polarity) == "гъ"@ + interrogative_suffix(
            Tense::Perfect,
            polarity,
        ),
        interrogative_suffix(Tense::FarPast2, polarity) == "гъ"@ + interrogative_suffix(
            Tense::PlusQuamPerfect,
            polarity,
        ),
        conditional_suffix(Tense::FarPast1) == "гъ"@ + conditional_suffix(Tense::Perfect),
        conditional_2_suffix(Tense::FarPast1) == "гъ"@ + conditional_2_suffix(Tense::Perfect),
{
    lemma_suffix_literals();
}

/// The conditional tells its tenses apart; the second conditional adds 'тэ' to the
/// conditional's suffix; where the statement ends in 'щ' (perfect, far past, future I) the
/// conditional's suffix is the statement's without it, and the future II shares the
/// statement's 'ну'.
pub proof fn conditional_suffixes_follow_the_statement(t1: Tense, t2: Tense)
    requires
        is_conditional_tense(t1),
        is_conditional_tense(t2),
    ensures
        t1 != t2 ==> conditional_suffix(t1) != conditional_suffix(t2),
        conditional_2_suffix(t1) == conditional_suffix(t1) + "тэ"@,
        t1 == Tense::Perfect || t1 == Tense::FarPast1 || t1 == Tense::Future1 ==> conditional_suffix(
            t1,
        ) + "щ"@ == indicative_suffix(t1, Polarity::Positive),
        t1 == Tense::Future2 ==> conditional_suffix(t1) == indicative_suffix(
            t1,
            Polarity::Positive,
        ),
{
    lemma_suffix_literals();
    let a = conditional_suffix(t1);
    let b = conditional_suffix(t2);
    if t1 != t2 && a == b {
        assert(a.len() == b.len());
        if a.len() > 0 {
            assert(a[0] == b[0]);
        }
        if a.len() > 1 {
            assert(a[1] == b[1]);
        }
        if a.len() > 2 {
            assert(a[2] == b[2]);
        }
        if a.len() > 3 {
            assert(a[3] == b[3]);
        }
        if a.len() > 4 {
            assert(a[4] == b[4]);
        }
        if a.len() > 5 {
            assert(a[5] == b[5]);
        }
        if a.len() > 6 {
            assert(a[6] == b[6]);
        }
        if a.len() > 7 {
            assert(a[7] == b[7]);
        }
        if a.len() > 8 {
            assert(a[8] == b[8]);
        }
    }
}

/// The subjunctive is the conditional's future suffix with 'т', and its negative is the
/// positive negated.
pub proof fn subjunctive_is_the_future_with_t(t: Tense, polarity: Polarity)
    requires
        t == Tense::Future1 || t == Tense::Future2,
    ensures
        subjunctive_suffix(t, Polarity::Positive) == conditional_suffix(t) + "т"@,
        subjunctive_suffix(t, Polarity::Negative) == negated_statement(
            subjunctive_suffix(t, Polarity::Positive),
        ),
{
    lemma_suffix_literals();
}

/// A form of the indicative or the interrogative ends in its tense suffix; the positive
/// future I statement ends in 'нщ' and the future II in 'ну'; the positive present
/// statement has the 'о' of the present right before the stem.
pub proof fn statement_and_question_end_in_their_suffix(
    polarity: Polarity,
    tense: Tense,
    preverb: Option<Preverb>,
    stem: VerbStem,
    abs_marker: PersonMarker,
    erg_marker: Option<PersonMarker>,
)
    ensures
        indicative_spec(polarity, tense, preverb, stem, abs_marker, erg_marker).last()
            == MorphemeView::Generic(indicative_suffix(tense, polarity)),
        interrogative_spec(polarity, tense, preverb, stem, abs_marker, erg_marker).last()
            == MorphemeView::Generic(interrogative_suffix(tense, polarity)),
        polarity == Polarity::Positive && tense == Tense::Future1 ==> indicative_spec(
            polarity,
            tense,
            preverb,
            stem,
            abs_marker,
            erg_marker,
        ).last() == MorphemeView::Generic("нщ"@),
        polarity == Polarity::Positive && tense == Tense::Future2 ==> indicative_spec(
            polarity,
            tense,
            preverb,
            stem,
            abs_marker,
            erg_marker,
        ).last() == MorphemeView::Generic("ну"@),
        ({
            let ms = indicative_spec(polarity, tense, preverb, stem, abs_marker, erg_marker);
            (polarity == Polarity::Positive && tense == Tense::Present) <==> ms[ms.len() - 3]
                == MorphemeView::Generic("о"@)
        }),
{
    lemma_suffix_literals();
    let ms = indicative_spec(polarity, tense, preverb, stem, abs_marker, erg_marker);
    assert(ms[ms.len() - 2] == MorphemeView::Stem(stem));
}

/// Adds the preverb in front, if there is one.
fn push_preverb(morphemes: &mut VecDeque<Morpheme>, preverb: &Option<Preverb>)
    ensures
        morphemes_view(final(morphemes)@) == preverb_part(*preverb) + morphemes_view(
            old(morphemes)@,
        ),
{
    if let Some(preverb) = preverb {
        let m = Morpheme::new_preverb(preverb);
        morphemes.push_front(m);
    }
    assert(morphemes_view(morphemes@) =~= preverb_part(*preverb) + morphemes_view(
        old(morphemes)@,
    ));
}

/// Adds the negation prefix in front, for the negative polarity.
fn push_negation(morphemes: &mut VecDeque<Morpheme>, polarity: &Polarity)
    ensures
        morphemes_view(final(morphemes)@) == negation_part(*polarity) + morphemes_view(
            old(morphemes)@,
        ),
{
    if *polarity == Polarity::Negative {
        morphemes.push_front(Morpheme::new_negative_prefix());
    }
    assert(morphemes_view(morphemes@) =~= negation_part(*polarity) + morphemes_view(
        old(morphemes)@,
    ));
}

/// Adds the ergative marker in front, if there is one.
fn push_ergative(morphemes: &mut VecDeque<Morpheme>, erg_marker: &Option<PersonMarker>)
    ensures
        morphemes_view(final(morphemes)@) == ergative_part(*erg_marker) + morphemes_view(
            old(morphemes)@,
        ),
{
    if let Some(m) = erg_marker {
        let marker = PersonMarker::new(m.person, m.number, Case::Ergative);
        push_person(morphemes, &marker);
    }
    assert(morphemes_view(morphemes@) =~= ergative_part(*erg_marker) + morphemes_view(
        old(morphemes)@,
    ));
}

/// Adds the absolutive marker of the same person and number in front.
fn push_absolutive(morphemes: &mut VecDeque<Morpheme>, abs_marker: &PersonMarker)
    ensures
        morphemes_view(final(morphemes)@) == seq![absolutive_marker(*abs_marker)]
            + morphemes_view(old(morphemes)@),
{
    let marker = PersonMarker::new(abs_marker.person, abs_marker.number, Case::Absolutive);
    push_person(morphemes, &marker);
}

/// Adds a person marker in front.
fn push_person(morphemes: &mut VecDeque<Morpheme>, marker: &PersonMarker)
    ensures
        morphemes_view(final(morphemes)@) == seq![MorphemeView::PersonMarker(*marker)]
            + morphemes_view(old(morphemes)@),
{
    let m = Morpheme::new_person_marker(marker);
    morphemes.push_front(m);
    assert(morphemes_view(morphemes@) =~= seq![MorphemeView::PersonMarker(*marker)]
        + morphemes_view(old(morphemes)@));
}

/// Adds a morpheme in front.
fn push_front_morpheme(morphemes: &mut VecDeque<Morpheme>, m: Morpheme)
    ensures
        morphemes_view(final(morphemes)@) == seq![m@] + morphemes_view(old(morphemes)@),
{
    let ghost v = m@;
    morphemes.push_front(m);
    assert(morphemes_view(morphemes@) =~= seq![v] + morphemes_view(old(morphemes)@));
}

/// Adds a morpheme at the back.
fn push_back_morpheme(morphemes: &mut VecDeque<Morpheme>, m: Morpheme)
    ensures
        morphemes_view(final(morphemes)@) == morphemes_view(old(morphemes)@).push(m@),
{
    morphemes.push_back(m);
    assert(morphemes_view(morphemes@) =~= morphemes_view(old(morphemes)@).push(m@));
}

/// Starts a verb form with just its stem.
fn stem_only(stem: &VerbStem) -> (morphemes: VecDeque<Morpheme>)
    ensures
        morphemes_view(morphemes@) == seq![MorphemeView::Stem(*stem)],
{
    let mut morphemes: VecDeque<Morpheme> = VecDeque::new();
    morphemes.push_back(Morpheme::Stem(stem.duplicate()));
    assert(morphemes_view(morphemes@) =~= seq![MorphemeView::Stem(*stem)]);
    morphemes
}

pub fn new_masdar(polarity: &Polarity, preverb: &Option<Preverb>, stem: &VerbStem) -> (r:
    VecDeque<Morpheme>)
    ensures
        morphemes_view(r@) == masdar_spec(*polarity, *preverb, *stem),
{
    let mut morphemes = stem_only(stem);
    push_back_morpheme(&mut morphemes, Morpheme::new_generic("н"));
    push_negation(&mut morphemes, polarity);
    push_preverb(&mut morphemes, preverb);
    assert(morphemes_view(morphemes@) =~= masdar_spec(*polarity, *preverb, *stem));
    morphemes
}

pub fn new_imperative_raj(
    polarity: &Polarity,
    preverb: &Option<Preverb>,
    stem: &VerbStem,
    person: &Person,
    number: &Number,
) -> (r: VecDeque<Morpheme>)
    ensures
        morphemes_view(r@) == imperative_raj_spec(*polarity, *preverb, *stem, *person, *number),
{
    let mut morphemes = stem_only(stem);
    push_negation(&mut morphemes, polarity);
    push_front_morpheme(&mut morphemes, Morpheme::new_imperative_raj());
    let ghost after_raj = morphemes_view(morphemes@);
    assert(after_raj =~= seq![MorphemeView::RajImperative] + negation_part(*polarity) + seq![
        MorphemeView::Stem(*stem),
    ]);
    push_preverb(&mut morphemes, preverb);
    // If there is a preverb present, the third person marker is not present
    if !(preverb.is_some() && *person == Person::Third) {
        let number = if *person == Person::Third && *number == Number::Plural {
            Number::Singular
        } else {
            *number
        };
        let marker = PersonMarker::new(*person, number, Case::Ergative);
        push_person(&mut morphemes, &marker);
    }
    assert(morphemes_view(morphemes@) =~= imperative_raj_spec(
        *polarity,
        *preverb,
        *stem,
        *person,
        *number,
    ));
    morphemes
}

/// The morphemes of the masdar with person markers; the absolutive marker must be
/// absolutive.
pub fn new_masdar_personal(
    polarity: &Polarity,
    preverb: &Option<Preverb>,
    stem: &VerbStem,
    abs_marker: &PersonMarker,
    erg_marker: &Option<PersonMarker>,
) -> (r: VecDeque<Morpheme>)
    requires
        abs_marker.case == Case::Absolutive,
    ensures
        morphemes_view(r@) == masdar_personal_spec(
            *polarity,
            *preverb,
            *stem,
            *abs_marker,
            *erg_marker,
        ),
{
    let mut morphemes = stem_only(stem);
    push_back_morpheme(&mut morphemes, Morpheme::new_generic("н"));
    push_negation(&mut morphemes, polarity);
    push_ergative(&mut morphemes, erg_marker);
    push_preverb(&mut morphemes, preverb);
    push_absolutive(&mut morphemes, abs_marker);
    assert(morphemes_view(morphemes@) =~= masdar_personal_spec(
        *polarity,
        *preverb,
        *stem,
        *abs_marker,
        *erg_marker,
    ));
    morphemes
}

pub fn new_imperative(
    polarity: &Polarity,
    preverb: &Option<Preverb>,
    stem: &VerbStem,
    abs_marker: &PersonMarker,
    erg_marker: &Option<PersonMarker>,
    transitivity: &Transitivity,
) -> (r: VecDeque<Morpheme>)
    ensures
        morphemes_view(r@) == imperative_spec(
            *polarity,
            *preverb,
            *stem,
            *abs_marker,
            *erg_marker,
            *transitivity,
        ),
{
    let mut morphemes = stem_only(stem);
    push_negation(&mut morphemes, polarity);
    let ghost before_erg = morphemes_view(morphemes@);
    if let Some(marker) = erg_marker {
        if !(*polarity == Polarity::Positive && marker.person == Person::Second && marker.number
            == Number::Singular && *transitivity == Transitivity::Transitive) {
            let marker = PersonMarker::new(Person::Second, marker.number, Case::Ergative);
            push_person(&mut morphemes, &marker);
        }
    }
    push_preverb(&mut morphemes, preverb);
    if Person::Third != abs_marker.person {
        if !(*polarity == Polarity::Positive && abs_marker.person == Person::Second
            && abs_marker.number == Number::Singular && *transitivity
            == Transitivity::Intransitive) {
            let marker = PersonMarker::new(Person::Second, abs_marker.number, Case::Absolutive);
            push_person(&mut morphemes, &marker);
        }
    }
    assert(morphemes_view(morphemes@) =~= imperative_spec(
        *polarity,
        *preverb,
        *stem,
        *abs_marker,
        *erg_marker,
        *transitivity,
    ));
    morphemes
}

pub fn new_indicative(
    polarity: &Polarity,
    tense: &Tense,
    preverb: &Option<Preverb>,
    stem: &VerbStem,
    abs_marker: &PersonMarker,
    erg_marker: &Option<PersonMarker>,
) -> (r: VecDeque<Morpheme>)
    ensures
        morphemes_view(r@) == indicative_spec(
            *polarity,
            *tense,
            *preverb,
            *stem,
            *abs_marker,
            *erg_marker,
        ),
{
    let tense_suffix_pair: (&str, &str) = match tense {
        Tense::Present => ("р", "ркъым"),
        Tense::Imperfect => ("рт", "ртэкъым"),
        Tense::Perfect => ("ащ", "акъым"),
        Tense::PlusQuamPerfect => ("ат", "атэкъым"),
        Tense::FarPast1 => ("гъащ", "гъакъым"),
        Tense::FarPast2 => ("гъат", "гъатэкъым"),
        Tense::Aorist1 => ("щ", "къым"),
        Tense::Aorist2 => ("т", "тэкъым"),
        Tense::Future1 => ("нщ", "нкъым"),
        Tense::Future2 => ("ну", "нукъым"),
    };
    let mut morphemes = stem_only(stem);
    let suffix = if *polarity == Polarity::Positive {
        tense_suffix_pair.0
    } else {
        tense_suffix_pair.1
    };
    assert(suffix@ == indicative_suffix(*tense, *polarity));
    push_back_morpheme(&mut morphemes, Morpheme::new_generic(suffix));
    if *polarity == Polarity::Positive && *tense == Tense::Present {
        push_front_morpheme(&mut morphemes, Morpheme::new_generic("о"));
    }
    let ghost with_o = morphemes_view(morphemes@);
    assert(with_o =~= (if *polarity == Polarity::Positive && *tense == Tense::Present {
        seq![MorphemeView::Generic("о"@)]
    } else {
        seq![]
    }) + seq![
        MorphemeView::Stem(*stem),
        MorphemeView::Generic(indicative_suffix(*tense, *polarity)),
    ]);
    push_ergative(&mut morphemes, erg_marker);
    push_preverb(&mut morphemes, preverb);
    push_absolutive(&mut morphemes, abs_marker);
    assert(morphemes_view(morphemes@) =~= indicative_spec(
        *polarity,
        *tense,
        *preverb,
        *stem,
        *abs_marker,
        *erg_marker,
    ));
    morphemes
}

pub fn new_interrogative(
    polarity: &Polarity,
    tense: &Tense,
    preverb: &Option<Preverb>,
    stem: &VerbStem,
    abs_marker: &PersonMarker,
    erg_marker: &Option<PersonMarker>,
) -> (r: VecDeque<Morpheme>)
    ensures
        morphemes_view(r@) == interrogative_spec(
            *polarity,
            *tense,
            *preverb,
            *stem,
            *abs_marker,
            *erg_marker,
        ),
{
    let tense_suffix_pair: (&str, &str) = match tense {
        Tense::Present => ("рэ", "ркъэ"),
        Tense::Imperfect => ("рт", "ртэкъым"),
        Tense::Perfect => ("ащ", "акъэ"),
        Tense::PlusQuamPerfect => ("ат", "атэкъэ"),
        Tense::FarPast1 => ("гъащ", "гъакъэ"),
        Tense::FarPast2 => ("гъат", "гъатэкъэ"),
        Tense::Aorist1 => ("", "къэ"),
        Tense::Aorist2 => ("т", "тэкъэ"),
        Tense::Future1 => ("нщ", "нкъэ"),
        Tense::Future2 => ("ну", "нукъэ"),
    };
    let mut morphemes = stem_only(stem);
    let suffix = if *polarity == Polarity::Positive {
        tense_suffix_pair.0
    } else {
        tense_suffix_pair.1
    };
    assert(suffix@ == interrogative_suffix(*tense, *polarity));
    push_back_morpheme(&mut morphemes, Morpheme::new_generic(suffix));
    push_ergative(&mut morphemes, erg_marker);
    push_preverb(&mut morphemes, preverb);
    push_absolutive(&mut morphemes, abs_marker);
    assert(morphemes_view(morphemes@) =~= interrogative_spec(
        *polarity,
        *tense,
        *preverb,
        *stem,
        *abs_marker,
        *erg_marker,
    ));
    morphemes
}

/// The common layout of the conditional and concessive moods.
fn conditional_like(
    polarity: &Polarity,
    tense_suffix: &str,
    ending: &str,
    preverb: &Option<Preverb>,
    stem: &VerbStem,
    abs_marker: &PersonMarker,
    erg_marker: &Option<PersonMarker>,
) -> (r: VecDeque<Morpheme>)
    ensures
        morphemes_view(r@) == conditional_like_spec(
            *polarity,
            tense_suffix@,
            ending@,
            *preverb,
            *stem,
            *abs_marker,
            *erg_marker,
        ),
{
    let mut morphemes = stem_only(stem);
    if !tense_suffix.is_empty() {
        push_back_morpheme(&mut morphemes, Morpheme::new_generic(tense_suffix));
    }
    push_back_morpheme(&mut morphemes, Morpheme::new_generic(ending));
    push_negation(&mut morphemes, polarity);
    push_ergative(&mut morphemes, erg_marker);
    push_preverb(&mut morphemes, preverb);
    push_absolutive(&mut morphemes, abs_marker);
    assert(morphemes_view(morphemes@) =~= conditional_like_spec(
        *polarity,
        tense_suffix@,
        ending@,
        *preverb,
        *stem,
        *abs_marker,
        *erg_marker,
    ));
    morphemes
}

fn conditional_tense_suffix(tense: &Tense) -> (s: &'static str)
    requires
        is_conditional_tense(*tense),
    ensures
        s@ == conditional_suffix(*tense),
{
    match tense {
        Tense::Present => "",
        Tense::Perfect => "а",
        Tense::FarPast1 => "гъа",
        Tense::Future1 => "н",
        _ => "ну",
    }
}

fn conditional_2_tense_suffix(tense: &Tense) -> (s: &'static str)
    requires
        is_conditional_tense(*tense),
    ensures
        s@ == conditional_2_suffix(*tense),
{
    match tense {
        Tense::Present => "тэ",
        Tense::Perfect => "атэ",
        Tense::FarPast1 => "гъатэ",
        Tense::Future1 => "нтэ",
        _ => "нутэ",
    }
}

/// The morphemes of the conditional mood; only some tenses have it.
pub fn new_conditional(
    polarity: &Polarity,
    tense: &Tense,
    preverb: &Option<Preverb>,
    stem: &VerbStem,
    abs_marker: &PersonMarker,
    erg_marker: &Option<PersonMarker>,
) -> (r: VecDeque<Morpheme>)
    requires
        is_conditional_tense(*tense),
    ensures
        morphemes_view(r@) == conditional_like_spec(
            *polarity,
            conditional_suffix(*tense),
            "мэ"@,
            *preverb,
            *stem,
            *abs_marker,
            *erg_marker,
        ),
{
    let tense_suffix = conditional_tense_suffix(tense);
    conditional_like(polarity, tense_suffix, "мэ", preverb, stem, abs_marker, erg_marker)
}

/// The morphemes of the second conditional mood; only some tenses have it.
pub fn new_conditional_2(
    polarity: &Polarity,
    tense: &Tense,
    preverb: &Option<Preverb>,
    stem: &VerbStem,
    abs_marker: &PersonMarker,
    erg_marker: &Option<PersonMarker>,
) -> (r: VecDeque<Morpheme>)
    requires
        is_conditional_tense(*tense),
    ensures
        morphemes_view(r@) == conditional_like_spec(
            *polarity,
            conditional_2_suffix(*tense),
            "мэ"@,
            *preverb,
            *stem,
            *abs_marker,
            *erg_marker,
        ),
{
    let tense_suffix = conditional_2_tense_suffix(tense);
    conditional_like(polarity, tense_suffix, "мэ", preverb, stem, abs_marker, erg_marker)
}

/// The morphemes of the subjunctive mood; only the future tenses have it.
pub fn new_subjunctive(
    polarity: &Polarity,
    tense: &Tense,
    preverb: &Option<Preverb>,
    stem: &VerbStem,
    abs_marker: &PersonMarker,
    erg_marker: &Option<PersonMarker>,
) -> (r: VecDeque<Morpheme>)
    requires
        *tense == Tense::Future1 || *tense == Tense::Future2,
    ensures
        morphemes_view(r@) == subjunctive_spec(
            *polarity,
            *tense,
            *preverb,
            *stem,
            *abs_marker,
            *erg_marker,
        ),
{
    let tense_suffix_pair: (&str, &str) = match tense {
        Tense::Future1 => ("нт", "нтэкъым"),
        _ => ("нут", "нутэкъым"),
    };
    let mut morphemes = stem_only(stem);
    let suffix = if *polarity == Polarity::Positive {
        tense_suffix_pair.0
    } else {
        tense_suffix_pair.1
    };
    assert(suffix@ == subjunctive_suffix(*tense, *polarity));
    push_back_morpheme(&mut morphemes, Morpheme::new_generic(suffix));
    push_ergative(&mut morphemes, erg_marker);
    push_preverb(&mut morphemes, preverb);
    push_absolutive(&mut morphemes, abs_marker);
    assert(morphemes_view(morphemes@) =~= subjunctive_spec(
        *polarity,
        *tense,
        *preverb,
        *stem,
        *abs_marker,
        *erg_marker,
    ));
    morphemes
}

/// The morphemes of the concessive mood; only some tenses have it.
pub fn new_concessive(
    polarity: &Polarity,
    tense: &Tense,
    preverb: &Option<Preverb>,
    stem: &VerbStem,
    abs_marker: &PersonMarker,
    erg_marker: &Option<PersonMarker>,
) -> (r: VecDeque<Morpheme>)
    requires
        is_conditional_tense(*tense),
    ensures
        morphemes_view(r@) == conditional_like_spec(
            *polarity,
            conditional_suffix(*tense),
            "ми"@,
            *preverb,
            *stem,
            *abs_marker,
            *erg_marker,
        ),
{
    let tense_suffix = conditional_tense_suffix(tense);
    conditional_like(polarity, tense_suffix, "ми", preverb, stem, abs_marker, erg_marker)
}

/// The morphemes of the second concessive mood; only some tenses have it.
pub fn new_concessive_2(
    polarity: &Polarity,
    tense: &Tense,
    preverb: &Option<Preverb>,
    stem: &VerbStem,
    abs_marker: &PersonMarker,
    erg_marker: &Option<PersonMarker>,
) -> (r: VecDeque<Morpheme>)
    requires
        is_conditional_tense(*tense),
    ensures
        morphemes_view(r@) == conditional_like_spec(
            *polarity,
            conditional_2_suffix(*tense),
            "ми"@,
            *preverb,
            *stem,
            *abs_marker,
            *erg_marker,
        ),
{
    let tense_suffix = conditional_2_tense_suffix(tense);
    conditional_like(polarity, tense_suffix, "ми", preverb, stem, abs_marker, erg_marker)
}

/// The variants of each category list every value once.
pub proof fn variants_complete(
    tense: Tense,
    polarity: Polarity,
    case: Case,
    number: Number,
    person: Person,
)
    ensures
        tense_variants().contains(tense),
        tense_variants().no_duplicates(),
        polarity_variants().contains(polarity),
        polarity_variants().no_duplicates(),
        case_variants().contains(case),
        case_variants().no_duplicates(),
        number_variants().contains(number),
        number_variants().no_duplicates(),
        person_variants().contains(person),
        person_variants().no_duplicates(),
{
    let ts = tense_variants();
    match tense {
        Tense::Present => assert(ts[0] == tense),
        Tense::Imperfect => assert(ts[1] == tense),
        Tense::Perfect => assert(ts[2] == tense),
        Tense::PlusQuamPerfect => assert(ts[3] == tense),
        Tense::FarPast1 => assert(ts[4] == tense),
        Tense::FarPast2 => assert(ts[5] == tense),
        Tense::Aorist1 => assert(ts[6] == tense),
        Tense::Aorist2 => assert(ts[7] == tense),
        Tense::Future1 => assert(ts[8] == tense),
        Tense::Future2 => assert(ts[9] == tense),
    }
    match polarity {
        Polarity::Positive => assert(polarity_variants()[0] == polarity),
        Polarity::Negative => assert(polarity_variants()[1] == polarity),
    }
    match case {
        Case::Absolutive => assert(case_variants()[0] == case),
        Case::Ergative => assert(case_variants()[1] == case),
    }
    match number {
        Number::Singular => assert(number_variants()[0] == number),
        Number::Plural => assert(number_variants()[1] == number),
    }
    match person {
        Person::First => assert(person_variants()[0] == person),
        Person::Second => assert(person_variants()[1] == person),
        Person::Third => assert(person_variants()[2] == person),
    }
}

} // verus!
