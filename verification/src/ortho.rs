//! Orthography of Kabardian: every letter of a written word becomes a unit with
//! useful meta-data (place, manner and voiceness of consonants, vowels, and the
//! letters that stand for a consonant and a vowel at once).
use vstd::prelude::*;

use crate::text::{push_char, slice_range, str_chars, string_of, string_of_char, text_of};
use self::Manner::{Affricative, Approximant, Fricative, Nasal, Plosive, Trill};
use self::Place::{
    Alveolar, Glottal, Labial, Lateral, Palatal, Pharyngeal, PostAlveolar, Uvular, Velar,
};
use self::Voiceness::{Ejective, Voiced, Voiceless};

verus! {

/// The kind of a letter: a consonant, a vowel, or a combination of both.
#[derive(Debug, Clone, Copy, PartialEq, Eq, Structural)]
pub enum Letter {
    /// Represents a consonant letter.
    Consonant(Consonant),
    /// Represents a vowel letter.
    Vowel(Vowel),
    /// Special letters which are a combination of consonant and vowel:
    /// 'я' = 'йа', 'е' = 'йэ', 'и' = 'йы', 'у' = 'уы', 'о' = 'уэ'.
    Combi(Consonant, Vowel),
}

#[derive(Debug, Clone, Copy, PartialEq, Eq, Structural)]
pub enum Vowel {
    /// The 'а' sound.
    AA,
    /// The 'э' sound.
    A,
    /// The 'ы' sound.
    Y,
}

#[derive(Debug, Clone, Copy, PartialEq, Eq, Structural)]
pub enum Voiceness {
    Voiceless,
    Voiced,
    Ejective,
}

#[derive(Debug, Clone, Copy, PartialEq, Eq, Structural)]
pub struct Consonant {
    pub place: Place,
    pub manner: Manner,
    pub voiceness: Voiceness,
    pub is_labialized: bool,
}

#[derive(Debug, Clone, Copy, PartialEq, Eq, Structural)]
pub enum Place {
    Labial,
    Alveolar,
    Lateral,
    PostAlveolar,
    Palatal,
    Velar,
    Uvular,
    Pharyngeal,
    Glottal,
}

#[derive(Debug, Clone, Copy, PartialEq, Eq, Structural)]
pub enum Manner {
    Nasal,
    Plosive,
    Affricative,
    Fricative,
    Approximant,
    Trill,
}

/// A character of the alphabet.
#[derive(Debug, Clone, Copy, PartialEq, Eq, Structural)]
pub enum ValidChar {
    A,
    E,
    Y,
    Je,
    Ja,
    I,
    O,
    U,
    J,
    M,
    N,
    L,
    R,
    F,
    V,
    S,
    Z,
    Sh,
    Shj,
    Zh,
    X,
    Ts,
    Tsh,
    P,
    B,
    T,
    D,
    K,
    G,
    MagkiyZnak,
    TverdyyZnak,
    Palotshka,
}

/// The decoration that a consonant has picked up while it is being read.
#[derive(Debug, Clone, Copy, PartialEq, Eq, Structural)]
pub enum Deco {
    Base,
    Palotshka,
    MagkiyZnak,
    TverdyyZnak,
}

// ---------------------------------------------------------------------------
// Character classes
// ---------------------------------------------------------------------------

pub open spec fn is_vowel_char(c: char) -> bool {
    c == 'а' || c == 'э' || c == 'ы'
}

pub open spec fn is_combi_char(c: char) -> bool {
    c == 'я' || c == 'е' || c == 'и' || c == 'о' || c == 'у'
}

pub open spec fn is_diacritic_char(c: char) -> bool {
    c == 'ь' || c == 'ъ' || c == 'I' || c == 'у'
}

pub open spec fn is_consonant_char(c: char) -> bool {
    c == 'м' || c == 'н' || c == 'I' || c == 'п' || c == 'б' || c == 'т' || c == 'д' || c == 'к'
        || c == 'г' || c == 'ф' || c == 'в' || c == 'с' || c == 'з' || c == 'ш' || c == 'щ'
        || c == 'х' || c == 'ж' || c == 'р' || c == 'л' || c == 'й' || c == 'ў' || c == 'ч'
        || c == 'ц'
}

/// The characters that `parse` accepts at all.
pub open spec fn is_possible_char(c: char) -> bool {
    c == 'ь' || c == 'ъ' || is_vowel_char(c) || is_combi_char(c) || c == 'ю' || c == 'м'
        || c == 'н' || c == 'п' || c == 'б' || c == 'т' || c == 'д' || c == 'к' || c == 'г'
        || c == 'I' || c == 'ф' || c == 'в' || c == 'с' || c == 'з' || c == 'ш' || c == 'щ'
        || c == 'х' || c == 'ж' || c == 'ч' || c == 'ц' || c == 'р' || c == 'л' || c == 'й'
        || c == 'ў'
}

/// The characters of the alphabet proper (`ValidChar`).
pub open spec fn is_alphabet_char(c: char) -> bool {
    is_possible_char(c) && c != 'ю'
}

pub open spec fn all_possible(s: Seq<char>) -> bool {
    forall|i: int| 0 <= i < s.len() ==> is_possible_char(#[trigger] s[i])
}

pub open spec fn all_alphabet(s: Seq<char>) -> bool {
    forall|i: int| 0 <= i < s.len() ==> is_alphabet_char(#[trigger] s[i])
}

pub open spec fn can_palochka(c: char) -> bool {
    c == 'п' || c == 'т' || c == 'ф' || c == 'щ' || c == 'к' || c == 'х' || c == 'ц' || c == 'л'
}

pub open spec fn can_labialized(c: char) -> bool {
    c == 'к' || c == 'г' || c == 'х' || c == 'I'
}

pub open spec fn can_tverdyj_znak(c: char) -> bool {
    c == 'к' || c == 'х' || c == 'г' || c == 'л'
}

pub open spec fn can_magkiy_znak(c: char) -> bool {
    c == 'х' || c == 'ж'
}

pub open spec fn is_simple_cons(c: char) -> bool {
    c == 'м' || c == 'н' || c == 'б' || c == 'ч' || c == 'с' || c == 'з' || c == 'ш' || c == 'в'
        || c == 'р'
}

fn is_char_combi(c: &char) -> (r: bool)
    ensures
        r == is_combi_char(*c),
{
    match c {
        'я' | 'е' | 'и' | 'о' | 'у' => true,
        _ => false,
    }
}

fn is_char_vowel(c: &char) -> (r: bool)
    ensures
        r == is_vowel_char(*c),
{
    match c {
        'а' | 'э' | 'ы' => true,
        _ => false,
    }
}

fn is_char_diacritic(c: &char) -> (r: bool)
    ensures
        r == is_diacritic_char(*c),
{
    match c {
        'ь' | 'ъ' => true,
        'I' | 'у' => true,
        _ => false,
    }
}

fn is_char_consonant(c: &char) -> (r: bool)
    ensures
        r == is_consonant_char(*c),
{
    match c {
        'м' | 'н' => true,
        'I' => true,
        'п' | 'б' | 'т' | 'д' | 'к' | 'г' => true,
        'ф' | 'в' | 'с' | 'з' | 'ш' | 'щ' | 'х' | 'ж' | 'р' | 'л' | 'й' | 'ў' | 'ч' | 'ц' => {
            true
        },
        _ => false,
    }
}

fn is_char_possible(c: char) -> (r: bool)
    ensures
        r == is_possible_char(c),
{
    match c {
        'ь' | 'ъ' | 'а' | 'э' | 'ы' | 'я' | 'е' | 'и' | 'о' | 'у' | 'ю' | 'м' | 'н' | 'п' | 'б'
        | 'т' | 'д' | 'к' | 'г' | 'I' | 'ф' | 'в' | 'с' | 'з' | 'ш' | 'щ' | 'х' | 'ж' | 'ч'
        | 'ц' | 'р' | 'л' | 'й' | 'ў' => true,
        _ => false,
    }
}

fn char_can_palochka(c: char) -> (r: bool)
    ensures
        r == can_palochka(c),
{
    match c {
        'п' | 'т' | 'ф' | 'щ' | 'к' | 'х' | 'ц' | 'л' => true,
        _ => false,
    }
}

fn char_can_labialized(c: char) -> (r: bool)
    ensures
        r == can_labialized(c),
{
    match c {
        'к' | 'г' | 'х' | 'I' => true,
        _ => false,
    }
}

fn char_can_tverdyj_znak(c: char) -> (r: bool)
    ensures
        r == can_tverdyj_znak(c),
{
    match c {
        'к' | 'х' | 'г' | 'л' => true,
        _ => false,
    }
}

fn char_can_magkiy_znak(c: char) -> (r: bool)
    ensures
        r == can_magkiy_znak(c),
{
    match c {
        'х' | 'ж' => true,
        _ => false,
    }
}

fn char_is_simple_cons(c: char) -> (r: bool)
    ensures
        r == is_simple_cons(c),
{
    match c {
        'м' | 'н' | 'б' | 'ч' | 'с' | 'з' | 'ш' | 'в' | 'р' => true,
        _ => false,
    }
}

// ---------------------------------------------------------------------------
// The alphabet
// ---------------------------------------------------------------------------

/// The alphabet character a character is read as; 'ў' is read as 'у'.
pub open spec fn valid_char_of(c: char) -> Option<ValidChar> {
    if false {
        None    } else if c == 'а' {
        Some(ValidChar::A)
    } else if c == 'э' {
        Some(ValidChar::E)
    } else if c == 'ы' {
        Some(ValidChar::Y)
    } else if c == 'е' {
        Some(ValidChar::Je)
    } else if c == 'и' {
        Some(ValidChar::I)
    } else if c == 'о' {
        Some(ValidChar::O)
    } else if c == 'у' {
        Some(ValidChar::U)
    } else if c == 'й' {
        Some(ValidChar::J)
    } else if c == 'ў' {
        Some(ValidChar::U)
    } else if c == 'я' {
        Some(ValidChar::Ja)
    } else if c == 'м' {
        Some(ValidChar::M)
    } else if c == 'н' {
        Some(ValidChar::N)
    } else if c == 'л' {
        Some(ValidChar::L)
    } else if c == 'р' {
        Some(ValidChar::R)
    } else if c == 'ф' {
        Some(ValidChar::F)
    } else if c == 'в' {
        Some(ValidChar::V)
    } else if c == 'с' {
        Some(ValidChar::S)
    } else if c == 'з' {
        Some(ValidChar::Z)
    } else if c == 'ш' {
        Some(ValidChar::Sh)
    } else if c == 'щ' {
        Some(ValidChar::Shj)
    } else if c == 'ж' {
        Some(ValidChar::Zh)
    } else if c == 'х' {
        Some(ValidChar::X)
    } else if c == 'ц' {
        Some(ValidChar::Ts)
    } else if c == 'ч' {
        Some(ValidChar::Tsh)
    } else if c == 'п' {
        Some(ValidChar::P)
    } else if c == 'б' {
        Some(ValidChar::B)
    } else if c == 'т' {
        Some(ValidChar::T)
    } else if c == 'д' {
        Some(ValidChar::D)
    } else if c == 'к' {
        Some(ValidChar::K)
    } else if c == 'г' {
        Some(ValidChar::G)
    } else if c == 'ь' {
        Some(ValidChar::MagkiyZnak)
    } else if c == 'ъ' {
        Some(ValidChar::TverdyyZnak)
    } else if c == 'I' {
        Some(ValidChar::Palotshka)
    } else {
        None
    }
}

/// The character an alphabet character is written as.
pub open spec fn valid_char_text(v: ValidChar) -> char {
    match v {
        ValidChar::A => 'а',
        ValidChar::E => 'э',
        ValidChar::Y => 'ы',
        ValidChar::Je => 'е',
        ValidChar::I => 'и',
        ValidChar::O => 'о',
        ValidChar::U => 'у',
        ValidChar::J => 'й',
        ValidChar::Ja => 'я',
        ValidChar::M => 'м',
        ValidChar::N => 'н',
        ValidChar::L => 'л',
        ValidChar::R => 'р',
        ValidChar::F => 'ф',
        ValidChar::V => 'в',
        ValidChar::S => 'с',
        ValidChar::Z => 'з',
        ValidChar::Sh => 'ш',
        ValidChar::Shj => 'щ',
        ValidChar::Zh => 'ж',
        ValidChar::X => 'х',
        ValidChar::Ts => 'ц',
        ValidChar::Tsh => 'ч',
        ValidChar::P => 'п',
        ValidChar::B => 'б',
        ValidChar::T => 'т',
        ValidChar::D => 'д',
        ValidChar::K => 'к',
        ValidChar::G => 'г',
        ValidChar::MagkiyZnak => 'ь',
        ValidChar::TverdyyZnak => 'ъ',
        ValidChar::Palotshka => 'I',
    }
}

/// Reading a character of the alphabet and writing it back gives the character again,
/// except for 'ў', which is read as 'у'; writing an alphabet character and reading it back
/// gives it again.
pub proof fn valid_char_round_trip(c: char, v: ValidChar)
    ensures
        valid_char_of(c) is Some && c != 'ў' ==> valid_char_text(valid_char_of(c).unwrap()) == c,
        valid_char_of(valid_char_text(v)) == Some(v),
        valid_char_of(c) is Some <==> is_alphabet_char(c),
{
}

impl ValidChar {
    /// The alphabet character written as `c`; 'ў' is read as 'у'.
    pub fn try_from(value: char) -> (r: Result<ValidChar, String>)
        ensures
            r is Ok <==> is_alphabet_char(value),
            r matches Ok(v) ==> valid_char_of(value) == Some(v),
            r matches Err(e) ==> e@ == seq![value] + " is not a valid character"@,
    {
        match value {
            'а' => Ok(ValidChar::A),
            'э' => Ok(ValidChar::E),
            'ы' => Ok(ValidChar::Y),
            'е' => Ok(ValidChar::Je),
            'и' => Ok(ValidChar::I),
            'о' => Ok(ValidChar::O),
            'у' => Ok(ValidChar::U),
            'й' => Ok(ValidChar::J),
            'ў' => Ok(ValidChar::U),
            'я' => Ok(ValidChar::Ja),
            'м' => Ok(ValidChar::M),
            'н' => Ok(ValidChar::N),
            'л' => Ok(ValidChar::L),
            'р' => Ok(ValidChar::R),
            'ф' => Ok(ValidChar::F),
            'в' => Ok(ValidChar::V),
            'с' => Ok(ValidChar::S),
            'з' => Ok(ValidChar::Z),
            'ш' => Ok(ValidChar::Sh),
            'щ' => Ok(ValidChar::Shj),
            'ж' => Ok(ValidChar::Zh),
            'х' => Ok(ValidChar::X),
            'ц' => Ok(ValidChar::Ts),
            'ч' => Ok(ValidChar::Tsh),
            'п' => Ok(ValidChar::P),
            'б' => Ok(ValidChar::B),
            'т' => Ok(ValidChar::T),
            'д' => Ok(ValidChar::D),
            'к' => Ok(ValidChar::K),
            'г' => Ok(ValidChar::G),
            'ь' => Ok(ValidChar::MagkiyZnak),
            'ъ' => Ok(ValidChar::TverdyyZnak),
            'I' => Ok(ValidChar::Palotshka),
            _ => {
                let mut msg = string_of_char(value);
                msg.append(" is not a valid character");
                Err(msg)
            },
        }
    }

    /// The character the alphabet character is written as.
    pub fn to_char(self) -> (c: char)
        ensures
            c == valid_char_text(self),
    {
        match self {
            ValidChar::A => 'а',
            ValidChar::E => 'э',
            ValidChar::Y => 'ы',
            ValidChar::Je => 'е',
            ValidChar::I => 'и',
            ValidChar::O => 'о',
            ValidChar::U => 'у',
            ValidChar::J => 'й',
            ValidChar::Ja => 'я',
            ValidChar::M => 'м',
            ValidChar::N => 'н',
            ValidChar::L => 'л',
            ValidChar::R => 'р',
            ValidChar::F => 'ф',
            ValidChar::V => 'в',
            ValidChar::S => 'с',
            ValidChar::Z => 'з',
            ValidChar::Sh => 'ш',
            ValidChar::Shj => 'щ',
            ValidChar::Zh => 'ж',
            ValidChar::X => 'х',
            ValidChar::Ts => 'ц',
            ValidChar::Tsh => 'ч',
            ValidChar::P => 'п',
            ValidChar::B => 'б',
            ValidChar::T => 'т',
            ValidChar::D => 'д',
            ValidChar::K => 'к',
            ValidChar::G => 'г',
            ValidChar::MagkiyZnak => 'ь',
            ValidChar::TverdyyZnak => 'ъ',
            ValidChar::Palotshka => 'I',
        }
    }
}

// ---------------------------------------------------------------------------
// Vowels
// ---------------------------------------------------------------------------

pub open spec fn vowel_char(v: Vowel) -> char {
    match v {
        Vowel::AA => 'а',
        Vowel::A => 'э',
        Vowel::Y => 'ы',
    }
}

/// The vowel that a one-character text stands for.
pub open spec fn vowel_of(s: Seq<char>) -> Option<Vowel> {
    if s.len() != 1 {
        None
    } else if s[0] == 'а' {
        Some(Vowel::AA)
    } else if s[0] == 'э' {
        Some(Vowel::A)
    } else if s[0] == 'ы' {
        Some(Vowel::Y)
    } else {
        None
    }
}

impl Vowel {
    /// The vowel written as `s`; an error for anything but 'а', 'э' or 'ы'.
    pub fn try_from(s: &str) -> (r: Result<Vowel, String>)
        ensures
            r is Ok <==> vowel_of(s@) is Some,
            r matches Ok(v) ==> vowel_of(s@) == Some(v),
            r matches Err(e) ==> e@ == s@ + if s@.len() != 1 {
                " is too long or too short."@
            } else {
                " can not be transfromed into a `Vowel`"@
            },
    {
        if s.unicode_len() != 1 {
            let mut msg = String::from_str(s);
            msg.append(" is too long or too short.");
            return Err(msg);
        }
        match s.get_char(0) {
            'а' => Ok(Vowel::AA),
            'э' => Ok(Vowel::A),
            'ы' => Ok(Vowel::Y),
            _ => {
                let mut msg = String::from_str(s);
                msg.append(" can not be transfromed into a `Vowel`");
                Err(msg)
            },
        }
    }

    /// The character of the vowel.
    pub fn to_char(&self) -> (c: char)
        ensures
            c == vowel_char(*self),
    {
        match self {
            Vowel::AA => 'а',
            Vowel::A => 'э',
            Vowel::Y => 'ы',
        }
    }

    /// The vowel as text.
    pub fn to_string(&self) -> (s: String)
        ensures
            s@ == seq![vowel_char(*self)],
    {
        string_of_char(self.to_char())
    }
}

// ---------------------------------------------------------------------------
// Consonants
// ---------------------------------------------------------------------------

pub open spec fn cons(place: Place, manner: Manner, voiceness: Voiceness, lab: bool) -> Consonant {
    Consonant { place, manner, voiceness, is_labialized: lab }
}

/// The consonant that a text stands for, if any.
pub open spec fn consonant_of(s: Seq<char>) -> Option<Consonant> {
    if s.len() == 1 {
        consonant_of_1(s[0])
    } else if s.len() == 2 {
        consonant_of_2(s[0], s[1])
    } else if s.len() == 3 {
        consonant_of_3(s[0], s[1], s[2])
    } else if s.len() == 4 {
        if s[0] == 'к' && s[1] == 'х' && s[2] == 'ъ' && s[3] == 'у' {
            Some(cons(Place::Uvular, Manner::Affricative, Voiceness::Voiceless, true))
        } else {
            None
        }
    } else {
        None
    }
}

pub open spec fn consonant_of_1(a: char) -> Option<Consonant> {
    match a {
        'м' => Some(cons(Place::Labial, Manner::Nasal, Voiceness::Voiced, false)),
        'н' => Some(cons(Place::Alveolar, Manner::Nasal, Voiceness::Voiced, false)),
        'п' => Some(cons(Place::Labial, Manner::Plosive, Voiceness::Voiceless, false)),
        'т' => Some(cons(Place::Alveolar, Manner::Plosive, Voiceness::Voiceless, false)),
        'к' => Some(cons(Place::Velar, Manner::Plosive, Voiceness::Voiceless, false)),
        'I' => Some(cons(Place::Glottal, Manner::Plosive, Voiceness::Voiceless, false)),
        'б' => Some(cons(Place::Labial, Manner::Plosive, Voiceness::Voiced, false)),
        'д' => Some(cons(Place::Alveolar, Manner::Plosive, Voiceness::Voiced, false)),
        'ц' => Some(cons(Place::Alveolar, Manner::Affricative, Voiceness::Voiceless, false)),
        'ч' => Some(cons(Place::PostAlveolar, Manner::Affricative, Voiceness::Voiceless, false)),
        'ф' => Some(cons(Place::Labial, Manner::Fricative, Voiceness::Voiceless, false)),
        'с' => Some(cons(Place::Alveolar, Manner::Fricative, Voiceness::Voiceless, false)),
        'ш' => Some(cons(Place::PostAlveolar, Manner::Fricative, Voiceness::Voiceless, false)),
        'щ' => Some(cons(Place::Palatal, Manner::Fricative, Voiceness::Voiceless, false)),
        'х' => Some(cons(Place::Velar, Manner::Fricative, Voiceness::Voiceless, false)),
        'в' => Some(cons(Place::Labial, Manner::Fricative, Voiceness::Voiced, false)),
        'з' => Some(cons(Place::Alveolar, Manner::Fricative, Voiceness::Voiced, false)),
        'л' => Some(cons(Place::Lateral, Manner::Fricative, Voiceness::Voiced, false)),
        'ж' => Some(cons(Place::PostAlveolar, Manner::Fricative, Voiceness::Voiced, false)),
        'г' => Some(cons(Place::Velar, Manner::Fricative, Voiceness::Voiced, false)),
        'р' => Some(cons(Place::Alveolar, Manner::Trill, Voiceness::Voiced, false)),
        'й' => Some(cons(Place::Palatal, Manner::Approximant, Voiceness::Voiced, false)),
        'ў' => Some(cons(Place::Labial, Manner::Approximant, Voiceness::Voiced, false)),
        'у' => Some(cons(Place::Labial, Manner::Approximant, Voiceness::Voiced, false)),
        _ => None,
    }
}

pub open spec fn consonant_of_2(a: char, b: char) -> Option<Consonant> {
    match (a, b) {
        ('к', 'ъ') => Some(cons(Place::Uvular, Manner::Plosive, Voiceness::Voiceless, false)),
        ('I', 'у') => Some(cons(Place::Glottal, Manner::Plosive, Voiceness::Voiceless, true)),
        ('к', 'у') => Some(cons(Place::Velar, Manner::Plosive, Voiceness::Voiceless, true)),
        ('г', 'у') => Some(cons(Place::Velar, Manner::Plosive, Voiceness::Voiced, true)),
        ('п', 'I') => Some(cons(Place::Labial, Manner::Plosive, Voiceness::Ejective, false)),
        ('т', 'I') => Some(cons(Place::Alveolar, Manner::Plosive, Voiceness::Ejective, false)),
        ('д', 'з') => Some(cons(Place::Alveolar, Manner::Affricative, Voiceness::Voiced, false)),
        ('д', 'ж') => Some(cons(Place::PostAlveolar, Manner::Affricative, Voiceness::Voiced, false)),
        ('ц', 'I') => Some(cons(Place::Alveolar, Manner::Affricative, Voiceness::Ejective, false)),
        ('к', 'I') => Some(
            cons(Place::PostAlveolar, Manner::Affricative, Voiceness::Ejective, false),
        ),
        ('л', 'ъ') => Some(cons(Place::Lateral, Manner::Fricative, Voiceness::Voiceless, false)),
        ('х', 'ъ') => Some(cons(Place::Uvular, Manner::Fricative, Voiceness::Voiceless, false)),
        ('х', 'ь') => Some(cons(Place::Pharyngeal, Manner::Fricative, Voiceness::Voiceless, false)),
        ('х', 'у') => Some(cons(Place::Velar, Manner::Fricative, Voiceness::Voiceless, true)),
        ('ж', 'ь') => Some(cons(Place::Palatal, Manner::Fricative, Voiceness::Voiced, false)),
        ('г', 'ъ') => Some(cons(Place::Uvular, Manner::Fricative, Voiceness::Voiced, false)),
        ('ф', 'I') => Some(cons(Place::Labial, Manner::Fricative, Voiceness::Ejective, false)),
        ('л', 'I') => Some(cons(Place::Lateral, Manner::Fricative, Voiceness::Ejective, false)),
        ('щ', 'I') => Some(cons(Place::Palatal, Manner::Fricative, Voiceness::Ejective, false)),
        _ => None,
    }
}

pub open spec fn consonant_of_3(a: char, b: char, c: char) -> Option<Consonant> {
    match (a, b, c) {
        ('к', 'ь', 'у') => Some(cons(Place::Uvular, Manner::Plosive, Voiceness::Voiceless, true)),
        ('к', 'I', 'у') => Some(cons(Place::Velar, Manner::Plosive, Voiceness::Ejective, true)),
        ('к', 'х', 'ъ') => Some(
            cons(Place::Uvular, Manner::Affricative, Voiceness::Voiceless, false),
        ),
        ('х', 'ъ', 'у') => Some(cons(Place::Uvular, Manner::Fricative, Voiceness::Voiceless, true)),
        ('г', 'ъ', 'у') => Some(cons(Place::Uvular, Manner::Fricative, Voiceness::Voiced, true)),
        _ => None,
    }
}

/// The text that a consonant is written with, if it has one.
pub open spec fn consonant_text(c: Consonant) -> Option<Seq<char>> {
    match (c.place, c.manner, c.voiceness, c.is_labialized) {
        (Place::Labial, Manner::Nasal, Voiceness::Voiced, false) => Some(seq!['н']),
        (Place::Alveolar, Manner::Nasal, Voiceness::Voiced, false) => Some(seq!['м']),
        (Place::Labial, Manner::Plosive, Voiceness::Voiceless, false) => Some(seq!['п']),
        (Place::Labial, Manner::Plosive, Voiceness::Voiced, false) => Some(seq!['б']),
        (Place::Labial, Manner::Plosive, Voiceness::Ejective, false) => Some(seq!['п', 'I']),
        (Place::Alveolar, Manner::Plosive, Voiceness::Voiceless, false) => Some(seq!['т']),
        (Place::Alveolar, Manner::Plosive, Voiceness::Voiced, false) => Some(seq!['д']),
        (Place::Alveolar, Manner::Plosive, Voiceness::Ejective, false) => Some(seq!['т', 'I']),
        (Place::Velar, Manner::Plosive, Voiceness::Voiceless, false) => Some(seq!['к']),
        (Place::Velar, Manner::Plosive, Voiceness::Voiced, true) => Some(seq!['г', 'у']),
        (Place::Uvular, Manner::Plosive, Voiceness::Voiceless, false) => Some(seq!['к', 'ъ']),
        (Place::Glottal, Manner::Plosive, Voiceness::Voiceless, false) => Some(seq!['I']),
        (Place::Uvular, Manner::Plosive, Voiceness::Voiceless, true) => Some(seq!['к', 'ъ', 'у']),
        (Place::Glottal, Manner::Plosive, Voiceness::Voiceless, true) => Some(seq!['I', 'у']),
        (Place::Alveolar, Manner::Affricative, Voiceness::Voiceless, false) => Some(seq!['ц']),
        (Place::Alveolar, Manner::Affricative, Voiceness::Voiced, false) => Some(seq!['д', 'з']),
        (Place::Alveolar, Manner::Affricative, Voiceness::Ejective, false) => Some(seq!['ц', 'I']),
        (Place::PostAlveolar, Manner::Affricative, Voiceness::Voiceless, false) => Some(seq!['ч']),
        (Place::PostAlveolar, Manner::Affricative, Voiceness::Voiced, false) => Some(
            seq!['д', 'ж'],
        ),
        (Place::PostAlveolar, Manner::Affricative, Voiceness::Ejective, false) => Some(
            seq!['к', 'I'],
        ),
        (Place::Uvular, Manner::Affricative, Voiceness::Voiceless, false) => Some(
            seq!['к', 'х', 'ъ'],
        ),
        (Place::Uvular, Manner::Affricative, Voiceness::Voiceless, true) => Some(
            seq!['к', 'х', 'ъ', 'у'],
        ),
        (Place::Labial, Manner::Fricative, Voiceness::Voiceless, false) => Some(seq!['ф']),
        (Place::Labial, Manner::Fricative, Voiceness::Voiced, false) => Some(seq!['в']),
        (Place::Labial, Manner::Fricative, Voiceness::Ejective, false) => Some(seq!['ф', 'I']),
        (Place::Alveolar, Manner::Fricative, Voiceness::Voiceless, false) => Some(seq!['с']),
        (Place::Alveolar, Manner::Fricative, Voiceness::Voiced, false) => Some(seq!['з']),
        (Place::Lateral, Manner::Fricative, Voiceness::Voiceless, false) => Some(seq!['л', 'ъ']),
        (Place::Lateral, Manner::Fricative, Voiceness::Voiced, false) => Some(seq!['л']),
        (Place::Lateral, Manner::Fricative, Voiceness::Ejective, false) => Some(seq!['л', 'I']),
        (Place::PostAlveolar, Manner::Fricative, Voiceness::Voiceless, false) => Some(seq!['ш']),
        (Place::PostAlveolar, Manner::Fricative, Voiceness::Voiced, false) => Some(seq!['ж']),
        (Place::Palatal, Manner::Fricative, Voiceness::Voiceless, false) => Some(seq!['щ']),
        (Place::Palatal, Manner::Fricative, Voiceness::Voiced, false) => Some(seq!['ж', 'ь']),
        (Place::Palatal, Manner::Fricative, Voiceness::Ejective, false) => Some(seq!['щ', 'I']),
        (Place::Velar, Manner::Fricative, Voiceness::Voiceless, false) => Some(seq!['х']),
        (Place::Velar, Manner::Fricative, Voiceness::Voiced, false) => Some(seq!['г']),
        (Place::Uvular, Manner::Fricative, Voiceness::Voiceless, false) => Some(seq!['х', 'ъ']),
        (Place::Uvular, Manner::Fricative, Voiceness::Voiced, false) => Some(seq!['г', 'ъ']),
        (Place::Pharyngeal, Manner::Fricative, Voiceness::Voiceless, false) => Some(seq!['х', 'ь']),
        (Place::Velar, Manner::Fricative, Voiceness::Voiceless, true) => Some(seq!['х', 'у']),
        (Place::Uvular, Manner::Fricative, Voiceness::Voiceless, true) => Some(seq!['х', 'ъ', 'у']),
        (Place::Uvular, Manner::Fricative, Voiceness::Voiced, true) => Some(seq!['г', 'ь', 'у']),
        (Place::Palatal, Manner::Approximant, Voiceness::Voiced, false) => Some(seq!['й']),
        (Place::Labial, Manner::Approximant, Voiceness::Voiced, false) => Some(seq!['у']),
        (Place::Alveolar, Manner::Trill, Voiceness::Voiced, false) => Some(seq!['р']),
        _ => None,
    }
}

fn consonant_from_chars(s: &[char]) -> (r: Option<Consonant>)
    ensures
        r == consonant_of(s@),
{
    if s.len() == 1 {
        match s[0] {
            'м' => Some(Consonant::new(Labial, Nasal, Voiced, false)),
            'н' => Some(Consonant::new(Alveolar, Nasal, Voiced, false)),
            'п' => Some(Consonant::new(Labial, Plosive, Voiceless, false)),
            'т' => Some(Consonant::new(Alveolar, Plosive, Voiceless, false)),
            'к' => Some(Consonant::new(Velar, Plosive, Voiceless, false)),
            'I' => Some(Consonant::new(Glottal, Plosive, Voiceless, false)),
            'б' => Some(Consonant::new(Labial, Plosive, Voiced, false)),
            'д' => Some(Consonant::new(Alveolar, Plosive, Voiced, false)),
            'ц' => Some(Consonant::new(Alveolar, Affricative, Voiceless, false)),
            'ч' => Some(Consonant::new(PostAlveolar, Affricative, Voiceless, false)),
            'ф' => Some(Consonant::new(Labial, Fricative, Voiceless, false)),
            'с' => Some(Consonant::new(Alveolar, Fricative, Voiceless, false)),
            'ш' => Some(Consonant::new(PostAlveolar, Fricative, Voiceless, false)),
            'щ' => Some(Consonant::new(Palatal, Fricative, Voiceless, false)),
            'х' => Some(Consonant::new(Velar, Fricative, Voiceless, false)),
            'в' => Some(Consonant::new(Labial, Fricative, Voiced, false)),
            'з' => Some(Consonant::new(Alveolar, Fricative, Voiced, false)),
            'л' => Some(Consonant::new(Lateral, Fricative, Voiced, false)),
            'ж' => Some(Consonant::new(PostAlveolar, Fricative, Voiced, false)),
            'г' => Some(Consonant::new(Velar, Fricative, Voiced, false)),
            'р' => Some(Consonant::new(Alveolar, Trill, Voiced, false)),
            'й' => Some(Consonant::new(Palatal, Approximant, Voiced, false)),
            'ў' => Some(Consonant::new(Labial, Approximant, Voiced, false)),
            'у' => Some(Consonant::new(Labial, Approximant, Voiced, false)),
            _ => None,
        }
    } else if s.len() == 2 {
        match (s[0], s[1]) {
            ('к', 'ъ') => Some(Consonant::new(Uvular, Plosive, Voiceless, false)),
            ('I', 'у') => Some(Consonant::new(Glottal, Plosive, Voiceless, true)),
            ('к', 'у') => Some(Consonant::new(Velar, Plosive, Voiceless, true)),
            ('г', 'у') => Some(Consonant::new(Velar, Plosive, Voiced, true)),
            ('п', 'I') => Some(Consonant::new(Labial, Plosive, Ejective, false)),
            ('т', 'I') => Some(Consonant::new(Alveolar, Plosive, Ejective, false)),
            ('д', 'з') => Some(Consonant::new(Alveolar, Affricative, Voiced, false)),
            ('д', 'ж') => Some(Consonant::new(PostAlveolar, Affricative, Voiced, false)),
            ('ц', 'I') => Some(Consonant::new(Alveolar, Affricative, Ejective, false)),
            ('к', 'I') => Some(Consonant::new(PostAlveolar, Affricative, Ejective, false)),
            ('л', 'ъ') => Some(Consonant::new(Lateral, Fricative, Voiceless, false)),
            ('х', 'ъ') => Some(Consonant::new(Uvular, Fricative, Voiceless, false)),
            ('х', 'ь') => Some(Consonant::new(Pharyngeal, Fricative, Voiceless, false)),
            ('х', 'у') => Some(Consonant::new(Velar, Fricative, Voiceless, true)),
            ('ж', 'ь') => Some(Consonant::new(Palatal, Fricative, Voiced, false)),
            ('г', 'ъ') => Some(Consonant::new(Uvular, Fricative, Voiced, false)),
            ('ф', 'I') => Some(Consonant::new(Labial, Fricative, Ejective, false)),
            ('л', 'I') => Some(Consonant::new(Lateral, Fricative, Ejective, false)),
            ('щ', 'I') => Some(Consonant::new(Palatal, Fricative, Ejective, false)),
            _ => None,
        }
    } else if s.len() == 3 {
        match (s[0], s[1], s[2]) {
            ('к', 'ь', 'у') => Some(Consonant::new(Uvular, Plosive, Voiceless, true)),
            ('к', 'I', 'у') => Some(Consonant::new(Velar, Plosive, Ejective, true)),
            ('к', 'х', 'ъ') => Some(Consonant::new(Uvular, Affricative, Voiceless, false)),
            ('х', 'ъ', 'у') => Some(Consonant::new(Uvular, Fricative, Voiceless, true)),
            ('г', 'ъ', 'у') => Some(Consonant::new(Uvular, Fricative, Voiced, true)),
            _ => None,
        }
    } else if s.len() == 4 {
        if s[0] == 'к' && s[1] == 'х' && s[2] == 'ъ' && s[3] == 'у' {
            Some(Consonant::new(Uvular, Affricative, Voiceless, true))
        } else {
            None
        }
    } else {
        None
    }
}

/// The name `{:?}` gives a place.
pub open spec fn place_name(x: Place) -> Seq<char> {
    match x {
        Place::Labial => "Labial"@,
        Place::Alveolar => "Alveolar"@,
        Place::Lateral => "Lateral"@,
        Place::PostAlveolar => "PostAlveolar"@,
        Place::Palatal => "Palatal"@,
        Place::Velar => "Velar"@,
        Place::Uvular => "Uvular"@,
        Place::Pharyngeal => "Pharyngeal"@,
        Place::Glottal => "Glottal"@,
    }
}

/// The name `{:?}` gives a manner.
pub open spec fn manner_name(x: Manner) -> Seq<char> {
    match x {
        Manner::Nasal => "Nasal"@,
        Manner::Plosive => "Plosive"@,
        Manner::Affricative => "Affricative"@,
        Manner::Fricative => "Fricative"@,
        Manner::Approximant => "Approximant"@,
        Manner::Trill => "Trill"@,
    }
}

/// The name `{:?}` gives a voiceness.
pub open spec fn voiceness_name(x: Voiceness) -> Seq<char> {
    match x {
        Voiceness::Voiceless => "Voiceless"@,
        Voiceness::Voiced => "Voiced"@,
        Voiceness::Ejective => "Ejective"@,
    }
}

/// The text `{:?}` gives the place, manner, voiceness and labialization of a consonant.
pub open spec fn consonant_debug_text(c: Consonant) -> Seq<char> {
    "("@ + place_name(c.place) + ", "@ + manner_name(c.manner) + ", "@ + voiceness_name(
        c.voiceness,
    ) + ", "@ + if c.is_labialized {
        "true"@
    } else {
        "false"@
    } + ")"@
}

/// The error for a consonant that has no letter.
pub open spec fn consonant_error(c: Consonant) -> Seq<char> {
    if c == cons(Place::Labial, Manner::Approximant, Voiceness::Voiceless, false) {
        "This is WRONG!!!"@
    } else if c == cons(Place::Velar, Manner::Plosive, Voiceness::Voiced, false) {
        "kabardian doesn't have a voiced velar plosive, did you mean voiced velar fricative?"@
    } else if c.is_labialized && (c.place == Place::Labial || c.place == Place::Alveolar
        || c.place == Place::PostAlveolar || c.place == Place::Pharyngeal) {
        seq![]
    } else {
        consonant_debug_text(c)
    }
}

fn place_str(x: Place) -> (s: &'static str)
    ensures
        s@ == place_name(x),
{
    match x {
        Place::Labial => "Labial",
        Place::Alveolar => "Alveolar",
        Place::Lateral => "Lateral",
        Place::PostAlveolar => "PostAlveolar",
        Place::Palatal => "Palatal",
        Place::Velar => "Velar",
        Place::Uvular => "Uvular",
        Place::Pharyngeal => "Pharyngeal",
        Place::Glottal => "Glottal",
    }
}

fn manner_str(x: Manner) -> (s: &'static str)
    ensures
        s@ == manner_name(x),
{
    match x {
        Manner::Nasal => "Nasal",
        Manner::Plosive => "Plosive",
        Manner::Affricative => "Affricative",
        Manner::Fricative => "Fricative",
        Manner::Approximant => "Approximant",
        Manner::Trill => "Trill",
    }
}

fn voiceness_str(x: Voiceness) -> (s: &'static str)
    ensures
        s@ == voiceness_name(x),
{
    match x {
        Voiceness::Voiceless => "Voiceless",
        Voiceness::Voiced => "Voiced",
        Voiceness::Ejective => "Ejective",
    }
}

/// The text `{:?}` gives the place, manner, voiceness and labialization of a consonant.
fn consonant_debug_string(c: &Consonant) -> (s: String)
    ensures
        s@ == consonant_debug_text(*c),
{
    let mut s = String::from_str("(");
    s.append(place_str(c.place));
    s.append(", ");
    s.append(manner_str(c.manner));
    s.append(", ");
    s.append(voiceness_str(c.voiceness));
    s.append(", ");
    s.append(if c.is_labialized {
        "true"
    } else {
        "false"
    });
    s.append(")");
    s
}

impl Consonant {
    /// Returns a `Consonant`. This is 'unchecked'.
    fn new(place: Place, manner: Manner, voiceness: Voiceness, is_labialized: bool) -> (c: Self)
        ensures
            c == cons(place, manner, voiceness, is_labialized),
    {
        Consonant { place, manner, voiceness, is_labialized }
    }

    /// A consonant that is written the way it is read back; it must have a letter.
    fn try_new(place: Place, manner: Manner, voiceness: Voiceness, is_labialized: bool) -> (r:
        Result<Self, String>)
        requires
            consonant_text(cons(place, manner, voiceness, is_labialized)) is Some,
        ensures
            r is Ok <==> consonant_round_trips(cons(place, manner, voiceness, is_labialized)),
            r matches Ok(c) ==> c == cons(place, manner, voiceness, is_labialized),
            r matches Err(e) ==> e@ == consonant_text(
                cons(place, manner, voiceness, is_labialized),
            ).unwrap() + " is not a valid consonant"@,
    {
        let c = Consonant { place, manner, voiceness, is_labialized };
        if c.is_valid() {
            Ok(c)
        } else {
            let mut msg = c.to_string();
            msg.append(" is not a valid consonant");
            Err(msg)
        }
    }

    fn is_valid(&self) -> (r: bool)
        ensures
            r == consonant_round_trips(*self),
    {
        if let Ok(string) = self.to_str() {
            if let Ok(c) = Consonant::try_from(string.as_str()) {
                return c == *self;
            }
        }
        false
    }

    /// The consonant written as `s`; an error if `s` is not one.
    pub fn try_from(s: &str) -> (r: Result<Consonant, String>)
        ensures
            r is Ok <==> consonant_of(s@) is Some,
            r matches Ok(c) ==> consonant_of(s@) == Some(c),
            r matches Err(e) ==> e@ == "Unknown consonant: "@ + s@,
    {
        let cs = str_chars(s);
        match consonant_from_chars(cs.as_slice()) {
            Some(c) => Ok(c),
            None => {
                let mut msg = String::from_str("Unknown consonant: ");
                msg.append(s);
                Err(msg)
            },
        }
    }

    /// The text of the consonant; an error for a consonant the language does not write.
    pub fn to_str(&self) -> (r: Result<String, String>)
        ensures
            r is Ok <==> consonant_text(*self) is Some,
            r matches Ok(t) ==> consonant_text(*self) == Some(t@),
            r matches Err(e) ==> e@ == consonant_error(*self),
    {
        match (self.place, self.manner, self.voiceness, self.is_labialized) {
            (Labial, Nasal, Voiced, false) => Ok(string_of(&['н'])),
            (Alveolar, Nasal, Voiced, false) => Ok(string_of(&['м'])),
            (Labial, Plosive, Voiceless, false) => Ok(string_of(&['п'])),
            (Labial, Plosive, Voiced, false) => Ok(string_of(&['б'])),
            (Labial, Plosive, Ejective, false) => Ok(string_of(&['п', 'I'])),
            (Alveolar, Plosive, Voiceless, false) => Ok(string_of(&['т'])),
            (Alveolar, Plosive, Voiced, false) => Ok(string_of(&['д'])),
            (Alveolar, Plosive, Ejective, false) => Ok(string_of(&['т', 'I'])),
            (Velar, Plosive, Voiceless, false) => Ok(string_of(&['к'])),
            (Velar, Plosive, Voiced, true) => Ok(string_of(&['г', 'у'])),
            (Uvular, Plosive, Voiceless, false) => Ok(string_of(&['к', 'ъ'])),
            (Glottal, Plosive, Voiceless, false) => Ok(string_of(&['I'])),
            (Uvular, Plosive, Voiceless, true) => Ok(string_of(&['к', 'ъ', 'у'])),
            (Glottal, Plosive, Voiceless, true) => Ok(string_of(&['I', 'у'])),
            (Alveolar, Affricative, Voiceless, false) => Ok(string_of(&['ц'])),
            (Alveolar, Affricative, Voiced, false) => Ok(string_of(&['д', 'з'])),
            (Alveolar, Affricative, Ejective, false) => Ok(string_of(&['ц', 'I'])),
            (PostAlveolar, Affricative, Voiceless, false) => Ok(string_of(&['ч'])),
            (PostAlveolar, Affricative, Voiced, false) => Ok(string_of(&['д', 'ж'])),
            (PostAlveolar, Affricative, Ejective, false) => Ok(string_of(&['к', 'I'])),
            (Uvular, Affricative, Voiceless, false) => Ok(string_of(&['к', 'х', 'ъ'])),
            (Uvular, Affricative, Voiceless, true) => Ok(string_of(&['к', 'х', 'ъ', 'у'])),
            (Labial, Fricative, Voiceless, false) => Ok(string_of(&['ф'])),
            (Labial, Fricative, Voiced, false) => Ok(string_of(&['в'])),
            (Labial, Fricative, Ejective, false) => Ok(string_of(&['ф', 'I'])),
            (Alveolar, Fricative, Voiceless, false) => Ok(string_of(&['с'])),
            (Alveolar, Fricative, Voiced, false) => Ok(string_of(&['з'])),
            (Lateral, Fricative, Voiceless, false) => Ok(string_of(&['л', 'ъ'])),
            (Lateral, Fricative, Voiced, false) => Ok(string_of(&['л'])),
            (Lateral, Fricative, Ejective, false) => Ok(string_of(&['л', 'I'])),
            (PostAlveolar, Fricative, Voiceless, false) => Ok(string_of(&['ш'])),
            (PostAlveolar, Fricative, Voiced, false) => Ok(string_of(&['ж'])),
            (Palatal, Fricative, Voiceless, false) => Ok(string_of(&['щ'])),
            (Palatal, Fricative, Voiced, false) => Ok(string_of(&['ж', 'ь'])),
            (Palatal, Fricative, Ejective, false) => Ok(string_of(&['щ', 'I'])),
            (Velar, Fricative, Voiceless, false) => Ok(string_of(&['х'])),
            (Velar, Fricative, Voiced, false) => Ok(string_of(&['г'])),
            (Uvular, Fricative, Voiceless, false) => Ok(string_of(&['х', 'ъ'])),
            (Uvular, Fricative, Voiced, false) => Ok(string_of(&['г', 'ъ'])),
            (Pharyngeal, Fricative, Voiceless, false) => Ok(string_of(&['х', 'ь'])),
            (Velar, Fricative, Voiceless, true) => Ok(string_of(&['х', 'у'])),
            (Uvular, Fricative, Voiceless, true) => Ok(string_of(&['х', 'ъ', 'у'])),
            (Uvular, Fricative, Voiced, true) => Ok(string_of(&['г', 'ь', 'у'])),
            (Palatal, Approximant, Voiced, false) => Ok(string_of(&['й'])),
            (Labial, Approximant, Voiced, false) => Ok(string_of(&['у'])),
            (Labial, Approximant, Voiceless, false) => Err(String::from_str("This is WRONG!!!")),
            (Alveolar, Trill, Voiced, false) => Ok(string_of(&['р'])),
            (Velar, Plosive, Voiced, false) => Err(
                String::from_str(
                    "kabardian doesn't have a voiced velar plosive, did you mean voiced velar fricative?",
                ),
            ),
            (Labial, _, _, true) => Err(String::new()),
            (Alveolar, _, _, true) => Err(String::new()),
            (PostAlveolar, _, _, true) => Err(String::new()),
            (Pharyngeal, _, _, true) => Err(String::new()),
            _ => Err(consonant_debug_string(self)),
        }
    }

    /// The consonant as text; it must be one the language writes.
    pub fn to_string(&self) -> (s: String)
        requires
            consonant_text(*self) is Some,
        ensures
            s@ == consonant_text(*self).unwrap(),
    {
        match self.to_str() {
            Ok(s) => s,
            Err(_) => {
                proof {
                    assert(false);
                }
                String::new()
            },
        }
    }

    pub fn is_labial_approximant_voice(&self) -> (r: bool)
        ensures
            r == (self.place == Place::Labial && self.manner == Manner::Approximant
                && self.voiceness == Voiceness::Voiced),
    {
        self.is_place_and_manner(Place::Labial, Manner::Approximant) && self.voiceness
            == Voiceness::Voiced
    }

    /// Whether the consonant is a labial plosive ('п', 'б', 'пI').
    pub fn is_labial_plosive(&self) -> (r: bool)
        ensures
            r == (self.place == Place::Labial && self.manner == Manner::Plosive),
    {
        self.is_place_and_manner(Place::Labial, Manner::Plosive)
    }

    pub fn is_place_and_manner(&self, place: Place, manner: Manner) -> (r: bool)
        ensures
            r == (self.manner == manner && self.place == place),
    {
        self.manner == manner && self.place == place
    }

    pub fn is_manner(&self, manner: Manner) -> (r: bool)
        ensures
            r == (self.manner == manner),
    {
        self.manner == manner
    }

    pub fn is_place(&self, place: Place) -> (r: bool)
        ensures
            r == (self.place == place),
    {
        self.place == place
    }

    pub fn is_nasal(&self) -> (r: bool)
        ensures
            r == (self.manner == Manner::Nasal),
    {
        self.is_manner(Manner::Nasal)
    }

    pub fn is_trill(&self) -> (r: bool)
        ensures
            r == (self.manner == Manner::Trill),
    {
        self.is_manner(Manner::Trill)
    }

    /// Returns `true` if the consonant is a velar, uvular or pharyngeal plosive, aka it needs
    /// an 'ы' before 'у'.
    pub fn needs_epenthetic_y(&self) -> (r: bool)
        ensures
            r == needs_epenthetic(*self),
    {
        match (self.place, self.manner) {
            (Place::Velar, Manner::Plosive) | (Place::Uvular, Manner::Plosive) | (
                Place::Pharyngeal,
                Manner::Plosive,
            ) => true,
            _ => false,
        }
    }
}

/// A velar, uvular or pharyngeal plosive, which needs an 'ы' before 'у'.
pub open spec fn needs_epenthetic(c: Consonant) -> bool {
    (c.place == Place::Velar || c.place == Place::Uvular || c.place == Place::Pharyngeal)
        && c.manner == Manner::Plosive
}

/// A consonant is valid when its text reads back as the same consonant.
pub open spec fn consonant_round_trips(c: Consonant) -> bool {
    match consonant_text(c) {
        Some(t) => consonant_of(t) == Some(c),
        None => false,
    }
}

// ---------------------------------------------------------------------------
// Letters
// ---------------------------------------------------------------------------

pub open spec fn letter_voiceness(l: Letter) -> Voiceness {
    match l {
        Letter::Consonant(c) => c.voiceness,
        Letter::Vowel(..) => Voiceness::Voiced,
        Letter::Combi(..) => Voiceness::Voiced,
    }
}

/// The consonant part of a combined letter.
pub open spec fn first_of_combi_spec(c: char) -> char {
    if c == 'я' || c == 'е' || c == 'и' {
        'й'
    } else {
        'у'
    }
}

/// The vowel part of a combined letter.
pub open spec fn last_of_combi_spec(c: char) -> char {
    if c == 'я' {
        'а'
    } else if c == 'е' || c == 'о' {
        'э'
    } else {
        'ы'
    }
}

/// The letter that a combined character stands for.
pub open spec fn combi_letter(c: char) -> Letter {
    Letter::Combi(
        consonant_of_1(first_of_combi_spec(c)).unwrap(),
        vowel_of(seq![last_of_combi_spec(c)]).unwrap(),
    )
}

/// The combined character that a consonant text and a vowel text make.
pub open spec fn combine_spec(a: Seq<char>, b: Seq<char>) -> Option<char> {
    if a == seq!['й'] && b == seq!['э'] {
        Some('е')
    } else if a == seq!['й'] && b == seq!['ы'] {
        Some('и')
    } else if a == seq!['й'] && b == seq!['а'] {
        Some('я')
    } else if a == seq!['у'] && b == seq!['э'] {
        Some('о')
    } else if a == seq!['у'] && b == seq!['ы'] {
        Some('у')
    } else {
        None
    }
}

/// Writing a consonant that has a letter and reading the text back gives the consonant
/// again; not so for the nasals (whose letters 'м' and 'н' are read the other way round),
/// nor for the labialized uvular plosive (written "къу") and the labialized voiced uvular
/// fricative (written "гьу"), whose texts read as nothing.
pub proof fn consonant_round_trip(c: Consonant)
    requires
        consonant_text(c) is Some,
        c.manner != Manner::Nasal,
        !(c.place == Place::Uvular && c.is_labialized && c.manner == Manner::Plosive),
        !(c.place == Place::Uvular && c.is_labialized && c.manner == Manner::Fricative
            && c.voiceness == Voiceness::Voiced),
    ensures
        consonant_of(consonant_text(c).unwrap()) == Some(c),
        consonant_round_trips(c),
{
}

/// Reading a consonant text and writing the consonant gives the text again; not so for
/// 'м', 'н' and 'ў', nor for "ку", "кьу", "кIу" and "гъу".
pub proof fn consonant_text_round_trip(t: Seq<char>)
    requires
        consonant_of(t) is Some,
        t != seq!['м'],
        t != seq!['н'],
        t != seq!['ў'],
        t != seq!['к', 'у'],
        t != seq!['к', 'ь', 'у'],
        t != seq!['к', 'I', 'у'],
        t != seq!['г', 'ъ', 'у'],
    ensures
        consonant_text(consonant_of(t).unwrap()) == Some(t),
{
    if t.len() == 1 {
        assert(t =~= seq![t[0]]);
    } else if t.len() == 2 {
        assert(t =~= seq![t[0], t[1]]);
    } else if t.len() == 3 {
        assert(t =~= seq![t[0], t[1], t[2]]);
    } else {
        assert(t =~= seq![t[0], t[1], t[2], t[3]]);
    }
}

/// A combined letter is its consonant and its vowel: combining the two parts of each
/// combined letter gives the letter back ('я' = 'й' + 'а', 'е' = 'й' + 'э', 'и' = 'й' + 'ы',
/// 'о' = 'у' + 'э', 'у' = 'у' + 'ы').
pub proof fn combi_round_trip(c: char)
    requires
        is_combi_char(c),
    ensures
        combine_spec(seq![first_of_combi_spec(c)], seq![last_of_combi_spec(c)]) == Some(c),
{
    let a = seq![first_of_combi_spec(c)];
    let b = seq![last_of_combi_spec(c)];
    assert(a[0] == first_of_combi_spec(c) && b[0] == last_of_combi_spec(c));
    assert(seq!['й'][0] == 'й' && seq!['у'][0] == 'у');
    assert(seq!['э'][0] == 'э' && seq!['ы'][0] == 'ы' && seq!['а'][0] == 'а');
}

/// The text of a letter, if it has one.
pub open spec fn letter_text(l: Letter) -> Option<Seq<char>> {
    match l {
        Letter::Consonant(c) => consonant_text(c),
        Letter::Vowel(v) => Some(seq![vowel_char(v)]),
        Letter::Combi(c, v) => match consonant_text(c) {
            Some(t) => match combine_spec(t, seq![vowel_char(v)]) {
                Some(x) => Some(seq![x]),
                None => None,
            },
            None => None,
        },
    }
}

impl Letter {
    pub fn voiceness(&self) -> (v: Voiceness)
        ensures
            v == letter_voiceness(*self),
    {
        match &self {
            Letter::Consonant(c) => c.voiceness,
            Letter::Vowel(..) => Voiceness::Voiced,
            Letter::Combi(..) => Voiceness::Voiced,
        }
    }

    pub fn is_vowel(&self) -> (r: bool)
        ensures
            r == (*self is Vowel),
    {
        match &self {
            Letter::Vowel(..) => true,
            _ => false,
        }
    }

    pub fn is_consonant(&self) -> (r: bool)
        ensures
            r == (*self is Consonant),
    {
        match &self {
            Letter::Consonant(..) => true,
            _ => false,
        }
    }

    pub fn is_combi(&self) -> (r: bool)
        ensures
            r == (*self is Combi),
    {
        match &self {
            Letter::Combi(..) => true,
            _ => false,
        }
    }

    pub fn is_consonant_or_combi(&self) -> (r: bool)
        ensures
            r == (*self is Consonant || *self is Combi),
    {
        self.is_consonant() || self.is_combi()
    }

    pub fn is_vowel_or_combi(&self) -> (r: bool)
        ensures
            r == (*self is Vowel || *self is Combi),
    {
        self.is_vowel() || self.is_combi()
    }

    /// The letter as text; it must be one that has a text.
    pub fn to_string(&self) -> (s: String)
        requires
            letter_text(*self) is Some,
        ensures
            s@ == letter_text(*self).unwrap(),
    {
        match self {
            Letter::Consonant(c) => c.to_string(),
            Letter::Vowel(v) => v.to_string(),
            Letter::Combi(c, v) => {
                let cs = c.to_string();
                let vs = v.to_string();
                match combine_to_combi(cs.as_str(), vs.as_str()) {
                    Some(x) => string_of_char(x),
                    None => {
                        proof {
                            assert(false);
                        }
                        String::new()
                    },
                }
            },
        }
    }
}

/// The text of a letter, where it has one.
pub fn letter_text_string(l: &Letter) -> (r: Option<String>)
    ensures
        text_of(r) == letter_text(*l),
{
    match l {
        Letter::Consonant(c) => match c.to_str() {
            Ok(t) => Some(t),
            Err(_) => None,
        },
        Letter::Vowel(v) => Some(v.to_string()),
        Letter::Combi(c, v) => match c.to_str() {
            Ok(cs) => {
                let vs = v.to_string();
                match combine_to_combi(cs.as_str(), vs.as_str()) {
                    Some(x) => Some(string_of_char(x)),
                    None => None,
                }
            },
            Err(_) => None,
        },
    }
}

fn first_of_combi(c: &char) -> (r: Result<char, String>)
    ensures
        r is Ok <==> is_combi_char(*c),
        r matches Ok(x) ==> x == first_of_combi_spec(*c),
{
    match c {
        'я' | 'е' | 'и' => Ok('й'),
        'о' | 'у' => Ok('у'),
        _ => {
            let mut msg = string_of_char(*c);
            msg.append(" is not a combi");
            Err(msg)
        },
    }
}

fn last_of_combi(c: &char) -> (r: Result<char, String>)
    ensures
        r is Ok <==> is_combi_char(*c),
        r matches Ok(x) ==> x == last_of_combi_spec(*c),
{
    match c {
        'я' => Ok('а'),
        'е' | 'о' => Ok('э'),
        'и' | 'у' => Ok('ы'),
        _ => {
            let mut msg = string_of_char(*c);
            msg.append(" is not a combi");
            Err(msg)
        },
    }
}

fn split_combi(combi: &char) -> (r: Result<(Consonant, Vowel), String>)
    ensures
        r is Ok <==> is_combi_char(*combi),
        r matches Ok(p) ==> Letter::Combi(p.0, p.1) == combi_letter(*combi),
{
    if !is_char_combi(combi) {
        let mut msg = string_of_char(*combi);
        msg.append(" is not a combi");
        return Err(msg);
    }
    let first = match first_of_combi(combi) {
        Ok(x) => x,
        Err(_) => {
            proof {
                assert(false);
            }
            return Err(String::new());
        },
    };
    let last = match last_of_combi(combi) {
        Ok(x) => x,
        Err(_) => {
            proof {
                assert(false);
            }
            return Err(String::new());
        },
    };
    let fs = string_of_char(first);
    let ls = string_of_char(last);
    let c = match Consonant::try_from(fs.as_str()) {
        Ok(c) => c,
        Err(_) => {
            proof {
                assert(false);
            }
            return Err(String::new());
        },
    };
    let v = match Vowel::try_from(ls.as_str()) {
        Ok(v) => v,
        Err(_) => {
            proof {
                assert(false);
            }
            return Err(String::new());
        },
    };
    Ok((c, v))
}

fn combine_to_combi(c_0: &str, c_1: &str) -> (r: Option<char>)
    ensures
        r == combine_spec(c_0@, c_1@),
{
    let a = str_chars(c_0);
    let b = str_chars(c_1);
    if a.len() != 1 || b.len() != 1 {
        return None;
    }
    assert(a@ =~= seq![a@[0]]);
    assert(b@ =~= seq![b@[0]]);
    match (a[0], b[0]) {
        ('й', 'э') => Some('е'),
        ('й', 'ы') => Some('и'),
        ('й', 'а') => Some('я'),
        ('у', 'э') => Some('о'),
        ('у', 'ы') => Some('у'),
        _ => None,
    }
}

// ---------------------------------------------------------------------------
// Reading a text into letters
// ---------------------------------------------------------------------------

/// The index of the last character of the consonant that starts at `i`, when its
/// characters so far end at `k`.
pub open spec fn consonant_end(cs: Seq<char>, i: int, k: int, deco: Deco, lab: bool) -> int
    decreases cs.len() - k,
{
    let base = cs[i];
    if is_simple_cons(base) || k + 1 >= cs.len() || k < i {
        k
    } else {
        let c = cs[k + 1];
        if is_vowel_char(c) {
            k
        } else if can_palochka(base) && deco == Deco::Base && !lab && c == 'I' {
            consonant_end(cs, i, k + 1, Deco::Palotshka, lab)
        } else if can_labialized(base) && !lab && deco != Deco::MagkiyZnak && c == 'у' {
            consonant_end(cs, i, k + 1, deco, true)
        } else if can_tverdyj_znak(base) && deco == Deco::Base && !lab && c == 'ъ' {
            consonant_end(cs, i, k + 1, Deco::TverdyyZnak, lab)
        } else if can_magkiy_znak(base) && deco == Deco::Base && !lab && c == 'ь' {
            consonant_end(cs, i, k + 1, Deco::MagkiyZnak, lab)
        } else if base == 'д' && (c == 'з' || c == 'ж') {
            consonant_end(cs, i, k + 1, deco, lab)
        } else if base == 'к' && c == 'х' && k + 2 < cs.len() && cs[k + 2] == 'ъ' {
            consonant_end(cs, i, k + 1, deco, lab)
        } else {
            k
        }
    }
}

proof fn lemma_consonant_end_bounds(cs: Seq<char>, i: int, k: int, deco: Deco, lab: bool)
    requires
        0 <= i <= k < cs.len(),
    ensures
        k <= consonant_end(cs, i, k, deco, lab) < cs.len(),
    decreases cs.len() - k,
{
    let base = cs[i];
    if is_simple_cons(base) || k + 1 >= cs.len() {
    } else {
        let c = cs[k + 1];
        if is_vowel_char(c) {
        } else if can_palochka(base) && deco == Deco::Base && !lab && c == 'I' {
            lemma_consonant_end_bounds(cs, i, k + 1, Deco::Palotshka, lab);
        } else if can_labialized(base) && !lab && deco != Deco::MagkiyZnak && c == 'у' {
            lemma_consonant_end_bounds(cs, i, k + 1, deco, true);
        } else if can_tverdyj_znak(base) && deco == Deco::Base && !lab && c == 'ъ' {
            lemma_consonant_end_bounds(cs, i, k + 1, Deco::TverdyyZnak, lab);
        } else if can_magkiy_znak(base) && deco == Deco::Base && !lab && c == 'ь' {
            lemma_consonant_end_bounds(cs, i, k + 1, Deco::MagkiyZnak, lab);
        } else if base == 'д' && (c == 'з' || c == 'ж') {
            lemma_consonant_end_bounds(cs, i, k + 1, deco, lab);
        } else if base == 'к' && c == 'х' && k + 2 < cs.len() && cs[k + 2] == 'ъ' {
            lemma_consonant_end_bounds(cs, i, k + 1, deco, lab);
        }
    }
}

/// The letter that starts at index `i` and the index of its last character; `None` where
/// reading fails.
pub open spec fn letter_at(cs: Seq<char>, i: int) -> Option<(Letter, int)> {
    let c = cs[i];
    if is_vowel_char(c) {
        Some((Letter::Vowel(vowel_of(seq![c]).unwrap()), i))
    } else if is_combi_char(c) {
        Some((combi_letter(c), i))
    } else if is_consonant_char(c) {
        let j = consonant_end(cs, i, i, Deco::Base, false);
        match consonant_of(cs.subrange(i, j + 1)) {
            Some(x) => Some((Letter::Consonant(x), j)),
            None => None,
        }
    } else {
        None
    }
}

proof fn lemma_letter_at_bounds(cs: Seq<char>, i: int)
    requires
        0 <= i < cs.len(),
    ensures
        letter_at(cs, i) matches Some(p) ==> i <= p.1 < cs.len(),
{
    if is_consonant_char(cs[i]) {
        lemma_consonant_end_bounds(cs, i, i, Deco::Base, false);
    }
}

/// The letters of `cs` from index `i` on; `None` where reading fails.
pub open spec fn letters_from(cs: Seq<char>, i: int) -> Option<Seq<Letter>>
    decreases cs.len() - i,
    via letters_from_decreases
{
    if i < 0 || i >= cs.len() {
        Some(seq![])
    } else {
        match letter_at(cs, i) {
            None => None,
            Some(p) => match letters_from(cs, p.1 + 1) {
                None => None,
                Some(rest) => Some(seq![p.0] + rest),
            },
        }
    }
}

#[via_fn]
proof fn letters_from_decreases(cs: Seq<char>, i: int) {
    if 0 <= i < cs.len() {
        lemma_letter_at_bounds(cs, i);
    }
}

/// The letters of a text, where it can be read.
pub open spec fn parse_letters(s: Seq<char>) -> Option<Seq<Letter>> {
    letters_from(s, 0)
}

/// `parse` reads the text without failing.
pub open spec fn parses(s: Seq<char>) -> bool {
    all_alphabet(s) && parse_letters(s) is Some
}

/// The letters of a text that parses.
pub open spec fn letters_of(s: Seq<char>) -> Seq<Letter> {
    parse_letters(s).unwrap()
}

fn parse_vowel(vowel: &char) -> (r: Result<Letter, String>)
    requires
        is_vowel_char(*vowel),
    ensures
        r == Ok::<Letter, String>(Letter::Vowel(vowel_of(seq![*vowel]).unwrap())),
{
    let s = string_of_char(*vowel);
    let v = match Vowel::try_from(s.as_str()) {
        Ok(v) => v,
        Err(e) => {
            proof {
                assert(false);
            }
            return Err(e);
        },
    };
    Ok(Letter::Vowel(v))
}

fn parse_combi(combi: &char) -> (r: Result<Letter, String>)
    requires
        is_combi_char(*combi),
    ensures
        r == Ok::<Letter, String>(combi_letter(*combi)),
{
    match split_combi(combi) {
        Ok((c, v)) => Ok(Letter::Combi(c, v)),
        Err(e) => {
            proof {
                assert(false);
            }
            Err(e)
        },
    }
}

/// The index of the last character of the consonant that starts at index `i`.
fn consonant_end_index(chars: &[char], i: usize) -> (j: usize)
    requires
        i < chars@.len(),
    ensures
        i <= j < chars@.len(),
        j as int == consonant_end(chars@, i as int, i as int, Deco::Base, false),
{
    let ghost cs = chars@;
    let base_char = chars[i];
    let mut j = i;
    let mut has_labial = false;
    let mut deco = Deco::Base;
    proof {
        lemma_consonant_end_bounds(cs, i as int, i as int, Deco::Base, false);
    }
    loop
        invariant
            cs == chars@,
            i <= j < cs.len(),
            base_char == cs[i as int],
            consonant_end(cs, i as int, j as int, deco, has_labial) == consonant_end(
                cs,
                i as int,
                i as int,
                Deco::Base,
                false,
            ),
        ensures
            i <= j < cs.len(),
            j as int == consonant_end(cs, i as int, i as int, Deco::Base, false),
        decreases cs.len() - j,
    {
        if char_is_simple_cons(base_char) {
            break;
        }
        if j >= chars.len() - 1 {
            break;
        }
        let c = chars[j + 1];
        if is_char_vowel(&c) {
            break;
        }
        if char_can_palochka(base_char) && deco == Deco::Base && !has_labial && c == 'I' {
            j += 1;
            deco = Deco::Palotshka;
        } else if char_can_labialized(base_char) && !has_labial && deco != Deco::MagkiyZnak && c
            == 'у' {
            j += 1;
            has_labial = true;
        } else if char_can_tverdyj_znak(base_char) && deco == Deco::Base && !has_labial && c
            == 'ъ' {
            j += 1;
            deco = Deco::TverdyyZnak;
        } else if char_can_magkiy_znak(base_char) && deco == Deco::Base && !has_labial && c
            == 'ь' {
            j += 1;
            deco = Deco::MagkiyZnak;
        } else if base_char == 'д' && (c == 'з' || c == 'ж') {
            j += 1;
        } else if base_char == 'к' && c == 'х' && j + 1 < chars.len() - 1 && chars[j + 2]
            == 'ъ' {
            j += 1;
        } else {
            break;
        }
    }
    j
}

fn parse_consonant(consonant: &char, chars: &[char], i: &mut usize) -> (r: Result<Letter, String>)
    requires
        *old(i) < chars@.len(),
        chars@[*old(i) as int] == *consonant,
        letter_at(chars@, *old(i) as int) is Some,
        is_consonant_char(*consonant),
    ensures
        letter_at(chars@, *old(i) as int) == Some((r->Ok_0, *final(i) as int)),
        r is Ok,
{
    let start = *i;
    let end = consonant_end_index(chars, start);
    assert(end < chars.len());
    let consonant_str = slice_range(chars, start, end + 1);
    *i = end;
    match consonant_from_chars(consonant_str.as_slice()) {
        Some(c) => Ok(Letter::Consonant(c)),
        None => {
            proof {
                assert(false);
            }
            Err(String::new())
        },
    }
}

/// The index of the last character of the letter that starts at index `i`; `None` where
/// no letter starts there.
fn letter_end(chars: &[char], i: usize) -> (r: Option<usize>)
    requires
        i < chars@.len(),
    ensures
        match letter_at(chars@, i as int) {
            Some(p) => r == Some(p.1 as usize),
            None => r is None,
        },
{
    let c = chars[i];
    if is_char_vowel(&c) || is_char_combi(&c) {
        Some(i)
    } else if is_char_consonant(&c) {
        let end = consonant_end_index(chars, i);
        assert(end < chars.len());
        let consonant_str = slice_range(chars, i, end + 1);
        match consonant_from_chars(consonant_str.as_slice()) {
            Some(_) => Some(end),
            None => None,
        }
    } else {
        None
    }
}

/// Whether `parse` reads a text into letters without failing: every character is one of
/// the alphabet, and letters follow one another to its end.
pub fn text_reads(s: &str) -> (r: bool)
    ensures
        r == parses(s@),
{
    let chars = str_chars(s);
    let ghost cs = chars@;
    let mut k: usize = 0;
    while k < chars.len()
        invariant
            chars@ == s@,
            cs == chars@,
            k <= chars.len(),
            forall|j: int| 0 <= j < k ==> is_alphabet_char(#[trigger] cs[j]),
        decreases chars.len() - k,
    {
        if !is_char_possible(chars[k]) || chars[k] == 'ю' {
            assert(!is_alphabet_char(cs[k as int]));
            return false;
        }
        k = k + 1;
    }
    assert(all_alphabet(s@));
    let mut i: usize = 0;
    while i < chars.len()
        invariant
            chars@ == s@,
            cs == chars@,
            i <= chars.len(),
            all_alphabet(s@),
            letters_from(cs, 0) is Some <==> letters_from(cs, i as int) is Some,
        decreases chars.len() - i,
    {
        proof {
            lemma_letter_at_bounds(cs, i as int);
        }
        match letter_end(chars.as_slice(), i) {
            None => {
                return false;
            },
            Some(j) => {
                i = j + 1;
            },
        }
    }
    true
}

fn parse_letter(ch: &char, chars: &[char], i: &mut usize) -> (r: Result<Letter, String>)
    requires
        *old(i) < chars@.len(),
        chars@[*old(i) as int] == *ch,
        letter_at(chars@, *old(i) as int) is Some,
    ensures
        letter_at(chars@, *old(i) as int) == Some((r->Ok_0, *final(i) as int)),
        r is Ok,
{
    if is_char_vowel(ch) {
        parse_vowel(ch)
    } else if is_char_combi(ch) {
        parse_combi(ch)
    } else if is_char_consonant(ch) {
        parse_consonant(ch, chars, i)
    } else {
        let mut msg = string_of_char(*ch);
        msg.append(" is not a valid letter.");
        Err(msg)
    }
}

/// The index of the first character from index `i` on that `parse` does not accept; the
/// length of the text if there is none.
pub open spec fn first_impossible(s: Seq<char>, i: int) -> int
    decreases s.len() - i,
{
    if i < 0 || i >= s.len() {
        s.len() as int
    } else if !is_possible_char(s[i]) {
        i
    } else {
        first_impossible(s, i + 1)
    }
}

/// Parses a string into a vector of letters.
///
/// This is especially useful since many letters in Kabardian are di-, tri-, or even quadrigraphs.
/// A text with a character outside the accepted ones is an error; a text made of accepted
/// characters must be one that reads into letters.
pub fn parse(s: &str) -> (r: Result<Vec<Letter>, String>)
    requires
        all_possible(s@) ==> parses(s@),
    ensures
        r is Err <==> !all_possible(s@),
        r matches Ok(letters) ==> letters@ == letters_of(s@),
        r matches Err(e) ==> e@ == "invalid character: "@ + seq![s@[first_impossible(s@, 0)]],
{
    let chars = str_chars(s);
    let ghost cs = chars@;
    let mut k: usize = 0;
    while k < chars.len()
        invariant
            chars@ == s@,
            cs == chars@,
            k <= chars.len(),
            forall|j: int| 0 <= j < k ==> is_possible_char(#[trigger] cs[j]),
            first_impossible(cs, 0) == first_impossible(cs, k as int),
        decreases chars.len() - k,
    {
        if !is_char_possible(chars[k]) {
            let mut msg = String::from_str("invalid character: ");
            push_char(&mut msg, chars[k]);
            return Err(msg);
        }
        k = k + 1;
    }
    assert(all_possible(s@));
    let mut valid_chars: Vec<ValidChar> = Vec::new();
    let mut k: usize = 0;
    while k < chars.len()
        invariant
            chars@ == s@,
            k <= chars.len(),
            all_alphabet(s@),
            valid_chars.len() == k,
        decreases chars.len() - k,
    {
        match ValidChar::try_from(chars[k]) {
            Ok(v) => valid_chars.push(v),
            Err(_) => {
                proof {
                    assert(is_alphabet_char(cs[k as int]));
                    assert(false);
                }
                return Err(String::new());
            },
        }
        k = k + 1;
    }
    let mut letters: Vec<Letter> = Vec::new();
    let mut i: usize = 0;
    while i < chars.len()
        invariant
            chars@ == s@,
            cs == s@,
            i <= chars.len(),
            letters_from(cs, i as int) is Some,
            letters_from(cs, 0) == Some(letters@ + letters_from(cs, i as int).unwrap()),
        decreases chars.len() - i,
    {
        let c = chars[i];
        let ghost old_i = i as int;
        let letter = match parse_letter(&c, chars.as_slice(), &mut i) {
            Ok(l) => l,
            Err(e) => {
                proof {
                    assert(false);
                }
                return Err(e);
            },
        };
        proof {
            lemma_letter_at_bounds(cs, old_i);
        }
        letters.push(letter);
        i = i + 1;
        assert(letters_from(cs, old_i) == Some(
            seq![letter] + letters_from(cs, i as int).unwrap(),
        ));
        assert(letters_from(cs, 0) == Some(letters@ + letters_from(cs, i as int).unwrap())) by {
            assert(letters@ == letters@.drop_last().push(letter));
            assert(letters@.drop_last() + (seq![letter] + letters_from(cs, i as int).unwrap())
                =~= letters@ + letters_from(cs, i as int).unwrap());
        }
    }
    assert(letters_from(cs, i as int).unwrap() =~= seq![]);
    assert(letters@ + seq![] =~= letters@);
    Ok(letters)
}

} // verus!
