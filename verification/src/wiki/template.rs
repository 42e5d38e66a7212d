//! The description of a verb template ("спр-лъэмыӏ-0-0д-э") and of the verb stem it
//! stands for.
use vstd::prelude::*;

use crate::morpho::{Preverb, Transitivity};
use crate::ortho::{self, letters_of, parses, Consonant, Letter, Manner, Place, Voiceness, Vowel};
use crate::text::{
    decimal, decimal_text, join_text, lemma_split_append, lemma_split_join, lemma_split_single,
    lemma_split_text_len, push_char,
    push_chars, push_text, slice_range, split_on, split_text, str_chars, str_eq, string_of,
    string_of_char, string_views,
};

verus! {

/// The thematic vowel as written after the stem: stems ending on a labialized consonant
/// carry an implicit 'ы'.
pub open spec fn thematic_text(tv: ThematicVowel, lc: LastConsonant) -> Seq<char> {
    match (tv, lc) {
        (ThematicVowel::Y, LastConsonant::Labial) => seq![],
        (ThematicVowel::Y, _) => seq!['ы'],
        _ => seq!['э'],
    }
}

/// It's basically there to treat stems ending on у which labializes the consonants before it.
/// This also indicates an implicit ы.
pub fn treat_thematic_vowel(tv: &ThematicVowel, vs: &VerbStem) -> (s: String)
    ensures
        s@ == thematic_text(*tv, vs.last_consonant),
{
    match (tv, &vs.last_consonant) {
        (ThematicVowel::Y, LastConsonant::Labial) => String::new(),
        (ThematicVowel::Y, _) => string_of(&['ы']),
        _ => string_of(&['э']),
    }
}

#[derive(Debug, Clone, Copy, PartialEq, Eq, Structural)]
pub enum VowelKind {
    With,
    Without,
    Alternating,
}

#[derive(Debug, Clone, Copy, PartialEq, Eq, Structural)]
pub enum ThematicVowel {
    A,
    Y,
}

impl ThematicVowel {
    /// The thematic vowel a stem-final vowel stands for; 'а' is none.
    pub fn from(vowel: &Vowel) -> (t: Self)
        requires
            *vowel != Vowel::AA,
        ensures
            t == (if *vowel == Vowel::A {
                ThematicVowel::A
            } else {
                ThematicVowel::Y
            }),
    {
        match vowel {
            Vowel::A => ThematicVowel::A,
            Vowel::Y => ThematicVowel::Y,
            Vowel::AA => {
                proof {
                    assert(false);
                }
                ThematicVowel::A
            },
        }
    }

    /// The thematic vowel as text.
    pub fn to_string(&self) -> (s: String)
        ensures
            s@ == (if *self == ThematicVowel::A {
                seq!['э']
            } else {
                seq!['ы']
            }),
    {
        match self {
            ThematicVowel::A => string_of(&['э']),
            ThematicVowel::Y => string_of(&['ы']),
        }
    }
}

#[derive(Debug, Clone, Copy, PartialEq, Eq, Structural)]
pub enum FirstConsonant {
    Unvoiced,
    Voiced,
    Wy,
}

pub open spec fn first_consonant_voiceness(fc: FirstConsonant) -> Voiceness {
    match fc {
        FirstConsonant::Unvoiced => Voiceness::Voiceless,
        FirstConsonant::Voiced => Voiceness::Voiced,
        FirstConsonant::Wy => Voiceness::Voiced,
    }
}

pub open spec fn first_consonant_of(c: Consonant) -> FirstConsonant {
    if c.place == Place::Labial && c.manner == Manner::Approximant {
        FirstConsonant::Wy
    } else if c.voiceness == Voiceness::Voiced {
        FirstConsonant::Voiced
    } else {
        FirstConsonant::Unvoiced
    }
}

impl FirstConsonant {
    pub fn to_voiceness(&self) -> (v: Voiceness)
        ensures
            v == first_consonant_voiceness(*self),
    {
        match self {
            FirstConsonant::Unvoiced => Voiceness::Voiceless,
            FirstConsonant::Voiced => Voiceness::Voiced,
            FirstConsonant::Wy => Voiceness::Voiced,
        }
    }

    /// The kind of the first consonant of a stem.
    pub fn from(consonant: &Consonant) -> (f: Self)
        ensures
            f == first_consonant_of(*consonant),
    {
        match (consonant.place, consonant.manner, consonant.voiceness) {
            (Place::Labial, Manner::Approximant, _) => FirstConsonant::Wy,
            (_, _, Voiceness::Voiced) => FirstConsonant::Voiced,
            _ => FirstConsonant::Unvoiced,
        }
    }
}

#[derive(Debug, Clone, Copy, PartialEq, Eq, Structural)]
pub enum LastConsonant {
    Ordinary,
    Velar,
    Labial,
    Yy,
}

pub open spec fn last_consonant_of(c: Consonant) -> LastConsonant {
    if c.is_labialized {
        LastConsonant::Labial
    } else if c.place == Place::Velar {
        LastConsonant::Velar
    } else if c.place == Place::Palatal && c.manner == Manner::Approximant {
        LastConsonant::Yy
    } else {
        LastConsonant::Ordinary
    }
}

impl LastConsonant {
    /// The kind of the last consonant of a stem.
    pub fn from(consonant: &Consonant) -> (l: Self)
        ensures
            l == last_consonant_of(*consonant),
    {
        match (consonant.place, consonant.manner, consonant.is_labialized) {
            (_, _, true) => LastConsonant::Labial,
            (Place::Velar, _, _) => LastConsonant::Velar,
            (Place::Palatal, Manner::Approximant, _) => LastConsonant::Yy,
            _ => LastConsonant::Ordinary,
        }
    }
}

#[derive(Debug, Clone, PartialEq, Eq)]
pub struct VerbStem {
    pub first_consonant: Option<FirstConsonant>,
    pub vowel: VowelKind,
    pub last_consonant: LastConsonant,
    pub is_alternating: bool,
    pub thematic_vowel: ThematicVowel,
    pub string: String,
}

/// The last consonant among some letters, if any.
pub open spec fn last_consonant_letter(ls: Seq<Letter>) -> Option<Consonant>
    decreases ls.len(),
{
    if ls.len() == 0 {
        None
    } else {
        match ls.last() {
            Letter::Consonant(c) => Some(c),
            _ => last_consonant_letter(ls.drop_last()),
        }
    }
}

/// A stem text that `VerbStem::new` accepts for the given transitivity.
pub open spec fn stem_text_ok(s: Seq<char>, transitivity: Transitivity) -> bool {
    &&& parses(s)
    &&& letters_of(s).len() > 0
    &&& letters_of(s).last() != Letter::Vowel(Vowel::AA)
    &&& last_consonant_letter(letters_of(s)) is Some
    &&& transitivity == Transitivity::Transitive ==> letters_of(s)[0] is Consonant
}

/// The stem that `VerbStem::new` makes of a text.
pub open spec fn stem_of(s: Seq<char>, transitivity: Transitivity, stem: VerbStem) -> bool {
    let ls = letters_of(s);
    &&& stem.string@ == s
    &&& stem.vowel == (if ls.len() == 1 {
        VowelKind::Without
    } else {
        VowelKind::With
    })
    &&& stem.is_alternating == false
    &&& stem.thematic_vowel == (match ls.last() {
        Letter::Vowel(Vowel::A) => ThematicVowel::A,
        _ => ThematicVowel::Y,
    })
    &&& stem.last_consonant == last_consonant_of(last_consonant_letter(ls).unwrap())
    &&& stem.first_consonant == (match transitivity {
        Transitivity::Intransitive => None,
        Transitivity::Transitive => Some(first_consonant_of(ls[0]->Consonant_0)),
    })
}

impl VerbStem {
    /// Reads a stem from its text; the text must be a readable stem for the transitivity.
    pub fn new(s: &str, transitivity: Transitivity) -> (r: Self)
        requires
            stem_text_ok(s@, transitivity),
        ensures
            stem_of(s@, transitivity, r),
    {
        let letters = match ortho::parse(s) {
            Ok(l) => l,
            Err(_) => {
                proof {
                    assert(false);
                }
                Vec::new()
            },
        };
        let n = letters.len();
        if n == 0 {
            proof {
                assert(false);
            }
        }
        let vowel = if n == 1 {
            VowelKind::Without
        } else {
            VowelKind::With
        };
        let last_letter = letters[n - 1];
        let first_letter = letters[0];
        let thematic_vowel = match &last_letter {
            Letter::Vowel(vowel) => ThematicVowel::from(vowel),
            _ => ThematicVowel::Y,
        };
        let mut k = n;
        let mut found: Option<Consonant> = None;
        assert(letters@.take(n as int) =~= letters@);
        while k > 0
            invariant_except_break
                found is None,
                last_consonant_letter(letters@) == last_consonant_letter(letters@.take(k as int)),
            invariant
                letters@ == letters_of(s@),
                k <= n == letters@.len(),
            ensures
                last_consonant_letter(letters@) == (match found {
                    Some(c) => Some(c),
                    None => last_consonant_letter(letters@.take(k as int)),
                }),
                found is None ==> k == 0,
            decreases k,
        {
            assert(letters@.take(k as int).drop_last() =~= letters@.take(k - 1));
            if let Letter::Consonant(c) = letters[k - 1] {
                found = Some(c);
                break;
            }
            k = k - 1;
        }
        assert(letters@.take(n as int) =~= letters@);
        let last_consonant = match found {
            Some(c) => LastConsonant::from(&c),
            None => {
                proof {
                    assert(last_consonant_letter(letters@.take(0)) is None);
                    assert(false);
                }
                LastConsonant::Ordinary
            },
        };
        let first_consonant = match transitivity {
            Transitivity::Intransitive => None,
            _ => match &first_letter {
                Letter::Consonant(consonant) => Some(FirstConsonant::from(consonant)),
                _ => {
                    proof {
                        assert(false);
                    }
                    None
                },
            },
        };
        VerbStem {
            first_consonant,
            vowel,
            last_consonant,
            is_alternating: false,
            thematic_vowel,
            string: String::from_str(s),
        }
    }

    /// An equal copy of the stem.
    pub fn duplicate(&self) -> (r: Self)
        ensures
            r == *self,
    {
        VerbStem {
            first_consonant: self.first_consonant,
            vowel: self.vowel,
            last_consonant: self.last_consonant,
            is_alternating: self.is_alternating,
            thematic_vowel: self.thematic_vowel,
            string: self.string.clone(),
        }
    }
}


// ---------------------------------------------------------------------------
// Reading a template string
// ---------------------------------------------------------------------------

/// Whether `p` is a prefix of `s`.
pub open spec fn is_prefix(p: Seq<char>, s: Seq<char>) -> bool {
    p.len() <= s.len() && s.take(p.len() as int) == p
}

/// The first of the combined letters, from index `j` on, that `s` starts with.
pub open spec fn first_combined(s: Seq<char>, combos: Seq<Seq<char>>, j: int) -> Option<
    Seq<char>,
>
    decreases combos.len() - j,
{
    if j < 0 || j >= combos.len() {
        None
    } else if is_prefix(combos[j], s) {
        Some(combos[j])
    } else {
        first_combined(s, combos, j + 1)
    }
}

/// The pieces of a text: at each place the first combined letter that starts there, or
/// else the single character there.
pub open spec fn split_combined(s: Seq<char>, combos: Seq<Seq<char>>) -> Seq<Seq<char>>
    decreases s.len(),
{
    if s.len() == 0 {
        seq![]
    } else {
        let n: int = match first_combined(s, combos, 0) {
            Some(c) => if 0 < c.len() <= s.len() {
                c.len() as int
            } else {
                1
            },
            None => 1,
        };
        seq![s.take(n)] + split_combined(s.skip(n), combos)
    }
}

/// The texts of some string slices.
pub open spec fn str_views(v: Seq<&str>) -> Seq<Seq<char>> {
    v.map_values(|c: &str| c@)
}

/// No combined letter is empty.
pub open spec fn combos_nonempty(combos: Seq<Seq<char>>) -> bool {
    forall|k: int| 0 <= k < combos.len() ==> #[trigger] combos[k].len() > 0
}

proof fn lemma_first_combined_prefix(s: Seq<char>, combos: Seq<Seq<char>>, j: int)
    ensures
        first_combined(s, combos, j) matches Some(c) ==> is_prefix(c, s),
    decreases combos.len() - j,
{
    if 0 <= j < combos.len() && !is_prefix(combos[j], s) {
        lemma_first_combined_prefix(s, combos, j + 1);
    }
}

/// Splitting a text into combined letters and characters loses nothing: the pieces, put
/// back together, are the text.
pub proof fn split_and_combine_keeps_text(s: Seq<char>, combos: Seq<Seq<char>>)
    ensures
        split_combined(s, combos).flatten() == s,
    decreases s.len(),
{
    if s.len() > 0 {
        let n: int = match first_combined(s, combos, 0) {
            Some(c) => if 0 < c.len() <= s.len() {
                c.len() as int
            } else {
                1
            },
            None => 1,
        };
        split_and_combine_keeps_text(s.skip(n), combos);
        let parts = split_combined(s, combos);
        assert(parts.first() == s.take(n));
        assert(parts.drop_first() =~= split_combined(s.skip(n), combos));
        assert(s.take(n) + s.skip(n) =~= s);
    }
}

/// Whether `pat` occurs in `cs` at index `i`.
fn matches_at(cs: &[char], i: usize, pat: &[char]) -> (r: bool)
    requires
        i <= cs.len(),
    ensures
        r == is_prefix(pat@, cs@.skip(i as int)),
{
    if pat.len() > cs.len() - i {
        return false;
    }
    let mut k: usize = 0;
    while k < pat.len()
        invariant
            i + pat.len() <= cs.len(),
            k <= pat.len(),
            forall|j: int| 0 <= j < k ==> cs@[i + j] == pat@[j],
        decreases pat.len() - k,
    {
        if cs[i + k] != pat[k] {
            assert(cs@.skip(i as int).take(pat.len() as int)[k as int] != pat@[k as int]);
            return false;
        }
        k = k + 1;
    }
    assert(cs@.skip(i as int).take(pat.len() as int) =~= pat@);
    true
}

/// Splits a text into pieces: where one of the combined letters starts (the first of them
/// that does), that letter; elsewhere a single character.
pub fn split_and_combine(input: &str, combined_chars: &Vec<&str>) -> (result: Vec<String>)
    requires
        combos_nonempty(str_views(combined_chars@)),
    ensures
        string_views(result@) == split_combined(input@, str_views(combined_chars@)),
{
    let ghost combos = str_views(combined_chars@);
    let cs = str_chars(input);
    let mut result: Vec<String> = Vec::new();
    let mut i: usize = 0;
    assert(cs@.skip(0) =~= cs@);
    while i < cs.len()
        invariant
            cs@ == input@,
            combos == str_views(combined_chars@),
            combos_nonempty(combos),
            i <= cs.len(),
            string_views(result@) + split_combined(cs@.skip(i as int), combos) == split_combined(
                input@,
                combos,
            ),
        decreases cs.len() - i,
    {
        let ghost rest = cs@.skip(i as int);
        let mut found: Option<usize> = None;
        let mut k: usize = 0;
        while k < combined_chars.len()
            invariant_except_break
                found is None,
                first_combined(rest, combos, 0) == first_combined(rest, combos, k as int),
            invariant
                cs@ == input@,
                rest == cs@.skip(i as int),
                i < cs.len(),
                combos == str_views(combined_chars@),
                combos_nonempty(combos),
                k <= combined_chars.len(),
            ensures
                match found {
                    Some(n) => first_combined(rest, combos, 0) == Some(rest.take(n as int)) && 0
                        < n <= rest.len(),
                    None => first_combined(rest, combos, 0) is None,
                },
            decreases combined_chars.len() - k,
        {
            let pat = str_chars(combined_chars[k]);
            assert(combos[k as int] == pat@);
            if matches_at(cs.as_slice(), i, pat.as_slice()) {
                assert(combos[k as int].len() > 0);
                found = Some(pat.len());
                break;
            }
            k = k + 1;
        }
        let n: usize = match found {
            Some(n) => n,
            None => 1,
        };
        let piece_chars = slice_range(cs.as_slice(), i, i + n);
        let piece = string_of(piece_chars.as_slice());
        let ghost views_before = string_views(result@);
        result.push(piece);
        proof {
            assert(cs@.subrange(i as int, i + n) =~= rest.take(n as int));
            assert(string_views(result@) =~= views_before.push(rest.take(n as int)));
            lemma_first_combined_prefix(rest, combos, 0);
            assert(rest.skip(n as int) =~= cs@.skip(i + n));
            assert(split_combined(rest, combos) == seq![rest.take(n as int)] + split_combined(
                rest.skip(n as int),
                combos,
            ));
        }
        i = i + n;
        assert(string_views(result@) + split_combined(cs@.skip(i as int), combos) =~= split_combined(
            input@,
            combos,
        ));
    }
    assert(split_combined(cs@.skip(i as int), combos) =~= seq![]);
    assert(string_views(result@) =~= split_combined(input@, combos));
    result
}


/// The combined letters of a root form: "жь" and the alternation mark "эа".
pub open spec fn root_combos() -> Seq<Seq<char>> {
    seq![seq!['ж', 'ь'], seq!['э', 'а']]
}

/// The letters of a root form.
pub open spec fn root_pieces(s: Seq<char>) -> Seq<Seq<char>> {
    split_combined(s, root_combos())
}

/// The vowel kind a letter of a root form stands for.
pub open spec fn vowel_kind_of(p: Seq<char>) -> Option<VowelKind> {
    if p == seq!['б'] {
        Some(VowelKind::With)
    } else if p == seq!['0'] {
        Some(VowelKind::Without)
    } else {
        None
    }
}

/// The first consonant a letter of a root form stands for.
pub open spec fn first_consonant_kind_of(p: Seq<char>) -> Option<FirstConsonant> {
    if p == seq!['д'] {
        Some(FirstConsonant::Unvoiced)
    } else if p == seq!['ж', 'ь'] {
        Some(FirstConsonant::Voiced)
    } else if p == seq!['у'] {
        Some(FirstConsonant::Wy)
    } else {
        None
    }
}

/// The last consonant a letter of a root form stands for.
pub open spec fn last_consonant_kind_of(p: Seq<char>) -> Option<LastConsonant> {
    if p == seq!['д'] {
        Some(LastConsonant::Ordinary)
    } else if p == seq!['т'] {
        Some(LastConsonant::Velar)
    } else if p == seq!['л'] {
        Some(LastConsonant::Labial)
    } else if p == seq!['й'] {
        Some(LastConsonant::Yy)
    } else {
        None
    }
}

/// Whether a text ends with the alternation mark "эа".
pub open spec fn ends_with_alternation(p: Seq<char>) -> bool {
    p.len() >= 2 && p.skip(p.len() - 2) == seq!['э', 'а']
}

/// A root form has two to four letters.
pub open spec fn root_form_has_length(s: Seq<char>) -> bool {
    2 <= root_pieces(s).len() <= 4
}

/// Whether the root form ends with the alternation mark.
pub open spec fn root_form_alternating(s: Seq<char>) -> bool {
    ends_with_alternation(root_pieces(s).last())
}

/// A root form with no first consonant: vowel kind and last consonant.
pub open spec fn root_form_short(s: Seq<char>) -> bool {
    let n = root_pieces(s).len();
    (n == 2 && !root_form_alternating(s)) || (n == 3 && root_form_alternating(s))
}

/// A root form with a first consonant before the vowel kind and the last consonant.
pub open spec fn root_form_long(s: Seq<char>) -> bool {
    let n = root_pieces(s).len();
    (n == 3 && !root_form_alternating(s)) || (n == 4 && root_form_alternating(s))
}

/// A root form that is read without failing on the way: of the wrong length (an error),
/// or made of letters that all stand for something.
pub open spec fn root_form_readable(s: Seq<char>) -> bool {
    let ps = root_pieces(s);
    ||| !root_form_has_length(s)
    ||| root_form_short(s) && vowel_kind_of(ps[0]) is Some && last_consonant_kind_of(ps[1]) is Some
    ||| root_form_long(s) && first_consonant_kind_of(ps[0]) is Some && vowel_kind_of(ps[1]) is Some
        && last_consonant_kind_of(ps[2]) is Some
}

/// What a readable root form of the right length stands for: the first consonant, if any,
/// the vowel kind, the last consonant and whether it alternates.
pub open spec fn root_form_of(s: Seq<char>) -> (
    Option<FirstConsonant>,
    VowelKind,
    LastConsonant,
    bool,
) {
    let ps = root_pieces(s);
    if root_form_short(s) {
        (
            None,
            vowel_kind_of(ps[0]).unwrap(),
            last_consonant_kind_of(ps[1]).unwrap(),
            root_form_alternating(s),
        )
    } else {
        (
            first_consonant_kind_of(ps[0]),
            vowel_kind_of(ps[1]).unwrap(),
            last_consonant_kind_of(ps[2]).unwrap(),
            root_form_alternating(s),
        )
    }
}

/// The error for a root form of the wrong length.
pub open spec fn root_form_length_error(s: Seq<char>) -> Seq<char> {
    "The root form must be 2, 3 or 4 characters long. Got "@ + decimal_text(
        root_pieces(s).len(),
    ) + " of "@ + s
}

/// Whether a text is the single character `c`.
fn text_is_char(s: &str, c: char) -> (r: bool)
    ensures
        r == (s@ == seq![c]),
{
    let cs = str_chars(s);
    let r = cs.len() == 1 && cs[0] == c;
    assert(r ==> cs@ =~= seq![c]);
    r
}

/// Whether a text is the two characters `a` and `b`.
fn text_is_pair(s: &str, a: char, b: char) -> (r: bool)
    ensures
        r == (s@ == seq![a, b]),
{
    let cs = str_chars(s);
    let r = cs.len() == 2 && cs[0] == a && cs[1] == b;
    assert(r ==> cs@ =~= seq![a, b]);
    r
}

/// An error message: a fixed text followed by the offending text and a full stop.
fn message_about(prefix: &str, s: &str) -> (e: String)
    ensures
        e@ == prefix@ + s@ + seq!['.'],
{
    let mut e = String::from_str(prefix);
    push_text(&mut e, s);
    push_char(&mut e, '.');
    e
}

fn parse_vowel_kind(s: &str) -> (r: Result<VowelKind, String>)
    ensures
        r matches Ok(v) ==> vowel_kind_of(s@) == Some(v),
        r is Err ==> vowel_kind_of(s@) is None,
{
    if text_is_char(s, 'б') {
        Ok(VowelKind::With)
    } else if text_is_char(s, '0') {
        Ok(VowelKind::Without)
    } else {
        Err(message_about("The vowel kind must be either 'б' or '0', but it is ", s))
    }
}

fn parse_first_consonant_kind(s: &str) -> (r: Result<FirstConsonant, String>)
    ensures
        r matches Ok(v) ==> first_consonant_kind_of(s@) == Some(v),
        r is Err ==> first_consonant_kind_of(s@) is None,
{
    if text_is_char(s, 'д') {
        Ok(FirstConsonant::Unvoiced)
    } else if text_is_pair(s, 'ж', 'ь') {
        Ok(FirstConsonant::Voiced)
    } else if text_is_char(s, 'у') {
        Ok(FirstConsonant::Wy)
    } else {
        Err(
            message_about(
                "The first consonant kind must be either 'д', 'жь' or 'у', but it is ",
                s,
            ),
        )
    }
}

fn parse_last_consonant_kind(s: &str) -> (r: Result<LastConsonant, String>)
    ensures
        r matches Ok(v) ==> last_consonant_kind_of(s@) == Some(v),
        r is Err ==> last_consonant_kind_of(s@) is None,
{
    if text_is_char(s, 'д') {
        Ok(LastConsonant::Ordinary)
    } else if text_is_char(s, 'т') {
        Ok(LastConsonant::Velar)
    } else if text_is_char(s, 'л') {
        Ok(LastConsonant::Labial)
    } else if text_is_char(s, 'й') {
        Ok(LastConsonant::Yy)
    } else {
        Err(message_about("The last consonant kind must be either 'д', 'т' or 'л', but it is ", s))
    }
}

/// Whether a text ends with the alternation mark "эа".
fn text_ends_with_alternation(s: &str) -> (r: bool)
    ensures
        r == ends_with_alternation(s@),
{
    let cs = str_chars(s);
    let n = cs.len();
    if n < 2 {
        return false;
    }
    let r = cs[n - 2] == 'э' && cs[n - 1] == 'а';
    assert(r == (s@.skip(n - 2) =~= seq!['э', 'а']));
    r
}

/// The letters of a root form: "жь" and "эа" count as one.
fn root_form_letters(root_form: &str) -> (letters: Vec<String>)
    ensures
        string_views(letters@) == root_pieces(root_form@),
{
    let combined: Vec<&str> = vec!["жь", "эа"];
    proof {
        reveal_strlit("жь");
        reveal_strlit("эа");
        assert(combined@[0]@ =~= seq!['ж', 'ь']);
        assert(combined@[1]@ =~= seq!['э', 'а']);
        assert(str_views(combined@) =~~= root_combos());
    }
    split_and_combine(root_form, &combined)
}

/// Reads a root form ("д0д", "бдэа"): the first consonant (for transitive verbs), the
/// vowel kind, the last consonant and whether the root alternates between а and э. A root
/// form of the wrong length is an error.
fn extract_root_form(root_form: &str) -> (r: Result<
    (Option<FirstConsonant>, VowelKind, LastConsonant, bool),
    String,
>)
    requires
        root_form_readable(root_form@),
    ensures
        r is Err <==> !root_form_has_length(root_form@),
        r matches Ok(x) ==> x == root_form_of(root_form@),
        r matches Err(e) ==> e@ == root_form_length_error(root_form@),
{
    let letters = root_form_letters(root_form);
    let ghost ps = root_pieces(root_form@);
    let n = letters.len();
    if n < 2 || n > 4 {
        let mut e = String::from_str("The root form must be 2, 3 or 4 characters long. Got ");
        let count = decimal(n);
        push_text(&mut e, count.as_str());
        push_text(&mut e, " of ");
        push_text(&mut e, root_form);
        return Err(e);
    }
    assert(ps[n - 1] == letters@[n - 1]@);
    let is_alternating = text_ends_with_alternation(letters[n - 1].as_str());
    assert(ps[0] == letters@[0]@);
    assert(ps[1] == letters@[1]@);
    if n == 2 && !is_alternating || n == 3 && is_alternating {
        let vowel = match parse_vowel_kind(letters[0].as_str()) {
            Ok(v) => v,
            Err(_) => {
                proof {
                    assert(false);
                }
                VowelKind::With
            },
        };
        let last_consonant = match parse_last_consonant_kind(letters[1].as_str()) {
            Ok(v) => v,
            Err(_) => {
                proof {
                    assert(false);
                }
                LastConsonant::Ordinary
            },
        };
        Ok((None, vowel, last_consonant, is_alternating))
    } else {
        assert(ps[2] == letters@[2]@);
        let first_consonant = match parse_first_consonant_kind(letters[0].as_str()) {
            Ok(v) => v,
            Err(_) => {
                proof {
                    assert(false);
                }
                FirstConsonant::Unvoiced
            },
        };
        let vowel = match parse_vowel_kind(letters[1].as_str()) {
            Ok(v) => v,
            Err(_) => {
                proof {
                    assert(false);
                }
                VowelKind::With
            },
        };
        let last_consonant = match parse_last_consonant_kind(letters[2].as_str()) {
            Ok(v) => v,
            Err(_) => {
                proof {
                    assert(false);
                }
                LastConsonant::Ordinary
            },
        };
        Ok((Some(first_consonant), vowel, last_consonant, is_alternating))
    }
}


/// The transitivity a template segment stands for.
pub open spec fn transitivity_of(t: Seq<char>) -> Option<Transitivity> {
    if t == "лъэмыӏ"@ {
        Some(Transitivity::Intransitive)
    } else if t == "лъэӏ"@ {
        Some(Transitivity::Transitive)
    } else {
        None
    }
}

/// The thematic vowel a template segment stands for.
pub open spec fn thematic_vowel_of(t: Seq<char>) -> Option<ThematicVowel> {
    if t == "э"@ {
        Some(ThematicVowel::A)
    } else if t == "ы"@ {
        Some(ThematicVowel::Y)
    } else {
        None
    }
}

/// The preverb a template segment stands for: "0" is none.
pub open spec fn preverb_of_segment(t: Seq<char>) -> Option<Seq<char>> {
    if t == "0"@ {
        None
    } else {
        Some(t)
    }
}

fn extract_transitivity(s: &str) -> (r: Result<Transitivity, String>)
    ensures
        r matches Ok(t) ==> transitivity_of(s@) == Some(t),
        r matches Err(e) ==> transitivity_of(s@) is None && e@
            == "The transitivity must be either лъэмыӏ or лъэӏ, but it is "@ + s@ + seq!['.'],
{
    if str_eq(s, "лъэмыӏ") {
        Ok(Transitivity::Intransitive)
    } else if str_eq(s, "лъэӏ") {
        Ok(Transitivity::Transitive)
    } else {
        Err(message_about("The transitivity must be either лъэмыӏ or лъэӏ, but it is ", s))
    }
}

fn extract_thematic_vowel(s: &str) -> (r: Result<ThematicVowel, String>)
    ensures
        r matches Ok(t) ==> thematic_vowel_of(s@) == Some(t),
        r matches Err(e) ==> thematic_vowel_of(s@) is None && e@
            == "The thematic vowel must be either 'э' or 'ы', instead it is "@ + s@,
{
    if str_eq(s, "э") {
        Ok(ThematicVowel::A)
    } else if str_eq(s, "ы") {
        Ok(ThematicVowel::Y)
    } else {
        let mut e = String::from_str("The thematic vowel must be either 'э' or 'ы', instead it is ");
        push_text(&mut e, s);
        Err(e)
    }
}

/// The preverb of a template: "0" for none, else the preverb written there; the segment
/// must not be empty.
fn extract_preverb(s: &str) -> (r: Option<Preverb>)
    requires
        s@.len() > 0,
    ensures
        r matches Some(p) ==> preverb_of_segment(s@) == Some(p@),
        r is None ==> preverb_of_segment(s@) is None,
{
    if str_eq(s, "0") {
        None
    } else {
        match Preverb::try_from(s) {
            Ok(p) => Some(p),
            Err(_) => {
                proof {
                    assert(false);
                }
                None
            },
        }
    }
}

/// Whether a root form is read without failing on the way, and whether it has the
/// right length.
fn root_form_is_readable(root_form: &str) -> (r: (bool, bool))
    ensures
        r.0 == root_form_readable(root_form@),
        r.1 == root_form_has_length(root_form@),
{
    let letters = root_form_letters(root_form);
    let ghost ps = root_pieces(root_form@);
    let n = letters.len();
    if n < 2 || n > 4 {
        return (true, false);
    }
    assert(ps[n - 1] == letters@[n - 1]@);
    assert(ps[0] == letters@[0]@);
    assert(ps[1] == letters@[1]@);
    let is_alternating = text_ends_with_alternation(letters[n - 1].as_str());
    let readable = if n == 2 && !is_alternating || n == 3 && is_alternating {
        parse_vowel_kind(letters[0].as_str()).is_ok() && parse_last_consonant_kind(
            letters[1].as_str(),
        ).is_ok()
    } else if n == 3 && !is_alternating || n == 4 && is_alternating {
        assert(ps[2] == letters@[2]@);
        parse_first_consonant_kind(letters[0].as_str()).is_ok() && parse_vowel_kind(
            letters[1].as_str(),
        ).is_ok() && parse_last_consonant_kind(letters[2].as_str()).is_ok()
    } else {
        false
    };
    (readable, true)
}

/// Whether `TemplateDesc::try_from` reads a template string without failing on the way
/// (see `template_readable`).
pub fn template_is_readable(s: &str) -> (r: bool)
    ensures
        r == template_readable(s@),
{
    let segments = split_on(s, '-');
    let ghost segs = split_text(s@, '-');
    proof {
        lemma_split_text_len(s@, '-');
    }
    assert(segments@[0]@ == segs[0]);
    if !str_eq(segments[0].as_str(), "спр") || segments.len() != 5 {
        return true;
    }
    assert(segments@[1]@ == segs[1]);
    assert(segments@[2]@ == segs[2]);
    assert(segments@[3]@ == segs[3]);
    assert(segments@[4]@ == segs[4]);
    let (root_ok, has_length) = root_form_is_readable(segments[3].as_str());
    extract_transitivity(segments[1].as_str()).is_ok() && !segments[2].as_str().is_empty()
        && root_ok && has_length && extract_thematic_vowel(segments[4].as_str()).is_ok()
}

/// What a template description holds, with texts for strings.
pub struct TemplateView {
    pub transitivity: Transitivity,
    pub preverb: Option<Seq<char>>,
    pub first_consonant: Option<FirstConsonant>,
    pub vowel: VowelKind,
    pub last_consonant: LastConsonant,
    pub is_alternating: bool,
    pub thematic_vowel: ThematicVowel,
    pub stem: Seq<char>,
    pub template_string: Seq<char>,
}

/// The description of a verb template: transitivity, preverb and stem.
#[derive(Debug, Clone)]
pub struct TemplateDesc {
    pub transitivity: Transitivity,
    pub preverb: Option<Preverb>,
    pub stem: VerbStem,
    pub original_string: String,
}

/// The text of an optional preverb.
pub open spec fn preverb_view(p: Option<Preverb>) -> Option<Seq<char>> {
    match p {
        Some(x) => Some(x@),
        None => None,
    }
}

impl View for TemplateDesc {
    type V = TemplateView;

    open spec fn view(&self) -> TemplateView {
        TemplateView {
            transitivity: self.transitivity,
            preverb: preverb_view(self.preverb),
            first_consonant: self.stem.first_consonant,
            vowel: self.stem.vowel,
            last_consonant: self.stem.last_consonant,
            is_alternating: self.stem.is_alternating,
            thematic_vowel: self.stem.thematic_vowel,
            stem: self.stem.string@,
            template_string: self.original_string@,
        }
    }
}

/// A template string that is read without failing on the way: one that does not start
/// with "спр" or does not have five segments (both errors), or one whose transitivity,
/// preverb, root form and thematic vowel all read.
pub open spec fn template_readable(s: Seq<char>) -> bool {
    let segs = split_text(s, '-');
    segs[0] == "спр"@ && segs.len() == 5 ==> {
        &&& transitivity_of(segs[1]) is Some
        &&& segs[2].len() > 0
        &&& root_form_readable(segs[3])
        &&& root_form_has_length(segs[3])
        &&& thematic_vowel_of(segs[4]) is Some
    }
}

/// The description a readable template string stands for, or the error it is refused
/// with.
pub open spec fn template_of(s: Seq<char>) -> Result<TemplateView, Seq<char>> {
    let segs = split_text(s, '-');
    if segs[0] != "спр"@ {
        Err("The string must start with 'спр', instead it starts with "@ + segs[0])
    } else if segs.len() != 5 {
        Err("The string must have 5 segments, instead it has "@ + decimal_text(segs.len()))
    } else {
        let transitivity = transitivity_of(segs[1]).unwrap();
        let root = root_form_of(segs[3]);
        if root.0 is None && transitivity == Transitivity::Transitive {
            Err("The first consonant is not allowed to be None if the verb is transitive."@)
        } else if root.0 is Some && transitivity == Transitivity::Intransitive {
            Err("The first consonant is not allowed to be Some if the verb is intransitive."@)
        } else {
            Ok(
                TemplateView {
                    transitivity,
                    preverb: preverb_of_segment(segs[2]),
                    first_consonant: root.0,
                    vowel: root.1,
                    last_consonant: root.2,
                    is_alternating: root.3,
                    thematic_vowel: thematic_vowel_of(segs[4]).unwrap(),
                    stem: segs[3],
                    template_string: s,
                },
            )
        }
    }
}

/// The transitivity as written in a template.
pub open spec fn transitivity_text(t: Transitivity) -> Seq<char> {
    match t {
        Transitivity::Intransitive => "лъэмыӏ"@,
        Transitivity::Transitive => "лъэӏ"@,
    }
}

/// The first consonant as written in a root form.
pub open spec fn first_consonant_text(fc: Option<FirstConsonant>) -> Seq<char> {
    match fc {
        None => seq![],
        Some(FirstConsonant::Unvoiced) => seq!['д'],
        Some(FirstConsonant::Voiced) => seq!['ж', 'ь'],
        Some(FirstConsonant::Wy) => seq!['у'],
    }
}

/// The vowel kind as written in a root form.
pub open spec fn vowel_kind_char(v: VowelKind) -> char {
    match v {
        VowelKind::With | VowelKind::Alternating => 'б',
        VowelKind::Without => '0',
    }
}

/// The last consonant as written in a root form.
pub open spec fn last_consonant_char(lc: LastConsonant) -> char {
    match lc {
        LastConsonant::Ordinary => 'д',
        LastConsonant::Velar => 'т',
        LastConsonant::Labial => 'л',
        LastConsonant::Yy => 'й',
    }
}

/// The thematic vowel as written in a template.
pub open spec fn thematic_char(tv: ThematicVowel) -> char {
    match tv {
        ThematicVowel::A => 'э',
        ThematicVowel::Y => 'ы',
    }
}

/// The template string of a description.
pub open spec fn template_text(d: TemplateView) -> Seq<char> {
    "спр-"@ + transitivity_text(d.transitivity) + seq!['-'] + match d.preverb {
        Some(p) => p,
        None => seq!['0'],
    } + seq!['-'] + first_consonant_text(d.first_consonant) + seq![
        vowel_kind_char(d.vowel),
        last_consonant_char(d.last_consonant),
    ] + if d.vowel == VowelKind::Alternating {
        seq!['э', 'а']
    } else {
        seq![]
    } + seq!['-', thematic_char(d.thematic_vowel)]
}

/// The text `{:?}` gives for a template description.
pub uninterp spec fn debug_text_of(d: TemplateView) -> Seq<char>;

/// The `Debug` text of a template description, through `format!("{:?}", ..)`; what the
/// text is, is only named here, not stated.
#[verifier::external_body]
fn debug_text(desc: &TemplateDesc) -> (t: String)
    ensures
        t@ == debug_text_of(desc@),
{
    format!("{:?}", desc)
}

/// The transitivity as written in a template.
fn transitivity_str(t: Transitivity) -> (r: &'static str)
    ensures
        r@ == transitivity_text(t),
{
    match t {
        Transitivity::Intransitive => "лъэмыӏ",
        Transitivity::Transitive => "лъэӏ",
    }
}

/// The preverb segment of a template: the preverb, or "0" for none.
fn preverb_segment(p: &Option<Preverb>) -> (r: String)
    ensures
        r@ == match preverb_view(*p) {
            Some(x) => x,
            None => seq!['0'],
        },
{
    match p {
        Some(preverb) => String::from_str(preverb.as_str()),
        None => string_of_char('0'),
    }
}

/// The root form of a stem as written in a template.
fn root_form_text(stem: &VerbStem) -> (r: String)
    ensures
        r@ == first_consonant_text(stem.first_consonant) + seq![
            vowel_kind_char(stem.vowel),
            last_consonant_char(stem.last_consonant),
        ] + if stem.vowel == VowelKind::Alternating {
            seq!['э', 'а']
        } else {
            seq![]
        },
{
    let mut s = String::new();
    match stem.first_consonant {
        Some(FirstConsonant::Unvoiced) => push_char(&mut s, 'д'),
        Some(FirstConsonant::Voiced) => push_chars(&mut s, &['ж', 'ь']),
        Some(FirstConsonant::Wy) => push_char(&mut s, 'у'),
        None => {},
    }
    let ghost first = s@;
    assert(first =~= first_consonant_text(stem.first_consonant));
    let v = match stem.vowel {
        VowelKind::With | VowelKind::Alternating => 'б',
        VowelKind::Without => '0',
    };
    push_char(&mut s, v);
    let l = match stem.last_consonant {
        LastConsonant::Ordinary => 'д',
        LastConsonant::Velar => 'т',
        LastConsonant::Labial => 'л',
        LastConsonant::Yy => 'й',
    };
    push_char(&mut s, l);
    let ghost middle = s@;
    assert(middle =~= first + seq![v, l]);
    if let VowelKind::Alternating = stem.vowel {
        push_chars(&mut s, &['э', 'а']);
        assert(s@ =~= middle + seq!['э', 'а']);
    } else {
        assert(s@ =~= middle + seq![]);
    }
    s
}

/// The thematic vowel as written in a template.
fn thematic_vowel_char(tv: ThematicVowel) -> (c: char)
    ensures
        c == thematic_char(tv),
{
    match tv {
        ThematicVowel::A => 'э',
        ThematicVowel::Y => 'ы',
    }
}

impl TemplateDesc {
    /// Reads a template string such as "спр-лъэмыӏ-0-0д-э": "спр", the transitivity, the
    /// preverb ("0" for none), the root form and the thematic vowel, separated by '-'.
    pub fn try_from(s: &str) -> (r: Result<TemplateDesc, String>)
        requires
            template_readable(s@),
        ensures
            r matches Ok(d) ==> template_of(s@) == Ok::<TemplateView, Seq<char>>(d@),
            r matches Err(e) ==> template_of(s@) == Err::<TemplateView, Seq<char>>(e@),
    {
        let segments = split_on(s, '-');
        let ghost segs = split_text(s@, '-');
        proof {
            lemma_split_text_len(s@, '-');
        }
        assert(segments@[0]@ == segs[0]);
        if !str_eq(segments[0].as_str(), "спр") {
            let mut e = String::from_str("The string must start with 'спр', instead it starts with ");
            push_text(&mut e, segments[0].as_str());
            return Err(e);
        }
        if segments.len() != 5 {
            let mut e = String::from_str("The string must have 5 segments, instead it has ");
            let count = decimal(segments.len());
            push_text(&mut e, count.as_str());
            return Err(e);
        }
        assert(segments@[1]@ == segs[1]);
        assert(segments@[2]@ == segs[2]);
        assert(segments@[3]@ == segs[3]);
        assert(segments@[4]@ == segs[4]);
        let transitivity = match extract_transitivity(segments[1].as_str()) {
            Ok(t) => t,
            Err(_) => {
                proof {
                    assert(false);
                }
                Transitivity::Transitive
            },
        };
        let preverb = extract_preverb(segments[2].as_str());
        let (fc, v, lc, alternating) = match extract_root_form(segments[3].as_str()) {
            Ok(x) => x,
            Err(_) => {
                proof {
                    assert(false);
                }
                (None, VowelKind::With, LastConsonant::Ordinary, false)
            },
        };
        let thematic_vowel = match extract_thematic_vowel(segments[4].as_str()) {
            Ok(t) => t,
            Err(_) => {
                proof {
                    assert(false);
                }
                ThematicVowel::A
            },
        };
        if fc.is_none() && transitivity == Transitivity::Transitive {
            return Err(
                String::from_str(
                    "The first consonant is not allowed to be None if the verb is transitive.",
                ),
            );
        }
        if fc.is_some() && transitivity == Transitivity::Intransitive {
            return Err(
                String::from_str(
                    "The first consonant is not allowed to be Some if the verb is intransitive.",
                ),
            );
        }
        let desc = TemplateDesc {
            transitivity,
            preverb,
            stem: VerbStem {
                first_consonant: fc,
                vowel: v,
                last_consonant: lc,
                is_alternating: alternating,
                thematic_vowel,
                string: segments[3].clone(),
            },
            original_string: String::from_str(s),
        };
        Ok(desc)
    }

    /// Writes the description back as a template string; an intransitive verb with a first
    /// consonant is an error.
    pub fn try_to_string(self) -> (r: Result<String, String>)
        ensures
            r is Err <==> (self.stem.first_consonant is Some && self.transitivity
                == Transitivity::Intransitive),
            r matches Ok(t) ==> t@ == template_text(self@),
            r matches Err(e) ==> e@ == "Intransitive verbs cannot have first consonant. Got "@
                + debug_text_of(self@),
    {
        if self.stem.first_consonant.is_some() && self.transitivity
            == Transitivity::Intransitive {
            let mut e = String::from_str("Intransitive verbs cannot have first consonant. Got ");
            let d = debug_text(&self);
            push_text(&mut e, d.as_str());
            return Err(e);
        }
        let mut s = String::from_str("спр-");
        push_text(&mut s, transitivity_str(self.transitivity));
        push_char(&mut s, '-');
        let preverb = preverb_segment(&self.preverb);
        push_text(&mut s, preverb.as_str());
        push_char(&mut s, '-');
        let root = root_form_text(&self.stem);
        push_text(&mut s, root.as_str());
        push_char(&mut s, '-');
        push_char(&mut s, thematic_vowel_char(self.stem.thematic_vowel));
        assert(s@ =~= template_text(self@));
        Ok(s)
    }
}


/// The letters of a readable root form that does not alternate, written back, are the
/// root form.
proof fn lemma_root_form_text(r: Seq<char>)
    requires
        root_form_readable(r),
        root_form_has_length(r),
        !root_form_alternating(r),
    ensures
        first_consonant_text(root_form_of(r).0) + seq![
            vowel_kind_char(root_form_of(r).1),
            last_consonant_char(root_form_of(r).2),
        ] + if root_form_of(r).1 == VowelKind::Alternating {
            seq!['э', 'а']
        } else {
            seq![]
        } == r,
{
    let ps = root_pieces(r);
    split_and_combine_keeps_text(r, root_combos());
    let x = root_form_of(r);
    assert(x.1 != VowelKind::Alternating);
    assert(ps.drop_first().drop_first().drop_first().len() == 0 ==> ps.drop_first().drop_first(
    ).drop_first().flatten() =~= seq![]);
    if ps.len() == 2 {
        assert(ps.drop_first().drop_first().flatten() =~= seq![]);
        assert(ps.drop_first().flatten() =~= ps[1]);
        assert(ps.flatten() =~= ps[0] + ps[1]);
        assert(ps[0] =~= seq![vowel_kind_char(x.1)]);
        assert(ps[1] =~= seq![last_consonant_char(x.2)]);
    } else {
        assert(ps.drop_first().drop_first().drop_first().flatten() =~= seq![]);
        assert(ps.drop_first().drop_first().flatten() =~= ps[2]);
        assert(ps.drop_first().flatten() =~= ps[1] + ps[2]);
        assert(ps.flatten() =~= ps[0] + ps[1] + ps[2]);
        assert(ps[0] =~= first_consonant_text(x.0));
        assert(ps[1] =~= seq![vowel_kind_char(x.1)]);
        assert(ps[2] =~= seq![last_consonant_char(x.2)]);
    }
}

/// Reading a template string and writing the description back gives the same string,
/// for every template string that is read without error and whose root form does not
/// alternate (the alternation mark "эа" is not written back); writing it back never fails.
pub proof fn template_round_trip(s: Seq<char>)
    requires
        template_readable(s),
        template_of(s) is Ok,
        !template_of(s)->Ok_0.is_alternating,
    ensures
        !(template_of(s)->Ok_0.first_consonant is Some && template_of(s)->Ok_0.transitivity
            == Transitivity::Intransitive),
        template_text(template_of(s)->Ok_0) == s,
{
    let segs = split_text(s, '-');
    lemma_split_text_len(s, '-');
    lemma_split_join(s, '-');
    let d = template_of(s)->Ok_0;
    reveal_strlit("спр");
    reveal_strlit("спр-");
    reveal_strlit("0");
    reveal_strlit("э");
    reveal_strlit("ы");
    assert(segs.drop_last().drop_last().drop_last().drop_last().len() == 1);
    assert(join_text(segs, '-') == join_text(segs.drop_last(), '-') + seq!['-'] + segs[4]);
    assert(join_text(segs.drop_last(), '-') == join_text(segs.drop_last().drop_last(), '-')
        + seq!['-'] + segs[3]);
    assert(join_text(segs.drop_last().drop_last(), '-') == join_text(
        segs.drop_last().drop_last().drop_last(),
        '-',
    ) + seq!['-'] + segs[2]);
    assert(join_text(segs.drop_last().drop_last().drop_last(), '-') == join_text(
        segs.drop_last().drop_last().drop_last().drop_last(),
        '-',
    ) + seq!['-'] + segs[1]);
    assert(join_text(segs.drop_last().drop_last().drop_last().drop_last(), '-') == segs[0]);
    lemma_root_form_text(segs[3]);
    let pv = match d.preverb {
        Some(p) => p,
        None => seq!['0'],
    };
    assert(pv == segs[2]);
    assert(seq!['-', thematic_char(d.thematic_vowel)] =~= seq!['-'] + segs[4]);
    assert("спр-"@ =~= segs[0] + seq!['-']);
    assert(transitivity_text(d.transitivity) == segs[1]);
    assert(template_text(d) =~= s);
}


/// A text that does not start with 'ж' or 'э' splits off its first character.
proof fn lemma_root_split_char(s: Seq<char>)
    requires
        s.len() > 0,
        s[0] != 'ж',
        s[0] != 'э',
    ensures
        split_combined(s, root_combos()) == seq![s.take(1)] + split_combined(s.skip(1), root_combos()),
{
    let combos = root_combos();
    assert(!is_prefix(combos[0], s)) by {
        if is_prefix(combos[0], s) {
            assert(s.take(2)[0] == s[0]);
        }
    }
    assert(!is_prefix(combos[1], s)) by {
        if is_prefix(combos[1], s) {
            assert(s.take(2)[0] == s[0]);
        }
    }
    assert(first_combined(s, combos, 2) is None);
    assert(first_combined(s, combos, 1) is None);
    assert(first_combined(s, combos, 0) is None);
}

/// A text that starts with "жь" splits off "жь".
proof fn lemma_root_split_zh(s: Seq<char>)
    requires
        s.len() >= 2,
        s[0] == 'ж',
        s[1] == 'ь',
    ensures
        split_combined(s, root_combos()) == seq![seq!['ж', 'ь']] + split_combined(
            s.skip(2),
            root_combos(),
        ),
{
    let combos = root_combos();
    assert(s.take(2) =~= seq!['ж', 'ь']);
    assert(is_prefix(combos[0], s));
    assert(first_combined(s, combos, 0) == Some(seq!['ж', 'ь']));
}

/// The root form of a description as a template writes it.
pub open spec fn root_text(d: TemplateView) -> Seq<char> {
    first_consonant_text(d.first_consonant) + seq![
        vowel_kind_char(d.vowel),
        last_consonant_char(d.last_consonant),
    ]
}

/// The letters of a root form written from a description.
proof fn lemma_root_pieces(d: TemplateView)
    requires
        d.vowel != VowelKind::Alternating,
    ensures
        root_pieces(root_text(d)) == match d.first_consonant {
            None => seq![],
            Some(f) => seq![first_consonant_text(Some(f))],
        } + seq![seq![vowel_kind_char(d.vowel)], seq![last_consonant_char(d.last_consonant)]],
{
    let r = root_text(d);
    let v = vowel_kind_char(d.vowel);
    let l = last_consonant_char(d.last_consonant);
    let tail = seq![v, l];
    assert(split_combined(seq![], root_combos()) =~= seq![]);
    assert(seq![l].skip(1) =~= seq![]);
    assert(seq![l].take(1) =~= seq![l]);
    lemma_root_split_char(seq![l]);
    assert(tail.skip(1) =~= seq![l]);
    assert(tail.take(1) =~= seq![v]);
    lemma_root_split_char(tail);
    assert(split_combined(tail, root_combos()) =~= seq![seq![v], seq![l]]);
    match d.first_consonant {
        None => {
            assert(r =~= tail);
        },
        Some(FirstConsonant::Voiced) => {
            assert(r =~= seq!['ж', 'ь', v, l]);
            assert(r.skip(2) =~= tail);
            lemma_root_split_zh(r);
        },
        Some(f) => {
            let c = if f == FirstConsonant::Unvoiced {
                'д'
            } else {
                'у'
            };
            assert(r =~= seq![c, v, l]);
            assert(r.skip(1) =~= tail);
            assert(r.take(1) =~= seq![c]);
            lemma_root_split_char(r);
        },
    }
}

/// Writing a description as a template string and reading the string gives the
/// description back, for every description that a template string can hold: a first
/// consonant exactly for transitive verbs, a vowel kind other than the alternation, no
/// alternation, and a preverb (if any) that is not empty, not
/// "0" and without '-'. The stem of what is read is the root form as written.
pub proof fn template_text_round_trip(d: TemplateView)
    requires
        (d.first_consonant is Some) == (d.transitivity == Transitivity::Transitive),
        d.vowel != VowelKind::Alternating,
        !d.is_alternating,
        d.preverb is Some ==> (d.preverb.unwrap().len() > 0 && d.preverb.unwrap() != "0"@
            && !d.preverb.unwrap().contains('-')),
    ensures
        template_readable(template_text(d)),
        template_of(template_text(d)) == Ok::<TemplateView, Seq<char>>(
            TemplateView { stem: root_text(d), template_string: template_text(d), ..d },
        ),
{
    reveal_strlit("спр");
    reveal_strlit("спр-");
    reveal_strlit("0");
    reveal_strlit("э");
    reveal_strlit("ы");
    reveal_strlit("лъэмыӏ");
    reveal_strlit("лъэӏ");
    let t = transitivity_text(d.transitivity);
    let p = match d.preverb {
        Some(x) => x,
        None => seq!['0'],
    };
    let r = root_text(d);
    let e = seq![thematic_char(d.thematic_vowel)];
    let s = template_text(d);
    let a1 = "спр"@;
    let a2 = a1 + seq!['-'] + t;
    let a3 = a2 + seq!['-'] + p;
    let a4 = a3 + seq!['-'] + r;
    let a5 = a4 + seq!['-'] + e;
    assert(s =~= a5);
    assert(!a1.contains('-')) by {
        if a1.contains('-') {
            let k = choose|k: int| 0 <= k < a1.len() && a1[k] == '-';
        }
    }
    assert(!t.contains('-')) by {
        if t.contains('-') {
            let k = choose|k: int| 0 <= k < t.len() && t[k] == '-';
        }
    }
    assert(!p.contains('-')) by {
        if p.contains('-') {
            let k = choose|k: int| 0 <= k < p.len() && p[k] == '-';
        }
    }
    assert(!r.contains('-')) by {
        if r.contains('-') {
            let k = choose|k: int| 0 <= k < r.len() && r[k] == '-';
        }
    }
    assert(!e.contains('-')) by {
        if e.contains('-') {
            let k = choose|k: int| 0 <= k < e.len() && e[k] == '-';
        }
    }
    lemma_split_single(a1, '-');
    lemma_split_append(a1, t, '-');
    lemma_split_append(a2, p, '-');
    lemma_split_append(a3, r, '-');
    lemma_split_append(a4, e, '-');
    let segs = split_text(s, '-');
    assert(segs =~= seq![a1, t, p, r, e]);
    assert(segs[1] == t && segs[2] == p && segs[3] == r && segs[4] == e);
    assert(transitivity_of(t) == Some(d.transitivity));
    assert("э"@ =~= seq!['э'] && "ы"@ =~= seq!['ы'] && "0"@ =~= seq!['0']);
    assert(thematic_vowel_of(e) == Some(d.thematic_vowel));
    assert(preverb_of_segment(p) == d.preverb);
    lemma_root_pieces(d);
    let ps = root_pieces(r);
    assert(ps.last().len() == 1);
    assert(!root_form_alternating(r));
    assert(vowel_kind_of(seq![vowel_kind_char(d.vowel)]) == Some(d.vowel)) by {
        assert(seq!['0'][0] == '0' && seq!['б'][0] == 'б');
    }
    assert(last_consonant_kind_of(seq![last_consonant_char(d.last_consonant)]) == Some(
        d.last_consonant,
    )) by {
        assert(seq!['д'][0] == 'д' && seq!['т'][0] == 'т' && seq!['л'][0] == 'л');
        assert(seq!['й'][0] == 'й');
    }
    if let Some(f) = d.first_consonant {
        assert(first_consonant_kind_of(first_consonant_text(Some(f))) == Some(f)) by {
            assert(seq!['д'][0] == 'д' && seq!['у'][0] == 'у');
            assert(seq!['ж', 'ь'].len() == 2 && seq!['д'].len() == 1 && seq!['у'].len() == 1);
        }
        assert(ps[0] == first_consonant_text(Some(f)));
        assert(ps[1] == seq![vowel_kind_char(d.vowel)]);
        assert(ps[2] == seq![last_consonant_char(d.last_consonant)]);
    } else {
        assert(ps[0] == seq![vowel_kind_char(d.vowel)]);
        assert(ps[1] == seq![last_consonant_char(d.last_consonant)]);
    }
    assert(root_form_of(r) == (d.first_consonant, d.vowel, d.last_consonant, false));
}

} // verus!
