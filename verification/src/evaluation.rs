//! Turning the morphemes of a verb form into its written form.
//!
//! The singular second person ergative marker needs special care ("S2E hack"): its
//! underlying form /w/ has no letter of its own, so it is written 'б' and turns into 'у'
//! (written through 'ў') or 'п' where the neighbouring sounds ask for it.
use std::collections::VecDeque;

use vstd::prelude::*;

use crate::morpho::{
    before_o_text, ends_with_e_or_y, last_consonant_of_text, marker, marker_text, morpheme_text,
    morphemes_view, preverb_form_text, stem_placeholder, voiced_char, Case, Morpheme,
    MorphemeView, Number, Person, PersonMarker, Preverb, PreverbSoundForm,
};
use crate::ortho::{
    self, consonant_end, consonant_text, letter_at, letter_text, letter_text_string,
    letter_voiceness, letters_from, letters_of, needs_epenthetic, parses, text_reads, Consonant,
    Letter, Manner, Place, Voiceness,
};
use crate::text::{str_chars, str_eq, string_of, text_of};
use crate::wiki::template::{
    first_consonant_voiceness, thematic_text, treat_thematic_vowel, FirstConsonant, VerbStem,
};

verus! {

// ---------------------------------------------------------------------------
// The model of evaluation
// ---------------------------------------------------------------------------

/// The letters of a morpheme; `None` where reading them fails (the stem, whose text is a
/// placeholder, or a text that does not read).
pub open spec fn morpheme_letters(m: MorphemeView) -> Option<Seq<Letter>> {
    if m is Stem {
        None
    } else if parses(morpheme_text(m)) {
        Some(letters_of(morpheme_text(m)))
    } else {
        None
    }
}

/// The first letter of a morpheme; `None` where there is none to be had.
pub open spec fn first_letter_of(m: MorphemeView) -> Option<Letter> {
    match morpheme_letters(m) {
        Some(ls) => if ls.len() > 0 {
            Some(ls[0])
        } else {
            None
        },
        None => None,
    }
}

/// The last letter of a morpheme; `None` where there is none to be had.
pub open spec fn last_letter_of(m: MorphemeView) -> Option<Letter> {
    match morpheme_letters(m) {
        Some(ls) => if ls.len() > 0 {
            Some(ls.last())
        } else {
            None
        },
        None => None,
    }
}

/// Every morpheme but the stem has a readable text.
pub open spec fn texts_parse(ms: Seq<MorphemeView>) -> bool {
    forall|i: int|
        0 <= i < ms.len() && !(ms[i] is Stem) ==> parses(#[trigger] morpheme_text(ms[i]))
}

/// A morpheme stays in the word when it is the stem or has letters.
pub open spec fn is_kept(m: MorphemeView) -> bool {
    m is Stem || letters_of(morpheme_text(m)).len() > 0
}

/// The morphemes that stay in the word, in order.
pub open spec fn kept(ms: Seq<MorphemeView>) -> Seq<MorphemeView>
    decreases ms.len(),
{
    if ms.len() == 0 {
        seq![]
    } else if is_kept(ms.last()) {
        kept(ms.drop_last()).push(ms.last())
    } else {
        kept(ms.drop_last())
    }
}

/// The third person plural ergative marker 'я' becomes 'а' after something.
pub open spec fn ja_text(is_after_consonant: bool) -> Seq<char> {
    if is_after_consonant {
        seq!['а']
    } else {
        seq!['я']
    }
}

/// The preverb 'е' in its two shapes.
pub open spec fn je_text(is_after_consonant: bool) -> Seq<char> {
    if is_after_consonant {
        seq!['е']
    } else {
        seq!['э']
    }
}

/// The 'ы' that goes between a /w/ and a velar, uvular or pharyngeal plosive.
pub open spec fn epenthetic_text(c_0: Consonant, c_1: Consonant) -> Seq<char> {
    if c_0.manner == Manner::Approximant && c_0.place == Place::Labial && needs_epenthetic(c_1) {
        seq!['ы']
    } else {
        seq![]
    }
}

/// The text of a letter when the letter starts a marker: consonants and combined letters.
pub open spec fn leading_letter_text(l: Letter) -> Option<Seq<char>> {
    match l {
        Letter::Consonant(c) => consonant_text(c),
        Letter::Combi(..) => letter_text(l),
        Letter::Vowel(..) => None,
    }
}

/// Whether some morpheme is the raj imperative.
pub open spec fn has_raj(ks: Seq<MorphemeView>) -> bool {
    exists|j: int| 0 <= j < ks.len() && #[trigger] ks[j] is RajImperative
}

/// The written form of the person marker at index `i`; `None` where it cannot be written.
pub open spec fn marker_piece(m: PersonMarker, ks: Seq<MorphemeView>, i: int) -> Option<
    Seq<char>,
> {
    let has_prev = i > 0;
    let has_next = i + 1 < ks.len();
    let next = ks[i + 1];
    if !has_next && has_raj(ks) {
        None
    } else if has_next && has_raj(ks) {
        if m.case != Case::Ergative || has_prev {
            None
        } else {
            let second_singular = m.person == Person::Second && m.number == Number::Singular;
            let case = if next is RajImperative && !second_singular {
                Case::Ergative
            } else {
                Case::Absolutive
            };
            Some(marker_text(marker(m.person, m.number, case)))
        }
    } else if has_next && next == MorphemeView::Generic("о"@) {
        if m.person == Person::Third && m.number == Number::Singular && m.case
            == Case::Ergative {
            Some(seq!['е'])
        } else if m.person == Person::Third && m.number == Number::Plural && m.case
            == Case::Ergative {
            Some(ja_text(has_prev))
        } else if m.case == Case::Absolutive {
            Some(before_o_text(m))
        } else if has_prev {
            Some(seq![voiced_char(marker_text(m)[0])] + marker_text(m).drop_first())
        } else {
            Some(marker_text(m))
        }
    } else if has_next && next is NegationPrefix {
        if has_prev && m.case == Case::Absolutive {
            None
        } else if !has_prev {
            Some(marker_text(marker(m.person, m.number, Case::Absolutive)))
        } else if let MorphemeView::Preverb(base) = ks[i - 1] {
            match first_letter_of(MorphemeView::PersonMarker(m)) {
                Some(Letter::Consonant(c)) => match first_letter_of(next) {
                    Some(nl) => {
                        let c1 = Consonant { voiceness: letter_voiceness(nl), ..c };
                        let c2 = if c1.place == Place::Labial && c1.manner == Manner::Plosive {
                            Consonant { manner: Manner::Approximant, ..c1 }
                        } else {
                            c1
                        };
                        match (last_consonant_of_text(base), consonant_text(c2)) {
                            (Some(lc), Some(t)) => Some(epenthetic_text(c2, lc) + t),
                            _ => None,
                        }
                    },
                    None => None,
                },
                Some(Letter::Combi(c, v)) => if m.person == Person::Third && m.number
                    == Number::Plural && m.case == Case::Ergative {
                    Some(ja_text(true))
                } else {
                    letter_text(Letter::Combi(c, v))
                },
                _ => None,
            }
        } else {
            None
        }
    } else if has_next && next is Stem {
        if m.case == Case::Ergative {
            match first_letter_of(MorphemeView::PersonMarker(m)) {
                Some(Letter::Consonant(c)) => if m.person == Person::Third && m.number
                    == Number::Plural {
                    None
                } else {
                    match next->Stem_0.first_consonant {
                        Some(fc) => consonant_text(
                            Consonant { voiceness: first_consonant_voiceness(fc), ..c },
                        ),
                        None => None,
                    }
                },
                Some(Letter::Combi(c, v)) => if m.person == Person::Third && m.number
                    == Number::Plural {
                    Some(ja_text(has_prev))
                } else {
                    letter_text(Letter::Combi(c, v))
                },
                _ => None,
            }
        } else {
            Some(marker_text(m))
        }
    } else if !has_prev && has_next {
        match first_letter_of(MorphemeView::PersonMarker(m)) {
            Some(l) => leading_letter_text(l),
            None => None,
        }
    } else {
        None
    }
}

/// The letters of the marker 'б'.
proof fn lemma_letters_of_b()
    ensures
        parses(seq!['б']),
        letters_of(seq!['б']) == seq![
            Letter::Consonant(ortho::cons(Place::Labial, Manner::Plosive, Voiceness::Voiced, false)),
        ],
{
    let s = seq!['б'];
    assert(s.subrange(0, 1) =~= s);
    assert(consonant_end(s, 0, 0, ortho::Deco::Base, false) == 0);
    assert(letter_at(s, 0) == Some(
        (Letter::Consonant(ortho::cons(Place::Labial, Manner::Plosive, Voiceness::Voiced, false)), 0int),
    ));
    assert(letters_from(s, 1) == Some(Seq::<Letter>::empty()));
    assert(letters_from(s, 0) == Some(
        seq![Letter::Consonant(ortho::cons(Place::Labial, Manner::Plosive, Voiceness::Voiced, false))]
            + Seq::<Letter>::empty(),
    ));
    assert(seq![Letter::Consonant(ortho::cons(Place::Labial, Manner::Plosive, Voiceness::Voiced, false))]
        + Seq::<Letter>::empty() =~= seq![
        Letter::Consonant(ortho::cons(Place::Labial, Manner::Plosive, Voiceness::Voiced, false)),
    ]);
}

/// The singular second person ergative marker before the stem of a transitive verb is
/// written 'п' before a voiceless first consonant and 'б' before a voiced one (or 'у').
pub proof fn second_singular_ergative_before_stem(ks: Seq<MorphemeView>, i: int, stem: VerbStem)
    requires
        0 <= i,
        i + 1 < ks.len(),
        ks[i] == MorphemeView::PersonMarker(marker(Person::Second, Number::Singular, Case::Ergative)),
        ks[i + 1] == MorphemeView::Stem(stem),
        stem.first_consonant is Some,
        !has_raj(ks),
    ensures
        marker_piece(marker(Person::Second, Number::Singular, Case::Ergative), ks, i) == Some(
            if stem.first_consonant == Some(FirstConsonant::Unvoiced) {
                seq!['п']
            } else {
                seq!['б']
            },
        ),
{
    lemma_letters_of_b();
    let m = marker(Person::Second, Number::Singular, Case::Ergative);
    assert(marker_text(m) == seq!['б']);
    assert(ks[i + 1] != MorphemeView::Generic("о"@));
}

/// At the start of a verb form, before the negation prefix, every marker is written as the
/// absolutive marker of its person and number.
pub proof fn marker_before_negation_at_start(ks: Seq<MorphemeView>, m: PersonMarker)
    requires
        ks.len() >= 2,
        ks[0] == MorphemeView::PersonMarker(m),
        ks[1] == MorphemeView::NegationPrefix,
        !has_raj(ks),
    ensures
        marker_piece(m, ks, 0) == Some(marker_text(marker(m.person, m.number, Case::Absolutive))),
{
    assert(ks[1] != MorphemeView::Generic("о"@));
}

/// Before the 'о' of the present tense, the third person singular ergative marker 'и'
/// fuses with it into 'е': the marker is written 'е', never its own 'и'.
pub proof fn third_singular_ergative_fuses_with_o(ks: Seq<MorphemeView>, i: int)
    requires
        0 <= i,
        i + 1 < ks.len(),
        ks[i] == MorphemeView::PersonMarker(marker(Person::Third, Number::Singular, Case::Ergative)),
        ks[i + 1] == MorphemeView::Generic("о"@),
        !has_raj(ks),
    ensures
        marker_piece(marker(Person::Third, Number::Singular, Case::Ergative), ks, i) == Some(
            seq!['е'],
        ),
        marker_piece(marker(Person::Third, Number::Singular, Case::Ergative), ks, i) != Some(
            marker_text(marker(Person::Third, Number::Singular, Case::Ergative)),
        ),
{
    assert(seq!['е'] != seq!['и']) by {
        assert(seq!['е'][0] != seq!['и'][0]);
    }
}

/// The letters of the marker 'я'.
proof fn lemma_letters_of_ja()
    ensures
        parses(seq!['я']),
        letters_of(seq!['я']) == seq![ortho::combi_letter('я')],
{
    let s = seq!['я'];
    assert(letter_at(s, 0) == Some((ortho::combi_letter('я'), 0int)));
    assert(letters_from(s, 1) == Some(Seq::<Letter>::empty()));
    assert(seq![ortho::combi_letter('я')] + Seq::<Letter>::empty() =~= seq![
        ortho::combi_letter('я'),
    ]);
}

/// The third person plural ergative marker 'я' becomes 'а' where another morpheme stands
/// before it: before the present tense 'о' and before the stem it is written 'а' after a
/// morpheme and 'я' at the start of the verb form.
pub proof fn third_plural_ergative_after_a_morpheme(ks: Seq<MorphemeView>, i: int)
    requires
        0 <= i,
        i + 1 < ks.len(),
        ks[i] == MorphemeView::PersonMarker(marker(Person::Third, Number::Plural, Case::Ergative)),
        ks[i + 1] == MorphemeView::Generic("о"@) || ks[i + 1] is Stem,
        !has_raj(ks),
    ensures
        marker_piece(marker(Person::Third, Number::Plural, Case::Ergative), ks, i) == Some(
            ja_text(i > 0),
        ),
        ja_text(true) == seq!['а'],
        ja_text(false) == seq!['я'],
{
    lemma_letters_of_ja();
    let m = marker(Person::Third, Number::Plural, Case::Ergative);
    assert(marker_text(m) == seq!['я']);
    assert(ortho::combi_letter('я') is Combi);
}

/// After a preverb and before the negation prefix, the third person plural ergative marker
/// is written 'а'.
pub proof fn third_plural_ergative_between_preverb_and_negation(
    ks: Seq<MorphemeView>,
    i: int,
    base: Seq<char>,
)
    requires
        0 < i,
        i + 1 < ks.len(),
        ks[i - 1] == MorphemeView::Preverb(base),
        ks[i] == MorphemeView::PersonMarker(marker(Person::Third, Number::Plural, Case::Ergative)),
        ks[i + 1] == MorphemeView::NegationPrefix,
        !has_raj(ks),
    ensures
        marker_piece(marker(Person::Third, Number::Plural, Case::Ergative), ks, i) == Some(
            seq!['а'],
        ),
{
    lemma_letters_of_ja();
    let m = marker(Person::Third, Number::Plural, Case::Ergative);
    assert(marker_text(m) == seq!['я']);
    assert(ortho::combi_letter('я') is Combi);
    assert(ks[i + 1] != MorphemeView::Generic("о"@));
}

/// The letters of the negation prefix 'мы'.
proof fn lemma_letters_of_my()
    ensures
        parses(seq!['м', 'ы']),
        letters_of(seq!['м', 'ы'])[0] == Letter::Consonant(
            ortho::cons(Place::Labial, Manner::Nasal, Voiceness::Voiced, false),
        ),
{
    let s = seq!['м', 'ы'];
    assert(consonant_end(s, 0, 0, ortho::Deco::Base, false) == 0);
    assert(s.subrange(0, 1) =~= seq!['м']);
    assert(letter_at(s, 0) == Some(
        (Letter::Consonant(ortho::cons(Place::Labial, Manner::Nasal, Voiceness::Voiced, false)), 0int),
    ));
    assert(letters_from(s, 2) == Some(Seq::<Letter>::empty()));
    assert(letters_from(s, 1) is Some);
    assert(letters_from(s, 0) is Some);
}

/// After a preverb and before the negation prefix, the singular second person ergative
/// marker is written 'у', with an epenthetic 'ы' before it where the preverb ends in a
/// velar, uvular or pharyngeal plosive.
pub proof fn second_singular_ergative_between_preverb_and_negation(
    ks: Seq<MorphemeView>,
    i: int,
    base: Seq<char>,
    lc: Consonant,
)
    requires
        0 < i,
        i + 1 < ks.len(),
        ks[i - 1] == MorphemeView::Preverb(base),
        ks[i] == MorphemeView::PersonMarker(marker(Person::Second, Number::Singular, Case::Ergative)),
        ks[i + 1] == MorphemeView::NegationPrefix,
        last_consonant_of_text(base) == Some(lc),
        !has_raj(ks),
    ensures
        marker_piece(marker(Person::Second, Number::Singular, Case::Ergative), ks, i) == Some(
            if needs_epenthetic(lc) {
                seq!['ы', 'у']
            } else {
                seq!['у']
            },
        ),
{
    lemma_letters_of_b();
    lemma_letters_of_my();
    let m = marker(Person::Second, Number::Singular, Case::Ergative);
    assert(marker_text(m) == seq!['б']);
    assert(morpheme_text(MorphemeView::NegationPrefix) == seq!['м', 'ы']);
    assert(ks[i + 1] != MorphemeView::Generic("о"@));
    assert(seq!['ы'] + seq!['у'] =~= seq!['ы', 'у']);
    assert(Seq::<char>::empty() + seq!['у'] =~= seq!['у']);
}

/// The written form of the preverb at index `i`.
pub open spec fn preverb_piece(base: Seq<char>, ks: Seq<MorphemeView>, i: int) -> Option<
    Seq<char>,
> {
    if i + 1 >= ks.len() {
        None
    } else {
        let next = ks[i + 1];
        let form = match next {
            MorphemeView::PersonMarker(m) => match first_letter_of(next) {
                Some(Letter::Combi(..)) => Some(PreverbSoundForm::BeforeVowel),
                Some(Letter::Consonant(c)) if c.place == Place::Labial && c.manner
                    == Manner::Plosive && i + 2 < ks.len() && ks[i + 2] is NegationPrefix => Some(
                    PreverbSoundForm::BeforeVowel,
                ),
                Some(_) => if i + 2 < ks.len() && ks[i + 2] == MorphemeView::Generic("о"@) {
                    Some(PreverbSoundForm::Reduced)
                } else {
                    Some(PreverbSoundForm::Full)
                },
                None => None,
            },
            MorphemeView::Stem(..) => Some(PreverbSoundForm::Full),
            MorphemeView::NegationPrefix => Some(PreverbSoundForm::Full),
            MorphemeView::RajImperative => Some(PreverbSoundForm::BeforeVowel),
            _ => None,
        };
        match form {
            Some(f) => if (next matches MorphemeView::PersonMarker(m) && m.case
                != Case::Ergative) || (f != PreverbSoundForm::Full && !ends_with_e_or_y(base)) {
                None
            } else {
                Some(preverb_form_text(base, f))
            },
            None => None,
        }
    }
}

/// Whether a letter is a vowel or a combined letter.
pub open spec fn is_vowelish(l: Letter) -> bool {
    l is Vowel || l is Combi
}

/// The thematic vowel 'ы' of a stem that stands between other morphemes: it stays where a
/// consonant that needs it follows, and goes away after a vowel or before one.
pub open spec fn stem_y_piece(ks: Seq<MorphemeView>, i: int) -> Option<Seq<char>> {
    let has_prev = i > 0;
    let has_next = i + 1 < ks.len();
    let next_fl = if has_next {
        first_letter_of(ks[i + 1])
    } else {
        None
    };
    let prev_ll = if has_prev {
        last_letter_of(ks[i - 1])
    } else {
        None
    };
    let prev_prev_ll = if i >= 2 {
        last_letter_of(ks[i - 2])
    } else {
        None
    };
    if has_next && next_fl is None {
        None
    } else if has_prev && prev_ll is None {
        None
    } else {
        let still_needs_y = match next_fl {
            Some(Letter::Consonant(c)) => (c.place == Place::Alveolar && c.manner
                == Manner::Nasal) || (c.place == Place::Uvular && c.manner == Manner::Fricative)
                || (c.manner == Manner::Trill && ks[i + 1] != MorphemeView::Generic("рэ"@)),
            _ => false,
        };
        let is_next_vowel = has_next && is_vowelish(next_fl.unwrap());
        let before = has_prev && is_vowelish(prev_ll.unwrap());
        if !before && i >= 2 && prev_prev_ll is None {
            None
        } else {
            let before2 = before || (i >= 2 && is_vowelish(prev_prev_ll.unwrap()));
            if still_needs_y {
                Some(seq!['ы'])
            } else if before2 || is_next_vowel {
                Some(seq![])
            } else {
                Some(seq!['ы'])
            }
        }
    }
}

/// The written form of the stem at index `i`: the placeholder and its thematic vowel.
pub open spec fn stem_piece(stem: VerbStem, ks: Seq<MorphemeView>, i: int) -> Option<Seq<char>> {
    let tv = thematic_text(stem.thematic_vowel, stem.last_consonant);
    let has_prev = i > 0;
    let has_next = i + 1 < ks.len();
    let vowel = if tv == seq!['ы'] {
        if !has_prev && !has_next {
            Some(tv)
        } else {
            stem_y_piece(ks, i)
        }
    } else if tv == seq!['э'] {
        if has_next && ks[i + 1] is Generic {
            let g = ks[i + 1]->Generic_0;
            if g.len() == 0 {
                None
            } else if g[0] == 'а' {
                Some(seq![])
            } else {
                Some(tv)
            }
        } else {
            Some(tv)
        }
    } else {
        Some(tv)
    };
    match vowel {
        Some(v) => Some(stem_placeholder() + v),
        None => None,
    }
}

/// The letters next to the stem at index `i` that decide its thematic 'ы' can be read: the
/// first letter of the next morpheme, the last letter of the one before, and, where that one
/// does not end in a vowel, the last letter of the one before it.
pub open spec fn stem_neighbours_read(ks: Seq<MorphemeView>, i: int) -> bool {
    &&& i + 1 < ks.len() ==> first_letter_of(ks[i + 1]) is Some
    &&& i > 0 ==> last_letter_of(ks[i - 1]) is Some
    &&& i >= 2 && !is_vowelish(last_letter_of(ks[i - 1]).unwrap()) ==> last_letter_of(
        ks[i - 2],
    ) is Some
}

/// The morpheme after index `i` starts with 'н', 'гъ' or an 'р' other than that of the
/// suffix 'рэ'.
pub open spec fn starts_with_n_gh_or_r(ks: Seq<MorphemeView>, i: int) -> bool {
    i + 1 < ks.len() && match first_letter_of(ks[i + 1]) {
        Some(Letter::Consonant(c)) => (c.place == Place::Alveolar && c.manner == Manner::Nasal)
            || (c.place == Place::Uvular && c.manner == Manner::Fricative) || (c.manner
            == Manner::Trill && ks[i + 1] != MorphemeView::Generic("рэ"@)),
        _ => false,
    }
}

/// A vowel stands next to index `i`: at the start of the next morpheme, or at the end of
/// one of the two morphemes before it.
pub open spec fn vowel_next_to(ks: Seq<MorphemeView>, i: int) -> bool {
    ||| i + 1 < ks.len() && is_vowelish(first_letter_of(ks[i + 1]).unwrap())
    ||| i > 0 && is_vowelish(last_letter_of(ks[i - 1]).unwrap())
    ||| i >= 2 && is_vowelish(last_letter_of(ks[i - 2]).unwrap())
}

/// A stem that stands alone keeps its thematic vowel.
pub proof fn stem_alone_keeps_its_thematic_vowel(stem: VerbStem)
    ensures
        stem_piece(stem, seq![MorphemeView::Stem(stem)], 0) == Some(
            stem_placeholder() + thematic_text(stem.thematic_vowel, stem.last_consonant),
        ),
{
}

/// Among other morphemes, the thematic 'ы' of a stem stays before 'н', 'гъ' and an 'р' that
/// is not the suffix 'рэ'.
pub proof fn thematic_y_kept_before_n_gh_r(stem: VerbStem, ks: Seq<MorphemeView>, i: int)
    requires
        0 <= i < ks.len(),
        thematic_text(stem.thematic_vowel, stem.last_consonant) == seq!['ы'],
        stem_neighbours_read(ks, i),
        starts_with_n_gh_or_r(ks, i),
    ensures
        stem_piece(stem, ks, i) == Some(stem_placeholder() + seq!['ы']),
{
}

/// Otherwise, among other morphemes, the thematic 'ы' of a stem goes away next to a vowel
/// and stays between consonants.
pub proof fn thematic_y_goes_next_to_a_vowel(stem: VerbStem, ks: Seq<MorphemeView>, i: int)
    requires
        0 <= i < ks.len(),
        ks.len() > 1,
        thematic_text(stem.thematic_vowel, stem.last_consonant) == seq!['ы'],
        stem_neighbours_read(ks, i),
        !starts_with_n_gh_or_r(ks, i),
    ensures
        stem_piece(stem, ks, i) == Some(
            if vowel_next_to(ks, i) {
                stem_placeholder()
            } else {
                stem_placeholder() + seq!['ы']
            },
        ),
{
    assert(stem_placeholder() + Seq::<char>::empty() =~= stem_placeholder());
}

/// The thematic 'э' of a stem goes away before a suffix that starts with 'а'.
pub proof fn thematic_e_goes_before_a(stem: VerbStem, ks: Seq<MorphemeView>, i: int, g: Seq<char>)
    requires
        0 <= i,
        i + 1 < ks.len(),
        thematic_text(stem.thematic_vowel, stem.last_consonant) == seq!['э'],
        ks[i + 1] == MorphemeView::Generic(g),
        g.len() > 0,
    ensures
        stem_piece(stem, ks, i) == Some(
            if g[0] == 'а' {
                stem_placeholder()
            } else {
                stem_placeholder() + seq!['э']
            },
        ),
{
    assert(seq!['э'] != seq!['ы']) by {
        assert(seq!['э'][0] != seq!['ы'][0]);
    }
    assert(ks[i + 1]->Generic_0 == g);
    assert(stem_placeholder() + Seq::<char>::empty() =~= stem_placeholder());
}

/// The written form of the present tense 'о' at index `i`.
pub open spec fn o_piece(ks: Seq<MorphemeView>, i: int) -> Option<Seq<char>> {
    if i + 1 >= ks.len() || !(ks[i + 1] is Stem) {
        None
    } else if i == 0 {
        Some(seq!['м', 'э'])
    } else if ks[i - 1] matches MorphemeView::PersonMarker(m) && m.person == Person::Third
        && m.case == Case::Ergative {
        Some(seq![])
    } else {
        Some(morpheme_text(ks[i]))
    }
}

/// The written form of the morpheme at index `i` of the kept morphemes.
pub open spec fn piece(ks: Seq<MorphemeView>, i: int) -> Option<Seq<char>> {
    match ks[i] {
        MorphemeView::PersonMarker(m) => marker_piece(m, ks, i),
        MorphemeView::Stem(stem) => stem_piece(stem, ks, i),
        MorphemeView::Preverb(base) => preverb_piece(base, ks, i),
        MorphemeView::NegationPrefix => Some(seq!['м', 'ы']),
        MorphemeView::Generic(g) => if g == "о"@ {
            o_piece(ks, i)
        } else {
            Some(g)
        },
        MorphemeView::RajImperative => Some(seq!['р', 'е']),
    }
}

/// The written forms of the kept morphemes from index `i` on, one after the other.
pub open spec fn pieces_from(ks: Seq<MorphemeView>, i: int) -> Option<Seq<char>>
    decreases ks.len() - i,
{
    if i < 0 || i >= ks.len() {
        Some(seq![])
    } else {
        match (piece(ks, i), pieces_from(ks, i + 1)) {
            (Some(p), Some(rest)) => Some(p + rest),
            _ => None,
        }
    }
}

/// The written form of a verb form; `None` where it cannot be written.
pub open spec fn evaluation(ms: Seq<MorphemeView>) -> Option<Seq<char>> {
    if texts_parse(ms) {
        pieces_from(kept(ms), 0)
    } else {
        None
    }
}

/// The texts of the morphemes joined by '-'.
pub open spec fn joined_texts(ms: Seq<MorphemeView>) -> Seq<char>
    decreases ms.len(),
{
    if ms.len() == 0 {
        seq![]
    } else if ms.len() == 1 {
        morpheme_text(ms[0])
    } else {
        joined_texts(ms.drop_last()) + seq!['-'] + morpheme_text(ms.last())
    }
}

// ---------------------------------------------------------------------------
// Evaluation
// ---------------------------------------------------------------------------

/// The texts of the morphemes joined by '-'.
pub fn morphemes_to_string(morphemes: &VecDeque<Morpheme>) -> (s: String)
    ensures
        s@ == joined_texts(morphemes_view(morphemes@)),
{
    let ghost ms = morphemes_view(morphemes@);
    let mut s = String::new();
    let mut i: usize = 0;
    while i < morphemes.len()
        invariant
            ms == morphemes_view(morphemes@),
            i <= morphemes@.len(),
            s@ == joined_texts(ms.take(i as int)),
        decreases morphemes@.len() - i,
    {
        let t = morphemes[i].to_string();
        if i != 0 {
            s.append("-");
            proof {
                reveal_strlit("-");
            }
        }
        s.append(t.as_str());
        i = i + 1;
        assert(ms.take(i as int).drop_last() =~= ms.take(i - 1));
        assert(ms.take(i as int).last() == ms[i - 1]);
        assert(s@ =~= joined_texts(ms.take(i as int)));
    }
    assert(ms.take(i as int) =~= ms);
    s
}

/// The third person plural ergative marker is 'я', however if something is before it, it becomes 'а'.
fn ja_form(is_after_consonant: bool) -> (s: String)
    ensures
        s@ == ja_text(is_after_consonant),
{
    if is_after_consonant {
        string_of(&['а'])
    } else {
        string_of(&['я'])
    }
}

/// The preverb 'е' in its two shapes: 'е' after a consonant, 'э' otherwise.
fn je_form(is_after_consonant: bool) -> (s: String)
    ensures
        s@ == je_text(is_after_consonant),
{
    if is_after_consonant {
        string_of(&['е'])
    } else {
        string_of(&['э'])
    }
}

fn give_epenthetic_if_needed(c_0: &Consonant, c_1: &Consonant) -> (s: &'static str)
    ensures
        s@ == epenthetic_text(*c_0, *c_1),
{
    let is_wy = c_0.manner == Manner::Approximant && c_0.place == Place::Labial;
    let needs_it = c_1.needs_epenthetic_y();
    proof {
        reveal_strlit("ы");
        reveal_strlit("");
    }
    if is_wy && needs_it {
        "ы"
    } else {
        ""
    }
}

/// Whether some morpheme is the raj imperative.
fn any_raj(morphemes: &VecDeque<Morpheme>) -> (r: bool)
    ensures
        r == has_raj(morphemes_view(morphemes@)),
{
    let ghost ks = morphemes_view(morphemes@);
    let mut i: usize = 0;
    while i < morphemes.len()
        invariant
            ks == morphemes_view(morphemes@),
            i <= morphemes@.len(),
            forall|j: int| 0 <= j < i ==> !(ks[j] is RajImperative),
        decreases morphemes@.len() - i,
    {
        if let Morpheme::RajImperative = morphemes[i] {
            assert(ks[i as int] is RajImperative);
            return true;
        }
        i = i + 1;
    }
    false
}

/// The facts that every evaluation step starts from.
pub open spec fn step_ready(ks: Seq<MorphemeView>, i: int) -> bool {
    0 <= i < ks.len() && texts_parse(ks)
}

fn evaluate_person_marker(marker: &PersonMarker, morphemes: &VecDeque<Morpheme>, i: usize) -> (s:
    Option<String>)
    requires
        step_ready(morphemes_view(morphemes@), i as int),
        morphemes_view(morphemes@)[i as int] == MorphemeView::PersonMarker(*marker),
    ensures
        text_of(s) == marker_piece(*marker, morphemes_view(morphemes@), i as int),
{
    let ghost ks = morphemes_view(morphemes@);
    let n = morphemes.len();
    let has_prev = i > 0;
    let has_next = i + 1 < n;
    let has_raj_prefix = any_raj(morphemes);
    assert(morpheme_text(ks[i as int]) == marker_text(*marker));
    if has_raj_prefix {
        if !has_next {
            return None;
        }
        if has_prev || marker.case != Case::Ergative {
            return None;
        }
        let mut new_marker = *marker;
        let next_is_raj = matches!(morphemes[i + 1], Morpheme::RajImperative);
        if next_is_raj && marker.is_second_singular() {
            // S2E hack
            new_marker.case = Case::Absolutive;
        } else if next_is_raj && !marker.is_second_singular() {
            new_marker.case = Case::Ergative;
        } else {
            new_marker.case = Case::Absolutive;
        }
        return Some(new_marker.base_string());
    }
    if !has_next {
        return None;
    }
    let next = &morphemes[i + 1];
    let next_is_o = match next {
        Morpheme::Generic(base) => str_eq(base.as_str(), "о"),
        _ => false,
    };
    if next_is_o {
        if marker.person == Person::Third && marker.number == Number::Singular && marker.case
            == Case::Ergative {
            return Some(string_of(&['е']));
        } else if marker.person == Person::Third && marker.number == Number::Plural
            && marker.case == Case::Ergative {
            return Some(ja_form(has_prev));
        } else if marker.case == Case::Absolutive {
            return Some(marker.as_before_o());
        } else if has_prev {
            return Some(marker.as_voiced());
        } else {
            return Some(marker.base_string());
        }
    }
    match next {
        Morpheme::NegationPrefix => {
            if has_prev && marker.case == Case::Absolutive {
                return None;
            }
            if !has_prev {
                let mut new_marker = *marker;
                new_marker.case = Case::Absolutive;
                return Some(new_marker.base_string());
            }
            let prev = &morphemes[i - 1];
            match prev {
                Morpheme::Preverb(preverb) => {
                    let letters = marker.to_letters();
                    if letters.len() == 0 {
                        return None;
                    }
                    match letters[0] {
                        Letter::Consonant(consonant) => {
                            assert(morpheme_text(ks[i + 1]) == seq!['м', 'ы']);
                            let mut consonant_ = consonant;
                            consonant_.voiceness = match next.first_letter() {
                                Some(l) => l.voiceness(),
                                None => {
                                    return None;
                                },
                            };
                            // S2E hack
                            if consonant_.is_labial_plosive() {
                                consonant_.manner = Manner::Approximant;
                            };
                            assert(morpheme_text(ks[i - 1]) == preverb@);
                            let last = match preverb.last_consonant() {
                                Some(c) => c,
                                None => {
                                    return None;
                                },
                            };
                            let t = match consonant_.to_str() {
                                Ok(t) => t,
                                Err(_) => {
                                    return None;
                                },
                            };
                            let empenthetic = give_epenthetic_if_needed(&consonant_, &last);
                            let mut s = String::from_str(empenthetic);
                            s.append(t.as_str());
                            Some(s)
                        },
                        Letter::Combi(..) => {
                            if marker.is_third_plural_ergative() {
                                Some(ja_form(true))
                            } else {
                                letter_text_string(&letters[0])
                            }
                        },
                        _ => None,
                    }
                },
                _ => None,
            }
        },
        Morpheme::Stem(stem) => {
            if marker.is_ergative() {
                let letters = marker.to_letters();
                if letters.len() == 0 {
                    return None;
                }
                match letters[0] {
                    Letter::Consonant(consonant) => {
                        if marker.is_third_plural_ergative() {
                            return None;
                        }
                        let mut consonant = consonant;
                        consonant.voiceness = match &stem.first_consonant {
                            Some(fc) => fc.to_voiceness(),
                            None => {
                                return None;
                            },
                        };
                        match consonant.to_str() {
                            Ok(t) => Some(t),
                            Err(_) => None,
                        }
                    },
                    Letter::Combi(..) => {
                        if marker.is_third_plural_ergative() {
                            Some(ja_form(has_prev))
                        } else {
                            letter_text_string(&letters[0])
                        }
                    },
                    _ => None,
                }
            } else {
                Some(marker.base_string())
            }
        },
        _ => {
            if has_prev {
                return None;
            }
            let letters = marker.to_letters();
            if letters.len() == 0 {
                return None;
            }
            match letters[0] {
                Letter::Consonant(..) => letter_text_string(&letters[0]),
                Letter::Combi(..) => letter_text_string(&letters[0]),
                _ => None,
            }
        },
    }
}

fn evaluate_preverb(preverb: &Preverb, morphemes: &VecDeque<Morpheme>, i: usize) -> (s: Option<
    String,
>)
    requires
        step_ready(morphemes_view(morphemes@), i as int),
        morphemes_view(morphemes@)[i as int] == MorphemeView::Preverb(preverb@),
    ensures
        text_of(s) == preverb_piece(preverb@, morphemes_view(morphemes@), i as int),
{
    let ghost ks = morphemes_view(morphemes@);
    let n = morphemes.len();
    if i + 1 >= n {
        return None;
    }
    let form = match &morphemes[i + 1] {
        Morpheme::PersonMarker(marker) => {
            assert(morpheme_text(ks[i + 1]) == marker_text(*marker));
            let letters = marker.to_letters();
            if letters.len() == 0 {
                return None;
            }
            if marker.case != Case::Ergative {
                return None;
            }
            let first_letter = letters[0];
            let next_next_is_neg = i + 2 < n && matches!(morphemes[i + 2], Morpheme::NegationPrefix);
            let next_next_is_o = i + 2 < n && match &morphemes[i + 2] {
                Morpheme::Generic(base) => str_eq(base.as_str(), "о"),
                _ => false,
            };
            match first_letter {
                Letter::Combi(..) => PreverbSoundForm::BeforeVowel,
                Letter::Consonant(cons) if cons.is_labial_plosive() && next_next_is_neg => {
                    PreverbSoundForm::BeforeVowel
                },
                _ => {
                    if next_next_is_o {
                        PreverbSoundForm::Reduced
                    } else {
                        PreverbSoundForm::Full
                    }
                },
            }
        },
        Morpheme::Stem(..) => PreverbSoundForm::Full,
        Morpheme::NegationPrefix => PreverbSoundForm::Full,
        Morpheme::RajImperative => PreverbSoundForm::BeforeVowel,
        _ => {
            return None;
        },
    };
    if form != PreverbSoundForm::Full && !preverb_reduces(preverb.as_str()) {
        return None;
    }
    Some(preverb.form(&form))
}

/// Whether a preverb ends with 'э' or 'ы', so that it has reduced forms.
fn preverb_reduces(base: &str) -> (r: bool)
    ensures
        r == ends_with_e_or_y(base@),
{
    let cs = str_chars(base);
    let n = cs.len();
    n > 0 && (cs[n - 1] == 'э' || cs[n - 1] == 'ы')
}

fn evaluate_stem(stem: &VerbStem, morphemes: &VecDeque<Morpheme>, i: usize) -> (s: Option<String>)
    requires
        step_ready(morphemes_view(morphemes@), i as int),
        morphemes_view(morphemes@)[i as int] == MorphemeView::Stem(*stem),
    ensures
        text_of(s) == stem_piece(*stem, morphemes_view(morphemes@), i as int),
{
    let ghost ks = morphemes_view(morphemes@);
    let n = morphemes.len();
    let has_prev = i > 0;
    let has_next = i + 1 < n;
    let thematic_vowel = treat_thematic_vowel(&stem.thematic_vowel, stem);
    let tvc = str_chars(thematic_vowel.as_str());
    let is_y = tvc.len() == 1 && tvc[0] == 'ы';
    let is_e = tvc.len() == 1 && tvc[0] == 'э';
    assert(is_y <==> thematic_vowel@ == seq!['ы']) by {
        if tvc.len() == 1 {
            assert(thematic_vowel@ =~= seq![tvc@[0]]);
        }
    }
    assert(is_e <==> thematic_vowel@ == seq!['э']) by {
        if tvc.len() == 1 {
            assert(thematic_vowel@ =~= seq![tvc@[0]]);
        }
    }
    let tv = if is_y {
        if !has_prev && !has_next {
            thematic_vowel
        } else {
            // The first letter of the next morpheme, if there is a next one.
            let next_letter = if has_next {
                if matches!(morphemes[i + 1], Morpheme::Stem(..)) {
                    return None;
                }
                match morphemes[i + 1].first_letter() {
                    Some(l) => Some(l),
                    None => {
                        return None;
                    },
                }
            } else {
                None
            };
            let is_next_vowel = match next_letter {
                Some(l) => l.is_vowel_or_combi(),
                None => false,
            };
            let still_needs_y = match next_letter {
                Some(Letter::Consonant(consonant)) => {
                    let is_n = consonant.is_place_and_manner(Place::Alveolar, Manner::Nasal);
                    let is_gh = consonant.is_place_and_manner(Place::Uvular, Manner::Fricative);
                    let is_r = consonant.is_trill() && !morphemes[i + 1].is_generic_certain("рэ");
                    is_n || is_gh || is_r
                },
                _ => false,
            };
            let mut does_vowel_exist_before = false;
            if has_prev {
                if matches!(morphemes[i - 1], Morpheme::Stem(..)) {
                    return None;
                }
                match morphemes[i - 1].last_latter() {
                    Some(l) => {
                        does_vowel_exist_before = l.is_vowel_or_combi();
                    },
                    None => {
                        return None;
                    },
                }
            }
            if !does_vowel_exist_before && i >= 2 {
                if matches!(morphemes[i - 2], Morpheme::Stem(..)) {
                    return None;
                }
                match morphemes[i - 2].last_latter() {
                    Some(l) => {
                        does_vowel_exist_before = l.is_vowel() || l.is_combi();
                    },
                    None => {
                        return None;
                    },
                }
            }
            if still_needs_y {
                thematic_vowel
            } else if does_vowel_exist_before || is_next_vowel {
                String::new()
            } else {
                thematic_vowel
            }
        }
    } else if is_e {
        if has_next {
            match &morphemes[i + 1] {
                Morpheme::Generic(gen) => {
                    let g = str_chars(gen.as_str());
                    if g.len() == 0 {
                        return None;
                    }
                    if g[0] == 'а' {
                        String::new()
                    } else {
                        thematic_vowel
                    }
                },
                _ => thematic_vowel,
            }
        } else {
            thematic_vowel
        }
    } else {
        thematic_vowel
    };
    let mut s = morphemes[i].to_string();
    s.append(tv.as_str());
    Some(s)
}

fn evaluate_o(morphemes: &VecDeque<Morpheme>, i: usize) -> (s: Option<String>)
    requires
        step_ready(morphemes_view(morphemes@), i as int),
    ensures
        text_of(s) == o_piece(morphemes_view(morphemes@), i as int),
{
    let n = morphemes.len();
    if i + 1 >= n {
        return None;
    }
    if !matches!(morphemes[i + 1], Morpheme::Stem(..)) {
        return None;
    }
    if i == 0 {
        return Some(string_of(&['м', 'э']));
    }
    match &morphemes[i - 1] {
        // The third person ergative markers и and я, become е and я (no change) respectively, while о goes away.
        Morpheme::PersonMarker(marker) if marker.is_third_ergative() => Some(String::new()),
        _ => Some(morphemes[i].to_string()),
    }
}

/// An equal copy of a morpheme.
fn duplicate_morpheme(m: &Morpheme) -> (r: Morpheme)
    ensures
        r == *m,
{
    match m {
        Morpheme::Preverb(p) => Morpheme::Preverb(p.duplicate()),
        Morpheme::PersonMarker(pm) => Morpheme::PersonMarker(*pm),
        Morpheme::NegationPrefix => Morpheme::NegationPrefix,
        Morpheme::RajImperative => Morpheme::RajImperative,
        Morpheme::Stem(s) => Morpheme::Stem(s.duplicate()),
        Morpheme::Generic(g) => Morpheme::Generic(g.clone()),
    }
}

proof fn lemma_kept_texts_parse(ms: Seq<MorphemeView>)
    requires
        texts_parse(ms),
    ensures
        texts_parse(kept(ms)),
        forall|j: int| 0 <= j < kept(ms).len() ==> is_kept(#[trigger] kept(ms)[j]),
    decreases ms.len(),
{
    if ms.len() > 0 {
        assert(texts_parse(ms.drop_last())) by {
            assert forall|i: int| 0 <= i < ms.drop_last().len() && !(ms.drop_last()[i] is Stem)
                implies parses(#[trigger] morpheme_text(ms.drop_last()[i])) by {
                assert(ms.drop_last()[i] == ms[i]);
            }
        }
        lemma_kept_texts_parse(ms.drop_last());
        let k = kept(ms.drop_last());
        if is_kept(ms.last()) {
            assert forall|i: int| 0 <= i < k.push(ms.last()).len() && !(k.push(ms.last())[i] is Stem)
                implies parses(#[trigger] morpheme_text(k.push(ms.last())[i])) by {
                if i == k.len() {
                    assert(morpheme_text(ms[ms.len() - 1]) == morpheme_text(ms.last()));
                } else {
                    assert(k.push(ms.last())[i] == k[i]);
                }
            }
            assert forall|j: int| 0 <= j < k.push(ms.last()).len() implies is_kept(
                #[trigger] k.push(ms.last())[j],
            ) by {
                if j < k.len() {
                    assert(k.push(ms.last())[j] == k[j]);
                }
            }
        }
    }
}

/// The written form of a verb form, where it can be written: each morpheme is written in
/// the shape that its neighbours ask for, after the morphemes without letters are left out.
pub fn try_evaluate_morphemes(morphemes: &VecDeque<Morpheme>) -> (r: Option<String>)
    ensures
        text_of(r) == evaluation(morphemes_view(morphemes@)),
{
    let ghost ms = morphemes_view(morphemes@);
    // every morpheme but the stem must read
    let mut j: usize = 0;
    while j < morphemes.len()
        invariant
            ms == morphemes_view(morphemes@),
            j <= morphemes@.len(),
            forall|k: int|
                0 <= k < j && !(ms[k] is Stem) ==> parses(#[trigger] morpheme_text(ms[k])),
        decreases morphemes@.len() - j,
    {
        let m = &morphemes[j];
        assert(ms[j as int] == m@);
        if !matches!(m, Morpheme::Stem(..)) {
            let text = m.to_string();
            if !text_reads(text.as_str()) {
                assert(!texts_parse(ms));
                return None;
            }
        }
        j = j + 1;
    }
    assert(texts_parse(ms));
    // remove null morphemes
    let mut filtered: VecDeque<Morpheme> = VecDeque::new();
    let mut j: usize = 0;
    while j < morphemes.len()
        invariant
            ms == morphemes_view(morphemes@),
            texts_parse(ms),
            j <= morphemes@.len(),
            morphemes_view(filtered@) == kept(ms.take(j as int)),
        decreases morphemes@.len() - j,
    {
        let m = &morphemes[j];
        assert(ms[j as int] == m@);
        let keep = match m {
            Morpheme::Stem(..) => true,
            _ => {
                assert(parses(morpheme_text(ms[j as int])));
                m.to_letters().len() > 0
            },
        };
        let ghost before = morphemes_view(filtered@);
        if keep {
            filtered.push_back(duplicate_morpheme(m));
            assert(morphemes_view(filtered@) =~= before.push(m@));
        }
        j = j + 1;
        assert(ms.take(j as int).drop_last() =~= ms.take(j - 1));
        assert(ms.take(j as int).last() == ms[j - 1]);
    }
    assert(ms.take(j as int) =~= ms);
    let ghost ks = morphemes_view(filtered@);
    proof {
        lemma_kept_texts_parse(ms);
    }
    let mut result = String::new();
    let mut i: usize = 0;
    while i < filtered.len()
        invariant
            ms == morphemes_view(morphemes@),
            texts_parse(ms),
            ks == morphemes_view(filtered@),
            ks == kept(ms),
            texts_parse(ks),
            i <= ks.len(),
            pieces_from(ks, 0) is Some <==> pieces_from(ks, i as int) is Some,
            pieces_from(ks, i as int) is Some ==> pieces_from(ks, 0) == Some(
                result@ + pieces_from(ks, i as int).unwrap(),
            ),
        decreases ks.len() - i,
    {
        let morpheme = &filtered[i];
        assert(ks[i as int] == morpheme@);
        let x = match morpheme {
            Morpheme::PersonMarker(marker) => evaluate_person_marker(marker, &filtered, i),
            Morpheme::Stem(stem) => evaluate_stem(stem, &filtered, i),
            Morpheme::Preverb(preverb) => evaluate_preverb(preverb, &filtered, i),
            Morpheme::NegationPrefix => Some(string_of(&['м', 'ы'])),
            Morpheme::Generic(base) => {
                if str_eq(base.as_str(), "о") {
                    evaluate_o(&filtered, i)
                } else {
                    Some(morpheme.to_string())
                }
            },
            Morpheme::RajImperative => Some(morpheme.to_string()),
        };
        assert(text_of(x) == piece(ks, i as int));
        let x = match x {
            Some(x) => x,
            None => {
                assert(pieces_from(ks, i as int) is None);
                return None;
            },
        };
        let ghost old_result = result@;
        result.append(x.as_str());
        i = i + 1;
        assert(pieces_from(ks, i as int) is Some ==> old_result + (x@ + pieces_from(
            ks,
            i as int,
        ).unwrap()) =~= result@ + pieces_from(ks, i as int).unwrap());
    }
    assert(result@ + seq![] =~= result@);
    Some(result)
}

/// The written form of a verb form that can be written (see `try_evaluate_morphemes`).
pub fn evaluate_morphemes(morphemes: &VecDeque<Morpheme>) -> (s: String)
    requires
        evaluation(morphemes_view(morphemes@)) is Some,
    ensures
        s@ == evaluation(morphemes_view(morphemes@)).unwrap(),
{
    match try_evaluate_morphemes(morphemes) {
        Some(s) => s,
        None => {
            proof {
                assert(false);
            }
            String::new()
        },
    }
}

} // verus!
