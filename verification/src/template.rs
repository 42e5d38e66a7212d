//! A simpler reading of template strings, which sorts consonants into kinds
//! (`ConsonantKind`) and reads the root form by its first and last characters.
use vstd::prelude::*;

use crate::morpho::{Preverb, Transitivity};
use crate::text::{lemma_split_text_len, push_text, split_on, split_text, str_chars, str_eq};
use crate::wiki::template::{
    is_prefix, preverb_of_segment, preverb_view, transitivity_of, VowelKind,
};

verus! {

/// The thematic vowel as written after the stem: stems ending on a labialized consonant
/// carry an implicit 'ы'.
pub open spec fn thematic_text(tv: ThematicVowel, lc: ConsonantKind) -> Seq<char> {
    match (tv, lc) {
        (ThematicVowel::Y, ConsonantKind::Labialized) => seq![],
        (ThematicVowel::Y, _) => seq!['ы'],
        _ => seq!['э'],
    }
}

/// It's basically there to treat stems ending on у which labializes the consonants before it.
/// This also indicates an implicit ы.
pub fn treat_thematic_vowel(tv: &ThematicVowel, vs: &VerbStem) -> (s: String)
    ensures
        s@ == thematic_text(*tv, vs@.last_consonant),
{
    let mut s = String::new();
    match (tv, &vs.last_consonant) {
        (ThematicVowel::Y, ConsonantKind::Labialized) => {},
        (ThematicVowel::Y, _) => push_text(&mut s, "ы"),
        _ => push_text(&mut s, "э"),
    }
    proof {
        reveal_strlit("ы");
        reveal_strlit("э");
    }
    assert(s@ =~= thematic_text(*tv, vs@.last_consonant));
    s
}

#[derive(Debug, Clone, Copy, PartialEq, Eq, Structural)]
pub enum ConsonantKind {
    /// Refers to unvoiced consonants.
    /// Can only be in the beginning of transitive verbs.
    /// It makes the preceding consonant unvoiced.
    /// Comes from 'д'.
    Unvoiced,
    /// Refers to voiced consonants.
    /// Can only be in the beginning of transitive verbs.
    /// It makes the preceding consonant voiced.
    /// Comes from 'жъ'.
    Voiced,
    /// Refers to velar consonants.
    /// Can only be in the end.
    /// Forces an insertion of ы before a у, to differentiate between labialized consonants къу vs къыу
    /// Comes from 'т'.
    Velar,
    /// Refers to labialized consonants.
    /// Can only be in the end.
    /// There can't be an ы behind it, as it's already implicit. гуыр -> гъур
    /// Comes from 'л'.
    Labialized,
    /// Refers to consonants that are neither voiced nor unvoiced.
    /// Can only be in the end. Intransitive verbs can also have it at the beginning, because there voiceness doesn't matter.
    ///
    /// Comes from 'д'.
    Ordinary,
}

#[derive(Debug, Clone, Copy, PartialEq, Eq, Structural)]
pub enum ThematicVowel {
    A,
    Y,
}

impl ThematicVowel {
    /// The thematic vowel as text.
    pub fn to_string(&self) -> (s: String)
        ensures
            s@ == (if *self == ThematicVowel::A {
                "э"@
            } else {
                "ы"@
            }),
    {
        match self {
            ThematicVowel::A => String::from_str("э"),
            ThematicVowel::Y => String::from_str("ы"),
        }
    }
}

/// Here is the information stored about the verb stem.
/// It is extracted from the template string.
/// In the Kabardian language itself, all stems are mostly treated the same, however because of the orthographical system
/// there are some difference how those stems are treated.
#[derive(Debug, Clone, PartialEq)]
pub struct VerbStem {
    pub first_consonant: ConsonantKind,
    vowel: VowelKind,
    last_consonant: ConsonantKind,
    pub thematic_vowel: ThematicVowel,
    string: String,
}

/// What a verb stem holds, with its text.
pub struct StemView {
    pub first_consonant: ConsonantKind,
    pub vowel: VowelKind,
    pub last_consonant: ConsonantKind,
    pub thematic_vowel: ThematicVowel,
    pub string: Seq<char>,
}

impl View for VerbStem {
    type V = StemView;

    closed spec fn view(&self) -> StemView {
        StemView {
            first_consonant: self.first_consonant,
            vowel: self.vowel,
            last_consonant: self.last_consonant,
            thematic_vowel: self.thematic_vowel,
            string: self.string@,
        }
    }
}

#[derive(Debug, Clone)]
pub struct TemplateDesc {
    pub transitivity: Transitivity,
    pub preverb: Option<Preverb>,
    pub stem: VerbStem,
    pub original_string: String,
}

/// What a template description holds, with texts for strings.
pub struct DescView {
    pub transitivity: Transitivity,
    pub preverb: Option<Seq<char>>,
    pub stem: StemView,
    pub template_string: Seq<char>,
}

impl View for TemplateDesc {
    type V = DescView;

    open spec fn view(&self) -> DescView {
        DescView {
            transitivity: self.transitivity,
            preverb: preverb_view(self.preverb),
            stem: self.stem@,
            template_string: self.original_string@,
        }
    }
}

/// Whether `s` ends with `p`.
pub open spec fn ends_with(s: Seq<char>, p: Seq<char>) -> bool {
    p.len() <= s.len() && s.skip(s.len() - p.len()) == p
}

/// What the start of a root form stands for: the first consonant, the vowel kind and the
/// transitivity it goes with; `None` for a start that says nothing.
pub open spec fn root_start(root: Seq<char>) -> Option<(ConsonantKind, VowelKind, Transitivity)> {
    let inner = if root.contains('0') {
        VowelKind::Without
    } else {
        VowelKind::With
    };
    if is_prefix(seq!['0'], root) {
        Some((ConsonantKind::Ordinary, VowelKind::Without, Transitivity::Intransitive))
    } else if is_prefix(seq!['б'], root) {
        Some((ConsonantKind::Ordinary, VowelKind::With, Transitivity::Intransitive))
    } else if is_prefix(seq!['ж', 'ь'], root) {
        Some((ConsonantKind::Voiced, inner, Transitivity::Transitive))
    } else if is_prefix(seq!['д'], root) {
        Some((ConsonantKind::Unvoiced, inner, Transitivity::Transitive))
    } else {
        None
    }
}

/// What the end of a root form stands for: the last consonant and whether the vowel
/// alternates; `None` for an end that stands for nothing.
pub open spec fn root_end(root: Seq<char>) -> Option<(ConsonantKind, bool)> {
    if ends_with(root, seq!['д']) {
        Some((ConsonantKind::Ordinary, false))
    } else if ends_with(root, seq!['т']) {
        Some((ConsonantKind::Velar, false))
    } else if ends_with(root, seq!['л']) {
        Some((ConsonantKind::Labialized, false))
    } else if ends_with(root, seq!['д', 'э', 'а']) {
        Some((ConsonantKind::Ordinary, true))
    } else {
        None
    }
}

/// A root form that is read without failing for a verb of the given transitivity: its
/// start goes with the transitivity, a start of a transitive verb is followed by '0' or
/// 'б', and its end stands for a last consonant.
pub open spec fn root_readable(root: Seq<char>, transitivity: Transitivity) -> bool {
    let start_ok = match root_start(root) {
        Some(x) => x.2 == transitivity && (x.2 == Transitivity::Transitive ==> (root.contains('0')
            || root.contains('б'))),
        None => true,
    };
    start_ok && root_end(root) is Some
}

/// The first consonant, the vowel kind and the last consonant of a readable root form.
pub open spec fn root_parts(root: Seq<char>) -> (ConsonantKind, VowelKind, ConsonantKind) {
    let (fc, v) = match root_start(root) {
        Some(x) => (x.0, x.1),
        None => (ConsonantKind::Ordinary, VowelKind::Without),
    };
    let (lc, alternating) = root_end(root).unwrap();
    (fc, if alternating {
        VowelKind::Alternating
    } else {
        v
    }, lc)
}

/// The thematic vowel a template segment stands for.
pub open spec fn ending_of(t: Seq<char>) -> Option<ThematicVowel> {
    if t == "э"@ {
        Some(ThematicVowel::A)
    } else if t == "ы"@ {
        Some(ThematicVowel::Y)
    } else {
        None
    }
}

/// A template string that is read without failing on the way: it does not start with
/// "спр", or its transitivity or its ending stands for nothing (all three refused), or it
/// has a preverb segment that is not empty and a root form readable for its transitivity.
pub open spec fn template_readable(s: Seq<char>) -> bool {
    let segs = split_text(s, '-');
    segs[0] == "спр"@ ==> {
        &&& segs.len() >= 2
        &&& transitivity_of(segs[1]) is Some ==> {
            &&& segs.len() >= 3
            &&& segs[2].len() > 0
            &&& ending_of(segs.last()) is Some ==> {
                &&& segs.len() >= 4
                &&& root_readable(segs[3], transitivity_of(segs[1]).unwrap())
            }
        }
    }
}

/// The description a readable template string stands for; `None` where it is refused.
pub open spec fn template_of(s: Seq<char>) -> Option<DescView> {
    let segs = split_text(s, '-');
    if segs[0] != "спр"@ || transitivity_of(segs[1]) is None || ending_of(segs.last()) is None {
        None
    } else {
        let parts = root_parts(segs[3]);
        Some(
            DescView {
                transitivity: transitivity_of(segs[1]).unwrap(),
                preverb: preverb_of_segment(segs[2]),
                stem: StemView {
                    first_consonant: parts.0,
                    vowel: parts.1,
                    last_consonant: parts.2,
                    thematic_vowel: ending_of(segs.last()).unwrap(),
                    string: segs[3] + segs.last(),
                },
                template_string: s,
            },
        )
    }
}

/// Whether a text contains the character `c`.
fn contains_char(cs: &Vec<char>, c: char) -> (r: bool)
    ensures
        r == cs@.contains(c),
{
    let mut i: usize = 0;
    while i < cs.len()
        invariant
            i <= cs.len(),
            forall|j: int| 0 <= j < i ==> cs@[j] != c,
        decreases cs.len() - i,
    {
        if cs[i] == c {
            assert(cs@[i as int] == c);
            return true;
        }
        i = i + 1;
    }
    false
}

/// Whether a text starts with the given characters.
fn starts_with_chars(cs: &Vec<char>, p: &[char]) -> (r: bool)
    ensures
        r == is_prefix(p@, cs@),
{
    if p.len() > cs.len() {
        return false;
    }
    let mut i: usize = 0;
    while i < p.len()
        invariant
            p.len() <= cs.len(),
            i <= p.len(),
            forall|j: int| 0 <= j < i ==> cs@[j] == p@[j],
        decreases p.len() - i,
    {
        if cs[i] != p[i] {
            assert(cs@.take(p.len() as int)[i as int] != p@[i as int]);
            return false;
        }
        i = i + 1;
    }
    assert(cs@.take(p.len() as int) =~= p@);
    true
}

/// Whether a text ends with the given characters.
fn ends_with_chars(cs: &Vec<char>, p: &[char]) -> (r: bool)
    ensures
        r == ends_with(cs@, p@),
{
    if p.len() > cs.len() {
        return false;
    }
    let start = cs.len() - p.len();
    let mut i: usize = 0;
    while i < p.len()
        invariant
            p.len() <= cs.len(),
            start == cs.len() - p.len(),
            i <= p.len(),
            forall|j: int| 0 <= j < i ==> cs@[start + j] == p@[j],
        decreases p.len() - i,
    {
        if cs[start + i] != p[i] {
            assert(cs@.skip(start as int)[i as int] != p@[i as int]);
            return false;
        }
        i = i + 1;
    }
    assert(cs@.skip(start as int) =~= p@);
    true
}

/// Whether a text starts with the character `c`.
fn starts_with_char(cs: &Vec<char>, c: char) -> (r: bool)
    ensures
        r == is_prefix(seq![c], cs@),
{
    let p = [c];
    assert(p@ =~= seq![c]);
    starts_with_chars(cs, &p)
}

/// Whether a text starts with the characters `a` and `b`.
fn starts_with_pair(cs: &Vec<char>, a: char, b: char) -> (r: bool)
    ensures
        r == is_prefix(seq![a, b], cs@),
{
    let p = [a, b];
    assert(p@ =~= seq![a, b]);
    starts_with_chars(cs, &p)
}

/// Whether a text ends with the character `c`.
fn ends_with_char(cs: &Vec<char>, c: char) -> (r: bool)
    ensures
        r == ends_with(cs@, seq![c]),
{
    let p = [c];
    assert(p@ =~= seq![c]);
    ends_with_chars(cs, &p)
}

/// Whether a text ends with the characters `a`, `b` and `c`.
fn ends_with_triple(cs: &Vec<char>, a: char, b: char, c: char) -> (r: bool)
    ensures
        r == ends_with(cs@, seq![a, b, c]),
{
    let p = [a, b, c];
    assert(p@ =~= seq![a, b, c]);
    ends_with_chars(cs, &p)
}

/// The thematic vowel a template segment stands for.
fn read_ending(s: &str) -> (r: Option<ThematicVowel>)
    ensures
        r == ending_of(s@),
{
    if str_eq(s, "э") {
        Some(ThematicVowel::A)
    } else if str_eq(s, "ы") {
        Some(ThematicVowel::Y)
    } else {
        None
    }
}

/// Reads the root form of a template for a verb of the given transitivity: the first
/// consonant, the vowel kind and the last consonant.
fn read_root_form(root: &str, transitivity: Transitivity) -> (r: (
    ConsonantKind,
    VowelKind,
    ConsonantKind,
))
    requires
        root_readable(root@, transitivity),
    ensures
        r == root_parts(root@),
{
    let cs = str_chars(root);
    let mut fc = ConsonantKind::Ordinary;
    let mut v = VowelKind::Without;
    let lc;
    if starts_with_char(&cs, '0') {
        fc = ConsonantKind::Ordinary;
        v = VowelKind::Without;
    } else if starts_with_char(&cs, 'б') {
        fc = ConsonantKind::Ordinary;
        v = VowelKind::With;
    } else if starts_with_pair(&cs, 'ж', 'ь') {
        fc = ConsonantKind::Voiced;
        if contains_char(&cs, '0') {
            v = VowelKind::Without;
        } else {
            v = VowelKind::With;
        }
    } else if starts_with_char(&cs, 'д') {
        fc = ConsonantKind::Unvoiced;
        if contains_char(&cs, '0') {
            v = VowelKind::Without;
        } else {
            v = VowelKind::With;
        }
    }
    if ends_with_char(&cs, 'д') {
        lc = ConsonantKind::Ordinary;
    } else if ends_with_char(&cs, 'т') {
        lc = ConsonantKind::Velar;
    } else if ends_with_char(&cs, 'л') {
        lc = ConsonantKind::Labialized;
    } else if ends_with_triple(&cs, 'д', 'э', 'а') {
        lc = ConsonantKind::Ordinary;
        v = VowelKind::Alternating;
    } else {
        proof {
            assert(false);
        }
        lc = ConsonantKind::Ordinary;
    }
    (fc, v, lc)
}

/// Reads a template string such as "спр-лъэмыӏ-0-0д-э": "спр", the transitivity, the
/// preverb ("0" for none), the root form and the ending. A string that does not start with
/// "спр", or whose transitivity or ending stands for nothing, is refused.
pub fn create_template_from_string(s: String) -> (r: Option<TemplateDesc>)
    requires
        template_readable(s@),
    ensures
        r matches Some(d) ==> template_of(s@) == Some(d@),
        r is None ==> template_of(s@) is None,
{
    let segments = split_on(s.as_str(), '-');
    let ghost segs = split_text(s@, '-');
    proof {
        lemma_split_text_len(s@, '-');
    }
    assert(segments@[0]@ == segs[0]);
    // Every string must start with "спр". If this is not the case, the string is false.
    if !str_eq(segments[0].as_str(), "спр") {
        return None;
    }
    assert(segments@[1]@ == segs[1]);
    let transitivity = if str_eq(segments[1].as_str(), "лъэмыӏ") {
        Transitivity::Intransitive
    } else if str_eq(segments[1].as_str(), "лъэӏ") {
        Transitivity::Transitive
    } else {
        return None;
    };
    assert(segments@[2]@ == segs[2]);
    let preverb = if str_eq(segments[2].as_str(), "0") {
        None
    } else {
        match Preverb::try_from(segments[2].as_str()) {
            Ok(p) => Some(p),
            Err(_) => {
                proof {
                    assert(false);
                }
                None
            },
        }
    };
    let last = segments.len() - 1;
    assert(segments@[last as int]@ == segs.last());
    let ending = match read_ending(segments[last].as_str()) {
        Some(e) => e,
        None => {
            return None;
        },
    };
    assert(segments@[3]@ == segs[3]);
    let (fc, v, lc) = read_root_form(segments[3].as_str(), transitivity);
    let mut string = segments[3].clone();
    push_text(&mut string, segments[last].as_str());
    let template_desc = TemplateDesc {
        transitivity,
        preverb,
        stem: VerbStem {
            first_consonant: fc,
            vowel: v,
            last_consonant: lc,
            thematic_vowel: ending,
            string,
        },
        original_string: s,
    };
    Some(template_desc)
}

} // verus!
