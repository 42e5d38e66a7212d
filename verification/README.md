# kbd_verbs

Conjugation tables of Kabardian verbs for a wiki, proved by Verus. Two calls into `std` are
trusted rather than proved: `String::push` (`text::push_char`) and the `{:?}` text of a
template description (`wiki::template::debug_text`).

- `src/ortho.rs`: the orthography: characters, vowels, consonants and combined letters, and
  reading a text into letters.
- `src/morpho.rs`: the grammatical categories of the verb (tense, polarity, case, number,
  person), person markers, preverbs, and the builders that lay out the morphemes of each
  verb form.
- `src/evaluation.rs`: writing the morphemes of a verb form as text, each in the shape its
  neighbours ask for.
- `src/wiki/template.rs`: reading a template string such as `спр-лъэмыӏ-0-0д-э` into a
  description of the verb, and writing it back.
- `src/wiki/table.rs` and `src/wiki.rs`: wiki tables and the page with all the tables of a
  template.
- `src/template.rs`: a simpler reading of template strings that sorts consonants into kinds.
- `src/text.rs`: small verified helpers on strings.
- `app/`: the program: prints the page of a template, or drives a browser through
  WebDriver to open the amaltus dictionary (`scrape`).
