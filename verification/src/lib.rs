//! Conjugation tables of Kabardian verbs: the orthography, the morphology of the verb,
//! the writing of verb forms and the wiki tables of a verb template.
pub mod evaluation;
pub mod morpho;
pub mod ortho;
pub mod template;
pub mod text;
pub mod wiki;
