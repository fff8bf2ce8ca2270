use vstd::prelude::*;

verus! {

/// A language known to the store: a surrogate id assigned on insert, and a display name.
#[derive(Debug)]
pub struct Language {
    language_id: i64,
    name: String,
}

impl View for Language {
    type V = (i64, Seq<char>);

    closed spec fn view(&self) -> (i64, Seq<char>) {
        (self.language_id, self.name@)
    }
}

/// The views of a sequence of languages, position by position.
pub open spec fn language_views(v: Seq<Language>) -> Seq<(i64, Seq<char>)> {
    v.map_values(|l: Language| l@)
}

impl Language {
    /// A language with the given id and name, as read back from storage.
    pub fn new(language_id: i64, name: String) -> (r: Language)
        ensures
            r@ == (language_id, name@),
    {
        Language { language_id, name }
    }

    pub fn name(&self) -> (r: &str)
        ensures
            r@ == self@.1,
    {
        self.name.as_str()
    }

    pub fn language_id(&self) -> (r: i64)
        ensures
            r == self@.0,
    {
        self.language_id
    }

    /// A copy with the same id and name.
    pub fn duplicate(&self) -> (r: Language)
        ensures
            r@ == self@,
    {
        Language { language_id: self.language_id, name: self.name.clone() }
    }
}

impl PartialEq for Language {
    fn eq(&self, other: &Language) -> (r: bool) {
        self.language_id == other.language_id && self.name == other.name
    }
}

impl vstd::std_specs::cmp::PartialEqSpecImpl for Language {
    open spec fn obeys_eq_spec() -> bool {
        true
    }

    open spec fn eq_spec(&self, other: &Language) -> bool {
        self@ == other@
    }
}

/// A source text in some language.
#[derive(Debug)]
pub struct Text {
    language_id: i64,
    title: String,
    content: String,
    source_url: String,
    audio_url: String,
}

impl View for Text {
    /// (language id, title, content, source url, audio url)
    type V = (i64, Seq<char>, Seq<char>, Seq<char>, Seq<char>);

    closed spec fn view(&self) -> Self::V {
        (self.language_id, self.title@, self.content@, self.source_url@, self.audio_url@)
    }
}

impl Text {
    /// A text of `language` with the given title and content, and no source or audio url.
    pub fn new(language: &Language, title: &str, content: &str) -> (r: Text)
        ensures
            r@ == (language@.0, title@, content@, Seq::<char>::empty(), Seq::<char>::empty()),
    {
        Text {
            language_id: language.language_id,
            title: String::from_str(title),
            content: String::from_str(content),
            source_url: String::new(),
            audio_url: String::new(),
        }
    }

    pub fn language_id(&self) -> (r: i64)
        ensures
            r == self@.0,
    {
        self.language_id
    }

    pub fn title(&self) -> (r: &str)
        ensures
            r@ == self@.1,
    {
        self.title.as_str()
    }

    pub fn content(&self) -> (r: &str)
        ensures
            r@ == self@.2,
    {
        self.content.as_str()
    }

    pub fn source_url(&self) -> (r: &str)
        ensures
            r@ == self@.3,
    {
        self.source_url.as_str()
    }

    pub fn audio_url(&self) -> (r: &str)
        ensures
            r@ == self@.4,
    {
        self.audio_url.as_str()
    }
}

/// The characters of an optional string.
pub open spec fn option_view(s: Option<String>) -> Option<Seq<char>> {
    match s {
        Some(t) => Some(t@),
        None => None,
    }
}

/// A word of some language, with its translation, learning grade and notes.
#[derive(Debug)]
pub struct Word {
    word_id: i64,
    word: String,
    pub translation: String,
    language_id: i64,
    pub learning_grade: i64,
    pub notes: Option<String>,
}

impl View for Word {
    /// (word id, word, translation, language id, learning grade, notes)
    type V = (i64, Seq<char>, Seq<char>, i64, i64, Option<Seq<char>>);

    closed spec fn view(&self) -> Self::V {
        (
            self.word_id,
            self.word@,
            self.translation@,
            self.language_id,
            self.learning_grade,
            option_view(self.notes),
        )
    }
}

impl Word {
    /// A word of `language` not yet stored (id -1), with an empty translation,
    /// grade 0 and no notes.
    pub fn new(word: &str, language: Language) -> (r: Word)
        ensures
            r@ == (-1i64, word@, Seq::<char>::empty(), language@.0, 0i64, None::<Seq<char>>),
    {
        Word {
            word_id: -1,
            word: String::from_str(word),
            translation: String::new(),
            language_id: language.language_id,
            learning_grade: 0,
            notes: None,
        }
    }

    /// A word as read back from storage.
    pub fn from_row(
        word_id: i64,
        word: String,
        translation: String,
        language_id: i64,
        learning_grade: i64,
        notes: Option<String>,
    ) -> (r: Word)
        ensures
            r@ == (word_id, word@, translation@, language_id, learning_grade, option_view(notes)),
    {
        Word { word_id, word, translation, language_id, learning_grade, notes }
    }

    pub fn word(&self) -> (r: &str)
        ensures
            r@ == self@.1,
    {
        self.word.as_str()
    }

    pub fn word_id(&self) -> (r: i64)
        ensures
            r == self@.0,
    {
        self.word_id
    }

    pub fn language_id(&self) -> (r: i64)
        ensures
            r == self@.3,
    {
        self.language_id
    }
}

} // verus!
