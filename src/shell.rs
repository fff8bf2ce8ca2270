use vstd::prelude::*;

use crate::db::{language_views, Language};
use crate::protocol::{Command, DbResult};

verus! {

pub open spec fn digit_char(d: nat) -> char {
    if d == 0 { '0' }
    else if d == 1 { '1' }
    else if d == 2 { '2' }
    else if d == 3 { '3' }
    else if d == 4 { '4' }
    else if d == 5 { '5' }
    else if d == 6 { '6' }
    else if d == 7 { '7' }
    else if d == 8 { '8' }
    else { '9' }
}

/// The decimal digits of `n`, most significant first, with no leading zero.
pub open spec fn decimal(n: nat) -> Seq<char>
    decreases n,
{
    if n < 10 {
        seq![digit_char(n)]
    } else {
        decimal(n / 10) + seq![digit_char(n % 10)]
    }
}

fn digit_text(d: usize) -> (r: &'static str)
    requires
        d < 10,
    ensures
        r@ == seq![digit_char(d as nat)],
{
    proof {
        reveal_strlit("0");
        reveal_strlit("1");
        reveal_strlit("2");
        reveal_strlit("3");
        reveal_strlit("4");
        reveal_strlit("5");
        reveal_strlit("6");
        reveal_strlit("7");
        reveal_strlit("8");
        reveal_strlit("9");
    }
    if d == 0 { "0" }
    else if d == 1 { "1" }
    else if d == 2 { "2" }
    else if d == 3 { "3" }
    else if d == 4 { "4" }
    else if d == 5 { "5" }
    else if d == 6 { "6" }
    else if d == 7 { "7" }
    else if d == 8 { "8" }
    else { "9" }
}

/// Appends the decimal digits of `n` to `s`.
pub fn push_decimal(s: &mut String, n: usize)
    ensures
        final(s)@ == old(s)@ + decimal(n as nat),
    decreases n,
{
    if n >= 10 {
        push_decimal(s, n / 10);
    }
    s.append(digit_text(n % 10));
    assert(s@ =~= old(s)@ + decimal(n as nat));
}

/// The status line's content: what the most recent result said.
#[derive(Debug)]
pub enum Status {
    Blank,
    LanguageAdded,
    Fetched { count: usize },
    Failed { message: String },
}

/// The text shown in the status line.
pub open spec fn status_text(s: Status) -> Seq<char> {
    match s {
        Status::Blank => Seq::empty(),
        Status::LanguageAdded => "Language added"@,
        Status::Fetched { count } => "Fetched all languages: "@ + decimal(count as nat),
        Status::Failed { message } => "Error: "@ + message@,
    }
}

impl Status {
    pub fn text(&self) -> (r: String)
        ensures
            r@ == status_text(*self),
    {
        match self {
            Status::Blank => String::new(),
            Status::LanguageAdded => String::from_str("Language added"),
            Status::Fetched { count } => {
                let mut s = String::from_str("Fetched all languages: ");
                push_decimal(&mut s, *count);
                s
            },
            Status::Failed { message } => {
                let mut s = String::from_str("Error: ");
                s.append(message.as_str());
                s
            },
        }
    }

    /// Whether the status reports a failure (shown as an error).
    pub fn is_error(&self) -> (r: bool)
        ensures
            r == (*self is Failed),
    {
        match self {
            Status::Failed { .. } => true,
            _ => false,
        }
    }
}

/// The interface's view state, as a value: the cached languages, the text of
/// the new-language field, the status line, and whether the first listing
/// has been asked for.
pub struct ShellView {
    pub languages: Seq<(i64, Seq<char>)>,
    pub input: Seq<char>,
    pub status: Status,
    pub initialized: bool,
}

/// The view state after `result` is folded in: a listing replaces the cached
/// languages and reports their number, a confirmation reports the add, an
/// error is shown verbatim; nothing else changes.
pub open spec fn after_result(v: ShellView, result: DbResult) -> ShellView {
    match result {
        DbResult::AddLanguageResult => ShellView { status: Status::LanguageAdded, ..v },
        DbResult::GetAllLanguagesResult { lang_vec } => ShellView {
            languages: language_views(lang_vec@),
            status: Status::Fetched { count: lang_vec@.len() as usize },
            ..v
        },
        DbResult::Error { msg } => ShellView { status: Status::Failed { message: msg }, ..v },
    }
}

/// The state the interface renders from. It never touches storage: it turns
/// user actions into commands and folds results into what is shown.
pub struct ShellState {
    languages: Vec<Language>,
    new_language_to_add: String,
    status: Status,
    is_initialized: bool,
}

impl View for ShellState {
    type V = ShellView;

    closed spec fn view(&self) -> ShellView {
        ShellView {
            languages: language_views(self.languages@),
            input: self.new_language_to_add@,
            status: self.status,
            initialized: self.is_initialized,
        }
    }
}

impl ShellState {
    /// Nothing cached, an empty field, a blank status, and the first listing not yet asked for.
    pub fn new() -> (r: ShellState)
        ensures
            r@ == (ShellView {
                languages: Seq::empty(),
                input: Seq::empty(),
                status: Status::Blank,
                initialized: false,
            }),
    {
        let r = ShellState {
            languages: Vec::new(),
            new_language_to_add: String::new(),
            status: Status::Blank,
            is_initialized: false,
        };
        assert(language_views(r.languages@) =~= Seq::empty());
        r
    }

    /// Starts a frame: on the first frame only, returns the command that asks
    /// for the initial listing.
    pub fn begin_frame(&mut self) -> (r: Option<Command>)
        ensures
            final(self)@ == (ShellView { initialized: true, ..old(self)@ }),
            !old(self)@.initialized ==> r == Some(Command::GetAllLanguages),
            old(self)@.initialized ==> r is None,
    {
        if self.is_initialized {
            None
        } else {
            self.is_initialized = true;
            Some(Command::GetAllLanguages)
        }
    }

    /// Folds one result into the view state.
    pub fn apply_result(&mut self, result: DbResult)
        ensures
            final(self)@ == after_result(old(self)@, result),
    {
        match result {
            DbResult::AddLanguageResult => {
                self.status = Status::LanguageAdded;
            },
            DbResult::GetAllLanguagesResult { lang_vec } => {
                let count = lang_vec.len();
                self.languages = lang_vec;
                self.status = Status::Fetched { count };
            },
            DbResult::Error { msg } => {
                self.status = Status::Failed { message: msg };
            },
        }
    }

    /// One frame's decisions: the bootstrap command on the first frame, then
    /// the result polled this frame (at most one), if any, folded in.
    pub fn frame(&mut self, polled: Option<DbResult>) -> (r: Option<Command>)
        ensures
            !old(self)@.initialized ==> r == Some(Command::GetAllLanguages),
            old(self)@.initialized ==> r is None,
            final(self)@ == match polled {
                Some(result) => after_result(ShellView { initialized: true, ..old(self)@ }, result),
                None => ShellView { initialized: true, ..old(self)@ },
            },
    {
        let r = self.begin_frame();
        match polled {
            Some(result) => self.apply_result(result),
            None => {},
        }
        r
    }

    /// Whether the new-language field holds something to submit.
    pub fn can_submit(&self) -> (r: bool)
        ensures
            r == (self@.input.len() > 0),
    {
        !self.new_language_to_add.as_str().is_empty()
    }

    /// Submits the new-language field: when it is non-empty, returns the add
    /// command followed by a listing that refreshes the cache, and clears the
    /// field; when it is empty, returns no command and changes nothing.
    pub fn submit_new_language(&mut self) -> (r: Vec<Command>)
        ensures
            old(self)@.input.len() == 0 ==> r@.len() == 0 && final(self)@ == old(self)@,
            old(self)@.input.len() > 0 ==> {
                &&& r@.len() == 2
                &&& r@[0] matches Command::AddLanguage { name } && name@ == old(self)@.input
                &&& r@[1] == Command::GetAllLanguages
                &&& final(self)@ == (ShellView { input: Seq::empty(), ..old(self)@ })
            },
    {
        let mut r: Vec<Command> = Vec::new();
        if !self.new_language_to_add.as_str().is_empty() {
            let name = self.new_language_to_add.clone();
            self.new_language_to_add = String::new();
            r.push(Command::AddLanguage { name });
            r.push(Command::GetAllLanguages);
        }
        r
    }

    /// Records that a command could not be handed to the worker because its
    /// queue is closed.
    pub fn note_send_failure(&mut self)
        ensures
            final(self)@ == (ShellView { status: final(self)@.status, ..old(self)@ }),
            final(self)@.status matches Status::Failed { message } && message@ == "command queue closed"@,
    {
        self.status = Status::Failed { message: String::from_str("command queue closed") };
    }

    pub fn new_language_input(&self) -> (r: &str)
        ensures
            r@ == self@.input,
    {
        self.new_language_to_add.as_str()
    }

    pub fn set_new_language_input(&mut self, text: String)
        ensures
            final(self)@ == (ShellView { input: text@, ..old(self)@ }),
    {
        self.new_language_to_add = text;
    }

    pub fn languages(&self) -> (r: &Vec<Language>)
        ensures
            language_views(r@) == self@.languages,
    {
        &self.languages
    }

    pub fn status(&self) -> (r: &Status)
        ensures
            *r == self@.status,
    {
        &self.status
    }

    pub fn is_initialized(&self) -> (r: bool)
        ensures
            r == self@.initialized,
    {
        self.is_initialized
    }
}

} // verus!
