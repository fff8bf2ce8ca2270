use vstd::prelude::*;

use crate::db::{language_views, Language};
use crate::dispatcher::{
    step_spec, DispatcherAction, DispatcherEvent, DispatcherState, GatewayCall, GatewayReply, Pending,
};
use crate::protocol::{DbResult, StorageError};

verus! {

/// The rows of a language table, in insertion order, and the id the next
/// insert will get.
pub type StoreView = (Seq<(i64, Seq<char>)>, i64);

/// Whether a table may be in this state: ids start at 1, grow with each
/// insert, and stay below the next id to assign.
pub open spec fn store_wf(s: StoreView) -> bool {
    &&& s.1 >= 1
    &&& forall|i: int| 0 <= i < s.0.len() ==> 1 <= #[trigger] s.0[i].0 < s.1
    &&& forall|i: int, j: int| 0 <= i < j < s.0.len() ==> #[trigger] s.0[i].0 < #[trigger] s.0[j].0
}

/// Whether an insert of `name` succeeds: names must be non-empty, and an id
/// must be left to assign.
pub open spec fn create_accepted(s: StoreView, name: Seq<char>) -> bool {
    name.len() > 0 && s.1 < i64::MAX
}

/// The table after an attempt to insert `name`: one row more when accepted,
/// unchanged otherwise.
pub open spec fn after_create(s: StoreView, name: Seq<char>) -> StoreView {
    if create_accepted(s, name) {
        (s.0.push((s.1, name)), (s.1 + 1) as i64)
    } else {
        s
    }
}

/// Whether a name is acceptable for a new language (the non-empty constraint).
pub fn validate_language_name(name: &str) -> (r: Result<(), StorageError>)
    ensures
        r is Ok <==> name@.len() > 0,
        r matches Err(e) ==> e.wf() && e.spec_message()@ == "language name must not be empty"@,
{
    if name.is_empty() {
        proof {
            reveal_strlit("language name must not be empty");
        }
        Err(StorageError::new(String::from_str("language name must not be empty")))
    } else {
        Ok(())
    }
}

/// A language table kept in memory, with the same rules as the database one.
pub struct LanguageStore {
    rows: Vec<Language>,
    next_id: i64,
}

impl View for LanguageStore {
    type V = StoreView;

    closed spec fn view(&self) -> StoreView {
        (language_views(self.rows@), self.next_id)
    }
}

impl LanguageStore {
    pub fn new() -> (r: LanguageStore)
        ensures
            r@ == (Seq::<(i64, Seq<char>)>::empty(), 1i64),
            store_wf(r@),
    {
        let r = LanguageStore { rows: Vec::new(), next_id: 1 };
        assert(language_views(r.rows@) =~= Seq::empty());
        r
    }

    /// Inserts a language named `name` with the next id.
    pub fn create_language(&mut self, name: &str) -> (r: Result<(), StorageError>)
        requires
            store_wf(old(self)@),
        ensures
            store_wf(final(self)@),
            final(self)@ == after_create(old(self)@, name@),
            r is Ok <==> create_accepted(old(self)@, name@),
            r matches Err(e) ==> e.wf(),
    {
        match validate_language_name(name) {
            Err(e) => Err(e),
            Ok(()) => {
                if self.next_id == i64::MAX {
                    Err(StorageError::new(String::from_str("no language id left to assign")))
                } else {
                    let id = self.next_id;
                    let ghost before = self@;
                    self.rows.push(Language::new(id, String::from_str(name)));
                    self.next_id = id + 1;
                    assert(self@.0 =~= before.0.push((id, name@)));
                    Ok(())
                }
            },
        }
    }

    /// All languages, in insertion order.
    pub fn list_languages(&self) -> (r: Vec<Language>)
        ensures
            language_views(r@) == self@.0,
    {
        let mut out: Vec<Language> = Vec::new();
        let mut i: usize = 0;
        while i < self.rows.len()
            invariant
                i <= self.rows@.len(),
                language_views(out@) =~= language_views(self.rows@).subrange(0, i as int),
            decreases self.rows@.len() - i,
        {
            let row = self.rows[i].duplicate();
            let ghost prev = out@;
            out.push(row);
            assert(language_views(out@) =~= language_views(prev).push(row@));
            i = i + 1;
        }
        assert(language_views(self.rows@).subrange(0, i as int) =~= language_views(self.rows@));
        out
    }

    /// Runs one storage call against this table.
    pub fn execute(&mut self, call: GatewayCall) -> (r: GatewayReply)
        requires
            store_wf(old(self)@),
        ensures
            store_wf(final(self)@),
            match call {
                GatewayCall::CreateLanguage { name } => {
                    &&& final(self)@ == after_create(old(self)@, name@)
                    &&& create_accepted(old(self)@, name@) ==> r is Created
                    &&& !create_accepted(old(self)@, name@) ==> (r matches GatewayReply::Failed { error } && error.wf())
                },
                GatewayCall::ListLanguages => {
                    &&& final(self)@ == old(self)@
                    &&& r matches GatewayReply::Listed { languages } && language_views(languages@) == old(self)@.0
                },
            },
    {
        match call {
            GatewayCall::CreateLanguage { name } => match self.create_language(name.as_str()) {
                Ok(()) => GatewayReply::Created,
                Err(error) => GatewayReply::Failed { error },
            },
            GatewayCall::ListLanguages => GatewayReply::Listed { languages: self.list_languages() },
        }
    }
}

/// Creating a language and then listing: the list is the earlier one with
/// exactly one new entry at its end, carrying that name and an id that no
/// earlier entry had.
pub proof fn lemma_create_then_list(s: StoreView, name: Seq<char>)
    requires
        store_wf(s),
        name.len() > 0,
        s.1 < i64::MAX,
    ensures
        create_accepted(s, name),
        after_create(s, name).0.len() == s.0.len() + 1,
        after_create(s, name).0.subrange(0, s.0.len() as int) == s.0,
        after_create(s, name).0.last().1 == name,
        forall|i: int| 0 <= i < s.0.len() ==> #[trigger] s.0[i].0 != after_create(s, name).0.last().0,
        store_wf(after_create(s, name)),
{
    assert(after_create(s, name).0.subrange(0, s.0.len() as int) =~= s.0);
}

/// An empty name is refused and leaves the table as it was, so a later
/// listing shows no new row; the worker turns the refusal into an `Error`
/// result and is idle again.
pub proof fn lemma_empty_name_rejected(s: StoreView, error: StorageError)
    requires
        store_wf(s),
        error.wf(),
    ensures
        !create_accepted(s, Seq::empty()),
        after_create(s, Seq::empty()) == s,
        ({
            let (next, action) = step_spec(
                DispatcherState::Executing { pending: Pending::AddLanguage },
                DispatcherEvent::Replied { reply: GatewayReply::Failed { error } },
            );
            &&& next == DispatcherState::Idle
            &&& action matches DispatcherAction::Respond { result: DbResult::Error { msg } }
            &&& msg@.len() > 0
        }),
{
}

} // verus!
