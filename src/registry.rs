//! The session registry: at most one session per identifier.
use vstd::prelude::*;
use crate::json::str_eq;
use crate::types::AppError;

verus! {

/// The session stored under `id`: the first entry with that identifier.
pub open spec fn lookup_in<S>(es: Seq<(String, S)>, id: Seq<char>) -> Option<S>
    decreases es.len(),
{
    if es.len() == 0 {
        None
    } else if es[0].0@ == id {
        Some(es[0].1)
    } else {
        lookup_in(es.drop_first(), id)
    }
}

pub open spec fn ids_unique<S>(es: Seq<(String, S)>) -> bool {
    forall|i: int, j: int| 0 <= i < j < es.len() ==> (#[trigger] es[i]).0@ != (#[trigger] es[j]).0@
}

proof fn lemma_lookup_absent<S>(es: Seq<(String, S)>, id: Seq<char>)
    ensures
        (lookup_in(es, id) is None) == (forall|i: int| 0 <= i < es.len() ==> (#[trigger] es[i]).0@ != id),
    decreases es.len(),
{
    if es.len() > 0 {
        lemma_lookup_absent(es.drop_first(), id);
        if lookup_in(es, id) is None {
            assert forall|i: int| 0 <= i < es.len() implies (#[trigger] es[i]).0@ != id by {
                if i > 0 {
                    assert(es[i] == es.drop_first()[i - 1]);
                }
            }
        } else if es[0].0@ != id {
            let j = choose|j: int| 0 <= j < es.drop_first().len() && (#[trigger] es.drop_first()[j]).0@ == id;
            assert(es[j + 1] == es.drop_first()[j]);
        }
    }
}

proof fn lemma_lookup_push<S>(es: Seq<(String, S)>, e: (String, S), id: Seq<char>)
    ensures
        lookup_in(es.push(e), id) == match lookup_in(es, id) {
            Some(v) => Some(v),
            None => if e.0@ == id {
                Some(e.1)
            } else {
                None
            },
        },
    decreases es.len(),
{
    let p = es.push(e);
    if es.len() > 0 {
        assert(p[0] == es[0]);
        assert(p.drop_first() =~= es.drop_first().push(e));
        lemma_lookup_push(es.drop_first(), e, id);
        if es[0].0@ != id {
            assert(lookup_in(p, id) == lookup_in(p.drop_first(), id));
            assert(lookup_in(es, id) == lookup_in(es.drop_first(), id));
        }
    } else {
        assert(p[0] == e);
        assert(p.drop_first() =~= Seq::<(String, S)>::empty());
        assert(lookup_in(es, id) is None);
        if e.0@ != id {
            assert(lookup_in(p, id) == lookup_in(p.drop_first(), id));
        }
    }
}

proof fn lemma_lookup_remove<S>(es: Seq<(String, S)>, i: int, id: Seq<char>)
    requires
        0 <= i < es.len(),
        es[i].0@ != id,
    ensures
        lookup_in(es.remove(i), id) == lookup_in(es, id),
    decreases i,
{
    if i == 0 {
        assert(es.remove(0) =~= es.drop_first());
    } else {
        assert(es.remove(i)[0] == es[0]);
        assert(es.remove(i).drop_first() =~= es.drop_first().remove(i - 1));
        lemma_lookup_remove(es.drop_first(), i - 1, id);
    }
}

/// Relies on `uuid::Uuid::new_v4` and its `to_string`: a random identifier in
/// hyphenated form. Nothing is promised of its value.
#[verifier::external_body]
fn new_session_id() -> String {
    uuid::Uuid::new_v4().to_string()
}

/// Sessions by identifier.
pub struct SessionRegistry<S> {
    entries: Vec<(String, S)>,
}

impl<S> SessionRegistry<S> {
    pub closed spec fn lookup(&self, id: Seq<char>) -> Option<S> {
        lookup_in(self.entries@, id)
    }

    pub closed spec fn spec_len(&self) -> nat {
        self.entries@.len()
    }

    /// Each identifier stands for at most one session.
    pub closed spec fn wf(&self) -> bool {
        ids_unique(self.entries@)
    }

    pub fn new() -> (r: SessionRegistry<S>)
        ensures
            r.wf(),
            r.spec_len() == 0,
            forall|id: Seq<char>| #[trigger] r.lookup(id) is None,
    {
        SessionRegistry { entries: Vec::new() }
    }

    pub fn len(&self) -> (r: usize)
        ensures
            r == self.spec_len(),
    {
        self.entries.len()
    }

    fn position(&self, id: &str) -> (r: Option<usize>)
        ensures
            match r {
                Some(i) => i < self.entries@.len() && self.entries@[i as int].0@ == id@
                    && self.lookup(id@) == Some(self.entries@[i as int].1),
                None => self.lookup(id@) is None,
            },
    {
        let ghost es = self.entries@;
        let mut i: usize = 0;
        assert(es.subrange(0, es.len() as int) =~= es);
        while i < self.entries.len()
            invariant
                es == self.entries@,
                i <= es.len(),
                lookup_in(es, id@) == lookup_in(es.subrange(i as int, es.len() as int), id@),
            decreases es.len() - i,
        {
            let ghost rest = es.subrange(i as int, es.len() as int);
            assert(rest.drop_first() =~= es.subrange(i + 1, es.len() as int));
            assert(rest[0] == es[i as int]);
            if str_eq(self.entries[i].0.as_str(), id) {
                return Some(i);
            }
            i = i + 1;
        }
        None
    }

    pub fn contains(&self, id: &str) -> (r: bool)
        ensures
            r == (self.lookup(id@) is Some),
    {
        self.position(id).is_some()
    }

    /// The session under `id`, if any.
    pub fn get(&self, id: &str) -> (r: Option<&S>)
        ensures
            match r {
                Some(s) => self.lookup(id@) == Some(*s),
                None => self.lookup(id@) is None,
            },
    {
        match self.position(id) {
            Some(i) => Some(&self.entries[i].1),
            None => None,
        }
    }

    /// The session under `id`, or `SessionNotFound` naming `id`.
    pub fn require(&self, id: &str) -> (r: Result<&S, AppError>)
        ensures
            match r {
                Ok(s) => self.lookup(id@) == Some(*s),
                Err(e) => self.lookup(id@) is None && (e matches AppError::SessionNotFound(m) && m@ == id@),
            },
    {
        match self.get(id) {
            Some(s) => Ok(s),
            None => Err(AppError::SessionNotFound(String::from_str(id))),
        }
    }

    /// Stores `session` under `id`; where `id` is taken the registry is left
    /// as it was and the session is handed back.
    pub fn insert(&mut self, id: String, session: S) -> (r: Result<(), S>)
        requires
            old(self).wf(),
        ensures
            final(self).wf(),
            match r {
                Ok(()) => old(self).lookup(id@) is None && final(self).lookup(id@) == Some(session)
                    && final(self).spec_len() == old(self).spec_len() + 1,
                Err(s) => old(self).lookup(id@) is Some && s == session && final(self).spec_len()
                    == old(self).spec_len(),
            },
            forall|k: Seq<char>| k != id@ ==> #[trigger] final(self).lookup(k) == old(self).lookup(k),
            r is Err ==> final(self).lookup(id@) == old(self).lookup(id@),
    {
        if self.contains(id.as_str()) {
            return Err(session);
        }
        let ghost es = self.entries@;
        let ghost e = (id, session);
        proof {
            lemma_lookup_absent(es, id@);
        }
        self.entries.push((id, session));
        proof {
            assert(self.entries@ == es.push(e));
            assert forall|k: Seq<char>| #[trigger] lookup_in(self.entries@, k) == match lookup_in(es, k) {
                Some(v) => Some(v),
                None => if e.0@ == k { Some(e.1) } else { None },
            } by {
                lemma_lookup_push(es, e, k);
            }
            assert forall|i: int, j: int| 0 <= i < j < self.entries@.len() implies (#[trigger] self.entries@[i]).0@ != (#[trigger] self.entries@[j]).0@ by {
                if j == es.len() {
                    assert(es[i] == self.entries@[i]);
                } else {
                    assert(es[i] == self.entries@[i] && es[j] == self.entries@[j]);
                }
            }
        }
        Ok(())
    }

    /// Stores `session` under a fresh random identifier and returns it. Where
    /// the identifier drawn is taken already, nothing is stored and the
    /// identifier and the session are handed back; on an empty registry the
    /// session is always stored.
    pub fn create(&mut self, session: S) -> (r: Result<String, (String, S)>)
        requires
            old(self).wf(),
        ensures
            final(self).wf(),
            old(self).spec_len() == 0 ==> r is Ok,
            match r {
                Ok(id) => old(self).lookup(id@) is None && final(self).lookup(id@) == Some(session)
                    && final(self).spec_len() == old(self).spec_len() + 1
                    && forall|k: Seq<char>| k != id@ ==> #[trigger] final(self).lookup(k) == old(self).lookup(k),
                Err((id, s)) => s == session && old(self).lookup(id@) is Some
                    && final(self).spec_len() == old(self).spec_len()
                    && forall|k: Seq<char>| #[trigger] final(self).lookup(k) == old(self).lookup(k),
            },
    {
        let id = new_session_id();
        let key = id.clone();
        proof {
            if self.entries@.len() == 0 {
                assert(lookup_in(self.entries@, id@) is None);
            }
        }
        match self.insert(id, session) {
            Ok(()) => Ok(key),
            Err(s) => Err((key, s)),
        }
    }

    /// Removes the session under `id`; whether there was one.
    pub fn remove(&mut self, id: &str) -> (r: bool)
        requires
            old(self).wf(),
        ensures
            final(self).wf(),
            r == (old(self).lookup(id@) is Some),
            final(self).lookup(id@) is None,
            forall|k: Seq<char>| k != id@ ==> #[trigger] final(self).lookup(k) == old(self).lookup(k),
            final(self).spec_len() == old(self).spec_len() - if r { 1int } else { 0int },
    {
        match self.position(id) {
            Some(i) => {
                let ghost es = self.entries@;
                let _gone = self.entries.remove(i);
                proof {
                    assert(self.entries@ == es.remove(i as int));
                    assert forall|k: Seq<char>| k != id@ implies #[trigger] lookup_in(self.entries@, k) == lookup_in(es, k) by {
                        lemma_lookup_remove(es, i as int, k);
                    }
                    assert forall|j: int| 0 <= j < self.entries@.len() implies (#[trigger] self.entries@[j]).0@ != id@ by {
                        if j < i {
                            assert(self.entries@[j] == es[j]);
                        } else {
                            assert(self.entries@[j] == es[j + 1]);
                        }
                    }
                    lemma_lookup_absent(self.entries@, id@);
                    assert forall|a: int, b: int| 0 <= a < b < self.entries@.len() implies (#[trigger] self.entries@[a]).0@ != (#[trigger] self.entries@[b]).0@ by {
                        let a2 = if a < i { a } else { a + 1 };
                        let b2 = if b < i { b } else { b + 1 };
                        assert(self.entries@[a] == es[a2] && self.entries@[b] == es[b2]);
                    }
                }
                true
            },
            None => false,
        }
    }

    /// Removes every session; how many there were.
    pub fn clear(&mut self) -> (r: usize)
        ensures
            final(self).wf(),
            r == old(self).spec_len(),
            final(self).spec_len() == 0,
            forall|k: Seq<char>| #[trigger] final(self).lookup(k) is None,
    {
        let n = self.entries.len();
        self.entries = Vec::new();
        n
    }
}

} // verus!
