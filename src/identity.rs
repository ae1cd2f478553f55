use vstd::prelude::*;

use crate::error::ErrorKind;

verus! {

/// A sender ("from") identity that the user can pick when composing.
#[derive(Debug, Clone, PartialEq, Eq)]
pub struct FromEmail {
    pub id: String,
    pub label: String,
    pub address: String,
    pub is_default: bool,
}

impl FromEmail {
    /// A field-by-field copy.
    pub fn duplicate(&self) -> (r: FromEmail)
        ensures
            r == *self,
    {
        FromEmail {
            id: self.id.clone(),
            label: self.label.clone(),
            address: self.address.clone(),
            is_default: self.is_default,
        }
    }
}

/// The identity with its default flag off.
pub open spec fn cleared(e: FromEmail) -> FromEmail {
    FromEmail { id: e.id, label: e.label, address: e.address, is_default: false }
}

/// Every identity of the list with its default flag off, order kept.
pub open spec fn defaults_cleared(s: Seq<FromEmail>) -> Seq<FromEmail> {
    s.map_values(|e: FromEmail| cleared(e))
}

/// Some identity of the list carries this id.
pub open spec fn has_id(s: Seq<FromEmail>, id: Seq<char>) -> bool {
    exists|i: int| 0 <= i < s.len() && s[i].id@ == id
}

/// `k` is the position of the first identity that carries this id.
pub open spec fn is_first_with_id(s: Seq<FromEmail>, id: Seq<char>, k: int) -> bool {
    &&& 0 <= k < s.len()
    &&& s[k].id@ == id
    &&& forall|j: int| 0 <= j < k ==> s[j].id@ != id
}

/// The position of the first identity that carries this id (meaningful when `has_id`).
pub open spec fn first_with_id(s: Seq<FromEmail>, id: Seq<char>) -> int {
    choose|k: int| is_first_with_id(s, id, k)
}

/// Exactly the identity at `k` is marked default.
pub open spec fn sole_default(s: Seq<FromEmail>, k: int) -> bool {
    &&& 0 <= k < s.len()
    &&& s[k].is_default
    &&& forall|j: int| 0 <= j < s.len() && j != k ==> !s[j].is_default
}

/// The list after appending `e`: when `e` is the new default, every other
/// identity loses its default flag first.
pub open spec fn list_after_create(s: Seq<FromEmail>, e: FromEmail) -> Seq<FromEmail> {
    if e.is_default {
        defaults_cleared(s).push(e)
    } else {
        s.push(e)
    }
}

/// The identity with the supplied fields replaced and the others kept.
pub open spec fn edited(
    e: FromEmail,
    label: Option<String>,
    address: Option<String>,
    is_default: Option<bool>,
) -> FromEmail {
    FromEmail {
        id: e.id,
        label: match label {
            Some(l) => l,
            None => e.label,
        },
        address: match address {
            Some(a) => a,
            None => e.address,
        },
        is_default: match is_default {
            Some(d) => d,
            None => e.is_default,
        },
    }
}

/// The list after editing the identity at `k`: when it is made the default,
/// every identity loses its default flag first.
pub open spec fn list_after_update(
    s: Seq<FromEmail>,
    k: int,
    label: Option<String>,
    address: Option<String>,
    is_default: Option<bool>,
) -> Seq<FromEmail> {
    let base = if is_default == Some(true) {
        defaults_cleared(s)
    } else {
        s
    };
    base.update(k, edited(base[k], label, address, is_default))
}

/// The list without the identities that carry this id, order kept.
pub open spec fn without_id(s: Seq<FromEmail>, id: Seq<char>) -> Seq<FromEmail>
    decreases s.len(),
{
    if s.len() == 0 {
        s
    } else {
        let rest = without_id(s.drop_last(), id);
        if s.last().id@ == id {
            rest
        } else {
            rest.push(s.last())
        }
    }
}

/// A copy of the list, identity by identity.
pub fn copy_list(v: &Vec<FromEmail>) -> (r: Vec<FromEmail>)
    ensures
        r@ == v@,
{
    let mut r: Vec<FromEmail> = Vec::new();
    let mut i: usize = 0;
    while i < v.len()
        invariant
            i <= v.len(),
            r@ == v@.take(i as int),
        decreases v.len() - i,
    {
        r.push(v[i].duplicate());
        assert(v@.take(i as int + 1) == v@.take(i as int).push(v@[i as int]));
        i += 1;
    }
    assert(v@.take(v.len() as int) == v@);
    r
}

/// Turns the default flag off on every identity, keeping everything else.
pub fn clear_defaults(emails: &mut Vec<FromEmail>)
    ensures
        final(emails)@ == defaults_cleared(old(emails)@),
{
    let mut i: usize = 0;
    while i < emails.len()
        invariant
            i <= emails.len(),
            emails@.len() == old(emails)@.len(),
            forall|j: int| 0 <= j < i ==> emails@[j] == cleared(old(emails)@[j]),
            forall|j: int| i <= j < emails@.len() ==> emails@[j] == old(emails)@[j],
        decreases emails.len() - i,
    {
        let mut e = emails[i].duplicate();
        e.is_default = false;
        emails.set(i, e);
        i += 1;
    }
    assert(emails@ == defaults_cleared(old(emails)@));
}

/// Appends the identity `(id, label, address, is_default)`; when it is the
/// new default, the others lose their flag first.
pub fn insert_from_email(
    emails: &mut Vec<FromEmail>,
    id: String,
    label: String,
    address: String,
    is_default: bool,
) -> (r: FromEmail)
    ensures
        r == (FromEmail { id, label, address, is_default }),
        final(emails)@ == list_after_create(old(emails)@, r),
{
    if is_default {
        clear_defaults(emails);
    }
    let e = FromEmail { id, label, address, is_default };
    let r = e.duplicate();
    emails.push(e);
    r
}

/// The position of the first identity that carries `id`, if any.
pub fn find_from_email(emails: &Vec<FromEmail>, id: &String) -> (r: Option<usize>)
    ensures
        r is None <==> !has_id(emails@, id@),
        r is Some ==> is_first_with_id(emails@, id@, r->0 as int),
        r is Some ==> r->0 as int == first_with_id(emails@, id@),
{
    let mut i: usize = 0;
    while i < emails.len()
        invariant
            i <= emails.len(),
            forall|j: int| 0 <= j < i ==> emails@[j].id@ != id@,
        decreases emails.len() - i,
    {
        if emails[i].id == *id {
            proof {
                let s = emails@;
                assert(is_first_with_id(s, id@, i as int));
                let k = first_with_id(s, id@);
                assert(is_first_with_id(s, id@, k));
                assert(k == i as int) by {
                    if k < i as int {
                        assert(s[k].id@ != id@);
                    } else if k > i as int {
                        assert(s[i as int].id@ != id@);
                    }
                }
            }
            return Some(i);
        }
        i += 1;
    }
    None
}

/// Edits the first identity that carries `id`, replacing the fields that are
/// supplied; when it is made the default, every identity loses its flag
/// first. With no such identity the list is left as it was.
pub fn modify_from_email(
    emails: &mut Vec<FromEmail>,
    id: &String,
    label: Option<String>,
    address: Option<String>,
    is_default: Option<bool>,
) -> (r: Result<FromEmail, ErrorKind>)
    ensures
        r is Err <==> !has_id(old(emails)@, id@),
        r is Err ==> final(emails)@ == old(emails)@,
        r is Err ==> r->Err_0 is NotFound && r->Err_0->NotFound_id@ == id@,
        r is Ok ==> final(emails)@ == list_after_update(
            old(emails)@,
            first_with_id(old(emails)@, id@),
            label,
            address,
            is_default,
        ),
        r is Ok ==> r->Ok_0 == final(emails)@[first_with_id(old(emails)@, id@)],
{
    let found = find_from_email(emails, id);
    match found {
        None => Err(ErrorKind::NotFound { id: id.clone() }),
        Some(k) => {
            proof {
                assert(k < old(emails)@.len());
            }
            if is_default == Some(true) {
                clear_defaults(emails);
            }
            let mut e = emails[k].duplicate();
            match label {
                Some(l) => {
                    e.label = l;
                },
                None => {},
            }
            match address {
                Some(a) => {
                    e.address = a;
                },
                None => {},
            }
            match is_default {
                Some(d) => {
                    e.is_default = d;
                },
                None => {},
            }
            let r = e.duplicate();
            emails.set(k, e);
            Ok(r)
        },
    }
}

/// Removes every identity that carries `id`, keeping the order of the rest.
/// Fails with `NotFound` when nothing was removed.
pub fn remove_from_email(emails: &mut Vec<FromEmail>, id: &String) -> (r: Result<(), ErrorKind>)
    ensures
        final(emails)@ == without_id(old(emails)@, id@),
        r is Err <==> !has_id(old(emails)@, id@),
        r is Err ==> r->Err_0 is NotFound && r->Err_0->NotFound_id@ == id@,
{
    let ghost s = emails@;
    let mut kept: Vec<FromEmail> = Vec::new();
    let mut removed: bool = false;
    let mut i: usize = 0;
    while i < emails.len()
        invariant
            i <= emails.len(),
            emails@ == s,
            kept@ == without_id(s.take(i as int), id@),
            removed <==> has_id(s.take(i as int), id@),
        decreases emails.len() - i,
    {
        proof {
            let t = s.take(i as int + 1);
            assert(t.drop_last() == s.take(i as int));
            assert(t.last() == s[i as int]);
            if has_id(s.take(i as int), id@) {
                let w = choose|w: int| 0 <= w < i && s.take(i as int)[w].id@ == id@;
                assert(t[w] == s.take(i as int)[w]);
            }
            if has_id(t, id@) && t.last().id@ != id@ {
                let w = choose|w: int| 0 <= w < i + 1 && t[w].id@ == id@;
                assert(s.take(i as int)[w] == t[w]);
            }
        }
        if emails[i].id == *id {
            removed = true;
        } else {
            kept.push(emails[i].duplicate());
        }
        i += 1;
    }
    assert(s.take(s.len() as int) == s);
    *emails = kept;
    if removed {
        Ok(())
    } else {
        Err(ErrorKind::NotFound { id: id.clone() })
    }
}

/// Creating an identity marked default leaves it the only default of the
/// list, whatever the list held before.
pub proof fn lemma_created_default_is_sole(s: Seq<FromEmail>, e: FromEmail)
    requires
        e.is_default,
    ensures
        sole_default(list_after_create(s, e), s.len() as int),
{
    let t = list_after_create(s, e);
    assert forall|j: int| 0 <= j < t.len() && j != s.len() as int implies !t[j].is_default by {
        assert(t[j] == cleared(s[j]));
    }
}

/// Making an existing identity the default leaves it the only default of
/// the list, whatever the list held before.
pub proof fn lemma_updated_default_is_sole(
    s: Seq<FromEmail>,
    k: int,
    label: Option<String>,
    address: Option<String>,
)
    requires
        0 <= k < s.len(),
    ensures
        sole_default(list_after_update(s, k, label, address, Some(true)), k),
{
    let t = list_after_update(s, k, label, address, Some(true));
    assert forall|j: int| 0 <= j < t.len() && j != k implies !t[j].is_default by {
        assert(t[j] == cleared(s[j]));
    }
}

/// Deleting an id that no identity carries leaves the list unchanged.
pub proof fn lemma_remove_unknown_keeps_list(s: Seq<FromEmail>, id: Seq<char>)
    requires
        !has_id(s, id),
    ensures
        without_id(s, id) == s,
    decreases s.len(),
{
    if s.len() > 0 {
        let d = s.drop_last();
        assert(!has_id(d, id)) by {
            if has_id(d, id) {
                let w = choose|w: int| 0 <= w < d.len() && d[w].id@ == id;
                assert(s[w] == d[w]);
            }
        }
        lemma_remove_unknown_keeps_list(d, id);
        assert(s.last() == s[s.len() - 1]);
        assert(d.push(s.last()) == s);
    }
}

/// Editing only the label of an identity keeps its id, address and default
/// flag, and every other identity of the list.
pub proof fn lemma_label_only_update(s: Seq<FromEmail>, k: int, label: String)
    requires
        0 <= k < s.len(),
    ensures
        list_after_update(s, k, Some(label), None, None).len() == s.len(),
        list_after_update(s, k, Some(label), None, None)[k] == (FromEmail {
            id: s[k].id,
            label,
            address: s[k].address,
            is_default: s[k].is_default,
        }),
        forall|j: int|
            0 <= j < s.len() && j != k ==> list_after_update(s, k, Some(label), None, None)[j]
                == s[j],
{
}

} // verus!
