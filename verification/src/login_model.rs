//! Login vault entries: the stored record, the partial-update record, the
//! merge between them, the ownership check the handlers run, and the
//! comma-separated codec under which the backing store keeps the record's
//! list fields.
use vstd::prelude::*;

use crate::errors::APIError;

verus! {

/// A stored login entry.
#[derive(Debug)]
pub struct Login {
    pub id: i32,
    pub used_at: String,
    pub username: String,
    pub password: String,
    pub note: String,
    pub email: String,
    pub linked_websites: Vec<String>,
    pub collections: Vec<String>,
}

/// A partial update of a login entry: absent fields keep their stored
/// value.
#[derive(Debug)]
pub struct LoginDto {
    pub username: Option<String>,
    pub note: Option<String>,
    pub password: Option<String>,
    pub email: Option<String>,
    pub linked_websites: Option<Vec<String>>,
    pub collections: Option<Vec<String>>,
}

/// A batch of login ids, as a bulk delete receives them.
#[derive(Debug)]
pub struct Collection {
    pub ids: Vec<i32>,
}

impl Login {
    /// Merge a partial update into this record: every present field
    /// replaces the stored one, absent fields and the identity fields stay.
    pub fn apply_update(self, update: LoginDto) -> (r: Login)
        ensures
            r.id == self.id,
            r.used_at == self.used_at,
            r.username == (match update.username {
                Some(u) => u,
                None => self.username,
            }),
            r.note == (match update.note {
                Some(v) => v,
                None => self.note,
            }),
            r.password == (match update.password {
                Some(v) => v,
                None => self.password,
            }),
            r.email == (match update.email {
                Some(v) => v,
                None => self.email,
            }),
            r.linked_websites == (match update.linked_websites {
                Some(v) => v,
                None => self.linked_websites,
            }),
            r.collections == (match update.collections {
                Some(v) => v,
                None => self.collections,
            }),
    {
        let Login {
            id,
            used_at,
            mut username,
            mut password,
            mut note,
            mut email,
            mut linked_websites,
            mut collections,
        } = self;
        if let Some(v) = update.password {
            password = v;
        }
        if let Some(v) = update.note {
            note = v;
        }
        if let Some(v) = update.email {
            email = v;
        }
        if let Some(v) = update.username {
            username = v;
        }
        if let Some(v) = update.linked_websites {
            linked_websites = v;
        }
        if let Some(v) = update.collections {
            collections = v;
        }
        Login { id, used_at, username, password, note, email, linked_websites, collections }
    }
}

/// Reject a login operation unless the entry belongs to the requesting
/// user.
pub fn validate_user_owns_login(user_id: i32, login_owner: i32) -> (r: Result<(), APIError>)
    ensures
        r is Ok <==> login_owner == user_id,
        r matches Err(e) ==> e matches APIError::Unauthorized(m) && m@
            == "Login doesn't belong to user."@,
{
    if login_owner != user_id {
        return Err(APIError::Unauthorized("Login doesn't belong to user.".to_owned()));
    }
    Ok(())
}

/// The comma-joined text under which the store keeps a list of items.
pub open spec fn spec_join_commas(items: Seq<Seq<char>>) -> Seq<char>
    decreases items.len(),
{
    if items.len() == 0 {
        Seq::<char>::empty()
    } else if items.len() == 1 {
        items[0]
    } else {
        items[0] + seq![','] + spec_join_commas(items.drop_first())
    }
}

/// The items a comma-joined text splits back into: one (possibly empty)
/// item between each pair of commas.
pub open spec fn spec_split_commas(s: Seq<char>) -> Seq<Seq<char>>
    decreases s.len(),
{
    if s.len() == 0 {
        seq![Seq::<char>::empty()]
    } else if s.last() == ',' {
        spec_split_commas(s.drop_last()).push(Seq::<char>::empty())
    } else {
        let rest = spec_split_commas(s.drop_last());
        rest.update(rest.len() - 1, rest.last().push(s.last()))
    }
}

proof fn lemma_split_commas_nonempty(s: Seq<char>)
    ensures
        spec_split_commas(s).len() >= 1,
    decreases s.len(),
{
    if s.len() > 0 {
        lemma_split_commas_nonempty(s.drop_last());
    }
}

proof fn lemma_join_commas_push(items: Seq<Seq<char>>, item: Seq<char>)
    ensures
        spec_join_commas(items.push(item)) == (if items.len() == 0 {
            item
        } else {
            spec_join_commas(items) + seq![','] + item
        }),
    decreases items.len(),
{
    if items.len() == 0 {
        assert(items.push(item).len() == 1);
        assert(items.push(item)[0] == item);
    } else {
        assert(items.push(item).drop_first() =~= items.drop_first().push(item));
        lemma_join_commas_push(items.drop_first(), item);
        if items.len() == 1 {
            assert(spec_join_commas(items) == items[0]);
            assert(spec_join_commas(items.push(item)) == items[0] + seq![','] + item);
        } else {
            assert(spec_join_commas(items.push(item)) == items[0] + seq![','] + (
            spec_join_commas(items.drop_first()) + seq![','] + item));
            assert(items[0] + seq![','] + (spec_join_commas(items.drop_first()) + seq![','] + item)
                =~= (items[0] + seq![','] + spec_join_commas(items.drop_first())) + seq![',']
                + item);
        }
    }
}

/// Whether a piece of text is free of the separator.
pub open spec fn comma_free(s: Seq<char>) -> bool {
    forall|j: int| 0 <= j < s.len() ==> s[j] != ','
}

proof fn lemma_split_comma_free(s: Seq<char>)
    requires
        comma_free(s),
    ensures
        spec_split_commas(s) == seq![s],
    decreases s.len(),
{
    if s.len() == 0 {
        assert(s =~= Seq::<char>::empty());
    } else {
        lemma_split_comma_free(s.drop_last());
        let rest = spec_split_commas(s.drop_last());
        assert(rest == seq![s.drop_last()]);
        assert(rest.last() == s.drop_last());
        assert(s.drop_last().push(s.last()) =~= s);
        assert(rest.update(0, s) =~= seq![s]);
    }
}

proof fn lemma_split_append(t: Seq<char>, x: Seq<char>)
    requires
        comma_free(x),
    ensures
        spec_split_commas(t + seq![','] + x) == spec_split_commas(t).push(x),
    decreases x.len(),
{
    lemma_split_commas_nonempty(t);
    if x.len() == 0 {
        let s = t + seq![','] + x;
        assert(s.last() == ',');
        assert(s.drop_last() =~= t);
        assert(x =~= Seq::<char>::empty());
    } else {
        let s = t + seq![','] + x;
        assert(s.last() == x.last());
        assert(s.drop_last() =~= t + seq![','] + x.drop_last());
        lemma_split_append(t, x.drop_last());
        let rest = spec_split_commas(s.drop_last());
        assert(rest == spec_split_commas(t).push(x.drop_last()));
        assert(rest.last() == x.drop_last());
        assert(x.drop_last().push(x.last()) =~= x);
        assert(spec_split_commas(s) == rest.update(rest.len() - 1, x));
        assert(rest.update(rest.len() - 1, x) =~= spec_split_commas(t).push(x));
    }
}

/// Law: items joined with commas split back into exactly those items, for
/// any non-empty list of comma-free items.
pub proof fn lemma_split_of_join(items: Seq<Seq<char>>)
    requires
        items.len() >= 1,
        forall|i: int| 0 <= i < items.len() ==> comma_free(#[trigger] items[i]),
    ensures
        spec_split_commas(spec_join_commas(items)) == items,
    decreases items.len(),
{
    if items.len() == 1 {
        lemma_split_comma_free(items[0]);
        assert(seq![items[0]] =~= items);
    } else {
        let prefix = items.drop_last();
        let x = items.last();
        assert(prefix.push(x) =~= items);
        lemma_join_commas_push(prefix, x);
        assert(spec_join_commas(items) == spec_join_commas(prefix) + seq![','] + x);
        lemma_split_of_join(prefix);
        lemma_split_append(spec_join_commas(prefix), x);
        assert(spec_split_commas(spec_join_commas(prefix)).push(x) =~= items);
    }
}

/// Join items with commas, exactly as the store's text column keeps them.
pub fn join_commas(items: &Vec<String>) -> (r: String)
    ensures
        r@ == spec_join_commas(items@.map_values(|t: String| t@)),
{
    let ghost m = items@.map_values(|t: String| t@);
    let mut r = String::new();
    let n = items.len();
    let mut i: usize = 0;
    while i < n
        invariant
            n == items@.len(),
            0 <= i <= n,
            m == items@.map_values(|t: String| t@),
            m.len() == n,
            r@ == spec_join_commas(m.take(i as int)),
        decreases n - i,
    {
        if i > 0 {
            r.append(",");
            proof {
                reveal_strlit(",");
            }
        }
        r.append(items[i].as_str());
        proof {
            assert(m.take(i as int).push(m[i as int]) =~= m.take(i + 1 as int));
            lemma_join_commas_push(m.take(i as int), m[i as int]);
            if i == 0 {
                assert(r@ =~= spec_join_commas(m.take(i + 1 as int)));
            } else {
                assert(r@ =~= spec_join_commas(m.take(i as int)) + seq![','] + m[i as int]);
            }
        }
        i += 1;
    }
    proof {
        assert(m.take(n as int) =~= m);
    }
    r
}

/// Split a stored text column back into its comma-separated items.
pub fn split_commas(s: &str) -> (r: Vec<String>)
    ensures
        r@.map_values(|t: String| t@) == spec_split_commas(s@),
{
    let n = s.unicode_len();
    let mut r: Vec<String> = Vec::new();
    let mut start: usize = 0;
    let mut i: usize = 0;
    proof {
        assert(s@.take(0) =~= Seq::<char>::empty());
        assert(s@.subrange(0, 0) =~= Seq::<char>::empty());
        assert(r@.map_values(|t: String| t@) =~= Seq::<Seq<char>>::empty());
        assert(spec_split_commas(Seq::<char>::empty()) =~= seq![Seq::<char>::empty()]);
    }
    while i < n
        invariant
            n == s@.len(),
            0 <= start <= i <= n,
            r@.map_values(|t: String| t@).push(s@.subrange(start as int, i as int))
                =~= spec_split_commas(s@.take(i as int)),
        decreases n - i,
    {
        let c = s.get_char(i);
        proof {
            assert(s@.take(i + 1 as int).drop_last() =~= s@.take(i as int));
            assert(s@.take(i + 1 as int).last() == s@[i as int]);
        }
        if c == ',' {
            let chunk = s.substring_char(start, i).to_owned();
            r.push(chunk);
            start = i + 1;
            proof {
                assert(r@.map_values(|t: String| t@) =~= spec_split_commas(s@.take(i as int)));
                assert(s@.subrange(start as int, i + 1 as int) =~= Seq::<char>::empty());
                assert(r@.map_values(|t: String| t@).push(Seq::<char>::empty())
                    =~= spec_split_commas(s@.take(i + 1 as int)));
            }
        } else {
            proof {
                let pre = spec_split_commas(s@.take(i as int));
                lemma_split_commas_nonempty(s@.take(i as int));
                assert(pre.last() == s@.subrange(start as int, i as int));
                assert(s@.subrange(start as int, i as int).push(s@[i as int]) =~= s@.subrange(
                    start as int,
                    i + 1 as int,
                ));
                assert(r@.map_values(|t: String| t@).push(s@.subrange(start as int, i + 1 as int))
                    =~= pre.update(pre.len() - 1, pre.last().push(s@[i as int])));
            }
        }
        i += 1;
    }
    let last_chunk = s.substring_char(start, n).to_owned();
    r.push(last_chunk);
    proof {
        assert(s@.take(n as int) =~= s@);
        assert(r@.map_values(|t: String| t@) =~= spec_split_commas(s@));
    }
    r
}

} // verus!
