//! Parsing of token permission arguments: each `method:action` argument is
//! split at its first colon, and the actions are grouped by method, methods
//! in first-appearance order and actions in argument order.

use vstd::prelude::*;
use vstd::string::StrSliceExecFns;

verus! {

/// Why a permission argument is rejected.
#[derive(Clone, Copy, Debug, PartialEq, Eq, Structural)]
pub enum PermissionError {
    /// The argument carries no colon separating method from action.
    InvalidPermission,
}

/// Splits one permission argument at its first colon into method and
/// action; an argument without a colon is rejected.
pub fn split_permission(p: &str) -> (r: Option<(String, String)>)
    ensures
        match r {
            Some(ma) => exists|i: int|
                {
                    &&& 0 <= i < p@.len()
                    &&& #[trigger] p@[i] == ':'
                    &&& (forall|j: int| 0 <= j < i ==> #[trigger] p@[j] != ':')
                    &&& ma.0@ == p@.subrange(0, i)
                    &&& ma.1@ == p@.subrange(i + 1, p@.len() as int)
                },
            None => forall|i: int| 0 <= i < p@.len() ==> #[trigger] p@[i] != ':',
        },
{
    let len = p.unicode_len();
    let mut i: usize = 0;
    while i < len
        invariant
            0 <= i <= len,
            len == p@.len(),
            forall|j: int| 0 <= j < i ==> #[trigger] p@[j] != ':',
        decreases len - i,
    {
        let c = p.get_char(i);
        if c == ':' {
            let m = p.substring_char(0, i).to_owned();
            let a = p.substring_char(i + 1, len).to_owned();
            return Some((m, a));
        }
        i = i + 1;
    }
    None
}

/// The method and action of one argument, split at its first colon.
pub open spec fn split_pair(s: Seq<char>) -> (Seq<char>, Seq<char>) {
    let i = s.index_of_first(':').unwrap();
    (s.subrange(0, i), s.subrange(i + 1, s.len() as int))
}

/// All arguments split at their first colons.
pub open spec fn split_pairs(ss: Seq<Seq<char>>) -> Seq<(Seq<char>, Seq<char>)> {
    ss.map_values(|s: Seq<char>| split_pair(s))
}

/// One (method, action) pair added to grouped entries: the action is
/// appended to its method's list if the method already has an entry, and
/// opens a new entry at the end otherwise.
pub open spec fn group_insert(
    groups: Seq<(Seq<char>, Seq<Seq<char>>)>,
    m: Seq<char>,
    a: Seq<char>,
) -> Seq<(Seq<char>, Seq<Seq<char>>)>
    decreases groups.len(),
{
    if groups.len() == 0 {
        seq![(m, seq![a])]
    } else if groups[0].0 == m {
        seq![(groups[0].0, groups[0].1.push(a))] + groups.skip(1)
    } else {
        seq![groups[0]] + group_insert(groups.skip(1), m, a)
    }
}

/// The grouped form of a sequence of (method, action) pairs: methods in
/// first-appearance order, each with its actions in argument order.
pub open spec fn grouped(pairs: Seq<(Seq<char>, Seq<char>)>) -> Seq<(Seq<char>, Seq<Seq<char>>)>
    decreases pairs.len(),
{
    if pairs.len() == 0 {
        Seq::empty()
    } else {
        group_insert(grouped(pairs.drop_last()), pairs.last().0, pairs.last().1)
    }
}

/// The mathematical content of one grouped entry.
pub open spec fn group_view(g: (String, Vec<String>)) -> (Seq<char>, Seq<Seq<char>>) {
    (g.0@, g.1.deep_view())
}

/// The mathematical content of grouped entries.
pub open spec fn groups_view(gs: Seq<(String, Vec<String>)>) -> Seq<(Seq<char>, Seq<Seq<char>>)> {
    gs.map_values(|g: (String, Vec<String>)| group_view(g))
}

/// A first colon found by scanning is the first colon.
proof fn lemma_first_colon_position(s: Seq<char>, i: int)
    requires
        0 <= i < s.len(),
        s[i] == ':',
        forall|j: int| 0 <= j < i ==> #[trigger] s[j] != ':',
    ensures
        s.index_of_first(':') == Some(i),
{
    s.index_of_first_ensures(':');
    assert(s.contains(':'));
    let k = s.index_of_first(':').unwrap();
    if k < i {
        assert(s[k] != ':');
    }
    if k > i {
        assert(s[i] != ':');
    }
}

/// Inserting a pair whose method has an entry updates exactly that entry.
proof fn lemma_group_insert_at(
    groups: Seq<(Seq<char>, Seq<Seq<char>>)>,
    m: Seq<char>,
    a: Seq<char>,
    t: int,
)
    requires
        0 <= t < groups.len(),
        groups[t].0 == m,
        forall|j: int| 0 <= j < t ==> (#[trigger] groups[j]).0 != m,
    ensures
        group_insert(groups, m, a) =~= groups.update(t, (groups[t].0, groups[t].1.push(a))),
    decreases t,
{
    if t == 0 {
        assert(group_insert(groups, m, a) =~= groups.update(
            0,
            (groups[0].0, groups[0].1.push(a)),
        ));
    } else {
        assert(groups[0].0 != m);
        lemma_group_insert_at(groups.skip(1), m, a, t - 1);
        assert(group_insert(groups, m, a) =~= groups.update(
            t,
            (groups[t].0, groups[t].1.push(a)),
        ));
    }
}

/// Inserting a pair whose method has no entry appends a new entry.
proof fn lemma_group_insert_absent(groups: Seq<(Seq<char>, Seq<Seq<char>>)>, m: Seq<char>, a: Seq<char>)
    requires
        forall|j: int| 0 <= j < groups.len() ==> (#[trigger] groups[j]).0 != m,
    ensures
        group_insert(groups, m, a) =~= groups.push((m, seq![a])),
    decreases groups.len(),
{
    if groups.len() > 0 {
        lemma_group_insert_absent(groups.skip(1), m, a);
        assert(group_insert(groups, m, a) =~= groups.push((m, seq![a])));
    }
}

/// The position of the entry a method's actions are collected under, if the
/// method has one yet.
fn find_group(groups: &Vec<(String, Vec<String>)>, m: &String) -> (r: Option<usize>)
    ensures
        match r {
            Some(gi) => {
                &&& gi < groups@.len()
                &&& (#[trigger] groups@[gi as int]).0@ == m@
                &&& (forall|j: int| 0 <= j < gi ==> (#[trigger] groups@[j]).0@ != m@)
            },
            None => forall|j: int| 0 <= j < groups@.len() ==> (#[trigger] groups@[j]).0@ != m@,
        },
{
    let mut gi: usize = 0;
    while gi < groups.len()
        invariant
            0 <= gi <= groups@.len(),
            forall|j: int| 0 <= j < gi ==> (#[trigger] groups@[j]).0@ != m@,
        decreases groups@.len() - gi,
    {
        if groups[gi].0 == *m {
            return Some(gi);
        }
        gi = gi + 1;
    }
    None
}

/// Parses the permission arguments of a token-generation request. Succeeds
/// exactly when every argument carries a colon, with the actions grouped by
/// method; otherwise the first argument without one is reported.
pub fn parse_permissions(perms: &Vec<String>) -> (r: Result<
    Vec<(String, Vec<String>)>,
    PermissionError,
>)
    ensures
        match r {
            Ok(groups) => {
                &&& (forall|k: int|
                    0 <= k < perms@.len() ==> (#[trigger] perms@[k])@.contains(':'))
                &&& groups_view(groups@) == grouped(split_pairs(perms.deep_view()))
            },
            Err(e) => {
                &&& e == PermissionError::InvalidPermission
                &&& exists|k: int|
                    {
                        &&& 0 <= k < perms@.len()
                        &&& !(#[trigger] perms@[k])@.contains(':')
                        &&& (forall|t: int|
                            0 <= t < k ==> (#[trigger] perms@[t])@.contains(':'))
                    }
            },
        },
{
    let mut groups: Vec<(String, Vec<String>)> = Vec::new();
    let mut k: usize = 0;
    while k < perms.len()
        invariant
            0 <= k <= perms@.len(),
            forall|t: int| 0 <= t < k ==> (#[trigger] perms@[t])@.contains(':'),
            groups_view(groups@) == grouped(split_pairs(perms.deep_view().take(k as int))),
        decreases perms@.len() - k,
    {
        let ghost prior_groups = groups@;
        match split_permission(perms[k].as_str()) {
            None => {
                proof {
                    assert(!perms@[k as int]@.contains(':'));
                }
                return Err(PermissionError::InvalidPermission);
            },
            Some((m, a)) => {
                let ghost m_view = m@;
                let ghost a_view = a@;
                proof {
                    let s = perms@[k as int]@;
                    let i = choose|i: int|
                        {
                            &&& 0 <= i < s.len()
                            &&& #[trigger] s[i] == ':'
                            &&& (forall|j: int| 0 <= j < i ==> #[trigger] s[j] != ':')
                            &&& m_view == s.subrange(0, i)
                            &&& a_view == s.subrange(i + 1, s.len() as int)
                        };
                    lemma_first_colon_position(s, i);
                    assert(s.contains(':'));
                    assert((m_view, a_view) == split_pair(s));
                }
                match find_group(&groups, &m) {
                    Some(gi) => {
                        let kv = groups.remove(gi);
                        let mut acts = kv.1;
                        let ghost acts_before = acts.deep_view();
                        acts.push(a);
                        let ghost acts_after = acts.deep_view();
                        groups.insert(gi, (kv.0, acts));
                        proof {
                            assert(acts_after =~= acts_before.push(a_view));
                            lemma_group_insert_at(
                                groups_view(prior_groups),
                                m_view,
                                a_view,
                                gi as int,
                            );
                            assert(groups_view(groups@) =~= group_insert(
                                groups_view(prior_groups),
                                m_view,
                                a_view,
                            ));
                        }
                    },
                    None => {
                        let mut acts: Vec<String> = Vec::new();
                        acts.push(a);
                        let ghost acts_after = acts.deep_view();
                        groups.push((m, acts));
                        proof {
                            assert(acts_after =~= seq![a_view]);
                            lemma_group_insert_absent(groups_view(prior_groups), m_view, a_view);
                            assert(groups_view(groups@) =~= group_insert(
                                groups_view(prior_groups),
                                m_view,
                                a_view,
                            ));
                        }
                    },
                }
                proof {
                    let views = perms.deep_view();
                    assert(views.take(k + 1 as int).drop_last() =~= views.take(k as int));
                    assert(views.take(k + 1 as int).last() == views[k as int]);
                    assert(split_pairs(views.take(k + 1 as int)).drop_last() =~= split_pairs(
                        views.take(k as int),
                    ));
                    assert(split_pairs(views.take(k + 1 as int)).last() == split_pair(
                        views[k as int],
                    ));
                    assert(split_pairs(views.take(k + 1 as int)).len() > 0);
                    assert(grouped(split_pairs(views.take(k + 1 as int))) == group_insert(
                        grouped(split_pairs(views.take(k as int))),
                        m_view,
                        a_view,
                    ));
                }
            },
        }
        k = k + 1;
    }
    proof {
        assert(perms.deep_view().take(perms@.len() as int) =~= perms.deep_view());
    }
    Ok(groups)
}

} // verus!
